//! Conversions of this crate's errors into standard I/O errors.
//!
//! Each error converts to a `std::io::Error` whose kind is the one that the error's
//! `io_error_kind` method states and whose payload is the error's message. A
//! [`SolveError`] converts as the error it wraps does: same kind, same payload.
//!
//! The errors of this crate do not implement `std::error::Error`, so the payload is
//! the message text rather than the error value; and since an `std::io::Error` value
//! cannot be written in a specification, `from_spec` is left unused
//! (`obeys_from_spec` is false) and each `from` states its result by its own clauses.

use vstd::prelude::*;

use crate::error::{
    ConfigError, IoErrorKind, ModelError, NoSolution, SolveError, config_error_message,
    model_error_message, no_solution_message,
};

verus! {

#[verifier::external_type_specification]
#[verifier::external_body]
pub struct ExIoError(std::io::Error);

/// What `std::io::Error::kind` returns for an error, read as an [`IoErrorKind`].
pub uninterp spec fn io_error_kind_of(e: std::io::Error) -> IoErrorKind;

/// The text that an error built by `std::io::Error::new` carries as its payload (and
/// displays).
pub uninterp spec fn io_error_payload(e: std::io::Error) -> Seq<char>;

/// Builds a `std::io::Error` with `std::io::Error::new`, from the standard kind that
/// corresponds to `kind` and the text `message` as payload.
///
/// The contract states what `std::io::Error::new` documents: the error has the given
/// kind and carries the given payload.
#[verifier::external_body]
fn new_io_error(kind: IoErrorKind, message: String) -> (r: std::io::Error)
    ensures
        io_error_kind_of(r) == kind,
        io_error_payload(r) == message@,
{
    let kind = match kind {
        IoErrorKind::InvalidInput => std::io::ErrorKind::InvalidInput,
        IoErrorKind::InvalidData => std::io::ErrorKind::InvalidData,
        IoErrorKind::Other => std::io::ErrorKind::Other,
    };
    std::io::Error::new(kind, message)
}

impl From<ConfigError> for std::io::Error {
    fn from(err: ConfigError) -> (r: std::io::Error)
        ensures
            io_error_kind_of(r) == IoErrorKind::InvalidInput,
            io_error_payload(r) == config_error_message(err@),
    {
        new_io_error(err.io_error_kind(), err.to_string())
    }
}

impl vstd::std_specs::convert::FromSpecImpl<ConfigError> for std::io::Error {
    open spec fn obeys_from_spec() -> bool {
        false
    }

    open spec fn from_spec(v: ConfigError) -> std::io::Error {
        arbitrary()
    }
}

impl From<ModelError> for std::io::Error {
    fn from(err: ModelError) -> (r: std::io::Error)
        ensures
            io_error_kind_of(r) == IoErrorKind::InvalidData,
            io_error_payload(r) == model_error_message(err),
    {
        new_io_error(err.io_error_kind(), err.to_string())
    }
}

impl vstd::std_specs::convert::FromSpecImpl<ModelError> for std::io::Error {
    open spec fn obeys_from_spec() -> bool {
        false
    }

    open spec fn from_spec(v: ModelError) -> std::io::Error {
        arbitrary()
    }
}

impl From<NoSolution> for std::io::Error {
    fn from(err: NoSolution) -> (r: std::io::Error)
        ensures
            io_error_kind_of(r) == IoErrorKind::InvalidData,
            io_error_payload(r) == no_solution_message(err),
    {
        new_io_error(err.io_error_kind(), err.to_string())
    }
}

impl vstd::std_specs::convert::FromSpecImpl<NoSolution> for std::io::Error {
    open spec fn obeys_from_spec() -> bool {
        false
    }

    open spec fn from_spec(v: NoSolution) -> std::io::Error {
        arbitrary()
    }
}

impl From<SolveError> for std::io::Error {
    fn from(err: SolveError) -> (r: std::io::Error)
        ensures
            io_error_kind_of(r) == match err {
                SolveError::Config(_) => IoErrorKind::InvalidInput,
                SolveError::Model(_) => IoErrorKind::InvalidData,
                SolveError::NoSolution(_) => IoErrorKind::InvalidData,
                SolveError::Gurobi(_) => IoErrorKind::Other,
            },
            io_error_payload(r) == match err {
                SolveError::Config(e) => config_error_message(e@),
                SolveError::Model(e) => model_error_message(e),
                SolveError::NoSolution(e) => no_solution_message(e),
                SolveError::Gurobi(e) => e.message@,
            },
    {
        let kind = err.io_error_kind();
        match err {
            SolveError::Config(e) => new_io_error(kind, e.to_string()),
            SolveError::Model(e) => new_io_error(kind, e.to_string()),
            SolveError::NoSolution(e) => new_io_error(kind, e.to_string()),
            SolveError::Gurobi(e) => new_io_error(kind, e.message),
        }
    }
}

impl vstd::std_specs::convert::FromSpecImpl<SolveError> for std::io::Error {
    open spec fn obeys_from_spec() -> bool {
        false
    }

    open spec fn from_spec(v: SolveError) -> std::io::Error {
        arbitrary()
    }
}

} // verus!
