//! Choosing a solver backend: from a name, from the `LP_SOLVER` setting, and the
//! Gurobi-first strategy with its fall back to COIN-OR CBC.

use vstd::prelude::*;
use vstd::string::*;

use crate::error::{ConfigError, ConfigErrorView, SolveError, solve_error_message};
use crate::text::same_text;

verus! {

/// Available LP solver backends
#[derive(Debug, Clone, Copy, PartialEq, Eq, Structural)]
pub enum SolverBackend {
    /// Gurobi commercial solver
    Gurobi,
    /// Coin CBC open-source solver
    CoinCbc,
}

/// Which backends are enabled.
#[derive(Debug, Clone, Copy, PartialEq, Eq, Structural)]
pub struct BackendFeatures {
    /// The Gurobi backend is enabled.
    pub gurobi: bool,
    /// The COIN-OR CBC backend is enabled.
    pub coin_cbc: bool,
}

/// The order in which a solve tries the backends.
#[derive(Debug, Clone, Copy, PartialEq, Eq, Structural)]
pub struct SolvePlan {
    /// The backend that runs first.
    pub first: SolverBackend,
    /// The backend that runs if the first one fails for a reason other than a
    /// no-solution outcome.
    pub fallback: Option<SolverBackend>,
}

/// The result of choosing a backend, with the error taken by its view.
pub open spec fn choice_view(r: Result<SolverBackend, ConfigError>) -> Result<SolverBackend, ConfigErrorView> {
    match r {
        Ok(b) => Ok(b),
        Err(e) => Err(e@),
    }
}

/// The result of planning a solve, with the error taken by its view.
pub open spec fn plan_view(r: Result<SolvePlan, ConfigError>) -> Result<SolvePlan, ConfigErrorView> {
    match r {
        Ok(p) => Ok(p),
        Err(e) => Err(e@),
    }
}

/// What `str::to_lowercase` returns for a string.
pub uninterp spec fn lowercase(s: Seq<char>) -> Seq<char>;

/// Calls `str::to_lowercase`; the result is `lowercase` of the argument.
#[verifier::external_body]
fn to_lowercase(s: &str) -> (r: String)
    ensures
        r@ == lowercase(s@),
{
    s.to_lowercase()
}

/// The backend that a solver name resolves to, given the name already lowercased
/// (`lower`) and as it was written (`name`).
pub open spec fn backend_for_lowercase(lower: Seq<char>, name: Seq<char>, features: BackendFeatures)
    -> Result<SolverBackend, ConfigErrorView>
{
    if lower == "gurobi"@ {
        if features.gurobi {
            Ok(SolverBackend::Gurobi)
        } else {
            Err(ConfigErrorView::SolverNotEnabled("gurobi"@))
        }
    } else if lower == "coin_cbc"@ || lower == "coin-cbc"@ || lower == "cbc"@ {
        if features.coin_cbc {
            Ok(SolverBackend::CoinCbc)
        } else {
            Err(ConfigErrorView::SolverNotEnabled("coin_cbc"@))
        }
    } else {
        Err(ConfigErrorView::InvalidSolverName(name))
    }
}

/// The backend that a solver name resolves to, case-insensitively.
pub open spec fn backend_for_name(name: Seq<char>, features: BackendFeatures) -> Result<SolverBackend, ConfigErrorView> {
    backend_for_lowercase(lowercase(name), name, features)
}

/// The backend used when `LP_SOLVER` holds `setting` (or is unset, `None`).
pub open spec fn backend_for_setting(setting: Option<Seq<char>>, features: BackendFeatures) -> Result<SolverBackend, ConfigErrorView> {
    match setting {
        Some(name) => backend_for_name(name, features),
        None => if features.gurobi {
            Ok(SolverBackend::Gurobi)
        } else if features.coin_cbc {
            Ok(SolverBackend::CoinCbc)
        } else {
            Err(ConfigErrorView::NoBackendAvailable)
        },
    }
}

/// The plan of a solve when `LP_SOLVER` holds `setting` (or is unset, `None`).
///
/// A setting names the only backend that runs. Without one, Gurobi runs first (if
/// enabled) with CBC (if enabled) as its fall back, else CBC alone.
pub open spec fn plan_for_setting(setting: Option<Seq<char>>, features: BackendFeatures) -> Result<SolvePlan, ConfigErrorView> {
    match setting {
        Some(name) => match backend_for_name(name, features) {
            Ok(b) => Ok(SolvePlan { first: b, fallback: None }),
            Err(e) => Err(e),
        },
        None => if features.gurobi {
            Ok(SolvePlan {
                first: SolverBackend::Gurobi,
                fallback: if features.coin_cbc { Some(SolverBackend::CoinCbc) } else { None },
            })
        } else if features.coin_cbc {
            Ok(SolvePlan { first: SolverBackend::CoinCbc, fallback: None })
        } else {
            Err(ConfigErrorView::NoBackendAvailable)
        },
    }
}

/// The view of an optional setting.
pub open spec fn setting_view(setting: Option<&str>) -> Option<Seq<char>> {
    match setting {
        Some(s) => Some(s@),
        None => None,
    }
}

/// The notice printed when a failed Gurobi solve falls back to CBC.
pub open spec fn fallback_notice_text(error: SolveError) -> Seq<char> {
    "Gurobi failed ("@ + solve_error_message(error) + "), falling back to Coin CBC"@
}

impl SolverBackend {
    /// Resolve a solver name that is already lowercased (`lower`) to a backend;
    /// `name` is the name as it was written, reported back if it is not recognised.
    pub fn backend_from_lowercase_name(lower: &str, name: &str, features: BackendFeatures) -> (r: Result<
        Self,
        ConfigError,
    >)
        ensures
            choice_view(r) == backend_for_lowercase(lower@, name@, features),
    {
        if same_text(lower, "gurobi") {
            if features.gurobi {
                Ok(SolverBackend::Gurobi)
            } else {
                Err(ConfigError::SolverNotEnabled { requested: "gurobi" })
            }
        } else if same_text(lower, "coin_cbc") || same_text(lower, "coin-cbc") || same_text(lower, "cbc") {
            if features.coin_cbc {
                Ok(SolverBackend::CoinCbc)
            } else {
                Err(ConfigError::SolverNotEnabled { requested: "coin_cbc" })
            }
        } else {
            Err(ConfigError::InvalidSolverName { name: String::from_str(name) })
        }
    }

    /// Resolve a solver name (as accepted in `LP_SOLVER`) to a backend,
    /// case-insensitively.
    ///
    /// Returns [`ConfigError::SolverNotEnabled`] if the named solver is not among
    /// `features`, or [`ConfigError::InvalidSolverName`] for an unrecognised name.
    pub fn backend_from_name(name: &str, features: BackendFeatures) -> (r: Result<Self, ConfigError>)
        ensures
            choice_view(r) == backend_for_name(name@, features),
    {
        let lower = to_lowercase(name);
        Self::backend_from_lowercase_name(lower.as_str(), name, features)
    }

    /// The backend to use when `LP_SOLVER` holds `setting`, or the preferred
    /// enabled backend when it is unset (`None`): Gurobi first, then CBC.
    pub fn from_env_or_default(setting: Option<&str>, features: BackendFeatures) -> (r: Result<
        Self,
        ConfigError,
    >)
        ensures
            choice_view(r) == backend_for_setting(setting_view(setting), features),
    {
        match setting {
            Some(name) => Self::backend_from_name(name, features),
            None => if features.gurobi {
                Ok(SolverBackend::Gurobi)
            } else if features.coin_cbc {
                Ok(SolverBackend::CoinCbc)
            } else {
                Err(ConfigError::NoBackendAvailable)
            },
        }
    }
}

/// Plan a solve: which backend runs first and which, if any, takes over when it fails.
pub fn plan_solve(setting: Option<&str>, features: BackendFeatures) -> (r: Result<SolvePlan, ConfigError>)
    ensures
        plan_view(r) == plan_for_setting(setting_view(setting), features),
{
    match setting {
        Some(_) => match SolverBackend::from_env_or_default(setting, features) {
            Ok(b) => Ok(SolvePlan { first: b, fallback: None }),
            Err(e) => Err(e),
        },
        None => if features.gurobi {
            let fallback = if features.coin_cbc { Some(SolverBackend::CoinCbc) } else { None };
            Ok(SolvePlan { first: SolverBackend::Gurobi, fallback })
        } else if features.coin_cbc {
            Ok(SolvePlan { first: SolverBackend::CoinCbc, fallback: None })
        } else {
            Err(ConfigError::NoBackendAvailable)
        },
    }
}

/// The backend to run after the first one of `plan` failed with `error`.
///
/// A no-solution outcome is authoritative and never falls back; any other failure
/// falls back to the plan's fall back, if it has one.
pub fn fallback_after(plan: &SolvePlan, error: &SolveError) -> (r: Option<SolverBackend>)
    ensures
        r == (if error is NoSolution { None } else { plan.fallback }),
{
    match error {
        SolveError::NoSolution(_) => None,
        _ => plan.fallback,
    }
}

/// The notice to print when a failed Gurobi solve falls back to CBC.
pub fn fallback_notice(error: &SolveError) -> (r: String)
    ensures
        r@ == fallback_notice_text(*error),
{
    let mut s = String::from_str("Gurobi failed (");
    s.append(error.to_string().as_str());
    s.append("), falling back to Coin CBC");
    s
}

/// Resolving a solver name ignores case: two names that lowercase alike resolve to
/// the same backend or the same error, except that an unrecognised name is reported
/// as it was written.
pub proof fn law_name_resolution_ignores_case(a: Seq<char>, b: Seq<char>, features: BackendFeatures)
    requires
        lowercase(a) == lowercase(b),
    ensures
        match (backend_for_name(a, features), backend_for_name(b, features)) {
            (Err(ConfigErrorView::InvalidSolverName(x)), Err(ConfigErrorView::InvalidSolverName(y))) => x == a
                && y == b,
            (ra, rb) => ra == rb,
        },
{
}

/// A backend named in `LP_SOLVER` is the only one that runs: the plan starts with it
/// and has no fall back. The plan succeeds exactly when the name resolves, to the
/// backend it resolves to, and fails with exactly the error of the resolution.
pub proof fn law_named_backend_runs_alone(name: Seq<char>, features: BackendFeatures)
    ensures
        plan_for_setting(Some(name), features) matches Ok(p) ==> {
            &&& p.fallback is None
            &&& backend_for_name(name, features) == Ok::<SolverBackend, ConfigErrorView>(p.first)
        },
        backend_for_name(name, features) matches Ok(b) ==> plan_for_setting(Some(name), features)
            == Ok::<SolvePlan, ConfigErrorView>(SolvePlan { first: b, fallback: None }),
        backend_for_name(name, features) matches Err(e) ==> plan_for_setting(Some(name), features)
            == Err::<SolvePlan, ConfigErrorView>(e),
{
}

/// A set `LP_SOLVER` resolves exactly as the solver name it holds does (so settings
/// that lowercase alike resolve alike).
pub proof fn law_setting_resolves_as_name(name: Seq<char>, features: BackendFeatures)
    ensures
        backend_for_setting(Some(name), features) == backend_for_name(name, features),
{
}

/// The four recognised names, lowercased, are pairwise different.
proof fn lemma_known_names_differ()
    ensures
        "gurobi"@ != "coin_cbc"@,
        "gurobi"@ != "coin-cbc"@,
        "gurobi"@ != "cbc"@,
{
    reveal_strlit("gurobi");
    reveal_strlit("coin_cbc");
    reveal_strlit("coin-cbc");
    reveal_strlit("cbc");
    assert("gurobi"@.len() != "coin_cbc"@.len());
    assert("gurobi"@.len() != "coin-cbc"@.len());
    assert("gurobi"@.len() != "cbc"@.len());
}

/// A resolved backend is the one the name names: `gurobi` (in any case) gives Gurobi
/// and nothing else does; `coin_cbc`, `coin-cbc` and `cbc` (in any case) give CBC and
/// nothing else does; each only when that backend is enabled. A named but disabled
/// backend is reported as not enabled, under its canonical name; any other name is
/// reported as invalid, as it was written.
pub proof fn law_resolved_backend_is_the_named_one(name: Seq<char>, features: BackendFeatures)
    ensures
        backend_for_name(name, features) == Ok::<SolverBackend, ConfigErrorView>(SolverBackend::Gurobi)
            <==> (lowercase(name) == "gurobi"@ && features.gurobi),
        backend_for_name(name, features) == Ok::<SolverBackend, ConfigErrorView>(SolverBackend::CoinCbc)
            <==> ((lowercase(name) == "coin_cbc"@ || lowercase(name) == "coin-cbc"@ || lowercase(name) == "cbc"@)
            && features.coin_cbc),
        backend_for_name(name, features) == Err::<SolverBackend, ConfigErrorView>(
            ConfigErrorView::SolverNotEnabled("gurobi"@),
        ) <==> (lowercase(name) == "gurobi"@ && !features.gurobi),
        backend_for_name(name, features) == Err::<SolverBackend, ConfigErrorView>(
            ConfigErrorView::SolverNotEnabled("coin_cbc"@),
        ) <==> ((lowercase(name) == "coin_cbc"@ || lowercase(name) == "coin-cbc"@ || lowercase(name) == "cbc"@)
            && !features.coin_cbc),
        backend_for_name(name, features) == Err::<SolverBackend, ConfigErrorView>(
            ConfigErrorView::InvalidSolverName(name),
        ) <==> (lowercase(name) != "gurobi"@ && lowercase(name) != "coin_cbc"@ && lowercase(name)
            != "coin-cbc"@ && lowercase(name) != "cbc"@),
{
    lemma_known_names_differ();
    reveal_strlit("gurobi");
    reveal_strlit("coin_cbc");
    assert("gurobi"@ != "coin_cbc"@);
}

/// With `LP_SOLVER` unset, a plan starts with the backend that `from_env_or_default`
/// picks, and only a Gurobi start can fall back (to CBC, when it is enabled).
pub proof fn law_default_plan(features: BackendFeatures)
    ensures
        plan_for_setting(None, features) matches Ok(p) ==> {
            &&& backend_for_setting(None, features) == Ok::<SolverBackend, ConfigErrorView>(p.first)
            &&& p.fallback is Some ==> p.first == SolverBackend::Gurobi && p.fallback == Some(
                SolverBackend::CoinCbc,
            ) && features.coin_cbc
        },
        plan_for_setting(None, features) is Err <==> !features.gurobi && !features.coin_cbc,
{
}

} // verus!
