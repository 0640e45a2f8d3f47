//! Error taxonomy for the bot core.

use vstd::prelude::*;

verus! {

/// Classifies every failure the core can report.
///
/// - `Storage`: the persistence layer failed; callers fall back to
///   defaults or surface the failure, never crash.
/// - `PermissionDenied`: a permission or ownership predicate was unmet.
/// - `Validation`: the input was rejected before any effect took place.
/// - `ExternalApi`: a platform call failed; the invocation fails.
#[derive(Clone, Copy, Debug, PartialEq, Eq, Structural)]
pub enum BotError {
    Storage,
    PermissionDenied,
    Validation,
    ExternalApi,
}

} // verus!
