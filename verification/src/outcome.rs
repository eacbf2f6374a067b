//! The result shapes that resolution steps produce, and their mathematical
//! images.

use vstd::prelude::*;
use crate::errors::{ResolveError, SpecErr};

verus! {

/// What a resolve call produced: a path, a terminal error, or a filesystem
/// query the snapshot could not answer.
pub enum Outcome {
    /// The resolved absolute file path.
    Resolved(String),
    /// A terminal failure.
    Failed(ResolveError),
    /// The snapshot lacks a stat answer for this path.
    NeedStat(String),
    /// The snapshot lacks a read answer for this path.
    NeedRead(String),
}

/// Mathematical image of an [`Outcome`].
pub enum SpecOutcome {
    Resolved(Seq<char>),
    Failed(SpecErr),
    NeedStat(Seq<char>),
    NeedRead(Seq<char>),
}

/// The executable outcome is the image of the given mathematical one.
pub open spec fn outcome_matches(e: Outcome, g: SpecOutcome) -> bool {
    match (e, g) {
        (Outcome::Resolved(p), SpecOutcome::Resolved(q)) => p@ == q,
        (Outcome::Failed(x), SpecOutcome::Failed(y)) => x.kind == y.kind && x.message@ == y.message,
        (Outcome::NeedStat(p), SpecOutcome::NeedStat(q)) => p@ == q,
        (Outcome::NeedRead(p), SpecOutcome::NeedRead(q)) => p@ == q,
        _ => false,
    }
}

/// Two outcomes agree: the same variant, carrying equal paths, or errors of
/// the same kind with equal messages.
pub open spec fn outcome_eq(a: Outcome, b: Outcome) -> bool {
    match (a, b) {
        (Outcome::Resolved(p), Outcome::Resolved(q)) => p@ == q@,
        (Outcome::Failed(x), Outcome::Failed(y)) => x.kind == y.kind && x.message@ == y.message@,
        (Outcome::NeedStat(p), Outcome::NeedStat(q)) => p@ == q@,
        (Outcome::NeedRead(p), Outcome::NeedRead(q)) => p@ == q@,
        _ => false,
    }
}

/// What resolving one "exports"/"imports" target produced: a path, a
/// no-match, a terminal error, or a filesystem query.
pub enum TargetStep {
    /// The target resolved to this path.
    Hit(String),
    /// The target matched nothing ("not found", not an error).
    Miss,
    /// A terminal failure.
    Failed(ResolveError),
    /// The snapshot lacks a stat answer for this path.
    NeedStat(String),
    /// The snapshot lacks a read answer for this path.
    NeedRead(String),
}

/// Mathematical image of a [`TargetStep`].
pub enum SpecTargetStep {
    Hit(Seq<char>),
    Miss,
    Failed(SpecErr),
    NeedStat(Seq<char>),
    NeedRead(Seq<char>),
}

/// The executable target step is the image of the given mathematical one.
pub open spec fn target_step_matches(e: TargetStep, g: SpecTargetStep) -> bool {
    match (e, g) {
        (TargetStep::Hit(p), SpecTargetStep::Hit(q)) => p@ == q,
        (TargetStep::Miss, SpecTargetStep::Miss) => true,
        (TargetStep::Failed(x), SpecTargetStep::Failed(y)) => x.kind == y.kind && x.message@
            == y.message,
        (TargetStep::NeedStat(p), SpecTargetStep::NeedStat(q)) => p@ == q,
        (TargetStep::NeedRead(p), SpecTargetStep::NeedRead(q)) => p@ == q,
        _ => false,
    }
}

} // verus!
