//! Construction-time and planning-time failures.

use vstd::prelude::*;

verus! {

/// A failure surfaced while assembling a model or evaluating against a
/// snapshot.  Each aborts the surrounding call immediately; none is retried.
///
/// A fourth failure kind, a handshake fault (an action reporting
/// timeout/abort/cancel), is not a value of this type: it is captured as the
/// owning resource's error flag and absorbed by the resource's
/// error-handling transition, which resets derived state to "unknown".
#[derive(Debug)]
pub enum SpError {
    /// A variable was assigned a value outside its declared domain.
    /// Carries the index of the offending variable.
    DomainViolation(usize),
    /// A guard or effect references a variable index that is not declared.
    UndefinedVariable(usize),
    /// Two transitions, operations or intentions with the same name in one
    /// owner.  Carries the colliding name.
    NameCollision(String),
}

} // verus!
