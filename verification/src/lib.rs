//! Discrete-event control models for physical resources.
//!
//! Resources (robot arms, grippers, vision-frame lockers, PLC I/O) are
//! described as typed state machines: named variables over finite domains,
//! boolean guards, atomic effect batches, and a four-way transition taxonomy
//! (Controlled / Effect / Runner / Auto) that gives every asynchronous
//! actuator the same trigger/done/error handshake.  Operations and intentions
//! layer planner-visible goals over the resource handshakes, and a model
//! aggregates everything together with an initial world-state snapshot.

pub mod action;
pub mod channel;
pub mod error;
pub mod intention;
pub mod laws;
pub mod model;
pub mod operation;
pub mod resource;
pub mod resources;
pub mod scenario;
pub mod transition;
pub mod util;
pub mod validate;
pub mod variable;
pub mod planner;
pub mod predicate;
pub mod state;
pub mod value;

use vstd::prelude::*;
use crate::action::Action;
use crate::action::ActionView;
use crate::action::AssignSource;
use crate::action::SourceView;

verus! {

/// The assignment `target <- source`: copy one variable's current value
/// into another, read against the snapshot the effect batch fires on.
pub fn assign(target: usize, source: usize) -> (r: Action)
    ensures
        r@ == (ActionView { target: target as int, source: SourceView::Var(source as int) }),
{
    Action { target, source: AssignSource::Var(source) }
}

} // verus!
