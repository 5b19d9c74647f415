//! Transitions: named guard/effect rules with a four-way kind taxonomy.

use vstd::prelude::*;
use crate::action::Action;
use crate::action::ActionView;
use crate::action::actions_refs_ok;
use crate::action::apply_seq;
use crate::action::dup_actions;
use crate::error::SpError;
use crate::predicate::PredView;
use crate::predicate::Predicate;
use crate::state::SPState;

verus! {

/// The four transition kinds.
///
/// * `Controlled`: an externally issued command; the only kind a planner may
///   decide to fire.
/// * `Effect`: an environment-caused change the planner must account for but
///   cannot cause; the formal stand-in for measured feedback.
/// * `Runner`: structurally an effect, additionally guarded by live
///   feedback; fires only at execution time and is excluded from the formal
///   planning abstraction.
/// * `Auto`: fires deterministically whenever enabled, never requiring
///   planner choice.
#[derive(Clone, Copy, PartialEq, Eq, Structural, Debug)]
pub enum TransitionKind {
    Controlled,
    Effect,
    Runner,
    Auto,
}

/// A named transition rule: a primary guard and effect batch meaningful to
/// the planner, and a secondary ("runner") guard and effect batch consulted
/// only at execution time.
#[derive(Debug)]
pub struct Transition {
    pub name: String,
    pub guard: Predicate,
    pub runner_guard: Predicate,
    pub actions: Vec<Action>,
    pub runner_actions: Vec<Action>,
    pub kind: TransitionKind,
}

/// The mathematical abstraction of a [`Transition`].
#[verifier::ext_equal]
pub struct TransitionView {
    pub name: Seq<char>,
    pub guard: PredView,
    pub runner_guard: PredView,
    pub actions: Seq<ActionView>,
    pub runner_actions: Seq<ActionView>,
    pub kind: TransitionKind,
}

impl View for Transition {
    type V = TransitionView;

    open spec fn view(&self) -> TransitionView {
        TransitionView {
            name: self.name@,
            guard: self.guard@,
            runner_guard: self.runner_guard@,
            actions: self.actions.deep_view(),
            runner_actions: self.runner_actions.deep_view(),
            kind: self.kind,
        }
    }
}

impl DeepView for Transition {
    type V = TransitionView;

    open spec fn deep_view(&self) -> TransitionView {
        self.view()
    }
}

impl TransitionView {
    /// Every variable the transition's guards and effect batches mention
    /// lies below index `n`.
    pub open spec fn refs_ok(self, n: int) -> bool {
        &&& self.guard.refs_ok(n)
        &&& self.runner_guard.refs_ok(n)
        &&& actions_refs_ok(self.actions, n)
        &&& actions_refs_ok(self.runner_actions, n)
    }

    /// The snapshot after the primary effect batch fires against `s`.
    pub open spec fn apply_to(self, s: Seq<crate::value::ValueView>) -> Seq<
        crate::value::ValueView,
    > {
        apply_seq(self.actions, s)
    }
}

impl Transition {
    /// A new transition, in the argument order guard, runner guard, effect
    /// batch, runner effect batch, kind.
    pub fn new(
        name: &str,
        guard: Predicate,
        runner_guard: Predicate,
        actions: Vec<Action>,
        runner_actions: Vec<Action>,
        kind: TransitionKind,
    ) -> (r: Transition)
        ensures
            r@ == (TransitionView {
                name: name@,
                guard: guard@,
                runner_guard: runner_guard@,
                actions: actions.deep_view(),
                runner_actions: runner_actions.deep_view(),
                kind: kind,
            }),
    {
        Transition {
            name: name.to_owned(),
            guard,
            runner_guard,
            actions,
            runner_actions,
            kind,
        }
    }

    /// Whether the primary guard holds in `state`; an undefined-variable
    /// error exactly when the guard mentions a variable the snapshot does
    /// not cover.
    pub fn enabled(&self, state: &SPState) -> (r: Result<bool, SpError>)
        ensures
            r.is_ok() <==> self@.guard.refs_ok(state@.len() as int),
            r matches Ok(b) ==> b == self@.guard.holds(state@),
            r matches Err(e) ==> e matches SpError::UndefinedVariable(_),
    {
        self.guard.eval(state)
    }

    /// Apply the primary effect batch to `state`, without consulting the
    /// guard.
    pub fn apply(&self, state: &SPState) -> (r: Result<SPState, SpError>)
        ensures
            r.is_ok() <==> actions_refs_ok(self@.actions, state@.len() as int),
            r matches Ok(s2) ==> s2@ == self@.apply_to(state@),
            r matches Err(e) ==> e matches SpError::UndefinedVariable(_),
    {
        crate::action::apply_all(&self.actions, state)
    }

    /// Fire the transition if its primary guard holds: `Ok(Some(s2))` with
    /// the successor snapshot when enabled, `Ok(None)` when the guard is
    /// false, an undefined-variable error exactly when the guard, or, for an
    /// enabled transition, the effect batch, mentions an uncovered variable.
    pub fn try_fire(&self, state: &SPState) -> (r: Result<Option<SPState>, SpError>)
        ensures
            r.is_ok() <==> (self@.guard.refs_ok(state@.len() as int) && (self@.guard.holds(state@)
                ==> actions_refs_ok(self@.actions, state@.len() as int))),
            r matches Ok(o) ==> (o matches Some(s2) <==> self@.guard.holds(state@)),
            r matches Ok(o) ==> (o matches Some(s2) ==> s2@ == self@.apply_to(state@)),
            r matches Err(e) ==> e matches SpError::UndefinedVariable(_),
    {
        match self.guard.eval(state) {
            Err(e) => Err(e),
            Ok(false) => Ok(None),
            Ok(true) => {
                match crate::action::apply_all(&self.actions, state) {
                    Err(e) => Err(e),
                    Ok(s2) => Ok(Some(s2)),
                }
            },
        }
    }

    /// A copy of the transition, equal to the original.
    pub fn dup(&self) -> (r: Transition)
        ensures
            r@ == self@,
    {
        Transition {
            name: self.name.clone(),
            guard: self.guard.dup(),
            runner_guard: self.runner_guard.dup(),
            actions: dup_actions(&self.actions),
            runner_actions: dup_actions(&self.runner_actions),
            kind: self.kind,
        }
    }
}

/// A copy of a transition list, elementwise equal to the original.
pub fn dup_transitions(ts: &Vec<Transition>) -> (r: Vec<Transition>)
    ensures
        r.deep_view() == ts.deep_view(),
{
    let mut out: Vec<Transition> = Vec::new();
    let mut i: usize = 0;
    while i < ts.len()
        invariant
            0 <= i <= ts.len(),
            out.len() == i,
            forall|j: int| 0 <= j < i ==> out.deep_view()[j] == ts.deep_view()[j],
        decreases ts.len() - i,
    {
        out.push(ts[i].dup());
        i = i + 1;
    }
    assert(out.deep_view() =~= ts.deep_view());
    out
}

} // verus!
