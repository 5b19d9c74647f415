//! Intentions: top-level, independently toggled recurring goal cycles.

use vstd::prelude::*;
use crate::action::Action;
use crate::action::ActionView;
use crate::action::dup_actions;
use crate::error::SpError;
use crate::model::Model;
use crate::model::ModelView;
use crate::model::intention_path;
use crate::predicate::PredView;
use crate::predicate::Predicate;
use crate::state::SPState;
use crate::value::Value;
use crate::value::ValueType;
use crate::value::ValueView;
use crate::value::VariableKind;
use crate::variable::Variable;
use crate::variable::VariableView;

verus! {

/// An intention: an enable predicate gating participation, a forward-goal
/// and a reset-goal predicate defining a two-phase oscillation, and an
/// extra action batch.  Its lifecycle (paused, active) lives in a
/// path-addressable status variable.  Intentions own no variables; they
/// reference operation and product state only through their predicates.
#[derive(Debug)]
pub struct Intention {
    pub name: String,
    pub path: String,
    pub status: usize,
    pub auto: bool,
    pub enabled: Predicate,
    pub forward_goal: Predicate,
    pub reset_goal: Predicate,
    pub actions: Vec<Action>,
}

/// The mathematical abstraction of an [`Intention`].
#[verifier::ext_equal]
pub struct IntentionView {
    pub name: Seq<char>,
    pub path: Seq<char>,
    pub status: int,
    pub auto: bool,
    pub enabled: PredView,
    pub forward_goal: PredView,
    pub reset_goal: PredView,
    pub actions: Seq<ActionView>,
}

impl View for Intention {
    type V = IntentionView;

    open spec fn view(&self) -> IntentionView {
        IntentionView {
            name: self.name@,
            path: self.path@,
            status: self.status as int,
            auto: self.auto,
            enabled: self.enabled@,
            forward_goal: self.forward_goal@,
            reset_goal: self.reset_goal@,
            actions: self.actions.deep_view(),
        }
    }
}

impl DeepView for Intention {
    type V = IntentionView;

    open spec fn deep_view(&self) -> IntentionView {
        self.view()
    }
}

/// The status variable an intention declares: paused or active, starting
/// paused (the first domain value).
pub open spec fn intention_status_variable(model_name: Seq<char>, name: Seq<char>) -> VariableView {
    VariableView {
        path: intention_path(model_name, name),
        kind: VariableKind::Estimated,
        ty: ValueType::Str,
        domain: seq![ValueView::Str("paused"@), ValueView::Str("active"@)],
        initial: None,
        definition: None,
    }
}

/// The goal an intention currently drives toward in snapshot `s`: nothing
/// while it is paused or its enable predicate is false; else its
/// forward-goal until that holds, then its reset-goal, giving the two-phase
/// oscillation.
pub open spec fn spec_current_goal(iv: IntentionView, s: Seq<ValueView>) -> Option<PredView> {
    if s[iv.status] != ValueView::Str("active"@) || !iv.enabled.holds(s) {
        None
    } else if !iv.forward_goal.holds(s) {
        Some(iv.forward_goal)
    } else {
        Some(iv.reset_goal)
    }
}

impl Intention {
    /// The goal this intention currently asks the planner to pursue, if
    /// any: an undefined-variable error exactly when the status variable or
    /// a predicate consulted on the way mentions a variable the snapshot
    /// does not cover.
    pub fn current_goal(&self, state: &SPState) -> (r: Result<Option<&Predicate>, SpError>)
        ensures
            r.is_ok() <==> (self@.status < state@.len() && self@.enabled.refs_ok(
                state@.len() as int,
            ) && (spec_current_goal(self@, state@) is Some ==> self@.forward_goal.refs_ok(
                state@.len() as int,
            ))),
            r matches Ok(o) ==> (match o {
                None => spec_current_goal(self@, state@) is None,
                Some(p) => spec_current_goal(self@, state@) == Some(p@),
            }),
            r matches Err(e) ==> e matches SpError::UndefinedVariable(_),
    {
        if self.status >= state.len() {
            return Err(SpError::UndefinedVariable(self.status));
        }
        let active = state.get(self.status).eq_value(&Value::text("active"));
        match self.enabled.eval(state) {
            Err(e) => Err(e),
            Ok(en) => {
                if !active || !en {
                    Ok(None)
                } else {
                    match self.forward_goal.eval(state) {
                        Err(e) => Err(e),
                        Ok(false) => Ok(Some(&self.forward_goal)),
                        Ok(true) => Ok(Some(&self.reset_goal)),
                    }
                }
            },
        }
    }
}


/// Declaring an intention: its status variable is appended and the
/// intention recorded.
pub open spec fn spec_add_intention(
    m: ModelView,
    name: Seq<char>,
    auto: bool,
    enabled: PredView,
    forward_goal: PredView,
    reset_goal: PredView,
    actions: Seq<ActionView>,
) -> ModelView {
    ModelView {
        variables: m.variables.push(intention_status_variable(m.name, name)),
        intentions: m.intentions.push(
            IntentionView {
                name: name,
                path: intention_path(m.name, name),
                status: m.variables.len() as int,
                auto: auto,
                enabled: enabled,
                forward_goal: forward_goal,
                reset_goal: reset_goal,
                actions: actions,
            },
        ),
        ..m
    }
}

impl Model {
    /// Declare an intention: an auto-run flag, an enable predicate, the
    /// forward-goal and reset-goal predicates of its two-phase cycle, and
    /// an extra action batch.  Declares the intention's status variable;
    /// returns the intention's index.
    pub fn add_intention(
        &mut self,
        name: &str,
        auto: bool,
        enabled: &Predicate,
        forward_goal: &Predicate,
        reset_goal: &Predicate,
        actions: &Vec<Action>,
    ) -> (r: usize)
        ensures
            r == old(self)@.intentions.len(),
            final(self)@ == spec_add_intention(
                old(self)@,
                name@,
                auto,
                enabled@,
                forward_goal@,
                reset_goal@,
                actions.deep_view(),
            ),
    {
        let idx = self.intentions.len();
        let status = self.variables.len();
        let mut spath = self.name.clone();
        spath.append("/intentions/");
        spath.append(name);
        let mut sdomain: Vec<Value> = Vec::new();
        sdomain.push(Value::text("paused"));
        sdomain.push(Value::text("active"));
        proof {
            assert(sdomain.deep_view() =~= seq![
                ValueView::Str("paused"@),
                ValueView::Str("active"@),
            ]);
        }
        let svar = Variable {
            path: spath,
            kind: VariableKind::Estimated,
            ty: ValueType::Str,
            domain: sdomain,
            initial: None,
            definition: None,
        };
        proof {
            assert(svar@ =~~= intention_status_variable(old(self)@.name, name@));
        }
        self.variables.push(svar);
        proof {
            assert(self.variables.deep_view() =~~= old(self)@.variables.push(
                intention_status_variable(old(self)@.name, name@),
            ));
        }
        let mut ipath = self.name.clone();
        ipath.append("/intentions/");
        ipath.append(name);
        let intent = Intention {
            name: name.to_owned(),
            path: ipath,
            status,
            auto,
            enabled: enabled.dup(),
            forward_goal: forward_goal.dup(),
            reset_goal: reset_goal.dup(),
            actions: dup_actions(actions),
        };
        self.intentions.push(intent);
        proof {
            assert(self.intentions.deep_view() =~~= old(self)@.intentions.push(
                IntentionView {
                    name: name@,
                    path: intention_path(old(self)@.name, name@),
                    status: status as int,
                    auto: auto,
                    enabled: enabled@,
                    forward_goal: forward_goal@,
                    reset_goal: reset_goal@,
                    actions: actions.deep_view(),
                },
            ));
        }
        idx
    }
}

} // verus!
