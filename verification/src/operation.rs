//! Operations: two-tier goals coupling a planner-visible guard/effect pair
//! to a low-level goal over resource state.

use vstd::prelude::*;
use crate::action::Action;
use crate::action::ActionView;
use crate::action::SourceView;
use crate::action::dup_actions;
use crate::model::Model;
use crate::model::ModelView;
use crate::model::operation_path;
use crate::predicate::PredView;
use crate::predicate::Predicate;
use crate::transition::Transition;
use crate::transition::TransitionKind;
use crate::transition::TransitionView;
use crate::value::Value;
use crate::value::ValueType;
use crate::value::ValueView;
use crate::value::VariableKind;
use crate::variable::Variable;
use crate::variable::VariableView;

verus! {

/// An operation: a high-level guard and effect batch visible to the
/// planner, a low-level goal predicate the owning resources' handshakes
/// must satisfy, a rarely-used low-level compensating action batch applied
/// at completion, and an auto-completion flag.  Its lifecycle (init,
/// executing, completed) lives in a path-addressable status variable.
#[derive(Debug)]
pub struct Operation {
    pub name: String,
    pub path: String,
    pub status: usize,
    pub guard: Predicate,
    pub effects: Vec<Action>,
    pub goal: Predicate,
    pub actions: Vec<Action>,
    pub auto: bool,
    pub transitions: Vec<Transition>,
}

/// The mathematical abstraction of an [`Operation`].
#[verifier::ext_equal]
pub struct OperationView {
    pub name: Seq<char>,
    pub path: Seq<char>,
    pub status: int,
    pub guard: PredView,
    pub effects: Seq<ActionView>,
    pub goal: PredView,
    pub actions: Seq<ActionView>,
    pub auto: bool,
    pub transitions: Seq<TransitionView>,
}

impl View for Operation {
    type V = OperationView;

    open spec fn view(&self) -> OperationView {
        OperationView {
            name: self.name@,
            path: self.path@,
            status: self.status as int,
            guard: self.guard@,
            effects: self.effects.deep_view(),
            goal: self.goal@,
            actions: self.actions.deep_view(),
            auto: self.auto,
            transitions: self.transitions.deep_view(),
        }
    }
}

impl DeepView for Operation {
    type V = OperationView;

    open spec fn deep_view(&self) -> OperationView {
        self.view()
    }
}

/// The status variable an operation declares: init, executing or completed,
/// starting in init (the first domain value).
pub open spec fn op_status_variable(model_name: Seq<char>, name: Seq<char>) -> VariableView {
    VariableView {
        path: operation_path(model_name, name),
        kind: VariableKind::Estimated,
        ty: ValueType::Str,
        domain: seq![
            ValueView::Str("init"@),
            ValueView::Str("executing"@),
            ValueView::Str("completed"@),
        ],
        initial: None,
        definition: None,
    }
}

/// The operation's start transition: a Controlled command that may fire
/// when the operation is in init and its high-level guard holds; it moves
/// the status to executing and drops the shared `op_done` flag.
pub open spec fn op_start_transition(
    name: Seq<char>,
    status: int,
    guard: PredView,
    op_done: int,
) -> TransitionView {
    TransitionView {
        name: name + "_start"@,
        guard: PredView::And(
            Box::new(PredView::Eq(status, ValueView::Str("init"@))),
            Box::new(guard),
        ),
        runner_guard: PredView::True,
        actions: seq![
            ActionView { target: status, source: SourceView::Const(ValueView::Str("executing"@)) },
            ActionView { target: op_done, source: SourceView::Const(ValueView::Bool(false)) },
        ],
        runner_actions: Seq::empty(),
        kind: TransitionKind::Controlled,
    }
}

/// The operation's finish transition: fires when the operation is
/// executing and its low-level goal holds; it applies the high-level
/// effects and the low-level compensating actions, moves the status to
/// completed, and raises the shared `op_done` flag.  It is Auto exactly
/// when the operation auto-completes, else a Controlled decision.
pub open spec fn op_finish_transition(
    name: Seq<char>,
    status: int,
    goal: PredView,
    effects: Seq<ActionView>,
    actions: Seq<ActionView>,
    auto: bool,
    op_done: int,
) -> TransitionView {
    TransitionView {
        name: name + "_finish"@,
        guard: PredView::And(
            Box::new(PredView::Eq(status, ValueView::Str("executing"@))),
            Box::new(goal),
        ),
        runner_guard: PredView::True,
        actions: effects + actions + seq![
            ActionView { target: status, source: SourceView::Const(ValueView::Str("completed"@)) },
            ActionView { target: op_done, source: SourceView::Const(ValueView::Bool(true)) },
        ],
        runner_actions: Seq::empty(),
        kind: if auto {
            TransitionKind::Auto
        } else {
            TransitionKind::Controlled
        },
    }
}

/// The operation's reset transition: once completed, the operation returns
/// to init when its reset predicate (by default its high-level guard)
/// holds again, making cyclic operations re-armable.
pub open spec fn op_reset_transition(
    name: Seq<char>,
    status: int,
    reset_guard: PredView,
) -> TransitionView {
    TransitionView {
        name: name + "_reset"@,
        guard: PredView::And(
            Box::new(PredView::Eq(status, ValueView::Str("completed"@))),
            Box::new(reset_guard),
        ),
        runner_guard: PredView::True,
        actions: seq![
            ActionView { target: status, source: SourceView::Const(ValueView::Str("init"@)) },
        ],
        runner_actions: Seq::empty(),
        kind: TransitionKind::Auto,
    }
}

/// The three transitions an operation contributes to the flattened
/// transition system.
pub open spec fn op_transitions(
    name: Seq<char>,
    status: int,
    guard: PredView,
    goal: PredView,
    effects: Seq<ActionView>,
    actions: Seq<ActionView>,
    auto: bool,
    reset_guard: PredView,
    op_done: int,
) -> Seq<TransitionView> {
    seq![
        op_start_transition(name, status, guard, op_done),
        op_finish_transition(name, status, goal, effects, actions, auto, op_done),
        op_reset_transition(name, status, reset_guard),
    ]
}

/// The reset predicate an operation uses: the explicit one if given, else
/// the high-level guard.
pub open spec fn op_reset_pred(resets: Option<Predicate>, guard: PredView) -> PredView {
    match resets {
        Some(p) => p@,
        None => guard,
    }
}


/// Declaring an operation: its status variable is appended, and the
/// operation with its start, finish and reset transitions is recorded.
pub open spec fn spec_add_op(
    m: ModelView,
    name: Seq<char>,
    guard: PredView,
    effects: Seq<ActionView>,
    goal: PredView,
    actions: Seq<ActionView>,
    auto: bool,
    reset_guard: PredView,
) -> ModelView {
    ModelView {
        variables: m.variables.push(op_status_variable(m.name, name)),
        operations: m.operations.push(
            OperationView {
                name: name,
                path: operation_path(m.name, name),
                status: m.variables.len() as int,
                guard: guard,
                effects: effects,
                goal: goal,
                actions: actions,
                auto: auto,
                transitions: op_transitions(
                    name,
                    m.variables.len() as int,
                    guard,
                    goal,
                    effects,
                    actions,
                    auto,
                    reset_guard,
                    m.op_done,
                ),
            },
        ),
        ..m
    }
}

impl Model {
    /// Declare an operation: a high-level guard and effect batch for the
    /// planner, a low-level goal and compensating action batch for the
    /// resource handshakes, an auto-completion flag, and an optional
    /// explicit reset predicate.  Declares the operation's status variable
    /// and contributes its start, finish and reset transitions; returns the
    /// operation's index.
    pub fn add_op(
        &mut self,
        name: &str,
        guard: &Predicate,
        effects: &Vec<Action>,
        goal: &Predicate,
        actions: &Vec<Action>,
        auto: bool,
        resets: Option<Predicate>,
    ) -> (r: usize)
        ensures
            r == old(self)@.operations.len(),
            final(self)@ == spec_add_op(
                old(self)@,
                name@,
                guard@,
                effects.deep_view(),
                goal@,
                actions.deep_view(),
                auto,
                op_reset_pred(resets, guard@),
            ),
    {
        let ghost resetsv = op_reset_pred(resets, guard@);
        let op_idx = self.operations.len();
        let status = self.variables.len();

        // The status variable.
        let mut spath = self.name.clone();
        spath.append("/operations/");
        spath.append(name);
        let mut sdomain: Vec<Value> = Vec::new();
        sdomain.push(Value::text("init"));
        sdomain.push(Value::text("executing"));
        sdomain.push(Value::text("completed"));
        proof {
            assert(sdomain.deep_view() =~= seq![
                ValueView::Str("init"@),
                ValueView::Str("executing"@),
                ValueView::Str("completed"@),
            ]);
        }
        let svar = Variable {
            path: spath,
            kind: VariableKind::Estimated,
            ty: ValueType::Str,
            domain: sdomain,
            initial: None,
            definition: None,
        };
        proof {
            assert(svar@ =~~= op_status_variable(old(self)@.name, name@));
        }
        self.variables.push(svar);
        proof {
            assert(self.variables.deep_view() =~~= old(self)@.variables.push(
                op_status_variable(old(self)@.name, name@),
            ));
        }

        // The start transition.
        let mut start_name = name.to_owned();
        start_name.append("_start");
        let start_guard = Predicate::and(Predicate::eq_str(status, "init"), guard.dup());
        let mut start_actions: Vec<Action> = Vec::new();
        start_actions.push(Action::set_str(status, "executing"));
        start_actions.push(Action::set_false(self.op_done));
        let start = Transition::new(
            start_name.as_str(),
            start_guard,
            Predicate::True,
            start_actions,
            Vec::new(),
            TransitionKind::Controlled,
        );
        proof {
            assert(start@ =~~= op_start_transition(
                name@,
                status as int,
                guard@,
                old(self)@.op_done,
            ));
        }

        // The finish transition.
        let mut finish_name = name.to_owned();
        finish_name.append("_finish");
        let finish_guard = Predicate::and(Predicate::eq_str(status, "executing"), goal.dup());
        let mut finish_actions = dup_actions(effects);
        let mut low_actions = dup_actions(actions);
        finish_actions.append(&mut low_actions);
        finish_actions.push(Action::set_str(status, "completed"));
        finish_actions.push(Action::set_true(self.op_done));
        let finish_kind = if auto {
            TransitionKind::Auto
        } else {
            TransitionKind::Controlled
        };
        let finish = Transition::new(
            finish_name.as_str(),
            finish_guard,
            Predicate::True,
            finish_actions,
            Vec::new(),
            finish_kind,
        );
        proof {
            assert(finish@ =~~= op_finish_transition(
                name@,
                status as int,
                goal@,
                effects.deep_view(),
                actions.deep_view(),
                auto,
                old(self)@.op_done,
            ));
        }

        // The reset transition.
        let mut reset_name = name.to_owned();
        reset_name.append("_reset");
        let reset_pred = match &resets {
            Some(p) => p.dup(),
            None => guard.dup(),
        };
        let reset_guard = Predicate::and(Predicate::eq_str(status, "completed"), reset_pred);
        let mut reset_actions: Vec<Action> = Vec::new();
        reset_actions.push(Action::set_str(status, "init"));
        let reset = Transition::new(
            reset_name.as_str(),
            reset_guard,
            Predicate::True,
            reset_actions,
            Vec::new(),
            TransitionKind::Auto,
        );
        proof {
            assert(reset@ =~~= op_reset_transition(name@, status as int, resetsv));
        }

        let mut transitions: Vec<Transition> = Vec::new();
        transitions.push(start);
        transitions.push(finish);
        transitions.push(reset);
        proof {
            assert(transitions.deep_view() =~~= op_transitions(
                name@,
                status as int,
                guard@,
                goal@,
                effects.deep_view(),
                actions.deep_view(),
                auto,
                resetsv,
                old(self)@.op_done,
            ));
        }

        let mut opath = self.name.clone();
        opath.append("/operations/");
        opath.append(name);
        let op = Operation {
            name: name.to_owned(),
            path: opath,
            status,
            guard: guard.dup(),
            effects: dup_actions(effects),
            goal: goal.dup(),
            actions: dup_actions(actions),
            auto,
            transitions,
        };
        self.operations.push(op);
        proof {
            assert(self.operations.deep_view() =~~= old(self)@.operations.push(
                OperationView {
                    name: name@,
                    path: operation_path(old(self)@.name, name@),
                    status: status as int,
                    guard: guard@,
                    effects: effects.deep_view(),
                    goal: goal@,
                    actions: actions.deep_view(),
                    auto: auto,
                    transitions: op_transitions(
                        name@,
                        status as int,
                        guard@,
                        goal@,
                        effects.deep_view(),
                        actions.deep_view(),
                        auto,
                        resetsv,
                        old(self)@.op_done,
                    ),
                },
            ));
        }
        op_idx
    }
}

} // verus!
