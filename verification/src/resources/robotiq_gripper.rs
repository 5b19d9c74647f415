//! A parallel gripper resource: open/close trigger pairs over one measured
//! jaw state, with derived "is opening"/"is closing" predicates that hold
//! exactly while a trigger is raised and the corresponding terminal state
//! has not yet been reached.

use vstd::prelude::*;
use crate::action::Action;
use crate::action::ActionView;
use crate::action::SourceView;
use crate::channel::ChannelKind;
use crate::channel::ChannelView;
use crate::channel::MessageType;
use crate::channel::MessageTypeView;
use crate::channel::MessageVariable;
use crate::channel::MessageVariableView;
use crate::model::Model;
use crate::model::ModelView;
use crate::model::join_path;
use crate::model::service_state_variable;
use crate::predicate::PredView;
use crate::predicate::Predicate;
use crate::resource::ResourceView;
use crate::transition::Transition;
use crate::transition::TransitionKind;
use crate::transition::TransitionView;
use crate::value::Value;
use crate::value::ValueType;
use crate::value::ValueView;
use crate::value::VariableKind;
use crate::variable::Variable;
use crate::variable::VariableView;

verus! {

/// A gripper resource handle.
#[derive(Debug)]
pub struct RobotiqGripper {
    pub path: String,
    pub measured: usize,
    pub is_closing: usize,
    pub is_opening: usize,
    pub initial_state: Vec<(usize, Value)>,
}

/// The mathematical abstraction of a [`RobotiqGripper`].
#[verifier::ext_equal]
pub struct GripperView {
    pub path: Seq<char>,
    pub measured: int,
    pub is_closing: int,
    pub is_opening: int,
    pub initial_state: Seq<(usize, ValueView)>,
}

impl View for RobotiqGripper {
    type V = GripperView;

    open spec fn view(&self) -> GripperView {
        GripperView {
            path: self.path@,
            measured: self.measured as int,
            is_closing: self.is_closing as int,
            is_opening: self.is_opening as int,
            initial_state: self.initial_state.deep_view(),
        }
    }
}

/// The derived is-closing predicate: the close trigger is up and the jaws
/// report neither gripping nor closed yet.
pub open spec fn gripper_is_closing_pred(close_trigger: int, measured: int) -> PredView {
    PredView::And(
        Box::new(PredView::Eq(close_trigger, ValueView::Bool(true))),
        Box::new(PredView::And(
            Box::new(PredView::Neq(measured, ValueView::Str("closed"@))),
            Box::new(PredView::Neq(measured, ValueView::Str("gripping"@))),
        )),
    )
}

/// The derived is-opening predicate: the open trigger is up and the jaws
/// do not report opened yet.
pub open spec fn gripper_is_opening_pred(open_trigger: int, measured: int) -> PredView {
    PredView::And(
        Box::new(PredView::Eq(open_trigger, ValueView::Bool(true))),
        Box::new(PredView::Neq(measured, ValueView::Str("opened"@))),
    )
}

/// The seven variables a gripper declares, in declaration order, given the
/// count of variables declared before them: the two command triggers, the
/// measured jaw state, the two service status variables, and the two
/// derived predicates.
pub open spec fn gripper_variables(rpath: Seq<char>, base: int) -> Seq<VariableView> {
    seq![
        VariableView {
            path: join_path(rpath, "open_trigger"@),
            kind: VariableKind::Command,
            ty: ValueType::Bool,
            domain: Seq::empty(),
            initial: Some(ValueView::Bool(false)),
            definition: None,
        },
        VariableView {
            path: join_path(rpath, "close_trigger"@),
            kind: VariableKind::Command,
            ty: ValueType::Bool,
            domain: Seq::empty(),
            initial: Some(ValueView::Bool(false)),
            definition: None,
        },
        VariableView {
            path: join_path(rpath, "measured"@),
            kind: VariableKind::Measured,
            ty: ValueType::Str,
            domain: seq![
                ValueView::Str("unknown"@),
                ValueView::Str("opened"@),
                ValueView::Str("gripping"@),
                ValueView::Str("closed"@),
            ],
            initial: None,
            definition: None,
        },
        service_state_variable(rpath, "robotiq_2f_open"@),
        service_state_variable(rpath, "robotiq_2f_close"@),
        VariableView {
            path: join_path(rpath, "is_closing"@),
            kind: VariableKind::Estimated,
            ty: ValueType::Bool,
            domain: Seq::empty(),
            initial: None,
            definition: Some(gripper_is_closing_pred(base + 1, base + 2)),
        },
        VariableView {
            path: join_path(rpath, "is_opening"@),
            kind: VariableKind::Estimated,
            ty: ValueType::Bool,
            domain: Seq::empty(),
            initial: None,
            definition: Some(gripper_is_opening_pred(base + 0, base + 2)),
        },
    ]
}

/// The indices the seven variables land at.
pub open spec fn gripper_var_indices(base: int) -> Seq<usize> {
    Seq::new(7, |i: int| (base + i) as usize)
}

/// The six transitions a gripper registers: for each of open and close, a
/// Controlled trigger gated on the service being idle, an Effect standing
/// in for the measured jaw feedback, and an Auto reset that drops the
/// trigger once the terminal state is reached.
pub open spec fn gripper_transitions(leaf: Seq<char>, base: int) -> Seq<TransitionView> {
    seq![
        TransitionView {
            name: leaf + "_open"@,
            guard: PredView::And(
                Box::new(PredView::Eq(base + 3, ValueView::Str("ok"@))),
                Box::new(PredView::And(
                    Box::new(PredView::Eq(base + 0, ValueView::Bool(false))),
                    Box::new(PredView::Neq(base + 2, ValueView::Str("opened"@))),
                )),
            ),
            runner_guard: PredView::True,
            actions: seq![
                ActionView { target: base + 0, source: SourceView::Const(ValueView::Bool(true)) },
            ],
            runner_actions: Seq::empty(),
            kind: TransitionKind::Controlled,
        },
        TransitionView {
            name: leaf + "_open_done"@,
            guard: PredView::And(
                Box::new(PredView::Eq(base + 0, ValueView::Bool(true))),
                Box::new(PredView::Neq(base + 2, ValueView::Str("opened"@))),
            ),
            runner_guard: PredView::True,
            actions: seq![
                ActionView {
                    target: base + 2,
                    source: SourceView::Const(ValueView::Str("opened"@)),
                },
            ],
            runner_actions: Seq::empty(),
            kind: TransitionKind::Effect,
        },
        TransitionView {
            name: leaf + "_open_reset"@,
            guard: PredView::And(
                Box::new(PredView::Eq(base + 0, ValueView::Bool(true))),
                Box::new(PredView::Eq(base + 2, ValueView::Str("opened"@))),
            ),
            runner_guard: PredView::True,
            actions: seq![
                ActionView { target: base + 0, source: SourceView::Const(ValueView::Bool(false)) },
            ],
            runner_actions: Seq::empty(),
            kind: TransitionKind::Auto,
        },
        TransitionView {
            name: leaf + "_close"@,
            guard: PredView::And(
                Box::new(PredView::Eq(base + 4, ValueView::Str("ok"@))),
                Box::new(PredView::And(
                    Box::new(PredView::Eq(base + 1, ValueView::Bool(false))),
                    Box::new(PredView::Eq(base + 2, ValueView::Str("opened"@))),
                )),
            ),
            runner_guard: PredView::True,
            actions: seq![
                ActionView { target: base + 1, source: SourceView::Const(ValueView::Bool(true)) },
            ],
            runner_actions: Seq::empty(),
            kind: TransitionKind::Controlled,
        },
        TransitionView {
            name: leaf + "_close_done"@,
            guard: PredView::And(
                Box::new(PredView::Eq(base + 1, ValueView::Bool(true))),
                Box::new(PredView::And(
                    Box::new(PredView::Neq(base + 2, ValueView::Str("gripping"@))),
                    Box::new(PredView::Neq(base + 2, ValueView::Str("closed"@))),
                )),
            ),
            runner_guard: PredView::True,
            actions: seq![
                ActionView {
                    target: base + 2,
                    source: SourceView::Const(ValueView::Str("gripping"@)),
                },
            ],
            runner_actions: Seq::empty(),
            kind: TransitionKind::Effect,
        },
        TransitionView {
            name: leaf + "_close_reset"@,
            guard: PredView::And(
                Box::new(PredView::Eq(base + 1, ValueView::Bool(true))),
                Box::new(PredView::Or(
                    Box::new(PredView::Eq(base + 2, ValueView::Str("gripping"@))),
                    Box::new(PredView::Eq(base + 2, ValueView::Str("closed"@))),
                )),
            ),
            runner_guard: PredView::True,
            actions: seq![
                ActionView { target: base + 1, source: SourceView::Const(ValueView::Bool(false)) },
            ],
            runner_actions: Seq::empty(),
            kind: TransitionKind::Auto,
        },
    ]
}

/// The three channels a gripper attaches: the open and close trigger
/// services and the incoming measured jaw state.
pub open spec fn gripper_channels(base: int) -> Seq<ChannelView> {
    seq![
        ChannelView {
            kind: ChannelKind::Service,
            name: "robotiq_2f_open"@,
            topic: "/robotiq_2f_open"@,
            msg_type: MessageTypeView::Ros("std_srvs/srv/Trigger"@),
            gate: Some(PredView::Eq(base + 0, ValueView::Bool(true))),
            goal_vars: Seq::empty(),
            feedback_vars: Seq::empty(),
            result_vars: Seq::empty(),
        },
        ChannelView {
            kind: ChannelKind::Service,
            name: "robotiq_2f_close"@,
            topic: "/robotiq_2f_close"@,
            msg_type: MessageTypeView::Ros("std_srvs/srv/Trigger"@),
            gate: Some(PredView::Eq(base + 1, ValueView::Bool(true))),
            goal_vars: Seq::empty(),
            feedback_vars: Seq::empty(),
            result_vars: Seq::empty(),
        },
        ChannelView {
            kind: ChannelKind::Incoming,
            name: "measured"@,
            topic: "/robotiq_2f_measured"@,
            msg_type: MessageTypeView::Ros("robotiq_2f_msgs/msg/MeasuredState"@),
            gate: None,
            goal_vars: Seq::empty(),
            feedback_vars: seq![MessageVariableView { var: base + 2, field: "measured"@ }],
            result_vars: Seq::empty(),
        },
    ]
}

/// The handle a fresh gripper hands back.
pub open spec fn gripper_view_of(base: int, rpath: Seq<char>) -> GripperView {
    GripperView {
        path: rpath,
        measured: base + 2,
        is_closing: base + 5,
        is_opening: base + 6,
        initial_state: seq![
            ((base + 0) as usize, ValueView::Bool(false)),
            ((base + 1) as usize, ValueView::Bool(false)),
        ],
    }
}


/// Declaring a gripper under `resource`: its seven variables are appended,
/// and the resource gains their indices, the six handshake transitions and
/// the three channels.
pub open spec fn spec_gripper_new(m: ModelView, resource: int) -> ModelView {
    ModelView {
        variables: m.variables + gripper_variables(
            m.resources[resource].path,
            m.variables.len() as int,
        ),
        resources: m.resources.update(
            resource,
            ResourceView {
                vars: m.resources[resource].vars + gripper_var_indices(m.variables.len() as int),
                transitions: m.resources[resource].transitions + gripper_transitions(
                    m.resources[resource].name,
                    m.variables.len() as int,
                ),
                channels: m.resources[resource].channels + gripper_channels(
                    m.variables.len() as int,
                ),
                ..m.resources[resource]
            },
        ),
        ..m
    }
}

impl RobotiqGripper {
    /// Declare the gripper's variables, handshake transitions, derived
    /// predicates and channels under `resource`, and hand back its handle.
    #[verifier::rlimit(100)]
    pub fn new(m: &mut Model, resource: usize) -> (r: RobotiqGripper)
        requires
            resource < old(m)@.resources.len(),
            old(m)@.variables.len() + 7 <= usize::MAX,
        ensures
            r@ == gripper_view_of(
                old(m)@.variables.len() as int,
                old(m)@.resources[resource as int].path,
            ),
            final(m)@ == spec_gripper_new(old(m)@, resource as int),
    {
        let ghost base = old(m)@.variables.len() as int;
        let ghost rpath = old(m)@.resources[resource as int].path;

        let leaf = m.resources[resource].name.clone();

        let mut ot_var = Variable::new_boolean("open_trigger", VariableKind::Command);
        ot_var.initial = Some(Value::Bool(false));
        let open_trigger = m.add_variable(resource, ot_var);

        let mut ct_var = Variable::new_boolean("close_trigger", VariableKind::Command);
        ct_var.initial = Some(Value::Bool(false));
        let close_trigger = m.add_variable(resource, ct_var);

        let mut m_domain: Vec<Value> = Vec::new();
        m_domain.push(Value::text("unknown"));
        m_domain.push(Value::text("opened"));
        m_domain.push(Value::text("gripping"));
        m_domain.push(Value::text("closed"));
        let m_var = Variable::new("measured", VariableKind::Measured, ValueType::Str, m_domain);
        let measured = m.add_variable(resource, m_var);

        let open_service = m.setup_ros_service(
            resource,
            "robotiq_2f_open",
            "/robotiq_2f_open",
            "std_srvs/srv/Trigger",
            Predicate::is_true(open_trigger),
            Vec::new(),
            Vec::new(),
        );
        let close_service = m.setup_ros_service(
            resource,
            "robotiq_2f_close",
            "/robotiq_2f_close",
            "std_srvs/srv/Trigger",
            Predicate::is_true(close_trigger),
            Vec::new(),
            Vec::new(),
        );

        let mut incoming_vars: Vec<MessageVariable> = Vec::new();
        incoming_vars.push(MessageVariable::new(measured, "measured"));
        m.setup_ros_incoming(
            resource,
            "measured",
            "/robotiq_2f_measured",
            MessageType::Ros("robotiq_2f_msgs/msg/MeasuredState".to_owned()),
            incoming_vars,
        );

        let mut n1 = leaf.clone();
        n1.append("_open");
        let t1 = Transition::new(
            n1.as_str(),
            Predicate::and(
                Predicate::eq_str(open_service, "ok"),
                Predicate::and(
                    Predicate::is_false(open_trigger),
                    Predicate::neq_str(measured, "opened"),
                ),
            ),
            Predicate::True,
            vec![Action::set_true(open_trigger)],
            Vec::new(),
            TransitionKind::Controlled,
        );
        m.add_resource_transition(resource, t1);

        let mut n2 = leaf.clone();
        n2.append("_open_done");
        let t2 = Transition::new(
            n2.as_str(),
            Predicate::and(
                Predicate::is_true(open_trigger),
                Predicate::neq_str(measured, "opened"),
            ),
            Predicate::True,
            vec![Action::set_str(measured, "opened")],
            Vec::new(),
            TransitionKind::Effect,
        );
        m.add_resource_transition(resource, t2);

        let mut n3 = leaf.clone();
        n3.append("_open_reset");
        let t3 = Transition::new(
            n3.as_str(),
            Predicate::and(
                Predicate::is_true(open_trigger),
                Predicate::eq_str(measured, "opened"),
            ),
            Predicate::True,
            vec![Action::set_false(open_trigger)],
            Vec::new(),
            TransitionKind::Auto,
        );
        m.add_resource_transition(resource, t3);

        let mut n4 = leaf.clone();
        n4.append("_close");
        let t4 = Transition::new(
            n4.as_str(),
            Predicate::and(
                Predicate::eq_str(close_service, "ok"),
                Predicate::and(
                    Predicate::is_false(close_trigger),
                    Predicate::eq_str(measured, "opened"),
                ),
            ),
            Predicate::True,
            vec![Action::set_true(close_trigger)],
            Vec::new(),
            TransitionKind::Controlled,
        );
        m.add_resource_transition(resource, t4);

        let mut n5 = leaf.clone();
        n5.append("_close_done");
        let t5 = Transition::new(
            n5.as_str(),
            Predicate::and(
                Predicate::is_true(close_trigger),
                Predicate::and(
                    Predicate::neq_str(measured, "gripping"),
                    Predicate::neq_str(measured, "closed"),
                ),
            ),
            Predicate::True,
            vec![Action::set_str(measured, "gripping")],
            Vec::new(),
            TransitionKind::Effect,
        );
        m.add_resource_transition(resource, t5);

        let mut n6 = leaf.clone();
        n6.append("_close_reset");
        let t6 = Transition::new(
            n6.as_str(),
            Predicate::and(
                Predicate::is_true(close_trigger),
                Predicate::or(
                    Predicate::eq_str(measured, "gripping"),
                    Predicate::eq_str(measured, "closed"),
                ),
            ),
            Predicate::True,
            vec![Action::set_false(close_trigger)],
            Vec::new(),
            TransitionKind::Auto,
        );
        m.add_resource_transition(resource, t6);

        let is_closing_def = Predicate::and(
            Predicate::is_true(close_trigger),
            Predicate::and(
                Predicate::neq_str(measured, "closed"),
                Predicate::neq_str(measured, "gripping"),
            ),
        );
        let is_closing = m.add_variable(
            resource,
            Variable::new_predicate("is_closing", is_closing_def),
        );

        let is_opening_def = Predicate::and(
            Predicate::is_true(open_trigger),
            Predicate::neq_str(measured, "opened"),
        );
        let is_opening = m.add_variable(
            resource,
            Variable::new_predicate("is_opening", is_opening_def),
        );

        let mut initial_state: Vec<(usize, Value)> = Vec::new();
        initial_state.push((open_trigger, Value::Bool(false)));
        initial_state.push((close_trigger, Value::Bool(false)));

        proof {
            assert(m@.resources.len() == old(m)@.resources.len());
            assert(m.resources@.len() == m@.resources.len());
            assert(m@.resources[resource as int].path == rpath);
        }
        let path = m.resources[resource].path.clone();
        let r = RobotiqGripper { path, measured, is_closing, is_opening, initial_state };
        proof {
            assert(r.initial_state.deep_view() =~= seq![
                ((base + 0) as usize, ValueView::Bool(false)),
                ((base + 1) as usize, ValueView::Bool(false)),
            ]);
            assert(r@ =~~= gripper_view_of(base, rpath));
            assert(m@.variables =~~= old(m)@.variables + gripper_variables(rpath, base));
            assert(m@.resources =~~= old(m)@.resources.update(
                resource as int,
                ResourceView {
                    vars: old(m)@.resources[resource as int].vars + gripper_var_indices(base),
                    transitions: old(m)@.resources[resource as int].transitions
                        + gripper_transitions(old(m)@.resources[resource as int].name, base),
                    channels: old(m)@.resources[resource as int].channels + gripper_channels(base),
                    ..old(m)@.resources[resource as int]
                },
            ));
        }
        r
    }
}

} // verus!
