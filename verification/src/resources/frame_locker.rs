//! A vision-frame locker resource: a lock/lock-done/lock-reset triple over
//! two measured booleans, with a derived "is locking" predicate.

use vstd::prelude::*;
use crate::action::Action;
use crate::action::ActionView;
use crate::action::SourceView;
use crate::channel::ChannelKind;
use crate::channel::ChannelView;
use crate::channel::MessageType;
use crate::channel::MessageTypeView;
use crate::channel::MessageVariable;
use crate::channel::MessageVariableView;
use crate::model::Model;
use crate::model::ModelView;
use crate::model::join_path;
use crate::model::service_state_variable;
use crate::predicate::PredView;
use crate::predicate::Predicate;
use crate::resource::ResourceView;
use crate::transition::Transition;
use crate::transition::TransitionKind;
use crate::transition::TransitionView;
use crate::value::Value;
use crate::value::ValueType;
use crate::value::ValueView;
use crate::value::VariableKind;
use crate::variable::Variable;
use crate::variable::VariableView;

verus! {

/// A frame-locker resource handle.
#[derive(Debug)]
pub struct FrameLocker {
    pub path: String,
    pub frame_exists: usize,
    pub frame_locked: usize,
    pub is_locking: usize,
    pub initial_state: Vec<(usize, Value)>,
}

/// The mathematical abstraction of a [`FrameLocker`].
#[verifier::ext_equal]
pub struct FrameLockerView {
    pub path: Seq<char>,
    pub frame_exists: int,
    pub frame_locked: int,
    pub is_locking: int,
    pub initial_state: Seq<(usize, ValueView)>,
}

impl View for FrameLocker {
    type V = FrameLockerView;

    open spec fn view(&self) -> FrameLockerView {
        FrameLockerView {
            path: self.path@,
            frame_exists: self.frame_exists as int,
            frame_locked: self.frame_locked as int,
            is_locking: self.is_locking as int,
            initial_state: self.initial_state.deep_view(),
        }
    }
}

/// The derived is-locking predicate: the lock trigger is up and the frame
/// is not locked yet.
pub open spec fn locker_is_locking_pred(lock_trigger: int, frame_locked: int) -> PredView {
    PredView::And(
        Box::new(PredView::Eq(lock_trigger, ValueView::Bool(true))),
        Box::new(PredView::Eq(frame_locked, ValueView::Bool(false))),
    )
}

/// The five variables a frame locker declares, in declaration order: the
/// command trigger, the two measured booleans, the service status
/// variable, and the derived predicate.
pub open spec fn locker_variables(rpath: Seq<char>, base: int) -> Seq<VariableView> {
    seq![
        VariableView {
            path: join_path(rpath, "lock_trigger"@),
            kind: VariableKind::Command,
            ty: ValueType::Bool,
            domain: Seq::empty(),
            initial: Some(ValueView::Bool(false)),
            definition: None,
        },
        VariableView {
            path: join_path(rpath, "frame_exists"@),
            kind: VariableKind::Measured,
            ty: ValueType::Bool,
            domain: Seq::empty(),
            initial: None,
            definition: None,
        },
        VariableView {
            path: join_path(rpath, "frame_locked"@),
            kind: VariableKind::Measured,
            ty: ValueType::Bool,
            domain: Seq::empty(),
            initial: None,
            definition: None,
        },
        service_state_variable(rpath, "lock_frame"@),
        VariableView {
            path: join_path(rpath, "is_locking"@),
            kind: VariableKind::Estimated,
            ty: ValueType::Bool,
            domain: Seq::empty(),
            initial: None,
            definition: Some(locker_is_locking_pred(base + 0, base + 2)),
        },
    ]
}

/// The indices the five variables land at.
pub open spec fn locker_var_indices(base: int) -> Seq<usize> {
    Seq::new(5, |i: int| (base + i) as usize)
}

/// The three transitions a frame locker registers: the Controlled lock
/// request, the Effect standing in for the lock feedback, and the Auto
/// reset dropping the trigger once locked.
pub open spec fn locker_transitions(leaf: Seq<char>, base: int) -> Seq<TransitionView> {
    seq![
        TransitionView {
            name: leaf + "_lock"@,
            guard: PredView::And(
                Box::new(PredView::Eq(base + 3, ValueView::Str("ok"@))),
                Box::new(PredView::And(
                    Box::new(PredView::Eq(base + 0, ValueView::Bool(false))),
                    Box::new(PredView::And(
                        Box::new(PredView::Eq(base + 1, ValueView::Bool(true))),
                        Box::new(PredView::Eq(base + 2, ValueView::Bool(false))),
                    )),
                )),
            ),
            runner_guard: PredView::True,
            actions: seq![
                ActionView { target: base + 0, source: SourceView::Const(ValueView::Bool(true)) },
            ],
            runner_actions: Seq::empty(),
            kind: TransitionKind::Controlled,
        },
        TransitionView {
            name: leaf + "_lock_done"@,
            guard: PredView::And(
                Box::new(PredView::Eq(base + 0, ValueView::Bool(true))),
                Box::new(PredView::Eq(base + 2, ValueView::Bool(false))),
            ),
            runner_guard: PredView::True,
            actions: seq![
                ActionView { target: base + 2, source: SourceView::Const(ValueView::Bool(true)) },
            ],
            runner_actions: Seq::empty(),
            kind: TransitionKind::Effect,
        },
        TransitionView {
            name: leaf + "_lock_reset"@,
            guard: PredView::And(
                Box::new(PredView::Eq(base + 0, ValueView::Bool(true))),
                Box::new(PredView::Eq(base + 2, ValueView::Bool(true))),
            ),
            runner_guard: PredView::True,
            actions: seq![
                ActionView { target: base + 0, source: SourceView::Const(ValueView::Bool(false)) },
            ],
            runner_actions: Seq::empty(),
            kind: TransitionKind::Auto,
        },
    ]
}

/// The three channels a frame locker attaches: the lock service and the
/// two incoming measured booleans.
pub open spec fn locker_channels(base: int) -> Seq<ChannelView> {
    seq![
        ChannelView {
            kind: ChannelKind::Service,
            name: "lock_frame"@,
            topic: "/lock_frames"@,
            msg_type: MessageTypeView::Ros("std_srvs/srv/Trigger"@),
            gate: Some(PredView::Eq(base + 0, ValueView::Bool(true))),
            goal_vars: Seq::empty(),
            feedback_vars: Seq::empty(),
            result_vars: Seq::empty(),
        },
        ChannelView {
            kind: ChannelKind::Incoming,
            name: "frame_exists"@,
            topic: "/frame_exists"@,
            msg_type: MessageTypeView::Ros("std_msgs/msg/Bool"@),
            gate: None,
            goal_vars: Seq::empty(),
            feedback_vars: seq![MessageVariableView { var: base + 1, field: "data"@ }],
            result_vars: Seq::empty(),
        },
        ChannelView {
            kind: ChannelKind::Incoming,
            name: "frame_locked"@,
            topic: "/frame_locked"@,
            msg_type: MessageTypeView::Ros("std_msgs/msg/Bool"@),
            gate: None,
            goal_vars: Seq::empty(),
            feedback_vars: seq![MessageVariableView { var: base + 2, field: "data"@ }],
            result_vars: Seq::empty(),
        },
    ]
}

/// The handle a fresh frame locker hands back.
pub open spec fn locker_view_of(base: int, rpath: Seq<char>) -> FrameLockerView {
    FrameLockerView {
        path: rpath,
        frame_exists: base + 1,
        frame_locked: base + 2,
        is_locking: base + 4,
        initial_state: seq![((base + 0) as usize, ValueView::Bool(false))],
    }
}


/// Declaring a frame locker under `resource`: its five variables are
/// appended, and the resource gains their indices, the three transitions
/// and the three channels.
pub open spec fn spec_locker_new(m: ModelView, resource: int) -> ModelView {
    ModelView {
        variables: m.variables + locker_variables(
            m.resources[resource].path,
            m.variables.len() as int,
        ),
        resources: m.resources.update(
            resource,
            ResourceView {
                vars: m.resources[resource].vars + locker_var_indices(m.variables.len() as int),
                transitions: m.resources[resource].transitions + locker_transitions(
                    m.resources[resource].name,
                    m.variables.len() as int,
                ),
                channels: m.resources[resource].channels + locker_channels(
                    m.variables.len() as int,
                ),
                ..m.resources[resource]
            },
        ),
        ..m
    }
}

impl FrameLocker {
    /// Declare the frame locker's variables, transitions, derived
    /// predicate and channels under `resource`, and hand back its handle.
    #[verifier::rlimit(100)]
    pub fn new(m: &mut Model, resource: usize) -> (r: FrameLocker)
        requires
            resource < old(m)@.resources.len(),
            old(m)@.variables.len() + 5 <= usize::MAX,
        ensures
            r@ == locker_view_of(
                old(m)@.variables.len() as int,
                old(m)@.resources[resource as int].path,
            ),
            final(m)@ == spec_locker_new(old(m)@, resource as int),
    {
        let ghost base = old(m)@.variables.len() as int;
        let ghost rpath = old(m)@.resources[resource as int].path;

        let leaf = m.resources[resource].name.clone();

        let mut lt_var = Variable::new_boolean("lock_trigger", VariableKind::Command);
        lt_var.initial = Some(Value::Bool(false));
        let lock_trigger = m.add_variable(resource, lt_var);

        let fe_var = Variable::new_boolean("frame_exists", VariableKind::Measured);
        let frame_exists = m.add_variable(resource, fe_var);

        let fl_var = Variable::new_boolean("frame_locked", VariableKind::Measured);
        let frame_locked = m.add_variable(resource, fl_var);

        let lock_service = m.setup_ros_service(
            resource,
            "lock_frame",
            "/lock_frames",
            "std_srvs/srv/Trigger",
            Predicate::is_true(lock_trigger),
            Vec::new(),
            Vec::new(),
        );

        let mut exists_vars: Vec<MessageVariable> = Vec::new();
        exists_vars.push(MessageVariable::new(frame_exists, "data"));
        m.setup_ros_incoming(
            resource,
            "frame_exists",
            "/frame_exists",
            MessageType::Ros("std_msgs/msg/Bool".to_owned()),
            exists_vars,
        );
        let mut locked_vars: Vec<MessageVariable> = Vec::new();
        locked_vars.push(MessageVariable::new(frame_locked, "data"));
        m.setup_ros_incoming(
            resource,
            "frame_locked",
            "/frame_locked",
            MessageType::Ros("std_msgs/msg/Bool".to_owned()),
            locked_vars,
        );

        let mut n1 = leaf.clone();
        n1.append("_lock");
        let t1 = Transition::new(
            n1.as_str(),
            Predicate::and(
                Predicate::eq_str(lock_service, "ok"),
                Predicate::and(
                    Predicate::is_false(lock_trigger),
                    Predicate::and(
                        Predicate::is_true(frame_exists),
                        Predicate::is_false(frame_locked),
                    ),
                ),
            ),
            Predicate::True,
            vec![Action::set_true(lock_trigger)],
            Vec::new(),
            TransitionKind::Controlled,
        );
        m.add_resource_transition(resource, t1);

        let mut n2 = leaf.clone();
        n2.append("_lock_done");
        let t2 = Transition::new(
            n2.as_str(),
            Predicate::and(
                Predicate::is_true(lock_trigger),
                Predicate::is_false(frame_locked),
            ),
            Predicate::True,
            vec![Action::set_true(frame_locked)],
            Vec::new(),
            TransitionKind::Effect,
        );
        m.add_resource_transition(resource, t2);

        let mut n3 = leaf.clone();
        n3.append("_lock_reset");
        let t3 = Transition::new(
            n3.as_str(),
            Predicate::and(
                Predicate::is_true(lock_trigger),
                Predicate::is_true(frame_locked),
            ),
            Predicate::True,
            vec![Action::set_false(lock_trigger)],
            Vec::new(),
            TransitionKind::Auto,
        );
        m.add_resource_transition(resource, t3);

        let is_locking_def = Predicate::and(
            Predicate::is_true(lock_trigger),
            Predicate::is_false(frame_locked),
        );
        let is_locking = m.add_variable(
            resource,
            Variable::new_predicate("is_locking", is_locking_def),
        );

        let mut initial_state: Vec<(usize, Value)> = Vec::new();
        initial_state.push((lock_trigger, Value::Bool(false)));

        proof {
            assert(m@.resources.len() == old(m)@.resources.len());
            assert(m.resources@.len() == m@.resources.len());
            assert(m@.resources[resource as int].path == rpath);
        }
        let path = m.resources[resource].path.clone();
        let r = FrameLocker { path, frame_exists, frame_locked, is_locking, initial_state };
        proof {
            assert(r.initial_state.deep_view() =~= seq![
                ((base + 0) as usize, ValueView::Bool(false)),
            ]);
            assert(r@ =~~= locker_view_of(base, rpath));
            assert(m@.variables =~~= old(m)@.variables + locker_variables(rpath, base));
            assert(m@.resources =~~= old(m)@.resources.update(
                resource as int,
                ResourceView {
                    vars: old(m)@.resources[resource as int].vars + locker_var_indices(base),
                    transitions: old(m)@.resources[resource as int].transitions
                        + locker_transitions(old(m)@.resources[resource as int].name, base),
                    channels: old(m)@.resources[resource as int].channels + locker_channels(base),
                    ..old(m)@.resources[resource as int]
                },
            ));
        }
        r
    }
}

} // verus!
