//! An articulated-arm motion resource: motions are long-running actions
//! parameterized by a goal frame and a tool frame, following the
//! trigger/done/error handshake, with a derived "last visited frame"
//! estimate updated only by the completion and error-handling transitions.

use vstd::prelude::*;
use crate::action::Action;
use crate::action::ActionView;
use crate::action::SourceView;
use crate::channel::ChannelKind;
use crate::channel::ChannelView;
use crate::channel::MessageType;
use crate::channel::MessageTypeView;
use crate::channel::MessageVariable;
use crate::channel::MessageVariableView;
use crate::model::Model;
use crate::model::ModelView;
use crate::model::action_state_variable;
use crate::model::join_path;
use crate::predicate::PredView;
use crate::predicate::Predicate;
use crate::resource::ResourceView;
use crate::transition::Transition;
use crate::transition::TransitionKind;
use crate::transition::TransitionView;
use crate::value::Value;
use crate::value::ValueType;
use crate::value::ValueView;
use crate::value::VariableKind;
use crate::value::dup_values;
use crate::variable::Variable;
use crate::variable::VariableView;

verus! {

/// A motion resource handle: the variable indices of its handshake flags
/// and request/feedback payload, and the declared initial values.
#[derive(Debug)]
pub struct UrRobotResource {
    pub path: String,
    pub resource: usize,
    pub last_visited_frame: usize,
    pub last_visited_with_tcp: usize,
    pub acceleration: usize,
    pub trigger: usize,
    pub command: usize,
    pub velocity: usize,
    pub goal_feature_name: usize,
    pub tcp_name: usize,
    pub current_state: usize,
    pub success: usize,
    pub done: usize,
    pub error: usize,
    pub action_state: usize,
    pub initial_state: Vec<(usize, Value)>,
    pub t_index: usize,
    pub io_state_in_9: usize,
}

/// The mathematical abstraction of a [`UrRobotResource`].
#[verifier::ext_equal]
pub struct UrView {
    pub path: Seq<char>,
    pub resource: int,
    pub last_visited_frame: int,
    pub last_visited_with_tcp: int,
    pub acceleration: int,
    pub trigger: int,
    pub command: int,
    pub velocity: int,
    pub goal_feature_name: int,
    pub tcp_name: int,
    pub current_state: int,
    pub success: int,
    pub done: int,
    pub error: int,
    pub action_state: int,
    pub initial_state: Seq<(usize, ValueView)>,
    pub t_index: nat,
    pub io_state_in_9: int,
}

impl View for UrRobotResource {
    type V = UrView;

    open spec fn view(&self) -> UrView {
        UrView {
            path: self.path@,
            resource: self.resource as int,
            last_visited_frame: self.last_visited_frame as int,
            last_visited_with_tcp: self.last_visited_with_tcp as int,
            acceleration: self.acceleration as int,
            trigger: self.trigger as int,
            command: self.command as int,
            velocity: self.velocity as int,
            goal_feature_name: self.goal_feature_name as int,
            tcp_name: self.tcp_name as int,
            current_state: self.current_state as int,
            success: self.success as int,
            done: self.done as int,
            error: self.error as int,
            action_state: self.action_state as int,
            initial_state: self.initial_state.deep_view(),
            t_index: self.t_index as nat,
            io_state_in_9: self.io_state_in_9 as int,
        }
    }
}

/// The scaling factor tuning parameters are carried with: velocities and
/// accelerations are integers in thousandths of the controller's unit.
pub open spec fn default_tuning() -> ValueView {
    ValueView::Int(100)
}

/// The sixteen variables a motion resource declares, in declaration order,
/// with their declared initial values.
pub open spec fn ur_variables(
    rpath: Seq<char>,
    frames: Seq<ValueView>,
    tools: Seq<ValueView>,
) -> Seq<VariableView> {
    seq![
        VariableView {
            path: join_path(rpath, "trigger"@),
            kind: VariableKind::Command,
            ty: ValueType::Bool,
            domain: Seq::empty(),
            initial: Some(ValueView::Bool(false)),
            definition: None,
        },
        VariableView {
            path: join_path(rpath, "io_state_in_9"@),
            kind: VariableKind::Measured,
            ty: ValueType::Bool,
            domain: Seq::empty(),
            initial: None,
            definition: None,
        },
        VariableView {
            path: join_path(rpath, "request/command"@),
            kind: VariableKind::Command,
            ty: ValueType::Str,
            domain: seq![
                ValueView::Str("pick"@),
                ValueView::Str("place"@),
                ValueView::Str("move_j"@),
            ],
            initial: Some(ValueView::Str("move_j"@)),
            definition: None,
        },
        VariableView {
            path: join_path(rpath, "request/acceleration_scaling"@),
            kind: VariableKind::Runner,
            ty: ValueType::Int,
            domain: Seq::empty(),
            initial: Some(default_tuning()),
            definition: None,
        },
        VariableView {
            path: join_path(rpath, "request/velocity_scaling"@),
            kind: VariableKind::Runner,
            ty: ValueType::Int,
            domain: Seq::empty(),
            initial: Some(default_tuning()),
            definition: None,
        },
        VariableView {
            path: join_path(rpath, "request/acceleration"@),
            kind: VariableKind::Runner,
            ty: ValueType::Int,
            domain: Seq::empty(),
            initial: Some(default_tuning()),
            definition: None,
        },
        VariableView {
            path: join_path(rpath, "request/velocity"@),
            kind: VariableKind::Runner,
            ty: ValueType::Int,
            domain: Seq::empty(),
            initial: Some(default_tuning()),
            definition: None,
        },
        VariableView {
            path: join_path(rpath, "request/goal_feature_name"@),
            kind: VariableKind::Command,
            ty: ValueType::Str,
            domain: frames,
            initial: Some(frames[0]),
            definition: None,
        },
        VariableView {
            path: join_path(rpath, "request/tcp_name"@),
            kind: VariableKind::Command,
            ty: ValueType::Str,
            domain: tools,
            initial: Some(tools[0]),
            definition: None,
        },
        VariableView {
            path: join_path(rpath, "feedback/current_state"@),
            kind: VariableKind::Runner,
            ty: ValueType::Str,
            domain: Seq::empty(),
            initial: None,
            definition: None,
        },
        VariableView {
            path: join_path(rpath, "reply/success"@),
            kind: VariableKind::Runner,
            ty: ValueType::Bool,
            domain: Seq::empty(),
            initial: None,
            definition: None,
        },
        action_state_variable(rpath, "URControl"@),
        VariableView {
            path: join_path(rpath, "measured/done"@),
            kind: VariableKind::Measured,
            ty: ValueType::Bool,
            domain: Seq::empty(),
            initial: Some(ValueView::Bool(false)),
            definition: None,
        },
        VariableView {
            path: join_path(rpath, "measured/error"@),
            kind: VariableKind::Measured,
            ty: ValueType::Bool,
            domain: Seq::empty(),
            initial: Some(ValueView::Bool(false)),
            definition: None,
        },
        VariableView {
            path: join_path(rpath, "estimated/last_visited_frame"@),
            kind: VariableKind::Estimated,
            ty: ValueType::Str,
            domain: seq![ValueView::Str("unknown"@)] + frames,
            initial: Some(ValueView::Str("unknown"@)),
            definition: None,
        },
        VariableView {
            path: join_path(rpath, "estimated/last_visited_with_tcp"@),
            kind: VariableKind::Estimated,
            ty: ValueType::Str,
            domain: seq![ValueView::Str("unknown"@)] + tools,
            initial: Some(ValueView::Str("unknown"@)),
            definition: None,
        },
    ]
}

/// The indices the sixteen variables land at, given the count of variables
/// declared before them.
pub open spec fn ur_var_indices(base: int) -> Seq<usize> {
    Seq::new(16, |i: int| (base + i) as usize)
}

/// The six handshake transitions a motion resource registers: the formal
/// finish, error and reset (Effect kind), and their runner mirrors, gated
/// additionally by live action feedback.  The formal error path stands in
/// for the runner error variant during planning and model checking, so
/// the failed handshake state is reachable in the formal system.
pub open spec fn ur_base_transitions(
    leaf: Seq<char>,
    trigger: int,
    done: int,
    error: int,
    success: int,
    action_state: int,
) -> Seq<TransitionView> {
    seq![
        TransitionView {
            name: leaf + "_runner_finish_ok"@,
            guard: PredView::And(
                Box::new(PredView::Eq(done, ValueView::Bool(false))),
                Box::new(PredView::And(
                    Box::new(PredView::Eq(error, ValueView::Bool(false))),
                    Box::new(PredView::And(
                        Box::new(PredView::Eq(trigger, ValueView::Bool(true))),
                        Box::new(PredView::And(
                            Box::new(PredView::Eq(success, ValueView::Bool(true))),
                            Box::new(PredView::Eq(action_state, ValueView::Str("succeeded"@))),
                        )),
                    )),
                )),
            ),
            runner_guard: PredView::True,
            actions: seq![
                ActionView { target: done, source: SourceView::Const(ValueView::Bool(true)) },
            ],
            runner_actions: Seq::empty(),
            kind: TransitionKind::Runner,
        },
        TransitionView {
            name: leaf + "_finish_ok"@,
            guard: PredView::And(
                Box::new(PredView::Eq(done, ValueView::Bool(false))),
                Box::new(PredView::And(
                    Box::new(PredView::Eq(error, ValueView::Bool(false))),
                    Box::new(PredView::Eq(trigger, ValueView::Bool(true))),
                )),
            ),
            runner_guard: PredView::True,
            actions: seq![
                ActionView { target: done, source: SourceView::Const(ValueView::Bool(true)) },
            ],
            runner_actions: Seq::empty(),
            kind: TransitionKind::Effect,
        },
        TransitionView {
            name: leaf + "_runner_finish_error"@,
            guard: PredView::And(
                Box::new(PredView::Eq(done, ValueView::Bool(false))),
                Box::new(PredView::And(
                    Box::new(PredView::Eq(error, ValueView::Bool(false))),
                    Box::new(PredView::And(
                        Box::new(PredView::Eq(trigger, ValueView::Bool(true))),
                        Box::new(PredView::Or(
                            Box::new(PredView::And(
                                Box::new(PredView::Eq(action_state, ValueView::Str("succeeded"@))),
                                Box::new(PredView::Eq(success, ValueView::Bool(false))),
                            )),
                            Box::new(PredView::Or(
                                Box::new(PredView::Eq(action_state, ValueView::Str("timeout"@))),
                                Box::new(PredView::Or(
                                    Box::new(
                                        PredView::Eq(action_state, ValueView::Str("aborted"@)),
                                    ),
                                    Box::new(
                                        PredView::Eq(action_state, ValueView::Str("canceled"@)),
                                    ),
                                )),
                            )),
                        )),
                    )),
                )),
            ),
            runner_guard: PredView::True,
            actions: seq![
                ActionView { target: error, source: SourceView::Const(ValueView::Bool(true)) },
            ],
            runner_actions: Seq::empty(),
            kind: TransitionKind::Runner,
        },
        TransitionView {
            name: leaf + "_finish_error"@,
            guard: PredView::And(
                Box::new(PredView::Eq(done, ValueView::Bool(false))),
                Box::new(PredView::And(
                    Box::new(PredView::Eq(error, ValueView::Bool(false))),
                    Box::new(PredView::Eq(trigger, ValueView::Bool(true))),
                )),
            ),
            runner_guard: PredView::True,
            actions: seq![
                ActionView { target: error, source: SourceView::Const(ValueView::Bool(true)) },
            ],
            runner_actions: Seq::empty(),
            kind: TransitionKind::Effect,
        },
        TransitionView {
            name: leaf + "_runner_reset"@,
            guard: PredView::And(
                Box::new(PredView::Eq(trigger, ValueView::Bool(false))),
                Box::new(PredView::And(
                    Box::new(PredView::Eq(action_state, ValueView::Str("ok"@))),
                    Box::new(PredView::Or(
                        Box::new(PredView::Eq(done, ValueView::Bool(true))),
                        Box::new(PredView::Eq(error, ValueView::Bool(true))),
                    )),
                )),
            ),
            runner_guard: PredView::True,
            actions: seq![
                ActionView { target: done, source: SourceView::Const(ValueView::Bool(false)) },
                ActionView { target: error, source: SourceView::Const(ValueView::Bool(false)) },
            ],
            runner_actions: Seq::empty(),
            kind: TransitionKind::Runner,
        },
        TransitionView {
            name: leaf + "_reset"@,
            guard: PredView::And(
                Box::new(PredView::Eq(trigger, ValueView::Bool(false))),
                Box::new(PredView::Or(
                    Box::new(PredView::Eq(done, ValueView::Bool(true))),
                    Box::new(PredView::Eq(error, ValueView::Bool(true))),
                )),
            ),
            runner_guard: PredView::True,
            actions: seq![
                ActionView { target: done, source: SourceView::Const(ValueView::Bool(false)) },
                ActionView { target: error, source: SourceView::Const(ValueView::Bool(false)) },
            ],
            runner_actions: Seq::empty(),
            kind: TransitionKind::Effect,
        },
    ]
}

/// The long-running motion action channel.
pub open spec fn ur_action_channel(
    trigger: int,
    command: int,
    acceleration_scaling: int,
    velocity_scaling: int,
    acceleration: int,
    velocity: int,
    goal_feature_name: int,
    tcp_name: int,
    current_state: int,
    success: int,
) -> ChannelView {
    ChannelView {
        kind: ChannelKind::Action,
        name: "URControl"@,
        topic: "/ur_control"@,
        msg_type: MessageTypeView::Ros("ur_controller_msgs/action/URControl"@),
        gate: Some(PredView::Eq(trigger, ValueView::Bool(true))),
        goal_vars: seq![
            MessageVariableView { var: command, field: "command"@ },
            MessageVariableView { var: acceleration_scaling, field: "acceleration_scaling"@ },
            MessageVariableView { var: velocity_scaling, field: "velocity_scaling"@ },
            MessageVariableView { var: acceleration, field: "acceleration"@ },
            MessageVariableView { var: velocity, field: "velocity"@ },
            MessageVariableView { var: goal_feature_name, field: "goal_feature_id"@ },
            MessageVariableView { var: tcp_name, field: "tcp_id"@ },
        ],
        feedback_vars: seq![MessageVariableView { var: current_state, field: "current_state"@ }],
        result_vars: seq![MessageVariableView { var: success, field: "success"@ }],
    }
}

/// The incoming digital-input measurement channel.
pub open spec fn ur_incoming_channel(io_state_in_9: int) -> ChannelView {
    ChannelView {
        kind: ChannelKind::Incoming,
        name: "io_state_in_9"@,
        topic: "/measured"@,
        msg_type: MessageTypeView::Ros("ur_script_msgs/msg/Measured"@),
        gate: None,
        goal_vars: Seq::empty(),
        feedback_vars: seq![MessageVariableView { var: io_state_in_9, field: "in9"@ }],
        result_vars: Seq::empty(),
    }
}

/// The declared initial values of the handshake and request variables, as
/// (variable index, value) pairs.
pub open spec fn ur_initial_pairs(
    base: int,
    frames: Seq<ValueView>,
    tools: Seq<ValueView>,
) -> Seq<(usize, ValueView)> {
    seq![
        ((base + 2) as usize, ValueView::Str("move_j"@)),
        ((base + 7) as usize, frames[0]),
        ((base + 8) as usize, tools[0]),
        ((base + 14) as usize, ValueView::Str("unknown"@)),
        ((base + 15) as usize, ValueView::Str("unknown"@)),
        ((base + 4) as usize, default_tuning()),
        ((base + 6) as usize, default_tuning()),
        ((base + 3) as usize, default_tuning()),
        ((base + 5) as usize, default_tuning()),
        ((base + 0) as usize, ValueView::Bool(false)),
        ((base + 12) as usize, ValueView::Bool(false)),
        ((base + 13) as usize, ValueView::Bool(false)),
    ]
}

/// The handle a fresh motion resource hands back, given the index its
/// first variable landed at.
pub open spec fn ur_view_of(
    base: int,
    resource: int,
    rpath: Seq<char>,
    frames: Seq<ValueView>,
    tools: Seq<ValueView>,
) -> UrView {
    UrView {
        path: rpath,
        resource: resource,
        last_visited_frame: base + 14,
        last_visited_with_tcp: base + 15,
        acceleration: base + 5,
        trigger: base + 0,
        command: base + 2,
        velocity: base + 6,
        goal_feature_name: base + 7,
        tcp_name: base + 8,
        current_state: base + 9,
        success: base + 10,
        done: base + 12,
        error: base + 13,
        action_state: base + 11,
        initial_state: ur_initial_pairs(base, frames, tools),
        t_index: 0,
        io_state_in_9: base + 1,
    }
}

/// The name of a motion's controlled transition: the resource name, the
/// tool frame, the goal frame, and the disambiguation index.
pub open spec fn motion_name(
    leaf: Seq<char>,
    tcp: Seq<char>,
    goal: Seq<char>,
    idx: nat,
) -> Seq<char> {
    leaf + "_"@ + tcp + "_to_"@ + goal + "_"@ + crate::util::spec_digits(idx)
}

/// A motion's controlled transition: fires only from the idle handshake
/// state and the caller's precondition; it writes the request parameters
/// and raises the trigger.  The numeric tuning parameters land in the
/// runner effect batch, invisible to the planner.
pub open spec fn motion_controlled_transition(
    ur: UrView,
    leaf: Seq<char>,
    guard: PredView,
    runner_guard: PredView,
    tcp: Seq<char>,
    goal: Seq<char>,
    cmd: Seq<char>,
    vel: int,
    acc: int,
) -> TransitionView {
    TransitionView {
        name: motion_name(leaf, tcp, goal, ur.t_index),
        guard: PredView::And(
            Box::new(PredView::Eq(ur.trigger, ValueView::Bool(false))),
            Box::new(PredView::And(
                Box::new(PredView::Eq(ur.done, ValueView::Bool(false))),
                Box::new(PredView::And(
                    Box::new(PredView::Eq(ur.error, ValueView::Bool(false))),
                    Box::new(guard),
                )),
            )),
        ),
        runner_guard: runner_guard,
        actions: seq![
            ActionView { target: ur.tcp_name, source: SourceView::Const(ValueView::Str(tcp)) },
            ActionView {
                target: ur.goal_feature_name,
                source: SourceView::Const(ValueView::Str(goal)),
            },
            ActionView { target: ur.trigger, source: SourceView::Const(ValueView::Bool(true)) },
        ],
        runner_actions: seq![
            ActionView { target: ur.command, source: SourceView::Const(ValueView::Str(cmd)) },
            ActionView { target: ur.velocity, source: SourceView::Const(ValueView::Int(vel)) },
            ActionView {
                target: ur.acceleration,
                source: SourceView::Const(ValueView::Int(acc)),
            },
        ],
        kind: TransitionKind::Controlled,
    }
}

/// A motion's completion transition: once the trigger is up, the handshake
/// reports done, and the request parameters match this motion, it drops
/// the trigger and commits the goal and tool frames as last visited.  The
/// caller's extra completion actions come first; the committed writes land
/// last and therefore win.
pub open spec fn motion_done_transition(
    ur: UrView,
    leaf: Seq<char>,
    tcp: Seq<char>,
    goal: Seq<char>,
    when_done: Seq<ActionView>,
) -> TransitionView {
    TransitionView {
        name: motion_name(leaf, tcp, goal, ur.t_index) + "_done"@,
        guard: PredView::And(
            Box::new(PredView::Eq(ur.trigger, ValueView::Bool(true))),
            Box::new(PredView::And(
                Box::new(PredView::Eq(ur.done, ValueView::Bool(true))),
                Box::new(PredView::And(
                    Box::new(PredView::Eq(ur.tcp_name, ValueView::Str(tcp))),
                    Box::new(PredView::Eq(ur.goal_feature_name, ValueView::Str(goal))),
                )),
            )),
        ),
        runner_guard: PredView::True,
        actions: when_done + seq![
            ActionView { target: ur.trigger, source: SourceView::Const(ValueView::Bool(false)) },
            ActionView {
                target: ur.last_visited_frame,
                source: SourceView::Const(ValueView::Str(goal)),
            },
            ActionView {
                target: ur.last_visited_with_tcp,
                source: SourceView::Const(ValueView::Str(tcp)),
            },
        ],
        runner_actions: Seq::empty(),
        kind: TransitionKind::Auto,
    }
}

/// A motion's error-handling transition: when the handshake reports an
/// error for this motion's request, it drops the trigger and resets both
/// last-visited estimates to the "unknown" sentinel, modelling loss of
/// certainty after a failure.
pub open spec fn motion_error_transition(
    ur: UrView,
    leaf: Seq<char>,
    tcp: Seq<char>,
    goal: Seq<char>,
    when_error: Seq<ActionView>,
) -> TransitionView {
    TransitionView {
        name: motion_name(leaf, tcp, goal, ur.t_index) + "_error"@,
        guard: PredView::And(
            Box::new(PredView::Eq(ur.trigger, ValueView::Bool(true))),
            Box::new(PredView::And(
                Box::new(PredView::Eq(ur.error, ValueView::Bool(true))),
                Box::new(PredView::And(
                    Box::new(PredView::Eq(ur.tcp_name, ValueView::Str(tcp))),
                    Box::new(PredView::Eq(ur.goal_feature_name, ValueView::Str(goal))),
                )),
            )),
        ),
        runner_guard: PredView::True,
        actions: when_error + seq![
            ActionView { target: ur.trigger, source: SourceView::Const(ValueView::Bool(false)) },
            ActionView {
                target: ur.last_visited_frame,
                source: SourceView::Const(ValueView::Str("unknown"@)),
            },
            ActionView {
                target: ur.last_visited_with_tcp,
                source: SourceView::Const(ValueView::Str("unknown"@)),
            },
        ],
        runner_actions: Seq::empty(),
        kind: TransitionKind::Controlled,
    }
}

/// The three transitions one defined motion contributes.
pub open spec fn motion_transitions(
    ur: UrView,
    leaf: Seq<char>,
    guard: PredView,
    runner_guard: PredView,
    tcp: Seq<char>,
    goal: Seq<char>,
    cmd: Seq<char>,
    vel: int,
    acc: int,
    when_done: Seq<ActionView>,
    when_error: Seq<ActionView>,
) -> Seq<TransitionView> {
    seq![
        motion_controlled_transition(ur, leaf, guard, runner_guard, tcp, goal, cmd, vel, acc),
        motion_done_transition(ur, leaf, tcp, goal, when_done),
        motion_error_transition(ur, leaf, tcp, goal, when_error),
    ]
}

/// The four transitions a pick defines: the controlled request, the Auto
/// completion, the modelled effect on the gripped-part input bit, and the
/// error-handling transition that resets the last-visited estimates to
/// "unknown".
pub open spec fn pick_transitions(
    ur: UrView,
    guard: PredView,
    runner_guard: PredView,
    when_done: Seq<ActionView>,
    when_error: Seq<ActionView>,
) -> Seq<TransitionView> {
    seq![
        TransitionView {
            name: "pick"@,
            guard: PredView::And(
                Box::new(PredView::Eq(ur.trigger, ValueView::Bool(false))),
                Box::new(PredView::And(
                    Box::new(PredView::Eq(ur.done, ValueView::Bool(false))),
                    Box::new(PredView::And(
                        Box::new(PredView::Eq(ur.error, ValueView::Bool(false))),
                        Box::new(guard),
                    )),
                )),
            ),
            runner_guard: runner_guard,
            actions: seq![
                ActionView { target: ur.trigger, source: SourceView::Const(ValueView::Bool(true)) },
                ActionView {
                    target: ur.command,
                    source: SourceView::Const(ValueView::Str("pick"@)),
                },
            ],
            runner_actions: Seq::empty(),
            kind: TransitionKind::Controlled,
        },
        TransitionView {
            name: "pick_done"@,
            guard: PredView::And(
                Box::new(PredView::Eq(ur.trigger, ValueView::Bool(true))),
                Box::new(PredView::Eq(ur.done, ValueView::Bool(true))),
            ),
            runner_guard: PredView::True,
            actions: when_done + seq![
                ActionView {
                    target: ur.trigger,
                    source: SourceView::Const(ValueView::Bool(false)),
                },
            ],
            runner_actions: Seq::empty(),
            kind: TransitionKind::Auto,
        },
        TransitionView {
            name: "pick_effect"@,
            guard: PredView::And(
                Box::new(PredView::Eq(ur.command, ValueView::Str("pick"@))),
                Box::new(PredView::And(
                    Box::new(PredView::Eq(ur.trigger, ValueView::Bool(true))),
                    Box::new(PredView::Eq(ur.io_state_in_9, ValueView::Bool(false))),
                )),
            ),
            runner_guard: PredView::True,
            actions: seq![
                ActionView {
                    target: ur.io_state_in_9,
                    source: SourceView::Const(ValueView::Bool(true)),
                },
            ],
            runner_actions: Seq::empty(),
            kind: TransitionKind::Effect,
        },
        TransitionView {
            name: "pick_error"@,
            guard: PredView::And(
                Box::new(PredView::Eq(ur.trigger, ValueView::Bool(true))),
                Box::new(PredView::Eq(ur.error, ValueView::Bool(true))),
            ),
            runner_guard: PredView::True,
            actions: when_error + seq![
                ActionView {
                    target: ur.trigger,
                    source: SourceView::Const(ValueView::Bool(false)),
                },
                ActionView {
                    target: ur.last_visited_frame,
                    source: SourceView::Const(ValueView::Str("unknown"@)),
                },
                ActionView {
                    target: ur.last_visited_with_tcp,
                    source: SourceView::Const(ValueView::Str("unknown"@)),
                },
            ],
            runner_actions: Seq::empty(),
            kind: TransitionKind::Controlled,
        },
    ]
}

/// The four transitions a place defines, mirroring a pick with the
/// released-part effect dropping the input bit.
pub open spec fn place_transitions(
    ur: UrView,
    guard: PredView,
    runner_guard: PredView,
    when_done: Seq<ActionView>,
    when_error: Seq<ActionView>,
) -> Seq<TransitionView> {
    seq![
        TransitionView {
            name: "place"@,
            guard: PredView::And(
                Box::new(PredView::Eq(ur.trigger, ValueView::Bool(false))),
                Box::new(PredView::And(
                    Box::new(PredView::Eq(ur.done, ValueView::Bool(false))),
                    Box::new(PredView::And(
                        Box::new(PredView::Eq(ur.error, ValueView::Bool(false))),
                        Box::new(guard),
                    )),
                )),
            ),
            runner_guard: runner_guard,
            actions: seq![
                ActionView { target: ur.trigger, source: SourceView::Const(ValueView::Bool(true)) },
                ActionView {
                    target: ur.command,
                    source: SourceView::Const(ValueView::Str("place"@)),
                },
            ],
            runner_actions: Seq::empty(),
            kind: TransitionKind::Controlled,
        },
        TransitionView {
            name: "place_done"@,
            guard: PredView::And(
                Box::new(PredView::Eq(ur.trigger, ValueView::Bool(true))),
                Box::new(PredView::Eq(ur.done, ValueView::Bool(true))),
            ),
            runner_guard: PredView::True,
            actions: when_done + seq![
                ActionView {
                    target: ur.trigger,
                    source: SourceView::Const(ValueView::Bool(false)),
                },
            ],
            runner_actions: Seq::empty(),
            kind: TransitionKind::Auto,
        },
        TransitionView {
            name: "place_effect"@,
            guard: PredView::And(
                Box::new(PredView::Eq(ur.command, ValueView::Str("place"@))),
                Box::new(PredView::And(
                    Box::new(PredView::Eq(ur.trigger, ValueView::Bool(true))),
                    Box::new(PredView::Eq(ur.io_state_in_9, ValueView::Bool(true))),
                )),
            ),
            runner_guard: PredView::True,
            actions: seq![
                ActionView {
                    target: ur.io_state_in_9,
                    source: SourceView::Const(ValueView::Bool(false)),
                },
            ],
            runner_actions: Seq::empty(),
            kind: TransitionKind::Effect,
        },
        TransitionView {
            name: "place_error"@,
            guard: PredView::And(
                Box::new(PredView::Eq(ur.trigger, ValueView::Bool(true))),
                Box::new(PredView::Eq(ur.error, ValueView::Bool(true))),
            ),
            runner_guard: PredView::True,
            actions: when_error + seq![
                ActionView {
                    target: ur.trigger,
                    source: SourceView::Const(ValueView::Bool(false)),
                },
                ActionView {
                    target: ur.last_visited_frame,
                    source: SourceView::Const(ValueView::Str("unknown"@)),
                },
                ActionView {
                    target: ur.last_visited_with_tcp,
                    source: SourceView::Const(ValueView::Str("unknown"@)),
                },
            ],
            runner_actions: Seq::empty(),
            kind: TransitionKind::Controlled,
        },
    ]
}

/// A vector of values with the "unknown" sentinel prepended.
fn with_unknown_sentinel(vs: &Vec<Value>) -> (r: Vec<Value>)
    ensures
        r.deep_view() == seq![ValueView::Str("unknown"@)] + vs.deep_view(),
{
    let mut out: Vec<Value> = Vec::new();
    out.push(Value::text("unknown"));
    let mut i: usize = 0;
    while i < vs.len()
        invariant
            0 <= i <= vs.len(),
            out.len() == i + 1,
            out.deep_view()[0] == ValueView::Str("unknown"@),
            forall|j: int| 0 <= j < i ==> out.deep_view()[j + 1] == vs.deep_view()[j],
        decreases vs.len() - i,
    {
        out.push(vs[i].dup());
        i = i + 1;
    }
    assert(out.deep_view() =~= seq![ValueView::Str("unknown"@)] + vs.deep_view());
    out
}


/// Declaring a motion resource under `resource`: its sixteen variables are
/// appended, and the resource gains their indices, the six handshake
/// transitions, and the action and measurement channels.
pub open spec fn spec_ur_new(
    m: ModelView,
    resource: int,
    frames: Seq<ValueView>,
    tools: Seq<ValueView>,
) -> ModelView {
    ModelView {
        variables: m.variables + ur_variables(m.resources[resource].path, frames, tools),
        resources: m.resources.update(
            resource,
            ResourceView {
                vars: m.resources[resource].vars + ur_var_indices(m.variables.len() as int),
                transitions: m.resources[resource].transitions + ur_base_transitions(
                    m.resources[resource].name,
                    m.variables.len() as int,
                    m.variables.len() as int + 12,
                    m.variables.len() as int + 13,
                    m.variables.len() as int + 10,
                    m.variables.len() as int + 11,
                ),
                channels: m.resources[resource].channels + seq![
                    ur_action_channel(
                        m.variables.len() as int,
                        m.variables.len() as int + 2,
                        m.variables.len() as int + 3,
                        m.variables.len() as int + 4,
                        m.variables.len() as int + 5,
                        m.variables.len() as int + 6,
                        m.variables.len() as int + 7,
                        m.variables.len() as int + 8,
                        m.variables.len() as int + 9,
                        m.variables.len() as int + 10,
                    ),
                    ur_incoming_channel(m.variables.len() as int + 1),
                ],
                ..m.resources[resource]
            },
        ),
        ..m
    }
}

/// Defining a motion appends its three transitions to the owning resource.
pub open spec fn spec_define_motion(
    m: ModelView,
    ur: UrView,
    guard: PredView,
    runner_guard: PredView,
    tcp: Seq<char>,
    goal: Seq<char>,
    cmd: Seq<char>,
    vel: int,
    acc: int,
    when_done: Seq<ActionView>,
    when_error: Seq<ActionView>,
) -> ModelView {
    ModelView {
        resources: m.resources.update(
            ur.resource,
            ResourceView {
                transitions: m.resources[ur.resource].transitions + motion_transitions(
                    ur,
                    m.resources[ur.resource].name,
                    guard,
                    runner_guard,
                    tcp,
                    goal,
                    cmd,
                    vel,
                    acc,
                    when_done,
                    when_error,
                ),
                ..m.resources[ur.resource]
            },
        ),
        ..m
    }
}

impl UrRobotResource {
    /// Declare the motion resource's variables, handshake transitions and
    /// channels under `resource`, and hand back its variable handle.
    ///
    /// `frame_domain` and `tool_frame_domain` list the legal goal and tool
    /// frames; the first of each is the declared initial request value, and
    /// the derived last-visited estimates additionally admit (and start
    /// from) the "unknown" sentinel.
    #[verifier::rlimit(100)]
    pub fn new(
        m: &mut Model,
        resource: usize,
        frame_domain: Vec<Value>,
        tool_frame_domain: Vec<Value>,
    ) -> (r: UrRobotResource)
        requires
            resource < old(m)@.resources.len(),
            frame_domain@.len() >= 1,
            tool_frame_domain@.len() >= 1,
            old(m)@.variables.len() + 16 <= usize::MAX,
        ensures
            r@ == ur_view_of(
                old(m)@.variables.len() as int,
                resource as int,
                old(m)@.resources[resource as int].path,
                frame_domain.deep_view(),
                tool_frame_domain.deep_view(),
            ),
            final(m)@ == spec_ur_new(
                old(m)@,
                resource as int,
                frame_domain.deep_view(),
                tool_frame_domain.deep_view(),
            ),
    {
        let ghost base = old(m)@.variables.len() as int;
        let ghost rpath = old(m)@.resources[resource as int].path;
        let ghost framesv = frame_domain.deep_view();
        let ghost toolsv = tool_frame_domain.deep_view();

        let leaf = m.resources[resource].name.clone();

        let mut trigger_var = Variable::new_boolean("trigger", VariableKind::Command);
        trigger_var.initial = Some(Value::Bool(false));
        let trigger = m.add_variable(resource, trigger_var);

        let io_var = Variable::new_boolean("io_state_in_9", VariableKind::Measured);
        let io_state_in_9 = m.add_variable(resource, io_var);

        let mut cmd_domain: Vec<Value> = Vec::new();
        cmd_domain.push(Value::text("pick"));
        cmd_domain.push(Value::text("place"));
        cmd_domain.push(Value::text("move_j"));
        let mut cmd_var = Variable::new(
            "request/command",
            VariableKind::Command,
            ValueType::Str,
            cmd_domain,
        );
        cmd_var.initial = Some(Value::text("move_j"));
        let command = m.add_variable(resource, cmd_var);

        let mut accs_var = Variable::new(
            "request/acceleration_scaling",
            VariableKind::Runner,
            ValueType::Int,
            Vec::new(),
        );
        accs_var.initial = Some(Value::Int(100));
        let acceleration_scaling = m.add_variable(resource, accs_var);

        let mut vels_var = Variable::new(
            "request/velocity_scaling",
            VariableKind::Runner,
            ValueType::Int,
            Vec::new(),
        );
        vels_var.initial = Some(Value::Int(100));
        let velocity_scaling = m.add_variable(resource, vels_var);

        let mut acc_var = Variable::new(
            "request/acceleration",
            VariableKind::Runner,
            ValueType::Int,
            Vec::new(),
        );
        acc_var.initial = Some(Value::Int(100));
        let acceleration = m.add_variable(resource, acc_var);

        let mut vel_var = Variable::new(
            "request/velocity",
            VariableKind::Runner,
            ValueType::Int,
            Vec::new(),
        );
        vel_var.initial = Some(Value::Int(100));
        let velocity = m.add_variable(resource, vel_var);

        let mut goal_var = Variable::new(
            "request/goal_feature_name",
            VariableKind::Command,
            ValueType::Str,
            dup_values(&frame_domain),
        );
        goal_var.initial = Some(frame_domain[0].dup());
        let goal_feature_name = m.add_variable(resource, goal_var);

        let mut tcp_var = Variable::new(
            "request/tcp_name",
            VariableKind::Command,
            ValueType::Str,
            dup_values(&tool_frame_domain),
        );
        tcp_var.initial = Some(tool_frame_domain[0].dup());
        let tcp_name = m.add_variable(resource, tcp_var);

        let cs_var = Variable::new(
            "feedback/current_state",
            VariableKind::Runner,
            ValueType::Str,
            Vec::new(),
        );
        let current_state = m.add_variable(resource, cs_var);

        let success_var = Variable::new_boolean("reply/success", VariableKind::Runner);
        let success = m.add_variable(resource, success_var);

        let mut action_goal_vars: Vec<MessageVariable> = Vec::new();
        action_goal_vars.push(MessageVariable::new(command, "command"));
        action_goal_vars.push(MessageVariable::new(acceleration_scaling, "acceleration_scaling"));
        action_goal_vars.push(MessageVariable::new(velocity_scaling, "velocity_scaling"));
        action_goal_vars.push(MessageVariable::new(acceleration, "acceleration"));
        action_goal_vars.push(MessageVariable::new(velocity, "velocity"));
        action_goal_vars.push(MessageVariable::new(goal_feature_name, "goal_feature_id"));
        action_goal_vars.push(MessageVariable::new(tcp_name, "tcp_id"));
        let mut action_feedback_vars: Vec<MessageVariable> = Vec::new();
        action_feedback_vars.push(MessageVariable::new(current_state, "current_state"));
        let mut action_result_vars: Vec<MessageVariable> = Vec::new();
        action_result_vars.push(MessageVariable::new(success, "success"));
        let action_state = m.setup_ros_action(
            resource,
            "URControl",
            "/ur_control",
            "ur_controller_msgs/action/URControl",
            Predicate::is_true(trigger),
            action_goal_vars,
            action_feedback_vars,
            action_result_vars,
        );

        let mut done_var = Variable::new_boolean("measured/done", VariableKind::Measured);
        done_var.initial = Some(Value::Bool(false));
        let done = m.add_variable(resource, done_var);

        let mut error_var = Variable::new_boolean("measured/error", VariableKind::Measured);
        error_var.initial = Some(Value::Bool(false));
        let error = m.add_variable(resource, error_var);

        // Runner mirror of the finish: only fires on real reported success.
        let mut n1 = leaf.clone();
        n1.append("_runner_finish_ok");
        let t1 = Transition::new(
            n1.as_str(),
            Predicate::and(
                Predicate::is_false(done),
                Predicate::and(
                    Predicate::is_false(error),
                    Predicate::and(
                        Predicate::is_true(trigger),
                        Predicate::and(
                            Predicate::is_true(success),
                            Predicate::eq_str(action_state, "succeeded"),
                        ),
                    ),
                ),
            ),
            Predicate::True,
            vec![Action::set_true(done)],
            Vec::new(),
            TransitionKind::Runner,
        );
        m.add_resource_transition(resource, t1);

        // Formal representation: a request eventually completes.
        let mut n2 = leaf.clone();
        n2.append("_finish_ok");
        let t2 = Transition::new(
            n2.as_str(),
            Predicate::and(
                Predicate::is_false(done),
                Predicate::and(Predicate::is_false(error), Predicate::is_true(trigger)),
            ),
            Predicate::True,
            vec![Action::set_true(done)],
            Vec::new(),
            TransitionKind::Effect,
        );
        m.add_resource_transition(resource, t2);

        // Runner error path: reported failure, timeout, abort or cancel.
        let mut n3 = leaf.clone();
        n3.append("_runner_finish_error");
        let t3 = Transition::new(
            n3.as_str(),
            Predicate::and(
                Predicate::is_false(done),
                Predicate::and(
                    Predicate::is_false(error),
                    Predicate::and(
                        Predicate::is_true(trigger),
                        Predicate::or(
                            Predicate::and(
                                Predicate::eq_str(action_state, "succeeded"),
                                Predicate::is_false(success),
                            ),
                            Predicate::or(
                                Predicate::eq_str(action_state, "timeout"),
                                Predicate::or(
                                    Predicate::eq_str(action_state, "aborted"),
                                    Predicate::eq_str(action_state, "canceled"),
                                ),
                            ),
                        ),
                    ),
                ),
            ),
            Predicate::True,
            vec![Action::set_true(error)],
            Vec::new(),
            TransitionKind::Runner,
        );
        m.add_resource_transition(resource, t3);

        // Formal representation: a request may also fail; this is the
        // planner's and model checker's stand-in for the runner error path.
        let mut n3f = leaf.clone();
        n3f.append("_finish_error");
        let t3f = Transition::new(
            n3f.as_str(),
            Predicate::and(
                Predicate::is_false(done),
                Predicate::and(Predicate::is_false(error), Predicate::is_true(trigger)),
            ),
            Predicate::True,
            vec![Action::set_true(error)],
            Vec::new(),
            TransitionKind::Effect,
        );
        m.add_resource_transition(resource, t3f);

        // Runner reset: once the trigger is down and the action is idle
        // again, clear the terminal flags.
        let mut n4 = leaf.clone();
        n4.append("_runner_reset");
        let t4 = Transition::new(
            n4.as_str(),
            Predicate::and(
                Predicate::is_false(trigger),
                Predicate::and(
                    Predicate::eq_str(action_state, "ok"),
                    Predicate::or(Predicate::is_true(done), Predicate::is_true(error)),
                ),
            ),
            Predicate::True,
            vec![Action::set_false(done), Action::set_false(error)],
            Vec::new(),
            TransitionKind::Runner,
        );
        m.add_resource_transition(resource, t4);

        // Formal reset.
        let mut n5 = leaf.clone();
        n5.append("_reset");
        let t5 = Transition::new(
            n5.as_str(),
            Predicate::and(
                Predicate::is_false(trigger),
                Predicate::or(Predicate::is_true(done), Predicate::is_true(error)),
            ),
            Predicate::True,
            vec![Action::set_false(done), Action::set_false(error)],
            Vec::new(),
            TransitionKind::Effect,
        );
        m.add_resource_transition(resource, t5);

        let mut lvf_var = Variable::new(
            "estimated/last_visited_frame",
            VariableKind::Estimated,
            ValueType::Str,
            with_unknown_sentinel(&frame_domain),
        );
        lvf_var.initial = Some(Value::text("unknown"));
        let last_visited_frame = m.add_variable(resource, lvf_var);

        let mut lvt_var = Variable::new(
            "estimated/last_visited_with_tcp",
            VariableKind::Estimated,
            ValueType::Str,
            with_unknown_sentinel(&tool_frame_domain),
        );
        lvt_var.initial = Some(Value::text("unknown"));
        let last_visited_with_tcp = m.add_variable(resource, lvt_var);

        let mut initial_state: Vec<(usize, Value)> = Vec::new();
        initial_state.push((command, Value::text("move_j")));
        initial_state.push((goal_feature_name, frame_domain[0].dup()));
        initial_state.push((tcp_name, tool_frame_domain[0].dup()));
        initial_state.push((last_visited_frame, Value::text("unknown")));
        initial_state.push((last_visited_with_tcp, Value::text("unknown")));
        initial_state.push((velocity_scaling, Value::Int(100)));
        initial_state.push((velocity, Value::Int(100)));
        initial_state.push((acceleration_scaling, Value::Int(100)));
        initial_state.push((acceleration, Value::Int(100)));
        initial_state.push((trigger, Value::Bool(false)));
        initial_state.push((done, Value::Bool(false)));
        initial_state.push((error, Value::Bool(false)));

        let mut incoming_vars: Vec<MessageVariable> = Vec::new();
        incoming_vars.push(MessageVariable::new(io_state_in_9, "in9"));
        m.setup_ros_incoming(
            resource,
            "io_state_in_9",
            "/measured",
            MessageType::Ros("ur_script_msgs/msg/Measured".to_owned()),
            incoming_vars,
        );

        proof {
            assert(m@.resources.len() == old(m)@.resources.len());
            assert(m.resources@.len() == m@.resources.len());
            assert(m@.resources[resource as int].path == rpath);
        }
        let path = m.resources[resource].path.clone();
        let r = UrRobotResource {
            path,
            resource,
            last_visited_frame,
            last_visited_with_tcp,
            acceleration,
            trigger,
            command,
            velocity,
            goal_feature_name,
            tcp_name,
            current_state,
            success,
            done,
            error,
            action_state,
            initial_state,
            t_index: 0,
            io_state_in_9,
        };
        proof {
            assert(r.initial_state.deep_view() =~= ur_initial_pairs(base, framesv, toolsv));
            assert(r@ =~~= ur_view_of(base, resource as int, rpath, framesv, toolsv));
            assert(m@.variables =~~= old(m)@.variables + ur_variables(rpath, framesv, toolsv));
            assert(m@.resources =~~= old(m)@.resources.update(
                resource as int,
                ResourceView {
                    vars: old(m)@.resources[resource as int].vars + ur_var_indices(base),
                    transitions: old(m)@.resources[resource as int].transitions
                        + ur_base_transitions(
                        old(m)@.resources[resource as int].name,
                        base,
                        base + 12,
                        base + 13,
                        base + 10,
                        base + 11,
                    ),
                    channels: old(m)@.resources[resource as int].channels + seq![
                        ur_action_channel(
                            base,
                            base + 2,
                            base + 3,
                            base + 4,
                            base + 5,
                            base + 6,
                            base + 7,
                            base + 8,
                            base + 9,
                            base + 10,
                        ),
                        ur_incoming_channel(base + 1),
                    ],
                    ..old(m)@.resources[resource as int]
                },
            ));
        }
        r
    }

    /// Define one motion between frames: a controlled transition that
    /// issues the request from the caller's precondition `guard`, the Auto
    /// completion transition, and the error-handling transition.  Velocity
    /// and acceleration are tuning parameters in thousandths, carried only
    /// in the runner effect batch.  The disambiguation index keeps names
    /// unique when several motions share a tool/goal pair.
    pub fn define_motion(
        &mut self,
        m: &mut Model,
        guard: Predicate,
        runner_guard: Predicate,
        tcp_frame: &str,
        goal_frame: &str,
        command: &str,
        velocity: i64,
        acceleration: i64,
        action_when_done: Vec<Action>,
        action_when_error: Vec<Action>,
    )
        requires
            old(self)@.resource < old(m)@.resources.len(),
            old(self)@.t_index < usize::MAX,
        ensures
            final(self)@ == (UrView { t_index: (old(self)@.t_index + 1) as nat, ..old(self)@ }),
            final(m)@ == spec_define_motion(
                old(m)@,
                old(self)@,
                guard@,
                runner_guard@,
                tcp_frame@,
                goal_frame@,
                command@,
                velocity as int,
                acceleration as int,
                action_when_done.deep_view(),
                action_when_error.deep_view(),
            ),
    {
        let ghost selfv = self@;
        let ghost leafv = old(m)@.resources[old(self)@.resource].name;
        let ghost gv = guard@;
        let ghost rgv = runner_guard@;
        let ghost awd = action_when_done.deep_view();
        let ghost awe = action_when_error.deep_view();

        let mut nm = m.resources[self.resource].name.clone();
        nm.append("_");
        nm.append(tcp_frame);
        nm.append("_to_");
        nm.append(goal_frame);
        nm.append("_");
        let idx_str = crate::util::usize_string(self.t_index);
        nm.append(idx_str.as_str());

        let ctrl_guard = Predicate::and(
            Predicate::is_false(self.trigger),
            Predicate::and(
                Predicate::is_false(self.done),
                Predicate::and(Predicate::is_false(self.error), guard),
            ),
        );
        let ctrl_actions = vec![
            Action::set_str(self.tcp_name, tcp_frame),
            Action::set_str(self.goal_feature_name, goal_frame),
            Action::set_true(self.trigger),
        ];
        let ctrl_runner_actions = vec![
            Action::set_str(self.command, command),
            Action::set_const(self.velocity, Value::Int(velocity)),
            Action::set_const(self.acceleration, Value::Int(acceleration)),
        ];
        let ctrl = Transition::new(
            nm.as_str(),
            ctrl_guard,
            runner_guard,
            ctrl_actions,
            ctrl_runner_actions,
            TransitionKind::Controlled,
        );
        proof {
            assert(ctrl@ =~~= motion_controlled_transition(
                selfv,
                leafv,
                gv,
                rgv,
                tcp_frame@,
                goal_frame@,
                command@,
                velocity as int,
                acceleration as int,
            ));
        }
        m.add_resource_transition(self.resource, ctrl);

        let mut done_name = nm.clone();
        done_name.append("_done");
        let done_guard = Predicate::and(
            Predicate::is_true(self.trigger),
            Predicate::and(
                Predicate::is_true(self.done),
                Predicate::and(
                    Predicate::eq_str(self.tcp_name, tcp_frame),
                    Predicate::eq_str(self.goal_feature_name, goal_frame),
                ),
            ),
        );
        let mut done_actions = action_when_done;
        done_actions.push(Action::set_false(self.trigger));
        done_actions.push(Action::set_str(self.last_visited_frame, goal_frame));
        done_actions.push(Action::set_str(self.last_visited_with_tcp, tcp_frame));
        let done_t = Transition::new(
            done_name.as_str(),
            done_guard,
            Predicate::True,
            done_actions,
            Vec::new(),
            TransitionKind::Auto,
        );
        proof {
            assert(done_t@ =~~= motion_done_transition(
                selfv,
                leafv,
                tcp_frame@,
                goal_frame@,
                awd,
            ));
        }
        m.add_resource_transition(self.resource, done_t);

        let mut error_name = nm.clone();
        error_name.append("_error");
        let error_guard = Predicate::and(
            Predicate::is_true(self.trigger),
            Predicate::and(
                Predicate::is_true(self.error),
                Predicate::and(
                    Predicate::eq_str(self.tcp_name, tcp_frame),
                    Predicate::eq_str(self.goal_feature_name, goal_frame),
                ),
            ),
        );
        let mut error_actions = action_when_error;
        error_actions.push(Action::set_false(self.trigger));
        error_actions.push(Action::set_str(self.last_visited_frame, "unknown"));
        error_actions.push(Action::set_str(self.last_visited_with_tcp, "unknown"));
        let error_t = Transition::new(
            error_name.as_str(),
            error_guard,
            Predicate::True,
            error_actions,
            Vec::new(),
            TransitionKind::Controlled,
        );
        proof {
            assert(error_t@ =~~= motion_error_transition(
                selfv,
                leafv,
                tcp_frame@,
                goal_frame@,
                awe,
            ));
        }
        m.add_resource_transition(self.resource, error_t);

        self.t_index = self.t_index + 1;
        proof {
            assert(m@.resources =~~= old(m)@.resources.update(
                selfv.resource,
                ResourceView {
                    transitions: old(m)@.resources[selfv.resource].transitions
                        + motion_transitions(
                        selfv,
                        leafv,
                        gv,
                        rgv,
                        tcp_frame@,
                        goal_frame@,
                        command@,
                        velocity as int,
                        acceleration as int,
                        awd,
                        awe,
                    ),
                    ..old(m)@.resources[selfv.resource]
                },
            ));
            assert(self@ =~~= (UrView { t_index: (selfv.t_index + 1) as nat, ..selfv }));
        }
    }

    /// Define the pick action: trigger a pick from the caller's
    /// precondition, complete it automatically on done, model its effect
    /// on the gripped-part input bit, and reset certainty on error.
    pub fn define_pick(
        &mut self,
        m: &mut Model,
        guard: Predicate,
        runner_guard: Predicate,
        action_when_done: Vec<Action>,
        action_when_error: Vec<Action>,
    )
        requires
            old(self)@.resource < old(m)@.resources.len(),
            old(self)@.t_index < usize::MAX,
        ensures
            final(self)@ == (UrView { t_index: (old(self)@.t_index + 1) as nat, ..old(self)@ }),
            final(m)@ == (ModelView {
                resources: old(m)@.resources.update(
                    old(self)@.resource,
                    ResourceView {
                        transitions: old(m)@.resources[old(self)@.resource].transitions
                            + pick_transitions(
                            old(self)@,
                            guard@,
                            runner_guard@,
                            action_when_done.deep_view(),
                            action_when_error.deep_view(),
                        ),
                        ..old(m)@.resources[old(self)@.resource]
                    },
                ),
                ..old(m)@
            }),
    {
        let ghost selfv = self@;
        let ghost gv = guard@;
        let ghost rgv = runner_guard@;
        let ghost awd = action_when_done.deep_view();
        let ghost awe = action_when_error.deep_view();

        let ctrl_guard = Predicate::and(
            Predicate::is_false(self.trigger),
            Predicate::and(
                Predicate::is_false(self.done),
                Predicate::and(Predicate::is_false(self.error), guard),
            ),
        );
        let ctrl = Transition::new(
            "pick",
            ctrl_guard,
            runner_guard,
            vec![Action::set_true(self.trigger), Action::set_str(self.command, "pick")],
            Vec::new(),
            TransitionKind::Controlled,
        );
        proof {
            assert(ctrl@ =~~= pick_transitions(selfv, gv, rgv, awd, awe)[0]);
        }
        m.add_resource_transition(self.resource, ctrl);

        let done_guard = Predicate::and(
            Predicate::is_true(self.trigger),
            Predicate::is_true(self.done),
        );
        let mut done_actions = action_when_done;
        done_actions.push(Action::set_false(self.trigger));
        let done_t = Transition::new(
            "pick_done",
            done_guard,
            Predicate::True,
            done_actions,
            Vec::new(),
            TransitionKind::Auto,
        );
        proof {
            assert(done_t@ =~~= pick_transitions(selfv, gv, rgv, awd, awe)[1]);
        }
        m.add_resource_transition(self.resource, done_t);

        let effect_guard = Predicate::and(
            Predicate::eq_str(self.command, "pick"),
            Predicate::and(
                Predicate::is_true(self.trigger),
                Predicate::is_false(self.io_state_in_9),
            ),
        );
        let effect_t = Transition::new(
            "pick_effect",
            effect_guard,
            Predicate::True,
            vec![Action::set_true(self.io_state_in_9)],
            Vec::new(),
            TransitionKind::Effect,
        );
        proof {
            assert(effect_t@ =~~= pick_transitions(selfv, gv, rgv, awd, awe)[2]);
        }
        m.add_resource_transition(self.resource, effect_t);

        let error_guard = Predicate::and(
            Predicate::is_true(self.trigger),
            Predicate::is_true(self.error),
        );
        let mut error_actions = action_when_error;
        error_actions.push(Action::set_false(self.trigger));
        error_actions.push(Action::set_str(self.last_visited_frame, "unknown"));
        error_actions.push(Action::set_str(self.last_visited_with_tcp, "unknown"));
        let error_t = Transition::new(
            "pick_error",
            error_guard,
            Predicate::True,
            error_actions,
            Vec::new(),
            TransitionKind::Controlled,
        );
        proof {
            assert(error_t@ =~~= pick_transitions(selfv, gv, rgv, awd, awe)[3]);
        }
        m.add_resource_transition(self.resource, error_t);

        self.t_index = self.t_index + 1;
        proof {
            assert(m@.resources =~~= old(m)@.resources.update(
                selfv.resource,
                ResourceView {
                    transitions: old(m)@.resources[selfv.resource].transitions + pick_transitions(
                        selfv,
                        gv,
                        rgv,
                        awd,
                        awe,
                    ),
                    ..old(m)@.resources[selfv.resource]
                },
            ));
            assert(self@ =~~= (UrView { t_index: (selfv.t_index + 1) as nat, ..selfv }));
        }
    }

    /// Define the place action, mirroring [`UrRobotResource::define_pick`]
    /// with the released-part effect.
    pub fn define_place(
        &mut self,
        m: &mut Model,
        guard: Predicate,
        runner_guard: Predicate,
        action_when_done: Vec<Action>,
        action_when_error: Vec<Action>,
    )
        requires
            old(self)@.resource < old(m)@.resources.len(),
            old(self)@.t_index < usize::MAX,
        ensures
            final(self)@ == (UrView { t_index: (old(self)@.t_index + 1) as nat, ..old(self)@ }),
            final(m)@ == (ModelView {
                resources: old(m)@.resources.update(
                    old(self)@.resource,
                    ResourceView {
                        transitions: old(m)@.resources[old(self)@.resource].transitions
                            + place_transitions(
                            old(self)@,
                            guard@,
                            runner_guard@,
                            action_when_done.deep_view(),
                            action_when_error.deep_view(),
                        ),
                        ..old(m)@.resources[old(self)@.resource]
                    },
                ),
                ..old(m)@
            }),
    {
        let ghost selfv = self@;
        let ghost gv = guard@;
        let ghost rgv = runner_guard@;
        let ghost awd = action_when_done.deep_view();
        let ghost awe = action_when_error.deep_view();

        let ctrl_guard = Predicate::and(
            Predicate::is_false(self.trigger),
            Predicate::and(
                Predicate::is_false(self.done),
                Predicate::and(Predicate::is_false(self.error), guard),
            ),
        );
        let ctrl = Transition::new(
            "place",
            ctrl_guard,
            runner_guard,
            vec![Action::set_true(self.trigger), Action::set_str(self.command, "place")],
            Vec::new(),
            TransitionKind::Controlled,
        );
        proof {
            assert(ctrl@ =~~= place_transitions(selfv, gv, rgv, awd, awe)[0]);
        }
        m.add_resource_transition(self.resource, ctrl);

        let done_guard = Predicate::and(
            Predicate::is_true(self.trigger),
            Predicate::is_true(self.done),
        );
        let mut done_actions = action_when_done;
        done_actions.push(Action::set_false(self.trigger));
        let done_t = Transition::new(
            "place_done",
            done_guard,
            Predicate::True,
            done_actions,
            Vec::new(),
            TransitionKind::Auto,
        );
        proof {
            assert(done_t@ =~~= place_transitions(selfv, gv, rgv, awd, awe)[1]);
        }
        m.add_resource_transition(self.resource, done_t);

        let effect_guard = Predicate::and(
            Predicate::eq_str(self.command, "place"),
            Predicate::and(
                Predicate::is_true(self.trigger),
                Predicate::is_true(self.io_state_in_9),
            ),
        );
        let effect_t = Transition::new(
            "place_effect",
            effect_guard,
            Predicate::True,
            vec![Action::set_false(self.io_state_in_9)],
            Vec::new(),
            TransitionKind::Effect,
        );
        proof {
            assert(effect_t@ =~~= place_transitions(selfv, gv, rgv, awd, awe)[2]);
        }
        m.add_resource_transition(self.resource, effect_t);

        let error_guard = Predicate::and(
            Predicate::is_true(self.trigger),
            Predicate::is_true(self.error),
        );
        let mut error_actions = action_when_error;
        error_actions.push(Action::set_false(self.trigger));
        error_actions.push(Action::set_str(self.last_visited_frame, "unknown"));
        error_actions.push(Action::set_str(self.last_visited_with_tcp, "unknown"));
        let error_t = Transition::new(
            "place_error",
            error_guard,
            Predicate::True,
            error_actions,
            Vec::new(),
            TransitionKind::Controlled,
        );
        proof {
            assert(error_t@ =~~= place_transitions(selfv, gv, rgv, awd, awe)[3]);
        }
        m.add_resource_transition(self.resource, error_t);

        self.t_index = self.t_index + 1;
        proof {
            assert(m@.resources =~~= old(m)@.resources.update(
                selfv.resource,
                ResourceView {
                    transitions: old(m)@.resources[selfv.resource].transitions + place_transitions(
                        selfv,
                        gv,
                        rgv,
                        awd,
                        awe,
                    ),
                    ..old(m)@.resources[selfv.resource]
                },
            ));
            assert(self@ =~~= (UrView { t_index: (selfv.t_index + 1) as nat, ..selfv }));
        }
    }
}

} // verus!
