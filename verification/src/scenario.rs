//! The laboratory cell scenario: one arm, one gripper, one frame locker
//! and one field-bus PLC over a conveyor and four part buffers, wired into
//! a model with its motions, operations, intentions and initial snapshot.
//!
//! The whole construction is pinned to one closed description, so building
//! the scenario twice yields models with identical variable identifiers,
//! transition names and initial snapshot values.

use vstd::prelude::*;
use crate::action::Action;
use crate::action::ActionView;
use crate::action::SourceView;
use crate::model::Model;
use crate::model::ModelView;
use crate::model::initial_vals;
use crate::model::spec_add_estimated_bool;
use crate::model::spec_add_invar;
use crate::model::spec_add_product_bool;
use crate::model::spec_add_resource;
use crate::model::spec_add_transition;
use crate::model::spec_model_new;
use crate::operation::spec_add_op;
use crate::intention::spec_add_intention;
use crate::predicate::PredView;
use crate::predicate::Predicate;
use crate::resources::frame_locker::FrameLocker;
use crate::resources::frame_locker::FrameLockerView;
use crate::resources::frame_locker::locker_view_of;
use crate::resources::frame_locker::spec_locker_new;
use crate::resources::plc::PLCResource;
use crate::resources::plc::PlcView;
use crate::resources::plc::plc_view_of;
use crate::resources::plc::spec_plc_new;
use crate::resources::robotiq_gripper::GripperView;
use crate::resources::robotiq_gripper::RobotiqGripper;
use crate::resources::robotiq_gripper::gripper_view_of;
use crate::resources::robotiq_gripper::spec_gripper_new;
use crate::resources::ur::UrRobotResource;
use crate::resources::ur::UrView;
use crate::resources::ur::spec_define_motion;
use crate::resources::ur::spec_ur_new;
use crate::resources::ur::ur_view_of;
use crate::state::SPState;
use crate::transition::Transition;
use crate::transition::TransitionKind;
use crate::transition::TransitionView;
use crate::value::Value;
use crate::value::ValueView;
use crate::value::dup_values;

verus! {

/// The goal frames the arm may be sent to: the fixed poses, then the four
/// buffer put-down poses.
pub open spec fn scenario_frames() -> Seq<ValueView> {
    seq![
        ValueView::Str("home_pose"@),
        ValueView::Str("pickup"@),
        ValueView::Str("pickdown"@),
        ValueView::Str("placedown"@),
        ValueView::Str("find_aruco_1"@),
        ValueView::Str("find_aruco_2"@),
        ValueView::Str("p1_down"@),
        ValueView::Str("p2_down"@),
        ValueView::Str("p3_down"@),
        ValueView::Str("p4_down"@),
    ]
}

/// The tool frames.
pub open spec fn scenario_tools() -> Seq<ValueView> {
    seq![ValueView::Str("robotiq_2f_tcp"@), ValueView::Str("tool0"@)]
}

/// The domain of every PLC integer channel.
pub open spec fn scenario_plc_domain() -> Seq<ValueView> {
    seq![ValueView::Int(0), ValueView::Int(1), ValueView::Int(2)]
}

/// The model after its product-state flags are declared.
pub open spec fn sc_products() -> ModelView {
    let m = spec_model_new("lab_scenario_1"@);
    let m = spec_add_product_bool(m, "buffer_1"@);
    let m = spec_add_product_bool(m, "buffer_2"@);
    let m = spec_add_product_bool(m, "buffer_3"@);
    let m = spec_add_product_bool(m, "buffer_4"@);
    let m = spec_add_product_bool(m, "cylinder_by_sensor"@);
    let m = spec_add_product_bool(m, "cylinder_in_gripper"@);
    m
}

/// The model once the arm resource is declared and populated.
pub open spec fn sc_with_ur() -> ModelView {
    spec_ur_new(spec_add_resource(sc_products(), "ur"@), 0, scenario_frames(), scenario_tools())
}

/// The arm's variable handle.
pub open spec fn sc_ur() -> UrView {
    ur_view_of(
        spec_add_resource(sc_products(), "ur"@).variables.len() as int,
        0,
        spec_add_resource(sc_products(), "ur"@).resources[0].path,
        scenario_frames(),
        scenario_tools(),
    )
}

/// The model once the gripper is declared and populated.
pub open spec fn sc_with_gripper() -> ModelView {
    spec_gripper_new(spec_add_resource(sc_with_ur(), "gripper"@), 1)
}

/// The gripper's variable handle.
pub open spec fn sc_gripper() -> GripperView {
    gripper_view_of(
        spec_add_resource(sc_with_ur(), "gripper"@).variables.len() as int,
        spec_add_resource(sc_with_ur(), "gripper"@).resources[1].path,
    )
}

/// The model once the frame locker is declared and populated.
pub open spec fn sc_with_locker() -> ModelView {
    spec_locker_new(spec_add_resource(sc_with_gripper(), "frame_locker"@), 2)
}

/// The frame locker's variable handle.
pub open spec fn sc_locker() -> FrameLockerView {
    locker_view_of(
        spec_add_resource(sc_with_gripper(), "frame_locker"@).variables.len() as int,
        spec_add_resource(sc_with_gripper(), "frame_locker"@).resources[2].path,
    )
}

/// The model once the PLC is declared and populated.
pub open spec fn sc_with_plc() -> ModelView {
    spec_plc_new(
        spec_add_resource(sc_with_locker(), "plc"@),
        3,
        seq![
            scenario_plc_domain(),
            scenario_plc_domain(),
            scenario_plc_domain(),
            scenario_plc_domain(),
            scenario_plc_domain(),
        ],
        seq![
            scenario_plc_domain(),
            scenario_plc_domain(),
            scenario_plc_domain(),
            scenario_plc_domain(),
            scenario_plc_domain(),
        ],
    )
}

/// The PLC's variable handle.
pub open spec fn sc_plc() -> PlcView {
    plc_view_of(
        spec_add_resource(sc_with_locker(), "plc"@).variables.len() as int,
        3,
        spec_add_resource(sc_with_locker(), "plc"@).resources[3].path,
        seq![
            scenario_plc_domain(),
            scenario_plc_domain(),
            scenario_plc_domain(),
            scenario_plc_domain(),
            scenario_plc_domain(),
        ],
        seq![
            scenario_plc_domain(),
            scenario_plc_domain(),
            scenario_plc_domain(),
            scenario_plc_domain(),
            scenario_plc_domain(),
        ],
    )
}

/// Conjunction, for readable scenario guards.
pub open spec fn pv_and(a: PredView, b: PredView) -> PredView {
    PredView::And(Box::new(a), Box::new(b))
}

/// Disjunction.
pub open spec fn pv_or(a: PredView, b: PredView) -> PredView {
    PredView::Or(Box::new(a), Box::new(b))
}

/// Implication.
pub open spec fn pv_imp(a: PredView, b: PredView) -> PredView {
    PredView::Implies(Box::new(a), Box::new(b))
}

/// The boolean variable is true.
pub open spec fn pv_true(v: int) -> PredView {
    PredView::Eq(v, ValueView::Bool(true))
}

/// The boolean variable is false.
pub open spec fn pv_false(v: int) -> PredView {
    PredView::Eq(v, ValueView::Bool(false))
}

/// The variable equals the string.
pub open spec fn pv_eq_str(v: int, s: Seq<char>) -> PredView {
    PredView::Eq(v, ValueView::Str(s))
}

/// The variable differs from the string.
pub open spec fn pv_neq_str(v: int, s: Seq<char>) -> PredView {
    PredView::Neq(v, ValueView::Str(s))
}

/// Raise a boolean variable.
pub open spec fn av_true(v: int) -> ActionView {
    ActionView { target: v, source: SourceView::Const(ValueView::Bool(true)) }
}

/// Drop a boolean variable.
pub open spec fn av_false(v: int) -> ActionView {
    ActionView { target: v, source: SourceView::Const(ValueView::Bool(false)) }
}

/// The arm is last known to stand at the given frame.
pub open spec fn sc_at(f: Seq<char>) -> PredView {
    pv_eq_str(sc_ur().last_visited_frame, f)
}

/// One plain scenario motion: tool `robotiq_2f_tcp`, command `move_j`,
/// default tuning, guarded by the arm standing at `from`.
pub open spec fn sc_motion(m: ModelView, k: nat, from: Seq<char>, to: Seq<char>) -> ModelView {
    spec_define_motion(
        m,
        UrView { t_index: k, ..sc_ur() },
        sc_at(from),
        PredView::True,
        "robotiq_2f_tcp"@,
        to,
        "move_j"@,
        400,
        300,
        Seq::empty(),
        Seq::empty(),
    )
}

/// The model once the motions between the fixed poses and the buffer
/// put-down poses are defined.
pub open spec fn sc_with_motions() -> ModelView {
    let m = sc_motion(sc_with_plc(), 0, "unknown"@, "home_pose"@);
    let m = sc_motion(m, 1, "home_pose"@, "pickup"@);
    let m = sc_motion(m, 2, "pickup"@, "home_pose"@);
    let m = sc_motion(m, 3, "pickup"@, "pickdown"@);
    let m = sc_motion(m, 4, "pickdown"@, "pickup"@);
    let m = sc_motion(m, 5, "pickdown"@, "home_pose"@);
    let m = sc_motion(m, 6, "home_pose"@, "placedown"@);
    let m = sc_motion(m, 7, "placedown"@, "home_pose"@);
    let m = sc_motion(m, 8, "home_pose"@, "p1_down"@);
    let m = sc_motion(m, 9, "p1_down"@, "home_pose"@);
    let m = sc_motion(m, 10, "home_pose"@, "p2_down"@);
    let m = sc_motion(m, 11, "p2_down"@, "home_pose"@);
    let m = sc_motion(m, 12, "home_pose"@, "p3_down"@);
    let m = sc_motion(m, 13, "p3_down"@, "home_pose"@);
    let m = sc_motion(m, 14, "home_pose"@, "p4_down"@);
    let m = sc_motion(m, 15, "p4_down"@, "home_pose"@);
    m
}

/// The model with the gripping and releasing location invariants.
pub open spec fn sc_with_guard_invariants() -> ModelView {
    let m = spec_add_invar(
        sc_with_motions(),
        "grip_at_the_right_pos"@,
        pv_imp(
            pv_true(sc_gripper().is_closing),
            pv_or(
                sc_at("pickdown"@),
                pv_or(
                    sc_at("p1_down"@),
                    pv_or(sc_at("p2_down"@), pv_or(sc_at("p3_down"@), sc_at("p4_down"@))),
                ),
            ),
        ),
    );
    let m = spec_add_invar(
        m,
        "release_at_the_right_pos"@,
        pv_imp(
            pv_true(sc_gripper().is_opening),
            pv_or(
                sc_at("pickup"@),
                pv_or(
                    sc_at("placedown"@),
                    pv_or(
                        sc_at("p1_down"@),
                        pv_or(sc_at("p2_down"@), pv_or(sc_at("p3_down"@), sc_at("p4_down"@))),
                    ),
                ),
            ),
        ),
    );
    m
}

/// The model with the conveyor loading/unloading flow: the PLC command
/// transitions and their feedback effects, and the four conveyor
/// operations.
pub open spec fn sc_with_conveyor_ops() -> ModelView {
    let m = spec_add_transition(
        sc_with_guard_invariants(),
        TransitionView {
            name: "start_load"@,
            guard: pv_and(pv_false(sc_plc().bool_to[0]), pv_neq_str(
                sc_ur().last_visited_frame,
                "pickdown"@,
            )),
            runner_guard: PredView::True,
            actions: seq![av_true(sc_plc().bool_to[0])],
            runner_actions: Seq::empty(),
            kind: TransitionKind::Controlled,
        },
    );
    let m = spec_add_transition(
        m,
        TransitionView {
            name: "finish_load"@,
            guard: pv_and(pv_false(sc_plc().bool_from[0]), pv_true(sc_plc().bool_to[0])),
            runner_guard: PredView::True,
            actions: seq![av_true(sc_plc().bool_from[0])],
            runner_actions: Seq::empty(),
            kind: TransitionKind::Effect,
        },
    );
    let m = spec_add_op(
        m,
        "cylinder_to_sensor"@,
        pv_false(5),
        seq![av_true(5)],
        pv_true(sc_plc().bool_from[0]),
        seq![av_false(sc_plc().bool_to[0])],
        false,
        pv_false(5),
    );
    let m = spec_add_transition(
        m,
        TransitionView {
            name: "start_unload"@,
            guard: pv_false(sc_plc().bool_to[1]),
            runner_guard: PredView::True,
            actions: seq![av_true(sc_plc().bool_to[1])],
            runner_actions: Seq::empty(),
            kind: TransitionKind::Controlled,
        },
    );
    let m = spec_add_transition(
        m,
        TransitionView {
            name: "finish_unload"@,
            guard: pv_and(pv_false(sc_plc().bool_from[1]), pv_true(sc_plc().bool_to[1])),
            runner_guard: PredView::True,
            actions: seq![av_true(sc_plc().bool_from[1])],
            runner_actions: Seq::empty(),
            kind: TransitionKind::Effect,
        },
    );
    let m = spec_add_op(
        m,
        "cylinder_from_sensor"@,
        pv_true(5),
        seq![av_false(5)],
        pv_true(sc_plc().bool_from[1]),
        seq![av_false(sc_plc().bool_to[1])],
        false,
        pv_true(5),
    );
    let m = spec_add_op(
        m,
        "pick_at_conv"@,
        pv_and(pv_false(6), pv_true(5)),
        seq![av_true(6), av_false(5)],
        pv_and(sc_at("pickdown"@), pv_eq_str(sc_gripper().measured, "gripping"@)),
        Seq::empty(),
        true,
        pv_and(pv_false(6), pv_true(5)),
    );
    let m = spec_add_op(
        m,
        "place_at_conv"@,
        pv_and(pv_true(6), pv_false(5)),
        seq![av_false(6), av_true(5)],
        pv_and(sc_at("placedown"@), pv_eq_str(sc_gripper().measured, "opened"@)),
        Seq::empty(),
        true,
        pv_and(pv_true(6), pv_false(5)),
    );
    m
}

/// The model with the aruco-finding flow: the alternation flag, the
/// frame-appearing effect, the four aruco motions, the locking invariant,
/// the locked flag and its operation, and the runner-side reset.
pub open spec fn sc_with_aruco() -> ModelView {
    let m0 = sc_with_conveyor_ops();
    let la = m0.variables.len() as int;
    let m = spec_add_estimated_bool(m0, "looked_at_1"@);
    let m = spec_add_transition(
        m,
        TransitionView {
            name: "find_aruco_at_1"@,
            guard: pv_and(
                pv_false(sc_locker().frame_exists),
                pv_and(
                    pv_true(sc_ur().trigger),
                    pv_and(
                        pv_false(sc_ur().done),
                        pv_or(
                            pv_eq_str(sc_ur().goal_feature_name, "find_aruco_1"@),
                            pv_eq_str(sc_ur().goal_feature_name, "find_aruco_2"@),
                        ),
                    ),
                ),
            ),
            runner_guard: PredView::True,
            actions: seq![av_true(sc_locker().frame_exists)],
            runner_actions: Seq::empty(),
            kind: TransitionKind::Effect,
        },
    );
    let m = spec_define_motion(
        m,
        UrView { t_index: 16, ..sc_ur() },
        pv_and(sc_at("home_pose"@), pv_false(la)),
        PredView::True,
        "robotiq_2f_tcp"@,
        "find_aruco_1"@,
        "move_j"@,
        400,
        300,
        seq![av_true(la)],
        Seq::empty(),
    );
    let m = sc_motion(m, 17, "find_aruco_1"@, "home_pose"@);
    let m = spec_define_motion(
        m,
        UrView { t_index: 18, ..sc_ur() },
        pv_and(sc_at("home_pose"@), pv_true(la)),
        PredView::True,
        "robotiq_2f_tcp"@,
        "find_aruco_2"@,
        "move_j"@,
        400,
        300,
        seq![av_false(la)],
        Seq::empty(),
    );
    let m = sc_motion(m, 19, "find_aruco_2"@, "home_pose"@);
    let m = spec_add_invar(
        m,
        "lock_at_the_right_pos"@,
        pv_imp(
            pv_true(sc_locker().is_locking),
            pv_or(sc_at("find_aruco_1"@), sc_at("find_aruco_2"@)),
        ),
    );
    let al = m.variables.len() as int;
    let m = spec_add_product_bool(m, "aruco_locked"@);
    let m = spec_add_op(
        m,
        "lock_aruco"@,
        pv_false(al),
        seq![av_true(al)],
        pv_true(sc_locker().frame_locked),
        Seq::empty(),
        true,
        pv_false(al),
    );
    let m = spec_add_transition(
        m,
        TransitionView {
            name: "reset_locked_aruco"@,
            guard: pv_and(pv_true(al), pv_false(sc_locker().frame_locked)),
            runner_guard: PredView::True,
            actions: seq![av_false(al)],
            runner_actions: Seq::empty(),
            kind: TransitionKind::Runner,
        },
    );
    m
}

/// One buffer's place operation.
pub open spec fn sc_place_at_buffer(
    m: ModelView,
    name: Seq<char>,
    buffer: int,
    al: int,
    at_frame: Seq<char>,
) -> ModelView {
    spec_add_op(
        m,
        name,
        pv_and(pv_true(6), pv_and(pv_true(al), pv_false(buffer))),
        seq![av_false(6), av_true(buffer)],
        pv_and(sc_at(at_frame), pv_eq_str(sc_gripper().measured, "opened"@)),
        Seq::empty(),
        false,
        pv_and(pv_true(6), pv_and(pv_true(al), pv_false(buffer))),
    )
}

/// One buffer's pick operation.
pub open spec fn sc_pick_at_buffer(
    m: ModelView,
    name: Seq<char>,
    buffer: int,
    al: int,
    at_frame: Seq<char>,
) -> ModelView {
    spec_add_op(
        m,
        name,
        pv_and(pv_false(6), pv_and(pv_true(al), pv_true(buffer))),
        seq![av_true(6), av_false(buffer)],
        pv_and(sc_at(at_frame), pv_eq_str(sc_gripper().measured, "gripping"@)),
        Seq::empty(),
        false,
        pv_and(pv_false(6), pv_and(pv_true(al), pv_true(buffer))),
    )
}

/// The model with the per-buffer place and pick operations.
pub open spec fn sc_with_buffer_ops() -> ModelView {
    let al = sc_with_conveyor_ops().variables.len() as int + 1;
    let m = sc_place_at_buffer(sc_with_aruco(), "place_at_buffer_1"@, 1, al, "p1_down"@);
    let m = sc_pick_at_buffer(m, "pick_at_buffer_1"@, 1, al, "p1_down"@);
    let m = sc_place_at_buffer(m, "place_at_buffer_2"@, 2, al, "p2_down"@);
    let m = sc_pick_at_buffer(m, "pick_at_buffer_2"@, 2, al, "p2_down"@);
    let m = sc_place_at_buffer(m, "place_at_buffer_3"@, 3, al, "p3_down"@);
    let m = sc_pick_at_buffer(m, "pick_at_buffer_3"@, 3, al, "p3_down"@);
    let m = sc_place_at_buffer(m, "place_at_buffer_4"@, 4, al, "p4_down"@);
    let m = sc_pick_at_buffer(m, "pick_at_buffer_4"@, 4, al, "p4_down"@);
    m
}

/// The complete scenario model: the buffer operations plus the two
/// intentions, one driven from the operator's interface and one clearing
/// the scene.
pub open spec fn scenario_model() -> ModelView {
    let m = spec_add_intention(
        sc_with_buffer_ops(),
        "test_intention"@,
        false,
        PredView::False,
        PredView::False,
        PredView::False,
        Seq::empty(),
    );
    let m = spec_add_intention(
        m,
        "clear_scene"@,
        false,
        PredView::False,
        pv_and(
            pv_false(6),
            pv_and(pv_false(5), pv_and(pv_false(1), pv_and(pv_false(2), pv_and(
                pv_false(3),
                pv_false(4),
            )))),
        ),
        PredView::False,
        Seq::empty(),
    );
    m
}

/// An empty effect batch.
fn no_actions() -> (r: Vec<Action>)
    ensures
        r.deep_view() == Seq::<ActionView>::empty(),
{
    let v: Vec<Action> = Vec::new();
    proof {
        assert(v.deep_view() =~= Seq::<ActionView>::empty());
    }
    v
}

/// Declare the product-state flags: the four buffers and the two cylinder
/// locations.  Returns their variable indices in that order.
fn sc_build_products(m: &mut Model) -> (r: (usize, usize, usize, usize, usize, usize))
    requires
        old(m)@ == spec_model_new("lab_scenario_1"@),
    ensures
        final(m)@ == sc_products(),
        r == (1usize, 2usize, 3usize, 4usize, 5usize, 6usize),
{
    let buffer_1 = m.add_product_bool("buffer_1");
    let buffer_2 = m.add_product_bool("buffer_2");
    let buffer_3 = m.add_product_bool("buffer_3");
    let buffer_4 = m.add_product_bool("buffer_4");

    // cylinder by end of conveyor
    let cylinder_by_sensor = m.add_product_bool("cylinder_by_sensor");
    // cylinder in gripper
    let cylinder_in_gripper = m.add_product_bool("cylinder_in_gripper");
    proof {
        assert(m@ == sc_products());
    }

    (buffer_1, buffer_2, buffer_3, buffer_4, cylinder_by_sensor, cylinder_in_gripper)
}

/// Declare and populate the four resources: the arm, the gripper, the
/// frame locker and the field-bus PLC.
fn sc_build_resources(m: &mut Model) -> (r: (
    UrRobotResource,
    RobotiqGripper,
    FrameLocker,
    PLCResource,
))
    requires
        old(m)@ == sc_products(),
    ensures
        final(m)@ == sc_with_plc(),
        r.0@ == sc_ur(),
        r.1@ == sc_gripper(),
        r.2@ == sc_locker(),
        r.3@ == sc_plc(),
{
    let ur_r = m.add_resource("ur");
    let mut frames: Vec<Value> = Vec::new();
    frames.push(Value::text("home_pose"));
    frames.push(Value::text("pickup"));
    frames.push(Value::text("pickdown"));
    frames.push(Value::text("placedown"));
    frames.push(Value::text("find_aruco_1"));
    frames.push(Value::text("find_aruco_2"));
    frames.push(Value::text("p1_down"));
    frames.push(Value::text("p2_down"));
    frames.push(Value::text("p3_down"));
    frames.push(Value::text("p4_down"));
    let mut tools: Vec<Value> = Vec::new();
    tools.push(Value::text("robotiq_2f_tcp"));
    tools.push(Value::text("tool0"));
    proof {
        assert(frames.deep_view() =~= scenario_frames());
        assert(tools.deep_view() =~= scenario_tools());
        assert(m@.variables.len() == 7);
        assert(m@.resources.len() == 1);
    }
    let mut ur = UrRobotResource::new(m, ur_r, frames, tools);
    proof {
        assert(m@ == sc_with_ur());
        assert(ur@ == sc_ur());
    }

    let gripper_r = m.add_resource("gripper");
    proof {
        assert(m@.variables.len() == 23);
    }
    let gripper = RobotiqGripper::new(m, gripper_r);
    proof {
        assert(m@ == sc_with_gripper());
        assert(gripper@ == sc_gripper());
    }

    let locker_r = m.add_resource("frame_locker");
    proof {
        assert(m@.variables.len() == 30);
    }
    let frame_locker = FrameLocker::new(m, locker_r);
    proof {
        assert(m@ == sc_with_locker());
        assert(frame_locker@ == sc_locker());
    }

    let plc_r = m.add_resource("plc");
    let mut d: Vec<Value> = Vec::new();
    d.push(Value::Int(0));
    d.push(Value::Int(1));
    d.push(Value::Int(2));
    proof {
        assert(d.deep_view() =~= scenario_plc_domain());
    }
    let from_domain = [
        dup_values(&d),
        dup_values(&d),
        dup_values(&d),
        dup_values(&d),
        dup_values(&d),
    ];
    let to_domain = [
        dup_values(&d),
        dup_values(&d),
        dup_values(&d),
        dup_values(&d),
        dup_values(&d),
    ];
    proof {
        assert(from_domain.deep_view() =~~= seq![
            scenario_plc_domain(),
            scenario_plc_domain(),
            scenario_plc_domain(),
            scenario_plc_domain(),
            scenario_plc_domain(),
        ]);
        assert(to_domain.deep_view() =~~= seq![
            scenario_plc_domain(),
            scenario_plc_domain(),
            scenario_plc_domain(),
            scenario_plc_domain(),
            scenario_plc_domain(),
        ]);
        assert(m@.variables.len() == 35);
    }
    let plc = PLCResource::new(m, plc_r, from_domain, to_domain);
    proof {
        assert(m@ == sc_with_plc());
        assert(plc@ == sc_plc());
    }

    (ur, gripper, frame_locker, plc)
}

/// Define the motions between the fixed poses and to and from each buffer.
#[verifier::rlimit(100)]
fn sc_build_motions(m: &mut Model, ur: &mut UrRobotResource)
    requires
        old(m)@ == sc_with_plc(),
        old(ur)@ == sc_ur(),
    ensures
        final(m)@ == sc_with_motions(),
        final(ur)@ == (UrView { t_index: 16, ..sc_ur() }),
{
    let est_pos = ur.last_visited_frame;
    // arm motions between the fixed poses, and to and from each buffer
    ur.define_motion(
        m,
        Predicate::eq_str(est_pos, "unknown"),
        Predicate::True,
        "robotiq_2f_tcp",
        "home_pose",
        "move_j",
        400,
        300,
        no_actions(),
        no_actions(),
    );
    proof {
        assert(m@ == sc_motion(sc_with_plc(), 0, "unknown"@, "home_pose"@));
    }
    ur.define_motion(
        m,
        Predicate::eq_str(est_pos, "home_pose"),
        Predicate::True,
        "robotiq_2f_tcp",
        "pickup",
        "move_j",
        400,
        300,
        no_actions(),
        no_actions(),
    );
    ur.define_motion(
        m,
        Predicate::eq_str(est_pos, "pickup"),
        Predicate::True,
        "robotiq_2f_tcp",
        "home_pose",
        "move_j",
        400,
        300,
        no_actions(),
        no_actions(),
    );
    ur.define_motion(
        m,
        Predicate::eq_str(est_pos, "pickup"),
        Predicate::True,
        "robotiq_2f_tcp",
        "pickdown",
        "move_j",
        400,
        300,
        no_actions(),
        no_actions(),
    );
    ur.define_motion(
        m,
        Predicate::eq_str(est_pos, "pickdown"),
        Predicate::True,
        "robotiq_2f_tcp",
        "pickup",
        "move_j",
        400,
        300,
        no_actions(),
        no_actions(),
    );
    ur.define_motion(
        m,
        Predicate::eq_str(est_pos, "pickdown"),
        Predicate::True,
        "robotiq_2f_tcp",
        "home_pose",
        "move_j",
        400,
        300,
        no_actions(),
        no_actions(),
    );
    ur.define_motion(
        m,
        Predicate::eq_str(est_pos, "home_pose"),
        Predicate::True,
        "robotiq_2f_tcp",
        "placedown",
        "move_j",
        400,
        300,
        no_actions(),
        no_actions(),
    );
    ur.define_motion(
        m,
        Predicate::eq_str(est_pos, "placedown"),
        Predicate::True,
        "robotiq_2f_tcp",
        "home_pose",
        "move_j",
        400,
        300,
        no_actions(),
        no_actions(),
    );
    ur.define_motion(
        m,
        Predicate::eq_str(est_pos, "home_pose"),
        Predicate::True,
        "robotiq_2f_tcp",
        "p1_down",
        "move_j",
        400,
        300,
        no_actions(),
        no_actions(),
    );
    ur.define_motion(
        m,
        Predicate::eq_str(est_pos, "p1_down"),
        Predicate::True,
        "robotiq_2f_tcp",
        "home_pose",
        "move_j",
        400,
        300,
        no_actions(),
        no_actions(),
    );
    ur.define_motion(
        m,
        Predicate::eq_str(est_pos, "home_pose"),
        Predicate::True,
        "robotiq_2f_tcp",
        "p2_down",
        "move_j",
        400,
        300,
        no_actions(),
        no_actions(),
    );
    ur.define_motion(
        m,
        Predicate::eq_str(est_pos, "p2_down"),
        Predicate::True,
        "robotiq_2f_tcp",
        "home_pose",
        "move_j",
        400,
        300,
        no_actions(),
        no_actions(),
    );
    ur.define_motion(
        m,
        Predicate::eq_str(est_pos, "home_pose"),
        Predicate::True,
        "robotiq_2f_tcp",
        "p3_down",
        "move_j",
        400,
        300,
        no_actions(),
        no_actions(),
    );
    ur.define_motion(
        m,
        Predicate::eq_str(est_pos, "p3_down"),
        Predicate::True,
        "robotiq_2f_tcp",
        "home_pose",
        "move_j",
        400,
        300,
        no_actions(),
        no_actions(),
    );
    ur.define_motion(
        m,
        Predicate::eq_str(est_pos, "home_pose"),
        Predicate::True,
        "robotiq_2f_tcp",
        "p4_down",
        "move_j",
        400,
        300,
        no_actions(),
        no_actions(),
    );
    ur.define_motion(
        m,
        Predicate::eq_str(est_pos, "p4_down"),
        Predicate::True,
        "robotiq_2f_tcp",
        "home_pose",
        "move_j",
        400,
        300,
        no_actions(),
        no_actions(),
    );
    proof {
        assert(m@ == sc_with_motions());
    }

}

/// Record the gripping and releasing invariants and wire the conveyor
/// loading/unloading flow with its four operations.
#[verifier::rlimit(100)]
fn sc_build_conveyor(
    m: &mut Model,
    ur: &UrRobotResource,
    gripper: &RobotiqGripper,
    plc: &PLCResource,
    cylinder_by_sensor: usize,
    cylinder_in_gripper: usize,
)
    requires
        old(m)@ == sc_with_motions(),
        ur@ == (UrView { t_index: 16, ..sc_ur() }),
        gripper@ == sc_gripper(),
        plc@ == sc_plc(),
        cylinder_by_sensor == 5usize,
        cylinder_in_gripper == 6usize,
    ensures
        final(m)@ == sc_with_conveyor_ops(),
{
    let est_pos = ur.last_visited_frame;
    // can only grip and release in certain positions.
    let grip_invar = Predicate::implies(
        Predicate::is_true(gripper.is_closing),
        Predicate::or(
            Predicate::eq_str(est_pos, "pickdown"),
            Predicate::or(
                Predicate::eq_str(est_pos, "p1_down"),
                Predicate::or(
                    Predicate::eq_str(est_pos, "p2_down"),
                    Predicate::or(
                        Predicate::eq_str(est_pos, "p3_down"),
                        Predicate::eq_str(est_pos, "p4_down"),
                    ),
                ),
            ),
        ),
    );
    m.add_invar("grip_at_the_right_pos", &grip_invar);
    let release_invar = Predicate::implies(
        Predicate::is_true(gripper.is_opening),
        Predicate::or(
            Predicate::eq_str(est_pos, "pickup"),
            Predicate::or(
                Predicate::eq_str(est_pos, "placedown"),
                Predicate::or(
                    Predicate::eq_str(est_pos, "p1_down"),
                    Predicate::or(
                        Predicate::eq_str(est_pos, "p2_down"),
                        Predicate::or(
                            Predicate::eq_str(est_pos, "p3_down"),
                            Predicate::eq_str(est_pos, "p4_down"),
                        ),
                    ),
                ),
            ),
        ),
    );
    m.add_invar("release_at_the_right_pos", &release_invar);
    proof {
        assert(m@ == sc_with_guard_invariants());
    }

    // conveyor loading and unloading via the PLC.
    m.add_transition(
        Transition::new(
            "start_load",
            Predicate::and(
                Predicate::is_false(plc.bool_to_plc_1),
                Predicate::neq_str(est_pos, "pickdown"),
            ),
            Predicate::True,
            vec![Action::set_true(plc.bool_to_plc_1)],
            Vec::new(),
            TransitionKind::Controlled,
        ),
    );
    m.add_transition(
        Transition::new(
            "finish_load",
            Predicate::and(
                Predicate::is_false(plc.bool_from_plc_1),
                Predicate::is_true(plc.bool_to_plc_1),
            ),
            Predicate::True,
            vec![Action::set_true(plc.bool_from_plc_1)],
            Vec::new(),
            TransitionKind::Effect,
        ),
    );
    let cts_guard = Predicate::is_false(cylinder_by_sensor);
    let cts_effects = vec![Action::set_true(cylinder_by_sensor)];
    let cts_goal = Predicate::is_true(plc.bool_from_plc_1);
    let cts_actions = vec![Action::set_false(plc.bool_to_plc_1)];
    m.add_op("cylinder_to_sensor", &cts_guard, &cts_effects, &cts_goal, &cts_actions, false, None);

    m.add_transition(
        Transition::new(
            "start_unload",
            Predicate::is_false(plc.bool_to_plc_2),
            Predicate::True,
            vec![Action::set_true(plc.bool_to_plc_2)],
            Vec::new(),
            TransitionKind::Controlled,
        ),
    );
    m.add_transition(
        Transition::new(
            "finish_unload",
            Predicate::and(
                Predicate::is_false(plc.bool_from_plc_2),
                Predicate::is_true(plc.bool_to_plc_2),
            ),
            Predicate::True,
            vec![Action::set_true(plc.bool_from_plc_2)],
            Vec::new(),
            TransitionKind::Effect,
        ),
    );
    let cfs_guard = Predicate::is_true(cylinder_by_sensor);
    let cfs_effects = vec![Action::set_false(cylinder_by_sensor)];
    let cfs_goal = Predicate::is_true(plc.bool_from_plc_2);
    let cfs_actions = vec![Action::set_false(plc.bool_to_plc_2)];
    m.add_op(
        "cylinder_from_sensor",
        &cfs_guard,
        &cfs_effects,
        &cfs_goal,
        &cfs_actions,
        false,
        None,
    );

    let pac_guard = Predicate::and(
        Predicate::is_false(cylinder_in_gripper),
        Predicate::is_true(cylinder_by_sensor),
    );
    let pac_effects = vec![
        Action::set_true(cylinder_in_gripper),
        Action::set_false(cylinder_by_sensor),
    ];
    let pac_goal = Predicate::and(
        Predicate::eq_str(est_pos, "pickdown"),
        Predicate::eq_str(gripper.measured, "gripping"),
    );
    let empty_actions = no_actions();
    m.add_op("pick_at_conv", &pac_guard, &pac_effects, &pac_goal, &empty_actions, true, None);

    let plc_guard = Predicate::and(
        Predicate::is_true(cylinder_in_gripper),
        Predicate::is_false(cylinder_by_sensor),
    );
    let plc_effects = vec![
        Action::set_false(cylinder_in_gripper),
        Action::set_true(cylinder_by_sensor),
    ];
    let plc_goal = Predicate::and(
        Predicate::eq_str(est_pos, "placedown"),
        Predicate::eq_str(gripper.measured, "opened"),
    );
    m.add_op("place_at_conv", &plc_guard, &plc_effects, &plc_goal, &empty_actions, true, None);
    proof {
        assert(m@ =~~= sc_with_conveyor_ops());
    }

}

/// Wire the aruco-finding flow: the alternation flag, the frame-appearing
/// effect, the four aruco motions, the locking invariant, the locked flag
/// with its operation, and the runner-side reset.  Returns the indices of
/// the alternation flag and the locked flag.
#[verifier::rlimit(100)]
fn sc_build_aruco(
    m: &mut Model,
    ur: &mut UrRobotResource,
    frame_locker: &FrameLocker,
) -> (r: (usize, usize))
    requires
        old(m)@ == sc_with_conveyor_ops(),
        old(ur)@ == (UrView { t_index: 16, ..sc_ur() }),
        frame_locker@ == sc_locker(),
    ensures
        final(m)@ == sc_with_aruco(),
        final(ur)@ == (UrView { t_index: 20, ..sc_ur() }),
        r.0 == sc_with_conveyor_ops().variables.len(),
        r.1 == sc_with_conveyor_ops().variables.len() + 1,
{
    let est_pos = ur.last_visited_frame;
    let empty_actions = no_actions();
    // variable for alternating between the aruco finding poses.
    let looked_at_1 = m.add_estimated_bool("looked_at_1");

    // when moving towards an aruco finding pose, the aruco will show up.
    m.add_transition(
        Transition::new(
            "find_aruco_at_1",
            Predicate::and(
                Predicate::is_false(frame_locker.frame_exists),
                Predicate::and(
                    Predicate::is_true(ur.trigger),
                    Predicate::and(
                        Predicate::is_false(ur.done),
                        Predicate::or(
                            Predicate::eq_str(ur.goal_feature_name, "find_aruco_1"),
                            Predicate::eq_str(ur.goal_feature_name, "find_aruco_2"),
                        ),
                    ),
                ),
            ),
            Predicate::True,
            vec![Action::set_true(frame_locker.frame_exists)],
            Vec::new(),
            TransitionKind::Effect,
        ),
    );
    ur.define_motion(
        m,
        Predicate::and(
            Predicate::eq_str(est_pos, "home_pose"),
            Predicate::is_false(looked_at_1),
        ),
        Predicate::True,
        "robotiq_2f_tcp",
        "find_aruco_1",
        "move_j",
        400,
        300,
        vec![Action::set_true(looked_at_1)],
        no_actions(),
    );
    ur.define_motion(
        m,
        Predicate::eq_str(est_pos, "find_aruco_1"),
        Predicate::True,
        "robotiq_2f_tcp",
        "home_pose",
        "move_j",
        400,
        300,
        no_actions(),
        no_actions(),
    );
    ur.define_motion(
        m,
        Predicate::and(
            Predicate::eq_str(est_pos, "home_pose"),
            Predicate::is_true(looked_at_1),
        ),
        Predicate::True,
        "robotiq_2f_tcp",
        "find_aruco_2",
        "move_j",
        400,
        300,
        vec![Action::set_false(looked_at_1)],
        no_actions(),
    );
    ur.define_motion(
        m,
        Predicate::eq_str(est_pos, "find_aruco_2"),
        Predicate::True,
        "robotiq_2f_tcp",
        "home_pose",
        "move_j",
        400,
        300,
        no_actions(),
        no_actions(),
    );
    let lock_invar = Predicate::implies(
        Predicate::is_true(frame_locker.is_locking),
        Predicate::or(
            Predicate::eq_str(est_pos, "find_aruco_1"),
            Predicate::eq_str(est_pos, "find_aruco_2"),
        ),
    );
    m.add_invar("lock_at_the_right_pos", &lock_invar);

    let aruco_locked = m.add_product_bool("aruco_locked");
    let la_guard = Predicate::is_false(aruco_locked);
    let la_effects = vec![Action::set_true(aruco_locked)];
    let la_goal = Predicate::is_true(frame_locker.frame_locked);
    m.add_op("lock_aruco", &la_guard, &la_effects, &la_goal, &empty_actions, true, None);

    // convenience reset of the product variable.
    m.add_transition(
        Transition::new(
            "reset_locked_aruco",
            Predicate::and(
                Predicate::is_true(aruco_locked),
                Predicate::is_false(frame_locker.frame_locked),
            ),
            Predicate::True,
            vec![Action::set_false(aruco_locked)],
            Vec::new(),
            TransitionKind::Runner,
        ),
    );
    proof {
        assert(m@ =~~= sc_with_aruco());
    }

    (looked_at_1, aruco_locked)
}

/// Declare the per-buffer place and pick operations.
#[verifier::rlimit(100)]
fn sc_build_buffer_ops(
    m: &mut Model,
    ur: &UrRobotResource,
    gripper: &RobotiqGripper,
    buffers: (usize, usize, usize, usize),
    cylinder_in_gripper: usize,
    aruco_locked: usize,
)
    requires
        old(m)@ == sc_with_aruco(),
        ur@ == (UrView { t_index: 20, ..sc_ur() }),
        gripper@ == sc_gripper(),
        buffers == (1usize, 2usize, 3usize, 4usize),
        cylinder_in_gripper == 6usize,
        aruco_locked == sc_with_conveyor_ops().variables.len() + 1,
    ensures
        final(m)@ == sc_with_buffer_ops(),
{
    let est_pos = ur.last_visited_frame;
    let empty_actions = no_actions();
    let (buffer_1, buffer_2, buffer_3, buffer_4) = buffers;
    // per-buffer place and pick operations.
    let pb1_guard = Predicate::and(
        Predicate::is_true(cylinder_in_gripper),
        Predicate::and(Predicate::is_true(aruco_locked), Predicate::is_false(buffer_1)),
    );
    let pb1_effects = vec![Action::set_false(cylinder_in_gripper), Action::set_true(buffer_1)];
    let pb1_goal = Predicate::and(
        Predicate::eq_str(est_pos, "p1_down"),
        Predicate::eq_str(gripper.measured, "opened"),
    );
    m.add_op("place_at_buffer_1", &pb1_guard, &pb1_effects, &pb1_goal, &empty_actions, false, None);
    let tb1_guard = Predicate::and(
        Predicate::is_false(cylinder_in_gripper),
        Predicate::and(Predicate::is_true(aruco_locked), Predicate::is_true(buffer_1)),
    );
    let tb1_effects = vec![Action::set_true(cylinder_in_gripper), Action::set_false(buffer_1)];
    let tb1_goal = Predicate::and(
        Predicate::eq_str(est_pos, "p1_down"),
        Predicate::eq_str(gripper.measured, "gripping"),
    );
    m.add_op("pick_at_buffer_1", &tb1_guard, &tb1_effects, &tb1_goal, &empty_actions, false, None);

    let pb2_guard = Predicate::and(
        Predicate::is_true(cylinder_in_gripper),
        Predicate::and(Predicate::is_true(aruco_locked), Predicate::is_false(buffer_2)),
    );
    let pb2_effects = vec![Action::set_false(cylinder_in_gripper), Action::set_true(buffer_2)];
    let pb2_goal = Predicate::and(
        Predicate::eq_str(est_pos, "p2_down"),
        Predicate::eq_str(gripper.measured, "opened"),
    );
    m.add_op("place_at_buffer_2", &pb2_guard, &pb2_effects, &pb2_goal, &empty_actions, false, None);
    let tb2_guard = Predicate::and(
        Predicate::is_false(cylinder_in_gripper),
        Predicate::and(Predicate::is_true(aruco_locked), Predicate::is_true(buffer_2)),
    );
    let tb2_effects = vec![Action::set_true(cylinder_in_gripper), Action::set_false(buffer_2)];
    let tb2_goal = Predicate::and(
        Predicate::eq_str(est_pos, "p2_down"),
        Predicate::eq_str(gripper.measured, "gripping"),
    );
    m.add_op("pick_at_buffer_2", &tb2_guard, &tb2_effects, &tb2_goal, &empty_actions, false, None);

    let pb3_guard = Predicate::and(
        Predicate::is_true(cylinder_in_gripper),
        Predicate::and(Predicate::is_true(aruco_locked), Predicate::is_false(buffer_3)),
    );
    let pb3_effects = vec![Action::set_false(cylinder_in_gripper), Action::set_true(buffer_3)];
    let pb3_goal = Predicate::and(
        Predicate::eq_str(est_pos, "p3_down"),
        Predicate::eq_str(gripper.measured, "opened"),
    );
    m.add_op("place_at_buffer_3", &pb3_guard, &pb3_effects, &pb3_goal, &empty_actions, false, None);
    let tb3_guard = Predicate::and(
        Predicate::is_false(cylinder_in_gripper),
        Predicate::and(Predicate::is_true(aruco_locked), Predicate::is_true(buffer_3)),
    );
    let tb3_effects = vec![Action::set_true(cylinder_in_gripper), Action::set_false(buffer_3)];
    let tb3_goal = Predicate::and(
        Predicate::eq_str(est_pos, "p3_down"),
        Predicate::eq_str(gripper.measured, "gripping"),
    );
    m.add_op("pick_at_buffer_3", &tb3_guard, &tb3_effects, &tb3_goal, &empty_actions, false, None);

    let pb4_guard = Predicate::and(
        Predicate::is_true(cylinder_in_gripper),
        Predicate::and(Predicate::is_true(aruco_locked), Predicate::is_false(buffer_4)),
    );
    let pb4_effects = vec![Action::set_false(cylinder_in_gripper), Action::set_true(buffer_4)];
    let pb4_goal = Predicate::and(
        Predicate::eq_str(est_pos, "p4_down"),
        Predicate::eq_str(gripper.measured, "opened"),
    );
    m.add_op("place_at_buffer_4", &pb4_guard, &pb4_effects, &pb4_goal, &empty_actions, false, None);
    let tb4_guard = Predicate::and(
        Predicate::is_false(cylinder_in_gripper),
        Predicate::and(Predicate::is_true(aruco_locked), Predicate::is_true(buffer_4)),
    );
    let tb4_effects = vec![Action::set_true(cylinder_in_gripper), Action::set_false(buffer_4)];
    let tb4_goal = Predicate::and(
        Predicate::eq_str(est_pos, "p4_down"),
        Predicate::eq_str(gripper.measured, "gripping"),
    );
    m.add_op("pick_at_buffer_4", &tb4_guard, &tb4_effects, &tb4_goal, &empty_actions, false, None);
    proof {
        assert(m@ =~~= sc_with_buffer_ops());
    }

}

/// Declare the two intentions.
fn sc_build_intentions(
    m: &mut Model,
    buffers: (usize, usize, usize, usize),
    cylinder_by_sensor: usize,
    cylinder_in_gripper: usize,
)
    requires
        old(m)@ == sc_with_buffer_ops(),
        buffers == (1usize, 2usize, 3usize, 4usize),
        cylinder_by_sensor == 5usize,
        cylinder_in_gripper == 6usize,
    ensures
        final(m)@ == scenario_model(),
{
    let empty_actions = no_actions();
    let (buffer_1, buffer_2, buffer_3, buffer_4) = buffers;
    // This intention is driven from the operator's interface.
    m.add_intention(
        "test_intention",
        false,
        &Predicate::False,
        &Predicate::False,
        &Predicate::False,
        &empty_actions,
    );
    let clear_scene_goal = Predicate::and(
        Predicate::is_false(cylinder_in_gripper),
        Predicate::and(
            Predicate::is_false(cylinder_by_sensor),
            Predicate::and(
                Predicate::is_false(buffer_1),
                Predicate::and(
                    Predicate::is_false(buffer_2),
                    Predicate::and(
                        Predicate::is_false(buffer_3),
                        Predicate::is_false(buffer_4),
                    ),
                ),
            ),
        ),
    );
    m.add_intention(
        "clear_scene",
        false,
        &Predicate::False,
        &clear_scene_goal,
        &Predicate::False,
        &empty_actions,
    );
    proof {
        assert(m@ =~~= scenario_model());
    }

}

/// Build the laboratory cell scenario: the model and its initial
/// world-state snapshot.  The construction is deterministic: its result is
/// pinned to [`scenario_model`], so repeated constructions agree on every
/// variable identifier, transition name and initial value.
pub fn make_model() -> (r: (Model, SPState))
    ensures
        r.0@ == scenario_model(),
        r.1@ == initial_vals(scenario_model().variables),
{
    let mut m = Model::new("lab_scenario_1");
    let (buffer_1, buffer_2, buffer_3, buffer_4, cylinder_by_sensor, cylinder_in_gripper) =
        sc_build_products(&mut m);
    let (mut ur, gripper, frame_locker, plc) = sc_build_resources(&mut m);
    sc_build_motions(&mut m, &mut ur);
    sc_build_conveyor(&mut m, &ur, &gripper, &plc, cylinder_by_sensor, cylinder_in_gripper);
    let (looked_at_1, aruco_locked) = sc_build_aruco(&mut m, &mut ur, &frame_locker);
    sc_build_buffer_ops(
        &mut m,
        &ur,
        &gripper,
        (buffer_1, buffer_2, buffer_3, buffer_4),
        cylinder_in_gripper,
        aruco_locked,
    );
    sc_build_intentions(
        &mut m,
        (buffer_1, buffer_2, buffer_3, buffer_4),
        cylinder_by_sensor,
        cylinder_in_gripper,
    );
    let initial_state = m.initial_state();
    (m, initial_state)
}

} // verus!
