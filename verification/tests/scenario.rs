//! Scenario-level tests: building the laboratory cell, checking its
//! handshake invariant, planning over it, and walking its error path.

use sp_model::laws::check_flags_safety;
use sp_model::predicate::Predicate;
use sp_model::scenario::make_model;
use sp_model::state::SPState;
use sp_model::transition::Transition;
use sp_model::transition::TransitionKind;
use sp_model::value::Value;

fn fire_named(ts: &Vec<Transition>, name: &str, s: &SPState) -> SPState {
    for t in ts.iter() {
        if t.name == name {
            match t.try_fire(s) {
                Ok(Some(s2)) => return s2,
                Ok(None) => panic!("transition {} is not enabled", name),
                Err(_) => panic!("evaluation error firing {}", name),
            }
        }
    }
    panic!("no transition named {}", name);
}

fn named(ts: &Vec<Transition>, name: &str) -> usize {
    for (i, t) in ts.iter().enumerate() {
        if t.name == name {
            return i;
        }
    }
    panic!("no transition named {}", name);
}

/// The handshake invariant: no reachable snapshot raises the arm's done
/// and error flags together.  Checked over the complete flattened
/// transition system, runner transitions included, starting from an
/// initial snapshot with both flags down.
#[test]
fn modelcheck() {
    let (m, s) = make_model();
    let ts = m.all_transitions();
    let done = m.find_variable("lab_scenario_1/ur/measured/done").unwrap();
    let error = m.find_variable("lab_scenario_1/ur/measured/error").unwrap();
    assert!(check_flags_safety(&ts, done, error, s.len()));
    assert!(s.get(done).eq_value(&Value::Bool(false)));
    assert!(s.get(error).eq_value(&Value::Bool(false)));
}

/// A planner given the goal `op_done` finds a plan from the initial
/// snapshot with the gripper reported open.
#[test]
fn plan() {
    let (m, mut s) = make_model();
    let ts = m.formal_transitions();

    // make a goal
    let op_done = m.find_variable("lab_scenario_1/product_state/op_done").unwrap();
    let goal = Predicate::is_true(op_done);

    // set initial state
    let gripper_state = m.find_variable("lab_scenario_1/gripper/measured").unwrap();
    s.set(gripper_state, Value::text("opened"));

    let result = sp_model::planner::plan(&ts, &s, &goal, 100);
    match result {
        Err(_) => {
            assert!(false);
        }
        Ok(p) => {
            assert!(p.plan_found);
            println!("THE PLAN");
            for i in &p.trace {
                println!("{}", ts[*i].name);
            }
        }
    };
}

/// The two-pose oscillation: from position unknown with an empty goal, a
/// plan toward `op_done` ends with an operation-completing transition, and
/// replanning from the completed state toward the negated goal succeeds as
/// well.
#[test]
fn two_pose_oscillation() {
    let (m, mut s) = make_model();
    let ts = m.formal_transitions();
    let op_done = m.find_variable("lab_scenario_1/product_state/op_done").unwrap();
    let gripper_state = m.find_variable("lab_scenario_1/gripper/measured").unwrap();
    s.set(gripper_state, Value::text("opened"));

    let forward = m.plan(&s, &Predicate::is_true(op_done), 100).unwrap();
    assert!(forward.plan_found);
    assert!(!forward.trace.is_empty());
    let last = &ts[*forward.trace.last().unwrap()];
    assert!(last.name.ends_with("_finish"));

    // walk the plan to the completed state
    let mut at = s;
    for i in &forward.trace {
        at = match ts[*i].try_fire(&at) {
            Ok(Some(s2)) => s2,
            _ => panic!("plan step {} did not fire", ts[*i].name),
        };
    }
    assert!(at.get(op_done).eq_value(&Value::Bool(true)));

    // and back again
    let back = m.plan(&at, &Predicate::is_false(op_done), 100).unwrap();
    assert!(back.plan_found);
}

/// The error path, through formal transitions only: a motion request, a
/// handshake fault via the formal error Effect, the error-handling
/// transition resetting the last-visited estimate to the unknown sentinel
/// and dropping the trigger, and the reset returning the handshake to
/// idle.  The failed state is also reachable to the planner.
#[test]
fn error_path_resets_to_unknown() {
    let (m, s) = make_model();
    let ts = m.formal_transitions();
    let trigger = m.find_variable("lab_scenario_1/ur/trigger").unwrap();
    let done = m.find_variable("lab_scenario_1/ur/measured/done").unwrap();
    let error = m.find_variable("lab_scenario_1/ur/measured/error").unwrap();
    let lvf = m.find_variable("lab_scenario_1/ur/estimated/last_visited_frame").unwrap();

    // request the motion from the unknown pose, then report a fault
    let s1 = fire_named(&ts, "ur_robotiq_2f_tcp_to_home_pose_0", &s);
    assert!(s1.get(trigger).eq_value(&Value::Bool(true)));
    let s2 = fire_named(&ts, "ur_finish_error", &s1);
    assert!(s2.get(error).eq_value(&Value::Bool(true)));
    assert!(s2.get(done).eq_value(&Value::Bool(false)));

    // the planner can reach the failed state on its own
    let to_failed = m.plan(&s1, &Predicate::is_true(error), 5).unwrap();
    assert!(to_failed.plan_found);

    let s3 = fire_named(&ts, "ur_robotiq_2f_tcp_to_home_pose_0_error", &s2);
    assert!(s3.get(lvf).eq_value(&Value::text("unknown")));
    assert!(s3.get(trigger).eq_value(&Value::Bool(false)));

    let s4 = fire_named(&ts, "ur_reset", &s3);
    assert!(s4.get(trigger).eq_value(&Value::Bool(false)));
    assert!(s4.get(done).eq_value(&Value::Bool(false)));
    assert!(s4.get(error).eq_value(&Value::Bool(false)));
}

/// Constructing the scenario twice yields identical variable identifiers,
/// transition names and initial snapshot values.
#[test]
fn construction_is_deterministic() {
    let (m1, s1) = make_model();
    let (m2, s2) = make_model();
    assert_eq!(m1.variables.len(), m2.variables.len());
    for (a, b) in m1.variables.iter().zip(m2.variables.iter()) {
        assert_eq!(a.path, b.path);
    }
    let t1 = m1.all_transitions();
    let t2 = m2.all_transitions();
    assert_eq!(t1.len(), t2.len());
    for (a, b) in t1.iter().zip(t2.iter()) {
        assert_eq!(a.name, b.name);
    }
    assert_eq!(s1.len(), s2.len());
    for i in 0..s1.len() {
        assert!(s1.get(i).eq_value(s2.get(i)));
    }
}

/// One full motion handshake: the Controlled request raises the trigger
/// and writes the request parameters, the Effect reports done, and the
/// Auto completion drops the trigger and commits the last visited frame.
#[test]
fn motion_handshake_cycle() {
    let (m, s) = make_model();
    let ts = m.all_transitions();
    let trigger = m.find_variable("lab_scenario_1/ur/trigger").unwrap();
    let done = m.find_variable("lab_scenario_1/ur/measured/done").unwrap();
    let goal = m.find_variable("lab_scenario_1/ur/request/goal_feature_name").unwrap();
    let lvf = m.find_variable("lab_scenario_1/ur/estimated/last_visited_frame").unwrap();

    let ctrl = named(&ts, "ur_robotiq_2f_tcp_to_home_pose_0");
    assert!(matches!(ts[ctrl].kind, TransitionKind::Controlled));
    let s1 = fire_named(&ts, "ur_robotiq_2f_tcp_to_home_pose_0", &s);
    assert!(s1.get(trigger).eq_value(&Value::Bool(true)));
    assert!(s1.get(goal).eq_value(&Value::text("home_pose")));

    let fin = named(&ts, "ur_finish_ok");
    assert!(matches!(ts[fin].kind, TransitionKind::Effect));
    let s2 = fire_named(&ts, "ur_finish_ok", &s1);
    assert!(s2.get(done).eq_value(&Value::Bool(true)));

    let auto = named(&ts, "ur_robotiq_2f_tcp_to_home_pose_0_done");
    assert!(matches!(ts[auto].kind, TransitionKind::Auto));
    let s3 = fire_named(&ts, "ur_robotiq_2f_tcp_to_home_pose_0_done", &s2);
    assert!(s3.get(trigger).eq_value(&Value::Bool(false)));
    assert!(s3.get(lvf).eq_value(&Value::text("home_pose")));
}

/// An auto-completing operation reaches completed without any Controlled
/// transition once its low-level goal holds while it is executing.
#[test]
fn auto_operation_completes() {
    let (m, mut s) = make_model();
    let ts = m.all_transitions();
    let status = m.find_variable("lab_scenario_1/operations/pick_at_conv").unwrap();
    let op_done = m.find_variable("lab_scenario_1/product_state/op_done").unwrap();
    let lvf = m.find_variable("lab_scenario_1/ur/estimated/last_visited_frame").unwrap();
    let measured = m.find_variable("lab_scenario_1/gripper/measured").unwrap();

    s.set(status, Value::text("executing"));
    s.set(lvf, Value::text("pickdown"));
    s.set(measured, Value::text("gripping"));

    let fin = named(&ts, "pick_at_conv_finish");
    assert!(matches!(ts[fin].kind, TransitionKind::Auto));
    let s2 = fire_named(&ts, "pick_at_conv_finish", &s);
    assert!(s2.get(status).eq_value(&Value::text("completed")));
    assert!(s2.get(op_done).eq_value(&Value::Bool(true)));
}

/// The gripper's open handshake: Controlled trigger, Effect feedback,
/// Auto reset.
#[test]
fn gripper_open_cycle() {
    let (m, s) = make_model();
    let ts = m.all_transitions();
    let open_trigger = m.find_variable("lab_scenario_1/gripper/open_trigger").unwrap();
    let measured = m.find_variable("lab_scenario_1/gripper/measured").unwrap();

    let s1 = fire_named(&ts, "gripper_open", &s);
    assert!(s1.get(open_trigger).eq_value(&Value::Bool(true)));
    let s2 = fire_named(&ts, "gripper_open_done", &s1);
    assert!(s2.get(measured).eq_value(&Value::text("opened")));
    let s3 = fire_named(&ts, "gripper_open_reset", &s2);
    assert!(s3.get(open_trigger).eq_value(&Value::Bool(false)));
    assert!(matches!(
        ts[named(&ts, "gripper_open")].kind,
        TransitionKind::Controlled
    ));
    assert!(matches!(
        ts[named(&ts, "gripper_open_reset")].kind,
        TransitionKind::Auto
    ));
}

/// The frame locker's lock handshake.
#[test]
fn frame_locker_lock_cycle() {
    let (m, mut s) = make_model();
    let ts = m.all_transitions();
    let lock_trigger = m.find_variable("lab_scenario_1/frame_locker/lock_trigger").unwrap();
    let frame_exists = m.find_variable("lab_scenario_1/frame_locker/frame_exists").unwrap();
    let frame_locked = m.find_variable("lab_scenario_1/frame_locker/frame_locked").unwrap();

    s.set(frame_exists, Value::Bool(true));
    let s1 = fire_named(&ts, "frame_locker_lock", &s);
    assert!(s1.get(lock_trigger).eq_value(&Value::Bool(true)));
    let s2 = fire_named(&ts, "frame_locker_lock_done", &s1);
    assert!(s2.get(frame_locked).eq_value(&Value::Bool(true)));
    let s3 = fire_named(&ts, "frame_locker_lock_reset", &s2);
    assert!(s3.get(lock_trigger).eq_value(&Value::Bool(false)));
}

/// The assembled scenario passes downstream validation: no undefined
/// references, no domain violations, no name collisions.
#[test]
fn scenario_model_validates() {
    let (m, _s) = make_model();
    assert!(m.validate().is_ok());
}

/// The derived is-closing predicate holds exactly while the close trigger
/// is up and the jaws report neither gripping nor closed.
#[test]
fn derived_gripper_predicates() {
    let (m, mut s) = make_model();
    let idx = m.find_variable("lab_scenario_1/gripper/is_closing").unwrap();
    let close_trigger = m.find_variable("lab_scenario_1/gripper/close_trigger").unwrap();
    let measured = m.find_variable("lab_scenario_1/gripper/measured").unwrap();
    let def = m.variables[idx].definition.as_ref().unwrap();

    assert_eq!(def.eval(&s).unwrap(), false);
    s.set(close_trigger, Value::Bool(true));
    assert_eq!(def.eval(&s).unwrap(), true);
    s.set(measured, Value::text("gripping"));
    assert_eq!(def.eval(&s).unwrap(), false);
}
