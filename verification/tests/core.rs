//! Unit tests of the modelling algebra: values, guards, effect batches,
//! transitions, model assembly and the planner.

use sp_model::action::Action;
use sp_model::action::apply_all;
use sp_model::error::SpError;
use sp_model::model::Model;
use sp_model::planner::plan;
use sp_model::predicate::Predicate;
use sp_model::state::SPState;
use sp_model::transition::Transition;
use sp_model::transition::TransitionKind;
use sp_model::util::usize_string;
use sp_model::value::Value;
use sp_model::value::ValueType;
use sp_model::value::VariableKind;
use sp_model::value::value_in_domain;
use sp_model::resources::ur::UrRobotResource;
use sp_model::variable::Variable;

fn bool_state(vals: &[bool]) -> SPState {
    SPState::new(vals.iter().map(|b| Value::Bool(*b)).collect())
}

#[test]
fn value_equality_and_domains() {
    assert!(Value::Bool(true).eq_value(&Value::Bool(true)));
    assert!(!Value::Int(3).eq_value(&Value::Int(4)));
    assert!(Value::text("opened").eq_value(&Value::text("opened")));
    assert!(!Value::text("opened").eq_value(&Value::Bool(true)));

    let domain = vec![Value::text("a"), Value::text("b")];
    assert!(value_in_domain(&Value::text("b"), &domain));
    assert!(!value_in_domain(&Value::text("c"), &domain));
    // an empty domain is unconstrained
    assert!(value_in_domain(&Value::Int(17), &Vec::new()));
}

#[test]
fn guard_evaluation() {
    let s = bool_state(&[true, false]);
    let g = Predicate::and(Predicate::is_true(0), Predicate::is_false(1));
    assert_eq!(g.eval(&s).unwrap(), true);
    let g2 = Predicate::or(Predicate::is_false(0), Predicate::is_true(1));
    assert_eq!(g2.eval(&s).unwrap(), false);
    let g3 = Predicate::implies(Predicate::is_true(1), Predicate::False);
    assert_eq!(g3.eval(&s).unwrap(), true);
    let g4 = Predicate::negate(Predicate::is_true(0));
    assert_eq!(g4.eval(&s).unwrap(), false);
}

#[test]
fn guard_with_undefined_variable_is_an_error() {
    let s = bool_state(&[true]);
    let g = Predicate::and(Predicate::is_true(0), Predicate::is_true(5));
    match g.eval(&s) {
        Err(SpError::UndefinedVariable(v)) => assert_eq!(v, 5),
        _ => panic!("expected an undefined-variable error"),
    }
}

#[test]
fn effects_apply_as_one_atomic_batch() {
    // both writes read the original snapshot: the batch swaps the values
    let s = SPState::new(vec![Value::Int(1), Value::Int(2)]);
    let batch = vec![sp_model::assign(0, 1), sp_model::assign(1, 0)];
    let s2 = apply_all(&batch, &s).unwrap();
    assert!(s2.get(0).eq_value(&Value::Int(2)));
    assert!(s2.get(1).eq_value(&Value::Int(1)));
}

#[test]
fn later_writes_win_within_a_batch() {
    let s = SPState::new(vec![Value::Int(0)]);
    let batch = vec![Action::set_const(0, Value::Int(1)), Action::set_const(0, Value::Int(2))];
    let s2 = apply_all(&batch, &s).unwrap();
    assert!(s2.get(0).eq_value(&Value::Int(2)));
}

#[test]
fn effect_on_undefined_variable_is_an_error() {
    let s = bool_state(&[false]);
    let batch = vec![Action::set_true(3)];
    match apply_all(&batch, &s) {
        Err(SpError::UndefinedVariable(v)) => assert_eq!(v, 3),
        _ => panic!("expected an undefined-variable error"),
    }
}

#[test]
fn transitions_fire_only_when_enabled() {
    let s = bool_state(&[false, false]);
    let t = Transition::new(
        "raise",
        Predicate::is_false(0),
        Predicate::True,
        vec![Action::set_true(0)],
        Vec::new(),
        TransitionKind::Controlled,
    );
    let s2 = t.try_fire(&s).unwrap().unwrap();
    assert!(s2.get(0).eq_value(&Value::Bool(true)));
    // no longer enabled in the successor
    assert!(t.try_fire(&s2).unwrap().is_none());
}

#[test]
fn model_assembly_and_initial_snapshot() {
    let mut m = Model::new("cell");
    let flag = m.add_product_bool("flag");
    let r = m.add_resource("dev");
    let mut v = Variable::new(
        "mode",
        VariableKind::Measured,
        ValueType::Str,
        vec![Value::text("idle"), Value::text("busy")],
    );
    v.initial = None;
    let mode = m.add_variable(r, v);

    assert_eq!(m.find_variable("cell/product_state/op_done"), Some(0));
    assert_eq!(m.find_variable("cell/product_state/flag"), Some(flag));
    assert_eq!(m.find_variable("cell/dev/mode"), Some(mode));
    assert_eq!(m.find_variable("cell/dev/missing"), None);

    let s = m.initial_state();
    assert_eq!(s.len(), 3);
    // the shared completion flag starts down; the measured value starts at
    // its first domain value
    assert!(s.get(0).eq_value(&Value::Bool(false)));
    assert!(s.get(mode).eq_value(&Value::text("idle")));

    // a declared initial value overrides the domain default
    m.set_initial(mode, Value::text("busy"));
    let s2 = m.initial_state();
    assert!(s2.get(mode).eq_value(&Value::text("busy")));
}

#[test]
fn operations_generate_their_three_transitions() {
    let mut m = Model::new("cell");
    let flag = m.add_product_bool("flag");
    let guard = Predicate::is_false(flag);
    let effects = vec![Action::set_true(flag)];
    let goal = Predicate::is_true(flag);
    let none: Vec<Action> = Vec::new();
    let op = m.add_op("set_flag", &guard, &effects, &goal, &none, true, None);
    assert_eq!(m.operations[op].transitions.len(), 3);
    assert_eq!(m.operations[op].transitions[0].name, "set_flag_start");
    assert_eq!(m.operations[op].transitions[1].name, "set_flag_finish");
    assert_eq!(m.operations[op].transitions[2].name, "set_flag_reset");
    assert!(matches!(
        m.operations[op].transitions[1].kind,
        TransitionKind::Auto
    ));
}

#[test]
fn intention_goal_oscillates() {
    let mut m = Model::new("cell");
    let flag = m.add_product_bool("flag");
    let fwd = Predicate::is_true(flag);
    let back = Predicate::is_false(flag);
    let enabled = Predicate::True;
    let none: Vec<Action> = Vec::new();
    let i = m.add_intention("cycle", true, &enabled, &fwd, &back, &none);
    let status = m.intentions[i].status;

    let mut s = m.initial_state();
    // paused: no goal
    assert!(m.intentions[i].current_goal(&s).unwrap().is_none());
    s.set(status, Value::text("active"));
    // active with the forward goal unmet: drive forward
    let g = m.intentions[i].current_goal(&s).unwrap().unwrap();
    assert_eq!(g.eval(&s).unwrap(), false);
    // forward goal met: drive back
    s.set(flag, Value::Bool(true));
    let g2 = m.intentions[i].current_goal(&s).unwrap().unwrap();
    assert_eq!(g2.eval(&s).unwrap(), false);
}

#[test]
fn planner_trivial_and_unreachable_goals() {
    let s = bool_state(&[false]);
    let raise = Transition::new(
        "raise",
        Predicate::is_false(0),
        Predicate::True,
        vec![Action::set_true(0)],
        Vec::new(),
        TransitionKind::Controlled,
    );
    let ts = vec![raise];

    // the goal already holds: an empty plan
    let p0 = plan(&ts, &s, &Predicate::is_false(0), 10).unwrap();
    assert!(p0.plan_found);
    assert!(p0.trace.is_empty());

    // one step away
    let p1 = plan(&ts, &s, &Predicate::is_true(0), 10).unwrap();
    assert!(p1.plan_found);
    assert_eq!(p1.trace.len(), 1);

    // out of reach: nothing ever lowers the flag again
    let s_up = bool_state(&[true]);
    let p2 = plan(&ts, &s_up, &Predicate::is_false(0), 10).unwrap();
    assert!(!p2.plan_found);

    // a goal over an undeclared variable is rejected
    match plan(&ts, &s, &Predicate::is_true(9), 10) {
        Err(SpError::UndefinedVariable(_)) => {}
        _ => panic!("expected an undefined-variable error"),
    }
}

#[test]
fn decimal_rendering() {
    assert_eq!(usize_string(0), "0");
    assert_eq!(usize_string(7), "7");
    assert_eq!(usize_string(42), "42");
    assert_eq!(usize_string(1009), "1009");
}

#[test]
fn validate_reports_undefined_variable() {
    let mut m = Model::new("cell");
    m.add_transition(Transition::new(
        "ghost_guard",
        Predicate::is_true(99),
        Predicate::True,
        Vec::new(),
        Vec::new(),
        TransitionKind::Controlled,
    ));
    match m.validate() {
        Err(SpError::UndefinedVariable(v)) => assert_eq!(v, 99),
        _ => panic!("expected an undefined-variable error"),
    }
}

#[test]
fn validate_reports_domain_violation() {
    let mut m = Model::new("cell");
    let r = m.add_resource("dev");
    let mut v = Variable::new(
        "mode",
        VariableKind::Measured,
        ValueType::Int,
        vec![Value::Int(1), Value::Int(2)],
    );
    v.initial = Some(Value::Int(3));
    let mode = m.add_variable(r, v);
    match m.validate() {
        Err(SpError::DomainViolation(w)) => assert_eq!(w, mode),
        _ => panic!("expected a domain-violation error"),
    }
}

#[test]
fn validate_reports_name_collision() {
    let mut m = Model::new("cell");
    let flag = m.add_product_bool("flag");
    for _ in 0..2 {
        m.add_transition(Transition::new(
            "raise",
            Predicate::is_false(flag),
            Predicate::True,
            vec![Action::set_true(flag)],
            Vec::new(),
            TransitionKind::Controlled,
        ));
    }
    match m.validate() {
        Err(SpError::NameCollision(name)) => assert_eq!(name, "raise"),
        _ => panic!("expected a name-collision error"),
    }
}

#[test]
fn empty_model_validates() {
    let m = Model::new("cell");
    assert!(m.validate().is_ok());
}

#[test]
fn duplicate_pick_is_a_name_collision() {
    let mut m = Model::new("cell");
    let r = m.add_resource("arm");
    let frames = vec![Value::text("shelf")];
    let tools = vec![Value::text("tool0")];
    let mut arm = UrRobotResource::new(&mut m, r, frames, tools);
    arm.define_pick(&mut m, Predicate::True, Predicate::True, Vec::new(), Vec::new());
    arm.define_pick(&mut m, Predicate::True, Predicate::True, Vec::new(), Vec::new());

    match m.validate() {
        Err(SpError::NameCollision(name)) => assert_eq!(name, "pick"),
        _ => panic!("expected a name-collision error"),
    }
    // the planning call aborts on the same fault
    let s = m.initial_state();
    match m.plan(&s, &Predicate::True, 5) {
        Err(SpError::NameCollision(_)) => {}
        _ => panic!("planning must abort on a name collision"),
    }
}

#[test]
fn planning_aborts_on_domain_violation() {
    let mut m = Model::new("cell");
    let r = m.add_resource("dev");
    let mut v = Variable::new(
        "mode",
        VariableKind::Measured,
        ValueType::Int,
        vec![Value::Int(1), Value::Int(2)],
    );
    v.initial = Some(Value::Int(9));
    m.add_variable(r, v);
    let s = m.initial_state();
    match m.plan(&s, &Predicate::True, 5) {
        Err(SpError::DomainViolation(_)) => {}
        _ => panic!("planning must abort on a domain violation"),
    }
}
