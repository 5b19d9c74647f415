//! The handshake laws: mutual exclusion of the done and error flags over
//! every reachable snapshot, the trigger discipline, auto-completion of
//! operations, and the completion round trip of a motion.

use vstd::prelude::*;
use crate::action::Action;
use crate::action::ActionView;
use crate::action::AssignSource;
use crate::action::SourceView;
use crate::action::actions_refs_ok;
use crate::action::apply_seq;
use crate::action::apply_upto;
use crate::action::lemma_apply_upto_len;
use crate::operation::op_finish_transition;
use crate::operation::op_start_transition;
use crate::planner::runs_to;
use crate::predicate::PredView;
use crate::predicate::Predicate;
use crate::resources::ur::UrView;
use crate::resources::ur::motion_controlled_transition;
use crate::resources::ur::motion_done_transition;
use crate::resources::ur::motion_error_transition;
use crate::resources::ur::motion_transitions;
use crate::resources::ur::ur_base_transitions;
use crate::transition::Transition;
use crate::transition::TransitionKind;
use crate::transition::TransitionView;
use crate::value::Value;
use crate::value::ValueView;

verus! {

/// The handshake exclusion: the done and error flags are never both
/// raised.
pub open spec fn flags_exclusive(s: Seq<ValueView>, done: int, error: int) -> bool {
    !(s[done] == ValueView::Bool(true) && s[error] == ValueView::Bool(true))
}

/// One transition respects the handshake exclusion of the flag pair on
/// every snapshot it can fire from, and keeps the snapshot's width.
pub open spec fn flag_safe_step(t: TransitionView, done: int, error: int, n: int) -> bool {
    forall|s: Seq<ValueView>| #![trigger apply_seq(t.actions, s)]
        (s.len() == n && flags_exclusive(s, done, error) && t.guard.holds(s)) ==> (apply_seq(
            t.actions,
            s,
        ).len() == n && flags_exclusive(apply_seq(t.actions, s), done, error))
}

/// The value the batch leaves in one variable: untouched, a boolean
/// constant, or beyond this classification.
pub open spec fn final_write(acts: Seq<ActionView>, v: int) -> Option<Option<bool>>
    decreases acts.len(),
{
    if acts.len() == 0 {
        None
    } else if acts.last().target == v {
        match acts.last().source {
            SourceView::Const(ValueView::Bool(b)) => Some(Some(b)),
            _ => Some(None),
        }
    } else {
        final_write(acts.drop_last(), v)
    }
}

/// Two batches that agree on their first `i` actions apply identically up
/// to `i`.
pub proof fn lemma_apply_upto_prefix(
    a: Seq<ActionView>,
    b: Seq<ActionView>,
    s: Seq<ValueView>,
    i: int,
)
    requires
        i <= a.len(),
        i <= b.len(),
        forall|j: int| 0 <= j < i ==> a[j] == b[j],
    ensures
        apply_upto(a, s, i) == apply_upto(b, s, i),
    decreases i,
{
    if i > 0 {
        lemma_apply_upto_prefix(a, b, s, i - 1);
    }
}

/// What the batch leaves in `v`: its prior value when no action targets
/// `v`, else the last written constant.
pub proof fn lemma_final_write(acts: Seq<ActionView>, s: Seq<ValueView>, v: int)
    requires
        actions_refs_ok(acts, s.len() as int),
        0 <= v < s.len(),
    ensures
        final_write(acts, v) is None ==> apply_seq(acts, s)[v] == s[v],
        final_write(acts, v) matches Some(Some(b)) ==> apply_seq(acts, s)[v] == ValueView::Bool(b),
    decreases acts.len(),
{
    lemma_apply_upto_len(acts, s, acts.len() as int);
    if acts.len() > 0 {
        let shorter = acts.drop_last();
        assert(forall|j: int| 0 <= j < shorter.len() ==> shorter[j] == acts[j]);
        assert(actions_refs_ok(shorter, s.len() as int)) by {
            assert(forall|j: int|
                0 <= j < shorter.len() ==> (#[trigger] shorter[j]).refs_ok(s.len() as int));
        }
        lemma_final_write(shorter, s, v);
        lemma_apply_upto_len(acts, s, acts.len() - 1);
        lemma_apply_upto_prefix(acts, shorter, s, acts.len() - 1);
        assert(apply_seq(acts, s) == apply_upto(acts, s, acts.len() - 1).update(
            acts.last().target,
            crate::action::source_val(acts.last().source, s),
        ));
        if acts.last().target == v {
        } else {
            assert(apply_seq(acts, s)[v] == apply_upto(acts, s, acts.len() - 1)[v]);
            assert(apply_upto(shorter, s, shorter.len() as int) == apply_seq(shorter, s));
        }
    }
}

/// A guard with a false-atom conjunct for `v` can only hold when `v` is
/// false.
pub open spec fn has_false_conjunct(p: PredView, v: int) -> bool
    decreases p,
{
    match p {
        PredView::Eq(w, val) => w == v && val == ValueView::Bool(false),
        PredView::And(a, b) => has_false_conjunct(*a, v) || has_false_conjunct(*b, v),
        _ => false,
    }
}

pub proof fn lemma_false_conjunct(p: PredView, v: int, s: Seq<ValueView>)
    requires
        has_false_conjunct(p, v),
        p.holds(s),
    ensures
        s[v] == ValueView::Bool(false),
    decreases p,
{
    match p {
        PredView::And(a, b) => {
            if has_false_conjunct(*a, v) {
                lemma_false_conjunct(*a, v, s);
            } else {
                lemma_false_conjunct(*b, v, s);
            }
        },
        _ => {},
    }
}

/// The syntactic conditions under which a transition provably respects
/// the flag exclusion: it clears one flag, touches neither, or raises one
/// while its guard pins the other down.
pub open spec fn flag_safe_shape(t: TransitionView, done: int, error: int, n: int) -> bool {
    let wd = final_write(t.actions, done);
    let we = final_write(t.actions, error);
    &&& actions_refs_ok(t.actions, n)
    &&& (wd == Some(Some(false)) || we == Some(Some(false)) || (wd is None && we is None) || (wd
        == Some(Some(true)) && we is None && has_false_conjunct(t.guard, error)) || (we == Some(
        Some(true),
    ) && wd is None && has_false_conjunct(t.guard, done)))
}

/// A transition of safe shape is semantically flag-safe.
pub proof fn lemma_flag_safe_shape(t: TransitionView, done: int, error: int, n: int)
    requires
        0 <= done < n,
        0 <= error < n,
        done != error,
        flag_safe_shape(t, done, error, n),
    ensures
        flag_safe_step(t, done, error, n),
{
    assert forall|s: Seq<ValueView>| #![trigger apply_seq(t.actions, s)]
        (s.len() == n && flags_exclusive(s, done, error) && t.guard.holds(s)) implies (apply_seq(
        t.actions,
        s,
    ).len() == n && flags_exclusive(apply_seq(t.actions, s), done, error)) by {
        lemma_apply_upto_len(t.actions, s, t.actions.len() as int);
        lemma_final_write(t.actions, s, done);
        lemma_final_write(t.actions, s, error);
        let wd = final_write(t.actions, done);
        let we = final_write(t.actions, error);
        if wd == Some(Some(false)) || we == Some(Some(false)) {
        } else if wd is None && we is None {
        } else if wd == Some(Some(true)) && we is None {
            lemma_false_conjunct(t.guard, error, s);
        } else {
            lemma_false_conjunct(t.guard, done, s);
        }
    }
}

/// Flag exclusion is an invariant of every run over flag-safe transitions:
/// if it holds at the start it holds at the end.
pub proof fn lemma_flags_exclusive_along_run(
    ts: Seq<TransitionView>,
    s0: Seq<ValueView>,
    trace: Seq<usize>,
    s2: Seq<ValueView>,
    done: int,
    error: int,
)
    requires
        runs_to(ts, s0, trace, s2),
        forall|i: int|
            0 <= i < ts.len() ==> flag_safe_step(#[trigger] ts[i], done, error, s0.len() as int),
        flags_exclusive(s0, done, error),
    ensures
        flags_exclusive(s2, done, error),
    decreases trace.len(),
{
    if trace.len() > 0 {
        let t = ts[trace[0] as int];
        assert(t.guard.holds(s0));
        assert(flag_safe_step(t, done, error, s0.len() as int));
        assert(apply_seq(t.actions, s0).len() == s0.len() && flags_exclusive(
            apply_seq(t.actions, s0),
            done,
            error,
        ));
        let s1 = t.apply_to(s0);
        assert(s1.len() == s0.len() && flags_exclusive(s1, done, error));
        lemma_flags_exclusive_along_run(
            ts,
            s1,
            trace.subrange(1, trace.len() as int),
            s2,
            done,
            error,
        );
    }
}

/// What a batch finally leaves in variable `v`.
fn final_write_exec(acts: &Vec<Action>, v: usize) -> (r: Option<Option<bool>>)
    ensures
        r == final_write(acts.deep_view(), v as int),
{
    let mut i: usize = acts.len();
    proof {
        assert(acts.deep_view().take(acts.len() as int) =~= acts.deep_view());
    }
    while i > 0
        invariant
            0 <= i <= acts.len(),
            final_write(acts.deep_view(), v as int) == final_write(
                acts.deep_view().take(i as int),
                v as int,
            ),
        decreases i,
    {
        let ghost pre = acts.deep_view().take(i as int);
        proof {
            assert(pre.len() == i);
            assert(pre.last() == acts.deep_view()[i - 1]);
            assert(pre.drop_last() =~= acts.deep_view().take(i - 1));
            assert(acts.deep_view()[i - 1] == acts[i - 1]@);
        }
        if acts[i - 1].target == v {
            match &acts[i - 1].source {
                AssignSource::Const(Value::Bool(b)) => {
                    return Some(Some(*b));
                },
                _ => {
                    return Some(None);
                },
            }
        }
        i = i - 1;
    }
    proof {
        assert(acts.deep_view().take(0) =~= Seq::<ActionView>::empty());
    }
    None
}

/// Whether the guard has a top-level conjunct pinning `v` to false.
fn has_false_conjunct_exec(p: &Predicate, v: usize) -> (r: bool)
    ensures
        r == has_false_conjunct(p@, v as int),
    decreases p,
{
    match p {
        Predicate::Eq(w, val) => {
            *w == v && match val {
                Value::Bool(b) => !*b,
                _ => false,
            }
        },
        Predicate::And(a, b) => {
            let ra = has_false_conjunct_exec(a, v);
            let rb = has_false_conjunct_exec(b, v);
            ra || rb
        },
        _ => false,
    }
}

/// Whether every action in the batch references only variables below `n`.
fn check_actions_refs(acts: &Vec<Action>, n: usize) -> (r: bool)
    ensures
        r == actions_refs_ok(acts.deep_view(), n as int),
{
    let mut i: usize = 0;
    while i < acts.len()
        invariant
            0 <= i <= acts.len(),
            forall|j: int| 0 <= j < i ==> (#[trigger] acts.deep_view()[j]).refs_ok(n as int),
        decreases acts.len() - i,
    {
        proof {
            assert(acts.deep_view()[i as int] == acts[i as int]@);
        }
        if acts[i].target >= n {
            return false;
        }
        match &acts[i].source {
            AssignSource::Const(_) => {},
            AssignSource::Var(w) => {
                if *w >= n {
                    return false;
                }
            },
        }
        i = i + 1;
    }
    true
}

/// Check, transition by transition, that a transition system can never
/// raise the done and error flags together: each transition either clears
/// one of the two flags, leaves both alone, or raises one while its guard
/// pins the other down.  The answer is exact: true if and only if the
/// flag pair is well-formed and every transition is of flag-safe shape —
/// and a positive answer further proves every transition semantically
/// flag-safe, giving the handshake exclusion over every run of the
/// system.  This is the mutual-exclusion check a model-checking
/// collaborator would perform, discharged syntactically.
pub fn check_flags_safety(ts: &Vec<Transition>, done: usize, error: usize, n: usize) -> (r: bool)
    ensures
        r == (done < n && error < n && done != error && forall|i: int|
            0 <= i < ts.deep_view().len() ==> flag_safe_shape(
                #[trigger] ts.deep_view()[i],
                done as int,
                error as int,
                n as int,
            )),
        r ==> forall|i: int|
            0 <= i < ts.deep_view().len() ==> flag_safe_step(
                #[trigger] ts.deep_view()[i],
                done as int,
                error as int,
                n as int,
            ),
{
    if done >= n || error >= n || done == error {
        return false;
    }
    let mut i: usize = 0;
    while i < ts.len()
        invariant
            0 <= i <= ts.len(),
            done < n,
            error < n,
            done != error,
            forall|j: int|
                0 <= j < i ==> flag_safe_shape(
                    #[trigger] ts.deep_view()[j],
                    done as int,
                    error as int,
                    n as int,
                ),
            forall|j: int|
                0 <= j < i ==> flag_safe_step(
                    #[trigger] ts.deep_view()[j],
                    done as int,
                    error as int,
                    n as int,
                ),
        decreases ts.len() - i,
    {
        proof {
            assert(ts.deep_view()[i as int] == ts[i as int]@);
        }
        let t = &ts[i];
        if !check_actions_refs(&t.actions, n) {
            proof {
                assert(!flag_safe_shape(
                    ts.deep_view()[i as int],
                    done as int,
                    error as int,
                    n as int,
                ));
            }
            return false;
        }
        let wd = final_write_exec(&t.actions, done);
        let we = final_write_exec(&t.actions, error);
        let ok = match (wd, we) {
            (Some(Some(false)), _) => true,
            (_, Some(Some(false))) => true,
            (None, None) => true,
            (Some(Some(true)), None) => has_false_conjunct_exec(&t.guard, error),
            (None, Some(Some(true))) => has_false_conjunct_exec(&t.guard, done),
            _ => false,
        };
        if !ok {
            proof {
                assert(!flag_safe_shape(
                    ts.deep_view()[i as int],
                    done as int,
                    error as int,
                    n as int,
                ));
            }
            return false;
        }
        proof {
            assert(flag_safe_shape(ts.deep_view()[i as int], done as int, error as int, n as int));
            lemma_flag_safe_shape(ts.deep_view()[i as int], done as int, error as int, n as int);
        }
        i = i + 1;
    }
    true
}

/// Every transition a motion resource registers — the six handshake
/// transitions and every motion's three — is of flag-safe shape for its
/// done/error pair, provided the caller's extra completion and error
/// actions leave the flags alone.
pub proof fn lemma_ur_transitions_flag_safe(
    leaf: Seq<char>,
    trigger: int,
    done: int,
    error: int,
    success: int,
    action_state: int,
    n: int,
    t: TransitionView,
)
    requires
        0 <= trigger < n,
        0 <= done < n,
        0 <= error < n,
        done != error,
        ur_base_transitions(leaf, trigger, done, error, success, action_state).contains(t),
    ensures
        flag_safe_step(t, done, error, n),
{
    let ts = ur_base_transitions(leaf, trigger, done, error, success, action_state);
    let i = choose|i: int| 0 <= i < ts.len() && ts[i] == t;
    reveal_with_fuel(final_write, 4);
    reveal_with_fuel(has_false_conjunct, 6);
    if i == 0 {
        assert(t == ts[0]);
        assert(flag_safe_shape(t, done, error, n));
    } else if i == 1 {
        assert(t == ts[1]);
        assert(flag_safe_shape(t, done, error, n));
    } else if i == 2 {
        assert(t == ts[2]);
        assert(flag_safe_shape(t, done, error, n));
    } else if i == 3 {
        assert(t == ts[3]);
        assert(flag_safe_shape(t, done, error, n));
    } else if i == 4 {
        assert(t == ts[4]);
        assert(flag_safe_shape(t, done, error, n));
    } else {
        assert(t == ts[5]);
        assert(flag_safe_shape(t, done, error, n));
    }
    lemma_flag_safe_shape(t, done, error, n);
}

/// A batch that never targets `v` leaves no final write to it.
pub proof fn lemma_no_write_final_none(acts: Seq<ActionView>, v: int)
    requires
        forall|j: int| 0 <= j < acts.len() ==> (#[trigger] acts[j]).target != v,
    ensures
        final_write(acts, v) is None,
    decreases acts.len(),
{
    if acts.len() > 0 {
        let shorter = acts.drop_last();
        assert(forall|j: int| 0 <= j < shorter.len() ==> shorter[j] == acts[j]);
        lemma_no_write_final_none(shorter, v);
    }
}

/// Every transition a defined motion contributes is flag-safe for the
/// resource's done/error pair: none of the three fixed effect batches
/// targets either flag, provided the caller's extra completion and error
/// actions leave the flags alone as well.
pub proof fn lemma_motion_transitions_flag_safe(
    ur: UrView,
    leaf: Seq<char>,
    guard: PredView,
    runner_guard: PredView,
    tcp: Seq<char>,
    goal: Seq<char>,
    cmd: Seq<char>,
    vel: int,
    acc: int,
    when_done: Seq<ActionView>,
    when_error: Seq<ActionView>,
    t: TransitionView,
    n: int,
)
    requires
        0 <= ur.done < n,
        0 <= ur.error < n,
        ur.done != ur.error,
        0 <= ur.trigger < n,
        0 <= ur.tcp_name < n,
        0 <= ur.goal_feature_name < n,
        0 <= ur.last_visited_frame < n,
        0 <= ur.last_visited_with_tcp < n,
        ur.trigger != ur.done && ur.trigger != ur.error,
        ur.tcp_name != ur.done && ur.tcp_name != ur.error,
        ur.goal_feature_name != ur.done && ur.goal_feature_name != ur.error,
        ur.last_visited_frame != ur.done && ur.last_visited_frame != ur.error,
        ur.last_visited_with_tcp != ur.done && ur.last_visited_with_tcp != ur.error,
        actions_refs_ok(when_done, n),
        actions_refs_ok(when_error, n),
        forall|i: int|
            0 <= i < when_done.len() ==> (#[trigger] when_done[i]).target != ur.done && when_done[
                i
            ].target != ur.error,
        forall|i: int|
            0 <= i < when_error.len() ==> (#[trigger] when_error[i]).target != ur.done
                && when_error[i].target != ur.error,
        motion_transitions(
            ur,
            leaf,
            guard,
            runner_guard,
            tcp,
            goal,
            cmd,
            vel,
            acc,
            when_done,
            when_error,
        ).contains(t),
    ensures
        flag_safe_step(t, ur.done, ur.error, n),
{
    let ts = motion_transitions(
        ur,
        leaf,
        guard,
        runner_guard,
        tcp,
        goal,
        cmd,
        vel,
        acc,
        when_done,
        when_error,
    );
    let i = choose|i: int| 0 <= i < ts.len() && ts[i] == t;
    if i == 0 {
        assert(t == ts[0]);
    } else if i == 1 {
        assert(t == ts[1]);
    } else {
        assert(t == ts[2]);
    }
    assert forall|j: int| 0 <= j < t.actions.len() implies (#[trigger] t.actions[j]).refs_ok(n)
        && t.actions[j].target != ur.done && t.actions[j].target != ur.error by {
        if i == 1 && j < when_done.len() {
            assert(t.actions[j] == when_done[j]);
        } else if i == 2 && j < when_error.len() {
            assert(t.actions[j] == when_error[j]);
        }
    }
    lemma_no_write_final_none(t.actions, ur.done);
    lemma_no_write_final_none(t.actions, ur.error);
    assert(flag_safe_shape(t, ur.done, ur.error, n));
    lemma_flag_safe_shape(t, ur.done, ur.error, n);
}

/// The six handshake transitions of a motion resource never move the
/// trigger at all: raising and lowering it is left to the motions' own
/// Controlled, Auto and error-handling transitions.
pub proof fn lemma_ur_base_trigger_untouched(
    leaf: Seq<char>,
    trigger: int,
    done: int,
    error: int,
    success: int,
    action_state: int,
    t: TransitionView,
    s: Seq<ValueView>,
)
    requires
        0 <= trigger < s.len(),
        0 <= done < s.len(),
        0 <= error < s.len(),
        trigger != done,
        trigger != error,
        ur_base_transitions(leaf, trigger, done, error, success, action_state).contains(t),
    ensures
        apply_seq(t.actions, s)[trigger] == s[trigger],
{
    let ts = ur_base_transitions(leaf, trigger, done, error, success, action_state);
    let i = choose|i: int| 0 <= i < ts.len() && ts[i] == t;
    reveal_with_fuel(final_write, 4);
    if i == 0 {
        assert(t == ts[0]);
    } else if i == 1 {
        assert(t == ts[1]);
    } else if i == 2 {
        assert(t == ts[2]);
    } else if i == 3 {
        assert(t == ts[3]);
    } else if i == 4 {
        assert(t == ts[4]);
    } else {
        assert(t == ts[5]);
    }
    assert(actions_refs_ok(t.actions, s.len() as int)) by {
        assert(forall|j: int|
            0 <= j < t.actions.len() ==> (#[trigger] t.actions[j]).refs_ok(s.len() as int));
    }
    assert(final_write(t.actions, trigger) is None);
    lemma_final_write(t.actions, s, trigger);
}

/// The trigger discipline of the pick action's four transitions: the
/// trigger is raised only by the Controlled request and lowered only by
/// the Auto completion or the error-handling transition, which fires only
/// with the error flag raised.
pub proof fn lemma_pick_trigger_discipline(
    ur: UrView,
    guard: PredView,
    runner_guard: PredView,
    when_done: Seq<ActionView>,
    when_error: Seq<ActionView>,
    t: TransitionView,
    s: Seq<ValueView>,
)
    requires
        0 <= ur.trigger < s.len(),
        0 <= ur.error < s.len(),
        0 <= ur.command < s.len(),
        0 <= ur.io_state_in_9 < s.len(),
        0 <= ur.last_visited_frame < s.len(),
        0 <= ur.last_visited_with_tcp < s.len(),
        ur.trigger != ur.command,
        ur.trigger != ur.io_state_in_9,
        ur.trigger != ur.last_visited_frame,
        ur.trigger != ur.last_visited_with_tcp,
        actions_refs_ok(when_done, s.len() as int),
        actions_refs_ok(when_error, s.len() as int),
        forall|i: int| 0 <= i < when_done.len() ==> (#[trigger] when_done[i]).target != ur.trigger,
        forall|i: int|
            0 <= i < when_error.len() ==> (#[trigger] when_error[i]).target != ur.trigger,
        crate::resources::ur::pick_transitions(
            ur,
            guard,
            runner_guard,
            when_done,
            when_error,
        ).contains(t),
        t.guard.holds(s),
    ensures
        (s[ur.trigger] != ValueView::Bool(true) && apply_seq(t.actions, s)[ur.trigger]
            == ValueView::Bool(true)) ==> t.kind == TransitionKind::Controlled,
        (s[ur.trigger] == ValueView::Bool(true) && apply_seq(t.actions, s)[ur.trigger]
            != ValueView::Bool(true)) ==> (t.kind == TransitionKind::Auto || s[ur.error]
            == ValueView::Bool(true)),
{
    reveal_with_fuel(crate::predicate::PredView::holds, 8);
    reveal_with_fuel(final_write, 5);
    let ts = crate::resources::ur::pick_transitions(ur, guard, runner_guard, when_done, when_error);
    let i = choose|i: int| 0 <= i < ts.len() && ts[i] == t;
    if i == 0 {
        assert(t == ts[0]);
        assert(t.kind == TransitionKind::Controlled);
        assert(actions_refs_ok(t.actions, s.len() as int)) by {
            assert(forall|j: int|
                0 <= j < t.actions.len() ==> (#[trigger] t.actions[j]).refs_ok(s.len() as int));
        }
        assert(final_write(t.actions, ur.trigger) == Some(Some(true)));
        lemma_final_write(t.actions, s, ur.trigger);
    } else if i == 1 {
        assert(t == ts[1]);
        assert(t.kind == TransitionKind::Auto);
    } else if i == 2 {
        assert(t == ts[2]);
        assert(actions_refs_ok(t.actions, s.len() as int)) by {
            assert(forall|j: int|
                0 <= j < t.actions.len() ==> (#[trigger] t.actions[j]).refs_ok(s.len() as int));
        }
        assert(final_write(t.actions, ur.trigger) is None);
        lemma_final_write(t.actions, s, ur.trigger);
    } else {
        assert(t == ts[3]);
        assert(s[ur.trigger] == ValueView::Bool(true));
        assert(s[ur.error] == ValueView::Bool(true));
    }
}

/// The trigger discipline of the place action's four transitions,
/// mirroring the pick.
pub proof fn lemma_place_trigger_discipline(
    ur: UrView,
    guard: PredView,
    runner_guard: PredView,
    when_done: Seq<ActionView>,
    when_error: Seq<ActionView>,
    t: TransitionView,
    s: Seq<ValueView>,
)
    requires
        0 <= ur.trigger < s.len(),
        0 <= ur.error < s.len(),
        0 <= ur.command < s.len(),
        0 <= ur.io_state_in_9 < s.len(),
        0 <= ur.last_visited_frame < s.len(),
        0 <= ur.last_visited_with_tcp < s.len(),
        ur.trigger != ur.command,
        ur.trigger != ur.io_state_in_9,
        ur.trigger != ur.last_visited_frame,
        ur.trigger != ur.last_visited_with_tcp,
        actions_refs_ok(when_done, s.len() as int),
        actions_refs_ok(when_error, s.len() as int),
        forall|i: int| 0 <= i < when_done.len() ==> (#[trigger] when_done[i]).target != ur.trigger,
        forall|i: int|
            0 <= i < when_error.len() ==> (#[trigger] when_error[i]).target != ur.trigger,
        crate::resources::ur::place_transitions(
            ur,
            guard,
            runner_guard,
            when_done,
            when_error,
        ).contains(t),
        t.guard.holds(s),
    ensures
        (s[ur.trigger] != ValueView::Bool(true) && apply_seq(t.actions, s)[ur.trigger]
            == ValueView::Bool(true)) ==> t.kind == TransitionKind::Controlled,
        (s[ur.trigger] == ValueView::Bool(true) && apply_seq(t.actions, s)[ur.trigger]
            != ValueView::Bool(true)) ==> (t.kind == TransitionKind::Auto || s[ur.error]
            == ValueView::Bool(true)),
{
    reveal_with_fuel(crate::predicate::PredView::holds, 8);
    reveal_with_fuel(final_write, 5);
    let ts = crate::resources::ur::place_transitions(
        ur,
        guard,
        runner_guard,
        when_done,
        when_error,
    );
    let i = choose|i: int| 0 <= i < ts.len() && ts[i] == t;
    if i == 0 {
        assert(t == ts[0]);
        assert(t.kind == TransitionKind::Controlled);
        assert(actions_refs_ok(t.actions, s.len() as int)) by {
            assert(forall|j: int|
                0 <= j < t.actions.len() ==> (#[trigger] t.actions[j]).refs_ok(s.len() as int));
        }
        assert(final_write(t.actions, ur.trigger) == Some(Some(true)));
        lemma_final_write(t.actions, s, ur.trigger);
    } else if i == 1 {
        assert(t == ts[1]);
        assert(t.kind == TransitionKind::Auto);
    } else if i == 2 {
        assert(t == ts[2]);
        assert(actions_refs_ok(t.actions, s.len() as int)) by {
            assert(forall|j: int|
                0 <= j < t.actions.len() ==> (#[trigger] t.actions[j]).refs_ok(s.len() as int));
        }
        assert(final_write(t.actions, ur.trigger) is None);
        lemma_final_write(t.actions, s, ur.trigger);
    } else {
        assert(t == ts[3]);
        assert(s[ur.trigger] == ValueView::Bool(true));
        assert(s[ur.error] == ValueView::Bool(true));
    }
}

/// The trigger discipline of a defined motion: among its three
/// transitions, the trigger can go from down to up only through the
/// Controlled request, and from up to down only through the Auto
/// completion or the error-handling transition, which fires only with the
/// error flag raised.
pub proof fn lemma_motion_trigger_discipline(
    ur: UrView,
    leaf: Seq<char>,
    guard: PredView,
    runner_guard: PredView,
    tcp: Seq<char>,
    goal: Seq<char>,
    cmd: Seq<char>,
    vel: int,
    acc: int,
    when_done: Seq<ActionView>,
    when_error: Seq<ActionView>,
    t: TransitionView,
    s: Seq<ValueView>,
)
    requires
        0 <= ur.trigger < s.len(),
        0 <= ur.error < s.len(),
        0 <= ur.tcp_name < s.len(),
        0 <= ur.goal_feature_name < s.len(),
        0 <= ur.last_visited_frame < s.len(),
        0 <= ur.last_visited_with_tcp < s.len(),
        ur.trigger != ur.last_visited_frame,
        ur.trigger != ur.last_visited_with_tcp,
        actions_refs_ok(when_done, s.len() as int),
        actions_refs_ok(when_error, s.len() as int),
        forall|i: int| 0 <= i < when_done.len() ==> (#[trigger] when_done[i]).target != ur.trigger,
        forall|i: int|
            0 <= i < when_error.len() ==> (#[trigger] when_error[i]).target != ur.trigger,
        motion_transitions(
            ur,
            leaf,
            guard,
            runner_guard,
            tcp,
            goal,
            cmd,
            vel,
            acc,
            when_done,
            when_error,
        ).contains(t),
        t.guard.holds(s),
    ensures
        (s[ur.trigger] != ValueView::Bool(true) && apply_seq(t.actions, s)[ur.trigger]
            == ValueView::Bool(true)) ==> t.kind == TransitionKind::Controlled,
        (s[ur.trigger] == ValueView::Bool(true) && apply_seq(t.actions, s)[ur.trigger]
            != ValueView::Bool(true)) ==> (t.kind == TransitionKind::Auto || s[ur.error]
            == ValueView::Bool(true)),
{
    reveal_with_fuel(crate::predicate::PredView::holds, 8);
    let ts = motion_transitions(
        ur,
        leaf,
        guard,
        runner_guard,
        tcp,
        goal,
        cmd,
        vel,
        acc,
        when_done,
        when_error,
    );
    let i = choose|i: int| 0 <= i < ts.len() && ts[i] == t;
    if i == 0 {
        let ctrl = motion_controlled_transition(
            ur,
            leaf,
            guard,
            runner_guard,
            tcp,
            goal,
            cmd,
            vel,
            acc,
        );
        assert(t == ctrl);
        assert(t.kind == TransitionKind::Controlled);
        assert(actions_refs_ok(t.actions, s.len() as int)) by {
            assert(forall|j: int|
                0 <= j < t.actions.len() ==> (#[trigger] t.actions[j]).refs_ok(s.len() as int));
        }
        reveal_with_fuel(final_write, 4);
        assert(t.actions.last().target == ur.trigger);
        assert(final_write(t.actions, ur.trigger) == Some(Some(true)));
        lemma_final_write(t.actions, s, ur.trigger);
        assert(apply_seq(t.actions, s)[ur.trigger] == ValueView::Bool(true));
    } else if i == 1 {
        let dt = motion_done_transition(ur, leaf, tcp, goal, when_done);
        assert(t == dt);
        assert(t.kind == TransitionKind::Auto);
        assert(actions_refs_ok(t.actions, s.len() as int)) by {
            assert forall|j: int| 0 <= j < t.actions.len() implies (
            #[trigger] t.actions[j]).refs_ok(s.len() as int) by {
                if j < when_done.len() {
                    assert(t.actions[j] == when_done[j]);
                }
            }
        }
        reveal_with_fuel(final_write, 4);
        assert(t.actions.last().target == ur.last_visited_with_tcp);
        assert(t.actions.drop_last().last().target == ur.last_visited_frame);
        assert(t.actions.drop_last().drop_last().last().target == ur.trigger);
        assert(final_write(t.actions, ur.trigger) == Some(Some(false)));
        lemma_final_write(t.actions, s, ur.trigger);
        assert(apply_seq(t.actions, s)[ur.trigger] == ValueView::Bool(false));
    } else {
        let et = motion_error_transition(ur, leaf, tcp, goal, when_error);
        assert(t == et);
        assert(t.guard.holds(s));
        assert(s[ur.trigger] == ValueView::Bool(true));
        assert(s[ur.error] == ValueView::Bool(true));
    }
}

/// The trigger discipline of a gripper: among its six transitions, the
/// open and close triggers can go from down to up only through the two
/// Controlled requests, and from up to down only through the two Auto
/// resets.
pub proof fn lemma_gripper_trigger_discipline(
    leaf: Seq<char>,
    base: int,
    t: TransitionView,
    s: Seq<ValueView>,
)
    requires
        0 <= base,
        base + 7 <= s.len(),
        crate::resources::robotiq_gripper::gripper_transitions(leaf, base).contains(t),
        t.guard.holds(s),
    ensures
        (s[base + 0] != ValueView::Bool(true) && apply_seq(t.actions, s)[base + 0]
            == ValueView::Bool(true)) ==> t.kind == TransitionKind::Controlled,
        (s[base + 0] == ValueView::Bool(true) && apply_seq(t.actions, s)[base + 0]
            != ValueView::Bool(true)) ==> t.kind == TransitionKind::Auto,
        (s[base + 1] != ValueView::Bool(true) && apply_seq(t.actions, s)[base + 1]
            == ValueView::Bool(true)) ==> t.kind == TransitionKind::Controlled,
        (s[base + 1] == ValueView::Bool(true) && apply_seq(t.actions, s)[base + 1]
            != ValueView::Bool(true)) ==> t.kind == TransitionKind::Auto,
{
    let ts = crate::resources::robotiq_gripper::gripper_transitions(leaf, base);
    let i = choose|i: int| 0 <= i < ts.len() && ts[i] == t;
    reveal_with_fuel(final_write, 4);
    assert(actions_refs_ok(t.actions, s.len() as int)) by {
        if i == 0 {
            assert(t == ts[0]);
        } else if i == 1 {
            assert(t == ts[1]);
        } else if i == 2 {
            assert(t == ts[2]);
        } else if i == 3 {
            assert(t == ts[3]);
        } else if i == 4 {
            assert(t == ts[4]);
        } else {
            assert(t == ts[5]);
        }
        assert(forall|j: int|
            0 <= j < t.actions.len() ==> (#[trigger] t.actions[j]).refs_ok(s.len() as int));
    }
    lemma_final_write(t.actions, s, base + 0);
    lemma_final_write(t.actions, s, base + 1);
    if i == 0 {
        assert(t == ts[0]);
        assert(final_write(t.actions, base + 0) == Some(Some(true)));
        assert(final_write(t.actions, base + 1) is None);
    } else if i == 1 {
        assert(t == ts[1]);
        assert(final_write(t.actions, base + 0) is None);
        assert(final_write(t.actions, base + 1) is None);
    } else if i == 2 {
        assert(t == ts[2]);
        assert(final_write(t.actions, base + 0) == Some(Some(false)));
        assert(final_write(t.actions, base + 1) is None);
    } else if i == 3 {
        assert(t == ts[3]);
        assert(final_write(t.actions, base + 0) is None);
        assert(final_write(t.actions, base + 1) == Some(Some(true)));
    } else if i == 4 {
        assert(t == ts[4]);
        assert(final_write(t.actions, base + 0) is None);
        assert(final_write(t.actions, base + 1) is None);
    } else {
        assert(t == ts[5]);
        assert(final_write(t.actions, base + 0) is None);
        assert(final_write(t.actions, base + 1) == Some(Some(false)));
    }
}

/// The trigger discipline of a frame locker: among its three transitions,
/// the lock trigger is raised only by the Controlled lock request and
/// dropped only by the Auto reset.
pub proof fn lemma_locker_trigger_discipline(
    leaf: Seq<char>,
    base: int,
    t: TransitionView,
    s: Seq<ValueView>,
)
    requires
        0 <= base,
        base + 5 <= s.len(),
        crate::resources::frame_locker::locker_transitions(leaf, base).contains(t),
        t.guard.holds(s),
    ensures
        (s[base + 0] != ValueView::Bool(true) && apply_seq(t.actions, s)[base + 0]
            == ValueView::Bool(true)) ==> t.kind == TransitionKind::Controlled,
        (s[base + 0] == ValueView::Bool(true) && apply_seq(t.actions, s)[base + 0]
            != ValueView::Bool(true)) ==> t.kind == TransitionKind::Auto,
{
    let ts = crate::resources::frame_locker::locker_transitions(leaf, base);
    let i = choose|i: int| 0 <= i < ts.len() && ts[i] == t;
    reveal_with_fuel(final_write, 4);
    assert(actions_refs_ok(t.actions, s.len() as int)) by {
        if i == 0 {
            assert(t == ts[0]);
        } else if i == 1 {
            assert(t == ts[1]);
        } else {
            assert(t == ts[2]);
        }
        assert(forall|j: int|
            0 <= j < t.actions.len() ==> (#[trigger] t.actions[j]).refs_ok(s.len() as int));
    }
    lemma_final_write(t.actions, s, base + 0);
    if i == 0 {
        assert(t == ts[0]);
        assert(final_write(t.actions, base + 0) == Some(Some(true)));
    } else if i == 1 {
        assert(t == ts[1]);
        assert(final_write(t.actions, base + 0) is None);
    } else {
        assert(t == ts[2]);
        assert(final_write(t.actions, base + 0) == Some(Some(false)));
    }
}

/// Auto-completion of an operation: in any snapshot where the operation
/// is executing and its low-level goal holds, its finish transition — an
/// Auto transition when the auto flag is set, so no Controlled decision is
/// involved — is enabled, and firing it leaves the status at completed
/// and the shared completion flag raised.
pub proof fn lemma_auto_operation_completes(
    name: Seq<char>,
    status: int,
    goal: PredView,
    effects: Seq<ActionView>,
    actions: Seq<ActionView>,
    op_done: int,
    s: Seq<ValueView>,
)
    requires
        0 <= status < s.len(),
        0 <= op_done < s.len(),
        status != op_done,
        actions_refs_ok(effects, s.len() as int),
        actions_refs_ok(actions, s.len() as int),
        s[status] == ValueView::Str("executing"@),
        goal.holds(s),
    ensures
        op_finish_transition(name, status, goal, effects, actions, true, op_done).kind
            == TransitionKind::Auto,
        op_finish_transition(name, status, goal, effects, actions, true, op_done).guard.holds(s),
        apply_seq(op_finish_transition(name, status, goal, effects, actions, true, op_done).actions, s)[status]
            == ValueView::Str("completed"@),
        apply_seq(op_finish_transition(name, status, goal, effects, actions, true, op_done).actions, s)[op_done]
            == ValueView::Bool(true),
{
    reveal_with_fuel(crate::predicate::PredView::holds, 8);
    let t = op_finish_transition(name, status, goal, effects, actions, true, op_done);
    let acts = t.actions;
    let len = acts.len() as int;
    assert forall|i: int| 0 <= i < acts.len() implies (#[trigger] acts[i]).refs_ok(
        s.len() as int,
    ) by {
        if i < effects.len() {
            assert(acts[i] == effects[i]);
        } else if i < effects.len() + actions.len() {
            assert(acts[i] == actions[i - effects.len()]);
        } else {
        }
    }
    assert(actions_refs_ok(acts, s.len() as int));
    lemma_apply_upto_len(acts, s, len - 2);
    lemma_apply_upto_len(acts, s, len - 1);
    lemma_apply_upto_len(acts, s, len);
    assert(acts[len - 2].target == status);
    assert(acts[len - 1].target == op_done);
    assert(apply_seq(acts, s) == apply_upto(acts, s, len - 1).update(
        op_done,
        ValueView::Bool(true),
    ));
    assert(apply_upto(acts, s, len - 1) == apply_upto(acts, s, len - 2).update(
        status,
        ValueView::Str("completed"@),
    ));
    assert(t.kind == TransitionKind::Auto);
    assert(t.guard.holds(s));
    assert(apply_seq(acts, s)[op_done] == ValueView::Bool(true));
    assert(apply_seq(acts, s)[status] == ValueView::Str("completed"@));
}

/// Starting an operation: in any snapshot where the operation is in init
/// and its high-level guard holds, its start transition — always a
/// Controlled decision — is enabled, and firing it leaves the status at
/// executing with the shared completion flag down.
pub proof fn lemma_operation_start_begins(
    name: Seq<char>,
    status: int,
    guard: PredView,
    op_done: int,
    s: Seq<ValueView>,
)
    requires
        0 <= status < s.len(),
        0 <= op_done < s.len(),
        status != op_done,
        s[status] == ValueView::Str("init"@),
        guard.holds(s),
    ensures
        op_start_transition(name, status, guard, op_done).kind == TransitionKind::Controlled,
        op_start_transition(name, status, guard, op_done).guard.holds(s),
        apply_seq(op_start_transition(name, status, guard, op_done).actions, s)[status]
            == ValueView::Str("executing"@),
        apply_seq(op_start_transition(name, status, guard, op_done).actions, s)[op_done]
            == ValueView::Bool(false),
{
    reveal_with_fuel(crate::predicate::PredView::holds, 4);
    let t = op_start_transition(name, status, guard, op_done);
    let acts = t.actions;
    assert(actions_refs_ok(acts, s.len() as int)) by {
        assert(forall|j: int|
            0 <= j < acts.len() ==> (#[trigger] acts[j]).refs_ok(s.len() as int));
    }
    lemma_apply_upto_len(acts, s, 0);
    lemma_apply_upto_len(acts, s, 1);
    lemma_apply_upto_len(acts, s, 2);
    assert(apply_seq(acts, s) == apply_upto(acts, s, 1).update(op_done, ValueView::Bool(false)));
    assert(apply_upto(acts, s, 1) == apply_upto(acts, s, 0).update(
        status,
        ValueView::Str("executing"@),
    ));
    assert(t.guard.holds(s));
}

/// The round trip of a motion's completion: applying the Auto completion
/// transition's effects to a snapshot where the trigger is up, the done
/// flag is reported, and the request parameters match the motion, always
/// drops the trigger and commits the motion's goal and tool frames as
/// last visited — whatever extra completion actions the motion carries.
pub proof fn lemma_motion_completion_roundtrip(
    ur: UrView,
    leaf: Seq<char>,
    tcp: Seq<char>,
    goal: Seq<char>,
    when_done: Seq<ActionView>,
    s: Seq<ValueView>,
)
    requires
        0 <= ur.trigger < s.len(),
        0 <= ur.done < s.len(),
        0 <= ur.tcp_name < s.len(),
        0 <= ur.goal_feature_name < s.len(),
        0 <= ur.last_visited_frame < s.len(),
        0 <= ur.last_visited_with_tcp < s.len(),
        ur.trigger != ur.last_visited_frame,
        ur.trigger != ur.last_visited_with_tcp,
        ur.last_visited_frame != ur.last_visited_with_tcp,
        actions_refs_ok(when_done, s.len() as int),
        s[ur.trigger] == ValueView::Bool(true),
        s[ur.done] == ValueView::Bool(true),
        s[ur.tcp_name] == ValueView::Str(tcp),
        s[ur.goal_feature_name] == ValueView::Str(goal),
    ensures
        motion_done_transition(ur, leaf, tcp, goal, when_done).guard.holds(s),
        motion_done_transition(ur, leaf, tcp, goal, when_done).kind == TransitionKind::Auto,
        apply_seq(motion_done_transition(ur, leaf, tcp, goal, when_done).actions, s)[ur.trigger]
            == ValueView::Bool(false),
        apply_seq(motion_done_transition(ur, leaf, tcp, goal, when_done).actions, s)[ur.last_visited_frame]
            == ValueView::Str(goal),
        apply_seq(motion_done_transition(ur, leaf, tcp, goal, when_done).actions, s)[ur.last_visited_with_tcp]
            == ValueView::Str(tcp),
{
    reveal_with_fuel(crate::predicate::PredView::holds, 8);
    let t = motion_done_transition(ur, leaf, tcp, goal, when_done);
    let acts = t.actions;
    let len = acts.len() as int;
    assert forall|i: int| 0 <= i < acts.len() implies (#[trigger] acts[i]).refs_ok(
        s.len() as int,
    ) by {
        if i < when_done.len() {
            assert(acts[i] == when_done[i]);
        } else {
        }
    }
    assert(actions_refs_ok(acts, s.len() as int));
    lemma_apply_upto_len(acts, s, len - 3);
    lemma_apply_upto_len(acts, s, len - 2);
    lemma_apply_upto_len(acts, s, len - 1);
    lemma_apply_upto_len(acts, s, len);
    assert(acts[len - 3].target == ur.trigger);
    assert(acts[len - 2].target == ur.last_visited_frame);
    assert(acts[len - 1].target == ur.last_visited_with_tcp);
    assert(apply_seq(acts, s) == apply_upto(acts, s, len - 1).update(
        ur.last_visited_with_tcp,
        ValueView::Str(tcp),
    ));
    assert(apply_upto(acts, s, len - 1) == apply_upto(acts, s, len - 2).update(
        ur.last_visited_frame,
        ValueView::Str(goal),
    ));
    assert(apply_upto(acts, s, len - 2) == apply_upto(acts, s, len - 3).update(
        ur.trigger,
        ValueView::Bool(false),
    ));
    assert(t.guard.holds(s));
    assert(apply_seq(acts, s)[ur.last_visited_with_tcp] == ValueView::Str(tcp));
    assert(apply_seq(acts, s)[ur.last_visited_frame] == ValueView::Str(goal));
    assert(apply_seq(acts, s)[ur.trigger] == ValueView::Bool(false));
}

} // verus!
