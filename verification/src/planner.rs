//! A bounded breadth-first search over the formal transition system.
//!
//! The core's external planner collaborator consumes a model, an initial
//! snapshot, a goal predicate and a step bound, and returns a plan-found
//! flag with an ordered trace of fired transitions.  This planner realises
//! that interface over the flattened formal transitions: every returned
//! trace is proved to be a run of enabled transitions ending in a snapshot
//! that satisfies the goal.

use vstd::prelude::*;
use crate::action::actions_refs_ok;
use crate::action::apply_seq;
use crate::error::SpError;
use crate::model::Model;
use crate::model::all_transitions_view;
use crate::model::formal_transitions_view;
use crate::model::lemma_keep_formal_refs_ok;
use crate::validate::model_domains_ok;
use crate::validate::model_names_ok;
use crate::validate::model_refs_ok;
use crate::validate::model_valid;
use crate::predicate::PredView;
use crate::predicate::Predicate;
use crate::state::SPState;
use crate::transition::Transition;
use crate::transition::TransitionView;
use crate::value::ValueView;

verus! {

/// Firing `trace` from `s` steps through enabled transitions only and ends
/// in `s2`.
pub open spec fn runs_to(
    ts: Seq<TransitionView>,
    s: Seq<ValueView>,
    trace: Seq<usize>,
    s2: Seq<ValueView>,
) -> bool
    decreases trace.len(),
{
    if trace.len() == 0 {
        s2 == s
    } else {
        &&& trace[0] < ts.len()
        &&& ts[trace[0] as int].guard.holds(s)
        &&& runs_to(
            ts,
            ts[trace[0] as int].apply_to(s),
            trace.subrange(1, trace.len() as int),
            s2,
        )
    }
}

/// Firing `trace` from `s` steps through enabled transitions only and ends
/// in a snapshot satisfying `goal`.
pub open spec fn trace_reaches(
    ts: Seq<TransitionView>,
    s: Seq<ValueView>,
    goal: PredView,
    trace: Seq<usize>,
) -> bool {
    exists|s2: Seq<ValueView>| runs_to(ts, s, trace, s2) && goal.holds(s2)
}

/// Extending a run by one enabled transition.
pub proof fn lemma_runs_to_push(
    ts: Seq<TransitionView>,
    s: Seq<ValueView>,
    trace: Seq<usize>,
    s2: Seq<ValueView>,
    k: usize,
)
    requires
        runs_to(ts, s, trace, s2),
        k < ts.len(),
        ts[k as int].guard.holds(s2),
    ensures
        runs_to(ts, s, trace.push(k), ts[k as int].apply_to(s2)),
    decreases trace.len(),
{
    if trace.len() == 0 {
        assert(s2 == s);
        assert(trace.push(k)[0] == k);
        assert(trace.push(k).subrange(1, trace.push(k).len() as int) =~= Seq::<usize>::empty());
        assert(runs_to(
            ts,
            ts[k as int].apply_to(s),
            trace.push(k).subrange(1, trace.push(k).len() as int),
            ts[k as int].apply_to(s2),
        ));
    } else {
        assert(trace.push(k)[0] == trace[0]);
        assert(trace.push(k).subrange(1, trace.push(k).len() as int) =~= trace.subrange(
            1,
            trace.len() as int,
        ).push(k));
        lemma_runs_to_push(
            ts,
            ts[trace[0] as int].apply_to(s),
            trace.subrange(1, trace.len() as int),
            s2,
            k,
        );
        assert(runs_to(
            ts,
            ts[trace.push(k)[0] as int].apply_to(s),
            trace.push(k).subrange(1, trace.push(k).len() as int),
            ts[k as int].apply_to(s2),
        ));
    }
}

/// Every guard and primary effect batch of the transition system, and the
/// goal, mention only variables the snapshot covers.
pub open spec fn plan_wf(ts: Seq<TransitionView>, goal: PredView, n: int) -> bool {
    &&& goal.refs_ok(n)
    &&& forall|i: int|
        0 <= i < ts.len() ==> ((#[trigger] ts[i]).guard.refs_ok(n) && actions_refs_ok(
            ts[i].actions,
            n,
        ))
}

/// Some single enabled transition reaches the goal from `s0`.
pub open spec fn one_step_reaches(
    ts: Seq<TransitionView>,
    s0: Seq<ValueView>,
    goal: PredView,
) -> bool {
    exists|k: int|
        0 <= k < ts.len() && (#[trigger] ts[k]).guard.holds(s0) && goal.holds(
            apply_seq(ts[k].actions, s0),
        )
}

/// The outcome of a planning call: whether a plan was found, and if so the
/// ordered trace of fired transitions, as indices into the transition
/// list the planner was given.
#[derive(Debug)]
pub struct PlanResult {
    pub plan_found: bool,
    pub trace: Vec<usize>,
}

/// How many snapshots one planning call will expand at most.
pub open spec fn spec_search_cap() -> int {
    100000
}

fn search_cap() -> (r: usize)
    ensures
        r == spec_search_cap(),
{
    100000
}

/// Search for a plan: a trace of at most `bound` enabled formal
/// transitions from `init` to a snapshot satisfying `goal`.
///
/// Fails with an undefined-variable error exactly when some guard, effect
/// batch or the goal mentions a variable the snapshot does not cover.
/// Every returned trace is a sound plan; a plan is always found when the
/// goal already holds in the initial snapshot or lies one enabled
/// transition away.  The search is exhaustive
/// in breadth-first order but gives up after expanding a fixed number of
/// snapshots, so a negative answer is a bounded-search verdict, not a
/// proof of unreachability.
pub fn plan(ts: &Vec<Transition>, init: &SPState, goal: &Predicate, bound: usize) -> (r: Result<
    PlanResult,
    SpError,
>)
    ensures
        r.is_ok() <==> plan_wf(ts.deep_view(), goal@, init@.len() as int),
        r matches Ok(p) ==> (p.plan_found ==> trace_reaches(ts.deep_view(), init@, goal@, p.trace@)
            && p.trace@.len() <= bound),
        r matches Ok(p) ==> (!p.plan_found ==> p.trace@.len() == 0),
        r matches Err(e) ==> e matches SpError::UndefinedVariable(_),
        (plan_wf(ts.deep_view(), goal@, init@.len() as int) && goal@.holds(init@)) ==> (r matches
            Ok(p) && p.plan_found),
        (plan_wf(ts.deep_view(), goal@, init@.len() as int) && bound >= 1 && one_step_reaches(
            ts.deep_view(),
            init@,
            goal@,
        )) ==> (r matches Ok(p) && p.plan_found),
{
    let ghost tsv = ts.deep_view();
    let n = init.len();

    // Reject an ill-formed system up front, with the offending variable.
    let mut w: usize = 0;
    while w < ts.len()
        invariant
            0 <= w <= ts.len(),
            tsv == ts.deep_view(),
            n == init@.len(),
            forall|i: int|
                0 <= i < w ==> ((#[trigger] tsv[i]).guard.refs_ok(n as int) && actions_refs_ok(
                    tsv[i].actions,
                    n as int,
                )),
        decreases ts.len() - w,
    {
        proof {
            assert(tsv[w as int] == ts[w as int]@);
        }
        match ts[w].enabled(init) {
            Err(e) => {
                return Err(e);
            },
            Ok(_) => {},
        }
        match ts[w].apply(init) {
            Err(e) => {
                return Err(e);
            },
            Ok(_) => {},
        }
        w = w + 1;
    }
    let goal_at_init = match goal.eval(init) {
        Err(e) => {
            return Err(e);
        },
        Ok(b) => b,
    };
    assert(plan_wf(tsv, goal@, n as int));
    if goal_at_init {
        return Ok(PlanResult { plan_found: true, trace: Vec::new() });
    }

    let mut states: Vec<SPState> = Vec::new();
    let mut traces: Vec<Vec<usize>> = Vec::new();
    states.push(init.dup());
    traces.push(Vec::new());

    let cap = search_cap();
    let mut c: usize = 0;
    while c < states.len() && c < cap
        invariant
            c <= spec_search_cap(),
            cap == spec_search_cap(),
            tsv == ts.deep_view(),
            n == init@.len(),
            plan_wf(tsv, goal@, n as int),
            states.len() == traces.len(),
            states.len() >= 1,
            states[0]@ == init@,
            traces[0]@.len() == 0,
            (c >= 1 && bound >= 1) ==> !one_step_reaches(tsv, init@, goal@),
            forall|j: int|
                0 <= j < states.len() ==> (#[trigger] states[j])@.len() == n,
            forall|j: int|
                0 <= j < states.len() ==> (#[trigger] traces[j])@.len() <= bound,
            forall|j: int|
                0 <= j < states.len() ==> runs_to(tsv, init@, (#[trigger] traces[j])@, states[j]@),
        decreases spec_search_cap() - c,
    {
        let depth = traces[c].len();
        if depth < bound {
            let mut k: usize = 0;
            while k < ts.len()
                invariant
                    tsv == ts.deep_view(),
                    n == init@.len(),
                    plan_wf(tsv, goal@, n as int),
                    states.len() == traces.len(),
                    states.len() >= 1,
                    states[0]@ == init@,
                    traces[0]@.len() == 0,
                    c < states.len(),
                    traces[c as int]@.len() < bound,
                    c == 0 ==> forall|k2: int|
                        0 <= k2 < k ==> !((#[trigger] tsv[k2]).guard.holds(init@) && goal@.holds(
                            apply_seq(tsv[k2].actions, init@),
                        )),
                    forall|j: int|
                        0 <= j < states.len() ==> (#[trigger] states[j])@.len() == n,
                    forall|j: int|
                        0 <= j < states.len() ==> (#[trigger] traces[j])@.len() <= bound,
                    forall|j: int|
                        0 <= j < states.len() ==> runs_to(
                            tsv,
                            init@,
                            (#[trigger] traces[j])@,
                            states[j]@,
                        ),
                decreases ts.len() - k,
            {
                proof {
                    assert(tsv[k as int] == ts[k as int]@);
                }
                let fired = match ts[k].try_fire(&states[c]) {
                    Err(e) => {
                        proof {
                            assert(false);
                        }
                        return Err(e);
                    },
                    Ok(o) => o,
                };
                match fired {
                    None => {},
                    Some(s2) => {
                        proof {
                            crate::action::lemma_apply_upto_len(tsv[k as int].actions, states[
                                c as int
                            ]@, tsv[k as int].actions.len() as int);
                            lemma_runs_to_push(tsv, init@, traces[c as int]@, states[c as int]@, k);
                        }
                        let goal_here = match goal.eval(&s2) {
                            Err(e) => {
                                proof {
                                    assert(false);
                                }
                                return Err(e);
                            },
                            Ok(b) => b,
                        };
                        if goal_here {
                            let mut tr = crate::planner::dup_trace(&traces[c]);
                            tr.push(k);
                            proof {
                                assert(tr@ =~= traces[c as int]@.push(k));
                                assert(runs_to(tsv, init@, tr@, tsv[k as int].apply_to(states[
                                    c as int
                                ]@)));
                            }
                            return Ok(PlanResult { plan_found: true, trace: tr });
                        }
                        // Deduplicate: enqueue only snapshots not seen yet.
                        let mut seen = false;
                        let mut j: usize = 0;
                        while j < states.len()
                            invariant
                                0 <= j <= states.len(),
                            decreases states.len() - j,
                        {
                            if states[j].eq_state(&s2) {
                                seen = true;
                                j = states.len();
                            } else {
                                j = j + 1;
                            }
                        }
                        if !seen {
                            let mut tr = crate::planner::dup_trace(&traces[c]);
                            tr.push(k);
                            proof {
                                assert(tr@ =~= traces[c as int]@.push(k));
                            }
                            states.push(s2);
                            traces.push(tr);
                        }
                    },
                }
                k = k + 1;
            }
            proof {
                if c == 0 {
                    assert(!one_step_reaches(tsv, init@, goal@));
                }
            }
        }
        c = c + 1;
    }
    Ok(PlanResult { plan_found: false, trace: Vec::new() })
}

impl Model {
    /// Validate the model, then search it for a plan: a trace of at most
    /// `bound` enabled formal transitions from `init` to a snapshot
    /// satisfying `goal`.
    ///
    /// A construction-time fault aborts the planning call, as every such
    /// fault must: an undefined-variable error when some guard, effect,
    /// definition or status reference names an undeclared variable (or the
    /// snapshot does not cover every declared variable, or the goal
    /// mentions an uncovered one); a domain-violation error when some
    /// declared initial value or assigned constant falls outside its
    /// variable's domain; a name collision when two transitions, two
    /// operations or two intentions share a name.  On a valid model the
    /// search behaves as [`plan`] over the formal transitions.
    pub fn plan(&self, init: &SPState, goal: &Predicate, bound: usize) -> (r: Result<
        PlanResult,
        SpError,
    >)
        ensures
            r.is_ok() <==> (model_valid(self@) && init@.len() == self@.variables.len()
                && goal@.refs_ok(self@.variables.len() as int)),
            (r matches Err(e) && e matches SpError::DomainViolation(_)) <==> (model_refs_ok(self@)
                && !model_domains_ok(self@)),
            (r matches Err(e) && e matches SpError::NameCollision(_)) <==> (model_refs_ok(self@)
                && model_domains_ok(self@) && !model_names_ok(self@)),
            (r matches Err(e) && e matches SpError::UndefinedVariable(_)) <==> (!model_refs_ok(
                self@,
            ) || (model_valid(self@) && !(init@.len() == self@.variables.len() && goal@.refs_ok(
                self@.variables.len() as int,
            )))),
            r matches Ok(p) ==> (p.plan_found ==> trace_reaches(
                formal_transitions_view(self@),
                init@,
                goal@,
                p.trace@,
            ) && p.trace@.len() <= bound),
            r matches Ok(p) ==> (!p.plan_found ==> p.trace@.len() == 0),
            (model_valid(self@) && init@.len() == self@.variables.len() && goal@.refs_ok(
                self@.variables.len() as int,
            ) && goal@.holds(init@)) ==> (r matches Ok(p) && p.plan_found),
            (model_valid(self@) && init@.len() == self@.variables.len() && goal@.refs_ok(
                self@.variables.len() as int,
            ) && bound >= 1 && one_step_reaches(formal_transitions_view(self@), init@, goal@))
                ==> (r matches Ok(p) && p.plan_found),
    {
        match self.validate() {
            Err(e) => {
                return Err(e);
            },
            Ok(()) => {},
        }
        let n = self.variables.len();
        if init.len() < n {
            // a declared variable the snapshot does not cover
            return Err(SpError::UndefinedVariable(init.len()));
        }
        if init.len() > n {
            // a snapshot entry beyond every declared variable
            return Err(SpError::UndefinedVariable(n));
        }
        match goal.check_refs(n) {
            Some(w) => {
                return Err(SpError::UndefinedVariable(w));
            },
            None => {},
        }
        let ts = self.formal_transitions();
        proof {
            lemma_keep_formal_refs_ok(all_transitions_view(self@), n as int);
            assert(forall|i: int|
                0 <= i < ts.deep_view().len() ==> (#[trigger] ts.deep_view()[i]).refs_ok(
                    n as int,
                ));
            assert(plan_wf(ts.deep_view(), goal@, init@.len() as int));
        }
        match plan(&ts, init, goal, bound) {
            Err(e) => {
                proof {
                    assert(false);
                }
                Err(e)
            },
            Ok(p) => Ok(p),
        }
    }
}

/// A copy of a trace, equal to the original.

/// A copy of a trace, equal to the original.
pub fn dup_trace(tr: &Vec<usize>) -> (r: Vec<usize>)
    ensures
        r@ == tr@,
{
    let mut out: Vec<usize> = Vec::new();
    let mut i: usize = 0;
    while i < tr.len()
        invariant
            0 <= i <= tr.len(),
            out@ =~= tr@.take(i as int),
        decreases tr.len() - i,
    {
        out.push(tr[i]);
        i = i + 1;
    }
    assert(out@ =~= tr@);
    out
}

} // verus!
