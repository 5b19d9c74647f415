//! Downstream validation of an assembled model: undefined variable
//! references, domain violations, and name collisions are surfaced as
//! errors before a model is handed to planning or execution.

use vstd::prelude::*;
use crate::action::ActionView;
use crate::action::SourceView;
use crate::action::check_actions_refs;
use crate::error::SpError;
use crate::intention::IntentionView;
use crate::model::Model;
use crate::model::ModelView;
use crate::model::all_transitions_view;
use crate::operation::OperationView;
use crate::transition::Transition;
use crate::transition::TransitionView;
use crate::value::in_domain;
use crate::value::value_in_domain;
use crate::variable::VariableView;

verus! {

/// Every guard, effect batch and status reference of the model lies below
/// its variable count.
pub open spec fn model_refs_ok(m: ModelView) -> bool {
    let n = m.variables.len() as int;
    &&& forall|i: int|
        0 <= i < all_transitions_view(m).len() ==> (#[trigger] all_transitions_view(m)[i]).refs_ok(
            n,
        )
    &&& forall|i: int|
        0 <= i < m.intentions.len() ==> {
            let iv = #[trigger] m.intentions[i];
            0 <= iv.status < n && iv.enabled.refs_ok(n) && iv.forward_goal.refs_ok(n)
                && iv.reset_goal.refs_ok(n) && crate::action::actions_refs_ok(iv.actions, n)
        }
    &&& forall|i: int|
        0 <= i < m.invariants.len() ==> (#[trigger] m.invariants[i]).pred.refs_ok(n)
    &&& forall|i: int|
        0 <= i < m.variables.len() ==> match (#[trigger] m.variables[i]).definition {
            Some(p) => p.refs_ok(n),
            None => true,
        }
    &&& forall|i: int| 0 <= i < m.operations.len() ==> 0 <= (#[trigger] m.operations[i]).status < n
    &&& 0 <= m.op_done < n
}

/// Every constant an effect batch writes is legal for its target's
/// domain.
pub open spec fn actions_domains_ok(acts: Seq<ActionView>, vars: Seq<VariableView>) -> bool {
    forall|i: int|
        0 <= i < acts.len() ==> match (#[trigger] acts[i]).source {
            SourceView::Const(c) => 0 <= acts[i].target < vars.len() ==> in_domain(
                vars[acts[i].target].domain,
                c,
            ),
            SourceView::Var(_) => true,
        }
}

/// Every declared initial value and every constant ever assigned by a
/// transition is a member of the written variable's domain.
pub open spec fn model_domains_ok(m: ModelView) -> bool {
    &&& forall|i: int|
        0 <= i < m.variables.len() ==> match (#[trigger] m.variables[i]).initial {
            Some(x) => in_domain(m.variables[i].domain, x),
            None => true,
        }
    &&& forall|i: int|
        0 <= i < all_transitions_view(m).len() ==> {
            let t = #[trigger] all_transitions_view(m)[i];
            actions_domains_ok(t.actions, m.variables) && actions_domains_ok(
                t.runner_actions,
                m.variables,
            )
        }
}

/// No two entries of the name list agree.
pub open spec fn distinct_names(names: Seq<Seq<char>>) -> bool {
    forall|i: int, j: int| 0 <= i < j < names.len() ==> names[i] != names[j]
}

/// The names of a transition list, in order.
pub open spec fn transition_names(ts: Seq<TransitionView>) -> Seq<Seq<char>> {
    ts.map_values(|t: TransitionView| t.name)
}

/// All transition names are distinct, as are all operation names and all
/// intention names.
pub open spec fn model_names_ok(m: ModelView) -> bool {
    &&& distinct_names(transition_names(all_transitions_view(m)))
    &&& distinct_names(m.operations.map_values(|o: OperationView| o.name))
    &&& distinct_names(m.intentions.map_values(|i: IntentionView| i.name))
}

/// A model fit for planning and execution: no undefined references, no
/// domain violations, no name collisions.
pub open spec fn model_valid(m: ModelView) -> bool {
    model_refs_ok(m) && model_domains_ok(m) && model_names_ok(m)
}

/// Whether any two of the given transitions share a name; returns a
/// colliding name.
fn find_name_collision(ts: &Vec<Transition>) -> (r: Option<String>)
    ensures
        r is None <==> distinct_names(transition_names(ts.deep_view())),
        r matches Some(s) ==> !distinct_names(transition_names(ts.deep_view())),
{
    let ghost names = transition_names(ts.deep_view());
    let mut i: usize = 0;
    while i < ts.len()
        invariant
            0 <= i <= ts.len(),
            names == transition_names(ts.deep_view()),
            forall|a: int, b: int| 0 <= a < b < ts.deep_view().len() && a < i ==> names[a]
                != names[b],
        decreases ts.len() - i,
    {
        let mut j: usize = i + 1;
        while j < ts.len()
            invariant
                0 <= i < j <= ts.len(),
                names == transition_names(ts.deep_view()),
                forall|b: int| i < b < j ==> names[i as int] != names[b],
            decreases ts.len() - j,
        {
            proof {
                assert(names[i as int] == ts.deep_view()[i as int].name);
                assert(names[j as int] == ts.deep_view()[j as int].name);
                assert(ts.deep_view()[i as int].name == ts[i as int]@.name);
                assert(ts.deep_view()[j as int].name == ts[j as int]@.name);
            }
            if ts[i].name.eq(&ts[j].name) {
                return Some(ts[i].name.clone());
            }
            j = j + 1;
        }
        i = i + 1;
    }
    None
}

impl Model {
    /// Validate the assembled model, surfacing the first failure:
    /// an undefined-variable error exactly when some guard, effect,
    /// definition or status reference names an undeclared variable; else
    /// a domain-violation error exactly when some declared initial value
    /// or assigned constant falls outside its variable's domain; else a
    /// name collision exactly when two transitions, two operations or two
    /// intentions share a name.
    #[verifier::rlimit(100)]
    pub fn validate(&self) -> (r: Result<(), SpError>)
        ensures
            r.is_ok() <==> model_valid(self@),
            (r matches Err(e) && e matches SpError::UndefinedVariable(_)) <==> !model_refs_ok(
                self@,
            ),
            (r matches Err(e) && e matches SpError::DomainViolation(_)) <==> (model_refs_ok(self@)
                && !model_domains_ok(self@)),
            (r matches Err(e) && e matches SpError::NameCollision(_)) <==> (model_refs_ok(self@)
                && model_domains_ok(self@) && !model_names_ok(self@)),
    {
        let n = self.variables.len();
        let ts = self.all_transitions();

        // Undefined references.
        let mut i: usize = 0;
        while i < ts.len()
            invariant
                n == self@.variables.len(),
                ts.deep_view() == all_transitions_view(self@),
                0 <= i <= ts.len(),
                forall|j: int| 0 <= j < i ==> (#[trigger] ts.deep_view()[j]).refs_ok(n as int),
            decreases ts.len() - i,
        {
            proof {
                assert(ts.deep_view()[i as int] == ts[i as int]@);
            }
            match ts[i].guard.check_refs(n) {
                Some(w) => {
                    proof {
                        assert(!model_refs_ok(self@));
                    }
                    return Err(SpError::UndefinedVariable(w));
                },
                None => {},
            }
            match ts[i].runner_guard.check_refs(n) {
                Some(w) => {
                    proof {
                        assert(!model_refs_ok(self@));
                    }
                    return Err(SpError::UndefinedVariable(w));
                },
                None => {},
            }
            match check_actions_refs(&ts[i].actions, n) {
                Some(w) => {
                    proof {
                        assert(!model_refs_ok(self@));
                    }
                    return Err(SpError::UndefinedVariable(w));
                },
                None => {},
            }
            match check_actions_refs(&ts[i].runner_actions, n) {
                Some(w) => {
                    proof {
                        assert(!model_refs_ok(self@));
                    }
                    return Err(SpError::UndefinedVariable(w));
                },
                None => {},
            }
            i = i + 1;
        }
        let mut i: usize = 0;
        while i < self.intentions.len()
            invariant
                n == self@.variables.len(),
                self.intentions.len() == self@.intentions.len(),
                0 <= i <= self.intentions.len(),
                forall|j: int|
                    0 <= j < i ==> {
                        let iv = #[trigger] self@.intentions[j];
                        0 <= iv.status < n && iv.enabled.refs_ok(n as int)
                            && iv.forward_goal.refs_ok(n as int) && iv.reset_goal.refs_ok(n as int)
                            && crate::action::actions_refs_ok(iv.actions, n as int)
                    },
            decreases self.intentions.len() - i,
        {
            proof {
                assert(self@.intentions[i as int] == self.intentions[i as int]@);
            }
            let it = &self.intentions[i];
            if it.status >= n {
                proof {
                    assert(!model_refs_ok(self@));
                }
                return Err(SpError::UndefinedVariable(it.status));
            }
            match it.enabled.check_refs(n) {
                Some(w) => {
                    proof {
                        assert(!model_refs_ok(self@));
                    }
                    return Err(SpError::UndefinedVariable(w));
                },
                None => {},
            }
            match it.forward_goal.check_refs(n) {
                Some(w) => {
                    proof {
                        assert(!model_refs_ok(self@));
                    }
                    return Err(SpError::UndefinedVariable(w));
                },
                None => {},
            }
            match it.reset_goal.check_refs(n) {
                Some(w) => {
                    proof {
                        assert(!model_refs_ok(self@));
                    }
                    return Err(SpError::UndefinedVariable(w));
                },
                None => {},
            }
            match check_actions_refs(&it.actions, n) {
                Some(w) => {
                    proof {
                        assert(!model_refs_ok(self@));
                    }
                    return Err(SpError::UndefinedVariable(w));
                },
                None => {},
            }
            i = i + 1;
        }
        let mut i: usize = 0;
        while i < self.invariants.len()
            invariant
                n == self@.variables.len(),
                self.invariants.len() == self@.invariants.len(),
                0 <= i <= self.invariants.len(),
                forall|j: int|
                    0 <= j < i ==> (#[trigger] self@.invariants[j]).pred.refs_ok(n as int),
            decreases self.invariants.len() - i,
        {
            proof {
                assert(self@.invariants[i as int] == self.invariants[i as int]@);
            }
            match self.invariants[i].pred.check_refs(n) {
                Some(w) => {
                    proof {
                        assert(!model_refs_ok(self@));
                    }
                    return Err(SpError::UndefinedVariable(w));
                },
                None => {},
            }
            i = i + 1;
        }
        let mut i: usize = 0;
        while i < self.variables.len()
            invariant
                n == self@.variables.len(),
                self.variables.len() == self@.variables.len(),
                0 <= i <= self.variables.len(),
                forall|j: int|
                    0 <= j < i ==> match (#[trigger] self@.variables[j]).definition {
                        Some(p) => p.refs_ok(n as int),
                        None => true,
                    },
            decreases self.variables.len() - i,
        {
            proof {
                assert(self@.variables[i as int] == self.variables[i as int]@);
            }
            match &self.variables[i].definition {
                Some(p) => {
                    match p.check_refs(n) {
                        Some(w) => {
                            proof {
                                assert(!model_refs_ok(self@));
                            }
                            return Err(SpError::UndefinedVariable(w));
                        },
                        None => {},
                    }
                },
                None => {},
            }
            i = i + 1;
        }
        let mut i: usize = 0;
        while i < self.operations.len()
            invariant
                n == self@.variables.len(),
                self.operations.len() == self@.operations.len(),
                0 <= i <= self.operations.len(),
                forall|j: int| 0 <= j < i ==> 0 <= (#[trigger] self@.operations[j]).status < n,
            decreases self.operations.len() - i,
        {
            proof {
                assert(self@.operations[i as int] == self.operations[i as int]@);
            }
            if self.operations[i].status >= n {
                proof {
                    assert(!model_refs_ok(self@));
                }
                return Err(SpError::UndefinedVariable(self.operations[i].status));
            }
            i = i + 1;
        }
        if self.op_done >= n {
            proof {
                assert(!model_refs_ok(self@));
            }
            return Err(SpError::UndefinedVariable(self.op_done));
        }
        assert(model_refs_ok(self@));

        // Domain violations.
        let mut i: usize = 0;
        while i < self.variables.len()
            invariant
                n == self@.variables.len(),
                self.variables.len() == self@.variables.len(),
                model_refs_ok(self@),
                0 <= i <= self.variables.len(),
                forall|j: int|
                    0 <= j < i ==> match (#[trigger] self@.variables[j]).initial {
                        Some(x) => in_domain(self@.variables[j].domain, x),
                        None => true,
                    },
            decreases self.variables.len() - i,
        {
            proof {
                assert(self@.variables[i as int] == self.variables[i as int]@);
            }
            match &self.variables[i].initial {
                Some(x) => {
                    if !value_in_domain(x, &self.variables[i].domain) {
                        proof {
                            assert(!model_domains_ok(self@));
                        }
                        return Err(SpError::DomainViolation(i));
                    }
                },
                None => {},
            }
            i = i + 1;
        }
        let mut i: usize = 0;
        while i < ts.len()
            invariant
                n == self@.variables.len(),
                self.variables.len() == self@.variables.len(),
                ts.deep_view() == all_transitions_view(self@),
                model_refs_ok(self@),
                forall|j: int|
                    0 <= j < self@.variables.len() ==> match (
                    #[trigger] self@.variables[j]).initial {
                        Some(x) => in_domain(self@.variables[j].domain, x),
                        None => true,
                    },
                0 <= i <= ts.len(),
                forall|j: int|
                    0 <= j < i ==> {
                        let t = #[trigger] ts.deep_view()[j];
                        actions_domains_ok(t.actions, self@.variables) && actions_domains_ok(
                            t.runner_actions,
                            self@.variables,
                        )
                    },
            decreases ts.len() - i,
        {
            proof {
                assert(ts.deep_view()[i as int] == ts[i as int]@);
            }
            match self.check_batch_domains(&ts[i].actions) {
                Some(v) => {
                    proof {
                        assert(!model_domains_ok(self@));
                    }
                    return Err(SpError::DomainViolation(v));
                },
                None => {},
            }
            match self.check_batch_domains(&ts[i].runner_actions) {
                Some(v) => {
                    proof {
                        assert(!model_domains_ok(self@));
                    }
                    return Err(SpError::DomainViolation(v));
                },
                None => {},
            }
            i = i + 1;
        }
        assert(model_domains_ok(self@));

        // Name collisions.
        match find_name_collision(&ts) {
            Some(name) => {
                proof {
                    assert(!model_names_ok(self@));
                }
                return Err(SpError::NameCollision(name));
            },
            None => {},
        }
        let mut i: usize = 0;
        while i < self.operations.len()
            invariant
                model_refs_ok(self@),
                model_domains_ok(self@),
                self.operations.len() == self@.operations.len(),
                0 <= i <= self.operations.len(),
                forall|a: int, b: int|
                    0 <= a < b < self@.operations.len() && a < i ==> (
                    #[trigger] self@.operations[a]).name != (#[trigger] self@.operations[b]).name,
            decreases self.operations.len() - i,
        {
            let mut j: usize = i + 1;
            while j < self.operations.len()
                invariant
                    model_refs_ok(self@),
                    model_domains_ok(self@),
                    self.operations.len() == self@.operations.len(),
                    0 <= i < j <= self.operations.len(),
                    forall|b: int| i < b < j ==> (#[trigger] self@.operations[b]).name
                        != self@.operations[i as int].name,
                decreases self.operations.len() - j,
            {
                proof {
                    assert(self@.operations[i as int] == self.operations[i as int]@);
                    assert(self@.operations[j as int] == self.operations[j as int]@);
                }
                if self.operations[i].name.eq(&self.operations[j].name) {
                    proof {
                        let names = self@.operations.map_values(|o: OperationView| o.name);
                        assert(names[i as int] == self@.operations[i as int].name);
                        assert(names[j as int] == self@.operations[j as int].name);
                        assert(!model_names_ok(self@));
                    }
                    return Err(SpError::NameCollision(self.operations[i].name.clone()));
                }
                j = j + 1;
            }
            i = i + 1;
        }
        let mut i: usize = 0;
        while i < self.intentions.len()
            invariant
                model_refs_ok(self@),
                model_domains_ok(self@),
                self.intentions.len() == self@.intentions.len(),
                0 <= i <= self.intentions.len(),
                forall|a: int, b: int|
                    0 <= a < b < self@.intentions.len() && a < i ==> (
                    #[trigger] self@.intentions[a]).name != (#[trigger] self@.intentions[b]).name,
            decreases self.intentions.len() - i,
        {
            let mut j: usize = i + 1;
            while j < self.intentions.len()
                invariant
                    model_refs_ok(self@),
                    model_domains_ok(self@),
                    self.intentions.len() == self@.intentions.len(),
                    0 <= i < j <= self.intentions.len(),
                    forall|b: int| i < b < j ==> (#[trigger] self@.intentions[b]).name
                        != self@.intentions[i as int].name,
                decreases self.intentions.len() - j,
            {
                proof {
                    assert(self@.intentions[i as int] == self.intentions[i as int]@);
                    assert(self@.intentions[j as int] == self.intentions[j as int]@);
                }
                if self.intentions[i].name.eq(&self.intentions[j].name) {
                    proof {
                        let names = self@.intentions.map_values(|x: IntentionView| x.name);
                        assert(names[i as int] == self@.intentions[i as int].name);
                        assert(names[j as int] == self@.intentions[j as int].name);
                        assert(!model_names_ok(self@));
                    }
                    return Err(SpError::NameCollision(self.intentions[i].name.clone()));
                }
                j = j + 1;
            }
            i = i + 1;
        }
        proof {
            assert(distinct_names(self@.operations.map_values(|o: OperationView| o.name))) by {
                assert(forall|a: int|
                    0 <= a < self@.operations.len() ==> self@.operations.map_values(
                        |o: OperationView| o.name,
                    )[a] == (#[trigger] self@.operations[a]).name);
            }
            assert(distinct_names(self@.intentions.map_values(|i: IntentionView| i.name))) by {
                assert(forall|a: int|
                    0 <= a < self@.intentions.len() ==> self@.intentions.map_values(
                        |i: IntentionView| i.name,
                    )[a] == (#[trigger] self@.intentions[a]).name);
            }
            assert(model_names_ok(self@));
        }
        Ok(())
    }

    /// Scan one effect batch for a constant write outside its target's
    /// domain; returns the violating target.
    fn check_batch_domains(&self, acts: &Vec<crate::action::Action>) -> (r: Option<usize>)
        ensures
            r is None <==> actions_domains_ok(acts.deep_view(), self@.variables),
            r matches Some(v) ==> !actions_domains_ok(acts.deep_view(), self@.variables),
    {
        let mut k: usize = 0;
        while k < acts.len()
            invariant
                0 <= k <= acts.len(),
                forall|j: int|
                    0 <= j < k ==> match (#[trigger] acts.deep_view()[j]).source {
                        SourceView::Const(c) => 0 <= acts.deep_view()[j].target
                            < self@.variables.len() ==> in_domain(
                            self@.variables[acts.deep_view()[j].target].domain,
                            c,
                        ),
                        SourceView::Var(_) => true,
                    },
            decreases acts.len() - k,
        {
            proof {
                assert(acts.deep_view()[k as int] == acts[k as int]@);
            }
            match &acts[k].source {
                crate::action::AssignSource::Const(c) => {
                    if acts[k].target < self.variables.len() {
                        proof {
                            assert(self@.variables[acts[k as int].target as int]
                                == self.variables[acts[k as int].target as int]@);
                        }
                        if !value_in_domain(c, &self.variables[acts[k].target].domain) {
                            return Some(acts[k].target);
                        }
                    }
                },
                crate::action::AssignSource::Var(_) => {},
            }
            k = k + 1;
        }
        None
    }
}

} // verus!
