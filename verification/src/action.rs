//! Effects: atomic writes to variables, applied in batches.

use vstd::prelude::*;
use crate::error::SpError;
use crate::state::SPState;
use crate::value::Value;
use crate::value::ValueView;

verus! {

/// Where an assignment takes its value from: a constant, or another
/// variable's value as read in the snapshot the batch is applied against.
#[derive(Debug)]
pub enum AssignSource {
    Const(Value),
    Var(usize),
}

/// The mathematical abstraction of an [`AssignSource`].
#[verifier::ext_equal]
pub enum SourceView {
    Const(ValueView),
    Var(int),
}

impl View for AssignSource {
    type V = SourceView;

    open spec fn view(&self) -> SourceView {
        match self {
            AssignSource::Const(v) => SourceView::Const(v@),
            AssignSource::Var(i) => SourceView::Var(*i as int),
        }
    }
}

/// An atomic write to one variable.
#[derive(Debug)]
pub struct Action {
    pub target: usize,
    pub source: AssignSource,
}

/// The mathematical abstraction of an [`Action`].
#[verifier::ext_equal]
pub struct ActionView {
    pub target: int,
    pub source: SourceView,
}

impl View for Action {
    type V = ActionView;

    open spec fn view(&self) -> ActionView {
        ActionView { target: self.target as int, source: self.source@ }
    }
}

impl DeepView for Action {
    type V = ActionView;

    open spec fn deep_view(&self) -> ActionView {
        self.view()
    }
}

/// The value an assignment writes, as read against the original snapshot.
pub open spec fn source_val(src: SourceView, orig: Seq<ValueView>) -> ValueView {
    match src {
        SourceView::Const(v) => v,
        SourceView::Var(i) => orig[i],
    }
}

impl ActionView {
    /// The write's target, and its source if it is a variable, lie below
    /// index `n`.
    pub open spec fn refs_ok(self, n: int) -> bool {
        &&& 0 <= self.target < n
        &&& match self.source {
            SourceView::Const(_) => true,
            SourceView::Var(i) => 0 <= i < n,
        }
    }
}

/// Every action in the batch references only variables below index `n`.
pub open spec fn actions_refs_ok(acts: Seq<ActionView>, n: int) -> bool {
    forall|i: int| 0 <= i < acts.len() ==> (#[trigger] acts[i]).refs_ok(n)
}

/// The snapshot after applying the first `i` actions of the batch.  Every
/// variable-sourced write reads the original snapshot, so the batch sees no
/// intermediate values; writes land in order, the last to a variable wins.
pub open spec fn apply_upto(acts: Seq<ActionView>, orig: Seq<ValueView>, i: int) -> Seq<
    ValueView,
>
    decreases i,
{
    if i <= 0 {
        orig
    } else {
        apply_upto(acts, orig, i - 1).update(acts[i - 1].target, source_val(acts[i - 1].source, orig))
    }
}

/// The snapshot after applying the whole batch.
pub open spec fn apply_seq(acts: Seq<ActionView>, orig: Seq<ValueView>) -> Seq<ValueView> {
    apply_upto(acts, orig, acts.len() as int)
}

/// Applying a batch never changes which variables the snapshot covers.
pub proof fn lemma_apply_upto_len(acts: Seq<ActionView>, orig: Seq<ValueView>, i: int)
    requires
        actions_refs_ok(acts, orig.len() as int),
        i <= acts.len(),
    ensures
        apply_upto(acts, orig, i).len() == orig.len(),
    decreases i,
{
    if i > 0 {
        lemma_apply_upto_len(acts, orig, i - 1);
    }
}

impl Action {
    /// Write a constant value to a variable.
    pub fn set_const(target: usize, v: Value) -> (r: Action)
        ensures
            r@ == (ActionView { target: target as int, source: SourceView::Const(v@) }),
    {
        Action { target, source: AssignSource::Const(v) }
    }

    /// Write a string constant to a variable.
    pub fn set_str(target: usize, s: &str) -> (r: Action)
        ensures
            r@ == (ActionView {
                target: target as int,
                source: SourceView::Const(ValueView::Str(s@)),
            }),
    {
        Action { target, source: AssignSource::Const(Value::text(s)) }
    }

    /// Raise a boolean variable.
    pub fn set_true(target: usize) -> (r: Action)
        ensures
            r@ == (ActionView {
                target: target as int,
                source: SourceView::Const(ValueView::Bool(true)),
            }),
    {
        Action { target, source: AssignSource::Const(Value::Bool(true)) }
    }

    /// Drop a boolean variable.
    pub fn set_false(target: usize) -> (r: Action)
        ensures
            r@ == (ActionView {
                target: target as int,
                source: SourceView::Const(ValueView::Bool(false)),
            }),
    {
        Action { target, source: AssignSource::Const(Value::Bool(false)) }
    }

    /// A copy of the action, equal to the original.
    pub fn dup(&self) -> (r: Action)
        ensures
            r@ == self@,
    {
        let source = match &self.source {
            AssignSource::Const(v) => AssignSource::Const(v.dup()),
            AssignSource::Var(i) => AssignSource::Var(*i),
        };
        Action { target: self.target, source }
    }
}

/// A copy of an action batch, elementwise equal to the original.
pub fn dup_actions(acts: &Vec<Action>) -> (r: Vec<Action>)
    ensures
        r.deep_view() == acts.deep_view(),
{
    let mut out: Vec<Action> = Vec::new();
    let mut i: usize = 0;
    while i < acts.len()
        invariant
            0 <= i <= acts.len(),
            out.len() == i,
            forall|j: int| 0 <= j < i ==> out.deep_view()[j] == acts.deep_view()[j],
        decreases acts.len() - i,
    {
        out.push(acts[i].dup());
        i = i + 1;
    }
    assert(out.deep_view() =~= acts.deep_view());
    out
}

/// Scan an effect batch for a variable reference at or above `n`: `None`
/// exactly when every target and variable source lies below `n`, else
/// some out-of-range index the batch mentions.
pub fn check_actions_refs(acts: &Vec<Action>, n: usize) -> (r: Option<usize>)
    ensures
        r is None <==> actions_refs_ok(acts.deep_view(), n as int),
        r matches Some(i) ==> i >= n,
{
    let mut i: usize = 0;
    while i < acts.len()
        invariant
            0 <= i <= acts.len(),
            forall|j: int| 0 <= j < i ==> (#[trigger] acts.deep_view()[j]).refs_ok(n as int),
        decreases acts.len() - i,
    {
        proof {
            assert(acts.deep_view()[i as int] == acts[i as int]@);
        }
        if acts[i].target >= n {
            return Some(acts[i].target);
        }
        match &acts[i].source {
            AssignSource::Const(_) => {},
            AssignSource::Var(w) => {
                if *w >= n {
                    return Some(*w);
                }
            },
        }
        i = i + 1;
    }
    None
}

/// Apply an effect batch atomically against one snapshot.
///
/// Returns the successor snapshot, or an undefined-variable error exactly
/// when some action targets or reads a variable the snapshot does not
/// cover.  All variable-sourced writes read `state` itself, never an
/// intermediate snapshot.
pub fn apply_all(acts: &Vec<Action>, state: &SPState) -> (r: Result<SPState, SpError>)
    ensures
        r.is_ok() <==> actions_refs_ok(acts.deep_view(), state@.len() as int),
        r matches Ok(s2) ==> s2@ == apply_seq(acts.deep_view(), state@),
        r matches Err(e) ==> e matches SpError::UndefinedVariable(_),
{
    let n = state.len();
    let mut i: usize = 0;
    while i < acts.len()
        invariant
            0 <= i <= acts.len(),
            n == state@.len(),
            forall|j: int| 0 <= j < i ==> (#[trigger] acts.deep_view()[j]).refs_ok(n as int),
        decreases acts.len() - i,
    {
        assert(acts.deep_view()[i as int] == acts[i as int]@);
        if acts[i].target >= n {
            return Err(SpError::UndefinedVariable(acts[i].target));
        }
        match &acts[i].source {
            AssignSource::Const(_) => {},
            AssignSource::Var(v) => {
                if *v >= n {
                    return Err(SpError::UndefinedVariable(*v));
                }
            },
        }
        i = i + 1;
    }
    assert(actions_refs_ok(acts.deep_view(), n as int));
    let mut out = state.dup();
    let mut k: usize = 0;
    while k < acts.len()
        invariant
            0 <= k <= acts.len(),
            n == state@.len(),
            actions_refs_ok(acts.deep_view(), n as int),
            out@ == apply_upto(acts.deep_view(), state@, k as int),
            out@.len() == n,
        decreases acts.len() - k,
    {
        proof {
            lemma_apply_upto_len(acts.deep_view(), state@, k + 1);
            assert(acts.deep_view()[k as int] == acts[k as int]@);
        }
        let val = match &acts[k].source {
            AssignSource::Const(v) => v.dup(),
            AssignSource::Var(v) => state.get(*v).dup(),
        };
        out.set(acts[k].target, val);
        k = k + 1;
    }
    Ok(out)
}

} // verus!
