//! World-state snapshots: the flat mapping from variable index to value.

use vstd::prelude::*;
use crate::value::Value;
use crate::value::ValueView;

verus! {

/// A world-state snapshot.  Every guard is evaluated strictly against one
/// snapshot, and every transition's effects are applied against one snapshot
/// as a single atomic batch.  Variables are addressed by their declaration
/// index in the owning model.
#[derive(Debug)]
pub struct SPState {
    pub vals: Vec<Value>,
}

impl View for SPState {
    type V = Seq<ValueView>;

    open spec fn view(&self) -> Seq<ValueView> {
        self.vals.deep_view()
    }
}

impl SPState {
    /// A snapshot holding the given values.
    pub fn new(vals: Vec<Value>) -> (r: SPState)
        ensures
            r@ == vals.deep_view(),
    {
        SPState { vals }
    }

    /// The number of declared variables the snapshot covers.
    pub fn len(&self) -> (r: usize)
        ensures
            r == self@.len(),
    {
        self.vals.len()
    }

    /// The current value of variable `i`.
    pub fn get(&self, i: usize) -> (r: &Value)
        requires
            i < self@.len(),
        ensures
            r@ == self@[i as int],
    {
        &self.vals[i]
    }

    /// Overwrite the value of variable `i`.
    pub fn set(&mut self, i: usize, v: Value)
        requires
            i < old(self)@.len(),
        ensures
            final(self)@ == old(self)@.update(i as int, v@),
    {
        self.vals.set(i, v);
        proof {
            assert(self@ =~= old(self)@.update(i as int, v@));
        }
    }

    /// A copy of the snapshot, equal to the original.
    pub fn dup(&self) -> (r: SPState)
        ensures
            r@ == self@,
    {
        SPState { vals: crate::value::dup_values(&self.vals) }
    }

    /// Whether two snapshots hold the same values.
    pub fn eq_state(&self, other: &SPState) -> (r: bool)
        ensures
            r == (self@ == other@),
    {
        if self.vals.len() != other.vals.len() {
            assert(self@.len() != other@.len());
            return false;
        }
        let mut i: usize = 0;
        while i < self.vals.len()
            invariant
                0 <= i <= self.vals.len(),
                self@.len() == other@.len(),
                self.vals.len() == self@.len(),
                forall|j: int| 0 <= j < i ==> self@[j] == other@[j],
            decreases self.vals.len() - i,
        {
            if !self.vals[i].eq_value(&other.vals[i]) {
                assert(self@[i as int] != other@[i as int]);
                return false;
            }
            i = i + 1;
        }
        proof {
            assert(self@ =~= other@);
        }
        true
    }
}

} // verus!
