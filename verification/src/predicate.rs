//! Boolean guard expressions over variable values.
//!
//! A guard is an expression tree whose atoms compare one variable's current
//! value against a constant; atoms compose with negation, conjunction,
//! disjunction and implication.  Evaluation is strictly against one
//! world-state snapshot and has no side effects; referencing a variable the
//! snapshot does not cover is an error, never a silent default.

use vstd::prelude::*;
use crate::error::SpError;
use crate::state::SPState;
use crate::value::Value;
use crate::value::ValueView;

verus! {

/// A boolean guard expression.
#[derive(Debug)]
pub enum Predicate {
    /// Constantly true.
    True,
    /// Constantly false.
    False,
    /// The variable at this index currently equals the constant.
    Eq(usize, Value),
    /// The variable at this index currently differs from the constant.
    Neq(usize, Value),
    /// Negation.
    Not(Box<Predicate>),
    /// Conjunction.
    And(Box<Predicate>, Box<Predicate>),
    /// Disjunction.
    Or(Box<Predicate>, Box<Predicate>),
    /// Implication.
    Implies(Box<Predicate>, Box<Predicate>),
}

/// The mathematical abstraction of a [`Predicate`].
#[verifier::ext_equal]
pub enum PredView {
    True,
    False,
    Eq(int, ValueView),
    Neq(int, ValueView),
    Not(Box<PredView>),
    And(Box<PredView>, Box<PredView>),
    Or(Box<PredView>, Box<PredView>),
    Implies(Box<PredView>, Box<PredView>),
}

pub open spec fn pred_view(p: Predicate) -> PredView
    decreases p,
{
    match p {
        Predicate::True => PredView::True,
        Predicate::False => PredView::False,
        Predicate::Eq(v, val) => PredView::Eq(v as int, val@),
        Predicate::Neq(v, val) => PredView::Neq(v as int, val@),
        Predicate::Not(a) => PredView::Not(Box::new(pred_view(*a))),
        Predicate::And(a, b) => PredView::And(
            Box::new(pred_view(*a)),
            Box::new(pred_view(*b)),
        ),
        Predicate::Or(a, b) => PredView::Or(Box::new(pred_view(*a)), Box::new(pred_view(*b))),
        Predicate::Implies(a, b) => PredView::Implies(
            Box::new(pred_view(*a)),
            Box::new(pred_view(*b)),
        ),
    }
}

impl View for Predicate {
    type V = PredView;

    open spec fn view(&self) -> PredView {
        pred_view(*self)
    }
}

impl DeepView for Predicate {
    type V = PredView;

    open spec fn deep_view(&self) -> PredView {
        pred_view(*self)
    }
}

impl PredView {
    /// Every variable the guard mentions lies below index `n`.
    pub open spec fn refs_ok(self, n: int) -> bool
        decreases self,
    {
        match self {
            PredView::True => true,
            PredView::False => true,
            PredView::Eq(v, _) => 0 <= v < n,
            PredView::Neq(v, _) => 0 <= v < n,
            PredView::Not(a) => a.refs_ok(n),
            PredView::And(a, b) => a.refs_ok(n) && b.refs_ok(n),
            PredView::Or(a, b) => a.refs_ok(n) && b.refs_ok(n),
            PredView::Implies(a, b) => a.refs_ok(n) && b.refs_ok(n),
        }
    }

    /// The truth value of the guard against snapshot `s`.  An atom whose
    /// variable the snapshot does not cover counts as false; evaluation of
    /// such a guard is rejected as an error by [`Predicate::eval`].
    pub open spec fn holds(self, s: Seq<ValueView>) -> bool
        decreases self,
    {
        match self {
            PredView::True => true,
            PredView::False => false,
            PredView::Eq(v, val) => 0 <= v < s.len() && s[v] == val,
            PredView::Neq(v, val) => 0 <= v < s.len() && s[v] != val,
            PredView::Not(a) => !a.holds(s),
            PredView::And(a, b) => a.holds(s) && b.holds(s),
            PredView::Or(a, b) => a.holds(s) || b.holds(s),
            PredView::Implies(a, b) => a.holds(s) ==> b.holds(s),
        }
    }
}

impl Predicate {
    /// Guard: the variable currently equals the constant.
    pub fn eq_val(var: usize, val: Value) -> (r: Predicate)
        ensures
            r@ == PredView::Eq(var as int, val@),
    {
        Predicate::Eq(var, val)
    }

    /// Guard: the variable currently differs from the constant.
    pub fn neq_val(var: usize, val: Value) -> (r: Predicate)
        ensures
            r@ == PredView::Neq(var as int, val@),
    {
        Predicate::Neq(var, val)
    }

    /// Guard: the variable currently equals the given string.
    pub fn eq_str(var: usize, s: &str) -> (r: Predicate)
        ensures
            r@ == PredView::Eq(var as int, ValueView::Str(s@)),
    {
        Predicate::Eq(var, Value::text(s))
    }

    /// Guard: the variable currently differs from the given string.
    pub fn neq_str(var: usize, s: &str) -> (r: Predicate)
        ensures
            r@ == PredView::Neq(var as int, ValueView::Str(s@)),
    {
        Predicate::Neq(var, Value::text(s))
    }

    /// Guard: the boolean variable is currently true.
    pub fn is_true(var: usize) -> (r: Predicate)
        ensures
            r@ == PredView::Eq(var as int, ValueView::Bool(true)),
    {
        Predicate::Eq(var, Value::Bool(true))
    }

    /// Guard: the boolean variable is currently false.
    pub fn is_false(var: usize) -> (r: Predicate)
        ensures
            r@ == PredView::Eq(var as int, ValueView::Bool(false)),
    {
        Predicate::Eq(var, Value::Bool(false))
    }

    /// Conjunction of two guards.
    pub fn and(a: Predicate, b: Predicate) -> (r: Predicate)
        ensures
            r@ == PredView::And(Box::new(a@), Box::new(b@)),
    {
        Predicate::And(Box::new(a), Box::new(b))
    }

    /// Disjunction of two guards.
    pub fn or(a: Predicate, b: Predicate) -> (r: Predicate)
        ensures
            r@ == PredView::Or(Box::new(a@), Box::new(b@)),
    {
        Predicate::Or(Box::new(a), Box::new(b))
    }

    /// Negation of a guard.
    pub fn negate(a: Predicate) -> (r: Predicate)
        ensures
            r@ == PredView::Not(Box::new(a@)),
    {
        Predicate::Not(Box::new(a))
    }

    /// Implication between two guards.
    pub fn implies(a: Predicate, b: Predicate) -> (r: Predicate)
        ensures
            r@ == PredView::Implies(Box::new(a@), Box::new(b@)),
    {
        Predicate::Implies(Box::new(a), Box::new(b))
    }

    /// A copy of the guard, equal to the original.
    pub fn dup(&self) -> (r: Predicate)
        ensures
            r@ == self@,
        decreases self,
    {
        match self {
            Predicate::True => Predicate::True,
            Predicate::False => Predicate::False,
            Predicate::Eq(v, val) => Predicate::Eq(*v, val.dup()),
            Predicate::Neq(v, val) => Predicate::Neq(*v, val.dup()),
            Predicate::Not(a) => Predicate::Not(Box::new(a.dup())),
            Predicate::And(a, b) => Predicate::And(Box::new(a.dup()), Box::new(b.dup())),
            Predicate::Or(a, b) => Predicate::Or(Box::new(a.dup()), Box::new(b.dup())),
            Predicate::Implies(a, b) => Predicate::Implies(Box::new(a.dup()), Box::new(b.dup())),
        }
    }

    /// Scan the guard for a variable reference at or above `n`: `None`
    /// exactly when every referenced variable lies below `n`, else some
    /// out-of-range index the guard mentions.
    pub fn check_refs(&self, n: usize) -> (r: Option<usize>)
        ensures
            r is None <==> self@.refs_ok(n as int),
            r matches Some(i) ==> i >= n,
        decreases self,
    {
        match self {
            Predicate::True => None,
            Predicate::False => None,
            Predicate::Eq(v, _) => if *v < n {
                None
            } else {
                Some(*v)
            },
            Predicate::Neq(v, _) => if *v < n {
                None
            } else {
                Some(*v)
            },
            Predicate::Not(a) => a.check_refs(n),
            Predicate::And(a, b) => {
                match a.check_refs(n) {
                    Some(i) => Some(i),
                    None => b.check_refs(n),
                }
            },
            Predicate::Or(a, b) => {
                match a.check_refs(n) {
                    Some(i) => Some(i),
                    None => b.check_refs(n),
                }
            },
            Predicate::Implies(a, b) => {
                match a.check_refs(n) {
                    Some(i) => Some(i),
                    None => b.check_refs(n),
                }
            },
        }
    }

    /// Evaluate the guard against one snapshot.
    ///
    /// Returns the guard's truth value, or an undefined-variable error
    /// exactly when the guard mentions a variable the snapshot does not
    /// cover.  Both sides of every connective are checked, so the result is
    /// an error whenever any atom is undefined.
    pub fn eval(&self, state: &SPState) -> (r: Result<bool, SpError>)
        ensures
            r.is_ok() <==> self@.refs_ok(state@.len() as int),
            r matches Ok(b) ==> b == self@.holds(state@),
            r matches Err(e) ==> e matches SpError::UndefinedVariable(_),
        decreases self,
    {
        match self {
            Predicate::True => Ok(true),
            Predicate::False => Ok(false),
            Predicate::Eq(v, val) => {
                if *v < state.len() {
                    Ok(state.get(*v).eq_value(val))
                } else {
                    Err(SpError::UndefinedVariable(*v))
                }
            },
            Predicate::Neq(v, val) => {
                if *v < state.len() {
                    Ok(!state.get(*v).eq_value(val))
                } else {
                    Err(SpError::UndefinedVariable(*v))
                }
            },
            Predicate::Not(a) => {
                match a.eval(state) {
                    Ok(b) => Ok(!b),
                    Err(e) => Err(e),
                }
            },
            Predicate::And(a, b) => {
                let ra = a.eval(state);
                let rb = b.eval(state);
                match (ra, rb) {
                    (Ok(x), Ok(y)) => Ok(x && y),
                    (Err(e), _) => Err(e),
                    (_, Err(e)) => Err(e),
                }
            },
            Predicate::Or(a, b) => {
                let ra = a.eval(state);
                let rb = b.eval(state);
                match (ra, rb) {
                    (Ok(x), Ok(y)) => Ok(x || y),
                    (Err(e), _) => Err(e),
                    (_, Err(e)) => Err(e),
                }
            },
            Predicate::Implies(a, b) => {
                let ra = a.eval(state);
                let rb = b.eval(state);
                match (ra, rb) {
                    (Ok(x), Ok(y)) => Ok(!x || y),
                    (Err(e), _) => Err(e),
                    (_, Err(e)) => Err(e),
                }
            },
        }
    }
}

} // verus!
