//! Typed values and variable metadata: the leaves of the modelling algebra.

use vstd::prelude::*;

verus! {

/// The kind of a declared variable: an issued command, an observed
/// measurement, a derived estimate, or internal bookkeeping of the
/// execution runner.
#[derive(Clone, Copy, PartialEq, Eq, Structural, Debug)]
pub enum VariableKind {
    Command,
    Measured,
    Estimated,
    Runner,
}

/// The value type of a variable.  Numeric tuning parameters are carried as
/// scaled integers so that every value is exactly representable.
#[derive(Clone, Copy, PartialEq, Eq, Structural, Debug)]
pub enum ValueType {
    Bool,
    Int,
    Str,
}

/// A concrete value a variable can hold.
#[derive(Debug)]
pub enum Value {
    Bool(bool),
    Int(i64),
    Str(String),
}

/// The mathematical abstraction of a [`Value`].
#[verifier::ext_equal]
pub enum ValueView {
    Bool(bool),
    Int(int),
    Str(Seq<char>),
}

impl View for Value {
    type V = ValueView;

    open spec fn view(&self) -> ValueView {
        match self {
            Value::Bool(b) => ValueView::Bool(*b),
            Value::Int(i) => ValueView::Int(*i as int),
            Value::Str(s) => ValueView::Str(s@),
        }
    }
}

impl DeepView for Value {
    type V = ValueView;

    open spec fn deep_view(&self) -> ValueView {
        self.view()
    }
}

impl ValueView {
    /// The value type a given value belongs to.
    pub open spec fn type_of(self) -> ValueType {
        match self {
            ValueView::Bool(_) => ValueType::Bool,
            ValueView::Int(_) => ValueType::Int,
            ValueView::Str(_) => ValueType::Str,
        }
    }
}

/// The default a variable of type `ty` takes when no initial value and no
/// domain is declared: `false`, `0`, or the empty string.
pub open spec fn spec_type_default(ty: ValueType) -> ValueView {
    match ty {
        ValueType::Bool => ValueView::Bool(false),
        ValueType::Int => ValueView::Int(0),
        ValueType::Str => ValueView::Str(Seq::empty()),
    }
}

impl Value {
    /// Structural equality of two values.
    pub fn eq_value(&self, other: &Value) -> (r: bool)
        ensures
            r == (self@ == other@),
    {
        match (self, other) {
            (Value::Bool(a), Value::Bool(b)) => a == b,
            (Value::Int(a), Value::Int(b)) => a == b,
            (Value::Str(a), Value::Str(b)) => a.eq(b),
            _ => false,
        }
    }

    /// A copy of the value, equal to the original.
    pub fn dup(&self) -> (r: Value)
        ensures
            r@ == self@,
    {
        match self {
            Value::Bool(b) => Value::Bool(*b),
            Value::Int(i) => Value::Int(*i),
            Value::Str(s) => Value::Str(s.clone()),
        }
    }

    /// Convenience constructor for an enumerated string value.
    pub fn text(s: &str) -> (r: Value)
        ensures
            r@ == ValueView::Str(s@),
    {
        Value::Str(s.to_owned())
    }
}

/// Whether `v` occurs in the value sequence `s`.
pub open spec fn domain_contains(s: Seq<ValueView>, v: ValueView) -> bool {
    exists|i: int| 0 <= i < s.len() && s[i] == v
}

/// Whether `v` is a legal value for a domain: an empty domain is
/// unconstrained, a non-empty one must list the value.
pub open spec fn in_domain(domain: Seq<ValueView>, v: ValueView) -> bool {
    domain.len() == 0 || domain_contains(domain, v)
}

/// Membership of a value in a declared domain, where an empty domain means
/// the variable is unconstrained.
pub fn value_in_domain(v: &Value, domain: &Vec<Value>) -> (r: bool)
    ensures
        r == in_domain(domain.deep_view(), v@),
{
    if domain.len() == 0 {
        return true;
    }
    let mut i: usize = 0;
    while i < domain.len()
        invariant
            0 <= i <= domain.len(),
            forall|j: int| 0 <= j < i ==> domain.deep_view()[j] != v@,
        decreases domain.len() - i,
    {
        assert(domain.deep_view()[i as int] == domain[i as int]@);
        if domain[i].eq_value(v) {
            return true;
        }
        i = i + 1;
    }
    false
}

/// A copy of a value vector, elementwise equal to the original.
pub fn dup_values(vs: &Vec<Value>) -> (r: Vec<Value>)
    ensures
        r.deep_view() == vs.deep_view(),
{
    let mut out: Vec<Value> = Vec::new();
    let mut i: usize = 0;
    while i < vs.len()
        invariant
            0 <= i <= vs.len(),
            out.len() == i,
            forall|j: int| 0 <= j < i ==> out.deep_view()[j] == vs.deep_view()[j],
        decreases vs.len() - i,
    {
        out.push(vs[i].dup());
        i = i + 1;
    }
    assert(out.deep_view() =~= vs.deep_view());
    out
}

} // verus!
