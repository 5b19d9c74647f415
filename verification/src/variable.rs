//! Declared variables: typed, domain-constrained, hierarchically named.

use vstd::prelude::*;
use crate::predicate::PredView;
use crate::predicate::Predicate;
use crate::value::Value;
use crate::value::ValueType;
use crate::value::ValueView;
use crate::value::VariableKind;
use crate::value::spec_type_default;

verus! {

/// A declared variable: a hierarchical path (unique within its owner), a
/// kind, a value type, a finite legal-value domain (empty means
/// unconstrained), an optional declared initial value, and, for derived
/// boolean predicates, the guard that defines the variable's value.
#[derive(Debug)]
pub struct Variable {
    pub path: String,
    pub kind: VariableKind,
    pub ty: ValueType,
    pub domain: Vec<Value>,
    pub initial: Option<Value>,
    pub definition: Option<Predicate>,
}

/// The mathematical abstraction of a [`Variable`].
#[verifier::ext_equal]
pub struct VariableView {
    pub path: Seq<char>,
    pub kind: VariableKind,
    pub ty: ValueType,
    pub domain: Seq<ValueView>,
    pub initial: Option<ValueView>,
    pub definition: Option<PredView>,
}

impl View for Variable {
    type V = VariableView;

    open spec fn view(&self) -> VariableView {
        VariableView {
            path: self.path@,
            kind: self.kind,
            ty: self.ty,
            domain: self.domain.deep_view(),
            initial: match &self.initial {
                Some(v) => Some(v@),
                None => None,
            },
            definition: match &self.definition {
                Some(p) => Some(p@),
                None => None,
            },
        }
    }
}

impl DeepView for Variable {
    type V = VariableView;

    open spec fn deep_view(&self) -> VariableView {
        self.view()
    }
}

/// The value a variable starts from in the initial snapshot: its declared
/// initial value, else the first domain value, else the type default.
pub open spec fn var_start_value(v: VariableView) -> ValueView {
    match v.initial {
        Some(x) => x,
        None => if v.domain.len() > 0 {
            v.domain[0]
        } else {
            spec_type_default(v.ty)
        },
    }
}

impl Variable {
    /// A new variable with an explicit value type and domain.
    pub fn new(path: &str, kind: VariableKind, ty: ValueType, domain: Vec<Value>) -> (r: Variable)
        ensures
            r@ == (VariableView {
                path: path@,
                kind: kind,
                ty: ty,
                domain: domain.deep_view(),
                initial: None,
                definition: None,
            }),
    {
        Variable {
            path: path.to_owned(),
            kind,
            ty,
            domain,
            initial: None,
            definition: None,
        }
    }

    /// A new boolean variable with an unconstrained domain.
    pub fn new_boolean(path: &str, kind: VariableKind) -> (r: Variable)
        ensures
            r@ == (VariableView {
                path: path@,
                kind: kind,
                ty: ValueType::Bool,
                domain: Seq::empty(),
                initial: None,
                definition: None,
            }),
    {
        let v = Variable {
            path: path.to_owned(),
            kind: kind,
            ty: ValueType::Bool,
            domain: Vec::new(),
            initial: None,
            definition: None,
        };
        proof {
            assert(v.domain.deep_view() =~= Seq::<ValueView>::empty());
        }
        v
    }

    /// A new derived boolean predicate variable: its value is defined by the
    /// given guard over other variables.
    pub fn new_predicate(path: &str, definition: Predicate) -> (r: Variable)
        ensures
            r@ == (VariableView {
                path: path@,
                kind: VariableKind::Estimated,
                ty: ValueType::Bool,
                domain: Seq::empty(),
                initial: None,
                definition: Some(definition@),
            }),
    {
        let v = Variable {
            path: path.to_owned(),
            kind: VariableKind::Estimated,
            ty: ValueType::Bool,
            domain: Vec::new(),
            initial: None,
            definition: Some(definition),
        };
        proof {
            assert(v.domain.deep_view() =~= Seq::<ValueView>::empty());
        }
        v
    }

    /// The value this variable starts from in the initial snapshot.
    pub fn start_value(&self) -> (r: Value)
        ensures
            r@ == var_start_value(self@),
    {
        match &self.initial {
            Some(v) => v.dup(),
            None => {
                if self.domain.len() > 0 {
                    assert(self.domain.deep_view()[0] == self.domain[0int]@);
                    self.domain[0].dup()
                } else {
                    match self.ty {
                        ValueType::Bool => Value::Bool(false),
                        ValueType::Int => Value::Int(0),
                        ValueType::Str => Value::Str(String::new()),
                    }
                }
            },
        }
    }
}

} // verus!
