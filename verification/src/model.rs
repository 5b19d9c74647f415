//! The model: the append-only aggregate of resources, operations,
//! intentions, product variables and specification invariants, and the
//! initial world-state snapshot derived from it.

use vstd::prelude::*;
use crate::channel::Channel;
use crate::channel::ChannelKind;
use crate::channel::ChannelView;
use crate::channel::MessageType;
use crate::channel::MessageVariable;
use crate::intention::Intention;
use crate::intention::IntentionView;
use crate::operation::Operation;
use crate::operation::OperationView;
use crate::predicate::PredView;
use crate::predicate::Predicate;
use crate::resource::Resource;
use crate::resource::ResourceView;
use crate::state::SPState;
use crate::transition::Transition;
use crate::transition::TransitionKind;
use crate::transition::TransitionView;
use crate::transition::dup_transitions;
use crate::value::Value;
use crate::value::ValueType;
use crate::value::ValueView;
use crate::value::VariableKind;
use crate::variable::Variable;
use crate::variable::VariableView;
use crate::variable::var_start_value;

verus! {

/// A named specification invariant: a predicate the model's designer
/// asserts of every reachable snapshot, consumed by an external model
/// checker.
#[derive(Debug)]
pub struct NamedPredicate {
    pub name: String,
    pub pred: Predicate,
}

/// The mathematical abstraction of a [`NamedPredicate`].
#[verifier::ext_equal]
pub struct NamedPredicateView {
    pub name: Seq<char>,
    pub pred: PredView,
}

impl View for NamedPredicate {
    type V = NamedPredicateView;

    open spec fn view(&self) -> NamedPredicateView {
        NamedPredicateView { name: self.name@, pred: self.pred@ }
    }
}

impl DeepView for NamedPredicate {
    type V = NamedPredicateView;

    open spec fn deep_view(&self) -> NamedPredicateView {
        self.view()
    }
}

/// `a`, a path separator, then `b`.
pub open spec fn join_path(a: Seq<char>, b: Seq<char>) -> Seq<char> {
    a + "/"@ + b
}

/// The path of a product-state variable of model `m`.
pub open spec fn product_path(m: Seq<char>, n: Seq<char>) -> Seq<char> {
    m + "/product_state/"@ + n
}

/// The path of an operation's status variable in model `m`.
pub open spec fn operation_path(m: Seq<char>, n: Seq<char>) -> Seq<char> {
    m + "/operations/"@ + n
}

/// The path of an intention's status variable in model `m`.
pub open spec fn intention_path(m: Seq<char>, n: Seq<char>) -> Seq<char> {
    m + "/intentions/"@ + n
}

/// Join two path fragments with a separator.
pub fn joined(a: &str, b: &str) -> (r: String)
    ensures
        r@ == join_path(a@, b@),
{
    let mut s = a.to_owned();
    s.append("/");
    s.append(b);
    s
}

/// The variable the model always declares first: the shared product flag
/// that every operation-completing transition raises and every
/// operation-starting transition drops.
pub open spec fn op_done_variable(model_name: Seq<char>) -> VariableView {
    VariableView {
        path: product_path(model_name, "op_done"@),
        kind: VariableKind::Estimated,
        ty: ValueType::Bool,
        domain: Seq::empty(),
        initial: Some(ValueView::Bool(false)),
        definition: None,
    }
}

/// The status variable a one-shot trigger/response service declares: the
/// call is idle ("ok", the first domain value and so the initial one),
/// in flight, or failed.
pub open spec fn service_state_variable(resource_path: Seq<char>, name: Seq<char>) -> VariableView {
    VariableView {
        path: join_path(resource_path, join_path(name, "state"@)),
        kind: VariableKind::Runner,
        ty: ValueType::Str,
        domain: seq![
            ValueView::Str("ok"@),
            ValueView::Str("requesting"@),
            ValueView::Str("failed"@),
        ],
        initial: None,
        definition: None,
    }
}

/// The status variable a long-running action declares, tracking the
/// request/feedback/result protocol; "ok" (idle) comes first and so is the
/// initial value.
pub open spec fn action_state_variable(resource_path: Seq<char>, name: Seq<char>) -> VariableView {
    VariableView {
        path: join_path(resource_path, join_path(name, "state"@)),
        kind: VariableKind::Runner,
        ty: ValueType::Str,
        domain: seq![
            ValueView::Str("ok"@),
            ValueView::Str("requesting"@),
            ValueView::Str("accepted"@),
            ValueView::Str("rejected"@),
            ValueView::Str("succeeded"@),
            ValueView::Str("aborted"@),
            ValueView::Str("canceled"@),
            ValueView::Str("timeout"@),
        ],
        initial: None,
        definition: None,
    }
}

/// All transitions the resources contribute, in resource order.
pub open spec fn resources_transitions(rs: Seq<ResourceView>) -> Seq<TransitionView>
    decreases rs.len(),
{
    if rs.len() == 0 {
        Seq::empty()
    } else {
        resources_transitions(rs.drop_last()) + rs.last().transitions
    }
}

/// All transitions the operations contribute, in operation order.
pub open spec fn operations_transitions(ops: Seq<OperationView>) -> Seq<TransitionView>
    decreases ops.len(),
{
    if ops.len() == 0 {
        Seq::empty()
    } else {
        operations_transitions(ops.drop_last()) + ops.last().transitions
    }
}

/// The flattened transition system of a model: model-level transitions,
/// then each resource's, then each operation's.
pub open spec fn all_transitions_view(m: ModelView) -> Seq<TransitionView> {
    m.transitions + resources_transitions(m.resources) + operations_transitions(m.operations)
}

/// The formal (planning) transitions: the flattened system without the
/// Runner transitions, whose Effect counterparts stand in for them.
pub open spec fn formal_transitions_view(m: ModelView) -> Seq<TransitionView> {
    keep_formal(all_transitions_view(m))
}

/// A transition list without its Runner members, in order.
pub open spec fn keep_formal(ts: Seq<TransitionView>) -> Seq<TransitionView>
    decreases ts.len(),
{
    if ts.len() == 0 {
        Seq::empty()
    } else if ts.last().kind != TransitionKind::Runner {
        keep_formal(ts.drop_last()).push(ts.last())
    } else {
        keep_formal(ts.drop_last())
    }
}

/// Growing a transition list by one grows its formal part by that
/// transition exactly when it is not a Runner transition.
pub proof fn lemma_keep_formal_push(ts: Seq<TransitionView>, t: TransitionView)
    ensures
        keep_formal(ts.push(t)) == if t.kind != TransitionKind::Runner {
            keep_formal(ts).push(t)
        } else {
            keep_formal(ts)
        },
{
    assert(ts.push(t).drop_last() =~= ts);
    assert(ts.push(t).last() == t);
}

/// The formal transitions reference only what the full system references:
/// dropping the Runner members removes transitions, never adds them.
pub proof fn lemma_keep_formal_refs_ok(ts: Seq<TransitionView>, n: int)
    requires
        forall|i: int| 0 <= i < ts.len() ==> (#[trigger] ts[i]).refs_ok(n),
    ensures
        forall|i: int|
            0 <= i < keep_formal(ts).len() ==> (#[trigger] keep_formal(ts)[i]).refs_ok(n),
    decreases ts.len(),
{
    if ts.len() > 0 {
        let shorter = ts.drop_last();
        assert(forall|i: int| 0 <= i < shorter.len() ==> shorter[i] == ts[i]);
        assert(forall|i: int| 0 <= i < shorter.len() ==> (#[trigger] shorter[i]).refs_ok(n));
        lemma_keep_formal_refs_ok(shorter, n);
        if ts.last().kind != TransitionKind::Runner {
            assert(keep_formal(ts) == keep_formal(shorter).push(ts.last()));
            assert(forall|i: int|
                0 <= i < keep_formal(ts).len() ==> (#[trigger] keep_formal(ts)[i]).refs_ok(n));
        }
    }
}

/// The initial snapshot of a variable list: every variable's declared
/// initial value, else its first domain value, else its type default.
pub open spec fn initial_vals(vs: Seq<VariableView>) -> Seq<ValueView> {
    Seq::new(vs.len(), |i: int| var_start_value(vs[i]))
}


/// The model a fresh construction starts from.
pub open spec fn spec_model_new(name: Seq<char>) -> ModelView {
    ModelView {
        name: name,
        variables: seq![op_done_variable(name)],
        resources: Seq::empty(),
        transitions: Seq::empty(),
        operations: Seq::empty(),
        intentions: Seq::empty(),
        invariants: Seq::empty(),
        op_done: 0,
    }
}

/// Declaring a resource appends an empty resource under the model's name.
pub open spec fn spec_add_resource(m: ModelView, name: Seq<char>) -> ModelView {
    ModelView {
        resources: m.resources.push(
            ResourceView {
                name: name,
                path: join_path(m.name, name),
                vars: Seq::empty(),
                transitions: Seq::empty(),
                channels: Seq::empty(),
            },
        ),
        ..m
    }
}

/// Appending a model-level transition.
pub open spec fn spec_add_transition(m: ModelView, t: TransitionView) -> ModelView {
    ModelView { transitions: m.transitions.push(t), ..m }
}

/// Declaring a boolean product-state variable.
pub open spec fn spec_add_product_bool(m: ModelView, name: Seq<char>) -> ModelView {
    ModelView {
        variables: m.variables.push(
            VariableView {
                path: product_path(m.name, name),
                kind: VariableKind::Estimated,
                ty: ValueType::Bool,
                domain: Seq::empty(),
                initial: Some(ValueView::Bool(false)),
                definition: None,
            },
        ),
        ..m
    }
}

/// Declaring a boolean estimated variable directly under the model.
pub open spec fn spec_add_estimated_bool(m: ModelView, name: Seq<char>) -> ModelView {
    ModelView {
        variables: m.variables.push(
            VariableView {
                path: join_path(m.name, name),
                kind: VariableKind::Estimated,
                ty: ValueType::Bool,
                domain: Seq::empty(),
                initial: Some(ValueView::Bool(false)),
                definition: None,
            },
        ),
        ..m
    }
}

/// Recording a named specification invariant.
pub open spec fn spec_add_invar(m: ModelView, name: Seq<char>, pred: PredView) -> ModelView {
    ModelView { invariants: m.invariants.push(NamedPredicateView { name: name, pred: pred }), ..m }
}

/// A model: all resources, operations, intentions, model-level transitions,
/// product and estimated variables, and named specification invariants.
/// Construction is append-only; built once at scenario-construction time.
#[derive(Debug)]
pub struct Model {
    pub name: String,
    pub variables: Vec<Variable>,
    pub resources: Vec<Resource>,
    pub transitions: Vec<Transition>,
    pub operations: Vec<Operation>,
    pub intentions: Vec<Intention>,
    pub invariants: Vec<NamedPredicate>,
    pub op_done: usize,
}

/// The mathematical abstraction of a [`Model`].
#[verifier::ext_equal]
pub struct ModelView {
    pub name: Seq<char>,
    pub variables: Seq<VariableView>,
    pub resources: Seq<ResourceView>,
    pub transitions: Seq<TransitionView>,
    pub operations: Seq<OperationView>,
    pub intentions: Seq<IntentionView>,
    pub invariants: Seq<NamedPredicateView>,
    pub op_done: int,
}

impl View for Model {
    type V = ModelView;

    open spec fn view(&self) -> ModelView {
        ModelView {
            name: self.name@,
            variables: self.variables.deep_view(),
            resources: self.resources.deep_view(),
            transitions: self.transitions.deep_view(),
            operations: self.operations.deep_view(),
            intentions: self.intentions.deep_view(),
            invariants: self.invariants.deep_view(),
            op_done: self.op_done as int,
        }
    }
}

impl Model {
    /// A new, empty model.  It declares one variable up front: the shared
    /// `op_done` product flag, at index 0.
    pub fn new(name: &str) -> (r: Model)
        ensures
            r@ == spec_model_new(name@),
    {
        let mut path = name.to_owned();
        path.append("/product_state/");
        path.append("op_done");
        let mut variables: Vec<Variable> = Vec::new();
        variables.push(
            Variable {
                path,
                kind: VariableKind::Estimated,
                ty: ValueType::Bool,
                domain: Vec::new(),
                initial: Some(Value::Bool(false)),
                definition: None,
            },
        );
        let m = Model {
            name: name.to_owned(),
            variables,
            resources: Vec::new(),
            transitions: Vec::new(),
            operations: Vec::new(),
            intentions: Vec::new(),
            invariants: Vec::new(),
            op_done: 0,
        };
        proof {
            assert(m.variables.deep_view() =~~= seq![op_done_variable(name@)]);
            assert(m.resources.deep_view() =~= Seq::<ResourceView>::empty());
            assert(m.transitions.deep_view() =~= Seq::<TransitionView>::empty());
            assert(m.operations.deep_view() =~= Seq::<OperationView>::empty());
            assert(m.intentions.deep_view() =~= Seq::<IntentionView>::empty());
            assert(m.invariants.deep_view() =~= Seq::<NamedPredicateView>::empty());
        }
        m
    }

    /// Declare a new resource; returns its handle.
    pub fn add_resource(&mut self, name: &str) -> (r: usize)
        ensures
            r == old(self)@.resources.len(),
            final(self)@ == spec_add_resource(old(self)@, name@),
    {
        let idx = self.resources.len();
        let path = joined(self.name.as_str(), name);
        let res = Resource {
            name: name.to_owned(),
            path,
            vars: Vec::new(),
            transitions: Vec::new(),
            channels: Vec::new(),
        };
        proof {
            assert(res.vars@ =~= Seq::<usize>::empty());
            assert(res.transitions.deep_view() =~= Seq::<TransitionView>::empty());
            assert(res.channels.deep_view() =~= Seq::<ChannelView>::empty());
        }
        self.resources.push(res);
        proof {
            assert(self.resources.deep_view() =~= old(self)@.resources.push(
                ResourceView {
                    name: name@,
                    path: join_path(old(self)@.name, name@),
                    vars: Seq::empty(),
                    transitions: Seq::empty(),
                    channels: Seq::empty(),
                },
            ));
        }
        idx
    }

    /// Declare a variable under a resource.  Its path is prefixed with the
    /// resource's path; returns the variable's index in the model.
    pub fn add_variable(&mut self, resource: usize, var: Variable) -> (r: usize)
        requires
            resource < old(self)@.resources.len(),
        ensures
            r == old(self)@.variables.len(),
            final(self)@ == (ModelView {
                variables: old(self)@.variables.push(
                    VariableView {
                        path: join_path(old(self)@.resources[resource as int].path, var@.path),
                        ..var@
                    },
                ),
                resources: old(self)@.resources.update(
                    resource as int,
                    ResourceView {
                        vars: old(self)@.resources[resource as int].vars.push(
                            old(self)@.variables.len() as usize,
                        ),
                        ..old(self)@.resources[resource as int]
                    },
                ),
                ..old(self)@
            }),
    {
        let ghost varv = var@;
        let idx = self.variables.len();
        let Variable { path, kind, ty, domain, initial, definition } = var;
        let full = joined(self.resources[resource].path.as_str(), path.as_str());
        self.variables.push(
            Variable { path: full, kind, ty, domain, initial, definition },
        );
        self.resources[resource].vars.push(idx);
        proof {
            assert(self.variables.deep_view() =~= old(self)@.variables.push(
                VariableView {
                    path: join_path(old(self)@.resources[resource as int].path, varv.path),
                    ..varv
                },
            ));
            assert(self.resources.deep_view() =~= old(self)@.resources.update(
                resource as int,
                ResourceView {
                    vars: old(self)@.resources[resource as int].vars.push(idx),
                    ..old(self)@.resources[resource as int]
                },
            ));
        }
        idx
    }

    /// Append a model-level transition.
    pub fn add_transition(&mut self, t: Transition)
        ensures
            final(self)@ == spec_add_transition(old(self)@, t@),
    {
        let ghost tv = t@;
        self.transitions.push(t);
        proof {
            assert(self.transitions.deep_view() =~= old(self)@.transitions.push(tv));
        }
    }

    /// Append a transition to a resource.
    pub fn add_resource_transition(&mut self, resource: usize, t: Transition)
        requires
            resource < old(self)@.resources.len(),
        ensures
            final(self)@ == (ModelView {
                resources: old(self)@.resources.update(
                    resource as int,
                    ResourceView {
                        transitions: old(self)@.resources[resource as int].transitions.push(t@),
                        ..old(self)@.resources[resource as int]
                    },
                ),
                ..old(self)@
            }),
    {
        let ghost tv = t@;
        self.resources[resource].transitions.push(t);
        proof {
            assert(self.resources.deep_view() =~~= old(self)@.resources.update(
                resource as int,
                ResourceView {
                    transitions: old(self)@.resources[resource as int].transitions.push(tv),
                    ..old(self)@.resources[resource as int]
                },
            ));
        }
    }

    /// Declare or overwrite a variable's initial value.
    pub fn set_initial(&mut self, var: usize, v: Value)
        requires
            var < old(self)@.variables.len(),
        ensures
            final(self)@ == (ModelView {
                variables: old(self)@.variables.update(
                    var as int,
                    VariableView { initial: Some(v@), ..old(self)@.variables[var as int] },
                ),
                ..old(self)@
            }),
    {
        let ghost vv = v@;
        self.variables[var].initial = Some(v);
        proof {
            assert(self.variables.deep_view() =~= old(self)@.variables.update(
                var as int,
                VariableView { initial: Some(vv), ..old(self)@.variables[var as int] },
            ));
        }
    }

    /// Declare a boolean product-state variable; returns its index.
    pub fn add_product_bool(&mut self, name: &str) -> (r: usize)
        ensures
            r == old(self)@.variables.len(),
            final(self)@ == spec_add_product_bool(old(self)@, name@),
    {
        let idx = self.variables.len();
        let mut path = self.name.clone();
        path.append("/product_state/");
        path.append(name);
        let var = Variable {
            path,
            kind: VariableKind::Estimated,
            ty: ValueType::Bool,
            domain: Vec::new(),
            initial: Some(Value::Bool(false)),
            definition: None,
        };
        proof {
            assert(var.domain.deep_view() =~= Seq::<ValueView>::empty());
        }
        self.variables.push(var);
        proof {
            assert(self.variables.deep_view() =~= old(self)@.variables.push(
                VariableView {
                    path: product_path(old(self)@.name, name@),
                    kind: VariableKind::Estimated,
                    ty: ValueType::Bool,
                    domain: Seq::empty(),
                    initial: Some(ValueView::Bool(false)),
                    definition: None,
                },
            ));
        }
        idx
    }

    /// Declare a boolean estimated variable directly under the model;
    /// returns its index.
    pub fn add_estimated_bool(&mut self, name: &str) -> (r: usize)
        ensures
            r == old(self)@.variables.len(),
            final(self)@ == spec_add_estimated_bool(old(self)@, name@),
    {
        let idx = self.variables.len();
        let path = joined(self.name.as_str(), name);
        let var = Variable {
            path,
            kind: VariableKind::Estimated,
            ty: ValueType::Bool,
            domain: Vec::new(),
            initial: Some(Value::Bool(false)),
            definition: None,
        };
        proof {
            assert(var.domain.deep_view() =~= Seq::<ValueView>::empty());
        }
        self.variables.push(var);
        proof {
            assert(self.variables.deep_view() =~= old(self)@.variables.push(
                VariableView {
                    path: join_path(old(self)@.name, name@),
                    kind: VariableKind::Estimated,
                    ty: ValueType::Bool,
                    domain: Seq::empty(),
                    initial: Some(ValueView::Bool(false)),
                    definition: None,
                },
            ));
        }
        idx
    }

    /// Record a named specification invariant for the external model
    /// checker.
    pub fn add_invar(&mut self, name: &str, pred: &Predicate)
        ensures
            final(self)@ == spec_add_invar(old(self)@, name@, pred@),
    {
        self.invariants.push(NamedPredicate { name: name.to_owned(), pred: pred.dup() });
        proof {
            assert(self.invariants.deep_view() =~= old(self)@.invariants.push(
                NamedPredicateView { name: name@, pred: pred@ },
            ));
        }
    }

    /// The index of the first variable declared at the given path, if any.
    pub fn find_variable(&self, path: &str) -> (r: Option<usize>)
        ensures
            match r {
                Some(i) => i < self@.variables.len() && self@.variables[i as int].path == path@
                    && forall|j: int| 0 <= j < i ==> self@.variables[j].path != path@,
                None => forall|j: int|
                    0 <= j < self@.variables.len() ==> self@.variables[j].path != path@,
            },
    {
        let key = path.to_owned();
        let mut i: usize = 0;
        while i < self.variables.len()
            invariant
                0 <= i <= self@.variables.len(),
                self.variables.len() == self@.variables.len(),
                key@ == path@,
                forall|j: int| 0 <= j < i ==> self@.variables[j].path != path@,
            decreases self.variables.len() - i,
        {
            assert(self@.variables[i as int] == self.variables[i as int]@);
            if self.variables[i].path.eq(&key) {
                return Some(i);
            }
            i = i + 1;
        }
        None
    }

    /// Attach an incoming-measurement channel to a resource.
    pub fn setup_ros_incoming(
        &mut self,
        resource: usize,
        name: &str,
        topic: &str,
        msg_type: MessageType,
        vars: Vec<MessageVariable>,
    )
        requires
            resource < old(self)@.resources.len(),
        ensures
            final(self)@ == (ModelView {
                resources: old(self)@.resources.update(
                    resource as int,
                    ResourceView {
                        channels: old(self)@.resources[resource as int].channels.push(
                            ChannelView {
                                kind: ChannelKind::Incoming,
                                name: name@,
                                topic: topic@,
                                msg_type: msg_type@,
                                gate: None,
                                goal_vars: Seq::empty(),
                                feedback_vars: vars.deep_view(),
                                result_vars: Seq::empty(),
                            },
                        ),
                        ..old(self)@.resources[resource as int]
                    },
                ),
                ..old(self)@
            }),
    {
        let ghost mv = msg_type@;
        let ghost vv = vars.deep_view();
        let chan = Channel {
            kind: ChannelKind::Incoming,
            name: name.to_owned(),
            topic: topic.to_owned(),
            msg_type,
            gate: None,
            goal_vars: Vec::new(),
            feedback_vars: vars,
            result_vars: Vec::new(),
        };
        proof {
            assert(chan.goal_vars.deep_view() =~= Seq::<
                crate::channel::MessageVariableView,
            >::empty());
            assert(chan.result_vars.deep_view() =~= Seq::<
                crate::channel::MessageVariableView,
            >::empty());
        }
        self.resources[resource].channels.push(chan);
        proof {
            assert(self.resources.deep_view() =~~= old(self)@.resources.update(
                resource as int,
                ResourceView {
                    channels: old(self)@.resources[resource as int].channels.push(
                        ChannelView {
                            kind: ChannelKind::Incoming,
                            name: name@,
                            topic: topic@,
                            msg_type: mv,
                            gate: None,
                            goal_vars: Seq::empty(),
                            feedback_vars: vv,
                            result_vars: Seq::empty(),
                        },
                    ),
                    ..old(self)@.resources[resource as int]
                },
            ));
        }
    }

    /// Attach an outgoing-command channel to a resource.
    pub fn setup_ros_outgoing(
        &mut self,
        resource: usize,
        name: &str,
        topic: &str,
        msg_type: MessageType,
        vars: Vec<MessageVariable>,
    )
        requires
            resource < old(self)@.resources.len(),
        ensures
            final(self)@ == (ModelView {
                resources: old(self)@.resources.update(
                    resource as int,
                    ResourceView {
                        channels: old(self)@.resources[resource as int].channels.push(
                            ChannelView {
                                kind: ChannelKind::Outgoing,
                                name: name@,
                                topic: topic@,
                                msg_type: msg_type@,
                                gate: None,
                                goal_vars: vars.deep_view(),
                                feedback_vars: Seq::empty(),
                                result_vars: Seq::empty(),
                            },
                        ),
                        ..old(self)@.resources[resource as int]
                    },
                ),
                ..old(self)@
            }),
    {
        let ghost mv = msg_type@;
        let ghost vv = vars.deep_view();
        let chan = Channel {
            kind: ChannelKind::Outgoing,
            name: name.to_owned(),
            topic: topic.to_owned(),
            msg_type,
            gate: None,
            goal_vars: vars,
            feedback_vars: Vec::new(),
            result_vars: Vec::new(),
        };
        proof {
            assert(chan.feedback_vars.deep_view() =~= Seq::<
                crate::channel::MessageVariableView,
            >::empty());
            assert(chan.result_vars.deep_view() =~= Seq::<
                crate::channel::MessageVariableView,
            >::empty());
        }
        self.resources[resource].channels.push(chan);
        proof {
            assert(self.resources.deep_view() =~~= old(self)@.resources.update(
                resource as int,
                ResourceView {
                    channels: old(self)@.resources[resource as int].channels.push(
                        ChannelView {
                            kind: ChannelKind::Outgoing,
                            name: name@,
                            topic: topic@,
                            msg_type: mv,
                            gate: None,
                            goal_vars: vv,
                            feedback_vars: Seq::empty(),
                            result_vars: Seq::empty(),
                        },
                    ),
                    ..old(self)@.resources[resource as int]
                },
            ));
        }
    }

    /// Attach a one-shot trigger/response service to a resource and declare
    /// its status variable; returns that variable's index.  The `gate`
    /// predicate says when the runner requests the call.
    pub fn setup_ros_service(
        &mut self,
        resource: usize,
        name: &str,
        topic: &str,
        msg_type: &str,
        gate: Predicate,
        goal_vars: Vec<MessageVariable>,
        feedback_vars: Vec<MessageVariable>,
    ) -> (r: usize)
        requires
            resource < old(self)@.resources.len(),
        ensures
            r == old(self)@.variables.len(),
            final(self)@ == (ModelView {
                variables: old(self)@.variables.push(
                    service_state_variable(old(self)@.resources[resource as int].path, name@),
                ),
                resources: old(self)@.resources.update(
                    resource as int,
                    ResourceView {
                        vars: old(self)@.resources[resource as int].vars.push(
                            old(self)@.variables.len() as usize,
                        ),
                        channels: old(self)@.resources[resource as int].channels.push(
                            ChannelView {
                                kind: ChannelKind::Service,
                                name: name@,
                                topic: topic@,
                                msg_type: crate::channel::MessageTypeView::Ros(msg_type@),
                                gate: Some(gate@),
                                goal_vars: goal_vars.deep_view(),
                                feedback_vars: feedback_vars.deep_view(),
                                result_vars: Seq::empty(),
                            },
                        ),
                        ..old(self)@.resources[resource as int]
                    },
                ),
                ..old(self)@
            }),
    {
        let ghost gatev = gate@;
        let ghost goalv = goal_vars.deep_view();
        let ghost fbv = feedback_vars.deep_view();
        let local = joined(name, "state");
        let mut domain: Vec<Value> = Vec::new();
        domain.push(Value::text("ok"));
        domain.push(Value::text("requesting"));
        domain.push(Value::text("failed"));
        proof {
            assert(domain.deep_view() =~= seq![
                ValueView::Str("ok"@),
                ValueView::Str("requesting"@),
                ValueView::Str("failed"@),
            ]);
        }
        let var = Variable::new(local.as_str(), VariableKind::Runner, ValueType::Str, domain);
        let idx = self.add_variable(resource, var);
        let ghost mid = self@;
        proof {
            assert(self@.resources == old(self)@.resources.update(
                resource as int,
                ResourceView {
                    vars: old(self)@.resources[resource as int].vars.push(
                        old(self)@.variables.len() as usize,
                    ),
                    ..old(self)@.resources[resource as int]
                },
            ));
            assert(self@.resources.len() == old(self)@.resources.len());
            assert(self.resources@.len() == self@.resources.len());
        }
        let chan = Channel {
            kind: ChannelKind::Service,
            name: name.to_owned(),
            topic: topic.to_owned(),
            msg_type: MessageType::Ros(msg_type.to_owned()),
            gate: Some(gate),
            goal_vars,
            feedback_vars,
            result_vars: Vec::new(),
        };
        proof {
            assert(chan.result_vars.deep_view() =~= Seq::<
                crate::channel::MessageVariableView,
            >::empty());
        }
        self.resources[resource].channels.push(chan);
        proof {
            assert(self.resources.deep_view() =~~= mid.resources.update(
                resource as int,
                ResourceView {
                    channels: mid.resources[resource as int].channels.push(
                        ChannelView {
                            kind: ChannelKind::Service,
                            name: name@,
                            topic: topic@,
                            msg_type: crate::channel::MessageTypeView::Ros(msg_type@),
                            gate: Some(gatev),
                            goal_vars: goalv,
                            feedback_vars: fbv,
                            result_vars: Seq::empty(),
                        },
                    ),
                    ..mid.resources[resource as int]
                },
            ));
            assert(self@.resources =~~= old(self)@.resources.update(
                resource as int,
                ResourceView {
                    vars: old(self)@.resources[resource as int].vars.push(
                        old(self)@.variables.len() as usize,
                    ),
                    channels: old(self)@.resources[resource as int].channels.push(
                        ChannelView {
                            kind: ChannelKind::Service,
                            name: name@,
                            topic: topic@,
                            msg_type: crate::channel::MessageTypeView::Ros(msg_type@),
                            gate: Some(gatev),
                            goal_vars: goalv,
                            feedback_vars: fbv,
                            result_vars: Seq::empty(),
                        },
                    ),
                    ..old(self)@.resources[resource as int]
                },
            ));
        }
        idx
    }

    /// Attach a long-running external action to a resource and declare its
    /// status variable; returns that variable's index.  The `gate`
    /// predicate says when the runner requests the action; the three
    /// variable lists bind the goal, feedback and result messages.
    pub fn setup_ros_action(
        &mut self,
        resource: usize,
        name: &str,
        topic: &str,
        msg_type: &str,
        gate: Predicate,
        goal_vars: Vec<MessageVariable>,
        feedback_vars: Vec<MessageVariable>,
        result_vars: Vec<MessageVariable>,
    ) -> (r: usize)
        requires
            resource < old(self)@.resources.len(),
        ensures
            r == old(self)@.variables.len(),
            final(self)@ == (ModelView {
                variables: old(self)@.variables.push(
                    action_state_variable(old(self)@.resources[resource as int].path, name@),
                ),
                resources: old(self)@.resources.update(
                    resource as int,
                    ResourceView {
                        vars: old(self)@.resources[resource as int].vars.push(
                            old(self)@.variables.len() as usize,
                        ),
                        channels: old(self)@.resources[resource as int].channels.push(
                            ChannelView {
                                kind: ChannelKind::Action,
                                name: name@,
                                topic: topic@,
                                msg_type: crate::channel::MessageTypeView::Ros(msg_type@),
                                gate: Some(gate@),
                                goal_vars: goal_vars.deep_view(),
                                feedback_vars: feedback_vars.deep_view(),
                                result_vars: result_vars.deep_view(),
                            },
                        ),
                        ..old(self)@.resources[resource as int]
                    },
                ),
                ..old(self)@
            }),
    {
        let ghost gatev = gate@;
        let ghost goalv = goal_vars.deep_view();
        let ghost fbv = feedback_vars.deep_view();
        let ghost resv = result_vars.deep_view();
        let local = joined(name, "state");
        let mut domain: Vec<Value> = Vec::new();
        domain.push(Value::text("ok"));
        domain.push(Value::text("requesting"));
        domain.push(Value::text("accepted"));
        domain.push(Value::text("rejected"));
        domain.push(Value::text("succeeded"));
        domain.push(Value::text("aborted"));
        domain.push(Value::text("canceled"));
        domain.push(Value::text("timeout"));
        proof {
            assert(domain.deep_view() =~= seq![
                ValueView::Str("ok"@),
                ValueView::Str("requesting"@),
                ValueView::Str("accepted"@),
                ValueView::Str("rejected"@),
                ValueView::Str("succeeded"@),
                ValueView::Str("aborted"@),
                ValueView::Str("canceled"@),
                ValueView::Str("timeout"@),
            ]);
        }
        let var = Variable::new(local.as_str(), VariableKind::Runner, ValueType::Str, domain);
        let idx = self.add_variable(resource, var);
        let ghost mid = self@;
        proof {
            assert(self@.resources == old(self)@.resources.update(
                resource as int,
                ResourceView {
                    vars: old(self)@.resources[resource as int].vars.push(
                        old(self)@.variables.len() as usize,
                    ),
                    ..old(self)@.resources[resource as int]
                },
            ));
            assert(self@.resources.len() == old(self)@.resources.len());
            assert(self.resources@.len() == self@.resources.len());
        }
        let chan = Channel {
            kind: ChannelKind::Action,
            name: name.to_owned(),
            topic: topic.to_owned(),
            msg_type: MessageType::Ros(msg_type.to_owned()),
            gate: Some(gate),
            goal_vars,
            feedback_vars,
            result_vars,
        };
        self.resources[resource].channels.push(chan);
        proof {
            assert(self.resources.deep_view() =~~= mid.resources.update(
                resource as int,
                ResourceView {
                    channels: mid.resources[resource as int].channels.push(
                        ChannelView {
                            kind: ChannelKind::Action,
                            name: name@,
                            topic: topic@,
                            msg_type: crate::channel::MessageTypeView::Ros(msg_type@),
                            gate: Some(gatev),
                            goal_vars: goalv,
                            feedback_vars: fbv,
                            result_vars: resv,
                        },
                    ),
                    ..mid.resources[resource as int]
                },
            ));
            assert(self@.resources =~~= old(self)@.resources.update(
                resource as int,
                ResourceView {
                    vars: old(self)@.resources[resource as int].vars.push(
                        old(self)@.variables.len() as usize,
                    ),
                    channels: old(self)@.resources[resource as int].channels.push(
                        ChannelView {
                            kind: ChannelKind::Action,
                            name: name@,
                            topic: topic@,
                            msg_type: crate::channel::MessageTypeView::Ros(msg_type@),
                            gate: Some(gatev),
                            goal_vars: goalv,
                            feedback_vars: fbv,
                            result_vars: resv,
                        },
                    ),
                    ..old(self)@.resources[resource as int]
                },
            ));
        }
        idx
    }

    /// The flattened transition system: model-level transitions, then each
    /// resource's, then each operation's, in declaration order.
    pub fn all_transitions(&self) -> (r: Vec<Transition>)
        ensures
            r.deep_view() == all_transitions_view(self@),
    {
        let mut out = dup_transitions(&self.transitions);
        let mut i: usize = 0;
        while i < self.resources.len()
            invariant
                0 <= i <= self@.resources.len(),
                self.resources.len() == self@.resources.len(),
                out.deep_view() =~= self@.transitions + resources_transitions(
                    self@.resources.take(i as int),
                ),
            decreases self.resources.len() - i,
        {
            let mut ts = dup_transitions(&self.resources[i].transitions);
            let ghost out_before = out.deep_view();
            let ghost ts_deep = ts.deep_view();
            out.append(&mut ts);
            proof {
                assert(out.deep_view() =~= out_before + ts_deep);
                assert(self@.resources.take(i as int + 1).drop_last() =~= self@.resources.take(
                    i as int,
                ));
                assert(self@.resources.take(i as int + 1).last() == self@.resources[i as int]);
                assert(self@.resources[i as int].transitions == self.resources[
                    i as int
                ]@.transitions);
                assert(out.deep_view() =~= self@.transitions + resources_transitions(
                    self@.resources.take(i as int + 1),
                ));
            }
            i = i + 1;
        }
        proof {
            assert(self@.resources.take(self@.resources.len() as int) =~= self@.resources);
        }
        let mut k: usize = 0;
        while k < self.operations.len()
            invariant
                0 <= k <= self@.operations.len(),
                self.operations.len() == self@.operations.len(),
                out.deep_view() =~= self@.transitions + resources_transitions(self@.resources)
                    + operations_transitions(self@.operations.take(k as int)),
            decreases self.operations.len() - k,
        {
            let mut ts = dup_transitions(&self.operations[k].transitions);
            let ghost out_before = out.deep_view();
            let ghost ts_deep = ts.deep_view();
            out.append(&mut ts);
            proof {
                assert(out.deep_view() =~= out_before + ts_deep);
                assert(self@.operations.take(k as int + 1).drop_last() =~= self@.operations.take(
                    k as int,
                ));
                assert(self@.operations.take(k as int + 1).last() == self@.operations[k as int]);
                assert(self@.operations[k as int].transitions == self.operations[
                    k as int
                ]@.transitions);
                assert(out.deep_view() =~= self@.transitions + resources_transitions(
                    self@.resources,
                ) + operations_transitions(self@.operations.take(k as int + 1)));
            }
            k = k + 1;
        }
        proof {
            assert(self@.operations.take(self@.operations.len() as int) =~= self@.operations);
            assert(out.deep_view() =~= all_transitions_view(self@));
        }
        out
    }

    /// The formal transitions the planner and model checker reason over:
    /// the flattened system without its Runner transitions.
    pub fn formal_transitions(&self) -> (r: Vec<Transition>)
        ensures
            r.deep_view() == formal_transitions_view(self@),
    {
        let all = self.all_transitions();
        let mut out: Vec<Transition> = Vec::new();
        let mut i: usize = 0;
        while i < all.len()
            invariant
                0 <= i <= all.len(),
                all.deep_view() == all_transitions_view(self@),
                out.deep_view() =~= keep_formal(all.deep_view().take(i as int)),
            decreases all.len() - i,
        {
            proof {
                assert(all.deep_view().take(i as int + 1) =~= all.deep_view().take(i as int).push(
                    all.deep_view()[i as int],
                ));
                lemma_keep_formal_push(all.deep_view().take(i as int), all.deep_view()[i as int]);
                assert(all.deep_view()[i as int] == all[i as int]@);
            }
            match all[i].kind {
                TransitionKind::Runner => {},
                _ => {
                    out.push(all[i].dup());
                },
            }
            proof {
                assert(out.deep_view() =~= keep_formal(all.deep_view().take(i as int + 1)));
            }
            i = i + 1;
        }
        proof {
            assert(all.deep_view().take(all.deep_view().len() as int) =~= all.deep_view());
        }
        out
    }

    /// Assemble the initial world-state snapshot: one value per declared
    /// variable, in declaration order.
    pub fn initial_state(&self) -> (r: SPState)
        ensures
            r@ == initial_vals(self@.variables),
    {
        let mut vals: Vec<Value> = Vec::new();
        let mut i: usize = 0;
        while i < self.variables.len()
            invariant
                0 <= i <= self@.variables.len(),
                self.variables.len() == self@.variables.len(),
                vals.len() == i,
                forall|j: int| 0 <= j < i ==> vals.deep_view()[j] == var_start_value(
                    self@.variables[j],
                ),
            decreases self.variables.len() - i,
        {
            assert(self@.variables[i as int] == self.variables[i as int]@);
            let ghost prior = vals.deep_view();
            let v = self.variables[i].start_value();
            vals.push(v);
            proof {
                assert(vals.deep_view() =~= prior.push(var_start_value(self@.variables[i as int])));
            }
            i = i + 1;
        }
        let s = SPState::new(vals);
        proof {
            assert(s@ =~= initial_vals(self@.variables));
        }
        s
    }
}

} // verus!
