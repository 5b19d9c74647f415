//! A field-bus I/O resource: paired command/measured variable arrays with
//! no internal handshake, modelling passive external I/O.  A composite
//! command pattern lets a controlled transition be gated on a measured
//! reply, chaining bare I/O into a request/acknowledge protocol.

use vstd::prelude::*;
use crate::action::Action;
use crate::channel::ChannelKind;
use crate::channel::ChannelView;
use crate::channel::MessageType;
use crate::channel::MessageTypeView;
use crate::channel::MessageVariable;
use crate::channel::MessageVariableView;
use crate::model::Model;
use crate::model::ModelView;
use crate::model::join_path;
use crate::predicate::PredView;
use crate::predicate::Predicate;
use crate::resource::ResourceView;
use crate::transition::Transition;
use crate::transition::TransitionKind;
use crate::transition::TransitionView;
use crate::value::Value;
use crate::value::ValueType;
use crate::value::ValueView;
use crate::value::VariableKind;
use crate::value::dup_values;
use crate::variable::Variable;
use crate::variable::VariableView;

verus! {

/// A field-bus resource handle: five boolean and five integer channels in
/// each direction.
#[derive(Debug)]
pub struct PLCResource {
    pub path: String,
    pub resource: usize,
    pub bool_from_plc_1: usize,
    pub bool_from_plc_2: usize,
    pub bool_from_plc_3: usize,
    pub bool_from_plc_4: usize,
    pub bool_from_plc_5: usize,
    pub int_from_plc_1: usize,
    pub int_from_plc_2: usize,
    pub int_from_plc_3: usize,
    pub int_from_plc_4: usize,
    pub int_from_plc_5: usize,
    pub bool_to_plc_1: usize,
    pub bool_to_plc_2: usize,
    pub bool_to_plc_3: usize,
    pub bool_to_plc_4: usize,
    pub bool_to_plc_5: usize,
    pub int_to_plc_1: usize,
    pub int_to_plc_2: usize,
    pub int_to_plc_3: usize,
    pub int_to_plc_4: usize,
    pub int_to_plc_5: usize,
    pub initial_state: Vec<(usize, Value)>,
}

/// The mathematical abstraction of a [`PLCResource`].
#[verifier::ext_equal]
pub struct PlcView {
    pub path: Seq<char>,
    pub resource: int,
    pub bool_from: Seq<int>,
    pub int_from: Seq<int>,
    pub bool_to: Seq<int>,
    pub int_to: Seq<int>,
    pub initial_state: Seq<(usize, ValueView)>,
}

impl View for PLCResource {
    type V = PlcView;

    open spec fn view(&self) -> PlcView {
        PlcView {
            path: self.path@,
            resource: self.resource as int,
            bool_from: seq![
                self.bool_from_plc_1 as int,
                self.bool_from_plc_2 as int,
                self.bool_from_plc_3 as int,
                self.bool_from_plc_4 as int,
                self.bool_from_plc_5 as int,
            ],
            int_from: seq![
                self.int_from_plc_1 as int,
                self.int_from_plc_2 as int,
                self.int_from_plc_3 as int,
                self.int_from_plc_4 as int,
                self.int_from_plc_5 as int,
            ],
            bool_to: seq![
                self.bool_to_plc_1 as int,
                self.bool_to_plc_2 as int,
                self.bool_to_plc_3 as int,
                self.bool_to_plc_4 as int,
                self.bool_to_plc_5 as int,
            ],
            int_to: seq![
                self.int_to_plc_1 as int,
                self.int_to_plc_2 as int,
                self.int_to_plc_3 as int,
                self.int_to_plc_4 as int,
                self.int_to_plc_5 as int,
            ],
            initial_state: self.initial_state.deep_view(),
        }
    }
}

/// An outgoing command boolean, initially false.
pub open spec fn plc_command_bool(rpath: Seq<char>, name: Seq<char>) -> VariableView {
    VariableView {
        path: join_path(rpath, name),
        kind: VariableKind::Command,
        ty: ValueType::Bool,
        domain: Seq::empty(),
        initial: Some(ValueView::Bool(false)),
        definition: None,
    }
}

/// An incoming measured boolean, initially false.
pub open spec fn plc_measured_bool(rpath: Seq<char>, name: Seq<char>) -> VariableView {
    VariableView {
        path: join_path(rpath, name),
        kind: VariableKind::Measured,
        ty: ValueType::Bool,
        domain: Seq::empty(),
        initial: Some(ValueView::Bool(false)),
        definition: None,
    }
}

/// An outgoing command integer over the given domain, starting from its
/// first value.
pub open spec fn plc_command_int(
    rpath: Seq<char>,
    name: Seq<char>,
    domain: Seq<ValueView>,
) -> VariableView {
    VariableView {
        path: join_path(rpath, name),
        kind: VariableKind::Command,
        ty: ValueType::Int,
        domain: domain,
        initial: Some(domain[0]),
        definition: None,
    }
}

/// An incoming measured integer over the given domain, starting from its
/// first value.
pub open spec fn plc_measured_int(
    rpath: Seq<char>,
    name: Seq<char>,
    domain: Seq<ValueView>,
) -> VariableView {
    VariableView {
        path: join_path(rpath, name),
        kind: VariableKind::Measured,
        ty: ValueType::Int,
        domain: domain,
        initial: Some(domain[0]),
        definition: None,
    }
}

/// The twenty variables a field-bus resource declares, in declaration
/// order: commands out, then measurements in.
pub open spec fn plc_variables(
    rpath: Seq<char>,
    int_from: Seq<Seq<ValueView>>,
    int_to: Seq<Seq<ValueView>>,
) -> Seq<VariableView> {
    seq![
        plc_command_bool(rpath, "command/bool_to_plc_1"@),
        plc_command_bool(rpath, "command/bool_to_plc_2"@),
        plc_command_bool(rpath, "command/bool_to_plc_3"@),
        plc_command_bool(rpath, "command/bool_to_plc_4"@),
        plc_command_bool(rpath, "command/bool_to_plc_5"@),
        plc_command_int(rpath, "command/int_to_plc_1"@, int_to[0]),
        plc_command_int(rpath, "command/int_to_plc_2"@, int_to[1]),
        plc_command_int(rpath, "command/int_to_plc_3"@, int_to[2]),
        plc_command_int(rpath, "command/int_to_plc_4"@, int_to[3]),
        plc_command_int(rpath, "command/int_to_plc_5"@, int_to[4]),
        plc_measured_bool(rpath, "measured/bool_from_plc_1"@),
        plc_measured_bool(rpath, "measured/bool_from_plc_2"@),
        plc_measured_bool(rpath, "measured/bool_from_plc_3"@),
        plc_measured_bool(rpath, "measured/bool_from_plc_4"@),
        plc_measured_bool(rpath, "measured/bool_from_plc_5"@),
        plc_measured_int(rpath, "measured/int_from_plc_1"@, int_from[0]),
        plc_measured_int(rpath, "measured/int_from_plc_2"@, int_from[1]),
        plc_measured_int(rpath, "measured/int_from_plc_3"@, int_from[2]),
        plc_measured_int(rpath, "measured/int_from_plc_4"@, int_from[3]),
        plc_measured_int(rpath, "measured/int_from_plc_5"@, int_from[4]),
    ]
}

/// The indices the twenty variables land at.
pub open spec fn plc_var_indices(base: int) -> Seq<usize> {
    Seq::new(20, |i: int| (base + i) as usize)
}

/// The outgoing and incoming field-bus channels, binding each variable to
/// its bus address.
pub open spec fn plc_channels(base: int) -> Seq<ChannelView> {
    seq![
        ChannelView {
            kind: ChannelKind::Outgoing,
            name: "command"@,
            topic: "/opc_command"@,
            msg_type: MessageTypeView::Json,
            gate: None,
            goal_vars: Seq::new(10, |i: int| MessageVariableView {
                var: base + i,
                field: plc_field_name(i),
            }),
            feedback_vars: Seq::empty(),
            result_vars: Seq::empty(),
        },
        ChannelView {
            kind: ChannelKind::Incoming,
            name: "measured"@,
            topic: "/opc_measured"@,
            msg_type: MessageTypeView::Json,
            gate: None,
            goal_vars: Seq::empty(),
            feedback_vars: Seq::new(10, |i: int| MessageVariableView {
                var: base + 10 + i,
                field: plc_field_name(10 + i),
            }),
            result_vars: Seq::empty(),
        },
    ]
}

/// The bus address prefix every bound field shares.
pub open spec fn plc_field_prefix() -> Seq<char> {
    "ns=4;s=|var|CODESYS CONTROL FOR Raspberry Pi MC SL.Application.IO."@
}

/// The bus address of the i-th bound variable: the five outgoing booleans,
/// the five outgoing integers, then their incoming counterparts.
pub open spec fn plc_field_name(i: int) -> Seq<char> {
    plc_field_prefix() + plc_field_suffix(i)
}

/// The variable-name part of the i-th bus address.
pub open spec fn plc_field_suffix(i: int) -> Seq<char> {
    if i == 0 {
        "bool_to_plc_1"@
    } else if i == 1 {
        "bool_to_plc_2"@
    } else if i == 2 {
        "bool_to_plc_3"@
    } else if i == 3 {
        "bool_to_plc_4"@
    } else if i == 4 {
        "bool_to_plc_5"@
    } else if i == 5 {
        "int_to_plc_1"@
    } else if i == 6 {
        "int_to_plc_2"@
    } else if i == 7 {
        "int_to_plc_3"@
    } else if i == 8 {
        "int_to_plc_4"@
    } else if i == 9 {
        "int_to_plc_5"@
    } else if i == 10 {
        "bool_from_plc_1"@
    } else if i == 11 {
        "bool_from_plc_2"@
    } else if i == 12 {
        "bool_from_plc_3"@
    } else if i == 13 {
        "bool_from_plc_4"@
    } else if i == 14 {
        "bool_from_plc_5"@
    } else if i == 15 {
        "int_from_plc_1"@
    } else if i == 16 {
        "int_from_plc_2"@
    } else if i == 17 {
        "int_from_plc_3"@
    } else if i == 18 {
        "int_from_plc_4"@
    } else {
        "int_from_plc_5"@
    }
}

/// The declared initial values: measurements first, as the bus reports
/// them, then the commands.
pub open spec fn plc_initial_pairs(
    base: int,
    int_from: Seq<Seq<ValueView>>,
    int_to: Seq<Seq<ValueView>>,
) -> Seq<(usize, ValueView)> {
    seq![
        ((base + 10) as usize, ValueView::Bool(false)),
        ((base + 11) as usize, ValueView::Bool(false)),
        ((base + 12) as usize, ValueView::Bool(false)),
        ((base + 13) as usize, ValueView::Bool(false)),
        ((base + 14) as usize, ValueView::Bool(false)),
        ((base + 15) as usize, int_from[0][0]),
        ((base + 16) as usize, int_from[1][0]),
        ((base + 17) as usize, int_from[2][0]),
        ((base + 18) as usize, int_from[3][0]),
        ((base + 19) as usize, int_from[4][0]),
        ((base + 0) as usize, ValueView::Bool(false)),
        ((base + 1) as usize, ValueView::Bool(false)),
        ((base + 2) as usize, ValueView::Bool(false)),
        ((base + 3) as usize, ValueView::Bool(false)),
        ((base + 4) as usize, ValueView::Bool(false)),
        ((base + 5) as usize, int_to[0][0]),
        ((base + 6) as usize, int_to[1][0]),
        ((base + 7) as usize, int_to[2][0]),
        ((base + 8) as usize, int_to[3][0]),
        ((base + 9) as usize, int_to[4][0]),
    ]
}

/// The handle a fresh field-bus resource hands back.
pub open spec fn plc_view_of(
    base: int,
    resource: int,
    rpath: Seq<char>,
    int_from: Seq<Seq<ValueView>>,
    int_to: Seq<Seq<ValueView>>,
) -> PlcView {
    PlcView {
        path: rpath,
        resource: resource,
        bool_from: seq![base + 10, base + 11, base + 12, base + 13, base + 14],
        int_from: seq![base + 15, base + 16, base + 17, base + 18, base + 19],
        bool_to: seq![base + 0, base + 1, base + 2, base + 3, base + 4],
        int_to: seq![base + 5, base + 6, base + 7, base + 8, base + 9],
        initial_state: plc_initial_pairs(base, int_from, int_to),
    }
}


/// Declaring a field-bus resource under `resource`: its twenty variables
/// are appended, and the resource gains their indices and the outgoing and
/// incoming channels.
pub open spec fn spec_plc_new(
    m: ModelView,
    resource: int,
    int_from: Seq<Seq<ValueView>>,
    int_to: Seq<Seq<ValueView>>,
) -> ModelView {
    ModelView {
        variables: m.variables + plc_variables(m.resources[resource].path, int_from, int_to),
        resources: m.resources.update(
            resource,
            ResourceView {
                vars: m.resources[resource].vars + plc_var_indices(m.variables.len() as int),
                channels: m.resources[resource].channels + plc_channels(
                    m.variables.len() as int,
                ),
                ..m.resources[resource]
            },
        ),
        ..m
    }
}

impl PLCResource {
    /// Declare the field-bus resource's twenty variables and its outgoing
    /// and incoming channels under `resource`, and hand back its handle.
    /// Each integer channel's domain must name at least its initial (first)
    /// value.
    #[verifier::rlimit(100)]
    pub fn new(
        m: &mut Model,
        resource: usize,
        int_from_domain: [Vec<Value>; 5],
        int_to_domain: [Vec<Value>; 5],
    ) -> (r: PLCResource)
        requires
            resource < old(m)@.resources.len(),
            old(m)@.variables.len() + 20 <= usize::MAX,
            forall|i: int| 0 <= i < 5 ==> (#[trigger] int_from_domain.deep_view()[i]).len() >= 1,
            forall|i: int| 0 <= i < 5 ==> (#[trigger] int_to_domain.deep_view()[i]).len() >= 1,
        ensures
            r@ == plc_view_of(
                old(m)@.variables.len() as int,
                resource as int,
                old(m)@.resources[resource as int].path,
                int_from_domain.deep_view(),
                int_to_domain.deep_view(),
            ),
            final(m)@ == spec_plc_new(
                old(m)@,
                resource as int,
                int_from_domain.deep_view(),
                int_to_domain.deep_view(),
            ),
    {
        let ghost base = old(m)@.variables.len() as int;
        let ghost rpath = old(m)@.resources[resource as int].path;
        let ghost fromv = int_from_domain.deep_view();
        let ghost tov = int_to_domain.deep_view();
        proof {
            assert forall|i: int| 0 <= i < 5 implies (#[trigger] int_to_domain@[i])@.len()
                >= 1 by {
                assert(int_to_domain.deep_view()[i].len() == int_to_domain@[i]@.len());
            }
            assert forall|i: int| 0 <= i < 5 implies (#[trigger] int_from_domain@[i])@.len()
                >= 1 by {
                assert(int_from_domain.deep_view()[i].len() == int_from_domain@[i]@.len());
            }
        }

        let mut b1 = Variable::new_boolean("command/bool_to_plc_1", VariableKind::Command);
        b1.initial = Some(Value::Bool(false));
        let bool_to_plc_1 = m.add_variable(resource, b1);
        let mut b2 = Variable::new_boolean("command/bool_to_plc_2", VariableKind::Command);
        b2.initial = Some(Value::Bool(false));
        let bool_to_plc_2 = m.add_variable(resource, b2);
        let mut b3 = Variable::new_boolean("command/bool_to_plc_3", VariableKind::Command);
        b3.initial = Some(Value::Bool(false));
        let bool_to_plc_3 = m.add_variable(resource, b3);
        let mut b4 = Variable::new_boolean("command/bool_to_plc_4", VariableKind::Command);
        b4.initial = Some(Value::Bool(false));
        let bool_to_plc_4 = m.add_variable(resource, b4);
        let mut b5 = Variable::new_boolean("command/bool_to_plc_5", VariableKind::Command);
        b5.initial = Some(Value::Bool(false));
        let bool_to_plc_5 = m.add_variable(resource, b5);

        let mut i1 = Variable::new(
            "command/int_to_plc_1",
            VariableKind::Command,
            ValueType::Int,
            dup_values(&int_to_domain[0]),
        );
        i1.initial = Some(int_to_domain[0][0].dup());
        let int_to_plc_1 = m.add_variable(resource, i1);
        let mut i2 = Variable::new(
            "command/int_to_plc_2",
            VariableKind::Command,
            ValueType::Int,
            dup_values(&int_to_domain[1]),
        );
        i2.initial = Some(int_to_domain[1][0].dup());
        let int_to_plc_2 = m.add_variable(resource, i2);
        let mut i3 = Variable::new(
            "command/int_to_plc_3",
            VariableKind::Command,
            ValueType::Int,
            dup_values(&int_to_domain[2]),
        );
        i3.initial = Some(int_to_domain[2][0].dup());
        let int_to_plc_3 = m.add_variable(resource, i3);
        let mut i4 = Variable::new(
            "command/int_to_plc_4",
            VariableKind::Command,
            ValueType::Int,
            dup_values(&int_to_domain[3]),
        );
        i4.initial = Some(int_to_domain[3][0].dup());
        let int_to_plc_4 = m.add_variable(resource, i4);
        let mut i5 = Variable::new(
            "command/int_to_plc_5",
            VariableKind::Command,
            ValueType::Int,
            dup_values(&int_to_domain[4]),
        );
        i5.initial = Some(int_to_domain[4][0].dup());
        let int_to_plc_5 = m.add_variable(resource, i5);

        let mut f1 = Variable::new_boolean("measured/bool_from_plc_1", VariableKind::Measured);
        f1.initial = Some(Value::Bool(false));
        let bool_from_plc_1 = m.add_variable(resource, f1);
        let mut f2 = Variable::new_boolean("measured/bool_from_plc_2", VariableKind::Measured);
        f2.initial = Some(Value::Bool(false));
        let bool_from_plc_2 = m.add_variable(resource, f2);
        let mut f3 = Variable::new_boolean("measured/bool_from_plc_3", VariableKind::Measured);
        f3.initial = Some(Value::Bool(false));
        let bool_from_plc_3 = m.add_variable(resource, f3);
        let mut f4 = Variable::new_boolean("measured/bool_from_plc_4", VariableKind::Measured);
        f4.initial = Some(Value::Bool(false));
        let bool_from_plc_4 = m.add_variable(resource, f4);
        let mut f5 = Variable::new_boolean("measured/bool_from_plc_5", VariableKind::Measured);
        f5.initial = Some(Value::Bool(false));
        let bool_from_plc_5 = m.add_variable(resource, f5);

        let mut g1 = Variable::new(
            "measured/int_from_plc_1",
            VariableKind::Measured,
            ValueType::Int,
            dup_values(&int_from_domain[0]),
        );
        g1.initial = Some(int_from_domain[0][0].dup());
        let int_from_plc_1 = m.add_variable(resource, g1);
        let mut g2 = Variable::new(
            "measured/int_from_plc_2",
            VariableKind::Measured,
            ValueType::Int,
            dup_values(&int_from_domain[1]),
        );
        g2.initial = Some(int_from_domain[1][0].dup());
        let int_from_plc_2 = m.add_variable(resource, g2);
        let mut g3 = Variable::new(
            "measured/int_from_plc_3",
            VariableKind::Measured,
            ValueType::Int,
            dup_values(&int_from_domain[2]),
        );
        g3.initial = Some(int_from_domain[2][0].dup());
        let int_from_plc_3 = m.add_variable(resource, g3);
        let mut g4 = Variable::new(
            "measured/int_from_plc_4",
            VariableKind::Measured,
            ValueType::Int,
            dup_values(&int_from_domain[3]),
        );
        g4.initial = Some(int_from_domain[3][0].dup());
        let int_from_plc_4 = m.add_variable(resource, g4);
        let mut g5 = Variable::new(
            "measured/int_from_plc_5",
            VariableKind::Measured,
            ValueType::Int,
            dup_values(&int_from_domain[4]),
        );
        g5.initial = Some(int_from_domain[4][0].dup());
        let int_from_plc_5 = m.add_variable(resource, g5);

        let mut out_vars: Vec<MessageVariable> = Vec::new();
        out_vars.push(plc_bound(bool_to_plc_1, "bool_to_plc_1"));
        out_vars.push(plc_bound(bool_to_plc_2, "bool_to_plc_2"));
        out_vars.push(plc_bound(bool_to_plc_3, "bool_to_plc_3"));
        out_vars.push(plc_bound(bool_to_plc_4, "bool_to_plc_4"));
        out_vars.push(plc_bound(bool_to_plc_5, "bool_to_plc_5"));
        out_vars.push(plc_bound(int_to_plc_1, "int_to_plc_1"));
        out_vars.push(plc_bound(int_to_plc_2, "int_to_plc_2"));
        out_vars.push(plc_bound(int_to_plc_3, "int_to_plc_3"));
        out_vars.push(plc_bound(int_to_plc_4, "int_to_plc_4"));
        out_vars.push(plc_bound(int_to_plc_5, "int_to_plc_5"));
        proof {
            assert(out_vars.deep_view() =~~= Seq::new(10, |i: int| MessageVariableView {
                var: base + i,
                field: plc_field_name(i),
            }));
        }
        m.setup_ros_outgoing(resource, "command", "/opc_command", MessageType::Json, out_vars);

        let mut in_vars: Vec<MessageVariable> = Vec::new();
        in_vars.push(plc_bound(bool_from_plc_1, "bool_from_plc_1"));
        in_vars.push(plc_bound(bool_from_plc_2, "bool_from_plc_2"));
        in_vars.push(plc_bound(bool_from_plc_3, "bool_from_plc_3"));
        in_vars.push(plc_bound(bool_from_plc_4, "bool_from_plc_4"));
        in_vars.push(plc_bound(bool_from_plc_5, "bool_from_plc_5"));
        in_vars.push(plc_bound(int_from_plc_1, "int_from_plc_1"));
        in_vars.push(plc_bound(int_from_plc_2, "int_from_plc_2"));
        in_vars.push(plc_bound(int_from_plc_3, "int_from_plc_3"));
        in_vars.push(plc_bound(int_from_plc_4, "int_from_plc_4"));
        in_vars.push(plc_bound(int_from_plc_5, "int_from_plc_5"));
        proof {
            assert(in_vars.deep_view() =~~= Seq::new(10, |i: int| MessageVariableView {
                var: base + 10 + i,
                field: plc_field_name(10 + i),
            }));
        }
        m.setup_ros_incoming(resource, "measured", "/opc_measured", MessageType::Json, in_vars);

        let mut initial_state: Vec<(usize, Value)> = Vec::new();
        initial_state.push((bool_from_plc_1, Value::Bool(false)));
        initial_state.push((bool_from_plc_2, Value::Bool(false)));
        initial_state.push((bool_from_plc_3, Value::Bool(false)));
        initial_state.push((bool_from_plc_4, Value::Bool(false)));
        initial_state.push((bool_from_plc_5, Value::Bool(false)));
        initial_state.push((int_from_plc_1, int_from_domain[0][0].dup()));
        initial_state.push((int_from_plc_2, int_from_domain[1][0].dup()));
        initial_state.push((int_from_plc_3, int_from_domain[2][0].dup()));
        initial_state.push((int_from_plc_4, int_from_domain[3][0].dup()));
        initial_state.push((int_from_plc_5, int_from_domain[4][0].dup()));
        initial_state.push((bool_to_plc_1, Value::Bool(false)));
        initial_state.push((bool_to_plc_2, Value::Bool(false)));
        initial_state.push((bool_to_plc_3, Value::Bool(false)));
        initial_state.push((bool_to_plc_4, Value::Bool(false)));
        initial_state.push((bool_to_plc_5, Value::Bool(false)));
        initial_state.push((int_to_plc_1, int_to_domain[0][0].dup()));
        initial_state.push((int_to_plc_2, int_to_domain[1][0].dup()));
        initial_state.push((int_to_plc_3, int_to_domain[2][0].dup()));
        initial_state.push((int_to_plc_4, int_to_domain[3][0].dup()));
        initial_state.push((int_to_plc_5, int_to_domain[4][0].dup()));

        proof {
            assert(m@.resources.len() == old(m)@.resources.len());
            assert(m.resources@.len() == m@.resources.len());
            assert(m@.resources[resource as int].path == rpath);
        }
        let path = m.resources[resource].path.clone();
        let r = PLCResource {
            path,
            resource,
            bool_from_plc_1,
            bool_from_plc_2,
            bool_from_plc_3,
            bool_from_plc_4,
            bool_from_plc_5,
            int_from_plc_1,
            int_from_plc_2,
            int_from_plc_3,
            int_from_plc_4,
            int_from_plc_5,
            bool_to_plc_1,
            bool_to_plc_2,
            bool_to_plc_3,
            bool_to_plc_4,
            bool_to_plc_5,
            int_to_plc_1,
            int_to_plc_2,
            int_to_plc_3,
            int_to_plc_4,
            int_to_plc_5,
            initial_state,
        };
        proof {
            assert(r.initial_state.deep_view() =~= plc_initial_pairs(base, fromv, tov));
            assert(r@ =~~= plc_view_of(base, resource as int, rpath, fromv, tov));
            assert(m@.variables =~~= old(m)@.variables + plc_variables(rpath, fromv, tov));
            assert(m@.resources =~~= old(m)@.resources.update(
                resource as int,
                ResourceView {
                    vars: old(m)@.resources[resource as int].vars + plc_var_indices(base),
                    channels: old(m)@.resources[resource as int].channels + plc_channels(base),
                    ..old(m)@.resources[resource as int]
                },
            ));
        }
        r
    }

    /// The composite command pattern: register one Controlled transition on
    /// this resource whose guard the caller gates on another resource's
    /// measured reply, chaining bare I/O channels into a
    /// request/acknowledge protocol without a new handshake primitive.
    pub fn command_transition(
        &self,
        m: &mut Model,
        name: &str,
        guard: Predicate,
        runner_guard: Predicate,
        actions: Vec<Action>,
        runner_actions: Vec<Action>,
    )
        requires
            self@.resource < old(m)@.resources.len(),
        ensures
            final(m)@ == (ModelView {
                resources: old(m)@.resources.update(
                    self@.resource,
                    ResourceView {
                        transitions: old(m)@.resources[self@.resource].transitions.push(
                            TransitionView {
                                name: name@,
                                guard: guard@,
                                runner_guard: runner_guard@,
                                actions: actions.deep_view(),
                                runner_actions: runner_actions.deep_view(),
                                kind: TransitionKind::Controlled,
                            },
                        ),
                        ..old(m)@.resources[self@.resource]
                    },
                ),
                ..old(m)@
            }),
    {
        let t = Transition::new(
            name,
            guard,
            runner_guard,
            actions,
            runner_actions,
            TransitionKind::Controlled,
        );
        m.add_resource_transition(self.resource, t);
    }
}

/// Bind a declared variable to its bus address: the shared address prefix
/// followed by the variable's bus name.
fn plc_bound(var: usize, suffix: &str) -> (r: MessageVariable)
    ensures
        r@ == (MessageVariableView { var: var as int, field: plc_field_prefix() + suffix@ }),
{
    let mut field = "ns=4;s=|var|CODESYS CONTROL FOR Raspberry Pi MC SL.Application.IO.".to_owned();
    field.append(suffix);
    MessageVariable { var, field }
}

} // verus!
