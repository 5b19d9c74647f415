//! Transport-binding metadata: declarative mappings from variables to named
//! external channels.  The core attaches this metadata to resources and
//! performs no I/O itself.

use vstd::prelude::*;
use crate::predicate::PredView;
use crate::predicate::Predicate;

verus! {

/// The wire encoding of a channel's messages.
#[derive(Debug)]
pub enum MessageType {
    Ros(String),
    Json,
}

/// The mathematical abstraction of a [`MessageType`].
#[verifier::ext_equal]
pub enum MessageTypeView {
    Ros(Seq<char>),
    Json,
}

impl View for MessageType {
    type V = MessageTypeView;

    open spec fn view(&self) -> MessageTypeView {
        match self {
            MessageType::Ros(s) => MessageTypeView::Ros(s@),
            MessageType::Json => MessageTypeView::Json,
        }
    }
}

/// One variable bound to one named field of a channel's message.
#[derive(Debug)]
pub struct MessageVariable {
    pub var: usize,
    pub field: String,
}

/// The mathematical abstraction of a [`MessageVariable`].
#[verifier::ext_equal]
pub struct MessageVariableView {
    pub var: int,
    pub field: Seq<char>,
}

impl View for MessageVariable {
    type V = MessageVariableView;

    open spec fn view(&self) -> MessageVariableView {
        MessageVariableView { var: self.var as int, field: self.field@ }
    }
}

impl DeepView for MessageVariable {
    type V = MessageVariableView;

    open spec fn deep_view(&self) -> MessageVariableView {
        self.view()
    }
}

impl MessageVariable {
    /// Bind a declared variable to a message field.
    pub fn new(var: usize, field: &str) -> (r: MessageVariable)
        ensures
            r@ == (MessageVariableView { var: var as int, field: field@ }),
    {
        MessageVariable { var, field: field.to_owned() }
    }
}

/// The shape of an external channel.
#[derive(Clone, Copy, PartialEq, Eq, Structural, Debug)]
pub enum ChannelKind {
    /// Outgoing command messages.
    Outgoing,
    /// Incoming measurement messages.
    Incoming,
    /// A long-running action with goal, feedback and result variables.
    Action,
    /// A one-shot trigger/response service.
    Service,
}

/// A declarative binding from a subset of a resource's variables to one
/// named external channel.
#[derive(Debug)]
pub struct Channel {
    pub kind: ChannelKind,
    pub name: String,
    pub topic: String,
    pub msg_type: MessageType,
    /// For actions and services: the guard that requests the call.
    pub gate: Option<Predicate>,
    /// Outgoing/goal variable bindings.
    pub goal_vars: Vec<MessageVariable>,
    /// Incoming/feedback variable bindings.
    pub feedback_vars: Vec<MessageVariable>,
    /// Result variable bindings (long-running actions only).
    pub result_vars: Vec<MessageVariable>,
}

/// The mathematical abstraction of a [`Channel`].
#[verifier::ext_equal]
pub struct ChannelView {
    pub kind: ChannelKind,
    pub name: Seq<char>,
    pub topic: Seq<char>,
    pub msg_type: MessageTypeView,
    pub gate: Option<PredView>,
    pub goal_vars: Seq<MessageVariableView>,
    pub feedback_vars: Seq<MessageVariableView>,
    pub result_vars: Seq<MessageVariableView>,
}

impl View for Channel {
    type V = ChannelView;

    open spec fn view(&self) -> ChannelView {
        ChannelView {
            kind: self.kind,
            name: self.name@,
            topic: self.topic@,
            msg_type: self.msg_type@,
            gate: match &self.gate {
                Some(p) => Some(p@),
                None => None,
            },
            goal_vars: self.goal_vars.deep_view(),
            feedback_vars: self.feedback_vars.deep_view(),
            result_vars: self.result_vars.deep_view(),
        }
    }
}

impl DeepView for Channel {
    type V = ChannelView;

    open spec fn deep_view(&self) -> ChannelView {
        self.view()
    }
}

} // verus!
