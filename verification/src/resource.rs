//! Resources: named bundles of variables, transitions and channel metadata
//! implementing one physical actuator's handshake.

use vstd::prelude::*;
use crate::channel::Channel;
use crate::channel::ChannelView;
use crate::transition::Transition;
use crate::transition::TransitionView;

verus! {

/// A resource: a stable hierarchical path, the indices of the variables it
/// declared in the owning model, its transitions, and its transport
/// channels.
#[derive(Debug)]
pub struct Resource {
    pub name: String,
    pub path: String,
    pub vars: Vec<usize>,
    pub transitions: Vec<Transition>,
    pub channels: Vec<Channel>,
}

/// The mathematical abstraction of a [`Resource`].
#[verifier::ext_equal]
pub struct ResourceView {
    pub name: Seq<char>,
    pub path: Seq<char>,
    pub vars: Seq<usize>,
    pub transitions: Seq<TransitionView>,
    pub channels: Seq<ChannelView>,
}

impl View for Resource {
    type V = ResourceView;

    open spec fn view(&self) -> ResourceView {
        ResourceView {
            name: self.name@,
            path: self.path@,
            vars: self.vars@,
            transitions: self.transitions.deep_view(),
            channels: self.channels.deep_view(),
        }
    }
}

impl DeepView for Resource {
    type V = ResourceView;

    open spec fn deep_view(&self) -> ResourceView {
        self.view()
    }
}

} // verus!
