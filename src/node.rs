use vstd::prelude::*;

use crate::message::{Event, Init, Message};

verus! {

/// Why a node gives up: each of these ends the process.
#[derive(Debug, Clone, Copy, PartialEq, Eq, Structural)]
pub enum NodeError {
    /// A topology message lists no neighbors for this node.
    NoTopology,
    /// A peer that the cluster did not name at start-up.
    UnknownPeer,
    /// The message id counter has no fresh value left.
    IdsExhausted,
    /// An event that this kind of node never expects.
    UnexpectedEvent,
}

/// A state machine driven by the runtime: built once from the handshake, then
/// stepped once per event, each step handing back the messages to send.
pub trait Node<S, Payload, InjectedPayload = ()>: Sized {
    /// What every reachable state of the node satisfies.
    spec fn inv(&self) -> bool;

    /// `r` is what building a node from `init` gives.
    spec fn init_spec(init: Init, r: Result<Self, NodeError>) -> bool;

    /// Handling `input` in state `pre` leads to `post` and gives `r`.
    spec fn step_spec(
        pre: Self,
        input: Event<Payload, InjectedPayload>,
        post: Self,
        r: Result<Vec<Message<Payload>>, NodeError>,
    ) -> bool;

    fn from_init(state: S, init: Init) -> (r: Result<Self, NodeError>)
        ensures
            Self::init_spec(init, r),
            r matches Ok(n) ==> n.inv(),
    ;

    fn step(&mut self, input: Event<Payload, InjectedPayload>) -> (r: Result<
        Vec<Message<Payload>>,
        NodeError,
    >)
        requires
            old(self).inv(),
        ensures
            final(self).inv(),
            Self::step_spec(*old(self), input, *final(self), r),
    ;
}

} // verus!
