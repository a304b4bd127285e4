use vstd::prelude::*;

use crate::message::{Body, Event, Init, Message, is_reply_of};
use crate::node::{Node, NodeError};

verus! {

/// The payloads of the echo service.
#[derive(Debug, Clone)]
pub enum EchoPayload {
    Echo { echo: String },
    EchoOk { echo: String },
}

/// A node that answers each `echo` with the same text.
pub struct EchoNode {
    /// The id that the next reply carries.
    pub id: usize,
}

/// What handling `input` in state `pre` does.
pub open spec fn echo_step(
    pre: EchoNode,
    input: Event<EchoPayload>,
    post: EchoNode,
    r: Result<Vec<Message<EchoPayload>>, NodeError>,
) -> bool {
    match input {
        Event::EOF => r matches Ok(out) && out@.len() == 0 && post == pre,
        Event::Injected(_) => r == Err::<Vec<Message<EchoPayload>>, NodeError>(
            NodeError::UnexpectedEvent,
        ) && post == pre,
        Event::Message(m) => if pre.id == usize::MAX {
            r == Err::<Vec<Message<EchoPayload>>, NodeError>(NodeError::IdsExhausted) && post
                == pre
        } else {
            &&& post.id == pre.id + 1
            &&& match m.body.payload {
                EchoPayload::Echo { echo } => r matches Ok(out) && out@.len() == 1 && is_reply_of(
                    out@[0],
                    m,
                    Some(pre.id),
                ) && (out@[0].body.payload matches EchoPayload::EchoOk { echo: e } && e@
                    == echo@),
                EchoPayload::EchoOk { .. } => r matches Ok(out) && out@.len() == 0,
            }
        },
    }
}

impl Node<(), EchoPayload> for EchoNode {
    open spec fn inv(&self) -> bool {
        true
    }

    open spec fn init_spec(init: Init, r: Result<Self, NodeError>) -> bool {
        r matches Ok(n) && n.id == 1
    }

    open spec fn step_spec(
        pre: Self,
        input: Event<EchoPayload>,
        post: Self,
        r: Result<Vec<Message<EchoPayload>>, NodeError>,
    ) -> bool {
        echo_step(pre, input, post, r)
    }

    fn from_init(_state: (), _init: Init) -> (r: Result<Self, NodeError>) {
        Ok(EchoNode { id: 1 })
    }

    fn step(&mut self, input: Event<EchoPayload>) -> (r: Result<
        Vec<Message<EchoPayload>>,
        NodeError,
    >) {
        match input {
            Event::EOF => Ok(Vec::new()),
            Event::Injected(_) => Err(NodeError::UnexpectedEvent),
            Event::Message(m) => {
                if self.id == usize::MAX {
                    return Err(NodeError::IdsExhausted);
                }
                let Message { src, dst, body } = m.into_reply(Some(&mut self.id));
                let Body { id, in_reply_to, payload } = body;
                match payload {
                    EchoPayload::Echo { echo } => {
                        let out = Message {
                            src,
                            dst,
                            body: Body { id, in_reply_to, payload: EchoPayload::EchoOk { echo } },
                        };
                        Ok(vec![out])
                    },
                    EchoPayload::EchoOk { .. } => Ok(Vec::new()),
                }
            },
        }
    }
}

} // verus!
