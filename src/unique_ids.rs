use vstd::prelude::*;

use crate::message::{Body, Event, Init, Message, is_reply_of};
use crate::node::{Node, NodeError};

verus! {

/// The characters of the decimal digits, in order.
pub open spec fn digit_chars() -> Seq<char> {
    seq!['0', '1', '2', '3', '4', '5', '6', '7', '8', '9']
}

/// The decimal form of `n`, without sign or leading zeros.
pub open spec fn decimal(n: nat) -> Seq<char>
    decreases n,
{
    if n < 10 {
        seq![digit_chars()[n as int]]
    } else {
        decimal(n / 10).push(digit_chars()[(n % 10) as int])
    }
}

/// The id that node `node` hands out for counter value `id`.
pub open spec fn guid_spec(node: Seq<char>, id: nat) -> Seq<char> {
    node + seq!['-'] + decimal(id)
}

/// Relies on `format!` with `Display` of `String` and `usize`: the text of
/// `node`, a dash, and `id` in decimal.
#[verifier::external_body]
fn guid(node: &String, id: usize) -> (r: String)
    ensures
        r@ == guid_spec(node@, id as nat),
{
    format!("{}-{}", node, id)
}

/// The payloads of the unique-id service.
#[derive(Debug, Clone)]
pub enum UniquePayload {
    Generate,
    GenerateOk { guid: String },
}

/// A node that hands out ids unique across the cluster: its own id and the
/// value of its counter.
pub struct UniqueNode {
    /// This node's id.
    pub node: String,
    /// The id that the next reply carries.
    pub id: usize,
}

/// What handling `input` in state `pre` does.
pub open spec fn unique_step(
    pre: UniqueNode,
    input: Event<UniquePayload>,
    post: UniqueNode,
    r: Result<Vec<Message<UniquePayload>>, NodeError>,
) -> bool {
    match input {
        Event::EOF => r matches Ok(out) && out@.len() == 0 && post == pre,
        Event::Injected(_) => r == Err::<Vec<Message<UniquePayload>>, NodeError>(
            NodeError::UnexpectedEvent,
        ) && post == pre,
        Event::Message(m) => if pre.id == usize::MAX {
            r == Err::<Vec<Message<UniquePayload>>, NodeError>(NodeError::IdsExhausted) && post
                == pre
        } else {
            &&& post.id == pre.id + 1
            &&& post.node == pre.node
            &&& match m.body.payload {
                UniquePayload::Generate => r matches Ok(out) && out@.len() == 1 && is_reply_of(
                    out@[0],
                    m,
                    Some(pre.id),
                ) && (out@[0].body.payload matches UniquePayload::GenerateOk { guid: g } && g@
                    == guid_spec(pre.node@, pre.id as nat)),
                UniquePayload::GenerateOk { .. } => r matches Ok(out) && out@.len() == 0,
            }
        },
    }
}

impl Node<(), UniquePayload> for UniqueNode {
    open spec fn inv(&self) -> bool {
        true
    }

    open spec fn init_spec(init: Init, r: Result<Self, NodeError>) -> bool {
        r matches Ok(n) && n.id == 1 && n.node@ == init.node_id@
    }

    open spec fn step_spec(
        pre: Self,
        input: Event<UniquePayload>,
        post: Self,
        r: Result<Vec<Message<UniquePayload>>, NodeError>,
    ) -> bool {
        unique_step(pre, input, post, r)
    }

    fn from_init(_state: (), init: Init) -> (r: Result<Self, NodeError>) {
        Ok(UniqueNode { node: init.node_id, id: 1 })
    }

    fn step(&mut self, input: Event<UniquePayload>) -> (r: Result<
        Vec<Message<UniquePayload>>,
        NodeError,
    >) {
        match input {
            Event::EOF => Ok(Vec::new()),
            Event::Injected(_) => Err(NodeError::UnexpectedEvent),
            Event::Message(m) => {
                if self.id == usize::MAX {
                    return Err(NodeError::IdsExhausted);
                }
                let g = guid(&self.node, self.id);
                let Message { src, dst, body } = m.into_reply(Some(&mut self.id));
                let Body { id, in_reply_to, payload } = body;
                match payload {
                    UniquePayload::Generate => {
                        let out = Message {
                            src,
                            dst,
                            body: Body {
                                id,
                                in_reply_to,
                                payload: UniquePayload::GenerateOk { guid: g },
                            },
                        };
                        Ok(vec![out])
                    },
                    UniquePayload::GenerateOk { .. } => Ok(Vec::new()),
                }
            },
        }
    }
}

} // verus!
