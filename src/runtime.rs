use vstd::prelude::*;

use crate::message::{Body, Event, InitPayload, Message, is_reply_of};
use crate::node::{Node, NodeError};

verus! {

/// Why the runtime stops the process.
#[derive(Debug, Clone, Copy, PartialEq, Eq, Structural)]
pub enum RuntimeError {
    /// The input ended before the handshake message came.
    NoInit,
    /// The first message was not the handshake.
    NotInit,
    /// The node failed on an event.
    Node(NodeError),
}

/// `r` is the handshake reply to `m`: `init_ok`, id 0, answering `m`.
pub open spec fn is_init_ok(r: Message<InitPayload>, m: Message<InitPayload>) -> bool {
    &&& is_reply_of(r, m, Some(0))
    &&& r.body.payload is InitOk
}

/// Performs the handshake on the first message read, if any: builds the node
/// from it and gives the `init_ok` reply, which is the first line to write.
pub fn handshake<S, P, IP, N: Node<S, P, IP>>(state: S, first: Option<Message<InitPayload>>) -> (r:
    Result<(N, Message<InitPayload>), RuntimeError>)
    ensures
        first is None ==> r == Err::<(N, Message<InitPayload>), RuntimeError>(RuntimeError::NoInit),
        first matches Some(m) ==> match m.body.payload {
            InitPayload::Init(init) => match r {
                Ok((n, reply)) => is_init_ok(reply, m) && n.inv() && N::init_spec(init, Ok(n)),
                Err(e) => exists|ne: NodeError|
                    e == RuntimeError::Node(ne) && N::init_spec(init, Err(ne)),
            },
            InitPayload::InitOk => r == Err::<(N, Message<InitPayload>), RuntimeError>(
                RuntimeError::NotInit,
            ),
        },
{
    match first {
        None => Err(RuntimeError::NoInit),
        Some(m) => {
            let Message { src, dst, body } = m;
            match body.payload {
                InitPayload::Init(init) => {
                    match N::from_init(state, init) {
                        Ok(n) => {
                            let reply = Message {
                                src: dst,
                                dst: src,
                                body: Body {
                                    id: Some(0),
                                    in_reply_to: body.id,
                                    payload: InitPayload::InitOk,
                                },
                            };
                            Ok((n, reply))
                        },
                        Err(e) => Err(RuntimeError::Node(e)),
                    }
                },
                InitPayload::InitOk => Err(RuntimeError::NotInit),
            }
        },
    }
}

/// What the loop does after an event: go on, or stop at the end of input.
#[derive(Debug, Clone, Copy, PartialEq, Eq, Structural)]
pub enum Flow {
    Continue,
    Stop,
}

/// Hands one event of the stream to the node; gives the messages to write
/// and whether the loop ends here, which it does at the end of input.
pub fn dispatch<S, P, IP, N: Node<S, P, IP>>(node: &mut N, input: Event<P, IP>) -> (r: Result<
    (Vec<Message<P>>, Flow),
    RuntimeError,
>)
    requires
        old(node).inv(),
    ensures
        final(node).inv(),
        match r {
            Ok((out, flow)) => N::step_spec(*old(node), input, *final(node), Ok(out)) && (flow
                == Flow::Stop <==> input is EOF),
            Err(e) => exists|ne: NodeError|
                e == RuntimeError::Node(ne) && N::step_spec(
                    *old(node),
                    input,
                    *final(node),
                    Err(ne),
                ),
        },
{
    let stop = match &input {
        Event::EOF => true,
        _ => false,
    };
    match node.step(input) {
        Ok(out) => Ok(
            (
                out,
                if stop {
                    Flow::Stop
                } else {
                    Flow::Continue
                },
            ),
        ),
        Err(e) => Err(RuntimeError::Node(e)),
    }
}

} // verus!
