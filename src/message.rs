use vstd::prelude::*;

verus! {

/// Correlation metadata and the application payload of an envelope.
#[derive(Debug, Clone)]
pub struct Body<Payload> {
    /// The id of this message, if it expects a reply.
    pub id: Option<usize>,
    /// The id of the message this one answers.
    pub in_reply_to: Option<usize>,
    pub payload: Payload,
}

/// One wire-level unit of communication between two nodes.
#[derive(Debug, Clone)]
pub struct Message<Payload> {
    pub src: String,
    pub dst: String,
    pub body: Body<Payload>,
}

/// The one event stream that drives a node.
#[derive(Debug, Clone)]
pub enum Event<Payload, InjectedPayload = ()> {
    Message(Message<Payload>),
    Injected(InjectedPayload),
    EOF,
}

/// What the handshake message tells a node about the cluster.
#[derive(Debug, Clone)]
pub struct Init {
    pub node_id: String,
    pub node_ids: Vec<String>,
}

/// The handshake-only payloads.
#[derive(Debug, Clone)]
pub enum InitPayload {
    Init(Init),
    InitOk,
}

/// `r` answers `m`: source and destination swapped, correlated to `m`'s id,
/// and carrying the id `id`.
pub open spec fn is_reply_of<P, Q>(r: Message<P>, m: Message<Q>, id: Option<usize>) -> bool {
    &&& r.src@ == m.dst@
    &&& r.dst@ == m.src@
    &&& r.body.id == id
    &&& r.body.in_reply_to == m.body.id
}

impl<Payload> Message<Payload> {
    /// Turns a received message into the reply to it. Where a counter is
    /// given, the reply takes its current value as its id and the counter
    /// moves on by one.
    pub fn into_reply(self, id: Option<&mut usize>) -> (r: Self)
        requires
            id matches Some(c) ==> *c < usize::MAX,
        ensures
            r.body.payload == self.body.payload,
            id matches Some(c) ==> is_reply_of(r, self, Some(*c)) && *final(c) == *c + 1,
            id is None ==> is_reply_of(r, self, None),
    {
        let new_id = match id {
            Some(c) => {
                let mid = *c;
                *c = mid + 1;
                Some(mid)
            },
            None => None,
        };
        Message {
            src: self.dst,
            dst: self.src,
            body: Body { id: new_id, in_reply_to: self.body.id, payload: self.body.payload },
        }
    }
}

/// The byte that ends each line of the wire format.
pub const NEWLINE: u8 = 10;

/// Frames an encoded message as one line of the wire format: the bytes and a
/// single newline. Bytes that already hold a newline would span several lines
/// and give `None`.
pub fn frame_line(encoded: &Vec<u8>) -> (r: Option<Vec<u8>>)
    ensures
        encoded@.contains(NEWLINE) <==> r is None,
        r matches Some(line) ==> line@ == encoded@.push(NEWLINE),
{
    let mut line: Vec<u8> = Vec::new();
    let mut i: usize = 0;
    while i < encoded.len()
        invariant
            i <= encoded@.len(),
            line@ == encoded@.subrange(0, i as int),
            forall|j: int| 0 <= j < i ==> encoded@[j] != NEWLINE,
        decreases encoded@.len() - i,
    {
        if encoded[i] == NEWLINE {
            return None;
        }
        line.push(encoded[i]);
        assert(line@ =~= encoded@.subrange(0, i + 1));
        i = i + 1;
    }
    assert(line@ =~= encoded@);
    line.push(NEWLINE);
    Some(line)
}

} // verus!
