use vstd::prelude::*;

use crate::message::{Body, Event, Init, Message, is_reply_of};
use crate::node::{Node, NodeError};
use crate::sets::{difference, entry_keys, find_entry, insert_value, is_first, union_into};

verus! {

broadcast use vstd::seq_lib::group_seq_properties;

/// The payloads of the broadcast service.
#[derive(Debug, Clone)]
pub enum BroadcastPayload {
    Broadcast { message: usize },
    BroadcastOk,
    ReadOk { messages: Vec<usize> },
    Read,
    Topology { topology: Vec<(String, Vec<String>)> },
    TopologyOk,
    Gossip { seen: Vec<usize> },
}

/// The events a broadcast node produces for itself.
#[derive(Debug, Clone, Copy)]
pub enum BroadcastInjected {
    /// Time to send each neighbor what it may be missing.
    Gossip,
}

/// A node of the best-effort broadcast service, spreading values to its
/// neighbors by periodic gossip.
pub struct BroadcastNode {
    /// This node's id.
    pub node: String,
    /// The id that the next reply carries.
    pub id: usize,
    /// Every value this node knows of, each once.
    pub messages: Vec<usize>,
    /// For each peer, the values it is believed to know already.
    pub known: Vec<(String, Vec<usize>)>,
    /// The peers this node gossips to.
    pub neighborhood: Vec<String>,
}

/// The set of values that `n` knows of.
pub open spec fn seen_set(n: BroadcastNode) -> Set<usize> {
    n.messages@.to_set()
}

/// What `n` believes the peer at position `i` of its bookkeeping knows.
pub open spec fn known_set(n: BroadcastNode, i: int) -> Set<usize> {
    n.known@[i].1@.to_set()
}

/// The gossip that `n` sends on a tick to the neighbor at position `j`.
pub open spec fn is_gossip_to(n: BroadcastNode, j: int, g: Message<BroadcastPayload>) -> bool {
    &&& g.src@ == n.node@
    &&& g.dst@ == n.neighborhood@[j]@
    &&& g.body.id is None
    &&& g.body.in_reply_to is None
    &&& g.body.payload matches BroadcastPayload::Gossip { seen } && exists|i: int|
        is_first(entry_keys(n.known@), n.neighborhood@[j]@, i) && seen@.to_set() == seen_set(n).difference(
            known_set(n, i),
        )
}

/// Every neighbor of `n` has bookkeeping.
pub open spec fn neighbors_known(n: BroadcastNode) -> bool {
    forall|j: int|
        0 <= j < n.neighborhood@.len() ==> entry_keys(n.known@).contains(#[trigger] n.neighborhood@[j]@)
}

/// `post` differs from `pre` in its id counter alone, which moved on by one.
pub open spec fn only_id_moved(pre: BroadcastNode, post: BroadcastNode) -> bool {
    &&& post.id == pre.id + 1
    &&& post.node == pre.node
    &&& post.messages == pre.messages
    &&& post.known == pre.known
    &&& post.neighborhood == pre.neighborhood
}

/// `out` is a single reply to `m`, carrying the id `id`.
pub open spec fn single_reply(
    out: Seq<Message<BroadcastPayload>>,
    m: Message<BroadcastPayload>,
    id: usize,
) -> bool {
    out.len() == 1 && is_reply_of(out[0], m, Some(id))
}

/// What handling message `m` does, given that the counter has a fresh id.
pub open spec fn on_message(
    pre: BroadcastNode,
    m: Message<BroadcastPayload>,
    post: BroadcastNode,
    r: Result<Vec<Message<BroadcastPayload>>, NodeError>,
) -> bool {
    match m.body.payload {
        BroadcastPayload::Gossip { seen } => {
            if entry_keys(pre.known@).contains(m.src@) {
                &&& r matches Ok(out) && out@.len() == 0
                &&& post.id == pre.id + 1
                &&& post.node == pre.node
                &&& post.neighborhood == pre.neighborhood
                &&& seen_set(post) == seen_set(pre).union(seen@.to_set())
                &&& post.known@.len() == pre.known@.len()
                &&& entry_keys(post.known@) == entry_keys(pre.known@)
                &&& forall|i: int|
                    0 <= i < pre.known@.len() ==> #[trigger] known_set(post, i) == if is_first(
                        entry_keys(pre.known@),
                        m.src@,
                        i,
                    ) {
                        known_set(pre, i).union(seen@.to_set())
                    } else {
                        known_set(pre, i)
                    }
            } else {
                r == Err::<Vec<Message<BroadcastPayload>>, NodeError>(NodeError::UnknownPeer)
                    && only_id_moved(pre, post)
            }
        },
        BroadcastPayload::Broadcast { message } => {
            &&& r matches Ok(out) && single_reply(out@, m, pre.id) && out@[0].body.payload
                is BroadcastOk
            &&& post.id == pre.id + 1
            &&& post.node == pre.node
            &&& post.known == pre.known
            &&& post.neighborhood == pre.neighborhood
            &&& seen_set(post) == seen_set(pre).insert(message)
        },
        BroadcastPayload::Read => {
            &&& r matches Ok(out) && single_reply(out@, m, pre.id) && (out@[0].body.payload matches BroadcastPayload::ReadOk { messages }
                && messages@.to_set() == seen_set(pre))
            &&& only_id_moved(pre, post)
        },
        BroadcastPayload::Topology { topology } => {
            if entry_keys(topology@).contains(pre.node@) {
                &&& r matches Ok(out) && single_reply(out@, m, pre.id) && out@[0].body.payload
                    is TopologyOk
                &&& post.id == pre.id + 1
                &&& post.node == pre.node
                &&& post.messages == pre.messages
                &&& post.known == pre.known
                &&& exists|i: int|
                    is_first(entry_keys(topology@), pre.node@, i) && post.neighborhood@
                        == topology@[i].1@
            } else {
                r == Err::<Vec<Message<BroadcastPayload>>, NodeError>(NodeError::NoTopology)
                    && only_id_moved(pre, post)
            }
        },
        _ => r matches Ok(out) && out@.len() == 0 && only_id_moved(pre, post),
    }
}

/// What a gossip tick does: one gossip message to each neighbor, in order.
pub open spec fn on_tick(
    pre: BroadcastNode,
    r: Result<Vec<Message<BroadcastPayload>>, NodeError>,
) -> bool {
    if neighbors_known(pre) {
        r matches Ok(out) && out@.len() == pre.neighborhood@.len() && forall|j: int|
            0 <= j < out@.len() ==> is_gossip_to(pre, j, #[trigger] out@[j])
    } else {
        r == Err::<Vec<Message<BroadcastPayload>>, NodeError>(NodeError::UnknownPeer)
    }
}

/// The values a node holds, and each peer's bookkeeping, have no duplicates.
pub open spec fn well_formed(n: BroadcastNode) -> bool {
    &&& n.messages@.no_duplicates()
    &&& forall|i: int| 0 <= i < n.known@.len() ==> (#[trigger] n.known@[i]).1@.no_duplicates()
}

/// What building a node from `init` gives: an empty node with bookkeeping
/// for every peer of the cluster, in the order `init` names them.
pub open spec fn initial(init: Init, n: BroadcastNode) -> bool {
    &&& n.node@ == init.node_id@
    &&& n.id == 1
    &&& n.messages@.len() == 0
    &&& n.neighborhood@.len() == 0
    &&& entry_keys(n.known@) == init.node_ids@.map_values(|s: String| s@)
    &&& forall|i: int| 0 <= i < n.known@.len() ==> (#[trigger] n.known@[i]).1@.len() == 0
}

/// What handling `input` in state `pre` does.
pub open spec fn broadcast_step(
    pre: BroadcastNode,
    input: Event<BroadcastPayload, BroadcastInjected>,
    post: BroadcastNode,
    r: Result<Vec<Message<BroadcastPayload>>, NodeError>,
) -> bool {
    match input {
        Event::EOF => r matches Ok(out) && out@.len() == 0 && post == pre,
        Event::Injected(_) => on_tick(pre, r) && post == pre,
        Event::Message(m) => if pre.id == usize::MAX {
            r == Err::<Vec<Message<BroadcastPayload>>, NodeError>(NodeError::IdsExhausted) && post
                == pre
        } else {
            on_message(pre, m, post, r)
        },
    }
}

impl BroadcastNode {
    /// Handles a message from the network; every message takes a fresh id.
    fn handle_message(&mut self, m: Message<BroadcastPayload>) -> (r: Result<
        Vec<Message<BroadcastPayload>>,
        NodeError,
    >)
        requires
            well_formed(*old(self)),
            old(self).id < usize::MAX,
        ensures
            well_formed(*final(self)),
            on_message(*old(self), m, *final(self), r),
    {
        let ghost pre = *self;
        let reply = m.into_reply(Some(&mut self.id));
        let Message { src, dst, body } = reply;
        let Body { id, in_reply_to, payload } = body;
        match payload {
            BroadcastPayload::Gossip { seen } => {
                match find_entry(&self.known, &dst) {
                    None => Err(NodeError::UnknownPeer),
                    Some(i) => {
                        let (k, mut set) = self.known.remove(i);
                        assert(pre.known@[i as int].1@.no_duplicates());
                        union_into(&mut set, &seen);
                        self.known.insert(i, (k, set));
                        assert(self.known@ =~= pre.known@.update(i as int, (k, set)));
                        assert(entry_keys(self.known@) =~= entry_keys(pre.known@));
                        union_into(&mut self.messages, &seen);
                        Ok(Vec::new())
                    },
                }
            },
            BroadcastPayload::Broadcast { message } => {
                let out = Message {
                    src,
                    dst,
                    body: Body { id, in_reply_to, payload: BroadcastPayload::BroadcastOk },
                };
                insert_value(&mut self.messages, message);
                Ok(vec![out])
            },
            BroadcastPayload::Read => {
                let messages = self.messages.clone();
                let out = Message {
                    src,
                    dst,
                    body: Body { id, in_reply_to, payload: BroadcastPayload::ReadOk { messages } },
                };
                Ok(vec![out])
            },
            BroadcastPayload::Topology { mut topology } => {
                match find_entry(&topology, &self.node) {
                    None => Err(NodeError::NoTopology),
                    Some(i) => {
                        let (_, ns) = topology.remove(i);
                        self.neighborhood = ns;
                        let out = Message {
                            src,
                            dst,
                            body: Body { id, in_reply_to, payload: BroadcastPayload::TopologyOk },
                        };
                        Ok(vec![out])
                    },
                }
            },
            _ => Ok(Vec::new()),
        }
    }

    /// Sends each neighbor the values it is not yet believed to know.
    fn gossip(&self) -> (r: Result<Vec<Message<BroadcastPayload>>, NodeError>)
        ensures
            on_tick(*self, r),
    {
        let mut out: Vec<Message<BroadcastPayload>> = Vec::new();
        let mut j: usize = 0;
        while j < self.neighborhood.len()
            invariant
                j <= self.neighborhood@.len(),
                out@.len() == j,
                forall|k: int| 0 <= k < j ==> entry_keys(self.known@).contains(#[trigger] self.neighborhood@[k]@),
                forall|k: int| 0 <= k < j ==> is_gossip_to(*self, k, #[trigger] out@[k]),
            decreases self.neighborhood@.len() - j,
        {
            let n = &self.neighborhood[j];
            match find_entry(&self.known, n) {
                None => {
                    return Err(NodeError::UnknownPeer);
                },
                Some(i) => {
                    let seen = difference(&self.messages, &self.known[i].1);
                    let g = Message {
                        src: self.node.clone(),
                        dst: n.clone(),
                        body: Body {
                            id: None,
                            in_reply_to: None,
                            payload: BroadcastPayload::Gossip { seen },
                        },
                    };
                    assert(is_gossip_to(*self, j as int, g));
                    out.push(g);
                },
            }
            j = j + 1;
        }
        Ok(out)
    }
}

impl Node<(), BroadcastPayload, BroadcastInjected> for BroadcastNode {
    open spec fn inv(&self) -> bool {
        well_formed(*self)
    }

    open spec fn init_spec(init: Init, r: Result<Self, NodeError>) -> bool {
        r matches Ok(n) && initial(init, n)
    }

    open spec fn step_spec(
        pre: Self,
        input: Event<BroadcastPayload, BroadcastInjected>,
        post: Self,
        r: Result<Vec<Message<BroadcastPayload>>, NodeError>,
    ) -> bool {
        broadcast_step(pre, input, post, r)
    }

    fn from_init(_state: (), init: Init) -> (r: Result<Self, NodeError>) {
        let mut known: Vec<(String, Vec<usize>)> = Vec::new();
        let mut i: usize = 0;
        while i < init.node_ids.len()
            invariant
                i <= init.node_ids@.len(),
                known@.len() == i,
                forall|k: int| 0 <= k < i ==> (#[trigger] known@[k]).0@ == init.node_ids@[k]@,
                forall|k: int| 0 <= k < i ==> (#[trigger] known@[k]).1@.len() == 0,
            decreases init.node_ids@.len() - i,
        {
            known.push((init.node_ids[i].clone(), Vec::new()));
            i = i + 1;
        }
        assert(entry_keys(known@) =~= init.node_ids@.map_values(|s: String| s@));
        Ok(BroadcastNode {
            node: init.node_id,
            id: 1,
            messages: Vec::new(),
            known,
            neighborhood: Vec::new(),
        })
    }

    fn step(&mut self, input: Event<BroadcastPayload, BroadcastInjected>) -> (r: Result<
        Vec<Message<BroadcastPayload>>,
        NodeError,
    >) {
        match input {
            Event::EOF => Ok(Vec::new()),
            Event::Injected(_) => self.gossip(),
            Event::Message(m) => {
                if self.id == usize::MAX {
                    Err(NodeError::IdsExhausted)
                } else {
                    self.handle_message(m)
                }
            },
        }
    }
}

/// A run of a node: `states[i]` handles `events[i]`, giving `results[i]` and
/// leading to `states[i + 1]`.
pub open spec fn is_run(
    states: Seq<BroadcastNode>,
    events: Seq<Event<BroadcastPayload, BroadcastInjected>>,
    results: Seq<Result<Vec<Message<BroadcastPayload>>, NodeError>>,
) -> bool {
    &&& states.len() == events.len() + 1
    &&& results.len() == events.len()
    &&& forall|i: int|
        0 <= i < events.len() ==> #[trigger] broadcast_step(
            states[i],
            events[i],
            states[i + 1],
            results[i],
        )
}

/// The id that handling `ev` gave to a reply, or -1 where it sent none.
pub open spec fn issued_id(
    ev: Event<BroadcastPayload, BroadcastInjected>,
    r: Result<Vec<Message<BroadcastPayload>>, NodeError>,
) -> int {
    if ev is Message && r is Ok && r->Ok_0@.len() > 0 && r->Ok_0@[0].body.id is Some {
        r->Ok_0@[0].body.id->Some_0 as int
    } else {
        -1
    }
}

/// No event makes a node forget a value, and the id counter never goes back.
pub proof fn lemma_step_keeps_values(
    pre: BroadcastNode,
    ev: Event<BroadcastPayload, BroadcastInjected>,
    post: BroadcastNode,
    r: Result<Vec<Message<BroadcastPayload>>, NodeError>,
)
    requires
        broadcast_step(pre, ev, post, r),
    ensures
        seen_set(pre).subset_of(seen_set(post)),
        pre.id <= post.id,
        ev is Message && r is Ok && r->Ok_0@.len() > 0 ==> r->Ok_0@[0].body.id == Some(pre.id)
            && r->Ok_0@[0].body.in_reply_to == ev->Message_0.body.id && post.id == pre.id + 1,
{
}

/// Along any run, the values a node knows only grow, and the ids of its
/// replies strictly increase.
pub proof fn lemma_run_monotone(
    states: Seq<BroadcastNode>,
    events: Seq<Event<BroadcastPayload, BroadcastInjected>>,
    results: Seq<Result<Vec<Message<BroadcastPayload>>, NodeError>>,
    i: int,
    j: int,
)
    requires
        is_run(states, events, results),
        0 <= i <= j < states.len(),
    ensures
        seen_set(states[i]).subset_of(seen_set(states[j])),
        states[i].id <= states[j].id,
        i < j && issued_id(events[i], results[i]) >= 0 ==> issued_id(events[i], results[i])
            < states[j].id,
    decreases j - i,
{
    if i < j {
        lemma_step_keeps_values(states[i], events[i], states[i + 1], results[i]);
        lemma_run_monotone(states, events, results, i + 1, j);
    }
}

/// Along any run, a reply carries a fresh id, above every id issued before.
pub proof fn lemma_run_fresh_ids(
    states: Seq<BroadcastNode>,
    events: Seq<Event<BroadcastPayload, BroadcastInjected>>,
    results: Seq<Result<Vec<Message<BroadcastPayload>>, NodeError>>,
    i: int,
    j: int,
)
    requires
        is_run(states, events, results),
        0 <= i < j < events.len(),
        issued_id(events[i], results[i]) >= 0,
        issued_id(events[j], results[j]) >= 0,
    ensures
        issued_id(events[i], results[i]) < issued_id(events[j], results[j]),
{
    lemma_run_monotone(states, events, results, i, j);
    lemma_step_keeps_values(states[j], events[j], states[j + 1], results[j]);
}

/// A read that follows an accepted broadcast of `v` reports `v`.
pub proof fn lemma_read_after_broadcast(
    s0: BroadcastNode,
    m1: Message<BroadcastPayload>,
    s1: BroadcastNode,
    r1: Result<Vec<Message<BroadcastPayload>>, NodeError>,
    m2: Message<BroadcastPayload>,
    s2: BroadcastNode,
    r2: Result<Vec<Message<BroadcastPayload>>, NodeError>,
    v: usize,
)
    requires
        m1.body.payload == (BroadcastPayload::Broadcast { message: v }),
        broadcast_step(s0, Event::Message(m1), s1, r1),
        r1 is Ok,
        m2.body.payload is Read,
        broadcast_step(s1, Event::Message(m2), s2, r2),
        r2 is Ok,
    ensures
        r2->Ok_0@.len() == 1,
        r2->Ok_0@[0].body.payload matches BroadcastPayload::ReadOk { messages } && messages@.contains(
            v,
        ),
{
    assert(seen_set(s1).contains(v));
}

/// Handling the same gossip a second time changes no value the node knows.
pub proof fn lemma_gossip_idempotent(
    s0: BroadcastNode,
    m: Message<BroadcastPayload>,
    s1: BroadcastNode,
    r1: Result<Vec<Message<BroadcastPayload>>, NodeError>,
    s2: BroadcastNode,
    r2: Result<Vec<Message<BroadcastPayload>>, NodeError>,
)
    requires
        m.body.payload is Gossip,
        broadcast_step(s0, Event::Message(m), s1, r1),
        broadcast_step(s1, Event::Message(m), s2, r2),
    ensures
        seen_set(s2) == seen_set(s1),
{
    if s1.id < usize::MAX && entry_keys(s1.known@).contains(m.src@) {
        assert(seen_set(s1).union(m.body.payload->Gossip_seen@.to_set()) =~= seen_set(s1));
    }
}

/// Whether the step succeeded and sent a gossip message.
pub open spec fn has_gossip(r: Result<Vec<Message<BroadcastPayload>>, NodeError>) -> bool {
    r is Ok && exists|k: int|
        0 <= k < r->Ok_0@.len() && (#[trigger] r->Ok_0@[k]).body.payload is Gossip
}

/// A node without neighbors sends no gossip, whatever the event, and only a
/// topology message can give it neighbors.
pub proof fn lemma_isolated_node_is_silent(
    pre: BroadcastNode,
    ev: Event<BroadcastPayload, BroadcastInjected>,
    post: BroadcastNode,
    r: Result<Vec<Message<BroadcastPayload>>, NodeError>,
)
    requires
        pre.neighborhood@.len() == 0,
        broadcast_step(pre, ev, post, r),
    ensures
        !has_gossip(r),
        !(ev is Message && ev->Message_0.body.payload is Topology) ==> post.neighborhood@.len() == 0,
{
}

/// A topology message that names no neighbors for this node fails the step,
/// and nothing is sent.
pub proof fn lemma_missing_topology_fails(
    pre: BroadcastNode,
    m: Message<BroadcastPayload>,
    post: BroadcastNode,
    r: Result<Vec<Message<BroadcastPayload>>, NodeError>,
)
    requires
        m.body.payload matches BroadcastPayload::Topology { topology } && !entry_keys(
            topology@,
        ).contains(pre.node@),
        broadcast_step(pre, Event::Message(m), post, r),
    ensures
        r is Err,
        pre.id < usize::MAX ==> r == Err::<Vec<Message<BroadcastPayload>>, NodeError>(
            NodeError::NoTopology,
        ),
{
}

/// Along a run without topology messages, a node that starts without
/// neighbors keeps none and sends no gossip, however many ticks come.
pub proof fn lemma_isolated_run_is_silent(
    states: Seq<BroadcastNode>,
    events: Seq<Event<BroadcastPayload, BroadcastInjected>>,
    results: Seq<Result<Vec<Message<BroadcastPayload>>, NodeError>>,
    i: int,
)
    requires
        is_run(states, events, results),
        states[0].neighborhood@.len() == 0,
        forall|k: int|
            0 <= k < events.len() ==> !(#[trigger] events[k] is Message && events[k]->Message_0.body.payload is Topology),
        0 <= i < events.len(),
    ensures
        states[i].neighborhood@.len() == 0,
        !has_gossip(results[i]),
    decreases i,
{
    if i > 0 {
        let j = i - 1;
        lemma_isolated_run_is_silent(states, events, results, j);
        lemma_isolated_node_is_silent(states[j], events[j], states[j + 1], results[j]);
    }
    lemma_isolated_node_is_silent(states[i], events[i], states[i + 1], results[i]);
}

} // verus!
