//! A runtime for nodes of a simulated distributed system, and the services
//! built on it. Nodes exchange messages (envelopes) that correlate replies to
//! requests; each node is a state machine stepped once per event, handing back
//! the messages to send. The broadcast service spreads values over a fixed
//! neighbor topology by periodic anti-entropy gossip.


pub mod broadcast;
pub mod echo;
pub mod message;
pub mod node;
pub mod runtime;
pub mod sets;
pub mod unique_ids;

pub use broadcast::{BroadcastInjected, BroadcastNode, BroadcastPayload};
pub use echo::{EchoNode, EchoPayload};
pub use message::{frame_line, Body, Event, Init, InitPayload, Message};
pub use node::{Node, NodeError};
pub use runtime::{dispatch, handshake, Flow, RuntimeError};
pub use unique_ids::{UniqueNode, UniquePayload};
