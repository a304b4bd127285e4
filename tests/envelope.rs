use naruto::{dispatch, frame_line, handshake, Body, BroadcastNode, BroadcastPayload, EchoNode,
    EchoPayload, Event, Flow, Init, InitPayload, Message, NodeError, RuntimeError};

fn msg<P>(src: &str, dst: &str, id: Option<usize>, payload: P) -> Message<P> {
    Message {
        src: src.to_string(),
        dst: dst.to_string(),
        body: Body { id, in_reply_to: None, payload },
    }
}

fn init_msg(node: &str, nodes: &[&str]) -> Message<InitPayload> {
    msg(
        "c0",
        node,
        Some(7),
        InitPayload::Init(Init {
            node_id: node.to_string(),
            node_ids: nodes.iter().map(|s| s.to_string()).collect(),
        }),
    )
}

#[test]
fn into_reply_with_counter() {
    let m = msg("c1", "n1", Some(5), 99u32);
    let mut counter: usize = 3;
    let r = m.into_reply(Some(&mut counter));
    assert_eq!(r.src, "n1");
    assert_eq!(r.dst, "c1");
    assert_eq!(r.body.id, Some(3));
    assert_eq!(r.body.in_reply_to, Some(5));
    assert_eq!(r.body.payload, 99);
    assert_eq!(counter, 4);
}

#[test]
fn into_reply_without_counter() {
    let m = msg("c1", "n1", None, 1u32);
    let r = m.into_reply(None);
    assert_eq!(r.src, "n1");
    assert_eq!(r.dst, "c1");
    assert_eq!(r.body.id, None);
    assert_eq!(r.body.in_reply_to, None);
}

#[test]
fn handshake_replies_init_ok_with_id_zero() {
    let r = handshake::<(), BroadcastPayload, naruto::BroadcastInjected, BroadcastNode>(
        (),
        Some(init_msg("n1", &["n1", "n2"])),
    );
    let (node, reply) = r.unwrap();
    assert_eq!(reply.src, "n1");
    assert_eq!(reply.dst, "c0");
    assert_eq!(reply.body.id, Some(0));
    assert_eq!(reply.body.in_reply_to, Some(7));
    assert!(matches!(reply.body.payload, InitPayload::InitOk));
    assert_eq!(node.node, "n1");
    assert_eq!(node.id, 1);
    assert_eq!(node.known.len(), 2);
}

#[test]
fn handshake_without_input_fails() {
    let r = handshake::<(), EchoPayload, (), EchoNode>((), None);
    assert!(matches!(r, Err(RuntimeError::NoInit)));
}

#[test]
fn handshake_rejects_other_first_message() {
    let first = msg("c0", "n1", Some(1), InitPayload::InitOk);
    let r = handshake::<(), EchoPayload, (), EchoNode>((), Some(first));
    assert!(matches!(r, Err(RuntimeError::NotInit)));
}

#[test]
fn dispatch_stops_at_end_of_input() {
    let (mut node, _) =
        handshake::<(), EchoPayload, (), EchoNode>((), Some(init_msg("n1", &["n1"]))).unwrap();
    let echo = msg("c1", "n1", Some(1), EchoPayload::Echo { echo: "hi".to_string() });
    let (out, flow) = dispatch(&mut node, Event::Message(echo)).unwrap();
    assert_eq!(flow, Flow::Continue);
    assert_eq!(out.len(), 1);
    let (out, flow) = dispatch(&mut node, Event::EOF).unwrap();
    assert_eq!(flow, Flow::Stop);
    assert!(out.is_empty());
}

#[test]
fn dispatch_reports_node_failure() {
    let (mut node, _) =
        handshake::<(), EchoPayload, (), EchoNode>((), Some(init_msg("n1", &["n1"]))).unwrap();
    let r = dispatch(&mut node, Event::Injected(()));
    assert!(matches!(r, Err(RuntimeError::Node(NodeError::UnexpectedEvent))));
}

#[test]
fn frame_line_appends_one_newline() {
    let line = frame_line(&b"{\"a\":1}".to_vec()).unwrap();
    assert_eq!(line, b"{\"a\":1}\n".to_vec());
    assert_eq!(frame_line(&Vec::new()).unwrap(), b"\n".to_vec());
}

#[test]
fn frame_line_refuses_embedded_newline() {
    assert!(frame_line(&b"{\n}".to_vec()).is_none());
}
