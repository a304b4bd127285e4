use naruto::{Body, EchoNode, EchoPayload, Event, Init, Message, Node, NodeError, UniqueNode,
    UniquePayload};

fn msg<P>(src: &str, dst: &str, id: Option<usize>, payload: P) -> Message<P> {
    Message {
        src: src.to_string(),
        dst: dst.to_string(),
        body: Body { id, in_reply_to: None, payload },
    }
}

fn init(node: &str) -> Init {
    Init { node_id: node.to_string(), node_ids: vec![node.to_string()] }
}

#[test]
fn echo_answers_with_same_text() {
    let mut n = EchoNode::from_init((), init("n1")).unwrap();
    let out = n
        .step(Event::Message(msg("c1", "n1", Some(4), EchoPayload::Echo { echo: "abc".to_string() })))
        .unwrap();
    assert_eq!(out.len(), 1);
    assert_eq!(out[0].src, "n1");
    assert_eq!(out[0].dst, "c1");
    assert_eq!(out[0].body.id, Some(1));
    assert_eq!(out[0].body.in_reply_to, Some(4));
    match &out[0].body.payload {
        EchoPayload::EchoOk { echo } => assert_eq!(echo, "abc"),
        _ => panic!("expected echo_ok"),
    }
    assert_eq!(n.id, 2);
}

#[test]
fn echo_ignores_echo_ok() {
    let mut n = EchoNode::from_init((), init("n1")).unwrap();
    let out = n
        .step(Event::Message(msg("c1", "n1", Some(4), EchoPayload::EchoOk { echo: "x".to_string() })))
        .unwrap();
    assert!(out.is_empty());
    assert_eq!(n.id, 2);
}

#[test]
fn echo_refuses_when_ids_run_out() {
    let mut n = EchoNode { id: usize::MAX };
    let r = n.step(Event::Message(msg("c1", "n1", None, EchoPayload::Echo { echo: String::new() })));
    assert!(matches!(r, Err(NodeError::IdsExhausted)));
    assert_eq!(n.id, usize::MAX);
}

#[test]
fn unique_ids_join_node_and_counter() {
    let mut n = UniqueNode::from_init((), init("n3")).unwrap();
    let out = n.step(Event::Message(msg("c1", "n3", Some(1), UniquePayload::Generate))).unwrap();
    match &out[0].body.payload {
        UniquePayload::GenerateOk { guid } => assert_eq!(guid, "n3-1"),
        _ => panic!("expected generate_ok"),
    }
    let out = n.step(Event::Message(msg("c1", "n3", Some(2), UniquePayload::Generate))).unwrap();
    match &out[0].body.payload {
        UniquePayload::GenerateOk { guid } => assert_eq!(guid, "n3-2"),
        _ => panic!("expected generate_ok"),
    }
    assert_eq!(out[0].body.in_reply_to, Some(2));
}

#[test]
fn unique_id_uses_decimal_digits() {
    let mut n = UniqueNode { node: "n7".to_string(), id: 1205 };
    let out = n.step(Event::Message(msg("c1", "n7", None, UniquePayload::Generate))).unwrap();
    match &out[0].body.payload {
        UniquePayload::GenerateOk { guid } => assert_eq!(guid, "n7-1205"),
        _ => panic!("expected generate_ok"),
    }
    assert_eq!(out[0].body.id, Some(1205));
}

#[test]
fn unique_node_refuses_injected_events() {
    let mut n = UniqueNode::from_init((), init("n1")).unwrap();
    assert!(matches!(n.step(Event::Injected(())), Err(NodeError::UnexpectedEvent)));
    assert!(n.step(Event::EOF).unwrap().is_empty());
}
