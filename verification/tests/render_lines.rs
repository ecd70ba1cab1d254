use buschat::render::{
    ack_line, chat_endpoint, context_hint, format_inbound, prompt_for, public_chat_endpoint,
};

#[test]
fn prompt_without_context() {
    assert_eq!(prompt_for(&None), "=> ");
}

#[test]
fn prompt_with_context() {
    assert_eq!(prompt_for(&Some("peer1".to_string())), "[peer1] => ");
}

#[test]
fn inbound_line_exact() {
    assert_eq!(format_inbound("alice", "hi"), "[from: alice]: hi");
}

#[test]
fn inbound_line_empty_parts() {
    assert_eq!(format_inbound("", ""), "[from: ]: ");
}

#[test]
fn endpoint_for_target() {
    assert_eq!(chat_endpoint("peer1"), "/net/peer1/chat");
}

#[test]
fn inbound_endpoint() {
    assert_eq!(public_chat_endpoint(), "/public/chat");
}

#[test]
fn ack_on_success() {
    assert_eq!(ack_line(&Ok(())), "send done!");
}

#[test]
fn ack_on_failure_carries_detail() {
    assert_eq!(ack_line(&Err("no route to peerX".to_string())), "send error: no route to peerX");
}

#[test]
fn hint_text() {
    assert_eq!(context_hint(), "setup context, for eg. =0x889ff52ece3d5368051f4f8216650a7843f8926b");
}
