use zenoh_dissector::message::{network_message_summary, transport_message_summary, NetworkKind,
    TransportKind};

#[test]
fn network_tags() {
    assert_eq!(network_message_summary(&NetworkKind::Oam), "OAM");
    assert_eq!(network_message_summary(&NetworkKind::Push), "Push");
    assert_eq!(network_message_summary(&NetworkKind::Request), "Request");
    assert_eq!(network_message_summary(&NetworkKind::Response), "Response");
    assert_eq!(network_message_summary(&NetworkKind::ResponseFinal), "ResponseFinal");
    assert_eq!(network_message_summary(&NetworkKind::Interest), "Interest");
    assert_eq!(network_message_summary(&NetworkKind::Declare), "Declare");
}

#[test]
fn transport_leaf_tags() {
    assert_eq!(transport_message_summary(&TransportKind::Oam), "OAM");
    assert_eq!(transport_message_summary(&TransportKind::InitSyn), "InitSyn");
    assert_eq!(transport_message_summary(&TransportKind::InitAck), "InitAck");
    assert_eq!(transport_message_summary(&TransportKind::OpenSyn), "OpenSyn");
    assert_eq!(transport_message_summary(&TransportKind::OpenAck), "OpenAck");
    assert_eq!(transport_message_summary(&TransportKind::Close), "Close");
    assert_eq!(transport_message_summary(&TransportKind::KeepAlive), "KeepAlive");
    assert_eq!(transport_message_summary(&TransportKind::Fragment), "Fragment");
    assert_eq!(transport_message_summary(&TransportKind::Join), "Join");
}

#[test]
fn frame_with_push_and_declare() {
    let frame = TransportKind::Frame(vec![NetworkKind::Push, NetworkKind::Declare]);
    assert_eq!(transport_message_summary(&frame), "Frame[Push,Declare]");
}

#[test]
fn empty_frame() {
    let frame = TransportKind::Frame(vec![]);
    assert_eq!(transport_message_summary(&frame), "Frame[]");
}

#[test]
fn frame_with_single_message() {
    let frame = TransportKind::Frame(vec![NetworkKind::Request]);
    assert_eq!(transport_message_summary(&frame), "Frame[Request]");
}

#[test]
fn summaries_are_idempotent() {
    let frame = TransportKind::Frame(vec![
        NetworkKind::Push,
        NetworkKind::Response,
        NetworkKind::Declare,
    ]);
    let first = transport_message_summary(&frame);
    let second = transport_message_summary(&frame);
    assert_eq!(first, second);
    let push = NetworkKind::Push;
    assert_eq!(network_message_summary(&push), network_message_summary(&push));
}
