//! Decoded protocol message kinds and their display summaries.
//!
//! The wire grammar itself is decoded elsewhere; summarization only reads the
//! discriminant of each decoded unit, and for a frame the discriminants of the
//! network messages it carries, so those discriminants are what these types
//! hold.

use vstd::prelude::*;

use crate::text::{join_all, spec_join};

verus! {

/// The body kind of a decoded network message carried inside a frame.
#[derive(Clone, Copy, Debug, PartialEq, Eq)]
pub enum NetworkKind {
    Oam,
    Push,
    Request,
    Response,
    ResponseFinal,
    Interest,
    Declare,
}

/// The body kind of a decoded transport message; only `Frame` nests content,
/// the kinds of the network messages it carries, in payload order.
#[derive(Clone, Debug, PartialEq, Eq)]
pub enum TransportKind {
    Oam,
    InitSyn,
    InitAck,
    OpenSyn,
    OpenAck,
    Close,
    KeepAlive,
    Frame(Vec<NetworkKind>),
    Fragment,
    Join,
}

/// The tag name of a network message kind.
pub open spec fn spec_network_summary(kind: NetworkKind) -> Seq<char> {
    match kind {
        NetworkKind::Oam => "OAM"@,
        NetworkKind::Push => "Push"@,
        NetworkKind::Request => "Request"@,
        NetworkKind::Response => "Response"@,
        NetworkKind::ResponseFinal => "ResponseFinal"@,
        NetworkKind::Interest => "Interest"@,
        NetworkKind::Declare => "Declare"@,
    }
}

/// The tag name of a transport message kind; a frame's payload kinds are
/// joined with plain commas inside `Frame[...]`.
pub open spec fn spec_transport_summary(kind: TransportKind) -> Seq<char> {
    match kind {
        TransportKind::Oam => "OAM"@,
        TransportKind::InitSyn => "InitSyn"@,
        TransportKind::InitAck => "InitAck"@,
        TransportKind::OpenSyn => "OpenSyn"@,
        TransportKind::OpenAck => "OpenAck"@,
        TransportKind::Close => "Close"@,
        TransportKind::KeepAlive => "KeepAlive"@,
        TransportKind::Frame(payload) => "Frame["@ + spec_join(
            payload@.map_values(|k: NetworkKind| spec_network_summary(k)),
            ","@,
        ) + "]"@,
        TransportKind::Fragment => "Fragment"@,
        TransportKind::Join => "Join"@,
    }
}

/// The summary of one network message: its tag name.
pub fn network_message_summary(msg: &NetworkKind) -> (r: String)
    ensures
        r@ == spec_network_summary(*msg),
{
    match msg {
        NetworkKind::Oam => String::from_str("OAM"),
        NetworkKind::Push => String::from_str("Push"),
        NetworkKind::Request => String::from_str("Request"),
        NetworkKind::Response => String::from_str("Response"),
        NetworkKind::ResponseFinal => String::from_str("ResponseFinal"),
        NetworkKind::Interest => String::from_str("Interest"),
        NetworkKind::Declare => String::from_str("Declare"),
    }
}

/// The summary of one transport message: its tag name, with the summaries of
/// a frame's payload nested in payload order.
pub fn transport_message_summary(msg: &TransportKind) -> (r: String)
    ensures
        r@ == spec_transport_summary(*msg),
{
    match msg {
        TransportKind::Oam => String::from_str("OAM"),
        TransportKind::InitSyn => String::from_str("InitSyn"),
        TransportKind::InitAck => String::from_str("InitAck"),
        TransportKind::OpenSyn => String::from_str("OpenSyn"),
        TransportKind::OpenAck => String::from_str("OpenAck"),
        TransportKind::Close => String::from_str("Close"),
        TransportKind::KeepAlive => String::from_str("KeepAlive"),
        TransportKind::Frame(payload) => {
            let ghost tags = payload@.map_values(|k: NetworkKind| spec_network_summary(k));
            let mut parts: Vec<String> = Vec::new();
            let mut i: usize = 0;
            while i < payload.len()
                invariant
                    i <= payload.len(),
                    tags == payload@.map_values(|k: NetworkKind| spec_network_summary(k)),
                    parts@.map_values(|s: String| s@) == tags.take(i as int),
                decreases payload.len() - i,
            {
                let ghost prev = parts@.map_values(|s: String| s@);
                parts.push(network_message_summary(&payload[i]));
                proof {
                    assert(parts@.map_values(|s: String| s@) =~= prev.push(tags[i as int]));
                    assert(tags.take(i + 1) =~= tags.take(i as int).push(tags[i as int]));
                }
                i += 1;
            }
            proof {
                assert(tags.take(payload@.len() as int) =~= tags);
            }
            let mut r = String::from_str("Frame[");
            r.append(join_all(&parts, ",").as_str());
            r.append("]");
            r
        },
        TransportKind::Fragment => String::from_str("Fragment"),
        TransportKind::Join => String::from_str("Join"),
    }
}

} // verus!
