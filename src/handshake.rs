use vstd::prelude::*;
use crate::frame::{Frame, FrameModel};
use crate::session::{Phase, Role, Session};

verus! {

/// The one sub-protocol both ends speak.
pub open spec fn required_protocol() -> Seq<char> {
    "rust-websocket"@
}

/// The text the server sends as soon as a connection is accepted.
pub open spec fn greeting_text() -> Seq<char> {
    "Hello World!"@
}

/// Some offered sub-protocol is `protocol`.
pub open spec fn offers(offered: Seq<String>, protocol: Seq<char>) -> bool {
    exists|i: int| 0 <= i < offered.len() && (#[trigger] offered[i])@ == protocol
}

/// The name of the required sub-protocol, as a client requests it.
pub fn protocol_name() -> (r: String)
    ensures
        r@ == required_protocol(),
{
    "rust-websocket".to_owned()
}

/// Whether a client's upgrade request offers the required sub-protocol.
pub fn offers_required(offered: &Vec<String>) -> (r: bool)
    ensures
        r == offers(offered@, required_protocol()),
{
    let required = protocol_name();
    let mut i: usize = 0;
    while i < offered.len()
        invariant
            i <= offered@.len(),
            required@ == required_protocol(),
            forall|j: int| 0 <= j < i ==> (#[trigger] offered@[j])@ != required_protocol(),
        decreases offered@.len() - i,
    {
        if offered[i] == required {
            return true;
        }
        i = i + 1;
    }
    false
}

/// The first frame the server sends on an accepted connection.
pub fn greeting() -> (r: Frame)
    ensures
        r@ == FrameModel::Text(greeting_text()),
{
    Frame::Text("Hello World!".to_owned())
}

/// An accepted upgrade: the protocol selected, the server's session and the
/// greeting it sends first.
pub struct Accepted {
    pub protocol: String,
    pub session: Session,
    pub greeting: Frame,
}

/// The server's decision on an upgrade request: a request that does not offer
/// the required sub-protocol is rejected, and no session exists for it, so no
/// message-loop frame is ever exchanged on it.
pub fn accept_upgrade(offered: &Vec<String>) -> (r: Option<Accepted>)
    ensures
        r is Some <==> offers(offered@, required_protocol()),
        r matches Some(a) ==> a.protocol@ == required_protocol() && a.session.role_spec()
            == Role::Server && a.session.phase_spec() == Phase::Open && a.greeting@
            == FrameModel::Text(greeting_text()),
{
    if offers_required(offered) {
        Some(Accepted { protocol: protocol_name(), session: Session::new(Role::Server), greeting: greeting() })
    } else {
        None
    }
}

} // verus!
