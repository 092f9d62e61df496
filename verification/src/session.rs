use vstd::prelude::*;

verus! {

/// One inbound event read off a duplex client connection.
pub enum InboundMessage {
    Ping(Vec<u8>),
    Text(Vec<u8>),
    Other,
}

/// What the session loop does in reaction to one inbound event.
pub enum SessionAction {
    ReplyPong(Vec<u8>),
    Ignore,
    Close,
}

/// Decide the session loop's reaction to one inbound event: a ping is
/// answered with a pong carrying the same payload, inbound text is accepted
/// but not acted upon (a reserved extension point), and anything else ends
/// the session.
pub fn react_to_inbound(msg: InboundMessage) -> (act: SessionAction)
    ensures
        match msg {
            InboundMessage::Ping(b) => act == SessionAction::ReplyPong(b),
            InboundMessage::Text(_) => act == SessionAction::Ignore,
            InboundMessage::Other => act == SessionAction::Close,
        },
{
    match msg {
        InboundMessage::Ping(b) => SessionAction::ReplyPong(b),
        InboundMessage::Text(_) => SessionAction::Ignore,
        InboundMessage::Other => SessionAction::Close,
    }
}

} // verus!
