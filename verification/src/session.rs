use vstd::prelude::*;
use vstd::string::StringExecFns;

use crate::message::{FromClientMessage, MessageError};

verus! {

/// Why a websocket was closed: the close code and an optional description.
pub struct CloseReason {
    pub code: u16,
    pub description: Option<String>,
}

/// A websocket frame as a session sees it, after the text of a text frame
/// has been decoded into a client message (or failed to decode).
pub enum IncomingFrame {
    Ping(Vec<u8>),
    Text(Result<FromClientMessage, MessageError>),
    Binary(Vec<u8>),
    Close(Option<CloseReason>),
    /// Pong, continuation and no-op frames, and protocol errors.
    Other,
}

/// What a session does with a frame.
pub enum FrameAction {
    /// Answer a ping with a pong that carries the same bytes.
    Pong(Vec<u8>),
    /// Hand the decoded message to the chat server.
    Forward(FromClientMessage),
    /// Send the same binary payload back.
    EchoBinary(Vec<u8>),
    /// Close the connection with the reason the client gave.
    Close(Option<CloseReason>),
    /// Nothing to do.
    Ignore,
}

/// The session's rule for one frame.
pub open spec fn frame_action_spec(frame: IncomingFrame, action: FrameAction) -> bool {
    match frame {
        IncomingFrame::Ping(b) => action matches FrameAction::Pong(p) && p@ == b@,
        IncomingFrame::Text(Ok(m)) => action matches FrameAction::Forward(f) && f == m,
        IncomingFrame::Text(Err(_)) => action is Ignore,
        IncomingFrame::Binary(b) => action matches FrameAction::EchoBinary(p) && p@ == b@,
        IncomingFrame::Close(r) => action matches FrameAction::Close(c) && c == r,
        IncomingFrame::Other => action is Ignore,
    }
}

/// Every ping is answered by a pong with the same bytes, empty or not.
pub proof fn lemma_every_ping_is_answered(bytes: Vec<u8>, action: FrameAction)
    requires
        frame_action_spec(IncomingFrame::Ping(bytes), action),
    ensures
        action matches FrameAction::Pong(p) && p@ == bytes@,
{
}

/// Every text frame that decodes to a client message, a login or a chat
/// line alike, hands exactly that message to the server; a frame that does
/// not decode is dropped.
pub proof fn lemma_every_message_is_forwarded(decoded: Result<FromClientMessage, MessageError>, action: FrameAction)
    requires
        frame_action_spec(IncomingFrame::Text(decoded), action),
    ensures
        decoded matches Ok(m) ==> action == FrameAction::Forward(m),
        decoded matches Ok(FromClientMessage::ChatMsg(t)) ==> action matches FrameAction::Forward(FromClientMessage::ChatMsg(f)) && f@ == t@,
        decoded matches Ok(FromClientMessage::Login(t)) ==> action matches FrameAction::Forward(FromClientMessage::Login(f)) && f@ == t@,
        decoded is Err ==> action is Ignore,
{
}

/// Binary payloads are echoed unchanged, and a close is answered with a
/// close that carries the client's reason.
pub proof fn lemma_binary_echoed_and_close_answered(frame: IncomingFrame, action: FrameAction)
    requires
        frame_action_spec(frame, action),
    ensures
        frame matches IncomingFrame::Binary(b) ==> action matches FrameAction::EchoBinary(p) && p@ == b@,
        frame matches IncomingFrame::Close(r) ==> action == FrameAction::Close(r),
        frame is Other ==> action is Ignore,
{
}

/// Decides what a session does with a frame from its client: pings are
/// answered, valid messages go to the server, invalid text is dropped,
/// binary payloads are echoed, a close is answered with a close carrying the
/// same reason, anything else is ignored.
pub fn frame_action(frame: IncomingFrame) -> (action: FrameAction)
    ensures
        frame_action_spec(frame, action),
        frame matches IncomingFrame::Ping(b) ==> action matches FrameAction::Pong(p) && p@ == b@,
        frame matches IncomingFrame::Text(Ok(m)) ==> action == FrameAction::Forward(m),
        frame matches IncomingFrame::Text(Err(_)) ==> action is Ignore,
        frame matches IncomingFrame::Binary(b) ==> action matches FrameAction::EchoBinary(p) && p@ == b@,
        frame matches IncomingFrame::Close(r) ==> action == FrameAction::Close(r),
        frame is Other ==> action is Ignore,
{
    match frame {
        IncomingFrame::Ping(bytes) => FrameAction::Pong(bytes),
        IncomingFrame::Text(Ok(message)) => FrameAction::Forward(message),
        IncomingFrame::Text(Err(_)) => FrameAction::Ignore,
        IncomingFrame::Binary(bytes) => FrameAction::EchoBinary(bytes),
        IncomingFrame::Close(reason) => FrameAction::Close(reason),
        IncomingFrame::Other => FrameAction::Ignore,
    }
}

/// The text a session sends to its client as soon as it starts.
pub fn greeting_text() -> (text: String)
    ensures
        text@ == "hello word!"@,
{
    String::from_str("hello word!")
}

/// Whether a session stops after the server answered a forwarded message:
/// it stops exactly when the message could not be delivered.
pub fn stops_after_forward(delivered: bool) -> (stop: bool)
    ensures
        stop == !delivered,
{
    !delivered
}

} // verus!
