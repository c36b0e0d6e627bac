use vstd::prelude::*;

verus! {

/// A message sent by a browser client to the server.
#[derive(Debug, PartialEq, Eq)]
pub enum FromClientMessage {
    /// The client announces its name.
    Login(String),
    /// The client posts a line to the chat.
    ChatMsg(String),
}

/// A message sent by the server to every browser client.
#[derive(Debug, PartialEq, Eq)]
pub enum FromServerMessage {
    /// A line to append to the chat box.
    Chat(String),
    /// Every client must reload its page.
    Reload,
}

/// The one error of the message layer: a frame that is no valid message.
#[derive(Debug, PartialEq, Eq)]
pub enum MessageError {
    Error,
}

/// Mathematical model of a [`FromClientMessage`].
pub enum ClientMessageView {
    Login(Seq<char>),
    ChatMsg(Seq<char>),
}

/// Mathematical model of a [`FromServerMessage`].
pub enum ServerMessageView {
    Chat(Seq<char>),
    Reload,
}

impl View for FromClientMessage {
    type V = ClientMessageView;

    open spec fn view(&self) -> ClientMessageView {
        match self {
            FromClientMessage::Login(s) => ClientMessageView::Login(s@),
            FromClientMessage::ChatMsg(s) => ClientMessageView::ChatMsg(s@),
        }
    }
}

impl View for FromServerMessage {
    type V = ServerMessageView;

    open spec fn view(&self) -> ServerMessageView {
        match self {
            FromServerMessage::Chat(s) => ServerMessageView::Chat(s@),
            FromServerMessage::Reload => ServerMessageView::Reload,
        }
    }
}

/// The outcome of decoding a frame into a message: the decoded value, or
/// [`MessageError::Error`] whatever the decoder's own error was.
pub fn decoded<T, E>(result: Result<T, E>) -> (out: Result<T, MessageError>)
    ensures
        match result {
            Ok(v) => out matches Ok(o) && o == v,
            Err(_) => out matches Err(MessageError::Error),
        },
{
    match result {
        Ok(value) => Ok(value),
        Err(_) => Err(MessageError::Error),
    }
}

} // verus!
