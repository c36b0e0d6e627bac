use vstd::prelude::*;
use vstd::string::StringExecFns;

use crate::message::{FromClientMessage, FromServerMessage, MessageError};

verus! {

/// The page the browser shows.
#[derive(Debug, PartialEq, Eq)]
pub enum Page {
    /// The form that asks for a name.
    Login,
    /// The chat box with its input line and refresh button.
    Main,
}

/// Which page the application shows: the chat once the user is logged in,
/// the login form before.
pub fn page_for(login: Option<u32>) -> (page: Page)
    ensures
        page == (if login is Some { Page::Main } else { Page::Login }),
{
    match login {
        Some(_) => Page::Main,
        None => Page::Login,
    }
}

/// The greeting shown to a user: `Bonjour ` followed by the name.
pub fn greeting(name: &str) -> (text: String)
    ensures
        text@ == "Bonjour "@ + name@,
{
    let mut text = String::from_str("Bonjour ");
    text.append(name);
    text
}

/// What the chat page does with a frame that came from the server.
pub enum ClientAction {
    /// Append this line to the chat box.
    ShowChat(String),
    /// Reload the page.
    ReloadPage,
    /// Write this line to the console: the frame was no server message.
    Log(String),
}

/// The line logged for a frame that is no server message.
pub open spec fn bad_frame_log(raw: Seq<char>) -> Seq<char> {
    "error in message : "@ + raw
}

/// Decides what the chat page does with a frame from the server, given the
/// frame's text `raw` and what decoding it gave.
pub fn on_server_message(parsed: Result<FromServerMessage, MessageError>, raw: &str) -> (action: ClientAction)
    ensures
        match parsed {
            Ok(FromServerMessage::Chat(line)) => action matches ClientAction::ShowChat(l) && l@ == line@,
            Ok(FromServerMessage::Reload) => action is ReloadPage,
            Err(_) => action matches ClientAction::Log(l) && l@ == bad_frame_log(raw@) && l@ == "error in message : "@ + raw@,
        },
{
    match parsed {
        Ok(FromServerMessage::Chat(line)) => ClientAction::ShowChat(line),
        Ok(FromServerMessage::Reload) => ClientAction::ReloadPage,
        Err(_) => {
            let mut line = String::from_str("error in message : ");
            line.append(raw);
            ClientAction::Log(line)
        },
    }
}

/// For a connection that hands every server message to a list of
/// registered actions: the message to hand over, or the line to log when
/// the frame `raw` was no server message.
pub fn message_for_actions(parsed: Result<FromServerMessage, MessageError>, raw: &str) -> (out: Result<FromServerMessage, String>)
    ensures
        match parsed {
            Ok(m) => out matches Ok(o) && o == m,
            Err(_) => out matches Err(l) && l@ == bad_frame_log(raw@) && l@ == "error in message : "@ + raw@,
        },
{
    match parsed {
        Ok(message) => Ok(message),
        Err(_) => {
            let mut line = String::from_str("error in message : ");
            line.append(raw);
            Err(line)
        },
    }
}

/// What the input line does when its value changes: it sends the value as a
/// chat message and is emptied.
pub fn submit_input(value: String) -> (out: (FromClientMessage, String))
    ensures
        out.0 matches FromClientMessage::ChatMsg(t) && t@ == value@,
        out.1@ == Seq::<char>::empty(),
{
    (FromClientMessage::ChatMsg(value), String::new())
}

/// The console line that reports how sending a message went; an error is
/// given by its printed form.
pub fn send_report(result: Result<(), String>) -> (line: String)
    ensures
        match result {
            Ok(()) => line@ == "message successfully sent"@,
            Err(e) => line@ == "error sending message: "@ + e@,
        },
{
    match result {
        Ok(()) => String::from_str("message successfully sent"),
        Err(e) => {
            let mut line = String::from_str("error sending message: ");
            line.append(e.as_str());
            line
        },
    }
}

/// The milliseconds the client waits before it tries to open a closed
/// connection again.
pub const RETRY_DELAY_MS: u32 = 1000;

/// What happens to the client's connection to the server.
pub enum LinkEvent {
    /// The connection was closed.
    Closed,
    /// The retry timer fired and opening a new connection succeeded (`true`)
    /// or failed (`false`).
    RetryFired(bool),
}

/// What the client does about its connection.
#[derive(Debug, PartialEq, Eq)]
pub enum LinkAction {
    /// Log `try reconnect` and start a timer of this many milliseconds.
    ScheduleRetry(u32),
    /// Move the message and close handlers to the new connection, log
    /// `reconected`, and use it from now on.
    AdoptConnection,
}

/// The reconnection rule: a closed connection, or a failed attempt, leads to
/// another attempt after [`RETRY_DELAY_MS`]; a successful attempt replaces
/// the connection.
pub fn link_step(event: LinkEvent) -> (action: LinkAction)
    ensures
        match event {
            LinkEvent::Closed => action == LinkAction::ScheduleRetry(RETRY_DELAY_MS),
            LinkEvent::RetryFired(true) => action == LinkAction::AdoptConnection,
            LinkEvent::RetryFired(false) => action == LinkAction::ScheduleRetry(RETRY_DELAY_MS),
        },
        action matches LinkAction::ScheduleRetry(d) ==> d == 1000,
        (action is AdoptConnection) <==> (event matches LinkEvent::RetryFired(ok) && ok),
{
    match event {
        LinkEvent::Closed => LinkAction::ScheduleRetry(RETRY_DELAY_MS),
        LinkEvent::RetryFired(true) => LinkAction::AdoptConnection,
        LinkEvent::RetryFired(false) => LinkAction::ScheduleRetry(RETRY_DELAY_MS),
    }
}

} // verus!
