use chat::client::{
    greeting, link_step, message_for_actions, on_server_message, page_for, send_report,
    submit_input, ClientAction, LinkAction, LinkEvent, Page, RETRY_DELAY_MS,
};
use chat::message::{decoded, FromClientMessage, FromServerMessage, MessageError};
use chat::server::{chat_box_message, chat_line, ClientData, Server};
use chat::session::{
    frame_action, greeting_text, stops_after_forward, CloseReason, FrameAction, IncomingFrame,
};

#[test]
fn connect_hands_out_ids_in_order() {
    let mut server: Server<&str> = Server::new();
    assert_eq!(server.next_id(), 0);
    assert_eq!(server.connect("a"), 0);
    assert_eq!(server.connect("b"), 1);
    assert_eq!(server.connect("c"), 2);
    assert_eq!(server.next_id(), 3);
    assert_eq!(server.address(0), Some(&"a"));
    assert_eq!(server.address(1), Some(&"b"));
    assert_eq!(server.address(2), Some(&"c"));
    assert_eq!(server.address(3), None);
}

#[test]
fn new_server_has_no_clients() {
    let server: Server<u32> = Server::new();
    assert!(server.client_ids().is_empty());
    assert_eq!(server.address(0), None);
}

#[test]
fn client_ids_lists_every_session_once() {
    let mut server: Server<u32> = Server::new();
    for k in 0..5u32 {
        server.connect(k * 10);
    }
    assert_eq!(server.client_ids(), vec![0, 1, 2, 3, 4]);
}

#[test]
fn broadcast_goes_to_every_session() {
    let mut server: Server<u32> = Server::new();
    server.connect(1);
    server.connect(2);
    let b = server.send_message_to_chat_box("hello".to_string());
    assert_eq!(b.message, FromServerMessage::Chat("hello".to_string()));
    assert_eq!(b.recipients, vec![0, 1]);
}

#[test]
fn reload_line_becomes_reload() {
    assert_eq!(chat_box_message("reload".to_string()), FromServerMessage::Reload);
    assert_eq!(
        chat_box_message("reload ".to_string()),
        FromServerMessage::Chat("reload ".to_string())
    );
    assert_eq!(
        chat_box_message("Reload".to_string()),
        FromServerMessage::Chat("Reload".to_string())
    );
    assert_eq!(chat_box_message(String::new()), FromServerMessage::Chat(String::new()));
}

#[test]
fn chat_line_formats_name_and_text() {
    assert_eq!(chat_line(Some("bob".to_string()), "hi"), "bob : hi");
    assert_eq!(chat_line(None, "hi"), "nc : hi");
    assert_eq!(chat_line(Some(String::new()), ""), " : ");
}

#[test]
fn login_is_read_back() {
    let mut data = ClientData::new();
    assert_eq!(data.get_login(), None);
    data.set_login(Some("alice".to_string()));
    assert_eq!(data.get_login(), Some("alice".to_string()));
    data.set_login(None);
    assert_eq!(data.get_login(), None);
}

#[test]
fn anonymous_chat_is_signed_nc() {
    let mut server: Server<u8> = Server::new();
    server.connect(0);
    let mut data = ClientData::new();
    let out = server
        .handle_entry(FromClientMessage::ChatMsg("hello".to_string()), &mut data)
        .expect("a chat message is broadcast");
    assert_eq!(out.message, FromServerMessage::Chat("nc : hello".to_string()));
    assert_eq!(out.recipients, vec![0]);
}

#[test]
fn login_then_chat_is_signed_with_the_name() {
    let mut server: Server<u8> = Server::new();
    server.connect(0);
    server.connect(1);
    let mut data = ClientData::new();
    let out = server.handle_entry(FromClientMessage::Login("zoe".to_string()), &mut data);
    assert!(out.is_none());
    assert_eq!(data.get_login(), Some("zoe".to_string()));
    let out = server
        .handle_entry(FromClientMessage::ChatMsg("bonjour".to_string()), &mut data)
        .expect("a chat message is broadcast");
    assert_eq!(out.message, FromServerMessage::Chat("zoe : bonjour".to_string()));
    assert_eq!(out.recipients, vec![0, 1]);
}

#[test]
fn client_cannot_trigger_reload() {
    let server: Server<u8> = Server::new();
    let mut data = ClientData::new();
    let out = server
        .handle_entry(FromClientMessage::ChatMsg("reload".to_string()), &mut data)
        .expect("a chat message is broadcast");
    assert_eq!(out.message, FromServerMessage::Chat("nc : reload".to_string()));
    assert!(out.recipients.is_empty());
}

#[test]
fn frames_are_answered_by_the_rule() {
    match frame_action(IncomingFrame::Ping(vec![1, 2, 3])) {
        FrameAction::Pong(b) => assert_eq!(b, vec![1, 2, 3]),
        _ => panic!("a ping is answered with a pong"),
    }
    match frame_action(IncomingFrame::Text(Ok(FromClientMessage::Login("x".to_string())))) {
        FrameAction::Forward(m) => assert_eq!(m, FromClientMessage::Login("x".to_string())),
        _ => panic!("a valid message is forwarded"),
    }
    assert!(matches!(
        frame_action(IncomingFrame::Text(Err(MessageError::Error))),
        FrameAction::Ignore
    ));
    match frame_action(IncomingFrame::Binary(vec![9])) {
        FrameAction::EchoBinary(b) => assert_eq!(b, vec![9]),
        _ => panic!("binary is echoed"),
    }
    match frame_action(IncomingFrame::Close(Some(CloseReason {
        code: 1000,
        description: Some("bye".to_string()),
    }))) {
        FrameAction::Close(Some(r)) => {
            assert_eq!(r.code, 1000);
            assert_eq!(r.description, Some("bye".to_string()));
        }
        _ => panic!("a close is answered with the same reason"),
    }
    assert!(matches!(frame_action(IncomingFrame::Close(None)), FrameAction::Close(None)));
    assert!(matches!(frame_action(IncomingFrame::Other), FrameAction::Ignore));
}

#[test]
fn session_greets_and_stops_on_failed_forward() {
    assert_eq!(greeting_text(), "hello word!");
    assert!(stops_after_forward(false));
    assert!(!stops_after_forward(true));
}

#[test]
fn decoding_errors_become_message_error() {
    assert_eq!(decoded::<u8, String>(Ok(4)), Ok(4));
    assert_eq!(decoded::<u8, String>(Err("bad".to_string())), Err(MessageError::Error));
}

#[test]
fn page_follows_login() {
    assert_eq!(page_for(None), Page::Login);
    assert_eq!(page_for(Some(3)), Page::Main);
}

#[test]
fn greeting_says_bonjour() {
    assert_eq!(greeting("Ana"), "Bonjour Ana");
    assert_eq!(greeting(""), "Bonjour ");
}

#[test]
fn server_frames_drive_the_page() {
    match on_server_message(Ok(FromServerMessage::Chat("a : b".to_string())), "raw") {
        ClientAction::ShowChat(l) => assert_eq!(l, "a : b"),
        _ => panic!("a chat line is shown"),
    }
    assert!(matches!(
        on_server_message(Ok(FromServerMessage::Reload), "raw"),
        ClientAction::ReloadPage
    ));
    match on_server_message(Err(MessageError::Error), "garbage") {
        ClientAction::Log(l) => assert_eq!(l, "error in message : garbage"),
        _ => panic!("an invalid frame is logged"),
    }
}

#[test]
fn actions_get_the_decoded_message() {
    assert_eq!(
        message_for_actions(Ok(FromServerMessage::Reload), "x"),
        Ok(FromServerMessage::Reload)
    );
    assert_eq!(
        message_for_actions(Err(MessageError::Error), "{oops"),
        Err("error in message : {oops".to_string())
    );
}

#[test]
fn input_change_sends_and_clears() {
    let (msg, cleared) = submit_input("hey".to_string());
    assert_eq!(msg, FromClientMessage::ChatMsg("hey".to_string()));
    assert_eq!(cleared, "");
}

#[test]
fn send_report_lines() {
    assert_eq!(send_report(Ok(())), "message successfully sent");
    assert_eq!(
        send_report(Err("JsValue(closed)".to_string())),
        "error sending message: JsValue(closed)"
    );
}

#[test]
fn reconnect_never_gives_up() {
    assert_eq!(RETRY_DELAY_MS, 1000);
    assert_eq!(link_step(LinkEvent::Closed), LinkAction::ScheduleRetry(1000));
    assert_eq!(link_step(LinkEvent::RetryFired(false)), LinkAction::ScheduleRetry(1000));
    assert_eq!(link_step(LinkEvent::RetryFired(true)), LinkAction::AdoptConnection);
}
