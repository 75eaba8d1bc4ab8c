use chat_client::listener::{on_event, ListenerAction, StreamEvent};
use chat_client::message::{ChatMessage, Filters};
use chat_client::transcript::Transcript;
use chat_client::ui::poll_tick;

fn msg(author_id: u64, name: &str, channel: u64, body: &str) -> ChatMessage {
    ChatMessage::new(author_id, name.to_string(), body.to_string(), channel)
}

#[test]
fn matching_message_is_forwarded() {
    let f = Filters::new(1, 10);
    match on_event(&f, StreamEvent::MessageCreated(msg(1, "A", 10, "hi"))) {
        ListenerAction::Forward(m) => {
            assert_eq!(m.body, "hi");
            assert_eq!(m.author_name, "A");
        }
        _ => panic!("expected the message to be forwarded"),
    }
}

#[test]
fn other_author_is_not_forwarded() {
    let f = Filters::new(1, 10);
    let r = on_event(&f, StreamEvent::MessageCreated(msg(2, "B", 10, "hey")));
    assert!(matches!(r, ListenerAction::Skip));
}

#[test]
fn other_channel_is_not_forwarded() {
    let f = Filters::new(1, 10);
    let r = on_event(&f, StreamEvent::MessageCreated(msg(1, "A", 11, "hey")));
    assert!(matches!(r, ListenerAction::Skip));
}

#[test]
fn other_events_are_skipped() {
    let f = Filters::new(1, 10);
    assert!(matches!(on_event(&f, StreamEvent::Other), ListenerAction::Skip));
}

#[test]
fn receive_error_continues() {
    let f = Filters::new(1, 10);
    let r = on_event(&f, StreamEvent::ReceiveError("timeout".to_string()));
    assert!(!r.stops());
    match r {
        ListenerAction::LogAndContinue(e) => assert_eq!(e, "timeout"),
        _ => panic!("expected the loop to continue"),
    }
}

#[test]
fn closed_with_code_1000_stops_loop() {
    let f = Filters::new(1, 10);
    let r = on_event(&f, StreamEvent::Closed(Some(1000), "bye".to_string()));
    assert!(r.stops());
    match r {
        ListenerAction::Stop(code, body) => {
            assert_eq!(code, Some(1000));
            assert_eq!(body, "bye");
        }
        _ => panic!("expected the loop to stop"),
    }
    // The UI side keeps ticking with nothing to render.
    let mut t = Transcript::new();
    t.append(&"A".to_string(), &"earlier".to_string());
    let added = poll_tick(&mut t, None);
    assert!(added.is_empty());
    assert_eq!(t.entries().len(), 2);
}

#[test]
fn contact_stream_renders_grouped() {
    let f = Filters::new(1, 10);
    let events = vec![
        StreamEvent::MessageCreated(msg(1, "A", 10, "hi")),
        StreamEvent::MessageCreated(msg(1, "A", 10, "there")),
        StreamEvent::MessageCreated(msg(2, "B", 10, "hey")),
    ];
    let mut t = Transcript::new();
    for e in events {
        let received = match on_event(&f, e) {
            ListenerAction::Forward(m) => Some(m),
            _ => None,
        };
        poll_tick(&mut t, received);
    }
    let got: Vec<(bool, String)> = t.entries().iter().map(|e| (e.is_header, e.text.clone())).collect();
    assert_eq!(
        got,
        vec![
            (true, "A".to_string()),
            (false, "hi".to_string()),
            (false, "there".to_string()),
        ]
    );
    assert!(got.iter().all(|l| l.1 != "hey"));
}
