use fourinarow_client::protocol::{parse_text, ServerMessage};
use fourinarow_client::session::{
    frame_actions_of, text_frame_actions, Action, Direction, Event, InboundFrame, OutboundFrame,
    Status, Supervisor, HEARTBEAT_INTERVAL_SECS,
};

fn chars(s: &str) -> Vec<char> {
    s.chars().collect()
}

fn print(s: &str) -> Action {
    Action::Print(s.to_string())
}

fn connected() -> Supervisor {
    let mut s = Supervisor::new();
    let acts = s.step(Event::Connected);
    assert_eq!(acts, vec![print("Connected\n")]);
    s
}

fn notifies(acts: &[Action]) -> bool {
    acts.iter().any(|a| matches!(a, Action::Notify(_)))
}

#[test]
fn server_state_with_queue_notifies() {
    let acts = text_frame_actions(&chars("CURRENT_SERVER_STATE:12:true"));
    assert_eq!(
        acts,
        vec![
            print("\x1B[1024D"),
            Action::Stamp(Direction::In),
            print("12 online - someone in queue!\n"),
            Action::Notify("Someone is in queue!".to_string()),
            print("<< "),
            Action::Flush,
        ]
    );
}

#[test]
fn server_state_without_queue_does_not_notify() {
    let acts = text_frame_actions(&chars("CURRENT_SERVER_STATE:3:false"));
    assert_eq!(acts[2], print("3 online\n"));
    assert!(!notifies(&acts));
    assert_eq!(acts.len(), 5);
}

#[test]
fn queue_flag_is_an_exact_string_match() {
    for flag in ["True", "TRUE", "1", "yes", "true ", " true", ""] {
        let text = format!("CURRENT_SERVER_STATE:7:{}", flag);
        let acts = text_frame_actions(&chars(&text));
        assert_eq!(acts[2], print("7 online\n"));
        assert!(!notifies(&acts));
    }
}

#[test]
fn online_count_is_not_validated() {
    let acts = text_frame_actions(&chars("CURRENT_SERVER_STATE:many:true:extra"));
    assert_eq!(acts[2], print("many online - someone in queue!\n"));
    assert!(notifies(&acts));
}

#[test]
fn plain_text_is_echoed_without_notifying() {
    let acts = text_frame_actions(&chars("hello: true"));
    assert_eq!(acts[2], print("hello: true\n"));
    assert!(!notifies(&acts));
    let acts = text_frame_actions(&chars("current_server_state:1:true"));
    assert_eq!(acts[2], print("current_server_state:1:true\n"));
    assert!(!notifies(&acts));
}

#[test]
fn malformed_server_state_is_dropped() {
    for text in ["CURRENT_SERVER_STATE", "CURRENT_SERVER_STATE:5", "CURRENT_SERVER_STATE5"] {
        assert_eq!(parse_text(&chars(text)), ServerMessage::Malformed);
        let acts = text_frame_actions(&chars(text));
        assert_eq!(acts[2], print("malformed server state message\n"));
        assert!(!notifies(&acts));
        assert!(!acts.iter().any(|a| matches!(a, Action::Send(_))));
    }
}

#[test]
fn parse_reads_the_second_and_third_fields() {
    assert_eq!(
        parse_text(&chars("CURRENT_SERVER_STATE:42:true")),
        ServerMessage::ServerState { online: chars("42"), queued: true }
    );
    assert_eq!(
        parse_text(&chars("CURRENT_SERVER_STATEX::false")),
        ServerMessage::ServerState { online: vec![], queued: false }
    );
    assert_eq!(parse_text(&chars("")), ServerMessage::Plain);
    assert_eq!(parse_text(&chars("CURRENT_SERVER")), ServerMessage::Plain);
}

#[test]
fn ping_is_answered_with_same_payload() {
    let acts = frame_actions_of(InboundFrame::Ping(vec![1, 2, 3]));
    assert_eq!(acts, vec![Action::Send(OutboundFrame::Pong(vec![1, 2, 3]))]);
    let mut s = connected();
    let acts = s.step(Event::Frame(InboundFrame::Ping(vec![9])));
    assert_eq!(acts, vec![Action::Send(OutboundFrame::Pong(vec![9]))]);
}

#[test]
fn invalid_utf8_is_dropped_silently() {
    let acts = frame_actions_of(InboundFrame::Text(vec![0xff, 0xfe, b'a']));
    assert!(acts.is_empty());
    let acts = frame_actions_of(InboundFrame::Text(vec![0xc3, 0xa9]));
    assert_eq!(acts[2], print("\u{e9}\n"));
}

#[test]
fn other_frames_are_ignored() {
    let mut s = connected();
    assert!(s.step(Event::Frame(InboundFrame::Other)).is_empty());
}

#[test]
fn heartbeat_pings_only_while_connected() {
    assert_eq!(HEARTBEAT_INTERVAL_SECS, 1);
    let mut s = Supervisor::new();
    assert!(s.step(Event::Tick).is_empty());
    let mut s2 = connected();
    for _ in 0..3 {
        assert_eq!(s2.step(Event::Tick), vec![Action::Send(OutboundFrame::Ping(vec![]))]);
    }
    s2.step(Event::StreamEnded);
    assert!(s2.step(Event::Tick).is_empty());
}

#[test]
fn command_is_trimmed_before_sending() {
    let mut s = connected();
    let acts = s.step(Event::Command("  hello  \n".to_string()));
    assert_eq!(
        acts,
        vec![
            print("\x1B[F"),
            Action::Stamp(Direction::Out),
            print("  hello  \n"),
            Action::Send(OutboundFrame::Text("hello".to_string())),
        ]
    );
}

#[test]
fn command_without_session_is_dropped() {
    let mut s = Supervisor::new();
    assert!(s.step(Event::Command("hello\n".to_string())).is_empty());
}

#[test]
fn disconnect_stops_processing_and_reconnects() {
    let mut s = connected();
    let acts = s.step(Event::StreamEnded);
    assert_eq!(acts, vec![print("Server disconnected\n"), print("Disconnected\n"), Action::Reconnect]);
    assert_eq!(s.status, Status::Connecting);
    assert_eq!(s.retries, 1);
    assert!(s.step(Event::Tick).is_empty());
    assert!(s.step(Event::Frame(InboundFrame::Ping(vec![1]))).is_empty());
    assert!(s.step(Event::Frame(InboundFrame::Text(b"hi".to_vec()))).is_empty());
    assert!(s.step(Event::Command("x".to_string())).is_empty());
    assert_eq!(s.step(Event::Connected), vec![print("Connected\n")]);
    assert_eq!(s.status, Status::Connected);
    assert_eq!(s.step(Event::Tick), vec![Action::Send(OutboundFrame::Ping(vec![]))]);
}

#[test]
fn failed_connection_is_reported_and_retried() {
    let mut s = Supervisor::new();
    let acts = s.step(Event::ConnectFailed("refused".to_string()));
    assert_eq!(acts, vec![print("Error: refused\n"), Action::Reconnect]);
    assert_eq!(s.retries, 1);
    s.step(Event::ConnectFailed("refused".to_string()));
    assert_eq!(s.retries, 2);
    assert_eq!(s.status, Status::Connecting);
}

#[test]
fn retry_count_saturates() {
    let mut s = Supervisor { status: Status::Connected, retries: u64::MAX };
    s.step(Event::StreamEnded);
    assert_eq!(s.retries, u64::MAX);
}
