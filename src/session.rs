//! One step of the client's supervisor: from its state and an event (a
//! connection result, a frame, a heartbeat tick, an operator command, the end
//! of the stream) to its next state and the actions to perform.
use vstd::prelude::*;
use vstd::string::*;
use vstd::utf8::*;
use crate::protocol::{parse_spec, parse_text, Parsed, ServerMessage};
use crate::text::{decode_utf8_chars, string_from_chars, trim_text, trimmed};

verus! {

/// Seconds between two liveness probes of a connected session.
pub const HEARTBEAT_INTERVAL_SECS: u64 = 1;

/// A frame received from the server.
#[derive(PartialEq, Eq, Debug)]
pub enum InboundFrame {
    Text(Vec<u8>),
    Ping(Vec<u8>),
    Other,
}

/// A frame to send to the server.
#[derive(PartialEq, Eq, Debug)]
pub enum OutboundFrame {
    Text(String),
    Ping(Vec<u8>),
    Pong(Vec<u8>),
}

/// Which way a timestamped console marker points.
#[derive(Clone, Copy, PartialEq, Eq, Structural, Debug)]
pub enum Direction {
    In,
    Out,
}

/// What the runtime around the supervisor must do.
#[derive(PartialEq, Eq, Debug)]
pub enum Action {
    /// Send a frame on the connection; a failure is logged and the frame dropped.
    Send(OutboundFrame),
    /// Write text to the console.
    Print(String),
    /// Write a timestamped marker for the given direction.
    Stamp(Direction),
    /// Ask the external notifier to show a message.
    Notify(String),
    /// Flush the console.
    Flush,
    /// Open a new connection.
    Reconnect,
}

/// An event handed to the supervisor.
#[derive(PartialEq, Eq, Debug)]
pub enum Event {
    /// The handshake succeeded.
    Connected,
    /// The connection could not be opened; the error as text.
    ConnectFailed(String),
    Frame(InboundFrame),
    /// The heartbeat interval elapsed.
    Tick,
    /// The operator entered a line.
    Command(String),
    /// The server closed the stream, or it failed.
    StreamEnded,
}

#[derive(Clone, Copy, PartialEq, Eq, Structural, Debug)]
pub enum Status {
    Connecting,
    Connected,
}

/// The supervisor's state: the connection status and the number of times a
/// new connection has been asked for, which survives every session.
pub struct Supervisor {
    pub status: Status,
    pub retries: u64,
}

pub enum FrameView {
    Text(Seq<u8>),
    Ping(Seq<u8>),
    Other,
}

pub enum OutView {
    Text(Seq<char>),
    Ping(Seq<u8>),
    Pong(Seq<u8>),
}

pub enum ActionView {
    Send(OutView),
    Print(Seq<char>),
    Stamp(Direction),
    Notify(Seq<char>),
    Flush,
    Reconnect,
}

pub enum EventView {
    Connected,
    ConnectFailed(Seq<char>),
    Frame(FrameView),
    Tick,
    Command(Seq<char>),
    StreamEnded,
}

impl View for InboundFrame {
    type V = FrameView;

    open spec fn view(&self) -> FrameView {
        match self {
            InboundFrame::Text(b) => FrameView::Text(b@),
            InboundFrame::Ping(b) => FrameView::Ping(b@),
            InboundFrame::Other => FrameView::Other,
        }
    }
}

impl View for OutboundFrame {
    type V = OutView;

    open spec fn view(&self) -> OutView {
        match self {
            OutboundFrame::Text(s) => OutView::Text(s@),
            OutboundFrame::Ping(b) => OutView::Ping(b@),
            OutboundFrame::Pong(b) => OutView::Pong(b@),
        }
    }
}

impl View for Action {
    type V = ActionView;

    open spec fn view(&self) -> ActionView {
        match self {
            Action::Send(f) => ActionView::Send(f@),
            Action::Print(s) => ActionView::Print(s@),
            Action::Stamp(d) => ActionView::Stamp(*d),
            Action::Notify(s) => ActionView::Notify(s@),
            Action::Flush => ActionView::Flush,
            Action::Reconnect => ActionView::Reconnect,
        }
    }
}

impl View for Event {
    type V = EventView;

    open spec fn view(&self) -> EventView {
        match self {
            Event::Connected => EventView::Connected,
            Event::ConnectFailed(s) => EventView::ConnectFailed(s@),
            Event::Frame(f) => EventView::Frame(f@),
            Event::Tick => EventView::Tick,
            Event::Command(s) => EventView::Command(s@),
            Event::StreamEnded => EventView::StreamEnded,
        }
    }
}

pub open spec fn views(v: Seq<Action>) -> Seq<ActionView> {
    v.map_values(|a: Action| a@)
}

/// The message handed to the notifier when someone waits in the queue.
pub open spec fn queue_notice() -> Seq<char> {
    "Someone is in queue!"@
}

/// The console output for a classified inbound text `t`.
pub open spec fn message_actions(p: Parsed, t: Seq<char>) -> Seq<ActionView> {
    match p {
        Parsed::ServerState { online, queued } => if queued {
            seq![
                ActionView::Print(online + " online - someone in queue!\n"@),
                ActionView::Notify(queue_notice()),
            ]
        } else {
            seq![ActionView::Print(online + " online\n"@)]
        },
        Parsed::Malformed => seq![ActionView::Print("malformed server state message\n"@)],
        Parsed::Plain => seq![ActionView::Print(t + "\n"@)],
    }
}

/// The actions for an inbound text `t`: a marker, its meaning, the prompt.
pub open spec fn text_actions(t: Seq<char>) -> Seq<ActionView> {
    seq![ActionView::Print("\x1B[1024D"@), ActionView::Stamp(Direction::In)]
        + message_actions(parse_spec(t), t)
        + seq![ActionView::Print("<< "@), ActionView::Flush]
}

/// The actions for an inbound frame of a connected session: a ping is
/// answered with a pong of the same payload, text that is not UTF-8 is
/// dropped, other frames are ignored.
pub open spec fn frame_actions(f: FrameView) -> Seq<ActionView> {
    match f {
        FrameView::Text(b) => if valid_utf8(b) {
            text_actions(decode_utf8(b))
        } else {
            seq![]
        },
        FrameView::Ping(p) => seq![ActionView::Send(OutView::Pong(p))],
        FrameView::Other => seq![],
    }
}

/// The actions for an operator's line in a connected session: the echo is
/// overwritten by a marker and the raw line, and the trimmed line is sent.
pub open spec fn command_actions(line: Seq<char>) -> Seq<ActionView> {
    seq![
        ActionView::Print("\x1B[F"@),
        ActionView::Stamp(Direction::Out),
        ActionView::Print(line),
        ActionView::Send(OutView::Text(trimmed(line))),
    ]
}

pub open spec fn next_status(s: Status, e: EventView) -> Status {
    match e {
        EventView::Connected => Status::Connected,
        EventView::ConnectFailed(_) => Status::Connecting,
        EventView::StreamEnded => Status::Connecting,
        _ => s,
    }
}

pub open spec fn asks_reconnect(e: EventView) -> bool {
    e is ConnectFailed || e is StreamEnded
}

pub open spec fn next_retries(r: u64, e: EventView) -> u64 {
    if asks_reconnect(e) && r < u64::MAX {
        (r + 1) as u64
    } else {
        r
    }
}

/// The actions for event `e` in status `s`. Frames, ticks and commands do
/// nothing unless a session is connected; the end of a stream or a failed
/// connection asks for a new connection.
pub open spec fn step_actions(s: Status, e: EventView) -> Seq<ActionView> {
    match e {
        EventView::Connected => seq![ActionView::Print("Connected\n"@)],
        EventView::ConnectFailed(m) => seq![
            ActionView::Print("Error: "@ + m + "\n"@),
            ActionView::Reconnect,
        ],
        EventView::Frame(f) => if s == Status::Connected {
            frame_actions(f)
        } else {
            seq![]
        },
        EventView::Tick => if s == Status::Connected {
            seq![ActionView::Send(OutView::Ping(seq![]))]
        } else {
            seq![]
        },
        EventView::Command(line) => if s == Status::Connected {
            command_actions(line)
        } else {
            seq![]
        },
        EventView::StreamEnded => seq![
            ActionView::Print("Server disconnected\n"@),
            ActionView::Print("Disconnected\n"@),
            ActionView::Reconnect,
        ],
    }
}

fn print_action(prefix: &[char], suffix: &str) -> (r: Action)
    ensures
        r@ == ActionView::Print(prefix@ + suffix@),
{
    let mut s = string_from_chars(prefix);
    s.append(suffix);
    Action::Print(s)
}

/// The actions for an inbound text that decoded to `t`.
pub fn text_frame_actions(t: &Vec<char>) -> (r: Vec<Action>)
    ensures
        views(r@) == text_actions(t@),
{
    let mut r: Vec<Action> = Vec::new();
    r.push(Action::Print(String::from_str("\x1B[1024D")));
    r.push(Action::Stamp(Direction::In));
    let m = parse_text(t);
    match m {
        ServerMessage::ServerState { online, queued } => {
            if queued {
                r.push(print_action(online.as_slice(), " online - someone in queue!\n"));
                r.push(Action::Notify(String::from_str("Someone is in queue!")));
            } else {
                r.push(print_action(online.as_slice(), " online\n"));
            }
        },
        ServerMessage::Malformed => {
            r.push(Action::Print(String::from_str("malformed server state message\n")));
        },
        ServerMessage::Plain => {
            r.push(print_action(t.as_slice(), "\n"));
        },
    }
    r.push(Action::Print(String::from_str("<< ")));
    r.push(Action::Flush);
    assert(views(r@) =~= text_actions(t@));
    r
}

/// The actions for a frame received by a connected session.
pub fn frame_actions_of(f: InboundFrame) -> (r: Vec<Action>)
    ensures
        views(r@) == frame_actions(f@),
{
    match f {
        InboundFrame::Text(b) => match decode_utf8_chars(b.as_slice()) {
            Some(t) => text_frame_actions(&t),
            None => {
                let r: Vec<Action> = Vec::new();
                assert(views(r@) =~= frame_actions(f@));
                r
            },
        },
        InboundFrame::Ping(p) => {
            let r = vec![Action::Send(OutboundFrame::Pong(p))];
            assert(views(r@) =~= frame_actions(f@));
            r
        },
        InboundFrame::Other => {
            let r: Vec<Action> = Vec::new();
            assert(views(r@) =~= frame_actions(f@));
            r
        },
    }
}

impl Supervisor {
    /// A supervisor about to open its first connection.
    pub fn new() -> (r: Supervisor)
        ensures
            r.status == Status::Connecting,
            r.retries == 0,
    {
        Supervisor { status: Status::Connecting, retries: 0 }
    }

    /// Handles one event: updates the status and the retry count and returns
    /// the actions to perform, in order.
    pub fn step(&mut self, e: Event) -> (r: Vec<Action>)
        ensures
            final(self).status == next_status(old(self).status, e@),
            final(self).retries == next_retries(old(self).retries, e@),
            views(r@) == step_actions(old(self).status, e@),
    {
        let ghost ev = e@;
        let connected = self.status == Status::Connected;
        let r: Vec<Action> = match e {
            Event::Connected => {
                self.status = Status::Connected;
                vec![Action::Print(String::from_str("Connected\n"))]
            },
            Event::ConnectFailed(m) => {
                self.status = Status::Connecting;
                if self.retries < u64::MAX {
                    self.retries = self.retries + 1;
                }
                let mut s = String::from_str("Error: ");
                s.append(m.as_str());
                s.append("\n");
                vec![Action::Print(s), Action::Reconnect]
            },
            Event::Frame(f) => {
                if connected {
                    frame_actions_of(f)
                } else {
                    Vec::new()
                }
            },
            Event::Tick => {
                if connected {
                    vec![Action::Send(OutboundFrame::Ping(Vec::new()))]
                } else {
                    Vec::new()
                }
            },
            Event::Command(line) => {
                if connected {
                    let sent = trim_text(line.as_str());
                    vec![
                        Action::Print(String::from_str("\x1B[F")),
                        Action::Stamp(Direction::Out),
                        Action::Print(line),
                        Action::Send(OutboundFrame::Text(sent)),
                    ]
                } else {
                    Vec::new()
                }
            },
            Event::StreamEnded => {
                self.status = Status::Connecting;
                if self.retries < u64::MAX {
                    self.retries = self.retries + 1;
                }
                vec![
                    Action::Print(String::from_str("Server disconnected\n")),
                    Action::Print(String::from_str("Disconnected\n")),
                    Action::Reconnect,
                ]
            },
        };
        assert(views(r@) =~= step_actions(old(self).status, ev));
        r
    }
}

} // verus!
