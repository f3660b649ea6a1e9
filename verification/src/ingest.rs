use vstd::prelude::*;
use vstd::string::*;

use crate::database::MyError;
use crate::text::{decimal, to_decimal};

verus! {

/// Number of records that make a full batch.
pub const BATCH_SIZE: usize = 50;

/// Seconds waited before a new connection attempt.
pub const RECONNECT_DELAY_SECS: u64 = 5;

/// Seconds that the oldest buffered record may wait before the records
/// held so far are written even though they make no full batch.
pub const FLUSH_TIMEOUT_SECS: u64 = 1;

/// What a stream listener is waiting for.
#[derive(Debug, Clone, Copy, PartialEq, Eq, Structural)]
pub enum Phase {
    /// The database client is being opened.
    OpeningDatabase,
    /// A connection to the stream is being opened.
    Connecting,
    /// The next frame of the stream is being read.
    Streaming,
    /// The reconnect delay is running.
    Sleeping,
    /// The listener gave up: its database client could not be opened.
    Stopped,
}

/// One frame read from the stream, as far as the listener cares.
#[derive(Debug, PartialEq, Eq)]
pub enum Frame<T> {
    /// A text frame that decoded into a record.
    Record(T),
    /// A text frame that did not decode; `error` says why, `raw` is the text.
    Malformed { error: String, raw: String },
    /// A frame that carries no text.
    NotText,
}

/// What the outside world reports back to the listener.
#[derive(Debug, PartialEq, Eq)]
pub enum Event<T> {
    DatabaseOpened(Result<(), MyError>),
    /// The connection attempt finished; an error carries its description.
    ConnectFinished(Result<(), String>),
    FrameReceived(Frame<T>),
    /// The stream ended or failed while reading.
    StreamEnded,
    SleepFinished,
    /// The flush timer ran out.
    FlushTimerFired,
    /// A write handed out earlier finished.
    InsertFinished(Result<(), MyError>),
}

/// What the listener reports to its operator.
#[derive(Debug, PartialEq, Eq)]
pub enum Notice {
    Launching,
    Connected,
    /// The record just read was decoded and buffered.
    Accepted,
    ParseFailed { error: String, raw: String },
    InsertFailed(MyError),
    Disconnected,
    ConnectFailed(String),
}

/// What the listener asks of the flush timer.
#[derive(Debug, Clone, Copy, PartialEq, Eq, Structural)]
pub enum Timer {
    /// Leave it as it is.
    Keep,
    /// Start it, to run out after this many seconds.
    Start(u64),
    /// Stop it.
    Stop,
}

/// What the listener asks the outside world to do next.
#[derive(Debug, PartialEq, Eq)]
pub enum Command {
    OpenDatabase,
    Connect,
    ReadNext,
    /// Wait this many seconds.
    Sleep(u64),
    /// Go on with the operation that is under way.
    Wait,
    /// Give up, for this reason.
    Abort(MyError),
}

/// The answer of the listener to one event. A write is handed to the
/// writer and runs alongside whatever the command asks for; its outcome
/// comes back later as an event.
#[derive(Debug, PartialEq, Eq)]
pub struct Step<T> {
    pub notice: Option<Notice>,
    /// Records to write, in this order, in one bulk insert.
    pub write: Option<Vec<T>>,
    pub timer: Timer,
    pub command: Command,
}

/// The mathematical form of a [`Step`].
pub struct Reply<T> {
    pub notice: Option<Notice>,
    pub write: Option<Seq<T>>,
    pub timer: Timer,
    pub command: Command,
}

impl<T> View for Step<T> {
    type V = Reply<T>;

    open spec fn view(&self) -> Reply<T> {
        Reply {
            notice: self.notice,
            write: match self.write {
                Some(batch) => Some(batch@),
                None => None,
            },
            timer: self.timer,
            command: self.command,
        }
    }
}

/// The mathematical form of a listener: its phase and the records it holds
/// that have not been handed out yet, oldest first.
pub struct ListenerState<T> {
    pub phase: Phase,
    pub buffer: Seq<T>,
}

/// Whether the listener is past opening its database and has not given up.
pub open spec fn running(phase: Phase) -> bool {
    phase == Phase::Connecting || phase == Phase::Streaming || phase == Phase::Sleeping
}

/// Whether a listener in `phase` can take `event`.
pub open spec fn expects<T>(phase: Phase, event: Event<T>) -> bool {
    match event {
        Event::DatabaseOpened(_) => phase == Phase::OpeningDatabase,
        Event::ConnectFinished(_) => phase == Phase::Connecting,
        Event::FrameReceived(_) => phase == Phase::Streaming,
        Event::StreamEnded => phase == Phase::Streaming,
        Event::SleepFinished => phase == Phase::Sleeping,
        Event::FlushTimerFired => running(phase),
        Event::InsertFinished(_) => running(phase),
    }
}

/// A reply that writes nothing and leaves the timer alone.
pub open spec fn plain<T>(notice: Option<Notice>, command: Command) -> Reply<T> {
    Reply { notice, write: None, timer: Timer::Keep, command }
}

/// The listener's state after `event`, and its reply.
pub open spec fn next<T>(s: ListenerState<T>, event: Event<T>) -> (ListenerState<T>, Reply<T>) {
    let stay = |phase: Phase| ListenerState { phase, buffer: s.buffer };
    match event {
        Event::DatabaseOpened(Ok(())) => (stay(Phase::Connecting), plain(None, Command::Connect)),
        Event::DatabaseOpened(Err(e)) => (stay(Phase::Stopped), plain(None, Command::Abort(e))),
        Event::ConnectFinished(Ok(())) => (stay(Phase::Streaming), plain(Some(Notice::Connected), Command::ReadNext)),
        Event::ConnectFinished(Err(m)) => (
            stay(Phase::Sleeping),
            plain(Some(Notice::ConnectFailed(m)), Command::Sleep(RECONNECT_DELAY_SECS)),
        ),
        Event::FrameReceived(Frame::Record(x)) => {
            let filled = s.buffer.push(x);
            if filled.len() == BATCH_SIZE {
                (
                    ListenerState { phase: Phase::Streaming, buffer: Seq::empty() },
                    Reply {
                        notice: Some(Notice::Accepted),
                        write: Some(filled),
                        timer: Timer::Stop,
                        command: Command::ReadNext,
                    },
                )
            } else {
                (
                    ListenerState { phase: Phase::Streaming, buffer: filled },
                    Reply {
                        notice: Some(Notice::Accepted),
                        write: None,
                        timer: if s.buffer.len() == 0 { Timer::Start(FLUSH_TIMEOUT_SECS) } else { Timer::Keep },
                        command: Command::ReadNext,
                    },
                )
            }
        },
        Event::FrameReceived(Frame::Malformed { error, raw }) => (
            stay(Phase::Streaming),
            plain(Some(Notice::ParseFailed { error, raw }), Command::ReadNext),
        ),
        Event::FrameReceived(Frame::NotText) => (stay(Phase::Streaming), plain(None, Command::ReadNext)),
        Event::StreamEnded => (
            stay(Phase::Sleeping),
            plain(Some(Notice::Disconnected), Command::Sleep(RECONNECT_DELAY_SECS)),
        ),
        Event::SleepFinished => (stay(Phase::Connecting), plain(None, Command::Connect)),
        Event::FlushTimerFired => {
            if s.buffer.len() > 0 {
                (
                    ListenerState { phase: s.phase, buffer: Seq::empty() },
                    Reply { notice: None, write: Some(s.buffer), timer: Timer::Stop, command: Command::Wait },
                )
            } else {
                (s, plain(None, Command::Wait))
            }
        },
        Event::InsertFinished(Ok(())) => (s, plain(None, Command::Wait)),
        Event::InsertFinished(Err(e)) => (s, plain(Some(Notice::InsertFailed(e)), Command::Wait)),
    }
}

/// The decisions of one stream listener: it buffers decoded records and
/// hands them to the writer in full batches, or whatever it holds once the
/// flush timer runs out, and reconnects whenever the stream drops.
pub struct Listener<T> {
    phase: Phase,
    buffer: Vec<T>,
}

impl<T> View for Listener<T> {
    type V = ListenerState<T>;

    closed spec fn view(&self) -> ListenerState<T> {
        ListenerState { phase: self.phase, buffer: self.buffer@ }
    }
}

impl<T> Listener<T> {
    #[verifier::type_invariant]
    closed spec fn partial_batch(self) -> bool {
        self.buffer@.len() < BATCH_SIZE
    }

    /// A listener that has just been launched: it holds no record and first
    /// asks for its database client.
    pub fn launch() -> (res: (Listener<T>, Step<T>))
        ensures
            res.0@ == (ListenerState::<T> { phase: Phase::OpeningDatabase, buffer: Seq::empty() }),
            res.1@ == plain::<T>(Some(Notice::Launching), Command::OpenDatabase),
    {
        (
            Listener { phase: Phase::OpeningDatabase, buffer: Vec::new() },
            Step { notice: Some(Notice::Launching), write: None, timer: Timer::Keep, command: Command::OpenDatabase },
        )
    }

    /// What the listener is waiting for.
    pub fn phase(&self) -> (p: Phase)
        ensures
            p == self@.phase,
    {
        self.phase
    }

    /// How many records wait to be handed out.
    pub fn buffered(&self) -> (n: usize)
        ensures
            n == self@.buffer.len(),
            n < BATCH_SIZE,
    {
        proof {
            use_type_invariant(self);
        }
        self.buffer.len()
    }

    /// Whether the listener can take `event` now.
    pub fn expects(&self, event: &Event<T>) -> (b: bool)
        ensures
            b == expects(self@.phase, *event),
    {
        let running = matches!(self.phase, Phase::Connecting | Phase::Streaming | Phase::Sleeping);
        match event {
            Event::DatabaseOpened(_) => matches!(self.phase, Phase::OpeningDatabase),
            Event::ConnectFinished(_) => matches!(self.phase, Phase::Connecting),
            Event::FrameReceived(_) => matches!(self.phase, Phase::Streaming),
            Event::StreamEnded => matches!(self.phase, Phase::Streaming),
            Event::SleepFinished => matches!(self.phase, Phase::Sleeping),
            Event::FlushTimerFired => running,
            Event::InsertFinished(_) => running,
        }
    }

    /// Takes one event and answers it.
    pub fn step(&mut self, event: Event<T>) -> (out: Step<T>)
        requires
            expects(old(self)@.phase, event),
        ensures
            (final(self)@, out@) == next(old(self)@, event),
    {
        proof {
            use_type_invariant(&*self);
        }
        let mut buffer: Vec<T> = Vec::new();
        std::mem::swap(&mut buffer, &mut self.buffer);
        match event {
            Event::DatabaseOpened(Ok(())) => {
                self.phase = Phase::Connecting;
                self.buffer = buffer;
                Step { notice: None, write: None, timer: Timer::Keep, command: Command::Connect }
            },
            Event::DatabaseOpened(Err(e)) => {
                self.phase = Phase::Stopped;
                self.buffer = buffer;
                Step { notice: None, write: None, timer: Timer::Keep, command: Command::Abort(e) }
            },
            Event::ConnectFinished(Ok(())) => {
                self.phase = Phase::Streaming;
                self.buffer = buffer;
                Step { notice: Some(Notice::Connected), write: None, timer: Timer::Keep, command: Command::ReadNext }
            },
            Event::ConnectFinished(Err(m)) => {
                self.phase = Phase::Sleeping;
                self.buffer = buffer;
                Step {
                    notice: Some(Notice::ConnectFailed(m)),
                    write: None,
                    timer: Timer::Keep,
                    command: Command::Sleep(RECONNECT_DELAY_SECS),
                }
            },
            Event::FrameReceived(Frame::Record(x)) => {
                let was_empty = buffer.len() == 0;
                buffer.push(x);
                self.phase = Phase::Streaming;
                if buffer.len() == BATCH_SIZE {
                    Step {
                        notice: Some(Notice::Accepted),
                        write: Some(buffer),
                        timer: Timer::Stop,
                        command: Command::ReadNext,
                    }
                } else {
                    self.buffer = buffer;
                    let timer = if was_empty { Timer::Start(FLUSH_TIMEOUT_SECS) } else { Timer::Keep };
                    Step { notice: Some(Notice::Accepted), write: None, timer, command: Command::ReadNext }
                }
            },
            Event::FrameReceived(Frame::Malformed { error, raw }) => {
                self.phase = Phase::Streaming;
                self.buffer = buffer;
                Step {
                    notice: Some(Notice::ParseFailed { error, raw }),
                    write: None,
                    timer: Timer::Keep,
                    command: Command::ReadNext,
                }
            },
            Event::FrameReceived(Frame::NotText) => {
                self.phase = Phase::Streaming;
                self.buffer = buffer;
                Step { notice: None, write: None, timer: Timer::Keep, command: Command::ReadNext }
            },
            Event::StreamEnded => {
                self.phase = Phase::Sleeping;
                self.buffer = buffer;
                Step {
                    notice: Some(Notice::Disconnected),
                    write: None,
                    timer: Timer::Keep,
                    command: Command::Sleep(RECONNECT_DELAY_SECS),
                }
            },
            Event::SleepFinished => {
                self.phase = Phase::Connecting;
                self.buffer = buffer;
                Step { notice: None, write: None, timer: Timer::Keep, command: Command::Connect }
            },
            Event::FlushTimerFired => {
                if buffer.len() > 0 {
                    Step { notice: None, write: Some(buffer), timer: Timer::Stop, command: Command::Wait }
                } else {
                    self.buffer = buffer;
                    Step { notice: None, write: None, timer: Timer::Keep, command: Command::Wait }
                }
            },
            Event::InsertFinished(Ok(())) => {
                self.buffer = buffer;
                Step { notice: None, write: None, timer: Timer::Keep, command: Command::Wait }
            },
            Event::InsertFinished(Err(e)) => {
                self.buffer = buffer;
                Step { notice: Some(Notice::InsertFailed(e)), write: None, timer: Timer::Keep, command: Command::Wait }
            },
        }
    }
}

/// A line for the operator, and whether it belongs on the error stream.
pub struct Report {
    pub text: String,
    pub to_stderr: bool,
}

/// `[label] ` in front of every line of a listener.
pub open spec fn tagged(label: Seq<char>, rest: Seq<char>) -> Seq<char> {
    "["@ + label + "] "@ + rest
}

/// The line reported for `notice` by the listener named `label`; `shown`
/// is the debug rendering of the accepted record, or of the error of a
/// failed insert.
pub open spec fn report_text(notice: Notice, label: Seq<char>, shown: Seq<char>) -> Seq<char> {
    match notice {
        Notice::Launching => tagged(label, "Launching stream listener..."@),
        Notice::Connected => tagged(label, "Connected successfully! Streaming data below:"@),
        Notice::Accepted => tagged(label, shown),
        Notice::ParseFailed { error, raw } => tagged(label, "Parsing Error: "@ + error@ + " | Raw JSON was: "@ + raw@),
        Notice::InsertFailed(_) => tagged(label, "Database bulk insert failed: "@ + shown),
        Notice::Disconnected => tagged(
            label,
            "Stream disconnected. Reconnecting in "@ + decimal(RECONNECT_DELAY_SECS as nat) + " seconds..."@,
        ),
        Notice::ConnectFailed(e) => tagged(
            label,
            "Connection failed: "@ + e@ + ". Retrying in "@ + decimal(RECONNECT_DELAY_SECS as nat) + " seconds..."@,
        ),
    }
}

/// Whether `notice` reports a problem.
pub open spec fn is_problem(notice: Notice) -> bool {
    match notice {
        Notice::Launching | Notice::Connected | Notice::Accepted => false,
        _ => true,
    }
}

impl Notice {
    /// The line that reports this notice for the listener named `label`.
    pub fn report(&self, label: &str, shown: &str) -> (r: Report)
        ensures
            r.text@ == report_text(*self, label@, shown@),
            r.to_stderr == is_problem(*self),
    {
        let mut text = String::from_str("[");
        text.append(label);
        text.append("] ");
        match self {
            Notice::Launching => {
                text.append("Launching stream listener...");
                Report { text, to_stderr: false }
            },
            Notice::Connected => {
                text.append("Connected successfully! Streaming data below:");
                Report { text, to_stderr: false }
            },
            Notice::Accepted => {
                text.append(shown);
                Report { text, to_stderr: false }
            },
            Notice::ParseFailed { error, raw } => {
                text.append("Parsing Error: ");
                text.append(error.as_str());
                text.append(" | Raw JSON was: ");
                text.append(raw.as_str());
                Report { text, to_stderr: true }
            },
            Notice::InsertFailed(_) => {
                text.append("Database bulk insert failed: ");
                text.append(shown);
                Report { text, to_stderr: true }
            },
            Notice::Disconnected => {
                text.append("Stream disconnected. Reconnecting in ");
                let delay = to_decimal(RECONNECT_DELAY_SECS);
                text.append(delay.as_str());
                text.append(" seconds...");
                Report { text, to_stderr: true }
            },
            Notice::ConnectFailed(e) => {
                text.append("Connection failed: ");
                text.append(e.as_str());
                text.append(". Retrying in ");
                let delay = to_decimal(RECONNECT_DELAY_SECS);
                text.append(delay.as_str());
                text.append(" seconds...");
                Report { text, to_stderr: true }
            },
        }
    }
}

} // verus!
