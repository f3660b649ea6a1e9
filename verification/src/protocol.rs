use vstd::prelude::*;

use crate::database::MyError;
use crate::ingest::{
    expects, next, report_text, is_problem, Command, Event, Frame, ListenerState, Notice, Phase, Timer,
    BATCH_SIZE, FLUSH_TIMEOUT_SECS, RECONNECT_DELAY_SECS,
};
use crate::text::decimal;

verus! {

/// A batch is fifty records, the reconnect delay five seconds and the
/// flush timeout one second.
pub proof fn lemma_settings()
    ensures
        BATCH_SIZE == 50,
        RECONNECT_DELAY_SECS == 5,
        FLUSH_TIMEOUT_SECS == 1,
{
}

/// Which events a listener takes in which phase: the database outcome only
/// while opening it, a connection outcome only while connecting, frames and
/// the end of the stream only while streaming, the end of the delay only
/// while it runs; the flush timer and write outcomes in every phase between
/// opening the database and giving up; nothing once stopped.
pub proof fn lemma_acceptance<T>(
    p: Phase,
    db: Result<(), MyError>,
    conn: Result<(), String>,
    frame: Frame<T>,
    outcome: Result<(), MyError>,
)
    ensures
        expects(p, Event::<T>::DatabaseOpened(db)) <==> p == Phase::OpeningDatabase,
        expects(p, Event::<T>::ConnectFinished(conn)) <==> p == Phase::Connecting,
        expects(p, Event::FrameReceived(frame)) <==> p == Phase::Streaming,
        expects(p, Event::<T>::StreamEnded) <==> p == Phase::Streaming,
        expects(p, Event::<T>::SleepFinished) <==> p == Phase::Sleeping,
        expects(p, Event::<T>::FlushTimerFired) <==> (p == Phase::Connecting || p == Phase::Streaming || p
            == Phase::Sleeping),
        expects(p, Event::<T>::InsertFinished(outcome)) <==> (p == Phase::Connecting || p == Phase::Streaming
            || p == Phase::Sleeping),
{
}

/// Every command is answered in the phase that takes its outcome: after
/// `Connect` the listener is connecting and takes any connection outcome,
/// after `Sleep` it sleeps five seconds and takes the end of the delay,
/// after `ReadNext` it streams and takes any frame and the end of the
/// stream, `Wait` keeps the phase, `Abort` stops it; the database is never
/// asked for twice.
pub proof fn lemma_commands_meet_their_outcomes<T>(
    s: ListenerState<T>,
    event: Event<T>,
    conn: Result<(), String>,
    frame: Frame<T>,
)
    requires
        expects(s.phase, event),
    ensures
        ({
            let (t, r) = next(s, event);
            &&& r.command is Connect ==> t.phase == Phase::Connecting && expects(t.phase, Event::<T>::ConnectFinished(conn))
            &&& r.command is Sleep ==> r.command == Command::Sleep(5) && t.phase == Phase::Sleeping && expects(
                t.phase,
                Event::<T>::SleepFinished,
            )
            &&& r.command is ReadNext ==> t.phase == Phase::Streaming && expects(t.phase, Event::FrameReceived(frame))
                && expects(t.phase, Event::<T>::StreamEnded)
            &&& r.command is Wait ==> t.phase == s.phase
            &&& r.command is Abort ==> t.phase == Phase::Stopped
            &&& !(r.command is OpenDatabase)
        }),
{
}

/// A dropped stream or a failed connection is followed by a five-second
/// delay and a new connection attempt; the records held stay held all the
/// way through, and a successful attempt goes back to reading.
pub proof fn lemma_reconnect_keeps_records<T>(s: ListenerState<T>, reason: String)
    requires
        s.phase == Phase::Streaming,
    ensures
        ({
            let (asleep, r1) = next(s, Event::StreamEnded);
            let (connecting, r2) = next(asleep, Event::SleepFinished);
            let (refused, r3) = next(connecting, Event::ConnectFinished(Err(reason)));
            let (streaming, r4) = next(connecting, Event::ConnectFinished(Ok(())));
            &&& asleep == ListenerState::<T> { phase: Phase::Sleeping, buffer: s.buffer }
            &&& r1.command == Command::Sleep(5) && r1.write is None && r1.notice == Some(Notice::Disconnected)
            &&& connecting == ListenerState::<T> { phase: Phase::Connecting, buffer: s.buffer }
            &&& r2.command == Command::Connect && r2.write is None
            &&& refused == ListenerState::<T> { phase: Phase::Sleeping, buffer: s.buffer }
            &&& r3.command == Command::Sleep(5) && r3.notice == Some(Notice::ConnectFailed(reason))
            &&& streaming == ListenerState::<T> { phase: Phase::Streaming, buffer: s.buffer }
            &&& r4.command == Command::ReadNext && r4.notice == Some(Notice::Connected)
        }),
{
}

/// Opening the database: success leads to the first connection attempt,
/// failure stops the listener with that very error.
pub proof fn lemma_database_outcome<T>(s: ListenerState<T>, e: MyError)
    requires
        s.phase == Phase::OpeningDatabase,
    ensures
        next(s, Event::<T>::DatabaseOpened(Ok(()))).0.phase == Phase::Connecting,
        next(s, Event::<T>::DatabaseOpened(Ok(()))).1.command == Command::Connect,
        next(s, Event::<T>::DatabaseOpened(Err(e))).0.phase == Phase::Stopped,
        next(s, Event::<T>::DatabaseOpened(Err(e))).1.command == Command::Abort(e),
{
}

/// A decoded record is buffered behind the records already held; the
/// fiftieth is handed out with them as one batch, oldest first, and the
/// first one into an empty buffer starts a one-second flush timer.
pub proof fn lemma_record_is_buffered<T>(s: ListenerState<T>, x: T)
    requires
        s.phase == Phase::Streaming,
        s.buffer.len() < 50,
    ensures
        ({
            let (t, r) = next(s, Event::FrameReceived(Frame::Record(x)));
            &&& t.phase == Phase::Streaming
            &&& r.notice == Some(Notice::Accepted)
            &&& r.command == Command::ReadNext
            &&& s.buffer.len() == 49 ==> r.write == Some(s.buffer.push(x)) && t.buffer.len() == 0 && r.timer
                == Timer::Stop
            &&& s.buffer.len() < 49 ==> r.write is None && t.buffer == s.buffer.push(x)
            &&& s.buffer.len() == 0 ==> r.timer == Timer::Start(1)
            &&& 0 < s.buffer.len() < 49 ==> r.timer == Timer::Keep
        }),
{
}

/// Outcomes of the outside world are reported as such: a frame that does
/// not decode with its error and text, a failed write with its error, a
/// frame without text not at all, a successful write not at all.
pub proof fn lemma_outcomes_are_reported<T>(s: ListenerState<T>, error: String, raw: String, e: MyError)
    ensures
        next(s, Event::<T>::FrameReceived(Frame::Malformed { error, raw })).1.notice == Some(
            Notice::ParseFailed { error, raw },
        ),
        next(s, Event::<T>::FrameReceived(Frame::NotText)).1.notice is None,
        next(s, Event::<T>::InsertFinished(Err(e))).1.notice == Some(Notice::InsertFailed(e)),
        next(s, Event::<T>::InsertFinished(Ok(()))).1.notice is None,
        next(s, Event::<T>::InsertFinished(Err(e))).0 == s,
        next(s, Event::<T>::InsertFinished(Ok(()))).0 == s,
{
}

/// Every line of a listener starts with its label in brackets; problems go
/// to the error stream; the lines say what happened in the listener's own
/// words, with the error and the raw text of a frame that does not decode.
pub proof fn lemma_report_lines(label: Seq<char>, shown: Seq<char>, error: String, raw: String, e: MyError, m: String)
    ensures
        report_text(Notice::Launching, label, shown) == "["@ + label + "] Launching stream listener..."@,
        report_text(Notice::Connected, label, shown) == "["@ + label + "] Connected successfully! Streaming data below:"@,
        report_text(Notice::Accepted, label, shown) == "["@ + label + "] "@ + shown,
        report_text(Notice::ParseFailed { error, raw }, label, shown) == "["@ + label + "] Parsing Error: "@ + error@
            + " | Raw JSON was: "@ + raw@,
        report_text(Notice::InsertFailed(e), label, shown) == "["@ + label + "] Database bulk insert failed: "@ + shown,
        report_text(Notice::Disconnected, label, shown) == "["@ + label
            + "] Stream disconnected. Reconnecting in 5 seconds..."@,
        report_text(Notice::ConnectFailed(m), label, shown) == "["@ + label + "] Connection failed: "@ + m@
            + ". Retrying in 5 seconds..."@,
        !is_problem(Notice::Launching) && !is_problem(Notice::Connected) && !is_problem(Notice::Accepted),
        is_problem(Notice::ParseFailed { error, raw }) && is_problem(Notice::InsertFailed(e)) && is_problem(
            Notice::Disconnected,
        ) && is_problem(Notice::ConnectFailed(m)),
{
    reveal_strlit("[");
    reveal_strlit("] ");
    reveal_strlit("5");
    reveal_strlit("Launching stream listener...");
    reveal_strlit("] Launching stream listener...");
    reveal_strlit("Connected successfully! Streaming data below:");
    reveal_strlit("] Connected successfully! Streaming data below:");
    reveal_strlit("Parsing Error: ");
    reveal_strlit("] Parsing Error: ");
    reveal_strlit("Database bulk insert failed: ");
    reveal_strlit("] Database bulk insert failed: ");
    reveal_strlit("Stream disconnected. Reconnecting in ");
    reveal_strlit(" seconds...");
    reveal_strlit("] Stream disconnected. Reconnecting in 5 seconds...");
    reveal_strlit("Connection failed: ");
    reveal_strlit("] Connection failed: ");
    reveal_strlit(". Retrying in ");
    reveal_strlit(". Retrying in 5 seconds...");
    assert(decimal(5) == seq!['5']);
    assert("["@ + label + "] "@ + "Launching stream listener..."@ =~= "["@ + label
        + "] Launching stream listener..."@);
    assert("["@ + label + "] "@ + "Connected successfully! Streaming data below:"@ =~= "["@ + label
        + "] Connected successfully! Streaming data below:"@);
    assert("["@ + label + "] "@ + ("Parsing Error: "@ + error@ + " | Raw JSON was: "@ + raw@) =~= "["@ + label
        + "] Parsing Error: "@ + error@ + " | Raw JSON was: "@ + raw@);
    assert("["@ + label + "] "@ + ("Database bulk insert failed: "@ + shown) =~= "["@ + label
        + "] Database bulk insert failed: "@ + shown);
    assert("["@ + label + "] "@ + ("Stream disconnected. Reconnecting in "@ + decimal(5) + " seconds..."@)
        =~= "["@ + label + "] Stream disconnected. Reconnecting in 5 seconds..."@);
    assert("["@ + label + "] "@ + ("Connection failed: "@ + m@ + ". Retrying in "@ + decimal(5) + " seconds..."@)
        =~= "["@ + label + "] Connection failed: "@ + m@ + ". Retrying in 5 seconds..."@);
}

} // verus!
