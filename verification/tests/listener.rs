use data_inject::database::MyError;
use data_inject::ingest::{
    Command, Event, Frame, Listener, Notice, Phase, Step, Timer, BATCH_SIZE, FLUSH_TIMEOUT_SECS,
    RECONNECT_DELAY_SECS,
};

fn plain(notice: Option<Notice>, command: Command) -> Step<u32> {
    Step { notice, write: None, timer: Timer::Keep, command }
}

fn streaming() -> Listener<u32> {
    let (mut l, first) = Listener::<u32>::launch();
    assert_eq!(first, plain(Some(Notice::Launching), Command::OpenDatabase));
    assert_eq!(l.phase(), Phase::OpeningDatabase);
    assert_eq!(l.step(Event::DatabaseOpened(Ok(()))), plain(None, Command::Connect));
    assert_eq!(l.step(Event::ConnectFinished(Ok(()))), plain(Some(Notice::Connected), Command::ReadNext));
    assert_eq!(l.phase(), Phase::Streaming);
    l
}

#[test]
fn first_record_starts_the_flush_timer() {
    let mut l = streaming();
    let s = l.step(Event::FrameReceived(Frame::Record(0)));
    assert_eq!(
        s,
        Step {
            notice: Some(Notice::Accepted),
            write: None,
            timer: Timer::Start(FLUSH_TIMEOUT_SECS),
            command: Command::ReadNext,
        }
    );
    let s = l.step(Event::FrameReceived(Frame::Record(1)));
    assert_eq!(s, plain(Some(Notice::Accepted), Command::ReadNext));
    assert_eq!(FLUSH_TIMEOUT_SECS, 1);
}

#[test]
fn batch_is_written_when_the_fiftieth_record_arrives() {
    let mut l = streaming();
    for i in 0..49u32 {
        let s = l.step(Event::FrameReceived(Frame::Record(i)));
        assert_eq!(s.notice, Some(Notice::Accepted));
        assert_eq!(s.write, None);
        assert_eq!(s.command, Command::ReadNext);
        assert_eq!(l.buffered(), i as usize + 1);
    }
    let s = l.step(Event::FrameReceived(Frame::Record(49)));
    assert_eq!(
        s,
        Step {
            notice: Some(Notice::Accepted),
            write: Some((0..50u32).collect()),
            timer: Timer::Stop,
            command: Command::ReadNext,
        }
    );
    assert_eq!(l.buffered(), 0);
    assert_eq!(l.phase(), Phase::Streaming);
    assert_eq!(BATCH_SIZE, 50);
}

#[test]
fn flush_timer_writes_a_partial_batch() {
    let mut l = streaming();
    for i in 0..7u32 {
        l.step(Event::FrameReceived(Frame::Record(i)));
    }
    let s = l.step(Event::FlushTimerFired);
    assert_eq!(
        s,
        Step { notice: None, write: Some((0..7u32).collect()), timer: Timer::Stop, command: Command::Wait }
    );
    assert_eq!(l.buffered(), 0);
    assert_eq!(l.phase(), Phase::Streaming);
    assert_eq!(l.step(Event::FlushTimerFired), plain(None, Command::Wait));
    let s = l.step(Event::FrameReceived(Frame::Record(7)));
    assert_eq!(s.timer, Timer::Start(FLUSH_TIMEOUT_SECS));
}

#[test]
fn flush_timer_writes_records_held_across_a_disconnect() {
    let mut l = streaming();
    for i in 0..3u32 {
        l.step(Event::FrameReceived(Frame::Record(i)));
    }
    l.step(Event::StreamEnded);
    assert_eq!(l.phase(), Phase::Sleeping);
    let s = l.step(Event::FlushTimerFired);
    assert_eq!(s.write, Some(vec![0, 1, 2]));
    assert_eq!(s.command, Command::Wait);
    assert_eq!(l.phase(), Phase::Sleeping);
}

#[test]
fn reading_goes_on_while_a_write_is_outstanding() {
    let mut l = streaming();
    for i in 0..50u32 {
        l.step(Event::FrameReceived(Frame::Record(i)));
    }
    assert_eq!(l.phase(), Phase::Streaming);
    assert!(l.expects(&Event::FrameReceived(Frame::Record(50))));
    l.step(Event::FrameReceived(Frame::Record(50)));
    assert_eq!(l.step(Event::InsertFinished(Ok(()))), plain(None, Command::Wait));
    assert_eq!(l.phase(), Phase::Streaming);
    assert_eq!(l.buffered(), 1);
}

#[test]
fn failed_insert_is_reported_and_reading_goes_on() {
    let mut l = streaming();
    l.step(Event::FrameReceived(Frame::Record(1)));
    let err = MyError("Bitcoin SQLite bulk insert failed: database is locked".to_string());
    let s = l.step(Event::InsertFinished(Err(err.clone())));
    assert_eq!(s, plain(Some(Notice::InsertFailed(err)), Command::Wait));
    assert_eq!(l.buffered(), 1);
    assert_eq!(l.phase(), Phase::Streaming);
}

#[test]
fn malformed_and_non_text_frames_are_skipped() {
    let mut l = streaming();
    l.step(Event::FrameReceived(Frame::Record(1)));
    let s = l.step(Event::FrameReceived(Frame::Malformed {
        error: "expected value at line 1 column 1".to_string(),
        raw: "oops".to_string(),
    }));
    assert_eq!(
        s,
        plain(
            Some(Notice::ParseFailed {
                error: "expected value at line 1 column 1".to_string(),
                raw: "oops".to_string(),
            }),
            Command::ReadNext,
        )
    );
    let s = l.step(Event::FrameReceived(Frame::NotText));
    assert_eq!(s, plain(None, Command::ReadNext));
    assert_eq!(l.buffered(), 1);
}

#[test]
fn disconnect_keeps_buffered_records_and_reconnects_after_delay() {
    let mut l = streaming();
    for i in 0..30u32 {
        l.step(Event::FrameReceived(Frame::Record(i)));
    }
    let s = l.step(Event::StreamEnded);
    assert_eq!(s, plain(Some(Notice::Disconnected), Command::Sleep(RECONNECT_DELAY_SECS)));
    assert_eq!(RECONNECT_DELAY_SECS, 5);
    assert_eq!(l.phase(), Phase::Sleeping);
    assert_eq!(l.step(Event::SleepFinished), plain(None, Command::Connect));
    let s = l.step(Event::ConnectFinished(Err("connection refused".to_string())));
    assert_eq!(s, plain(Some(Notice::ConnectFailed("connection refused".to_string())), Command::Sleep(5)));
    l.step(Event::SleepFinished);
    l.step(Event::ConnectFinished(Ok(())));
    assert_eq!(l.buffered(), 30);
    for i in 30..49u32 {
        l.step(Event::FrameReceived(Frame::Record(i)));
    }
    let s = l.step(Event::FrameReceived(Frame::Record(49)));
    assert_eq!(s.write, Some((0..50u32).collect()));
}

#[test]
fn unopenable_database_stops_the_listener() {
    let (mut l, _) = Listener::<u32>::launch();
    let err = MyError("Failed to connect to SQLite: unable to open database file".to_string());
    let s = l.step(Event::DatabaseOpened(Err(err.clone())));
    assert_eq!(s, plain(None, Command::Abort(err)));
    assert_eq!(l.phase(), Phase::Stopped);
    assert!(!l.expects(&Event::SleepFinished));
    assert!(!l.expects(&Event::StreamEnded));
    assert!(!l.expects(&Event::FlushTimerFired));
    assert!(!l.expects(&Event::InsertFinished(Ok(()))));
}

#[test]
fn listener_expects_only_the_events_of_its_phase() {
    let (l, _) = Listener::<u32>::launch();
    assert!(l.expects(&Event::DatabaseOpened(Ok(()))));
    assert!(!l.expects(&Event::ConnectFinished(Ok(()))));
    assert!(!l.expects(&Event::FrameReceived(Frame::NotText)));
    assert!(!l.expects(&Event::FlushTimerFired));
    let l = streaming();
    assert!(l.expects(&Event::FrameReceived(Frame::Record(3))));
    assert!(l.expects(&Event::StreamEnded));
    assert!(l.expects(&Event::InsertFinished(Ok(()))));
    assert!(l.expects(&Event::FlushTimerFired));
    assert!(!l.expects(&Event::SleepFinished));
    assert!(!l.expects(&Event::ConnectFinished(Ok(()))));
}

#[test]
fn records_are_conserved_over_a_long_run() {
    let mut l = streaming();
    let mut written: Vec<u32> = Vec::new();
    for i in 0..130u32 {
        if i == 70 {
            l.step(Event::StreamEnded);
            l.step(Event::SleepFinished);
            l.step(Event::ConnectFinished(Ok(())));
        }
        if i == 110 {
            let s = l.step(Event::FlushTimerFired);
            let batch = s.write.expect("records were waiting");
            assert_eq!(batch.len(), 10);
            written.extend(batch);
        }
        let s = l.step(Event::FrameReceived(Frame::Record(i)));
        if let Some(batch) = s.write {
            assert_eq!(batch.len(), BATCH_SIZE);
            written.extend(batch);
            l.step(Event::InsertFinished(Ok(())));
        }
    }
    assert_eq!(written, (0..110u32).collect::<Vec<_>>());
    assert_eq!(l.buffered(), 20);
}

#[test]
fn report_lines() {
    let line = |n: Notice, shown: &str| {
        let r = n.report("BTC", shown);
        (r.text, r.to_stderr)
    };
    assert_eq!(line(Notice::Launching, ""), ("[BTC] Launching stream listener...".to_string(), false));
    assert_eq!(
        line(Notice::Connected, ""),
        ("[BTC] Connected successfully! Streaming data below:".to_string(), false)
    );
    assert_eq!(
        line(Notice::Accepted, "BitcoinData { agg_trade_id: 1 }"),
        ("[BTC] BitcoinData { agg_trade_id: 1 }".to_string(), false)
    );
    assert_eq!(
        line(Notice::ParseFailed { error: "EOF".to_string(), raw: "{".to_string() }, ""),
        ("[BTC] Parsing Error: EOF | Raw JSON was: {".to_string(), true)
    );
    assert_eq!(
        line(Notice::InsertFailed(MyError("x".to_string())), "MyError(\"x\")"),
        ("[BTC] Database bulk insert failed: MyError(\"x\")".to_string(), true)
    );
    assert_eq!(
        line(Notice::Disconnected, ""),
        ("[BTC] Stream disconnected. Reconnecting in 5 seconds...".to_string(), true)
    );
    assert_eq!(
        line(Notice::ConnectFailed("timed out".to_string()), ""),
        ("[BTC] Connection failed: timed out. Retrying in 5 seconds...".to_string(), true)
    );
}

#[test]
fn undecodable_frames_change_no_write() {
    let feed = |noisy: bool| {
        let mut l = streaming();
        let mut writes: Vec<Vec<u32>> = Vec::new();
        for i in 0..120u32 {
            if noisy && i % 3 == 0 {
                l.step(Event::FrameReceived(Frame::Malformed { error: "EOF".to_string(), raw: "{}".to_string() }));
                l.step(Event::FrameReceived(Frame::NotText));
            }
            if let Some(batch) = l.step(Event::FrameReceived(Frame::Record(i))).write {
                writes.push(batch);
            }
            if i == 105 {
                writes.extend(l.step(Event::FlushTimerFired).write);
            }
        }
        (writes, l.buffered(), l.phase())
    };
    assert_eq!(feed(false), feed(true));
    assert_eq!(feed(true).0.len(), 3);
}
