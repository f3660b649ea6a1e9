use vstd::prelude::*;

use crate::ingest::{
    expects, next, Event, Frame, ListenerState, Phase, Reply, Timer, BATCH_SIZE, FLUSH_TIMEOUT_SECS,
};

verus! {

/// The records that a sequence of replies hands to the writer, in order.
pub open spec fn inserted<T>(replies: Seq<Reply<T>>) -> Seq<T>
    decreases replies.len(),
{
    if replies.len() == 0 {
        Seq::empty()
    } else {
        let rest = inserted(replies.drop_first());
        match replies[0].write {
            Some(batch) => batch + rest,
            None => rest,
        }
    }
}

/// The decoded records that a sequence of events brings in, in order.
pub open spec fn accepted<T>(events: Seq<Event<T>>) -> Seq<T>
    decreases events.len(),
{
    if events.len() == 0 {
        Seq::empty()
    } else {
        let rest = accepted(events.drop_first());
        match events[0] {
            Event::FrameReceived(Frame::Record(x)) => seq![x] + rest,
            _ => rest,
        }
    }
}

/// The listener's state after taking `events` one by one from `s`, and its
/// reply to each of them.
pub open spec fn run<T>(s: ListenerState<T>, events: Seq<Event<T>>) -> (ListenerState<T>, Seq<Reply<T>>)
    decreases events.len(),
{
    if events.len() == 0 {
        (s, Seq::empty())
    } else {
        let first = next(s, events[0]);
        let rest = run(first.0, events.drop_first());
        (rest.0, seq![first.1] + rest.1)
    }
}

/// A write answering `event` is never empty and never more than a full
/// batch, and it is less than a full batch only when the flush timer ran out.
pub open spec fn write_fits<T>(event: Event<T>, reply: Reply<T>) -> bool {
    match reply.write {
        Some(batch) => {
            &&& 0 < batch.len() <= BATCH_SIZE
            &&& batch.len() < BATCH_SIZE ==> event is FlushTimerFired
        },
        None => true,
    }
}

/// Whether the flush timer runs after `timer` was asked of it, given
/// whether it ran before.
pub open spec fn runs_after(ran: bool, timer: Timer) -> bool {
    match timer {
        Timer::Keep => ran,
        Timer::Start(_) => true,
        Timer::Stop => false,
    }
}

/// A listener never holds a full batch, and what it writes fits: whatever
/// it is given, it holds fewer than `BATCH_SIZE` records afterwards.
pub proof fn lemma_buffer_stays_partial<T>(s: ListenerState<T>, event: Event<T>)
    requires
        s.buffer.len() < BATCH_SIZE,
    ensures
        next(s, event).0.buffer.len() < BATCH_SIZE,
        write_fits(event, next(s, event).1),
{
}

/// The flush timer runs exactly while records are held: it is started with
/// `FLUSH_TIMEOUT_SECS` when the first record comes into an empty buffer
/// and stopped when the buffer is handed out, so no record waits without a
/// timer that will have it written.
pub proof fn lemma_timer_runs_while_records_wait<T>(s: ListenerState<T>, event: Event<T>)
    requires
        s.buffer.len() < BATCH_SIZE,
    ensures
        runs_after(s.buffer.len() > 0, next(s, event).1.timer) == (next(s, event).0.buffer.len() > 0),
        next(s, event).1.timer matches Timer::Start(secs) ==> secs == FLUSH_TIMEOUT_SECS,
{
}

/// When the flush timer runs out, every record held is handed to the
/// writer, oldest first, whatever the listener was doing, and it goes on
/// doing it.
pub proof fn lemma_flush_writes_what_waits<T>(s: ListenerState<T>)
    requires
        s.buffer.len() > 0,
    ensures
        next(s, Event::<T>::FlushTimerFired).1.write == Some(s.buffer),
        next(s, Event::<T>::FlushTimerFired).0 == (ListenerState::<T> { phase: s.phase, buffer: Seq::empty() }),
{
}

/// Writing never holds up reading: handing out a write leaves the listener
/// in its phase, a streaming listener takes frames and write outcomes
/// alike, and only the end of the stream makes it stop reading.
pub proof fn lemma_writes_do_not_block_reading<T>(s: ListenerState<T>, event: Event<T>, frame: Frame<T>)
    ensures
        expects(Phase::Streaming, Event::FrameReceived(frame)),
        s.phase == Phase::Streaming && expects(s.phase, event) && !(event is StreamEnded) ==> next(s, event).0.phase
            == Phase::Streaming,
        expects(s.phase, event) && next(s, event).1.write is Some ==> next(s, event).0.phase == s.phase,
        (event is InsertFinished || event is FlushTimerFired) ==> next(s, event).0.phase == s.phase,
{
}

/// Only a decoded record or the flush timer changes what the listener
/// holds: connection failures, disconnects, reconnect delays, undecodable
/// or non-text frames and write outcomes leave the buffer as it was and
/// write nothing.
pub proof fn lemma_only_records_and_timer_touch_buffer<T>(s: ListenerState<T>, event: Event<T>)
    requires
        !(event matches Event::FrameReceived(Frame::Record(_))),
        !(event is FlushTimerFired),
    ensures
        next(s, event).0.buffer == s.buffer,
        next(s, event).1.write is None,
{
}

/// A listener that gave up takes no further event.
pub proof fn lemma_stopped_is_final<T>(event: Event<T>)
    ensures
        !expects(Phase::Stopped, event),
{
}

/// Over any sequence of events, no decoded record is lost, duplicated or
/// reordered: the records handed to the writer so far, followed by those
/// still held, are the records held at the start followed by every record
/// decoded, in arrival order. Every write holds at most a full batch, and
/// less than a full batch only when it answers the flush timer.
pub proof fn lemma_records_are_conserved<T>(s: ListenerState<T>, events: Seq<Event<T>>)
    requires
        s.buffer.len() < BATCH_SIZE,
    ensures
        inserted(run(s, events).1) + run(s, events).0.buffer == s.buffer + accepted(events),
        run(s, events).0.buffer.len() < BATCH_SIZE,
        run(s, events).1.len() == events.len(),
        forall|i: int| 0 <= i < events.len() ==> write_fits(events[i], #[trigger] run(s, events).1[i]),
    decreases events.len(),
{
    if events.len() > 0 {
        let e = events[0];
        let rest = events.drop_first();
        let first = next(s, e);
        lemma_buffer_stays_partial(s, e);
        lemma_records_are_conserved(first.0, rest);
        let tail = run(first.0, rest);
        let replies = seq![first.1] + tail.1;
        assert(replies.drop_first() =~= tail.1);
        assert forall|i: int| 0 <= i < events.len() implies write_fits(events[i], #[trigger] replies[i]) by {
            if i > 0 {
                assert(replies[i] == tail.1[i - 1]);
                assert(events[i] == rest[i - 1]);
            }
        }
        match e {
            Event::FrameReceived(Frame::Record(x)) => {
                assert(accepted(events) == seq![x] + accepted(rest));
                if s.buffer.push(x).len() == BATCH_SIZE {
                    assert(inserted(replies) == s.buffer.push(x) + inserted(tail.1));
                    assert(first.0.buffer =~= Seq::<T>::empty());
                    assert(s.buffer.push(x) + inserted(tail.1) + tail.0.buffer
                        =~= s.buffer + (seq![x] + (inserted(tail.1) + tail.0.buffer)));
                } else {
                    assert(inserted(replies) == inserted(tail.1));
                    assert(s.buffer.push(x) + accepted(rest) =~= s.buffer + (seq![x] + accepted(rest)));
                }
            },
            Event::FlushTimerFired => {
                assert(accepted(events) == accepted(rest));
                if s.buffer.len() > 0 {
                    assert(inserted(replies) == s.buffer + inserted(tail.1));
                    assert(first.0.buffer =~= Seq::<T>::empty());
                    assert(s.buffer + inserted(tail.1) + tail.0.buffer
                        =~= s.buffer + (inserted(tail.1) + tail.0.buffer));
                } else {
                    assert(inserted(replies) == inserted(tail.1));
                }
            },
            _ => {
                lemma_only_records_and_timer_touch_buffer(s, e);
                assert(accepted(events) == accepted(rest));
                assert(inserted(replies) == inserted(tail.1));
            },
        }
    } else {
        assert(s.buffer + accepted(events) =~= s.buffer);
        assert(inserted(run(s, events).1) + s.buffer =~= s.buffer);
    }
}

/// The writes that a sequence of replies hands out, one batch per write,
/// in order.
pub open spec fn writes<T>(replies: Seq<Reply<T>>) -> Seq<Seq<T>>
    decreases replies.len(),
{
    if replies.len() == 0 {
        Seq::empty()
    } else {
        let rest = writes(replies.drop_first());
        match replies[0].write {
            Some(batch) => seq![batch] + rest,
            None => rest,
        }
    }
}

/// A frame that did not decode, or that carries no text.
pub open spec fn skipped<T>(event: Event<T>) -> bool {
    ||| event matches Event::FrameReceived(Frame::Malformed { .. })
    ||| event matches Event::FrameReceived(Frame::NotText)
}

/// `events` without the frames that did not decode or carry no text.
pub open spec fn without_skipped<T>(events: Seq<Event<T>>) -> Seq<Event<T>>
    decreases events.len(),
{
    if events.len() == 0 {
        Seq::empty()
    } else {
        let rest = without_skipped(events.drop_first());
        if skipped(events[0]) {
            rest
        } else {
            seq![events[0]] + rest
        }
    }
}

/// Whether every event of `events` comes in turn, taken one by one from `s`.
pub open spec fn in_turn<T>(s: ListenerState<T>, events: Seq<Event<T>>) -> bool
    decreases events.len(),
{
    events.len() == 0 || (expects(s.phase, events[0]) && in_turn(next(s, events[0]).0, events.drop_first()))
}

/// Frames that do not decode or carry no text change nothing but what is
/// reported: a run in turn ends in the same state, and hands out the same
/// writes, as the same run without them.
pub proof fn lemma_skipped_frames_change_nothing<T>(s: ListenerState<T>, events: Seq<Event<T>>)
    requires
        in_turn(s, events),
    ensures
        in_turn(s, without_skipped(events)),
        run(s, events).0 == run(s, without_skipped(events)).0,
        writes(run(s, events).1) == writes(run(s, without_skipped(events)).1),
    decreases events.len(),
{
    if events.len() > 0 {
        let e = events[0];
        let rest = events.drop_first();
        let first = next(s, e);
        let tail = run(first.0, rest);
        assert((seq![first.1] + tail.1).drop_first() =~= tail.1);
        if skipped(e) {
            assert(first.0 == s);
            lemma_skipped_frames_change_nothing(s, rest);
            assert(without_skipped(events) == without_skipped(rest));
        } else {
            lemma_skipped_frames_change_nothing(first.0, rest);
            let kept = without_skipped(events);
            assert(kept == seq![e] + without_skipped(rest));
            assert(kept[0] == e);
            assert(kept.drop_first() =~= without_skipped(rest));
            let kept_tail = run(first.0, without_skipped(rest));
            assert((seq![first.1] + kept_tail.1).drop_first() =~= kept_tail.1);
        }
    }
}

/// Two runs in turn from the same state that differ only by frames that do
/// not decode or carry no text end in the same state and hand out the same
/// writes, batch for batch.
pub proof fn lemma_runs_differing_by_skipped_frames_write_alike<T>(
    s: ListenerState<T>,
    first_run: Seq<Event<T>>,
    second_run: Seq<Event<T>>,
)
    requires
        in_turn(s, first_run),
        in_turn(s, second_run),
        without_skipped(first_run) == without_skipped(second_run),
    ensures
        run(s, first_run).0 == run(s, second_run).0,
        writes(run(s, first_run).1) == writes(run(s, second_run).1),
{
    lemma_skipped_frames_change_nothing(s, first_run);
    lemma_skipped_frames_change_nothing(s, second_run);
}

} // verus!
