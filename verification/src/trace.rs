//! Whole runs of a session: what holds after any sequence of events.

use vstd::prelude::*;
use vstd::utf8::valid_utf8;
use crate::command::spec_peek_command;
use crate::error::DumpError;
use crate::range::AddressRange;
use crate::response::{spec_word, spec_word_bytes};
use crate::session::{ActionView, DumpSession, EventView, Phase};

verus! {

/// The session after the events of `events`, taken in turn.
pub open spec fn spec_run(session: DumpSession, events: Seq<EventView>) -> DumpSession
    decreases events.len(),
{
    if events.len() == 0 {
        session
    } else {
        spec_run(session.spec_step(events[0]).0, events.skip(1))
    }
}

/// The bytes that reached the output while `events` came in: the two bytes
/// of each word whose storing was reported, in the order of the reports.
pub open spec fn spec_stored(session: DumpSession, events: Seq<EventView>) -> Seq<u8>
    decreases events.len(),
{
    if events.len() == 0 {
        Seq::empty()
    } else {
        let head = match (session.phase, events[0]) {
            (Phase::Storing { word }, EventView::Written) => spec_word_bytes(word),
            _ => Seq::empty(),
        };
        head + spec_stored(session.spec_step(events[0]).0, events.skip(1))
    }
}

/// One step keeps a session well formed, never changes its window and never
/// lowers its counters.
pub proof fn lemma_step_keeps_wf(session: DumpSession, event: EventView)
    requires
        session.wf(),
    ensures
        session.spec_step(event).0.wf(),
        session.spec_step(event).0.range == session.range,
        session.spec_step(event).0.words_done >= session.words_done,
        session.spec_step(event).0.bytes_written >= session.bytes_written,
{
}

/// Whatever the events, the number of bytes stored is twice the number of
/// words done, and it grew by exactly the bytes that reached the output. A
/// run that was cut short has stored the words read before that and nothing
/// more.
pub proof fn lemma_stored_bytes_counted(session: DumpSession, events: Seq<EventView>)
    requires
        session.wf(),
    ensures
        spec_run(session, events).wf(),
        spec_run(session, events).range == session.range,
        spec_run(session, events).bytes_written == 2 * spec_run(session, events).words_done,
        spec_run(session, events).bytes_written == session.bytes_written + spec_stored(
            session,
            events,
        ).len(),
    decreases events.len(),
{
    if events.len() > 0 {
        lemma_step_keeps_wf(session, events[0]);
        lemma_stored_bytes_counted(session.spec_step(events[0]).0, events.skip(1));
    }
}

/// A dump that finished has stored one word for each address of its window:
/// twice as many bytes as addresses.
pub proof fn lemma_finished_dump_is_whole(range: AddressRange, events: Seq<EventView>)
    requires
        range.wf(),
        spec_run(DumpSession::spec_start(range), events).phase == Phase::Finished,
    ensures
        spec_stored(DumpSession::spec_start(range), events).len() == 2 * range.spec_len(),
        spec_run(DumpSession::spec_start(range), events).bytes_written == 2
            * range.spec_addresses().len(),
{
    lemma_stored_bytes_counted(DumpSession::spec_start(range), events);
}

/// The count that a finished session reports is that of the whole window.
pub proof fn lemma_finish_reports_whole_window(session: DumpSession, event: EventView)
    requires
        session.wf(),
        session.spec_step(event).1 is Finish,
    ensures
        session.spec_step(event).1 == ActionView::Finish(
            (2 * session.range.spec_len()) as usize,
        ),
{
}

/// Every query asks for the address of the window that comes after the
/// words done so far.
pub proof fn lemma_queries_follow_window(session: DumpSession, event: EventView)
    requires
        session.wf(),
        session.spec_step(event).0.phase == Phase::Querying,
    ensures
        session.spec_step(event).0.words_done < session.range.spec_len(),
        session.spec_step(event).1 == ActionView::Send(
            spec_peek_command(
                session.range.spec_addresses()[session.spec_step(event).0.words_done as int],
            ),
        ),
{
}

/// An answer that is not text, or whose text is not a number, fails the dump
/// with the address it was read for.
pub proof fn lemma_bad_answer_fails(session: DumpSession, event: EventView)
    requires
        ({
            ||| session.phase == Phase::Parsing && !(event is Number)
            ||| session.phase == Phase::Reading && (event matches EventView::Frame(bytes)
                && !valid_utf8(bytes))
        }),
    ensures
        session.spec_step(event) == session.spec_fail(
            DumpError::ResponseParseFailed { address: session.spec_address() },
        ),
{
}

/// A failed session stays as it is: whatever comes in, it stores nothing
/// more, asks for no further address and repeats its error.
pub proof fn lemma_failure_is_final(session: DumpSession, error: DumpError, events: Seq<EventView>)
    requires
        session.phase == (Phase::Failed { error }),
    ensures
        spec_run(session, events) == session,
        spec_stored(session, events).len() == 0,
        forall|i: int|
            0 <= i < events.len() ==> #[trigger] session.spec_step(events[i]) == (
                session,
                ActionView::Abort(error),
            ),
    decreases events.len(),
{
    if events.len() > 0 {
        lemma_failure_is_final(session, error, events.skip(1));
    }
}

/// The events of one exchange that goes well: the query is sent, `frame`
/// comes back, its text reads as `value`, and the word is stored.
pub open spec fn spec_exchange(frame: Seq<u8>, value: i32) -> Seq<EventView> {
    seq![
        EventView::Sent,
        EventView::Frame(frame),
        EventView::Number(value),
        EventView::Written,
    ]
}

/// The events of one exchange after the other, for each frame and the value
/// that its text reads as.
pub open spec fn spec_exchanges(frames: Seq<Seq<u8>>, values: Seq<i32>) -> Seq<EventView>
    decreases values.len(),
{
    if values.len() == 0 || frames.len() == 0 {
        Seq::empty()
    } else {
        spec_exchange(frames[0], values[0]) + spec_exchanges(frames.skip(1), values.skip(1))
    }
}

/// The output that `values` make: the two bytes of each one's word, most
/// significant first, in the order of the values.
pub open spec fn spec_words_bytes(values: Seq<i32>) -> Seq<u8>
    decreases values.len(),
{
    if values.len() == 0 {
        Seq::empty()
    } else {
        spec_word_bytes(spec_word(values[0])) + spec_words_bytes(values.skip(1))
    }
}

/// Events taken in two parts give what they give taken at once.
pub proof fn lemma_run_in_parts(session: DumpSession, first: Seq<EventView>, rest: Seq<EventView>)
    ensures
        spec_run(session, first + rest) == spec_run(spec_run(session, first), rest),
        spec_stored(session, first + rest) == spec_stored(session, first) + spec_stored(
            spec_run(session, first),
            rest,
        ),
    decreases first.len(),
{
    if first.len() == 0 {
        assert(first + rest =~= rest);
        assert(spec_stored(session, first) + spec_stored(session, rest) =~= spec_stored(
            session,
            rest,
        ));
    } else {
        let next = session.spec_step(first[0]).0;
        assert((first + rest).skip(1) =~= first.skip(1) + rest);
        assert((first + rest)[0] == first[0]);
        lemma_run_in_parts(next, first.skip(1), rest);
        assert(spec_stored(session, first + rest) =~= spec_stored(session, first) + spec_stored(
            spec_run(session, first),
            rest,
        ));
    }
}

/// One exchange that goes well stores the word of its value and moves the
/// session to the next address, or to the flush after the last one.
pub proof fn lemma_one_exchange(session: DumpSession, frame: Seq<u8>, value: i32)
    requires
        session.wf(),
        session.phase == Phase::Querying,
        valid_utf8(frame),
    ensures
        spec_stored(session, spec_exchange(frame, value)) == spec_word_bytes(spec_word(value)),
        spec_run(session, spec_exchange(frame, value)) == (DumpSession {
            words_done: (session.words_done + 1) as usize,
            bytes_written: (session.bytes_written + 2) as usize,
            phase: if session.words_done + 1 < session.range.spec_len() {
                Phase::Querying
            } else {
                Phase::Flushing
            },
            ..session
        }),
{
    let events = spec_exchange(frame, value);
    let s1 = session.spec_step(events[0]).0;
    let s2 = s1.spec_step(events[1]).0;
    let s3 = s2.spec_step(events[2]).0;
    let s4 = s3.spec_step(events[3]).0;
    let e1 = events.skip(1);
    let e2 = e1.skip(1);
    let e3 = e2.skip(1);
    let e4 = e3.skip(1);
    assert(e1[0] == events[1] && e2[0] == events[2] && e3[0] == events[3]);
    assert(e4.len() == 0);
    assert(spec_run(s4, e4) == s4);
    assert(spec_run(s3, e3) == s4);
    assert(spec_run(s2, e2) == s4);
    assert(spec_run(s1, e1) == s4);
    assert(spec_stored(s4, e4) =~= Seq::<u8>::empty());
    assert(spec_stored(s3, e3) =~= spec_word_bytes(spec_word(value)));
    assert(spec_stored(s2, e2) =~= spec_word_bytes(spec_word(value)));
    assert(spec_stored(s1, e1) =~= spec_word_bytes(spec_word(value)));
    assert(spec_stored(session, events) =~= spec_word_bytes(spec_word(value)));
}

/// Exchanges that all go well store the words of their values, in order,
/// and nothing else.
pub proof fn lemma_exchanges_store_words(
    session: DumpSession,
    frames: Seq<Seq<u8>>,
    values: Seq<i32>,
)
    requires
        session.wf(),
        session.phase == Phase::Querying,
        frames.len() == values.len(),
        session.words_done + values.len() <= session.range.spec_len(),
        forall|i: int| 0 <= i < frames.len() ==> valid_utf8(#[trigger] frames[i]),
    ensures
        spec_stored(session, spec_exchanges(frames, values)) == spec_words_bytes(values),
        spec_words_bytes(values).len() == 2 * values.len(),
        spec_run(session, spec_exchanges(frames, values)) == (DumpSession {
            words_done: (session.words_done + values.len()) as usize,
            bytes_written: (session.bytes_written + 2 * values.len()) as usize,
            phase: if values.len() == 0 || session.words_done + values.len()
                < session.range.spec_len() {
                Phase::Querying
            } else {
                Phase::Flushing
            },
            ..session
        }),
    decreases values.len(),
{
    if values.len() == 0 {
        assert(spec_stored(session, spec_exchanges(frames, values)) =~= spec_words_bytes(values));
    } else {
        let one = spec_exchange(frames[0], values[0]);
        let after = spec_run(session, one);
        lemma_one_exchange(session, frames[0], values[0]);
        lemma_run_in_parts(session, one, spec_exchanges(frames.skip(1), values.skip(1)));
        if values.len() > 1 {
            assert forall|i: int| 0 <= i < frames.skip(1).len() implies valid_utf8(
                #[trigger] frames.skip(1)[i],
            ) by {
                assert(frames.skip(1)[i] == frames[i + 1]);
            }
            lemma_exchanges_store_words(after, frames.skip(1), values.skip(1));
        } else {
            assert(values.skip(1).len() == 0);
            assert(spec_exchanges(frames.skip(1), values.skip(1)) =~= Seq::<EventView>::empty());
            assert(spec_words_bytes(values.skip(1)) =~= Seq::<u8>::empty());
        }
    }
}

/// A dump in which everything goes well finishes, and its output is the
/// words of the values read, two bytes each, in the order of the addresses:
/// twice as many bytes as the window has addresses.
pub proof fn lemma_whole_dump(range: AddressRange, frames: Seq<Seq<u8>>, values: Seq<i32>)
    requires
        range.wf(),
        frames.len() == values.len(),
        values.len() == range.spec_len(),
        forall|i: int| 0 <= i < frames.len() ==> valid_utf8(#[trigger] frames[i]),
    ensures
        ({
            let events = seq![EventView::Sent] + spec_exchanges(frames, values)
                + seq![EventView::Flushed];
            let start = DumpSession::spec_start(range);
            &&& spec_run(start, events).phase == Phase::Finished
            &&& spec_run(start, events).bytes_written == 2 * range.spec_len()
            &&& spec_stored(start, events) == spec_words_bytes(values)
            &&& spec_stored(start, events).len() == 2 * range.spec_addresses().len()
        }),
{
    let start = DumpSession::spec_start(range);
    let arm = seq![EventView::Sent];
    let flush = seq![EventView::Flushed];
    let middle = spec_exchanges(frames, values);
    let armed = start.spec_step(EventView::Sent).0;
    assert(arm.skip(1).len() == 0);
    assert(spec_run(armed, arm.skip(1)) == armed);
    assert(spec_run(start, arm) == armed);
    assert(spec_stored(armed, arm.skip(1)) =~= Seq::<u8>::empty());
    assert(spec_stored(start, arm) =~= Seq::<u8>::empty());
    lemma_exchanges_store_words(armed, frames, values);
    let flushing = spec_run(armed, middle);
    let finished = flushing.spec_step(EventView::Flushed).0;
    assert(flush.skip(1).len() == 0);
    assert(spec_run(finished, flush.skip(1)) == finished);
    assert(spec_run(flushing, flush) == finished);
    assert(spec_stored(finished, flush.skip(1)) =~= Seq::<u8>::empty());
    assert(spec_stored(flushing, flush) =~= Seq::<u8>::empty());
    lemma_run_in_parts(start, arm, middle);
    lemma_run_in_parts(start, arm + middle, flush);
    assert(spec_stored(start, arm + middle + flush) =~= spec_words_bytes(values));
}

} // verus!
