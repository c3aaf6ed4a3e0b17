//! What holds of every run of the adapter, whatever the format.
//!
//! A run is modelled by `run`: the consumer polls again and again while a
//! scripted byte source answers each pull with the next event of the script.
//! The laws relate that run to `decoded`, which reads the messages off the
//! delivered bytes directly.

use vstd::prelude::*;
use crate::decode::{Decode, Parsed};
use crate::outcome::{PollResult, SourceEvent, Step, StreamError};
use crate::stream::{consistent, decode_step, ended, initial, source_step, StreamState};

verus! {

/// What a consumer sees: the values in order, then how the sequence ended.
/// An end of `Pending` means that the source went quiet before the end.
pub struct Trace<V, E> {
    pub values: Seq<V>,
    pub end: PollResult<V, E>,
}

/// The trace that starts with `value` and goes on as `rest`.
pub open spec fn after<V, E>(value: V, rest: Trace<V, E>) -> Trace<V, E> {
    Trace { values: seq![value] + rest.values, end: rest.end }
}

/// The trace without values that ends with `end`.
pub open spec fn only<V, E>(end: PollResult<V, E>) -> Trace<V, E> {
    Trace { values: Seq::empty(), end }
}

/// The messages that `bytes` hold, read from the front, and what is left at
/// the end of input: nothing (a clean end), the beginning of a message
/// (`Truncated`), or bytes that the format rejects.
///
/// A value takes between one byte and all of them (`Decode::parse_extends`);
/// the test on `used` only makes that visible to the termination check.
pub open spec fn decoded<D: Decode>(bytes: Seq<u8>) -> Trace<D::V, D::Error>
    decreases bytes.len(),
{
    match D::parse(bytes) {
        Parsed::Produced { value, used } => if 0 < used <= bytes.len() {
            after(value, decoded::<D>(bytes.skip(used as int)))
        } else {
            only(PollResult::Pending)
        },
        Parsed::Insufficient => only(
            if bytes.len() == 0 {
                PollResult::Ready(None)
            } else {
                PollResult::Failed(StreamError::Truncated)
            },
        ),
        Parsed::Failed(e) => only(PollResult::Failed(StreamError::Malformed(e))),
    }
}

/// The bytes that a script delivers, in order.
pub open spec fn delivered(script: Seq<SourceEvent>) -> Seq<u8>
    decreases script.len(),
{
    if script.len() == 0 {
        Seq::empty()
    } else {
        match script[0] {
            SourceEvent::AppendedBytes(bytes) => bytes + delivered(script.skip(1)),
            _ => delivered(script.skip(1)),
        }
    }
}

/// A script in which the source only delivers bytes or has none yet.
pub open spec fn quiet(script: Seq<SourceEvent>) -> bool {
    forall|i: int|
        0 <= i < script.len() ==> (#[trigger] script[i]) is AppendedBytes
            || script[i] is NoneAvailableYet
}

/// What the consumer sees when it polls an adapter in state `s` until the
/// sequence ends, while the source answers the pulls with `script`, one event
/// per pull, and has nothing more after it. A `Pending` in the middle is
/// followed by the next poll.
///
/// A value that is handed out always takes bytes with it
/// (`yielded_bytes_leave`); the test on the lengths only makes that visible to
/// the termination check.
pub open spec fn run<D: Decode>(s: StreamState, script: Seq<SourceEvent>) -> Trace<D::V, D::Error>
    decreases script.len(), s.pending.len(),
{
    let (s1, step) = decode_step::<D>(s);
    match step {
        Step::Done(PollResult::Ready(Some(value))) => if s1.pending.len() < s.pending.len() {
            after(value, run::<D>(s1, script))
        } else {
            only(PollResult::Pending)
        },
        Step::Done(result) => only(result),
        Step::Pull => if script.len() == 0 {
            only(PollResult::Pending)
        } else {
            let (s2, answer) = source_step::<D>(s1, script[0]);
            match answer {
                None => run::<D>(s2, script.skip(1)),
                Some(PollResult::Pending) => run::<D>(s2, script.skip(1)),
                Some(result) => only(result),
            }
        },
    }
}

/// What the consumer sees of bytes that decode to `trace` when, after the
/// last delivery, the source answers `close`: a rejected message has ended
/// the sequence before the source is asked; otherwise the values are followed
/// by the end of input, by the source's error, or by `Pending`.
pub open spec fn closed_by<V, E>(trace: Trace<V, E>, close: SourceEvent) -> Trace<V, E> {
    if trace.end matches PollResult::Failed(StreamError::Malformed(_)) {
        trace
    } else {
        match close {
            SourceEvent::Error(kind) => Trace {
                values: trace.values,
                end: PollResult::Failed(StreamError::Source(kind)),
            },
            SourceEvent::NoneAvailableYet => Trace { values: trace.values, end: PollResult::Pending },
            _ => trace,
        }
    }
}

/// However the source cuts its bytes into deliveries, and however often it
/// has nothing yet, the consumer sees exactly the messages of the buffered and
/// delivered bytes, each once and in order, before it sees how the source
/// closed the run: by ending, by failing, or by staying silent.
pub proof fn run_shows_what_was_delivered<D: Decode>(
    s: StreamState,
    script: Seq<SourceEvent>,
    close: SourceEvent,
)
    requires
        consistent::<D>(s),
        !s.finished,
        quiet(script),
        !(close is AppendedBytes),
    ensures
        run::<D>(s, script.push(close)) == closed_by(
            decoded::<D>(s.pending + delivered(script)),
            close,
        ),
    decreases script.len(), s.pending.len(), (if s.need_parse { 1nat } else { 0nat }),
{
    let full = script.push(close);
    let total = s.pending + delivered(script);
    if s.need_parse {
        D::parse_extends(s.pending, delivered(script));
        match D::parse(s.pending) {
            Parsed::Produced { value, used } => {
                let s1 = decode_step::<D>(s).0;
                run_shows_what_was_delivered::<D>(s1, script, close);
                assert(total.skip(used as int) =~= s1.pending + delivered(script));
            },
            Parsed::Insufficient => {
                let s1 = decode_step::<D>(s).0;
                run_shows_what_was_delivered::<D>(s1, script, close);
                assert(decode_step::<D>(s1) == (s1, Step::<D::V, D::Error>::Pull));
            },
            Parsed::Failed(e) => {},
        }
    } else if script.len() == 0 {
        assert(total =~= s.pending);
        assert(full.skip(1) =~= Seq::<SourceEvent>::empty());
        assert(full[0] == close);
        waiting_changes_nothing::<D>(s, 0);
        assert(idle(0) =~= Seq::<SourceEvent>::empty());
    } else {
        let rest = script.skip(1);
        assert(full.skip(1) =~= rest.push(close));
        assert(full[0] == script[0]);
        assert(quiet(rest)) by {
            assert forall|i: int| 0 <= i < rest.len() implies (#[trigger] rest[i]) is AppendedBytes
                || rest[i] is NoneAvailableYet by {
                assert(rest[i] == script[i + 1]);
            }
        }
        let s2 = source_step::<D>(s, script[0]).0;
        match script[0] {
            SourceEvent::AppendedBytes(bytes) => {
                assert(s2.pending + delivered(rest) =~= total);
                assert(bytes.len() == 0 ==> s2.pending =~= s.pending);
            },
            _ => {},
        }
        run_shows_what_was_delivered::<D>(s2, rest, close);
    }
}

/// A run that ends with the end of the source shows exactly the messages of
/// the buffered and delivered bytes and then their end: clean if nothing is
/// left over, `Truncated` if the source stopped inside a message.
pub proof fn run_decodes_what_was_delivered<D: Decode>(s: StreamState, script: Seq<SourceEvent>)
    requires
        consistent::<D>(s),
        !s.finished,
        quiet(script),
    ensures
        run::<D>(s, script.push(SourceEvent::Exhausted)) == decoded::<D>(
            s.pending + delivered(script),
        ),
{
    run_shows_what_was_delivered::<D>(s, script, SourceEvent::Exhausted);
}

/// Framing independence: two sources that deliver the same bytes, cut into
/// deliveries in any two ways, give the consumer the same values and the same
/// end.
pub proof fn framing_independence<D: Decode>(one: Seq<SourceEvent>, other: Seq<SourceEvent>)
    requires
        quiet(one),
        quiet(other),
        delivered(one) == delivered(other),
    ensures
        run::<D>(initial(), one.push(SourceEvent::Exhausted)) == run::<D>(
            initial(),
            other.push(SourceEvent::Exhausted),
        ),
{
    D::parse_nothing();
    run_decodes_what_was_delivered::<D>(initial(), one);
    run_decodes_what_was_delivered::<D>(initial(), other);
    assert(initial().pending + delivered(one) =~= delivered(one));
}

/// Whether `bytes` are exactly the messages `values`, one behind the other,
/// with nothing left over.
pub open spec fn holds_exactly<D: Decode>(bytes: Seq<u8>, values: Seq<D::V>) -> bool
    decreases values.len(),
{
    if values.len() == 0 {
        bytes.len() == 0
    } else {
        match D::parse(bytes) {
            Parsed::Produced { value, used } => {
                &&& value == values[0]
                &&& holds_exactly::<D>(bytes.skip(used as int), values.skip(1))
            },
            _ => false,
        }
    }
}

/// Bytes that are exactly some messages decode to those messages and a clean
/// end.
pub proof fn exact_bytes_decode_cleanly<D: Decode>(bytes: Seq<u8>, values: Seq<D::V>)
    requires
        holds_exactly::<D>(bytes, values),
    ensures
        decoded::<D>(bytes) == (Trace { values, end: PollResult::<D::V, D::Error>::Ready(None) }),
    decreases values.len(),
{
    if values.len() == 0 {
        D::parse_nothing();
        assert(bytes =~= Seq::<u8>::empty());
        assert(values =~= Seq::<D::V>::empty());
    } else {
        D::parse_extends(bytes, Seq::<u8>::empty());
        match D::parse(bytes) {
            Parsed::Produced { value, used } => {
                exact_bytes_decode_cleanly::<D>(bytes.skip(used as int), values.skip(1));
                assert(seq![value] + values.skip(1) =~= values);
            },
            _ => {},
        }
    }
}

/// A source that delivers exactly the bytes of some messages and then ends
/// gives the consumer those messages, each once and in order, and then
/// `Ready(None)`.
pub proof fn whole_messages_end_cleanly<D: Decode>(script: Seq<SourceEvent>, values: Seq<D::V>)
    requires
        quiet(script),
        holds_exactly::<D>(delivered(script), values),
    ensures
        run::<D>(initial(), script.push(SourceEvent::Exhausted)) == (Trace {
            values,
            end: PollResult::<D::V, D::Error>::Ready(None),
        }),
{
    D::parse_nothing();
    run_decodes_what_was_delivered::<D>(initial(), script);
    assert(initial().pending + delivered(script) =~= delivered(script));
    exact_bytes_decode_cleanly::<D>(delivered(script), values);
}

/// Every end of the sequence, clean or not, leaves the adapter ended.
pub proof fn an_end_is_final<D: Decode>(s: StreamState, event: SourceEvent)
    requires
        consistent::<D>(s),
    ensures
        decode_step::<D>(s).1 matches Step::Done(PollResult::Failed(_)) ==> decode_step::<D>(s).0
            == ended(),
        decode_step::<D>(s).1 == Step::<D::V, D::Error>::Done(PollResult::Ready(None))
            ==> decode_step::<D>(s).0 == ended(),
        source_step::<D>(s, event).1 matches Some(PollResult::Failed(_)) ==> source_step::<D>(
            s,
            event,
        ).0 == ended(),
        source_step::<D>(s, event).1 == Some(PollResult::<D::V, D::Error>::Ready(None))
            ==> source_step::<D>(s, event).0 == ended(),
{
}

/// An ended adapter stays ended: it never asks for the source again, takes
/// nothing from it, and answers every poll with `Ready(None)`.
pub proof fn ended_stays_ended<D: Decode>(event: SourceEvent, script: Seq<SourceEvent>)
    ensures
        decode_step::<D>(ended()) == (
            ended(),
            Step::<D::V, D::Error>::Done(PollResult::Ready(None)),
        ),
        source_step::<D>(ended(), event) == (
            ended(),
            Some(PollResult::<D::V, D::Error>::Ready(None)),
        ),
        run::<D>(ended(), script) == only(PollResult::<D::V, D::Error>::Ready(None)),
{
}

/// Once the bytes hold a rejected message, nothing that follows them changes
/// what they decode to.
pub proof fn rejection_is_final<D: Decode>(head: Seq<u8>, tail: Seq<u8>)
    requires
        decoded::<D>(head).end matches PollResult::Failed(StreamError::Malformed(_)),
    ensures
        decoded::<D>(head + tail) == decoded::<D>(head),
    decreases head.len(),
{
    D::parse_extends(head, tail);
    match D::parse(head) {
        Parsed::Produced { value, used } => {
            rejection_is_final::<D>(head.skip(used as int), tail);
            assert((head + tail).skip(used as int) =~= head.skip(used as int) + tail);
        },
        _ => {},
    }
}

/// The bytes of two scripts, one behind the other.
pub proof fn delivered_in_order(first: Seq<SourceEvent>, second: Seq<SourceEvent>)
    ensures
        delivered(first + second) == delivered(first) + delivered(second),
    decreases first.len(),
{
    if first.len() == 0 {
        assert(first + second =~= second);
        assert(delivered(first) + delivered(second) =~= delivered(second));
    } else {
        delivered_in_order(first.skip(1), second);
        assert((first + second).skip(1) =~= first.skip(1) + second);
        assert((first + second)[0] == first[0]);
        match first[0] {
            SourceEvent::AppendedBytes(bytes) => {
                assert(bytes + (delivered(first.skip(1)) + delivered(second)) =~= (bytes
                    + delivered(first.skip(1))) + delivered(second));
            },
            _ => {},
        }
    }
}

/// When the bytes delivered so far hold a rejected message, the consumer sees
/// the values before it and the one error, whatever the source delivers
/// later.
pub proof fn nothing_follows_a_rejection<D: Decode>(
    before: Seq<SourceEvent>,
    later: Seq<SourceEvent>,
)
    requires
        quiet(before),
        quiet(later),
        decoded::<D>(delivered(before)).end matches PollResult::Failed(StreamError::Malformed(_)),
    ensures
        run::<D>(initial(), (before + later).push(SourceEvent::Exhausted)) == decoded::<D>(
            delivered(before),
        ),
{
    D::parse_nothing();
    delivered_in_order(before, later);
    run_decodes_what_was_delivered::<D>(initial(), before + later);
    assert(initial().pending + delivered(before + later) =~= delivered(before) + delivered(later));
    rejection_is_final::<D>(delivered(before), delivered(later));
}

/// A script of `polls` pulls that all find nothing.
pub open spec fn idle(polls: nat) -> Seq<SourceEvent> {
    Seq::new(polls, |i: int| SourceEvent::NoneAvailableYet)
}

/// An adapter with nothing to parse makes no progress while the source has
/// nothing: each poll asks the source, returns `Pending` and leaves the state
/// as it was, however often it is repeated.
pub proof fn waiting_changes_nothing<D: Decode>(s: StreamState, polls: nat)
    requires
        !s.finished,
        !s.need_parse,
    ensures
        decode_step::<D>(s) == (s, Step::<D::V, D::Error>::Pull),
        source_step::<D>(s, SourceEvent::NoneAvailableYet) == (
            s,
            Some(PollResult::<D::V, D::Error>::Pending),
        ),
        run::<D>(s, idle(polls)) == only(PollResult::<D::V, D::Error>::Pending),
    decreases polls,
{
    if polls > 0 {
        waiting_changes_nothing::<D>(s, (polls - 1) as nat);
        assert(idle(polls).skip(1) =~= idle((polls - 1) as nat));
    }
}

/// `Pending` comes only from a source that has nothing yet, and it leaves the
/// adapter with nothing to parse when it had nothing to parse before: the
/// wake-up to register is then the source's.
pub proof fn pending_waits_for_the_source<D: Decode>(s: StreamState, event: SourceEvent)
    requires
        source_step::<D>(s, event).1 == Some(PollResult::<D::V, D::Error>::Pending),
    ensures
        event is NoneAvailableYet,
        source_step::<D>(s, event).0 == s,
        decode_step::<D>(s).1 != Step::<D::V, D::Error>::Done(PollResult::Pending),
{
}

/// A value that is handed out takes its bytes with it: what stays buffered is
/// a strictly shorter tail of what was buffered, so no later attempt sees the
/// bytes of an earlier value.
pub proof fn yielded_bytes_leave<D: Decode>(s: StreamState)
    requires
        decode_step::<D>(s).1 matches Step::Done(PollResult::Ready(Some(_))),
    ensures
        decode_step::<D>(s).0.pending.len() < s.pending.len(),
        decode_step::<D>(s).0.pending == s.pending.skip(
            s.pending.len() - decode_step::<D>(s).0.pending.len(),
        ),
{
    D::parse_extends(s.pending, Seq::<u8>::empty());
}

} // verus!
