//! The adapter: a state object advanced by `poll` and `supply`.
//!
//! A driver that owns the byte source runs one consumer poll like this: call
//! `poll`; while the answer is `Step::Pull`, pull once from the source and hand
//! the answer to `supply`; when `supply` returns `None`, bytes arrived and
//! `poll` is called again. Whatever result comes out first is the consumer's.
//! Exactly one value is handed out per consumer poll.

use vstd::prelude::*;
use crate::buffer::InputBuf;
use crate::decode::{Decode, Parsed};
use crate::outcome::{Outcome, PollResult, SourceEvent, SourcePoll, Step, StreamError, Wake};

verus! {

/// The adapter as a mathematical value.
pub struct StreamState {
    /// The bytes that arrived and that no value has consumed.
    pub pending: Seq<u8>,
    /// Whether bytes arrived since the last attempt that needed more.
    pub need_parse: bool,
    /// Whether the sequence has ended, cleanly or with an error.
    pub finished: bool,
}

/// The state of a new adapter.
pub open spec fn initial() -> StreamState {
    StreamState { pending: Seq::empty(), need_parse: false, finished: false }
}

/// The state after the sequence has ended.
pub open spec fn ended() -> StreamState {
    StreamState { pending: Seq::empty(), need_parse: false, finished: true }
}

/// What every reachable state satisfies: an ended adapter holds nothing, and
/// an adapter that is not flagged for parsing holds bytes that need more.
pub open spec fn consistent<D: Decode>(s: StreamState) -> bool {
    if s.finished {
        s == ended()
    } else {
        !s.need_parse ==> D::parse(s.pending) is Insufficient
    }
}

/// The decode half of a poll: one attempt if the adapter is flagged for
/// parsing, otherwise a request to pull from the source.
pub open spec fn decode_step<D: Decode>(s: StreamState) -> (StreamState, Step<D::V, D::Error>) {
    if s.finished {
        (s, Step::Done(PollResult::Ready(None)))
    } else if !s.need_parse {
        (s, Step::Pull)
    } else {
        match D::parse(s.pending) {
            Parsed::Produced { value, used } => (
                StreamState { pending: s.pending.skip(used as int), ..s },
                Step::Done(PollResult::Ready(Some(value))),
            ),
            Parsed::Insufficient => (StreamState { need_parse: false, ..s }, Step::Pull),
            Parsed::Failed(e) => (
                ended(),
                Step::Done(PollResult::Failed(StreamError::Malformed(e))),
            ),
        }
    }
}

/// The source half of a poll: what the adapter makes of one answer of the
/// byte source. `None` stands for "bytes arrived: attempt to decode again".
pub open spec fn source_step<D: Decode>(s: StreamState, event: SourceEvent) -> (
    StreamState,
    Option<PollResult<D::V, D::Error>>,
) {
    if s.finished {
        (s, Some(PollResult::Ready(None)))
    } else {
        match event {
            SourceEvent::AppendedBytes(bytes) => (
                StreamState { pending: s.pending + bytes, need_parse: bytes.len() > 0, ..s },
                None,
            ),
            SourceEvent::Exhausted => (
                ended(),
                Some(
                    if s.pending.len() == 0 {
                        PollResult::Ready(None)
                    } else {
                        PollResult::Failed(StreamError::Truncated)
                    },
                ),
            ),
            SourceEvent::Error(kind) => (ended(), Some(PollResult::Failed(StreamError::Source(kind)))),
            SourceEvent::NoneAvailableYet => (s, Some(PollResult::Pending)),
        }
    }
}

/// What the adapter hands to its driver after a decode attempt that ended
/// with `outcome`: the value, the rejection as the stream's error, or the
/// request for more bytes.
pub fn settle<T, E>(outcome: Outcome<T, E>) -> (step: Step<T, E>)
    ensures
        step == match outcome {
            Outcome::Produced(value) => Step::Done(PollResult::Ready(Some(value))),
            Outcome::Insufficient => Step::Pull,
            Outcome::Failed(e) => Step::Done(PollResult::Failed(StreamError::Malformed(e))),
        },
{
    match outcome {
        Outcome::Produced(value) => Step::Done(PollResult::Ready(Some(value))),
        Outcome::Insufficient => Step::Pull,
        Outcome::Failed(e) => Step::Done(PollResult::Failed(StreamError::Malformed(e))),
    }
}

/// The view of what `supply` returns.
pub open spec fn answer_view<D: Decode>(answer: Option<PollResult<D, D::Error>>) -> Option<
    PollResult<D::V, D::Error>,
> {
    match answer {
        Some(result) => Some(result@),
        None => None,
    }
}

/// A stream of decoded values over a byte source that the driver owns.
pub struct DecodeStream<D: Decode> {
    buf: InputBuf,
    decoder: D::Decoder,
    /// Is there new data in `buf` that we need to try to parse?
    need_parse: bool,
    /// Has the sequence ended?
    finished: bool,
}

impl<D: Decode> View for DecodeStream<D> {
    type V = StreamState;

    closed spec fn view(&self) -> StreamState {
        StreamState { pending: self.buf@, need_parse: self.need_parse, finished: self.finished }
    }
}

impl<D: Decode> DecodeStream<D> {
    /// The invariant of the adapter: its state is consistent and its decoder
    /// state can be resumed on the buffer however it grows.
    pub closed spec fn wf(&self) -> bool {
        &&& consistent::<D>(self@)
        &&& !self.finished ==> forall|more: Seq<u8>| #[trigger]
            D::resumable(self.decoder, self.buf@ + more)
    }

    /// The parser state that the adapter holds, as a value.
    pub closed spec fn parser(&self) -> D::Decoder {
        self.decoder
    }

    /// A well-formed adapter is in a consistent state.
    pub proof fn wf_is_consistent(&self)
        requires
            self.wf(),
        ensures
            consistent::<D>(self@),
    {
    }

    /// A new adapter: nothing buffered, nothing to parse, not ended, and the
    /// parser in its starting state. No decode attempt is made before bytes
    /// have arrived.
    pub fn new() -> (stream: DecodeStream<D>)
        ensures
            stream.wf(),
            stream@ == initial(),
            stream.parser() == D::start(),
    {
        proof {
            D::parse_nothing();
        }
        DecodeStream { buf: InputBuf::new(), decoder: D::fresh(), need_parse: false, finished: false }
    }

    /// Whether bytes are waiting for a decode attempt.
    pub fn needs_parse(&self) -> (flag: bool)
        ensures
            flag == self@.need_parse,
    {
        self.need_parse
    }

    /// Whether the sequence has ended.
    pub fn is_finished(&self) -> (flag: bool)
        ensures
            flag == self@.finished,
    {
        self.finished
    }

    /// How many bytes are buffered and not consumed.
    pub fn buffered(&self) -> (n: usize)
        ensures
            n == self@.pending.len(),
    {
        self.buf.len()
    }

    /// The parser state that the adapter holds.
    pub fn parser_state(&self) -> (state: &D::Decoder)
        ensures
            *state == self.parser(),
    {
        &self.decoder
    }

    fn finish(&mut self)
        ensures
            final(self)@ == ended(),
            final(self).wf(),
            final(self).parser() == old(self).parser(),
    {
        self.buf.clear();
        self.need_parse = false;
        self.finished = true;
    }

    /// The decode half of a poll.
    ///
    /// If bytes are waiting, makes one decode attempt: a value is handed out
    /// and the decoder state starts afresh; a rejection ends the sequence;
    /// when more bytes are needed the flag is cleared and the driver is asked
    /// to pull from the source. With nothing waiting the driver is asked at
    /// once, and nothing is touched. An ended adapter answers `Ready(None)`
    /// and touches nothing either.
    pub fn poll(&mut self) -> (step: Step<D, D::Error>)
        requires
            old(self).wf(),
        ensures
            final(self).wf(),
            (final(self)@, step@) == decode_step::<D>(old(self)@),
            old(self)@.finished || !old(self)@.need_parse ==> *final(self) == *old(self),
            step matches Step::Done(PollResult::Ready(Some(_))) ==> final(self).parser()
                == D::start(),
    {
        if self.finished {
            return Step::Done(PollResult::Ready(None));
        }
        if !self.need_parse {
            return Step::Pull;
        }
        assert(self.buf@ + Seq::<u8>::empty() =~= self.buf@);
        let out = D::decode(&mut self.decoder, &mut self.buf);
        match out {
            Outcome::Produced(_) => {
                self.decoder = D::fresh();
            },
            Outcome::Insufficient => {
                self.need_parse = false;
            },
            Outcome::Failed(_) => {
                self.finish();
            },
        }
        settle(out)
    }

    /// The source half of a poll: takes the answer to a `Step::Pull`.
    ///
    /// Arrived bytes are appended and flagged for parsing, and `None` tells
    /// the driver to call `poll` again; a delivery of no bytes flags nothing. The end of the source ends the
    /// sequence: cleanly if no byte is left over, with `Truncated` if the
    /// source stopped inside a message. A source error ends it with the same
    /// kind. When nothing is available the result is `Pending` and the
    /// adapter is untouched, as is an ended adapter whatever arrives. The
    /// parser state is never touched. The source is only ever asked when
    /// nothing is waiting to be parsed.
    pub fn supply(&mut self, event: SourcePoll) -> (answer: Option<PollResult<D, D::Error>>)
        requires
            old(self).wf(),
            !old(self)@.need_parse,
        ensures
            final(self).wf(),
            (final(self)@, answer_view::<D>(answer)) == source_step::<D>(old(self)@, event@),
            final(self).parser() == old(self).parser(),
            old(self)@.finished || event@ is NoneAvailableYet ==> *final(self) == *old(self),
    {
        if self.finished {
            return Some(PollResult::Ready(None));
        }
        match event {
            SourcePoll::AppendedBytes(bytes) => {
                assert forall|more: Seq<u8>| #[trigger]
                    D::resumable(self.decoder, (self.buf@ + bytes@) + more) by {
                    assert((self.buf@ + bytes@) + more =~= self.buf@ + (bytes@ + more));
                }
                assert(bytes@.len() == 0 ==> self.buf@ + bytes@ =~= self.buf@);
                let grew = bytes.len() > 0;
                self.buf.extend(bytes);
                self.need_parse = grew;
                None
            },
            SourcePoll::Exhausted => {
                let clean = self.buf.is_empty();
                self.finish();
                if clean {
                    Some(PollResult::Ready(None))
                } else {
                    Some(PollResult::Failed(StreamError::Truncated))
                }
            },
            SourcePoll::Error(kind) => {
                self.finish();
                Some(PollResult::Failed(StreamError::Source(kind)))
            },
            SourcePoll::NoneAvailableYet => Some(PollResult::Pending),
        }
    }

    /// Which wake-up to register after a `Pending`: an immediate one while
    /// bytes are waiting to be parsed, otherwise the byte source's.
    pub fn schedule(&self) -> (wake: Wake)
        ensures
            wake == if self@.need_parse {
                Wake::Immediately
            } else {
                Wake::OnSource
            },
    {
        if self.need_parse {
            Wake::Immediately
        } else {
            Wake::OnSource
        }
    }
}

} // verus!
