//! The plain values exchanged between a format, the adapter and its driver.

use vstd::prelude::*;

verus! {

/// What one decode attempt reports.
#[derive(Debug, Clone, PartialEq, Eq)]
pub enum Outcome<T, E> {
    /// A complete value was parsed and its bytes left the front of the buffer.
    Produced(T),
    /// Not enough bytes yet; buffer untouched. Not an error.
    Insufficient,
    /// The bytes seen so far can never form a valid value.
    Failed(E),
}

/// The kind of failure a byte source reports.
#[derive(Debug, Clone, Copy, PartialEq, Eq, Structural)]
pub enum SourceErrorKind {
    NotFound,
    PermissionDenied,
    ConnectionRefused,
    ConnectionReset,
    ConnectionAborted,
    NotConnected,
    AddrInUse,
    AddrNotAvailable,
    BrokenPipe,
    AlreadyExists,
    InvalidInput,
    InvalidData,
    TimedOut,
    WriteZero,
    Interrupted,
    UnexpectedEof,
    Other,
}

/// What a single non-blocking pull from the byte source answered.
#[derive(Debug, Clone, PartialEq, Eq)]
pub enum SourcePoll {
    /// These bytes arrived and are to be appended to the buffer.
    AppendedBytes(Vec<u8>),
    /// The source reached its end.
    Exhausted,
    /// The source failed.
    Error(SourceErrorKind),
    /// Nothing new right now.
    NoneAvailableYet,
}

/// The mathematical content of a [`SourcePoll`].
pub enum SourceEvent {
    AppendedBytes(Seq<u8>),
    Exhausted,
    Error(SourceErrorKind),
    NoneAvailableYet,
}

impl View for SourcePoll {
    type V = SourceEvent;

    open spec fn view(&self) -> SourceEvent {
        match *self {
            SourcePoll::AppendedBytes(bytes) => SourceEvent::AppendedBytes(bytes@),
            SourcePoll::Exhausted => SourceEvent::Exhausted,
            SourcePoll::Error(kind) => SourceEvent::Error(kind),
            SourcePoll::NoneAvailableYet => SourceEvent::NoneAvailableYet,
        }
    }
}

impl SourcePoll {
    /// A copy of this answer, bytes included.
    pub fn duplicate(&self) -> (copy: SourcePoll)
        ensures
            copy@ == self@,
    {
        match self {
            SourcePoll::AppendedBytes(bytes) => {
                let copied = bytes.clone();
                assert(copied@ =~= bytes@);
                SourcePoll::AppendedBytes(copied)
            },
            SourcePoll::Exhausted => SourcePoll::Exhausted,
            SourcePoll::Error(kind) => SourcePoll::Error(*kind),
            SourcePoll::NoneAvailableYet => SourcePoll::NoneAvailableYet,
        }
    }
}

/// The one terminal error a stream can end with.
#[derive(Debug, Clone, PartialEq, Eq)]
pub enum StreamError<E> {
    /// The byte source failed; the kind is passed on unchanged.
    Source(SourceErrorKind),
    /// The format rejected the bytes at the front of the buffer.
    Malformed(E),
    /// The source ended in the middle of a message.
    Truncated,
}

/// What one poll of the adapter hands to the consumer.
#[derive(Debug, Clone, PartialEq, Eq)]
pub enum PollResult<T, E> {
    /// `Some(value)`: the next value. `None`: the sequence has ended.
    Ready(Option<T>),
    /// No progress is possible until the adapter is woken.
    Pending,
    /// The sequence ended with this error.
    Failed(StreamError<E>),
}

impl<T: View, E> View for PollResult<T, E> {
    type V = PollResult<T::V, E>;

    open spec fn view(&self) -> PollResult<T::V, E> {
        match *self {
            PollResult::Ready(Some(value)) => PollResult::Ready(Some(value@)),
            PollResult::Ready(None) => PollResult::Ready(None),
            PollResult::Pending => PollResult::Pending,
            PollResult::Failed(e) => PollResult::Failed(e),
        }
    }
}

/// What the adapter asks of its driver after one step.
#[derive(Debug, Clone, PartialEq, Eq)]
pub enum Step<T, E> {
    /// Hand this result to the consumer; the poll is over.
    Done(PollResult<T, E>),
    /// Pull once from the byte source and report the answer with `supply`.
    Pull,
}

impl<T: View, E> View for Step<T, E> {
    type V = Step<T::V, E>;

    open spec fn view(&self) -> Step<T::V, E> {
        match *self {
            Step::Done(result) => Step::Done(result@),
            Step::Pull => Step::Pull,
        }
    }
}

/// Which wake-up the driver registers when a poll returned `Pending`.
#[derive(Debug, Clone, Copy, PartialEq, Eq, Structural)]
pub enum Wake {
    /// Unparsed bytes are waiting: wake the task on the next tick.
    Immediately,
    /// Nothing to parse: wake the task when the source may have bytes.
    OnSource,
}

} // verus!
