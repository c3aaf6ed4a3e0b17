//! An adapter that turns a byte source delivering arbitrary chunks into a
//! sequence of fully decoded messages, one per poll.
//!
//! The adapter never blocks and performs no I/O of its own. It alternates
//! between asking a [`decode::Decode`] format to parse the front of its buffer
//! and asking its driver to pull once from the byte source; the driver reports
//! what the source answered and registers the wake-up that
//! [`stream::DecodeStream::schedule`] selects.
//!
//! [`laws`] states what every run shows to the consumer, and
//! [`replay::replay`] is such a run against a recorded source.

pub mod buffer;
pub mod decode;
pub mod frame;
pub mod laws;
pub mod outcome;
pub mod replay;
pub mod stream;
