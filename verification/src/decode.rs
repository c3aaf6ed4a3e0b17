//! The contract between the adapter and a message format.

use vstd::prelude::*;
use crate::buffer::InputBuf;
use crate::outcome::Outcome;

verus! {

/// What the front of a byte sequence amounts to under a format.
pub enum Parsed<V, E> {
    /// The first `used` bytes form `value`.
    Produced { value: V, used: nat },
    /// The bytes are the beginning of a value and more are needed.
    Insufficient,
    /// No continuation of the bytes forms a value.
    Failed(E),
}

/// A message format that can be decoded incrementally from a growing buffer.
///
/// The format is the function `parse`; `decode` is its executable form. The
/// decoder state is scratch space that `decode` may keep between attempts on
/// one message, and `resumable` says on which buffers a state may be used.
pub trait Decode: Sized + View {
    /// Scratch state kept between the attempts on one message.
    type Decoder;

    /// Why bytes are rejected.
    type Error;

    /// What the front of `bytes` forms.
    spec fn parse(bytes: Seq<u8>) -> Parsed<Self::V, Self::Error>;

    /// Whether `decoder` may be handed to `decode` together with `bytes`.
    spec fn resumable(decoder: Self::Decoder, bytes: Seq<u8>) -> bool;

    /// Nothing can be said of no bytes but that more are needed.
    proof fn parse_nothing()
        ensures
            Self::parse(Seq::<u8>::empty()) is Insufficient,
    ;

    /// A verdict does not depend on what follows the bytes it was reached on:
    /// a value takes at least one byte and no more than there are, and both a
    /// value and a rejection stand when bytes are appended.
    proof fn parse_extends(head: Seq<u8>, tail: Seq<u8>)
        ensures
            Self::parse(head) matches Parsed::Produced { used, .. } ==> 0 < used <= head.len(),
            !(Self::parse(head) is Insufficient) ==> Self::parse(head + tail) == Self::parse(head),
    ;

    /// The state in which the parsing of each value starts.
    spec fn start() -> Self::Decoder;

    /// Makes the starting state, which can be used on any bytes.
    fn fresh() -> (decoder: Self::Decoder)
        ensures
            decoder == Self::start(),
            forall|bytes: Seq<u8>| #[trigger] Self::resumable(decoder, bytes),
    ;

    /// One decode attempt on the bytes in `buf`.
    ///
    /// A value leaves with its bytes and the state is ready for the next
    /// value; when more bytes are needed the buffer is untouched and the state
    /// can be resumed once bytes have been appended.
    fn decode(decoder: &mut Self::Decoder, buf: &mut InputBuf) -> (out: Outcome<Self, Self::Error>)
        requires
            Self::resumable(*old(decoder), old(buf)@),
        ensures
            match Self::parse(old(buf)@) {
                Parsed::Produced { value, used } => {
                    &&& out matches Outcome::Produced(v)
                    &&& v@ == value
                    &&& final(buf)@ == old(buf)@.skip(used as int)
                    &&& forall|more: Seq<u8>| #[trigger]
                        Self::resumable(*final(decoder), final(buf)@ + more)
                },
                Parsed::Insufficient => {
                    &&& out is Insufficient
                    &&& final(buf)@ == old(buf)@
                    &&& forall|more: Seq<u8>| #[trigger]
                        Self::resumable(*final(decoder), old(buf)@ + more)
                },
                Parsed::Failed(e) => out == Outcome::<Self, Self::Error>::Failed(e),
            },
    ;
}

} // verus!
