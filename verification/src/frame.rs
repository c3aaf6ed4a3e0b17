//! A small format: one length byte, then that many payload bytes.

use vstd::prelude::*;
use crate::buffer::InputBuf;
use crate::decode::{Decode, Parsed};
use crate::outcome::Outcome;

verus! {

/// The longest payload a frame may declare.
pub const MAX_PAYLOAD: u8 = 127;

/// One frame: the payload without its length byte.
#[derive(Debug, Clone, PartialEq, Eq)]
pub struct LengthPrefixed {
    pub payload: Vec<u8>,
}

impl View for LengthPrefixed {
    type V = Seq<u8>;

    open spec fn view(&self) -> Seq<u8> {
        self.payload@
    }
}

/// Why a frame is rejected.
#[derive(Debug, Clone, Copy, PartialEq, Eq, Structural)]
pub enum FrameError {
    /// The length byte declares more than `MAX_PAYLOAD` bytes.
    TooLong(u8),
}

/// The length byte of the frame being parsed, once it has been seen.
#[derive(Debug, Clone, Copy, PartialEq, Eq, Structural)]
pub struct FrameDecoder {
    pub declared: Option<u8>,
}

impl Decode for LengthPrefixed {
    type Decoder = FrameDecoder;

    type Error = FrameError;

    open spec fn parse(bytes: Seq<u8>) -> Parsed<Seq<u8>, FrameError> {
        if bytes.len() == 0 {
            Parsed::Insufficient
        } else if bytes[0] > MAX_PAYLOAD {
            Parsed::Failed(FrameError::TooLong(bytes[0]))
        } else if bytes.len() < 1 + bytes[0] {
            Parsed::Insufficient
        } else {
            Parsed::Produced {
                value: bytes.subrange(1, 1 + bytes[0]),
                used: (1 + bytes[0]) as nat,
            }
        }
    }

    open spec fn resumable(decoder: FrameDecoder, bytes: Seq<u8>) -> bool {
        decoder.declared matches Some(n) ==> bytes.len() > 0 && bytes[0] == n && n <= MAX_PAYLOAD
    }

    open spec fn start() -> FrameDecoder {
        FrameDecoder { declared: None }
    }

    proof fn parse_nothing() {
    }

    proof fn parse_extends(head: Seq<u8>, tail: Seq<u8>) {
        if head.len() > 0 {
            let n = head[0];
            assert((head + tail)[0] == n);
            if n <= MAX_PAYLOAD && head.len() >= 1 + n {
                assert((head + tail).subrange(1, 1 + n) =~= head.subrange(1, 1 + n));
            }
        }
    }

    fn fresh() -> (decoder: FrameDecoder) {
        FrameDecoder { declared: None }
    }

    fn decode(decoder: &mut FrameDecoder, buf: &mut InputBuf) -> (out: Outcome<
        LengthPrefixed,
        FrameError,
    >) {
        let n: u8 = match decoder.declared {
            Some(n) => n,
            None => {
                if buf.is_empty() {
                    return Outcome::Insufficient;
                }
                let first: u8 = buf.byte(0);
                if first > MAX_PAYLOAD {
                    return Outcome::Failed(FrameError::TooLong(first));
                }
                decoder.declared = Some(first);
                first
            },
        };
        let size: usize = n as usize;
        if buf.len() - 1 < size {
            assert forall|more: Seq<u8>| #[trigger]
                Self::resumable(*decoder, buf@ + more) by {
                assert((buf@ + more)[0] == buf@[0]);
            }
            return Outcome::Insufficient;
        }
        buf.skip(1);
        let payload = buf.take(size);
        assert(payload@ =~= old(buf)@.subrange(1, 1 + n));
        assert(buf@ =~= old(buf)@.skip(1 + n));
        decoder.declared = None;
        Outcome::Produced(LengthPrefixed { payload })
    }
}

} // verus!
