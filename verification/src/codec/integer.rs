//! The integer codec's handle. Its methods for each element type stand with
//! that type's coding.

use crate::codec::Codec;
use vstd::prelude::*;

verus! {

/// Longest varint stream that the block's 32-bit size prefix can describe.
pub const MAX_PAYLOAD_LEN: usize = 0xFFFF_FFFF;

/// Compresses and restores integer sequences and raw bytes.
#[derive(Clone, Copy, Debug)]
pub struct IntegerCodec {
    pub codec: Codec,
}

impl Default for IntegerCodec {
    fn default() -> (c: Self)
        ensures
            c.codec == Codec::Lz4,
    {
        IntegerCodec { codec: Codec::Lz4 }
    }
}

} // verus!
