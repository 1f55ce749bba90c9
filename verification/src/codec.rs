//! Numeric block codec: delta, zigzag and varint coding of integer sequences,
//! wrapped in a fixed header around an LZ4 block.

use vstd::prelude::*;

pub mod batch;
pub mod endian;
pub mod floating;
pub mod header;
pub mod integer;
pub mod lz4;
pub mod raw;
pub mod seq_i32;
pub mod seq_i64;
pub mod seq_u32;
pub mod seq_u64;
pub mod stream;
pub mod varint;
pub mod zigzag;

verus! {

/// The block compression method of a blob.
#[derive(Clone, Copy, Debug, PartialEq, Eq, Structural)]
pub enum Codec {
    Lz4,
}

} // verus!
