//! The block compressor under the codec: LZ4 blocks with a 32-bit size
//! prefix, made and read by the `lz4_flex` crate. Nothing here is proved; the
//! contracts say what the codec relies on.

use crate::codec::endian::le_bytes;
use vstd::prelude::*;

verus! {

/// The error of `lz4_flex`'s block decoder. It is carried from the decoder
/// to the codec, which turns it into its own error without looking into it.
#[verifier::external_type_specification]
#[verifier::external_body]
pub struct ExDecompressError(lz4_flex::block::DecompressError);

/// The size-prefixed block that `lz4_flex` makes of `data`.
pub uninterp spec fn lz4_block(data: Seq<u8>) -> Seq<u8>;

/// What `lz4_flex` unpacks a size-prefixed block to; `None` where it refuses
/// the block.
pub uninterp spec fn lz4_unblock(block: Seq<u8>) -> Option<Seq<u8>>;

/// `lz4_flex::block::compress_prepend_size`, taken on trust. The block
/// starts with the length of `data` as a little-endian `u32`, which is why
/// `data` may not be longer than that can say. Three things are claimed:
/// that `data` decides the block, which `lz4_block` names; what the crate
/// documents of the pair, that `decompress_size_prepended` gives `data` back
/// from the block; and the size prefix, that the block has at least four
/// bytes, of which the first four are the length of `data`.
#[verifier::external_body]
pub(crate) fn lz4_compress(data: &[u8]) -> (block: Vec<u8>)
    requires
        data@.len() <= u32::MAX,
    ensures
        block@ == lz4_block(data@),
        lz4_unblock(block@) == Some(data@),
        block@.len() >= 4,
        block@.subrange(0, 4) == le_bytes(data@.len(), 4),
{
    lz4_flex::block::compress_prepend_size(data)
}

/// `lz4_flex::block::decompress_size_prepended`, taken on trust, with the
/// crate's default checked decoder: a block that is cut short, refers outside
/// of what was unpacked, or unpacks to more than its size prefix says is an
/// error and no panic. All that is claimed is that the block decides the
/// outcome, which `lz4_unblock` names.
#[verifier::external_body]
pub(crate) fn lz4_decompress(block: &[u8]) -> (r: Result<
    Vec<u8>,
    lz4_flex::block::DecompressError,
>)
    ensures
        match lz4_unblock(block@) {
            Some(data) => r is Ok && r->Ok_0@ == data,
            None => r is Err,
        },
{
    lz4_flex::block::decompress_size_prepended(block)
}

} // verus!
