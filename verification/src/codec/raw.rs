//! Raw bytes: the header and one compressed block, with no integer coding.

use crate::codec::header::{
    assemble, header_bytes, lemma_header_len, lemma_parse_written_header, parse_header,
    read_header, sized_block, CodecError, ElementType, HEADER_LEN,
};
use crate::codec::integer::{IntegerCodec, MAX_PAYLOAD_LEN};
use crate::codec::lz4::{lz4_block, lz4_compress, lz4_decompress, lz4_unblock};
use vstd::prelude::*;
use vstd::slice::slice_subrange;

verus! {

/// The blob of `data`: nothing for no bytes, else the header with the byte
/// count and the compressed bytes.
pub open spec fn encode_bytes(data: Seq<u8>) -> Seq<u8> {
    if data.len() == 0 {
        Seq::empty()
    } else {
        header_bytes(ElementType::Bytes, data.len()) + lz4_block(data)
    }
}

/// What `compress_bytes` returns for `data`: the blob, unless `data` is longer
/// than a block can hold.
pub open spec fn compress_bytes_result(data: Seq<u8>) -> Result<Seq<u8>, CodecError> {
    if data.len() > MAX_PAYLOAD_LEN {
        Err(CodecError::PayloadTooLarge)
    } else {
        Ok(encode_bytes(data))
    }
}

/// What `decompress_bytes` returns for `blob`: the unpacked block, if its
/// length is the count in the header.
pub open spec fn decode_bytes(blob: Seq<u8>) -> Result<Seq<u8>, CodecError> {
    if blob.len() == 0 {
        Ok(Seq::empty())
    } else {
        match parse_header(blob, HEADER_LEN as nat, ElementType::Bytes) {
            Err(e) => Err(e),
            Ok(count) => match lz4_unblock(blob.subrange(HEADER_LEN as int, blob.len() as int)) {
                None => Err(CodecError::Decompress),
                Some(data) => counted(data, count),
            },
        }
    }
}

/// The unpacked bytes, if there are as many as the header says.
pub open spec fn counted(data: Seq<u8>, count: nat) -> Result<Seq<u8>, CodecError> {
    if data.len() != count {
        Err(CodecError::LengthMismatch)
    } else {
        Ok(data)
    }
}

/// Hands the unpacked bytes on if there are as many as the header says.
pub fn check_count(data: Vec<u8>, count: u64) -> (r: Result<Vec<u8>, CodecError>)
    ensures
        match counted(data@, count as nat) {
            Ok(bytes) => r is Ok && r->Ok_0@ == bytes,
            Err(e) => r == Err::<Vec<u8>, CodecError>(e),
        },
{
    if data.len() as u64 != count {
        return Err(CodecError::LengthMismatch);
    }
    Ok(data)
}

impl IntegerCodec {
    /// Compresses a run of bytes: header, then the block, which begins with
    /// the number of bytes in four bytes. No bytes give an empty blob, with
    /// no header. Decompressing the blob gives `data` back.
    pub fn compress_bytes(&self, data: &[u8]) -> (r: Result<Vec<u8>, CodecError>)
        ensures
            match compress_bytes_result(data@) {
                Ok(blob) => r is Ok && r->Ok_0@ == blob && decode_bytes(blob) == Ok::<
                    Seq<u8>,
                    CodecError,
                >(data@),
                Err(e) => r == Err::<Vec<u8>, CodecError>(e),
            },
            data@.len() > 0 && r is Ok ==> sized_block(r->Ok_0@, HEADER_LEN as nat, data@.len()),
    {
        let n = data.len();
        if n == 0 {
            assert(data@ =~= Seq::<u8>::empty());
            return Ok(Vec::new());
        }
        if n > MAX_PAYLOAD_LEN {
            return Err(CodecError::PayloadTooLarge);
        }
        let block = lz4_compress(data);
        let none: Vec<u8> = Vec::new();
        let buf = assemble(ElementType::Bytes, n as u64, none.as_slice(), block.as_slice());
        proof {
            let head = header_bytes(ElementType::Bytes, n as nat);
            assert(buf@ =~= head + block@);
            lemma_header_len(ElementType::Bytes, n as nat);
            assert(buf@.subrange(0, HEADER_LEN as int) =~= head);
            assert(buf@.subrange(HEADER_LEN as int, buf@.len() as int) =~= block@);
            lemma_parse_written_header(buf@, HEADER_LEN as nat, ElementType::Bytes, n as nat);
            assert(buf@.subrange(HEADER_LEN as int, HEADER_LEN + 4) =~= block@.subrange(0, 4));
        }
        Ok(buf)
    }

    /// Restores a run of bytes. The header is validated before the block is
    /// touched; an empty blob is no bytes.
    pub fn decompress_bytes(&self, blob: &[u8]) -> (r: Result<Vec<u8>, CodecError>)
        ensures
            match decode_bytes(blob@) {
                Ok(data) => r is Ok && r->Ok_0@ == data,
                Err(e) => r == Err::<Vec<u8>, CodecError>(e),
            },
    {
        if blob.len() == 0 {
            return Ok(Vec::new());
        }
        let count = match read_header(blob, HEADER_LEN, ElementType::Bytes) {
            Ok(count) => count,
            Err(e) => {
                return Err(e);
            },
        };
        let data = match lz4_decompress(slice_subrange(blob, HEADER_LEN, blob.len())) {
            Ok(data) => data,
            Err(_) => {
                return Err(CodecError::Decompress);
            },
        };
        check_count(data, count)
    }
}

} // verus!
