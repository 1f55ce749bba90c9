//! Batches: every entry of a list is coded on its own, one after another,
//! and the results come back in the order of the entries. The first entry
//! that fails ends the batch with its error.

use crate::codec::header::CodecError;
use crate::codec::integer::IntegerCodec;
use crate::codec::seq_i64::{compress_i64_result, decode_i64};
use crate::codec::seq_u64::{compress_u64_result, decode_u64};
use vstd::prelude::*;

verus! {

impl IntegerCodec {
    /// Encodes each sequence as `compress_i64` does.
    pub fn compress_many_i64(&self, arrays: &[Vec<i64>]) -> (r: Result<Vec<Vec<u8>>, CodecError>)
        ensures
            match r {
                Ok(out) => out@.len() == arrays@.len() && forall|i: int|
                    0 <= i < arrays@.len() ==> compress_i64_result(#[trigger] arrays@[i]@) == Ok::<
                        Seq<u8>,
                        CodecError,
                    >(out@[i]@),
                Err(e) => exists|k: int|
                    0 <= k < arrays@.len() && #[trigger] compress_i64_result(arrays@[k]@) == Err::<
                        Seq<u8>,
                        CodecError,
                    >(e) && forall|i: int| 0 <= i < k ==> (#[trigger] compress_i64_result(arrays@[i]@)) is Ok,
            },
    {
        let mut out: Vec<Vec<u8>> = Vec::new();
        let mut k: usize = 0;
        while k < arrays.len()
            invariant
                k <= arrays@.len(),
                out@.len() == k,
                forall|i: int|
                    0 <= i < k ==> compress_i64_result(#[trigger] arrays@[i]@) == Ok::<Seq<u8>, CodecError>(
                        out@[i]@,
                    ),
            decreases arrays@.len() - k,
        {
            match self.compress_i64(&arrays[k]) {
                Ok(item) => {
                    out.push(item);
                },
                Err(e) => {
                    return Err(e);
                },
            }
            k = k + 1;
        }
        Ok(out)
    }

    /// Decodes each blob as `decompress_i64` does.
    pub fn decompress_many_i64(&self, blobs: &[Vec<u8>]) -> (r: Result<Vec<Vec<i64>>, CodecError>)
        ensures
            match r {
                Ok(out) => out@.len() == blobs@.len() && forall|i: int|
                    0 <= i < blobs@.len() ==> decode_i64(#[trigger] blobs@[i]@) == Ok::<
                        Seq<i64>,
                        CodecError,
                    >(out@[i]@),
                Err(e) => exists|k: int|
                    0 <= k < blobs@.len() && #[trigger] decode_i64(blobs@[k]@) == Err::<
                        Seq<i64>,
                        CodecError,
                    >(e) && forall|i: int| 0 <= i < k ==> (#[trigger] decode_i64(blobs@[i]@)) is Ok,
            },
    {
        let mut out: Vec<Vec<i64>> = Vec::new();
        let mut k: usize = 0;
        while k < blobs.len()
            invariant
                k <= blobs@.len(),
                out@.len() == k,
                forall|i: int|
                    0 <= i < k ==> decode_i64(#[trigger] blobs@[i]@) == Ok::<Seq<i64>, CodecError>(
                        out@[i]@,
                    ),
            decreases blobs@.len() - k,
        {
            match self.decompress_i64(blobs[k].as_slice()) {
                Ok(item) => {
                    out.push(item);
                },
                Err(e) => {
                    return Err(e);
                },
            }
            k = k + 1;
        }
        Ok(out)
    }

    /// Encodes each sequence as `compress_u64` does.
    pub fn compress_many_u64(&self, arrays: &[Vec<u64>]) -> (r: Result<Vec<Vec<u8>>, CodecError>)
        ensures
            match r {
                Ok(out) => out@.len() == arrays@.len() && forall|i: int|
                    0 <= i < arrays@.len() ==> compress_u64_result(#[trigger] arrays@[i]@) == Ok::<
                        Seq<u8>,
                        CodecError,
                    >(out@[i]@),
                Err(e) => exists|k: int|
                    0 <= k < arrays@.len() && #[trigger] compress_u64_result(arrays@[k]@) == Err::<
                        Seq<u8>,
                        CodecError,
                    >(e) && forall|i: int| 0 <= i < k ==> (#[trigger] compress_u64_result(arrays@[i]@)) is Ok,
            },
    {
        let mut out: Vec<Vec<u8>> = Vec::new();
        let mut k: usize = 0;
        while k < arrays.len()
            invariant
                k <= arrays@.len(),
                out@.len() == k,
                forall|i: int|
                    0 <= i < k ==> compress_u64_result(#[trigger] arrays@[i]@) == Ok::<Seq<u8>, CodecError>(
                        out@[i]@,
                    ),
            decreases arrays@.len() - k,
        {
            match self.compress_u64(&arrays[k]) {
                Ok(item) => {
                    out.push(item);
                },
                Err(e) => {
                    return Err(e);
                },
            }
            k = k + 1;
        }
        Ok(out)
    }

    /// Decodes each blob as `decompress_u64` does.
    pub fn decompress_many_u64(&self, blobs: &[Vec<u8>]) -> (r: Result<Vec<Vec<u64>>, CodecError>)
        ensures
            match r {
                Ok(out) => out@.len() == blobs@.len() && forall|i: int|
                    0 <= i < blobs@.len() ==> decode_u64(#[trigger] blobs@[i]@) == Ok::<
                        Seq<u64>,
                        CodecError,
                    >(out@[i]@),
                Err(e) => exists|k: int|
                    0 <= k < blobs@.len() && #[trigger] decode_u64(blobs@[k]@) == Err::<
                        Seq<u64>,
                        CodecError,
                    >(e) && forall|i: int| 0 <= i < k ==> (#[trigger] decode_u64(blobs@[i]@)) is Ok,
            },
    {
        let mut out: Vec<Vec<u64>> = Vec::new();
        let mut k: usize = 0;
        while k < blobs.len()
            invariant
                k <= blobs@.len(),
                out@.len() == k,
                forall|i: int|
                    0 <= i < k ==> decode_u64(#[trigger] blobs@[i]@) == Ok::<Seq<u64>, CodecError>(
                        out@[i]@,
                    ),
            decreases blobs@.len() - k,
        {
            match self.decompress_u64(blobs[k].as_slice()) {
                Ok(item) => {
                    out.push(item);
                },
                Err(e) => {
                    return Err(e);
                },
            }
            k = k + 1;
        }
        Ok(out)
    }
}

} // verus!
