//! The floating-point codec's blobs. A float sequence is stored as integers:
//! each value times a scale factor, rounded to the nearest integer. The
//! arithmetic on floats is the caller's; this module frames the scaled
//! integers, stores the bit pattern of the scale factor behind the header, and
//! hands both back on decoding.

use crate::codec::endian::{
    le_bytes, le_value, lemma_le_bytes_len, lemma_le_roundtrip, lemma_pow256_widths, push_le,
    read_le,
};
use crate::codec::header::{
    header_bytes, lemma_header_len, sized_block, CodecError, ElementType, HEADER_LEN,
};
use crate::codec::seq_i32::{
    codes_i32, frame_i32, frame_i32_result, framed_i32, unframe_i32, unframed_i32,
};
use crate::codec::seq_i64::{
    codes_i64, frame_i64, frame_i64_result, framed_i64, unframe_i64, unframed_i64,
};
use crate::codec::stream::varints;
use crate::codec::Codec;
use vstd::prelude::*;

verus! {

/// The bit pattern of `1e9` as a 64-bit float: nine decimal places.
pub const DEFAULT_F64_SCALE_BITS: u64 = 0x41CD_CD65_0000_0000;

/// The bit pattern of `1e6` as a 32-bit float: six decimal places.
pub const DEFAULT_F32_SCALE_BITS: u32 = 0x4974_2400;

/// Frames and unframes scaled float sequences.
#[derive(Clone, Copy, Debug)]
pub struct FloatingCodec {
    pub codec: Codec,
}

impl Default for FloatingCodec {
    fn default() -> (c: Self)
        ensures
            c.codec == Codec::Lz4,
    {
        FloatingCodec { codec: Codec::Lz4 }
    }
}

/// Scaled integers and the bit pattern of the factor to divide them by.
#[derive(Debug, Clone, PartialEq, Eq)]
pub struct Scaled64 {
    pub values: Vec<i64>,
    pub scale_bits: u64,
}

/// Scaled integers and the bit pattern of the factor to divide them by.
#[derive(Debug, Clone, PartialEq, Eq)]
pub struct Scaled32 {
    pub values: Vec<i32>,
    pub scale_bits: u32,
}

/// The blob of scaled f64 values: header, the scale's 8 bytes, block.
pub open spec fn encode_f64(scaled: Seq<i64>, scale_bits: u64) -> Seq<u8> {
    framed_i64(ElementType::F64, le_bytes(scale_bits as nat, 8), scaled)
}

/// What `compress_f64` returns.
pub open spec fn compress_f64_result(scaled: Seq<i64>, scale_bits: u64) -> Result<
    Seq<u8>,
    CodecError,
> {
    frame_i64_result(ElementType::F64, le_bytes(scale_bits as nat, 8), scaled)
}

/// What `decompress_f64` returns: the scaled integers, and the scale to divide
/// them by. That is the caller's scale where one is given, else the one in the
/// blob; an empty blob has none, and the default stands in.
pub open spec fn decode_f64(blob: Seq<u8>, scale: Option<u64>) -> Result<(Seq<i64>, u64), CodecError> {
    if blob.len() == 0 {
        Ok(
            (
                Seq::empty(),
                match scale {
                    Some(s) => s,
                    None => DEFAULT_F64_SCALE_BITS,
                },
            ),
        )
    } else {
        match unframed_i64(ElementType::F64, 8, blob) {
            Err(e) => Err(e),
            Ok(values) => Ok(
                (
                    values,
                    match scale {
                        Some(s) => s,
                        None => le_value(blob.subrange(HEADER_LEN as int, HEADER_LEN + 8)) as u64,
                    },
                ),
            ),
        }
    }
}

/// The scale written into a blob is the scale read from it.
pub proof fn lemma_scale_roundtrip_f64(scaled: Seq<i64>, scale_bits: u64, block: Seq<u8>)
    requires
        scaled.len() > 0,
    ensures
        le_value(
            (header_bytes(ElementType::F64, scaled.len()) + le_bytes(scale_bits as nat, 8)
                + block).subrange(HEADER_LEN as int, HEADER_LEN + 8),
        ) == scale_bits,
{
    let head = header_bytes(ElementType::F64, scaled.len());
    let extra = le_bytes(scale_bits as nat, 8);
    lemma_header_len(ElementType::F64, scaled.len());
    lemma_le_bytes_len(scale_bits as nat, 8);
    assert((head + extra + block).subrange(HEADER_LEN as int, HEADER_LEN + 8) =~= extra);
    lemma_pow256_widths();
    lemma_le_roundtrip(scale_bits as nat, 8);
}

impl FloatingCodec {
    /// Frames the scaled integers of a f64 sequence and stores the scale they
    /// were made with. An empty sequence gives an empty blob. Decoding the blob
    /// without a scale of the caller's gives the integers and this scale back.
    pub fn compress_f64(&self, scaled: &Vec<i64>, scale_bits: u64) -> (r: Result<
        Vec<u8>,
        CodecError,
    >)
        ensures
            match compress_f64_result(scaled@, scale_bits) {
                Ok(blob) => r is Ok && r->Ok_0@ == blob && decode_f64(blob, None) == Ok::<
                    (Seq<i64>, u64),
                    CodecError,
                >(
                    (
                        scaled@,
                        if scaled@.len() == 0 {
                            DEFAULT_F64_SCALE_BITS
                        } else {
                            scale_bits
                        },
                    ),
                ),
                Err(e) => r == Err::<Vec<u8>, CodecError>(e),
            },
            scaled@.len() > 0 && r is Ok ==> sized_block(
                r->Ok_0@,
                (HEADER_LEN + 8) as nat,
                varints(codes_i64(scaled@)).len(),
            ),
    {
        let mut extra: Vec<u8> = Vec::new();
        push_le(&mut extra, scale_bits as u64, 8);
        proof {
            assert(extra@ =~= le_bytes(scale_bits as nat, 8));
            lemma_le_bytes_len(scale_bits as nat, 8);
        }
        let r = frame_i64(scaled, ElementType::F64, extra.as_slice());
        proof {
            if r is Ok {
                if scaled@.len() > 0 {
                    let block = crate::codec::lz4::lz4_block(
                        crate::codec::stream::varints(crate::codec::seq_i64::codes_i64(scaled@)),
                    );
                    assert(r->Ok_0@ == header_bytes(ElementType::F64, scaled@.len()) + extra@
                        + block);
                    lemma_scale_roundtrip_f64(scaled@, scale_bits, block);
                } else {
                    assert(scaled@ =~= Seq::<i64>::empty());
                }
            }
        }
        r
    }

    /// Unframes a f64 blob into its scaled integers and the scale to divide
    /// them by: `scale`, or without one, the scale in the blob.
    pub fn decompress_f64(&self, blob: &[u8], scale: Option<u64>) -> (r: Result<
        Scaled64,
        CodecError,
    >)
        ensures
            match decode_f64(blob@, scale) {
                Ok((values, bits)) => r is Ok && r->Ok_0.values@ == values && r->Ok_0.scale_bits
                    == bits,
                Err(e) => r is Err && r->Err_0 == e,
            },
    {
        if blob.len() == 0 {
            let bits = match scale {
                Some(s) => s,
                None => DEFAULT_F64_SCALE_BITS,
            };
            return Ok(Scaled64 { values: Vec::new(), scale_bits: bits });
        }
        let values = match unframe_i64(blob, ElementType::F64, 8) {
            Ok(values) => values,
            Err(e) => {
                return Err(e);
            },
        };
        let bits = match scale {
            Some(s) => s,
            None => {
                let stored = read_le(blob, HEADER_LEN, 8);
                proof {
                    crate::codec::endian::lemma_le_value_bound(
                        blob@.subrange(HEADER_LEN as int, HEADER_LEN + 8),
                    );
                    lemma_pow256_widths();
                }
                stored as u64
            },
        };
        Ok(Scaled64 { values, scale_bits: bits })
    }

    /// Frames each sequence as `compress_f64` does, one after another. With
    /// `scales`, entry `i` is framed with scale `i`, and entries without a
    /// partner are left out; without, every entry gets the default scale.
    pub fn compress_many_f64(&self, arrays: &[Vec<i64>], scales: Option<Vec<u64>>) -> (r: Result<
        Vec<Vec<u8>>,
        CodecError,
    >)
        ensures
            match r {
                Ok(out) => out@.len() == paired_len(arrays@.len(), scales) && forall|i: int|
                    0 <= i < out@.len() ==> compress_f64_result(
                        #[trigger] arrays@[i]@,
                        scale_f64_at(scales, i),
                    ) == Ok::<Seq<u8>, CodecError>(out@[i]@),
                Err(e) => exists|k: int|
                    0 <= k < paired_len(arrays@.len(), scales) && compress_f64_result(
                        #[trigger] arrays@[k]@,
                        scale_f64_at(scales, k),
                    ) == Err::<Seq<u8>, CodecError>(e) && forall|i: int|
                        0 <= i < k ==> compress_f64_result(
                            #[trigger] arrays@[i]@,
                            scale_f64_at(scales, i),
                        ) is Ok,
            },
    {
        let n = match &scales {
            Some(list) => if list.len() < arrays.len() {
                list.len()
            } else {
                arrays.len()
            },
            None => arrays.len(),
        };
        let mut out: Vec<Vec<u8>> = Vec::new();
        let mut k: usize = 0;
        while k < n
            invariant
                k <= n == paired_len(arrays@.len(), scales),
                n <= arrays@.len(),
                out@.len() == k,
                forall|i: int|
                    0 <= i < k ==> compress_f64_result(
                        #[trigger] arrays@[i]@,
                        scale_f64_at(scales, i),
                    ) == Ok::<Seq<u8>, CodecError>(out@[i]@),
            decreases n - k,
        {
            let bits = match &scales {
                Some(list) => list[k],
                None => DEFAULT_F64_SCALE_BITS,
            };
            match self.compress_f64(&arrays[k], bits) {
                Ok(item) => {
                    out.push(item);
                },
                Err(e) => {
                    return Err(e);
                },
            }
            k = k + 1;
        }
        Ok(out)
    }

    /// Unframes each blob as `decompress_f64` does, one after another. With
    /// `scales`, blob `i` is paired with scale `i`, and blobs without a partner
    /// are left out; without, every blob is read with the scale it holds.
    pub fn decompress_many_f64(&self, blobs: &[Vec<u8>], scales: Option<Vec<u64>>) -> (r: Result<
        Vec<Scaled64>,
        CodecError,
    >)
        ensures
            match r {
                Ok(out) => out@.len() == paired_len(blobs@.len(), scales) && forall|i: int|
                    0 <= i < out@.len() ==> decode_f64(
                        #[trigger] blobs@[i]@,
                        given_scale_f64(scales, i),
                    ) == Ok::<(Seq<i64>, u64), CodecError>(
                        (out@[i].values@, out@[i].scale_bits),
                    ),
                Err(e) => exists|k: int|
                    0 <= k < paired_len(blobs@.len(), scales) && decode_f64(
                        #[trigger] blobs@[k]@,
                        given_scale_f64(scales, k),
                    ) == Err::<(Seq<i64>, u64), CodecError>(e) && forall|i: int|
                        0 <= i < k ==> decode_f64(
                            #[trigger] blobs@[i]@,
                            given_scale_f64(scales, i),
                        ) is Ok,
            },
    {
        let n = match &scales {
            Some(list) => if list.len() < blobs.len() {
                list.len()
            } else {
                blobs.len()
            },
            None => blobs.len(),
        };
        let mut out: Vec<Scaled64> = Vec::new();
        let mut k: usize = 0;
        while k < n
            invariant
                k <= n == paired_len(blobs@.len(), scales),
                n <= blobs@.len(),
                out@.len() == k,
                forall|i: int|
                    0 <= i < k ==> decode_f64(
                        #[trigger] blobs@[i]@,
                        given_scale_f64(scales, i),
                    ) == Ok::<(Seq<i64>, u64), CodecError>(
                        (out@[i].values@, out@[i].scale_bits),
                    ),
            decreases n - k,
        {
            let given = match &scales {
                Some(list) => Some(list[k]),
                None => None,
            };
            match self.decompress_f64(blobs[k].as_slice(), given) {
                Ok(item) => {
                    out.push(item);
                },
                Err(e) => {
                    return Err(e);
                },
            }
            k = k + 1;
        }
        Ok(out)
    }
}

/// The scale that entry `i` of a batch is written with.
pub open spec fn scale_f64_at(scales: Option<Vec<u64>>, i: int) -> u64 {
    match scales {
        Some(list) => list@[i],
        None => DEFAULT_F64_SCALE_BITS,
    }
}

/// The scale that entry `i` of a batch is read with: the one given for it,
/// or none, so that the scale in the blob counts.
pub open spec fn given_scale_f64(scales: Option<Vec<u64>>, i: int) -> Option<u64> {
    match scales {
        Some(list) => Some(list@[i]),
        None => None,
    }
}

/// The blob of scaled f32 values: header, the scale's 4 bytes, block.
pub open spec fn encode_f32(scaled: Seq<i32>, scale_bits: u32) -> Seq<u8> {
    framed_i32(ElementType::F32, le_bytes(scale_bits as nat, 4), scaled)
}

/// What `compress_f32` returns.
pub open spec fn compress_f32_result(scaled: Seq<i32>, scale_bits: u32) -> Result<
    Seq<u8>,
    CodecError,
> {
    frame_i32_result(ElementType::F32, le_bytes(scale_bits as nat, 4), scaled)
}

/// What `decompress_f32` returns: the scaled integers, and the scale to divide
/// them by. That is the caller's scale where one is given, else the one in the
/// blob; an empty blob has none, and the default stands in.
pub open spec fn decode_f32(blob: Seq<u8>, scale: Option<u32>) -> Result<(Seq<i32>, u32), CodecError> {
    if blob.len() == 0 {
        Ok(
            (
                Seq::empty(),
                match scale {
                    Some(s) => s,
                    None => DEFAULT_F32_SCALE_BITS,
                },
            ),
        )
    } else {
        match unframed_i32(ElementType::F32, 4, blob) {
            Err(e) => Err(e),
            Ok(values) => Ok(
                (
                    values,
                    match scale {
                        Some(s) => s,
                        None => le_value(blob.subrange(HEADER_LEN as int, HEADER_LEN + 4)) as u32,
                    },
                ),
            ),
        }
    }
}

/// The scale written into a blob is the scale read from it.
pub proof fn lemma_scale_roundtrip_f32(scaled: Seq<i32>, scale_bits: u32, block: Seq<u8>)
    requires
        scaled.len() > 0,
    ensures
        le_value(
            (header_bytes(ElementType::F32, scaled.len()) + le_bytes(scale_bits as nat, 4)
                + block).subrange(HEADER_LEN as int, HEADER_LEN + 4),
        ) == scale_bits,
{
    let head = header_bytes(ElementType::F32, scaled.len());
    let extra = le_bytes(scale_bits as nat, 4);
    lemma_header_len(ElementType::F32, scaled.len());
    lemma_le_bytes_len(scale_bits as nat, 4);
    assert((head + extra + block).subrange(HEADER_LEN as int, HEADER_LEN + 4) =~= extra);
    lemma_pow256_widths();
    lemma_le_roundtrip(scale_bits as nat, 4);
}

impl FloatingCodec {
    /// Frames the scaled integers of a f32 sequence and stores the scale they
    /// were made with. An empty sequence gives an empty blob. Decoding the blob
    /// without a scale of the caller's gives the integers and this scale back.
    pub fn compress_f32(&self, scaled: &Vec<i32>, scale_bits: u32) -> (r: Result<
        Vec<u8>,
        CodecError,
    >)
        ensures
            match compress_f32_result(scaled@, scale_bits) {
                Ok(blob) => r is Ok && r->Ok_0@ == blob && decode_f32(blob, None) == Ok::<
                    (Seq<i32>, u32),
                    CodecError,
                >(
                    (
                        scaled@,
                        if scaled@.len() == 0 {
                            DEFAULT_F32_SCALE_BITS
                        } else {
                            scale_bits
                        },
                    ),
                ),
                Err(e) => r == Err::<Vec<u8>, CodecError>(e),
            },
            scaled@.len() > 0 && r is Ok ==> sized_block(
                r->Ok_0@,
                (HEADER_LEN + 4) as nat,
                varints(codes_i32(scaled@)).len(),
            ),
    {
        let mut extra: Vec<u8> = Vec::new();
        push_le(&mut extra, scale_bits as u64, 4);
        proof {
            assert(extra@ =~= le_bytes(scale_bits as nat, 4));
            lemma_le_bytes_len(scale_bits as nat, 4);
        }
        let r = frame_i32(scaled, ElementType::F32, extra.as_slice());
        proof {
            if r is Ok {
                if scaled@.len() > 0 {
                    let block = crate::codec::lz4::lz4_block(
                        crate::codec::stream::varints(crate::codec::seq_i32::codes_i32(scaled@)),
                    );
                    assert(r->Ok_0@ == header_bytes(ElementType::F32, scaled@.len()) + extra@
                        + block);
                    lemma_scale_roundtrip_f32(scaled@, scale_bits, block);
                } else {
                    assert(scaled@ =~= Seq::<i32>::empty());
                }
            }
        }
        r
    }

    /// Unframes a f32 blob into its scaled integers and the scale to divide
    /// them by: `scale`, or without one, the scale in the blob.
    pub fn decompress_f32(&self, blob: &[u8], scale: Option<u32>) -> (r: Result<
        Scaled32,
        CodecError,
    >)
        ensures
            match decode_f32(blob@, scale) {
                Ok((values, bits)) => r is Ok && r->Ok_0.values@ == values && r->Ok_0.scale_bits
                    == bits,
                Err(e) => r is Err && r->Err_0 == e,
            },
    {
        if blob.len() == 0 {
            let bits = match scale {
                Some(s) => s,
                None => DEFAULT_F32_SCALE_BITS,
            };
            return Ok(Scaled32 { values: Vec::new(), scale_bits: bits });
        }
        let values = match unframe_i32(blob, ElementType::F32, 4) {
            Ok(values) => values,
            Err(e) => {
                return Err(e);
            },
        };
        let bits = match scale {
            Some(s) => s,
            None => {
                let stored = read_le(blob, HEADER_LEN, 4);
                proof {
                    crate::codec::endian::lemma_le_value_bound(
                        blob@.subrange(HEADER_LEN as int, HEADER_LEN + 4),
                    );
                    lemma_pow256_widths();
                }
                stored as u32
            },
        };
        Ok(Scaled32 { values, scale_bits: bits })
    }

    /// Frames each sequence as `compress_f32` does, one after another. With
    /// `scales`, entry `i` is framed with scale `i`, and entries without a
    /// partner are left out; without, every entry gets the default scale.
    pub fn compress_many_f32(&self, arrays: &[Vec<i32>], scales: Option<Vec<u32>>) -> (r: Result<
        Vec<Vec<u8>>,
        CodecError,
    >)
        ensures
            match r {
                Ok(out) => out@.len() == paired_len(arrays@.len(), scales) && forall|i: int|
                    0 <= i < out@.len() ==> compress_f32_result(
                        #[trigger] arrays@[i]@,
                        scale_f32_at(scales, i),
                    ) == Ok::<Seq<u8>, CodecError>(out@[i]@),
                Err(e) => exists|k: int|
                    0 <= k < paired_len(arrays@.len(), scales) && compress_f32_result(
                        #[trigger] arrays@[k]@,
                        scale_f32_at(scales, k),
                    ) == Err::<Seq<u8>, CodecError>(e) && forall|i: int|
                        0 <= i < k ==> compress_f32_result(
                            #[trigger] arrays@[i]@,
                            scale_f32_at(scales, i),
                        ) is Ok,
            },
    {
        let n = match &scales {
            Some(list) => if list.len() < arrays.len() {
                list.len()
            } else {
                arrays.len()
            },
            None => arrays.len(),
        };
        let mut out: Vec<Vec<u8>> = Vec::new();
        let mut k: usize = 0;
        while k < n
            invariant
                k <= n == paired_len(arrays@.len(), scales),
                n <= arrays@.len(),
                out@.len() == k,
                forall|i: int|
                    0 <= i < k ==> compress_f32_result(
                        #[trigger] arrays@[i]@,
                        scale_f32_at(scales, i),
                    ) == Ok::<Seq<u8>, CodecError>(out@[i]@),
            decreases n - k,
        {
            let bits = match &scales {
                Some(list) => list[k],
                None => DEFAULT_F32_SCALE_BITS,
            };
            match self.compress_f32(&arrays[k], bits) {
                Ok(item) => {
                    out.push(item);
                },
                Err(e) => {
                    return Err(e);
                },
            }
            k = k + 1;
        }
        Ok(out)
    }

    /// Unframes each blob as `decompress_f32` does, one after another. With
    /// `scales`, blob `i` is paired with scale `i`, and blobs without a partner
    /// are left out; without, every blob is read with the scale it holds.
    pub fn decompress_many_f32(&self, blobs: &[Vec<u8>], scales: Option<Vec<u32>>) -> (r: Result<
        Vec<Scaled32>,
        CodecError,
    >)
        ensures
            match r {
                Ok(out) => out@.len() == paired_len(blobs@.len(), scales) && forall|i: int|
                    0 <= i < out@.len() ==> decode_f32(
                        #[trigger] blobs@[i]@,
                        given_scale_f32(scales, i),
                    ) == Ok::<(Seq<i32>, u32), CodecError>(
                        (out@[i].values@, out@[i].scale_bits),
                    ),
                Err(e) => exists|k: int|
                    0 <= k < paired_len(blobs@.len(), scales) && decode_f32(
                        #[trigger] blobs@[k]@,
                        given_scale_f32(scales, k),
                    ) == Err::<(Seq<i32>, u32), CodecError>(e) && forall|i: int|
                        0 <= i < k ==> decode_f32(
                            #[trigger] blobs@[i]@,
                            given_scale_f32(scales, i),
                        ) is Ok,
            },
    {
        let n = match &scales {
            Some(list) => if list.len() < blobs.len() {
                list.len()
            } else {
                blobs.len()
            },
            None => blobs.len(),
        };
        let mut out: Vec<Scaled32> = Vec::new();
        let mut k: usize = 0;
        while k < n
            invariant
                k <= n == paired_len(blobs@.len(), scales),
                n <= blobs@.len(),
                out@.len() == k,
                forall|i: int|
                    0 <= i < k ==> decode_f32(
                        #[trigger] blobs@[i]@,
                        given_scale_f32(scales, i),
                    ) == Ok::<(Seq<i32>, u32), CodecError>(
                        (out@[i].values@, out@[i].scale_bits),
                    ),
            decreases n - k,
        {
            let given = match &scales {
                Some(list) => Some(list[k]),
                None => None,
            };
            match self.decompress_f32(blobs[k].as_slice(), given) {
                Ok(item) => {
                    out.push(item);
                },
                Err(e) => {
                    return Err(e);
                },
            }
            k = k + 1;
        }
        Ok(out)
    }
}

/// The scale that entry `i` of a batch is written with.
pub open spec fn scale_f32_at(scales: Option<Vec<u32>>, i: int) -> u32 {
    match scales {
        Some(list) => list@[i],
        None => DEFAULT_F32_SCALE_BITS,
    }
}

/// The scale that entry `i` of a batch is read with: the one given for it,
/// or none, so that the scale in the blob counts.
pub open spec fn given_scale_f32(scales: Option<Vec<u32>>, i: int) -> Option<u32> {
    match scales {
        Some(list) => Some(list@[i]),
        None => None,
    }
}

/// How many entries of a batch of `n` have a scale to go with them.
pub open spec fn paired_len<T>(n: nat, scales: Option<Vec<T>>) -> nat {
    match scales {
        Some(list) => if list@.len() < n {
            list@.len()
        } else {
            n
        },
        None => n,
    }
}

} // verus!
