//! Sequences of 64-bit signed integers. Each element is coded as the
//! zigzag of its wrapping difference to the one before it, and written as
//! a varint.

use crate::codec::header::{
    assemble, CodecError, ElementType, header_bytes, HEADER_LEN, lemma_header_len, lemma_parse_written_header, parse_header, read_header, sized_block,
};
use crate::codec::integer::{IntegerCodec, MAX_PAYLOAD_LEN};
use crate::codec::lz4::{lz4_block, lz4_compress, lz4_decompress, lz4_unblock};
use crate::codec::stream::{lemma_stream_roundtrip, read_varints, varints};
use crate::codec::varint::{
    lemma_varint_bytes_len, pow128, read_varint_u64, varint_bytes, varint_read, write_varint_u64,
    MAX_VARINT_LEN_64,
};
use crate::codec::zigzag::{lemma_zigzag_inverse, unzigzag64, unzigzag_i64, zigzag64, zigzag_i64};
use vstd::prelude::*;
use vstd::slice::slice_subrange;

verus! {

/// `a - b` in 64-bit two's complement.
pub open spec fn wrapping_sub_i64(a: i64, b: i64) -> i64 {
    if a - b > i64::MAX {
        (a - b - 0x1_0000_0000_0000_0000) as i64
    } else if a - b < i64::MIN {
        (a - b + 0x1_0000_0000_0000_0000) as i64
    } else {
        (a - b) as i64
    }
}

/// `a + b` in 64-bit two's complement.
pub open spec fn wrapping_add_i64(a: i64, b: i64) -> i64 {
    if a + b > i64::MAX {
        (a + b - 0x1_0000_0000_0000_0000) as i64
    } else if a + b < i64::MIN {
        (a + b + 0x1_0000_0000_0000_0000) as i64
    } else {
        (a + b) as i64
    }
}

/// The element before index `i`, zero before the first.
pub open spec fn prev_i64(data: Seq<i64>, i: int) -> i64 {
    if i <= 0 {
        0
    } else {
        data[i - 1]
    }
}

/// The code of each element: the zigzag of its wrapping difference to the element before it.
pub open spec fn codes_i64(data: Seq<i64>) -> Seq<nat> {
    Seq::new(data.len(), |i: int| zigzag64(wrapping_sub_i64(data[i], prev_i64(data, i))) as nat)
}

/// The wrapping sum of the first `k` differences that `codes` stand for.
pub open spec fn sum_i64(codes: Seq<nat>, k: nat) -> i64
    decreases k,
{
    if k == 0 {
        0
    } else {
        wrapping_add_i64(sum_i64(codes, (k - 1) as nat), unzigzag64(codes[k - 1] as u64))
    }
}

/// The elements that `codes` stand for: the running wrapping sums.
pub open spec fn values_i64(codes: Seq<nat>) -> Seq<i64> {
    Seq::new(codes.len(), |i: int| sum_i64(codes, (i + 1) as nat))
}

/// The blob of `data` under type byte `ty`, with `extra` between header and
/// block: nothing at all for an empty sequence.
pub open spec fn framed_i64(ty: ElementType, extra: Seq<u8>, data: Seq<i64>) -> Seq<u8> {
    if data.len() == 0 {
        Seq::empty()
    } else {
        header_bytes(ty, data.len()) + extra + lz4_block(varints(codes_i64(data)))
    }
}

/// What framing `data` returns: the blob, unless the varint stream is longer
/// than a block can hold.
pub open spec fn frame_i64_result(ty: ElementType, extra: Seq<u8>, data: Seq<i64>) -> Result<
    Seq<u8>,
    CodecError,
> {
    if data.len() > 0 && varints(codes_i64(data)).len() > MAX_PAYLOAD_LEN {
        Err(CodecError::PayloadTooLarge)
    } else {
        Ok(framed_i64(ty, extra, data))
    }
}

/// What a blob holds as 64-bit signed integers, where its header is to
/// carry type byte `ty` and `extra_len` bytes lie between header and block.
pub open spec fn unframed_i64(ty: ElementType, extra_len: nat, blob: Seq<u8>) -> Result<
    Seq<i64>,
    CodecError,
> {
    if blob.len() == 0 {
        Ok(Seq::empty())
    } else {
        match parse_header(blob, HEADER_LEN as nat + extra_len, ty) {
            Err(e) => Err(e),
            Ok(count) => match lz4_unblock(
                blob.subrange(HEADER_LEN as int + extra_len, blob.len() as int),
            ) {
                None => Err(CodecError::Decompress),
                Some(packed) => decoded_i64(packed, count),
            },
        }
    }
}

/// The blob that `compress_i64` makes of `data`.
pub open spec fn encode_i64(data: Seq<i64>) -> Seq<u8> {
    framed_i64(ElementType::I64, Seq::empty(), data)
}

/// What `compress_i64` returns for `data`.
pub open spec fn compress_i64_result(data: Seq<i64>) -> Result<Seq<u8>, CodecError> {
    frame_i64_result(ElementType::I64, Seq::empty(), data)
}

/// What `decompress_i64` returns for `blob`.
pub open spec fn decode_i64(blob: Seq<u8>) -> Result<Seq<i64>, CodecError> {
    unframed_i64(ElementType::I64, 0, blob)
}

/// Summing the differences of a sequence gives the sequence back, up to any
/// prefix.
pub proof fn lemma_sum_of_codes_i64(data: Seq<i64>, k: nat)
    requires
        k <= data.len(),
    ensures
        sum_i64(codes_i64(data), k) == prev_i64(data, k as int),
    decreases k,
{
    if k > 0 {
        lemma_sum_of_codes_i64(data, (k - 1) as nat);
        lemma_zigzag_inverse();
        let d = wrapping_sub_i64(data[k - 1], prev_i64(data, k - 1));
        assert(codes_i64(data)[k - 1] == zigzag64(d) as nat);
        assert(unzigzag64(zigzag64(d)) == d);
    }
}

/// A sum over a prefix does not depend on what follows the prefix, and one
/// more code adds one more difference.
pub proof fn lemma_sum_prefix_i64(a: Seq<nat>, b: Seq<nat>, k: nat)
    requires
        a.len() <= b.len(),
        forall|j: int| 0 <= j < a.len() ==> a[j] == b[j],
    ensures
        k <= a.len() ==> sum_i64(a, k) == sum_i64(b, k),
        k == a.len() + 1 && k <= b.len() ==> sum_i64(b, k) == wrapping_add_i64(
            sum_i64(a, a.len()),
            unzigzag64(b[k - 1] as u64),
        ),
    decreases k,
{
    if k > 0 {
        lemma_sum_prefix_i64(a, b, (k - 1) as nat);
    }
}

/// The streaming part of the codec loses nothing: the varints of a
/// sequence's codes read back as those codes, and the codes sum back to the
/// sequence.
pub proof fn lemma_payload_roundtrip_i64(data: Seq<i64>)
    ensures
        read_varints(varints(codes_i64(data)), 0, data.len(), MAX_VARINT_LEN_64 as nat, u64::MAX as nat)
            == Some(codes_i64(data)),
        values_i64(codes_i64(data)) == data,
{
    let codes = codes_i64(data);
    let payload = varints(codes);
    assert(pow128(10) == 0x40_0000_0000_0000_0000) by {
        reveal_with_fuel(pow128, 11);
    }
    assert forall|i: int| 0 <= i < codes.len() implies varint_bytes(#[trigger] codes[i]).len()
        <= MAX_VARINT_LEN_64 by {
        lemma_varint_bytes_len(codes[i], 10);
    }
    assert(payload.subrange(0, payload.len() as int) =~= payload);
    lemma_stream_roundtrip(payload, 0, codes, MAX_VARINT_LEN_64 as nat, u64::MAX as nat);
    assert(values_i64(codes) =~= data) by {
        assert forall|i: int| 0 <= i < data.len() implies values_i64(codes)[i] == data[i] by {
            lemma_sum_of_codes_i64(data, (i + 1) as nat);
        }
    }
}

/// A framed sequence unframes to itself: for every non-empty `data` whose
/// count fits the header, and every block that the compressor made of its
/// varint stream and that unpacks to that stream.
pub proof fn lemma_unframe_framed_i64(
    ty: ElementType,
    extra: Seq<u8>,
    data: Seq<i64>,
    block: Seq<u8>,
)
    requires
        data.len() > 0,
        data.len() <= u64::MAX,
        lz4_unblock(block) == Some(varints(codes_i64(data))),
    ensures
        unframed_i64(ty, extra.len(), header_bytes(ty, data.len()) + extra + block) == Ok::<
            Seq<i64>,
            CodecError,
        >(data),
{
    let head = header_bytes(ty, data.len());
    let blob = head + extra + block;
    lemma_header_len(ty, data.len());
    assert(blob.subrange(0, HEADER_LEN as int) =~= head);
    assert(blob.subrange(HEADER_LEN as int + extra.len(), blob.len() as int) =~= block);
    lemma_parse_written_header(blob, HEADER_LEN as nat + extra.len(), ty, data.len());
    lemma_payload_roundtrip_i64(data);
}

/// The varint stream of `data`: one varint for each element's code.
pub fn encode_payload_i64(data: &Vec<i64>) -> (payload: Vec<u8>)
    ensures
        payload@ == varints(codes_i64(data@)),
{
    let n = data.len();
    let mut payload: Vec<u8> = Vec::new();
    let mut prev: i64 = 0;
    let mut i: usize = 0;
    let ghost codes = codes_i64(data@);
    assert(codes.take(0) =~= Seq::<nat>::empty());
    while i < n
        invariant
            i <= n == data@.len(),
            codes == codes_i64(data@),
            prev == prev_i64(data@, i as int),
            payload@ == varints(codes.take(i as int)),
        decreases n - i,
    {
        let x = data[i];
        let d = x.wrapping_sub(prev);
        prev = x;
        write_varint_u64(&mut payload, zigzag_i64(d));
        proof {
            assert(codes.take(i + 1).drop_last() =~= codes.take(i as int));
            assert(codes.take(i + 1).last() == codes[i as int]);
        }
        i = i + 1;
    }
    assert(codes.take(n as int) =~= codes);
    payload
}

/// Frames `data` under type byte `ty`, with `extra` between header and block.
/// An empty sequence gives an empty blob, with no header and no `extra`. The
/// one failure is a varint stream too long for the block's size prefix.
/// Unframing the blob gives `data` back.
pub fn frame_i64(data: &Vec<i64>, ty: ElementType, extra: &[u8]) -> (r: Result<
    Vec<u8>,
    CodecError,
>)
    ensures
        match frame_i64_result(ty, extra@, data@) {
            Ok(blob) => r is Ok && r->Ok_0@ == blob && unframed_i64(ty, extra@.len(), blob) == Ok::<
                Seq<i64>,
                CodecError,
            >(data@),
            Err(e) => r == Err::<Vec<u8>, CodecError>(e),
        },
        data@.len() > 0 && r is Ok ==> sized_block(
            r->Ok_0@,
            (HEADER_LEN + extra@.len()) as nat,
            varints(codes_i64(data@)).len(),
        ),
{
    if data.len() == 0 {
        assert(data@ =~= Seq::<i64>::empty());
        return Ok(Vec::new());
    }
    let payload = encode_payload_i64(data);
    if payload.len() > MAX_PAYLOAD_LEN {
        return Err(CodecError::PayloadTooLarge);
    }
    let block = lz4_compress(payload.as_slice());
    let blob = assemble(ty, data.len() as u64, extra, block.as_slice());
    proof {
        lemma_unframe_framed_i64(ty, extra@, data@, block@);
        lemma_header_len(ty, data@.len());
        assert(blob@.subrange(HEADER_LEN + extra@.len(), HEADER_LEN + extra@.len() + 4)
            =~= block@.subrange(0, 4));
    }
    Ok(blob)
}

/// What a varint stream holds as `count` 64-bit signed integers.
pub open spec fn decoded_i64(packed: Seq<u8>, count: nat) -> Result<Seq<i64>, CodecError> {
    match read_varints(packed, 0, count, MAX_VARINT_LEN_64 as nat, u64::MAX as nat) {
        None => Err(CodecError::Varint),
        Some(codes) => Ok(values_i64(codes)),
    }
}

/// Reads `count` integers from a varint stream: each varint is a code, and
/// the running wrapping sum of what the codes stand for gives the elements.
/// The stream may be longer than is read. It is an error where it ends
/// early, or holds a varint that is too long or too large.
pub fn decode_payload_i64(packed: &[u8], count: u64) -> (r: Result<Vec<i64>, CodecError>)
    ensures
        match decoded_i64(packed@, count as nat) {
            Ok(data) => r is Ok && r->Ok_0@ == data,
            Err(e) => r == Err::<Vec<i64>, CodecError>(e),
        },
{
    let mut out: Vec<i64> = Vec::new();
    let mut acc: i64 = 0;
    let mut pos: usize = 0;
    let mut i: u64 = 0;
    let ghost mut seen: Seq<nat> = Seq::empty();
    let ghost whole = read_varints(packed@, 0, count as nat, MAX_VARINT_LEN_64 as nat, u64::MAX as nat);
    while i < count
        invariant
            i <= count,
            seen.len() == i,
            whole == read_varints(packed@, 0, count as nat, MAX_VARINT_LEN_64 as nat, u64::MAX as nat),
            whole == match read_varints(
                packed@,
                pos as int,
                (count - i) as nat,
                MAX_VARINT_LEN_64 as nat,
                u64::MAX as nat,
            ) {
                None => None,
                Some(rest) => Some(seen + rest),
            },
            out@ == values_i64(seen),
            acc == sum_i64(seen, i as nat),
        decreases count - i,
    {
        let (v, next) = match read_varint_u64(packed, pos) {
            Some(pair) => pair,
            None => {
                return Err(CodecError::Varint);
            },
        };
        let d = unzigzag_i64(v);
        acc = acc.wrapping_add(d);
        out.push(acc);
        proof {
            assert(varint_read(packed@, pos as int, MAX_VARINT_LEN_64 as nat, u64::MAX as nat) == Some(
                (v as nat, next as int),
            ));
            let longer = seen.push(v as nat);
            let tail = read_varints(
                packed@,
                next as int,
                (count - i - 1) as nat,
                MAX_VARINT_LEN_64 as nat,
                u64::MAX as nat,
            );
            if let Some(rest) = tail {
                assert(seen + (seq![v as nat] + rest) =~= longer + rest);
            }
            lemma_sum_prefix_i64(seen, longer, i as nat);
            assert(out@ =~= values_i64(longer)) by {
                assert forall|j: int| 0 <= j < longer.len() implies out@[j] == values_i64(
                    longer,
                )[j] by {
                    lemma_sum_prefix_i64(seen, longer, (j + 1) as nat);
                }
            }
            seen = longer;
        }
        pos = next;
        i = i + 1;
    }
    proof {
        assert(seen + Seq::<nat>::empty() =~= seen);
    }
    Ok(out)
}

/// Unframes a blob of 64-bit signed integers whose header is to carry
/// type byte `ty`, with `extra_len` bytes between header and block. The header
/// is validated before the payload is touched; an empty blob is the empty
/// sequence.
pub fn unframe_i64(blob: &[u8], ty: ElementType, extra_len: usize) -> (r: Result<
    Vec<i64>,
    CodecError,
>)
    requires
        extra_len <= 8,
    ensures
        match unframed_i64(ty, extra_len as nat, blob@) {
            Ok(data) => r is Ok && r->Ok_0@ == data,
            Err(e) => r == Err::<Vec<i64>, CodecError>(e),
        },
{
    if blob.len() == 0 {
        return Ok(Vec::new());
    }
    let count = match read_header(blob, HEADER_LEN + extra_len, ty) {
        Ok(count) => count,
        Err(e) => {
            return Err(e);
        },
    };
    let packed = match lz4_decompress(slice_subrange(blob, HEADER_LEN + extra_len, blob.len())) {
        Ok(packed) => packed,
        Err(_) => {
            return Err(CodecError::Decompress);
        },
    };
    decode_payload_i64(packed.as_slice(), count)
}

impl IntegerCodec {
    /// Encodes `data`: header, then the compressed varint stream, which
    /// begins with the stream's length in four bytes. An empty sequence gives
    /// an empty blob. Decoding the blob gives `data` back.
    pub fn compress_i64(&self, data: &Vec<i64>) -> (r: Result<Vec<u8>, CodecError>)
        ensures
            match compress_i64_result(data@) {
                Ok(blob) => r is Ok && r->Ok_0@ == blob && decode_i64(blob) == Ok::<
                    Seq<i64>,
                    CodecError,
                >(data@),
                Err(e) => r == Err::<Vec<u8>, CodecError>(e),
            },
            data@.len() > 0 && r is Ok ==> sized_block(
                r->Ok_0@,
                HEADER_LEN as nat,
                varints(codes_i64(data@)).len(),
            ),
    {
        let none: Vec<u8> = Vec::new();
        frame_i64(data, ElementType::I64, none.as_slice())
    }

    /// Decodes a blob of 64-bit signed integers.
    pub fn decompress_i64(&self, blob: &[u8]) -> (r: Result<Vec<i64>, CodecError>)
        ensures
            match decode_i64(blob@) {
                Ok(data) => r is Ok && r->Ok_0@ == data,
                Err(e) => r == Err::<Vec<i64>, CodecError>(e),
            },
    {
        unframe_i64(blob, ElementType::I64, 0)
    }
}

} // verus!
