//! Variable-length integers: seven data bits per byte, least significant group
//! first, the top bit of a byte set while more bytes follow.

use integer_encoding::VarIntReader;
use integer_encoding::VarIntWriter;
use vstd::prelude::*;

verus! {

/// Most bytes a varint of a 64-bit value may take.
pub const MAX_VARINT_LEN_64: usize = 10;

/// Most bytes a varint of a 32-bit value may take.
pub const MAX_VARINT_LEN_32: usize = 5;

/// The varint of `v`: its base-128 digits from the least significant one, each
/// but the last with the continuation bit set.
pub open spec fn varint_bytes(v: nat) -> Seq<u8>
    decreases v,
{
    if v < 128 {
        seq![v as u8]
    } else {
        seq![(128 + v % 128) as u8] + varint_bytes(v / 128)
    }
}

/// The number of bytes of the varint that starts at `pos`, where one ends
/// within `max` bytes and before the end of `bytes`.
pub open spec fn varint_len(bytes: Seq<u8>, pos: int, max: nat) -> Option<nat>
    decreases max,
{
    if max == 0 || pos < 0 || pos >= bytes.len() {
        None
    } else if bytes[pos] < 128 {
        Some(1nat)
    } else {
        match varint_len(bytes, pos + 1, (max - 1) as nat) {
            Some(n) => Some(n + 1),
            None => None,
        }
    }
}

/// The number that the `len` bytes from `pos` spell as base-128 digits, least
/// significant first, continuation bits dropped.
pub open spec fn varint_value(bytes: Seq<u8>, pos: int, len: nat) -> nat
    decreases len,
{
    if len == 0 {
        0
    } else {
        (bytes[pos] % 128) as nat + 128 * varint_value(bytes, pos + 1, (len - 1) as nat)
    }
}

/// What reading one varint at `pos` yields: the value and the position behind
/// it. `None` where no varint ends within `max` bytes, or its value is above
/// `limit`.
pub open spec fn varint_read(bytes: Seq<u8>, pos: int, max: nat, limit: nat) -> Option<(nat, int)> {
    match varint_len(bytes, pos, max) {
        Some(n) => {
            let v = varint_value(bytes, pos, n);
            if v <= limit {
                Some((v, pos + n))
            } else {
                None
            }
        },
        None => None,
    }
}

/// The varint of a value below `128^k` has at most `k` bytes.
pub proof fn lemma_varint_bytes_len(v: nat, k: nat)
    requires
        k >= 1,
        v < pow128(k),
    ensures
        1 <= varint_bytes(v).len() <= k,
    decreases v,
{
    if v < 128 {
    } else {
        assert(k >= 2) by {
            if k == 1 {
                assert(pow128(1) == 128 * pow128(0));
            }
        }
        assert(pow128(k) == 128 * pow128((k - 1) as nat));
        lemma_varint_bytes_len(v / 128, (k - 1) as nat);
    }
}

/// `128^k`.
pub open spec fn pow128(k: nat) -> nat
    decreases k,
{
    if k == 0 {
        1
    } else {
        128 * pow128((k - 1) as nat)
    }
}

/// Reading at `pos` a buffer that holds the varint of `v` there gives `v` back
/// and stops right behind it, provided the reader allows that many bytes and
/// that large a value.
pub proof fn lemma_varint_roundtrip(bytes: Seq<u8>, pos: int, v: nat, max: nat, limit: nat)
    requires
        0 <= pos,
        pos + varint_bytes(v).len() <= bytes.len(),
        bytes.subrange(pos, pos + varint_bytes(v).len()) == varint_bytes(v),
        varint_bytes(v).len() <= max,
        v <= limit,
    ensures
        varint_read(bytes, pos, max, limit) == Some((v, pos + varint_bytes(v).len())),
{
    lemma_varint_scan(bytes, pos, v, max);
}

proof fn lemma_varint_scan(bytes: Seq<u8>, pos: int, v: nat, max: nat)
    requires
        0 <= pos,
        pos + varint_bytes(v).len() <= bytes.len(),
        bytes.subrange(pos, pos + varint_bytes(v).len()) == varint_bytes(v),
        varint_bytes(v).len() <= max,
    ensures
        varint_len(bytes, pos, max) == Some(varint_bytes(v).len()),
        varint_value(bytes, pos, varint_bytes(v).len()) == v,
    decreases v,
{
    let enc = varint_bytes(v);
    let n = enc.len();
    assert(n >= 1);
    assert(bytes[pos] == bytes.subrange(pos, pos + n)[0]);
    if v < 128 {
        assert(enc[0] == v as u8);
        assert(varint_value(bytes, pos + 1, 0) == 0);
    } else {
        let rest = varint_bytes(v / 128);
        assert(enc[0] == (128 + v % 128) as u8);
        assert(n == 1 + rest.len());
        assert(bytes.subrange(pos + 1, pos + 1 + rest.len()) =~= rest) by {
            assert forall|i: int| 0 <= i < rest.len() implies bytes.subrange(
                pos + 1,
                pos + 1 + rest.len(),
            )[i] == rest[i] by {
                assert(bytes[pos + 1 + i] == bytes.subrange(pos, pos + n)[1 + i]);
                assert(enc[1 + i] == rest[i]);
            }
        }
        lemma_varint_scan(bytes, pos + 1, v / 128, (max - 1) as nat);
        assert(bytes[pos] >= 128);
        assert((bytes[pos] % 128) as nat == v % 128);
    }
}

/// `integer_encoding`'s `write_varint` for a `u64`, on a `Vec<u8>`, taken on
/// trust: it appends the varint of `v` and nothing else. Writing into a
/// vector cannot fail.
#[verifier::external_body]
pub(crate) fn write_varint_u64(buf: &mut Vec<u8>, v: u64)
    ensures
        final(buf)@ == old(buf)@ + varint_bytes(v as nat),
{
    let _ = buf.write_varint(v);
}

/// `integer_encoding`'s `write_varint` for a `u32`, on a `Vec<u8>`, taken on
/// trust: the value is widened and coded as a `u64` is.
#[verifier::external_body]
pub(crate) fn write_varint_u32(buf: &mut Vec<u8>, v: u32)
    ensures
        final(buf)@ == old(buf)@ + varint_bytes(v as nat),
{
    let _ = buf.write_varint(v);
}

/// `integer_encoding`'s `read_varint` for a `u64`, on a cursor over `bytes`
/// set to `pos`, taken on trust. The reader takes single bytes until one has
/// a clear top bit, gives up after ten, and refuses a tenth byte above one,
/// which is a value that does not fit 64 bits. On success the cursor stands
/// right behind the varint.
#[verifier::external_body]
pub(crate) fn read_varint_u64(bytes: &[u8], pos: usize) -> (r: Option<(u64, usize)>)
    ensures
        match r {
            Some((v, next)) => varint_read(
                bytes@,
                pos as int,
                MAX_VARINT_LEN_64 as nat,
                u64::MAX as nat,
            ) == Some((v as nat, next as int)),
            None => varint_read(bytes@, pos as int, MAX_VARINT_LEN_64 as nat, u64::MAX as nat)
                is None,
        },
{
    let mut cursor = std::io::Cursor::new(bytes);
    cursor.set_position(pos as u64);
    match cursor.read_varint::<u64>() {
        Ok(v) => Some((v, cursor.position() as usize)),
        Err(_) => None,
    }
}

/// `integer_encoding`'s `read_varint` for a `u32`, on a cursor over `bytes`
/// set to `pos`, taken on trust. As for a `u64`, but the reader gives up
/// after five bytes and refuses a value above `u32::MAX`.
#[verifier::external_body]
pub(crate) fn read_varint_u32(bytes: &[u8], pos: usize) -> (r: Option<(u32, usize)>)
    ensures
        match r {
            Some((v, next)) => varint_read(
                bytes@,
                pos as int,
                MAX_VARINT_LEN_32 as nat,
                u32::MAX as nat,
            ) == Some((v as nat, next as int)),
            None => varint_read(bytes@, pos as int, MAX_VARINT_LEN_32 as nat, u32::MAX as nat)
                is None,
        },
{
    let mut cursor = std::io::Cursor::new(bytes);
    cursor.set_position(pos as u64);
    match cursor.read_varint::<u32>() {
        Ok(v) => Some((v, cursor.position() as usize)),
        Err(_) => None,
    }
}

} // verus!
