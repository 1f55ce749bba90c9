//! The fixed blob header: magic, format version, compression method, element
//! type and element count. Every decoder validates it, through the one
//! length-checked reader here, before it looks at the payload.

use crate::codec::endian::{le_bytes, le_value, lemma_le_bytes_len, push_le, read_le};
use vstd::prelude::*;

verus! {

/// The only format version written and accepted.
pub const FORMAT_VERSION: u8 = 1;

/// The method byte of an LZ4 block.
pub const METHOD_LZ4: u8 = 1;

/// Bytes of the header that all blobs share: 4 of magic, 3 single bytes and 8
/// of count.
pub const HEADER_LEN: usize = 15;

/// The four magic bytes, `ORSO` in ASCII.
pub open spec fn magic() -> Seq<u8> {
    seq![0x4Fu8, 0x52u8, 0x53u8, 0x4Fu8]
}

/// What a blob's elements are.
#[derive(Debug, Clone, Copy, PartialEq, Eq, Structural)]
pub enum ElementType {
    I64,
    U64,
    I32,
    U32,
    F64,
    F32,
    /// An uninterpreted run of bytes.
    Bytes,
}

impl ElementType {
    /// The type byte of the header. Raw bytes are written under the same byte
    /// as 64-bit floats; the two are told apart by who reads the column.
    pub open spec fn spec_code(self) -> u8 {
        match self {
            ElementType::I64 => 0,
            ElementType::U64 => 1,
            ElementType::I32 => 2,
            ElementType::U32 => 3,
            ElementType::F64 => 4,
            ElementType::F32 => 5,
            ElementType::Bytes => 4,
        }
    }

    /// The type byte of the header.
    pub fn code(&self) -> (c: u8)
        ensures
            c == self.spec_code(),
    {
        match self {
            ElementType::I64 => 0,
            ElementType::U64 => 1,
            ElementType::I32 => 2,
            ElementType::U32 => 3,
            ElementType::F64 => 4,
            ElementType::F32 => 5,
            ElementType::Bytes => 4,
        }
    }
}

/// Why a blob could not be made or read.
#[derive(Debug, Clone, Copy, PartialEq, Eq, Structural)]
pub enum CodecError {
    /// The blob is not empty but shorter than its header.
    TooShort,
    /// The first four bytes are not the magic.
    BadMagic,
    /// The version byte is not [`FORMAT_VERSION`].
    UnsupportedVersion,
    /// The method byte is not [`METHOD_LZ4`].
    UnsupportedMethod,
    /// The type byte is not that of the element type asked for, which is
    /// carried here.
    UnsupportedType(ElementType),
    /// The compressed block is malformed.
    Decompress,
    /// The varint stream ends early, or holds a value too wide for the element
    /// type.
    Varint,
    /// A byte blob unpacked to another length than its header gives.
    LengthMismatch,
    /// The varint stream is longer than the block's 32-bit size prefix can
    /// say.
    PayloadTooLarge,
}

/// The header of a blob of `count` elements of type `ty`.
pub open spec fn header_bytes(ty: ElementType, count: nat) -> Seq<u8> {
    magic() + seq![FORMAT_VERSION, METHOD_LZ4, ty.spec_code()] + le_bytes(count, 8)
}

/// Validation of a header, in the order the checks are made: length, magic,
/// version, method, type. Gives the element count.
pub open spec fn parse_header(blob: Seq<u8>, min_len: nat, ty: ElementType) -> Result<
    nat,
    CodecError,
> {
    if blob.len() < min_len {
        Err(CodecError::TooShort)
    } else if blob.subrange(0, 4) != magic() {
        Err(CodecError::BadMagic)
    } else if blob[4] != FORMAT_VERSION {
        Err(CodecError::UnsupportedVersion)
    } else if blob[5] != METHOD_LZ4 {
        Err(CodecError::UnsupportedMethod)
    } else if blob[6] != ty.spec_code() {
        Err(CodecError::UnsupportedType(ty))
    } else {
        Ok(le_value(blob.subrange(7, 15)))
    }
}

/// A header is 15 bytes long.
pub proof fn lemma_header_len(ty: ElementType, count: nat)
    ensures
        header_bytes(ty, count).len() == HEADER_LEN,
{
    lemma_le_bytes_len(count, 8);
}

/// A blob that starts with the header of `count` elements of type `ty` passes
/// validation for that type and yields `count`, if it is long enough and the
/// count fits its eight bytes.
pub proof fn lemma_parse_written_header(blob: Seq<u8>, min_len: nat, ty: ElementType, count: nat)
    requires
        count <= u64::MAX,
        min_len <= blob.len(),
        HEADER_LEN <= blob.len(),
        blob.subrange(0, HEADER_LEN as int) == header_bytes(ty, count),
    ensures
        parse_header(blob, min_len, ty) == Ok::<nat, CodecError>(count),
{
    let h = header_bytes(ty, count);
    lemma_le_bytes_len(count, 8);
    assert forall|i: int| 0 <= i < 15 implies blob[i] == h[i] by {
        assert(blob.subrange(0, 15)[i] == blob[i]);
    }
    assert(blob.subrange(0, 4) =~= magic());
    assert(blob[4] == h[4] && blob[5] == h[5] && blob[6] == h[6]);
    assert(blob.subrange(7, 15) =~= le_bytes(count, 8)) by {
        assert forall|i: int| 0 <= i < 8 implies blob.subrange(7, 15)[i] == le_bytes(count, 8)[i] by {
            assert(h[7 + i] == le_bytes(count, 8)[i]);
        }
    }
    crate::codec::endian::lemma_pow256_widths();
    crate::codec::endian::lemma_le_roundtrip(count, 8);
}

/// Appends the header of `count` elements of type `ty`.
pub fn write_header(buf: &mut Vec<u8>, ty: ElementType, count: u64)
    ensures
        final(buf)@ == old(buf)@ + header_bytes(ty, count as nat),
{
    buf.push(0x4F);
    buf.push(0x52);
    buf.push(0x53);
    buf.push(0x4F);
    buf.push(FORMAT_VERSION);
    buf.push(METHOD_LZ4);
    buf.push(ty.code());
    push_le(buf, count, 8);
    assert(buf@ =~= old(buf)@ + header_bytes(ty, count as nat));
}

/// Whether the block of `blob` begins at `at` with its size prefix: four
/// bytes that hold `len`, the length of what was compressed, low byte first.
pub open spec fn sized_block(blob: Seq<u8>, at: nat, len: nat) -> bool {
    blob.len() >= at + 4 && blob.subrange(at as int, (at + 4) as int) == le_bytes(len, 4)
}

/// A blob from its parts: the header of `count` elements of type `ty`, what
/// the element type stores behind the header, and the compressed block.
pub fn assemble(ty: ElementType, count: u64, extra: &[u8], block: &[u8]) -> (blob: Vec<u8>)
    ensures
        blob@ == header_bytes(ty, count as nat) + extra@ + block@,
{
    let mut blob: Vec<u8> = Vec::new();
    write_header(&mut blob, ty, count);
    blob.extend_from_slice(extra);
    blob.extend_from_slice(block);
    assert(blob@ =~= header_bytes(ty, count as nat) + extra@ + block@);
    blob
}

/// Validates the header of `blob` for element type `ty` and reads the element
/// count. `min_len` is the least length the caller accepts: the header, plus
/// what the element type stores behind it.
pub fn read_header(blob: &[u8], min_len: usize, ty: ElementType) -> (r: Result<u64, CodecError>)
    requires
        min_len >= HEADER_LEN,
    ensures
        match parse_header(blob@, min_len as nat, ty) {
            Ok(count) => r == Ok::<u64, CodecError>(count as u64) && count <= u64::MAX,
            Err(e) => r == Err::<u64, CodecError>(e),
        },
{
    if blob.len() < min_len {
        return Err(CodecError::TooShort);
    }
    if blob[0] != 0x4F || blob[1] != 0x52 || blob[2] != 0x53 || blob[3] != 0x4F {
        assert(blob@.subrange(0, 4) != magic()) by {
            if blob@.subrange(0, 4) == magic() {
                assert(blob@.subrange(0, 4)[0] == blob@[0]);
                assert(blob@.subrange(0, 4)[1] == blob@[1]);
                assert(blob@.subrange(0, 4)[2] == blob@[2]);
                assert(blob@.subrange(0, 4)[3] == blob@[3]);
            }
        }
        return Err(CodecError::BadMagic);
    }
    assert(blob@.subrange(0, 4) =~= magic());
    if blob[4] != FORMAT_VERSION {
        return Err(CodecError::UnsupportedVersion);
    }
    if blob[5] != METHOD_LZ4 {
        return Err(CodecError::UnsupportedMethod);
    }
    if blob[6] != ty.code() {
        return Err(CodecError::UnsupportedType(ty));
    }
    let count = read_le(blob, 7, 8);
    Ok(count)
}

} // verus!
