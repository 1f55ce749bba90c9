use orso::codec::floating::{FloatingCodec, DEFAULT_F32_SCALE_BITS, DEFAULT_F64_SCALE_BITS};
use orso::codec::header::{assemble, read_header, write_header, CodecError, ElementType};
use orso::codec::raw::check_count;
use orso::codec::seq_i32::{decode_payload_i32, encode_payload_i32};
use orso::codec::seq_i64::{decode_payload_i64, encode_payload_i64};
use orso::codec::seq_u32::{decode_payload_u32, encode_payload_u32};
use orso::codec::seq_u64::{decode_payload_u64, encode_payload_u64};
use orso::codec::integer::IntegerCodec;
use orso::codec::zigzag::{unzigzag_i32, unzigzag_i64, zigzag_i32, zigzag_i64};
use orso::codec::Codec;
use orso::error::{codec_error_message, Error};

#[test]
fn thousand_three_times() {
    let c = IntegerCodec::default();
    let blob = c.compress_i64(&vec![1000, 1000, 1000]).unwrap();
    assert_eq!(&blob[0..4], b"ORSO");
    assert_eq!(blob[4], 1);
    assert_eq!(blob[5], 1);
    assert_eq!(blob[6], 0);
    assert_eq!(&blob[7..15], &3u64.to_le_bytes());
    assert_eq!(c.decompress_i64(&blob).unwrap(), vec![1000, 1000, 1000]);
    let payload = lz4_flex::block::decompress_size_prepended(&blob[15..]).unwrap();
    assert_eq!(payload, vec![0xD0, 0x0F, 0x00, 0x00]);
}

#[test]
fn type_codes() {
    let c = IntegerCodec::default();
    assert_eq!(c.compress_u64(&vec![1]).unwrap()[6], 1);
    assert_eq!(c.compress_i32(&vec![1]).unwrap()[6], 2);
    assert_eq!(c.compress_u32(&vec![1]).unwrap()[6], 3);
    assert_eq!(c.compress_bytes(&[1]).unwrap()[6], 4);
    let f = FloatingCodec::default();
    assert_eq!(f.compress_f64(&vec![1], DEFAULT_F64_SCALE_BITS).unwrap()[6], 4);
    assert_eq!(f.compress_f32(&vec![1], DEFAULT_F32_SCALE_BITS).unwrap()[6], 5);
    assert_eq!(ElementType::I64.code(), 0);
    assert_eq!(ElementType::U64.code(), 1);
    assert_eq!(ElementType::I32.code(), 2);
    assert_eq!(ElementType::U32.code(), 3);
    assert_eq!(ElementType::F64.code(), 4);
    assert_eq!(ElementType::F32.code(), 5);
    assert_eq!(ElementType::Bytes.code(), 4);
    assert_eq!(c.codec, Codec::Lz4);
    assert_eq!(f.codec, Codec::Lz4);
}

#[test]
fn empty_is_empty() {
    let c = IntegerCodec::default();
    assert!(c.compress_i64(&Vec::new()).unwrap().is_empty());
    assert!(c.compress_u64(&Vec::new()).unwrap().is_empty());
    assert!(c.compress_i32(&Vec::new()).unwrap().is_empty());
    assert!(c.compress_u32(&Vec::new()).unwrap().is_empty());
    assert!(c.compress_bytes(&[]).unwrap().is_empty());
    assert!(c.decompress_i64(&[]).unwrap().is_empty());
    assert!(c.decompress_u64(&[]).unwrap().is_empty());
    assert!(c.decompress_i32(&[]).unwrap().is_empty());
    assert!(c.decompress_u32(&[]).unwrap().is_empty());
    assert!(c.decompress_bytes(&[]).unwrap().is_empty());
    assert!(c.compress_many_i64(&[]).unwrap().is_empty());
    assert_eq!(c.compress_many_i64(&[Vec::new(), vec![1]]).unwrap()[0], Vec::<u8>::new());
}

#[test]
fn extremes_wrap() {
    let c = IntegerCodec::default();
    let v = vec![i64::MAX, i64::MIN, -1, 0, i64::MIN, i64::MAX, 1];
    assert_eq!(c.decompress_i64(&c.compress_i64(&v).unwrap()).unwrap(), v);
    let v = vec![u64::MAX, 0, 1, u64::MAX, u64::MAX - 1, 0];
    assert_eq!(c.decompress_u64(&c.compress_u64(&v).unwrap()).unwrap(), v);
    let v = vec![i32::MAX, i32::MIN, -1, 0, i32::MIN, i32::MAX];
    assert_eq!(c.decompress_i32(&c.compress_i32(&v).unwrap()).unwrap(), v);
    let v = vec![u32::MAX, 0, 1, u32::MAX, 7];
    assert_eq!(c.decompress_u32(&c.compress_u32(&v).unwrap()).unwrap(), v);
}

#[test]
fn zigzag_values() {
    assert_eq!(zigzag_i64(0), 0);
    assert_eq!(zigzag_i64(-1), 1);
    assert_eq!(zigzag_i64(1), 2);
    assert_eq!(zigzag_i64(-2), 3);
    assert_eq!(zigzag_i64(i64::MAX), u64::MAX - 1);
    assert_eq!(zigzag_i64(i64::MIN), u64::MAX);
    assert_eq!(unzigzag_i64(u64::MAX), i64::MIN);
    assert_eq!(unzigzag_i64(3), -2);
    assert_eq!(zigzag_i32(-1), 1);
    assert_eq!(zigzag_i32(i32::MIN), u32::MAX);
    assert_eq!(unzigzag_i32(u32::MAX - 1), i32::MAX);
    assert_eq!(unzigzag_i32(4), 2);
}

#[test]
fn headers() {
    let mut buf = vec![9u8];
    write_header(&mut buf, ElementType::U32, 0x0102030405060708);
    assert_eq!(buf, vec![9, b'O', b'R', b'S', b'O', 1, 1, 3, 8, 7, 6, 5, 4, 3, 2, 1]);
    assert_eq!(read_header(&buf[1..], 15, ElementType::U32), Ok(0x0102030405060708));
    assert_eq!(read_header(&buf[1..], 16, ElementType::U32), Err(CodecError::TooShort));
    assert_eq!(read_header(&buf[1..], 15, ElementType::I64), Err(CodecError::UnsupportedType(ElementType::I64)));
}

fn blob() -> Vec<u8> {
    IntegerCodec::default().compress_i64(&vec![5, 6, 7]).unwrap()
}

#[test]
fn malformed_blobs_are_errors() {
    let c = IntegerCodec::default();
    assert_eq!(c.decompress_i64(&[1, 2, 3]), Err(CodecError::TooShort));
    assert_eq!(c.decompress_i64(&blob()[..14]), Err(CodecError::TooShort));
    let mut b = blob();
    b[0] = b'X';
    assert_eq!(c.decompress_i64(&b), Err(CodecError::BadMagic));
    let mut b = blob();
    b[3] = b'o';
    assert_eq!(c.decompress_i64(&b), Err(CodecError::BadMagic));
    let mut b = blob();
    b[4] = 2;
    assert_eq!(c.decompress_i64(&b), Err(CodecError::UnsupportedVersion));
    let mut b = blob();
    b[5] = 0;
    assert_eq!(c.decompress_i64(&b), Err(CodecError::UnsupportedMethod));
    let mut b = blob();
    b[6] = 1;
    assert_eq!(c.decompress_i64(&b), Err(CodecError::UnsupportedType(ElementType::I64)));
    assert_eq!(c.decompress_u64(&blob()), Err(CodecError::UnsupportedType(ElementType::U64)));
    assert_eq!(c.decompress_i32(&blob()), Err(CodecError::UnsupportedType(ElementType::I32)));
    assert_eq!(c.decompress_u32(&blob()), Err(CodecError::UnsupportedType(ElementType::U32)));
    assert_eq!(c.decompress_bytes(&blob()), Err(CodecError::UnsupportedType(ElementType::Bytes)));
    assert_eq!(c.decompress_i64(&blob()[..15]), Err(CodecError::Decompress));
    let b = blob();
    assert_eq!(c.decompress_i64(&b[..b.len() - 1]), Err(CodecError::Decompress));
    let mut b = blob();
    b[7] = 4;
    assert_eq!(c.decompress_i64(&b), Err(CodecError::Varint));
    let mut b = blob();
    b[14] = 0xFF;
    assert_eq!(c.decompress_i64(&b), Err(CodecError::Varint));
    let mut b = blob();
    b[7] = 2;
    assert_eq!(c.decompress_i64(&b), Ok(vec![5, 6]));
}

#[test]
fn varints_too_wide_are_errors() {
    let c = IntegerCodec::default();
    let frame = |ty: u8, count: u64, payload: &[u8]| {
        let mut b = b"ORSO".to_vec();
        b.extend_from_slice(&[1, 1, ty]);
        b.extend_from_slice(&count.to_le_bytes());
        b.extend_from_slice(&lz4_flex::block::compress_prepend_size(payload));
        b
    };
    let max = [0xFF, 0xFF, 0xFF, 0xFF, 0xFF, 0xFF, 0xFF, 0xFF, 0xFF, 0x01];
    assert_eq!(c.decompress_u64(&frame(1, 1, &max)), Ok(vec![u64::MAX]));
    let over = [0xFF, 0xFF, 0xFF, 0xFF, 0xFF, 0xFF, 0xFF, 0xFF, 0xFF, 0x02];
    assert_eq!(c.decompress_u64(&frame(1, 1, &over)), Err(CodecError::Varint));
    let long = [0x80, 0x80, 0x80, 0x80, 0x80, 0x80, 0x80, 0x80, 0x80, 0x80, 0x00];
    assert_eq!(c.decompress_u64(&frame(1, 1, &long)), Err(CodecError::Varint));
    let padded = [0x85, 0x80, 0x00];
    assert_eq!(c.decompress_u64(&frame(1, 1, &padded)), Ok(vec![5]));
    assert_eq!(c.decompress_u32(&frame(3, 1, &[0xFF, 0xFF, 0xFF, 0xFF, 0x0F])), Ok(vec![u32::MAX]));
    assert_eq!(c.decompress_u32(&frame(3, 1, &[0xFF, 0xFF, 0xFF, 0xFF, 0x1F])), Err(CodecError::Varint));
    assert_eq!(c.decompress_u32(&frame(3, 1, &[0x80, 0x80, 0x80, 0x80, 0x80, 0x00])), Err(CodecError::Varint));
    assert_eq!(c.decompress_u32(&frame(3, 2, &[0x01, 0x80])), Err(CodecError::Varint));
    assert_eq!(c.decompress_u32(&frame(3, 2, &[0x01, 0x02, 0x03])), Ok(vec![1, 3]));
    assert_eq!(c.decompress_i32(&frame(2, 2, &[0x01, 0x02])), Ok(vec![-1, 0]));
}

#[test]
fn byte_blobs_check_their_length() {
    let c = IntegerCodec::default();
    let mut b = c.compress_bytes(b"hello").unwrap();
    assert_eq!(&b[7..15], &5u64.to_le_bytes());
    b[7] = 6;
    assert_eq!(c.decompress_bytes(&b), Err(CodecError::LengthMismatch));
    b[7] = 5;
    assert_eq!(c.decompress_bytes(&b).unwrap(), b"hello".to_vec());
}

#[test]
fn batches_stop_at_the_first_error() {
    let c = IntegerCodec::default();
    let good = c.compress_i64(&vec![1, 2]).unwrap();
    let mut bad_magic = good.clone();
    bad_magic[1] = 0;
    let mut bad_version = good.clone();
    bad_version[4] = 9;
    assert_eq!(c.decompress_many_i64(&[good.clone(), bad_magic, bad_version]), Err(CodecError::BadMagic));
    assert_eq!(c.decompress_many_i64(&[good.clone(), Vec::new()]), Ok(vec![vec![1, 2], Vec::new()]));
    assert_eq!(c.decompress_many_u64(&[good]), Err(CodecError::UnsupportedType(ElementType::U64)));
}

#[test]
fn messages() {
    assert_eq!(codec_error_message(&CodecError::TooShort), "blob too small");
    assert_eq!(codec_error_message(&CodecError::BadMagic), "bad magic");
    assert_eq!(codec_error_message(&CodecError::UnsupportedVersion), "bad version");
    assert_eq!(codec_error_message(&CodecError::UnsupportedMethod), "unsupported codec");
    assert_eq!(codec_error_message(&CodecError::UnsupportedType(ElementType::I64)), "unsupported type, expected i64");
    assert_eq!(codec_error_message(&CodecError::UnsupportedType(ElementType::Bytes)), "unsupported type, expected raw bytes");
    assert_eq!(codec_error_message(&CodecError::Decompress), "lz4 decompress failed");
    assert_eq!(codec_error_message(&CodecError::Varint), "varint decode failed");
    assert_eq!(codec_error_message(&CodecError::LengthMismatch), "decompressed length mismatch");
    assert_eq!(codec_error_message(&CodecError::PayloadTooLarge), "payload too large");
    assert_eq!(Error::from_codec(&CodecError::BadMagic).to_string(), "Anyhow error: bad magic");
}

#[test]
fn unsigned_varints_are_written_as_they_are() {
    let c = IntegerCodec::default();
    let blob = c.compress_u32(&vec![300, 301, 0]).unwrap();
    let payload = lz4_flex::block::decompress_size_prepended(&blob[15..]).unwrap();
    assert_eq!(payload, vec![0xAC, 0x02, 0x01, 0xD3, 0xFD, 0xFF, 0xFF, 0x0F]);
    let blob = c.compress_u64(&vec![1, 0]).unwrap();
    let payload = lz4_flex::block::decompress_size_prepended(&blob[15..]).unwrap();
    assert_eq!(payload, vec![0x01, 0xFF, 0xFF, 0xFF, 0xFF, 0xFF, 0xFF, 0xFF, 0xFF, 0xFF, 0x01]);
    let blob = c.compress_i32(&vec![-1, 1]).unwrap();
    let payload = lz4_flex::block::decompress_size_prepended(&blob[15..]).unwrap();
    assert_eq!(payload, vec![0x01, 0x04]);
}

#[test]
fn payloads_by_themselves() {
    assert_eq!(encode_payload_i64(&vec![1000, 1000, 1000]), vec![0xD0, 0x0F, 0x00, 0x00]);
    assert_eq!(encode_payload_u64(&vec![1, 128, 0]), vec![0x01, 0x7F, 0x80, 0xFF, 0xFF, 0xFF, 0xFF, 0xFF, 0xFF, 0xFF, 0xFF, 0x01]);
    assert_eq!(encode_payload_i32(&vec![-1, 1]), vec![0x01, 0x04]);
    assert_eq!(encode_payload_u32(&vec![300]), vec![0xAC, 0x02]);
    assert!(encode_payload_i64(&Vec::new()).is_empty());
    assert_eq!(decode_payload_i64(&[0xD0, 0x0F, 0x00, 0x00], 3), Ok(vec![1000, 1000, 1000]));
    assert_eq!(decode_payload_i64(&[0xD0, 0x0F, 0x00, 0x00], 2), Ok(vec![1000, 1000]));
    assert_eq!(decode_payload_i64(&[0xD0, 0x0F, 0x00, 0x00], 4), Err(CodecError::Varint));
    assert_eq!(decode_payload_i64(&[], 0), Ok(Vec::new()));
    assert_eq!(decode_payload_i64(&[], u64::MAX), Err(CodecError::Varint));
    assert_eq!(decode_payload_u64(&[0x01, 0x7F], 2), Ok(vec![1, 128]));
    assert_eq!(decode_payload_u64(&[0xFF, 0xFF, 0xFF, 0xFF, 0xFF, 0xFF, 0xFF, 0xFF, 0xFF, 0x01, 0x01], 2), Ok(vec![u64::MAX, 0]));
    assert_eq!(decode_payload_i32(&[0x01, 0x04], 2), Ok(vec![-1, 1]));
    assert_eq!(decode_payload_u32(&[0xAC, 0x02], 1), Ok(vec![300]));
    assert_eq!(decode_payload_u32(&[0xAC], 1), Err(CodecError::Varint));
}

#[test]
fn blobs_from_their_parts() {
    assert_eq!(
        assemble(ElementType::F32, 2, &[9, 8, 7, 6], &[1, 2, 3]),
        vec![b'O', b'R', b'S', b'O', 1, 1, 5, 2, 0, 0, 0, 0, 0, 0, 0, 9, 8, 7, 6, 1, 2, 3]
    );
    assert_eq!(check_count(vec![1, 2], 2), Ok(vec![1, 2]));
    assert_eq!(check_count(vec![1, 2], 3), Err(CodecError::LengthMismatch));
    assert_eq!(check_count(Vec::new(), 0), Ok(Vec::new()));
}

#[test]
fn the_block_begins_with_the_length_of_what_it_holds() {
    let c = IntegerCodec::default();
    let blob = c.compress_i64(&vec![1000, 1000, 1000]).unwrap();
    assert!(blob.len() >= 19);
    assert_eq!(&blob[15..19], &4u32.to_le_bytes());
    let data: Vec<u64> = (0..300).collect();
    let blob = c.compress_u64(&data).unwrap();
    assert_eq!(&blob[15..19], &(encode_payload_u64(&data).len() as u32).to_le_bytes());
    let blob = c.compress_i32(&vec![-1]).unwrap();
    assert_eq!(&blob[15..19], &1u32.to_le_bytes());
    let blob = c.compress_u32(&vec![128]).unwrap();
    assert_eq!(&blob[15..19], &2u32.to_le_bytes());
    let blob = c.compress_bytes(b"hello").unwrap();
    assert_eq!(&blob[15..19], &5u32.to_le_bytes());
    let f = FloatingCodec::default();
    let blob = f.compress_f64(&vec![1, 2], DEFAULT_F64_SCALE_BITS).unwrap();
    assert_eq!(&blob[23..27], &2u32.to_le_bytes());
    let blob = f.compress_f32(&vec![1, 2, 3], DEFAULT_F32_SCALE_BITS).unwrap();
    assert_eq!(&blob[19..23], &3u32.to_le_bytes());
}
