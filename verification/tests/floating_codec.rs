use orso::codec::floating::{FloatingCodec, DEFAULT_F32_SCALE_BITS, DEFAULT_F64_SCALE_BITS};
use orso::codec::header::CodecError;
use rand::{rngs::StdRng, Rng, SeedableRng};

fn compress_f64(c: &FloatingCodec, data: &Vec<f64>, scale: Option<f64>) -> Vec<u8> {
    let scale = scale.unwrap_or(f64::from_bits(DEFAULT_F64_SCALE_BITS));
    let scaled: Vec<i64> = data.iter().map(|&f| (f * scale).round() as i64).collect();
    c.compress_f64(&scaled, scale.to_bits()).unwrap()
}

fn decompress_f64(c: &FloatingCodec, blob: &[u8], scale: Option<f64>) -> Vec<f64> {
    let r = c.decompress_f64(blob, scale.map(|s| s.to_bits())).unwrap();
    let scale = f64::from_bits(r.scale_bits);
    r.values.iter().map(|&i| i as f64 / scale).collect()
}

fn compress_f32(c: &FloatingCodec, data: &Vec<f32>, scale: Option<f32>) -> Vec<u8> {
    let scale = scale.unwrap_or(f32::from_bits(DEFAULT_F32_SCALE_BITS));
    let scaled: Vec<i32> = data.iter().map(|&f| (f * scale).round() as i32).collect();
    c.compress_f32(&scaled, scale.to_bits()).unwrap()
}

fn decompress_f32(c: &FloatingCodec, blob: &[u8], scale: Option<f32>) -> Vec<f32> {
    let r = c.decompress_f32(blob, scale.map(|s| s.to_bits())).unwrap();
    let scale = f32::from_bits(r.scale_bits);
    r.values.iter().map(|&i| i as f32 / scale).collect()
}

#[test]
fn default_scales() {
    assert_eq!(f64::from_bits(DEFAULT_F64_SCALE_BITS), 1_000_000_000.0);
    assert_eq!(f32::from_bits(DEFAULT_F32_SCALE_BITS), 1_000_000.0);
}

#[test]
fn roundtrip_f64() {
    let c = FloatingCodec::default();
    let v: Vec<f64> = (0..10_000).map(|i| i as f64 * 0.001).collect();
    let blob = compress_f64(&c, &v, None);
    let back = decompress_f64(&c, &blob, None);
    assert_eq!(v.len(), back.len());
    for (given, decompressed) in v.iter().zip(back.iter()) {
        assert!((given - decompressed).abs() < 1e-12, "Values differ: {:?} vs {:?}", given, decompressed);
    }
}

#[test]
fn roundtrip_f32() {
    let c = FloatingCodec::default();
    let v: Vec<f32> = (0..10_000).map(|i| i as f32 * 0.001).collect();
    let blob = compress_f32(&c, &v, None);
    let back = decompress_f32(&c, &blob, None);
    assert_eq!(v.len(), back.len());
    for (given, decompressed) in v.iter().zip(back.iter()) {
        assert!((given - decompressed).abs() < 1e-6, "Values differ: {:?} vs {:?}", given, decompressed);
    }
}

#[test]
fn roundtrip_parallel_f64() {
    let c = FloatingCodec::default();
    let arrays: Vec<Vec<f64>> = (0..64)
        .map(|k| (0..8192).map(|i| (i as f64 + k as f64) * 0.001).collect())
        .collect();
    let scale = f64::from_bits(DEFAULT_F64_SCALE_BITS);
    let scaled: Vec<Vec<i64>> = arrays
        .iter()
        .map(|a| a.iter().map(|&f| (f * scale).round() as i64).collect())
        .collect();
    let blobs = c.compress_many_f64(&scaled, None).unwrap();
    let back = c.decompress_many_f64(&blobs, None).unwrap();
    assert_eq!(back.len(), arrays.len());
    for (given_array, decompressed_array) in arrays.iter().zip(back.iter()) {
        assert_eq!(decompressed_array.scale_bits, DEFAULT_F64_SCALE_BITS);
        assert_eq!(given_array.len(), decompressed_array.values.len());
        for (given, scaled) in given_array.iter().zip(decompressed_array.values.iter()) {
            let decompressed = *scaled as f64 / scale;
            assert!((given - decompressed).abs() < 1e-12, "Values differ: {} vs {}", given, decompressed);
        }
    }
}

#[test]
fn roundtrip_parallel_f32() {
    let c = FloatingCodec::default();
    let arrays: Vec<Vec<f32>> = (0..64)
        .map(|k| (0..8192).map(|i| (i as f32 + k as f32) * 0.001).collect())
        .collect();
    let scale = f32::from_bits(DEFAULT_F32_SCALE_BITS);
    let scaled: Vec<Vec<i32>> = arrays
        .iter()
        .map(|a| a.iter().map(|&f| (f * scale).round() as i32).collect())
        .collect();
    let blobs = c.compress_many_f32(&scaled, None).unwrap();
    let back = c.decompress_many_f32(&blobs, None).unwrap();
    assert_eq!(back.len(), arrays.len());
    for (given_array, decompressed_array) in arrays.iter().zip(back.iter()) {
        assert_eq!(decompressed_array.scale_bits, DEFAULT_F32_SCALE_BITS);
        assert_eq!(given_array.len(), decompressed_array.values.len());
        for (given, scaled) in given_array.iter().zip(decompressed_array.values.iter()) {
            let decompressed = *scaled as f32 / scale;
            assert!((given - decompressed).abs() < 1e-6, "Values differ: {} vs {}", given, decompressed);
        }
    }
}

#[test]
fn randomish_f64_ok() {
    let mut rng = StdRng::seed_from_u64(42);
    let v: Vec<f64> = (0..50_000).map(|_| rng.gen::<f64>() * 1000.0).collect();
    let c = FloatingCodec::default();
    let blob = compress_f64(&c, &v, None);
    let back = decompress_f64(&c, &blob, None);
    assert_eq!(v.len(), back.len());
    for (given, decompressed) in v.iter().zip(back.iter()) {
        assert!((given - decompressed).abs() < 1e-9, "Values differ: {} vs {}", given, decompressed);
    }
}

#[test]
fn randomish_f32_ok() {
    let mut rng = StdRng::seed_from_u64(42);
    let v: Vec<f32> = (0..50_000).map(|_| rng.gen::<f32>() * 1000.0).collect();
    let c = FloatingCodec::default();
    let blob = compress_f32(&c, &v, None);
    let back = decompress_f32(&c, &blob, None);
    assert_eq!(v.len(), back.len());
    for (given, decompressed) in v.iter().zip(back.iter()) {
        assert!((given - decompressed).abs() < 1e-4, "Values differ: {} vs {}", given, decompressed);
    }
}

#[test]
fn report_metrics_ema_like_sizes_f64() {
    fn ema_like_f64(len: usize) -> Vec<f64> {
        let mut out = Vec::with_capacity(len);
        let mut ema: f64 = 117_100.0;
        let alpha = 2.0 / (9.0 + 1.0);
        for i in 0..len {
            let t = i as f64;
            let price = 117_000.0 + 0.05 * t + (t / 37.0).sin() * 30.0 + ((t / 5.0).sin() * 3.0).floor();
            ema = alpha * price + (1.0 - alpha) * ema;
            out.push(ema);
        }
        out
    }
    let codec = FloatingCodec::default();
    for &n in &[100usize, 1_000usize, 100_000usize] {
        let data = ema_like_f64(n);
        let blob = compress_f64(&codec, &data, None);
        let back = decompress_f64(&codec, &blob, None);
        assert_eq!(data.len(), back.len());
        for (given, decompressed) in data.iter().zip(back.iter()) {
            assert!((given - decompressed).abs() < 1e-9, "Values differ: {} vs {}", given, decompressed);
        }
        let raw_bytes = data.len() * 8;
        let comp_bytes = blob.len();
        let ratio = (raw_bytes as f64) / (comp_bytes.max(1) as f64);
        println!("f64 n={:<7} raw={:<10}B  comp={:<10}B  ratio={:>5.2}x", n, raw_bytes, comp_bytes, ratio);
    }
}

#[test]
fn report_metrics_ema_like_sizes_f32() {
    fn ema_like_f32(len: usize) -> Vec<f32> {
        let mut out = Vec::with_capacity(len);
        let mut ema: f32 = 117_100.0;
        let alpha = 2.0 / (9.0 + 1.0);
        for i in 0..len {
            let t = i as f32;
            let price = 117_000.0 + 0.05 * t + (t / 37.0).sin() * 30.0 + ((t / 5.0).sin() * 3.0).floor();
            ema = alpha * price + (1.0 - alpha) * ema;
            out.push(ema);
        }
        out
    }
    let codec = FloatingCodec::default();
    let scale_factor = Some(1000.0);
    for &n in &[100usize, 1_000usize, 100_000usize] {
        let data = ema_like_f32(n);
        let blob = compress_f32(&codec, &data, scale_factor);
        let back = decompress_f32(&codec, &blob, scale_factor);
        assert_eq!(data.len(), back.len());
        for (given, decompressed) in data.iter().zip(back.iter()) {
            assert!((given - decompressed).abs() < 1e-1, "Values differ: {} vs {}", given, decompressed);
        }
        let raw_bytes = data.len() * 4;
        let comp_bytes = blob.len();
        let ratio = (raw_bytes as f64) / (comp_bytes.max(1) as f64);
        println!("f32 n={:<7} raw={:<10}B  comp={:<10}B  ratio={:>5.2}x", n, raw_bytes, comp_bytes, ratio);
    }
}

#[test]
fn scale_is_stored_behind_the_header() {
    let c = FloatingCodec::default();
    let blob = c.compress_f64(&vec![1, 2, 3], 2.5f64.to_bits()).unwrap();
    assert_eq!(blob[6], 4);
    assert_eq!(&blob[7..15], &3u64.to_le_bytes());
    assert_eq!(&blob[15..23], &2.5f64.to_le_bytes());
    let r = c.decompress_f64(&blob, None).unwrap();
    assert_eq!(r.values, vec![1, 2, 3]);
    assert_eq!(f64::from_bits(r.scale_bits), 2.5);
    let r = c.decompress_f64(&blob, Some(4.0f64.to_bits())).unwrap();
    assert_eq!(r.values, vec![1, 2, 3]);
    assert_eq!(f64::from_bits(r.scale_bits), 4.0);
    let blob = c.compress_f32(&vec![-1, 7], 0.5f32.to_bits()).unwrap();
    assert_eq!(blob[6], 5);
    assert_eq!(&blob[15..19], &0.5f32.to_le_bytes());
    let r = c.decompress_f32(&blob, None).unwrap();
    assert_eq!(r.values, vec![-1, 7]);
    assert_eq!(f32::from_bits(r.scale_bits), 0.5);
}

#[test]
fn empty_float_blobs() {
    let c = FloatingCodec::default();
    assert!(c.compress_f64(&Vec::new(), 1.0f64.to_bits()).unwrap().is_empty());
    assert!(c.compress_f32(&Vec::new(), 1.0f32.to_bits()).unwrap().is_empty());
    let r = c.decompress_f64(&[], None).unwrap();
    assert!(r.values.is_empty());
    assert_eq!(r.scale_bits, DEFAULT_F64_SCALE_BITS);
    let r = c.decompress_f64(&[], Some(7)).unwrap();
    assert_eq!(r.scale_bits, 7);
    let r = c.decompress_f32(&[], None).unwrap();
    assert!(r.values.is_empty());
    assert_eq!(r.scale_bits, DEFAULT_F32_SCALE_BITS);
}

#[test]
fn float_blobs_need_their_scale() {
    let c = FloatingCodec::default();
    let blob = c.compress_f64(&vec![1], 1.0f64.to_bits()).unwrap();
    assert_eq!(c.decompress_f64(&blob[..22], None).err(), Some(CodecError::TooShort));
    assert_eq!(c.decompress_f32(&blob, None).err(), Some(CodecError::UnsupportedType(orso::codec::header::ElementType::F32)));
    let blob = c.compress_f32(&vec![1], 1.0f32.to_bits()).unwrap();
    assert_eq!(c.decompress_f32(&blob[..18], None).err(), Some(CodecError::TooShort));
}

#[test]
fn batches_pair_entries_with_scales() {
    let c = FloatingCodec::default();
    let arrays = vec![vec![1i64, 2], vec![3], vec![4, 5, 6]];
    let blobs = c.compress_many_f64(&arrays, Some(vec![2.0f64.to_bits(), 4.0f64.to_bits()])).unwrap();
    assert_eq!(blobs.len(), 2);
    assert_eq!(f64::from_bits(c.decompress_f64(&blobs[1], None).unwrap().scale_bits), 4.0);
    let back = c.decompress_many_f64(&blobs, Some(vec![8.0f64.to_bits()])).unwrap();
    assert_eq!(back.len(), 1);
    assert_eq!(back[0].values, vec![1, 2]);
    assert_eq!(f64::from_bits(back[0].scale_bits), 8.0);
    let back = c.decompress_many_f64(&blobs, None).unwrap();
    assert_eq!(back.len(), 2);
    assert_eq!(f64::from_bits(back[0].scale_bits), 2.0);
    assert_eq!(f64::from_bits(back[1].scale_bits), 4.0);
    let blobs = c.compress_many_f32(&[vec![1i32], vec![2]], None).unwrap();
    assert_eq!(blobs.len(), 2);
    assert_eq!(c.decompress_f32(&blobs[0], None).unwrap().scale_bits, DEFAULT_F32_SCALE_BITS);
    let back = c.decompress_many_f32(&blobs, Some(vec![1, 2, 3])).unwrap();
    assert_eq!(back.len(), 2);
    assert_eq!(back[1].scale_bits, 2);
}

#[test]
fn error_is_within_half_a_step() {
    let c = FloatingCodec::default();
    for &scale in &[1.0f64, 10.0, 1000.0, 1_000_000_000.0] {
        let v: Vec<f64> = (0..2_000).map(|i| (i as f64) * 0.37 - 311.13 + 1.0 / (i as f64 + 3.0)).collect();
        let blob = compress_f64(&c, &v, Some(scale));
        let back = decompress_f64(&c, &blob, None);
        assert_eq!(v.len(), back.len());
        let step = 1.0 / (2.0 * scale);
        for (given, decompressed) in v.iter().zip(back.iter()) {
            assert!((given - decompressed).abs() <= step * (1.0 + 1e-6), "{} vs {} at scale {}", given, decompressed, scale);
        }
    }
}

#[test]
fn a_batch_reads_the_scale_in_each_blob() {
    let c = FloatingCodec::default();
    let blobs = vec![compress_f64(&c, &vec![0.5], Some(4.0)), compress_f64(&c, &vec![0.25, -1.5], Some(8.0))];
    let back = c.decompress_many_f64(&blobs, None).unwrap();
    assert_eq!(back.len(), 2);
    let floats: Vec<Vec<f64>> = back
        .iter()
        .map(|r| r.values.iter().map(|&i| i as f64 / f64::from_bits(r.scale_bits)).collect())
        .collect();
    assert_eq!(floats, vec![vec![0.5], vec![0.25, -1.5]]);
    for (blob, entry) in blobs.iter().zip(back.iter()) {
        let single = c.decompress_f64(blob, None).unwrap();
        assert_eq!(single.values, entry.values);
        assert_eq!(single.scale_bits, entry.scale_bits);
    }
    let blobs = vec![compress_f32(&c, &vec![0.5], Some(4.0))];
    let back = c.decompress_many_f32(&blobs, None).unwrap();
    assert_eq!(back[0].values, vec![2]);
    assert_eq!(f32::from_bits(back[0].scale_bits), 4.0);
    assert_eq!(decompress_f32(&c, &blobs[0], None), vec![0.5]);
    assert_eq!(decompress_f64(&c, &[], None), Vec::<f64>::new());
}
