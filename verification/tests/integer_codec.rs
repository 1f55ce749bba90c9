use orso::codec::integer::IntegerCodec;
use rand::{rngs::StdRng, Rng, SeedableRng};

#[test]
fn roundtrip_bytes() {
    let c = IntegerCodec::default();
    let data = b"Hello, World! This is a test of the byte compression system.".to_vec();
    let blob = c.compress_bytes(&data).unwrap();
    let back = c.decompress_bytes(&blob).unwrap();
    assert_eq!(data, back);
}

#[test]
fn roundtrip_i64() {
    let c = IntegerCodec::default();
    let v: Vec<i64> = (0..10_000).map(|i| i as i64).collect();
    let blob = c.compress_i64(&v).unwrap();
    let back = c.decompress_i64(&blob).unwrap();
    assert_eq!(v, back);
}

#[test]
fn roundtrip_u64() {
    let c = IntegerCodec::default();
    let v: Vec<u64> = (0..10_000).map(|i| i as u64).collect();
    let blob = c.compress_u64(&v).unwrap();
    let back = c.decompress_u64(&blob).unwrap();
    assert_eq!(v, back);
}

#[test]
fn roundtrip_i32() {
    let c = IntegerCodec::default();
    let v: Vec<i32> = (0..10_000).map(|i| i as i32).collect();
    let blob = c.compress_i32(&v).unwrap();
    let back = c.decompress_i32(&blob).unwrap();
    assert_eq!(v, back);
}

#[test]
fn roundtrip_u32() {
    let c = IntegerCodec::default();
    let v: Vec<u32> = (0..10_000).map(|i| i as u32).collect();
    let blob = c.compress_u32(&v).unwrap();
    let back = c.decompress_u32(&blob).unwrap();
    assert_eq!(v, back);
}

#[test]
fn roundtrip_parallel_i64() {
    let c = IntegerCodec::default();
    let arrays: Vec<Vec<i64>> = (0..64)
        .map(|k| (0..8192).map(|i| (i as i64) + k).collect())
        .collect();
    let blobs = c.compress_many_i64(&arrays).unwrap();
    let back = c.decompress_many_i64(&blobs).unwrap();
    assert_eq!(arrays, back);
}

#[test]
fn roundtrip_parallel_u64() {
    let c = IntegerCodec::default();
    let arrays: Vec<Vec<u64>> = (0..64)
        .map(|k| (0..8192).map(|i| (i as u64) + k).collect())
        .collect();
    let blobs = c.compress_many_u64(&arrays).unwrap();
    let back = c.decompress_many_u64(&blobs).unwrap();
    assert_eq!(arrays, back);
}

#[test]
fn randomish_i64_ok() {
    let mut rng = StdRng::seed_from_u64(42);
    let v: Vec<i64> = (0..50_000).map(|_| rng.gen::<i64>() >> 3).collect();
    let c = IntegerCodec::default();
    let blob = c.compress_i64(&v).unwrap();
    let back = c.decompress_i64(&blob).unwrap();
    assert_eq!(v, back);
}

#[test]
fn randomish_u64_ok() {
    let mut rng = StdRng::seed_from_u64(42);
    let v: Vec<u64> = (0..50_000)
        .map(|_| (rng.gen::<i64>() >> 3) as u64)
        .collect();
    let c = IntegerCodec::default();
    let blob = c.compress_u64(&v).unwrap();
    let back = c.decompress_u64(&blob).unwrap();
    assert_eq!(v, back);
}

fn ema_like(len: usize, scale: f64) -> Vec<f64> {
    let mut out = Vec::with_capacity(len);
    let mut ema: f64 = 117_100.0;
    let alpha = 2.0 / (9.0 + 1.0);
    for i in 0..len {
        let t = i as f64;
        let price = 117_000.0 + 0.05 * t + (t / 37.0).sin() * 30.0 + ((t / 5.0).sin() * 3.0).floor();
        ema = alpha * price + (1.0 - alpha) * ema;
        out.push((ema * scale).round());
    }
    out
}

#[test]
fn report_metrics_ema_like_sizes() {
    let codec = IntegerCodec::default();
    for &n in &[100usize, 1_000usize, 100_000usize] {
        let data: Vec<i64> = ema_like(n, 1_000_000.0).into_iter().map(|x| x as i64).collect();
        let blob = codec.compress_i64(&data).unwrap();
        let back = codec.decompress_i64(&blob).unwrap();
        assert_eq!(data, back, "round-trip failed for n={}", n);
        let raw_bytes = data.len() * 8;
        let comp_bytes = blob.len();
        let ratio = (raw_bytes as f64) / (comp_bytes.max(1) as f64);
        println!("i64 n={:<7} raw={:<10}B  comp={:<10}B  ratio={:>5.2}x", n, raw_bytes, comp_bytes, ratio);
    }
}

#[test]
fn report_metrics_ema_like_sizes_u64() {
    let codec = IntegerCodec::default();
    for &n in &[100usize, 1_000usize, 100_000usize] {
        let data: Vec<u64> = ema_like(n, 1_000_000.0).into_iter().map(|x| x as u64).collect();
        let blob = codec.compress_u64(&data).unwrap();
        let back = codec.decompress_u64(&blob).unwrap();
        assert_eq!(data, back, "round-trip failed for n={}", n);
        let raw_bytes = data.len() * 8;
        let comp_bytes = blob.len();
        let ratio = (raw_bytes as f64) / (comp_bytes.max(1) as f64);
        println!("u64 n={:<7} raw={:<10}B  comp={:<10}B  ratio={:>5.2}x", n, raw_bytes, comp_bytes, ratio);
    }
}

#[test]
fn report_metrics_ema_like_sizes_i32() {
    let codec = IntegerCodec::default();
    for &n in &[100usize, 1_000usize, 100_000usize] {
        let data: Vec<i32> = ema_like(n, 1_000.0).into_iter().map(|x| x as i32).collect();
        let blob = codec.compress_i32(&data).unwrap();
        let back = codec.decompress_i32(&blob).unwrap();
        assert_eq!(data, back, "round-trip failed for n={}", n);
        let raw_bytes = data.len() * 4;
        let comp_bytes = blob.len();
        let ratio = (raw_bytes as f64) / (comp_bytes.max(1) as f64);
        println!("i32 n={:<7} raw={:<10}B  comp={:<10}B  ratio={:>5.2}x", n, raw_bytes, comp_bytes, ratio);
    }
}

#[test]
fn report_metrics_ema_like_sizes_u32() {
    let codec = IntegerCodec::default();
    for &n in &[100usize, 1_000usize, 100_000usize] {
        let data: Vec<u32> = ema_like(n, 1_000.0).into_iter().map(|x| x as u32).collect();
        let blob = codec.compress_u32(&data).unwrap();
        let back = codec.decompress_u32(&blob).unwrap();
        assert_eq!(data, back, "round-trip failed for n={}", n);
        let raw_bytes = data.len() * 4;
        let comp_bytes = blob.len();
        let ratio = (raw_bytes as f64) / (comp_bytes.max(1) as f64);
        println!("u32 n={:<7} raw={:<10}B  comp={:<10}B  ratio={:>5.2}x", n, raw_bytes, comp_bytes, ratio);
    }
}
