use loghub::compression::{gzip_compress, should_compress};
use std::io::Read;

fn gunzip(bytes: &[u8]) -> Vec<u8> {
    let mut d = flate2::read::GzDecoder::new(bytes);
    let mut out = Vec::new();
    d.read_to_end(&mut out).unwrap();
    out
}

#[test]
fn compressed_payload_round_trips() {
    let data = b"GET /health 200\nGET /health 200\nGET /health 200\n".repeat(50);
    let gz = gzip_compress(&data).unwrap();
    assert_ne!(gz, data);
    assert!(gz.len() < data.len());
    assert_eq!(gunzip(&gz), data);
}

#[test]
fn header_is_flate2_default() {
    let gz = gzip_compress(b"").unwrap();
    assert_eq!(&gz[..10], &[0x1f, 0x8b, 0x08, 0, 0, 0, 0, 0, 0, 0xff]);
    assert_eq!(gunzip(&gz), Vec::<u8>::new());
}

#[test]
fn small_payloads_compress_too() {
    let gz = gzip_compress(&[1, 2]).unwrap();
    assert_eq!(gunzip(&gz), vec![1, 2]);
}

#[test]
fn compress_threshold() {
    assert!(!should_compress(0));
    assert!(!should_compress(1023));
    assert!(should_compress(1024));
    assert!(should_compress(usize::MAX));
}
