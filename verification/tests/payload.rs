use std::io::Write;

use geoip_api::fetch::DatabaseDownloader;
use geoip_api::fetch::FetchError;
use geoip_api::fetch::MIN_FILE_SIZE;

fn gzip(data: &[u8]) -> Vec<u8> {
    let mut enc = flate2::write::GzEncoder::new(Vec::new(), flate2::Compression::default());
    enc.write_all(data).unwrap();
    enc.finish().unwrap()
}

#[test]
fn large_payload_roundtrips() {
    let d = DatabaseDownloader::new("/data");
    let original: Vec<u8> = (0..(MIN_FILE_SIZE + 17)).map(|i| (i % 251) as u8).collect();
    let compressed = gzip(&original);
    // The compressed stream is far smaller than what comes out; only a real
    // decompression can return the original bytes.
    assert!(compressed.len() < original.len());
    let out = d.process_payload(&compressed).unwrap();
    assert_eq!(out, original);
}

#[test]
fn undersized_payload_is_rejected() {
    let d = DatabaseDownloader::new("/data");
    let original = vec![7u8; MIN_FILE_SIZE - 1];
    let compressed = gzip(&original);
    assert_eq!(
        d.process_payload(&compressed),
        Err(FetchError::PayloadTooSmall)
    );
}

#[test]
fn exact_minimum_is_accepted() {
    let d = DatabaseDownloader::new("/data");
    let original = vec![7u8; MIN_FILE_SIZE];
    let compressed = gzip(&original);
    assert_eq!(d.process_payload(&compressed).unwrap().len(), MIN_FILE_SIZE);
}

#[test]
fn garbage_is_rejected_as_corrupt() {
    let d = DatabaseDownloader::new("/data");
    let garbage = vec![0x55u8; 4096];
    assert_eq!(d.process_payload(&garbage), Err(FetchError::CorruptPayload));
}
