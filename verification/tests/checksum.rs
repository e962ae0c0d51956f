//! Checksum engine behaviour: known values, streaming against one-shot
//! computation, and determinism.

use cksfv::checksum::crc32_of_bytes;
use cksfv::checksum::crc32_of_chunks;
use cksfv::checksum::Crc32Stream;

/// The CRC32 check value of the nine ASCII digits, a standard test vector.
#[test]
fn crc32_known_value() {
    assert_eq!(crc32_of_bytes(b"123456789"), 0xCBF4_3926);
}

#[test]
fn crc32_empty_is_zero() {
    assert_eq!(crc32_of_bytes(b""), 0);
}

fn pattern(len: usize) -> Vec<u8> {
    let mut v = Vec::with_capacity(len);
    for i in 0..len {
        v.push((i % 251) as u8);
    }
    v
}

fn chunked(data: &[u8], chunk: usize) -> Vec<Vec<u8>> {
    let mut out = Vec::new();
    let mut i = 0;
    while i < data.len() {
        let end = (i + chunk).min(data.len());
        out.push(data[i..end].to_vec());
        i = end;
    }
    out
}

/// Streaming in 64 KiB chunks and hashing the whole buffer agree, for an
/// empty file and for sizes around the chunk boundary.
#[test]
fn streaming_matches_whole_buffer() {
    for len in [0usize, 1, 65535, 65536, 65537] {
        let data = pattern(len);
        let whole = crc32_of_bytes(&data);
        let streamed = crc32_of_chunks(&chunked(&data, 65536));
        assert_eq!(whole, streamed, "length {}", len);
    }
}

/// Feeding the same bytes in differently sized pieces changes nothing.
#[test]
fn chunk_boundaries_do_not_matter() {
    let data = pattern(10_000);
    let whole = crc32_of_bytes(&data);
    for chunk in [1usize, 7, 4096] {
        assert_eq!(whole, crc32_of_chunks(&chunked(&data, chunk)), "chunk {}", chunk);
    }
    let mut s = Crc32Stream::new();
    s.update(&data[..1234]);
    s.update(&data[1234..1234]);
    s.update(&data[1234..]);
    assert_eq!(whole, s.finalize());
}

/// Computing the checksum twice over unchanged bytes gives the same
/// value; flipping a single byte changes it.
#[test]
fn checksum_deterministic_and_sensitive() {
    let data = pattern(4096);
    let first = crc32_of_bytes(&data);
    let second = crc32_of_bytes(&data);
    assert_eq!(first, second);
    for i in [0usize, 1000, 4095] {
        let mut changed = data.clone();
        changed[i] ^= 0x01;
        assert_ne!(first, crc32_of_bytes(&changed), "flipped byte {}", i);
    }
}
