use dawfu::chunks::{chunk_bytes, chunk_range, CHUNK_SIZE};

fn payload(len: usize) -> Vec<u8> {
    (0..len).map(|i| (i % 251) as u8).collect()
}

#[test]
fn chunk_size_is_link_budget() {
    assert_eq!(CHUNK_SIZE, 244);
}

#[test]
fn ranges_for_500_byte_payload() {
    // Chunk requests 0, 1, 2 yield [0, 244), [244, 488), [488, 500).
    assert_eq!(chunk_range(0, 500), Some((0, 244)));
    assert_eq!(chunk_range(1, 500), Some((244, 488)));
    assert_eq!(chunk_range(2, 500), Some((488, 500)));
    assert_eq!(chunk_range(3, 500), None);
}

#[test]
fn ranges_for_exact_multiple() {
    assert_eq!(chunk_range(0, 488), Some((0, 244)));
    assert_eq!(chunk_range(1, 488), Some((244, 488)));
    assert_eq!(chunk_range(2, 488), None);
}

#[test]
fn empty_payload_serves_nothing() {
    assert_eq!(chunk_range(0, 0), None);
    assert_eq!(chunk_bytes(&Vec::new(), 0), None);
}

#[test]
fn single_byte_payload() {
    assert_eq!(chunk_range(0, 1), Some((0, 1)));
    assert_eq!(chunk_range(1, 1), None);
}

#[test]
fn bytes_match_ranges() {
    let p = payload(500);
    assert_eq!(chunk_bytes(&p, 0).unwrap(), p[0..244].to_vec());
    assert_eq!(chunk_bytes(&p, 1).unwrap(), p[244..488].to_vec());
    assert_eq!(chunk_bytes(&p, 2).unwrap(), p[488..500].to_vec());
    assert_eq!(chunk_bytes(&p, 3), None);
}

#[test]
fn chunking_is_idempotent() {
    // Re-requesting the same index yields the same bytes both times.
    let p = payload(1000);
    for index in [0u16, 1, 2, 3, 4] {
        assert_eq!(chunk_bytes(&p, index), chunk_bytes(&p, index));
    }
}
