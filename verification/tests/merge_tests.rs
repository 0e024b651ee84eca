use httpdrs::merge::{logical_part_len, merge_parts, part_read_len};
use httpdrs::CHUNK_SIZE;

#[test]
fn logical_lengths_cover_the_file() {
    let total_bytes: u64 = 12_000_000;
    assert_eq!(logical_part_len(0, 3, total_bytes, CHUNK_SIZE), CHUNK_SIZE);
    assert_eq!(logical_part_len(1, 3, total_bytes, CHUNK_SIZE), CHUNK_SIZE);
    assert_eq!(logical_part_len(2, 3, total_bytes, CHUNK_SIZE), 12_000_000 - 2 * CHUNK_SIZE);
    let sum = logical_part_len(0, 3, total_bytes, CHUNK_SIZE)
        + logical_part_len(1, 3, total_bytes, CHUNK_SIZE)
        + logical_part_len(2, 3, total_bytes, CHUNK_SIZE);
    assert_eq!(sum, total_bytes);
}

#[test]
fn exact_multiple_final_part_is_full() {
    assert_eq!(logical_part_len(1, 2, 2 * CHUNK_SIZE, CHUNK_SIZE), CHUNK_SIZE);
}

#[test]
fn reads_are_truncated_to_logical_length() {
    assert_eq!(part_read_len(2048, 1024), 1024);
    assert_eq!(part_read_len(512, 1024), 512);
    assert_eq!(part_read_len(1024, 1024), 1024);
}

#[test]
fn merge_concatenates_parts_in_order() {
    // A small synthetic geometry: 10-byte file in chunks of 4.
    let parts: Vec<Vec<u8>> = vec![vec![1, 2, 3, 4], vec![5, 6, 7, 8], vec![9, 10]];
    let merged = merge_parts(&parts, 10, 4);
    assert_eq!(merged, vec![1, 2, 3, 4, 5, 6, 7, 8, 9, 10]);
}

#[test]
fn merge_truncates_overlong_parts() {
    // The server answered a fuller range than asked: every part is
    // longer on disk than its logical length.
    let parts: Vec<Vec<u8>> = vec![vec![1, 2, 3, 4, 99, 99], vec![5, 6, 7, 8, 99], vec![9, 10, 99]];
    let merged = merge_parts(&parts, 10, 4);
    assert_eq!(merged, vec![1, 2, 3, 4, 5, 6, 7, 8, 9, 10]);
}

#[test]
fn merge_length_matches_required_size() {
    let total_bytes: u64 = 12_000_000;
    let last = (total_bytes - 2 * CHUNK_SIZE) as usize;
    let parts: Vec<Vec<u8>> = vec![
        vec![7u8; CHUNK_SIZE as usize],
        vec![8u8; CHUNK_SIZE as usize],
        vec![9u8; last],
    ];
    let merged = merge_parts(&parts, total_bytes, CHUNK_SIZE);
    assert_eq!(merged.len() as u64, total_bytes);
    assert_eq!(merged[0], 7);
    assert_eq!(merged[CHUNK_SIZE as usize], 8);
    assert_eq!(merged[2 * CHUNK_SIZE as usize], 9);
}

#[test]
fn merge_of_empty_file_is_empty() {
    let parts: Vec<Vec<u8>> = Vec::new();
    let merged = merge_parts(&parts, 0, CHUNK_SIZE);
    assert!(merged.is_empty());
}
