use httpdrs::range::{range_bounds, total_parts_for, Args, FSReader, Range};
use httpdrs::CHUNK_SIZE;

#[test]
fn empty_file_has_no_parts() {
    assert_eq!(total_parts_for(0, CHUNK_SIZE), 0);
}

#[test]
fn small_file_is_single_part() {
    assert_eq!(total_parts_for(1024, CHUNK_SIZE), 1);
    assert_eq!(total_parts_for(1, CHUNK_SIZE), 1);
    assert_eq!(total_parts_for(CHUNK_SIZE - 1, CHUNK_SIZE), 1);
}

#[test]
fn exact_multiple_keeps_full_final_chunk() {
    assert_eq!(total_parts_for(3 * CHUNK_SIZE, CHUNK_SIZE), 3);
    let (start, end) = range_bounds(2, CHUNK_SIZE, 3 * CHUNK_SIZE);
    assert_eq!(end - start, CHUNK_SIZE);
    assert_eq!(end, 3 * CHUNK_SIZE);
}

#[test]
fn multi_part_range_bounds() {
    let require: u64 = 12_000_000;
    assert_eq!(total_parts_for(require, CHUNK_SIZE), 3);
    assert_eq!(range_bounds(0, CHUNK_SIZE, require), (0, 5_242_880));
    assert_eq!(range_bounds(1, CHUNK_SIZE, require), (5_242_880, 10_485_760));
    assert_eq!(range_bounds(2, CHUNK_SIZE, require), (10_485_760, 12_000_000));
}

#[test]
fn non_final_ranges_are_chunk_wide_final_ends_at_size() {
    let require: u64 = 12_000_000;
    let total = total_parts_for(require, CHUNK_SIZE);
    for idx in 0..total {
        let (start, end) = range_bounds(idx, CHUNK_SIZE, require);
        if idx < total - 1 {
            assert_eq!(end - start, CHUNK_SIZE);
        } else {
            assert_eq!(end, require);
            assert!(end - start < CHUNK_SIZE);
        }
    }
}

#[test]
fn range_header_is_half_open() {
    let args = Args::new(String::from("data"), String::from("tmp"));
    let range = Range::new(0, 0, 1024, 1, String::from("T"), args);
    assert_eq!(range.header(), "bytes=0-1023");
    assert_eq!(range.size(), 1024);
}

#[test]
fn range_header_second_part() {
    let args = Args::new(String::from("data"), String::from("tmp"));
    let range = Range::new(1, 5_242_880, 10_485_760, 3, String::from("T"), args);
    assert_eq!(range.header(), "bytes=5242880-10485759");
    assert_eq!(range.size(), CHUNK_SIZE);
}

#[test]
fn fs_reader_parts() {
    let reader = FSReader::new(String::from("T"), 12_000_000);
    assert_eq!(reader.require_size, 12_000_000);
    assert_eq!(reader.chunk_size, CHUNK_SIZE);
    assert_eq!(reader.total_parts(), 3);
    let one = FSReader::new(String::from("T"), 1024);
    assert_eq!(one.total_parts(), 1);
    let zero = FSReader::new(String::from("T"), 0);
    assert_eq!(zero.total_parts(), 0);
}
