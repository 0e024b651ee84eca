//! End-to-end walks through the engine's decisions on concrete files,
//! with the network and the filesystem played by the test.

use base64::Engine;

use httpdrs::download::{finish_file, plan_file, tally_ranges, FilePlan, RangeResult, RangeState};
use httpdrs::fetch::{fetch_step, FetchFailure, FetchStep};
use httpdrs::jwtsign::reader_parse;
use httpdrs::merge::merge_parts;
use httpdrs::range::{range_bounds, Args, Range};
use httpdrs::runtime::{FileOutcome, RuntimeContext};
use httpdrs::CHUNK_SIZE;

fn make_token(proto: &str, path: &str, prefix: &str) -> String {
    let packed = rmp_serde::to_vec(&(proto, path, prefix)).unwrap();
    let download_path = base64::engine::general_purpose::STANDARD.encode(&packed);
    let header = base64::engine::general_purpose::URL_SAFE_NO_PAD.encode(b"{\"alg\":\"HS256\"}");
    let claims_json = format!("{{\"download_path\":\"{}\"}}", download_path);
    let claims = base64::engine::general_purpose::URL_SAFE_NO_PAD.encode(claims_json.as_bytes());
    format!("{}.{}.c2ln", header, claims)
}

#[test]
fn single_small_file() {
    // One 1024-byte object: one range asking for bytes 0-1023, written
    // straight to its final path, counted as one completed file.
    let token = make_token("s3", "a.bin", "p");
    let reader = std::sync::Arc::new(reader_parse(token.clone()).unwrap());

    let total_parts = match plan_file(1024, CHUNK_SIZE, None) {
        FilePlan::Fetch(parts) => parts,
        FilePlan::AlreadyPresent => panic!("nothing on disk yet"),
    };
    assert_eq!(total_parts, 1);

    let (start, end) = range_bounds(0, CHUNK_SIZE, 1024);
    let args = Args::new("data".to_string(), "tmp".to_string());
    let range = Range::new(0, start, end, total_parts, token, args);
    assert_eq!(range.header(), "bytes=0-1023");
    let (path, _) = range.path(std::sync::Arc::clone(&reader));
    assert_eq!(path, "data/p/a.bin");

    let results = vec![RangeResult { idx: 0, len: 1024, state: RangeState::Fresh }];
    let tally = tally_ranges(&results).unwrap();
    let (outcome, needs_merge) = finish_file(tally.completed_parts, total_parts);
    assert_eq!(outcome, FileOutcome::Fresh);
    assert!(!needs_merge);

    let mut ctx = RuntimeContext::new();
    ctx.add_completed(0, tally.fresh_bytes);
    ctx.record_file(outcome);
    assert_eq!(ctx.completed_count, 1);
    assert_eq!(ctx.completed_bytes, 1024);
}

#[test]
fn multi_part_file_is_merged_to_full_size() {
    // A 12 MB object in three ranges; all succeed, the parts merge to
    // exactly the required size, one completed file.
    let require: u64 = 12_000_000;
    let total_parts = match plan_file(require, CHUNK_SIZE, None) {
        FilePlan::Fetch(parts) => parts,
        FilePlan::AlreadyPresent => panic!("nothing on disk yet"),
    };
    assert_eq!(total_parts, 3);

    let mut parts: Vec<Vec<u8>> = Vec::new();
    let mut results: Vec<RangeResult> = Vec::new();
    for idx in 0..total_parts {
        let (start, end) = range_bounds(idx, CHUNK_SIZE, require);
        parts.push(vec![idx as u8; (end - start) as usize]);
        results.push(RangeResult { idx, len: end - start, state: RangeState::Fresh });
    }
    let tally = tally_ranges(&results).unwrap();
    assert_eq!(tally.fresh_bytes, require);
    let (outcome, needs_merge) = finish_file(tally.completed_parts, total_parts);
    assert_eq!(outcome, FileOutcome::Fresh);
    assert!(needs_merge);

    let merged = merge_parts(&parts, require, CHUNK_SIZE);
    assert_eq!(merged.len() as u64, require);

    let mut ctx = RuntimeContext::new();
    ctx.record_file(outcome);
    assert_eq!(ctx.completed_count, 1);
}

#[test]
fn resume_makes_no_network_work() {
    // A local file of exactly the expected size: the plan is resume,
    // nothing is dispatched, the skip counters take the file.
    let plan = plan_file(1024, CHUNK_SIZE, Some(1024));
    assert!(matches!(plan, FilePlan::AlreadyPresent));
    let mut ctx = RuntimeContext::new();
    ctx.add_download(0, 1024);
    ctx.record_file(FileOutcome::Skipped);
    assert_eq!(ctx.download_count, 1);
    assert_eq!(ctx.download_bytes, 1024);
    assert_eq!(ctx.completed_count, 0);
}

#[test]
fn permanent_failure_fails_the_file_and_spares_the_rest() {
    // One range of a three-part file burns all twenty attempts; the
    // file is uncompleted and unmerged, a sibling file is untouched.
    let mut attempt: u64 = 0;
    loop {
        match fetch_step(&mut attempt, FetchFailure::Status) {
            FetchStep::Retry(_) => {}
            FetchStep::Fail(_) => break,
        }
    }
    assert_eq!(attempt, 20);

    let results = vec![
        RangeResult { idx: 0, len: CHUNK_SIZE, state: RangeState::Fresh },
        RangeResult { idx: 1, len: CHUNK_SIZE, state: RangeState::Fresh },
        RangeResult { idx: 2, len: 0, state: RangeState::Failed },
    ];
    let tally = tally_ranges(&results).unwrap();
    let (outcome, needs_merge) = finish_file(tally.completed_parts, 3);
    assert_eq!(outcome, FileOutcome::Failed);
    assert!(!needs_merge);

    let mut ctx = RuntimeContext::new();
    ctx.record_file(outcome);
    ctx.record_file(FileOutcome::Fresh);
    assert_eq!(ctx.uncompleted_count, 1);
    assert_eq!(ctx.completed_count, 1);
}
