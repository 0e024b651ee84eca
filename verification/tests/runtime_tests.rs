use httpdrs::download::{
    derived_paths, finish_file, meta_list_path, plan_file, should_dispatch, tally_ranges,
    DownloadFileConfig, FilePlan, RangeResult, RangeState,
};
use httpdrs::runtime::{remaining_time_secs, speed_avg, FileOutcome, RuntimeContext};
use httpdrs::CHUNK_SIZE;

#[test]
fn counters_accumulate_and_snapshot() {
    let mut ctx = RuntimeContext::new();
    ctx.init("base/meta".to_string(), "base/data".to_string(), "base/temp".to_string());
    assert_eq!(ctx.meta_path, "base/meta");
    ctx.add_require(2, 12_001_024);
    ctx.add_download(1, 1024);
    ctx.add_completed(1, 12_000_000);
    ctx.add_uncompleted(1, 512);
    let snap = ctx.snapshot();
    assert_eq!(snap.require_count, 2);
    assert_eq!(snap.require_bytes, 12_001_024);
    assert_eq!(snap.download_count, 1);
    assert_eq!(snap.download_bytes, 1024);
    assert_eq!(snap.completed_count, 1);
    assert_eq!(snap.completed_bytes, 12_000_000);
    assert_eq!(snap.uncompleted_count, 1);
    assert_eq!(snap.uncompleted_bytes, 512);
}

#[test]
fn every_file_lands_in_exactly_one_bucket() {
    let mut ctx = RuntimeContext::new();
    let outcomes = [
        FileOutcome::Fresh,
        FileOutcome::Skipped,
        FileOutcome::Failed,
        FileOutcome::Fresh,
        FileOutcome::Fresh,
    ];
    for o in outcomes {
        ctx.record_file(o);
    }
    assert_eq!(ctx.completed_count, 3);
    assert_eq!(ctx.download_count, 1);
    assert_eq!(ctx.uncompleted_count, 1);
    assert_eq!(
        ctx.completed_count + ctx.uncompleted_count + ctx.download_count,
        outcomes.len() as u64
    );
}

#[test]
fn status_line_reports_all_counters() {
    let mut ctx = RuntimeContext::new();
    ctx.add_download(1, 1024);
    ctx.add_completed(2, 3000);
    ctx.add_uncompleted(1, 512);
    let line = ctx.snapshot().status_line();
    assert_eq!(line, "Success: 3/4024, Fail: 1/512, Skip: 1/1024");
}

#[test]
fn progress_numbers() {
    let mut ctx = RuntimeContext::new();
    ctx.add_require(2, 20_000);
    ctx.add_download(1, 4_000);
    ctx.add_completed(1, 6_000);
    let snap = ctx.snapshot();
    assert_eq!(snap.process_bytes(), 10_000);
    assert_eq!(snap.remaining_bytes(), 10_000);
    assert_eq!(speed_avg(5_000, 0, 1000), 5_000);
    assert_eq!(speed_avg(0, 4_000, 1000), 4);
    assert_eq!(speed_avg(5_000, 0, 0), 0);
    assert_eq!(remaining_time_secs(10_000, 5_000), 2);
    assert_eq!(remaining_time_secs(10_000, 0), 0);
}

#[test]
fn config_uses_fixed_chunk() {
    let config = DownloadFileConfig::new("T".to_string(), 12_000_000);
    assert_eq!(config.require_size, 12_000_000);
    assert_eq!(config.chunk_size, CHUNK_SIZE);
}

#[test]
fn matching_local_file_is_resumed_not_refetched() {
    // The checkpoint-resume path: a local file of the exact expected
    // size means no ranges, no network.
    assert!(matches!(plan_file(1024, CHUNK_SIZE, Some(1024)), FilePlan::AlreadyPresent));
    assert!(!should_dispatch(Some(1024), 1024));
}

#[test]
fn missing_or_mismatched_local_file_is_fetched() {
    match plan_file(12_000_000, CHUNK_SIZE, None) {
        FilePlan::Fetch(parts) => assert_eq!(parts, 3),
        FilePlan::AlreadyPresent => panic!("must fetch"),
    }
    match plan_file(1024, CHUNK_SIZE, Some(100)) {
        FilePlan::Fetch(parts) => assert_eq!(parts, 1),
        FilePlan::AlreadyPresent => panic!("must fetch"),
    }
    assert!(should_dispatch(Some(100), 1024));
    assert!(should_dispatch(None, 1024));
}

#[test]
fn empty_file_plan_depends_on_preexistence() {
    assert!(matches!(plan_file(0, CHUNK_SIZE, Some(0)), FilePlan::AlreadyPresent));
    match plan_file(0, CHUNK_SIZE, None) {
        FilePlan::Fetch(parts) => assert_eq!(parts, 0),
        FilePlan::AlreadyPresent => panic!("absent file is not resumed"),
    }
    let (outcome, merge) = finish_file(0, 0);
    assert_eq!(outcome, FileOutcome::Fresh);
    assert!(!merge);
}

#[test]
fn tally_splits_bytes_by_state() {
    let results = vec![
        RangeResult { idx: 0, len: 5_242_880, state: RangeState::Skip },
        RangeResult { idx: 1, len: 5_242_880, state: RangeState::Fresh },
        RangeResult { idx: 2, len: 0, state: RangeState::Failed },
    ];
    let tally = tally_ranges(&results).unwrap();
    assert_eq!(tally.completed_parts, 2);
    assert_eq!(tally.skip_bytes, 5_242_880);
    assert_eq!(tally.fresh_bytes, 5_242_880);
    assert_eq!(tally.failed_bytes, 0);
}

#[test]
fn tally_overflow_is_reported() {
    let results = vec![
        RangeResult { idx: 0, len: u64::MAX, state: RangeState::Fresh },
        RangeResult { idx: 1, len: 1, state: RangeState::Fresh },
    ];
    assert!(tally_ranges(&results).is_none());
}

#[test]
fn single_part_file_needs_no_merge() {
    let (outcome, merge) = finish_file(1, 1);
    assert_eq!(outcome, FileOutcome::Fresh);
    assert!(!merge);
}

#[test]
fn completed_multi_part_file_is_merged() {
    let (outcome, merge) = finish_file(3, 3);
    assert_eq!(outcome, FileOutcome::Fresh);
    assert!(merge);
}

#[test]
fn failed_range_fails_the_file_without_merge() {
    // One range of a multi-part file never succeeded: the file is
    // uncompleted and nothing is merged.
    let (outcome, merge) = finish_file(2, 3);
    assert_eq!(outcome, FileOutcome::Failed);
    assert!(!merge);
}

#[test]
fn layout_under_one_root() {
    let (meta, data, temp) = derived_paths("use");
    assert_eq!(meta, "use/meta");
    assert_eq!(data, "use/data");
    assert_eq!(temp, "use/temp");
    assert_eq!(meta_list_path(&temp), "use/temp/meta.list");
}
