//! Planning and accounting one file download.
//!
//! Given an object's expected size and what is on disk, the plan is
//! either "already present" (checkpoint resume: no network at all) or
//! "fetch this many ranges". When the range tasks report back, their
//! results are tallied into byte counters per state, the file is judged
//! complete or not, and a merge is requested exactly for completed
//! multi-part objects. The surrounding application spawns the tasks and
//! moves the bytes; every decision is made here.

use vstd::prelude::*;
use vstd::string::*;

use std::sync::Arc;

use crate::jwtsign::HttpdMetaReader;
use crate::range::spec_total_parts;

verus! {

/// One object to download: its signed token, its expected size, and
/// the chunk size its ranges are cut with.
pub struct DownloadFileConfig {
    pub sign: String,
    pub require_size: u64,
    pub chunk_size: u64,
}

impl DownloadFileConfig {
    /// A download of one object of `require_size` bytes with the
    /// engine's fixed chunk size.
    pub fn new(sign: String, require_size: u64) -> (r: Self)
        ensures
            r.sign == sign,
            r.require_size == require_size,
            r.chunk_size == crate::CHUNK_SIZE,
    {
        DownloadFileConfig { sign, require_size, chunk_size: crate::CHUNK_SIZE }
    }
}

/// Whether the filter forwards a manifest row to the downloader: only
/// when no local file of exactly the expected size exists.
pub fn should_dispatch(local_size: Option<u64>, size: u64) -> (b: bool)
    ensures
        b == (local_size != Some(size)),
{
    match local_size {
        Some(n) => n != size,
        None => true,
    }
}

/// What happens to one file.
pub enum FilePlan {
    /// A local file of exactly the expected size exists: checkpoint
    /// resume, nothing is fetched.
    AlreadyPresent,
    /// Fetch this many ranges.
    Fetch(u64),
}

/// Plans one file: already present when the local size matches the
/// expected size exactly, otherwise a fetch of `ceil(require / chunk)`
/// ranges.
pub fn plan_file(require_size: u64, chunk_size: u64, local_size: Option<u64>) -> (p: FilePlan)
    requires
        chunk_size > 0,
    ensures
        local_size == Some(require_size) ==> p == FilePlan::AlreadyPresent,
        local_size != Some(require_size) ==> (p matches FilePlan::Fetch(t) && t as int
            == spec_total_parts(require_size as int, chunk_size as int)),
{
    let matched = match local_size {
        Some(n) => n == require_size,
        None => false,
    };
    if matched {
        FilePlan::AlreadyPresent
    } else {
        FilePlan::Fetch(crate::range::total_parts_for(require_size, chunk_size))
    }
}

/// How one range task ended.
#[derive(Clone, Copy, Debug, PartialEq, Eq, Structural)]
pub enum RangeState {
    /// The part file already existed with the right size; nothing was
    /// fetched.
    Skip,
    /// Freshly fetched and written.
    Fresh,
    /// Failed after its retry budget.
    Failed,
}

/// What one range task reported: its index, how many bytes it ended up
/// with, and how it ended.
#[derive(Clone, Copy, Debug)]
pub struct RangeResult {
    pub idx: u64,
    pub len: u64,
    pub state: RangeState,
}

/// The tally of a file's range results: how many ranges succeeded (by
/// skip or fresh fetch) and the bytes in each state.
#[derive(Clone, Copy, Debug)]
pub struct RangeTally {
    pub completed_parts: u64,
    pub skip_bytes: u64,
    pub fresh_bytes: u64,
    pub failed_bytes: u64,
}

/// How many of the first `k` results succeeded (skip or fresh).
pub open spec fn spec_completed_parts(rs: Seq<RangeResult>, k: int) -> int
    decreases k,
{
    if k <= 0 {
        0
    } else {
        spec_completed_parts(rs, k - 1) + if rs[k - 1].state != RangeState::Failed {
            1int
        } else {
            0int
        }
    }
}

/// The bytes among the first `k` results that ended in `state`.
pub open spec fn spec_state_bytes(rs: Seq<RangeResult>, k: int, state: RangeState) -> int
    decreases k,
{
    if k <= 0 {
        0
    } else {
        spec_state_bytes(rs, k - 1, state) + if rs[k - 1].state == state {
            rs[k - 1].len as int
        } else {
            0int
        }
    }
}

/// Tallies a file's range results; fails only when a byte counter would
/// overflow a `u64`.
pub fn tally_ranges(results: &Vec<RangeResult>) -> (r: Option<RangeTally>)
    requires
        results@.len() <= u64::MAX,
    ensures
        match r {
            Some(t) => {
                &&& t.completed_parts == spec_completed_parts(results@, results@.len() as int)
                &&& t.skip_bytes == spec_state_bytes(results@, results@.len() as int, RangeState::Skip)
                &&& t.fresh_bytes == spec_state_bytes(
                    results@,
                    results@.len() as int,
                    RangeState::Fresh,
                )
                &&& t.failed_bytes == spec_state_bytes(
                    results@,
                    results@.len() as int,
                    RangeState::Failed,
                )
            },
            None => spec_state_bytes(results@, results@.len() as int, RangeState::Skip) > u64::MAX
                || spec_state_bytes(results@, results@.len() as int, RangeState::Fresh) > u64::MAX
                || spec_state_bytes(results@, results@.len() as int, RangeState::Failed)
                > u64::MAX,
        },
{
    let n = results.len();
    let mut completed: u64 = 0;
    let mut skip_bytes: u64 = 0;
    let mut fresh_bytes: u64 = 0;
    let mut failed_bytes: u64 = 0;
    let mut i: usize = 0;
    while i < n
        invariant
            n == results@.len(),
            n <= u64::MAX,
            0 <= i <= n,
            completed == spec_completed_parts(results@, i as int),
            completed <= i,
            skip_bytes == spec_state_bytes(results@, i as int, RangeState::Skip),
            fresh_bytes == spec_state_bytes(results@, i as int, RangeState::Fresh),
            failed_bytes == spec_state_bytes(results@, i as int, RangeState::Failed),
        decreases n - i,
    {
        let res = results[i];
        match res.state {
            RangeState::Skip => {
                skip_bytes = match skip_bytes.checked_add(res.len) {
                    Some(v) => v,
                    None => {
                        proof {
                            lemma_state_bytes_monotonic(results@, i + 1, n as int, RangeState::Skip);
                        }
                        return None;
                    },
                };
                completed = completed + 1;
            },
            RangeState::Fresh => {
                fresh_bytes = match fresh_bytes.checked_add(res.len) {
                    Some(v) => v,
                    None => {
                        proof {
                            lemma_state_bytes_monotonic(
                                results@,
                                i + 1,
                                n as int,
                                RangeState::Fresh,
                            );
                        }
                        return None;
                    },
                };
                completed = completed + 1;
            },
            RangeState::Failed => {
                failed_bytes = match failed_bytes.checked_add(res.len) {
                    Some(v) => v,
                    None => {
                        proof {
                            lemma_state_bytes_monotonic(
                                results@,
                                i + 1,
                                n as int,
                                RangeState::Failed,
                            );
                        }
                        return None;
                    },
                };
            },
        }
        i = i + 1;
    }
    Some(RangeTally { completed_parts: completed, skip_bytes, fresh_bytes, failed_bytes })
}

proof fn lemma_state_bytes_monotonic(rs: Seq<RangeResult>, k: int, n: int, state: RangeState)
    requires
        0 <= k <= n <= rs.len(),
    ensures
        spec_state_bytes(rs, k, state) <= spec_state_bytes(rs, n, state),
    decreases n - k,
{
    if k < n {
        lemma_state_bytes_monotonic(rs, k + 1, n, state);
    }
}

/// Judges a file from its tally: it completed when every range
/// succeeded, and a merge is owed exactly for completed objects of more
/// than one part. An object of zero parts (an empty file) completes
/// with no ranges and no merge.
pub fn finish_file(completed_parts: u64, total_parts: u64) -> (r: (
    crate::runtime::FileOutcome,
    bool,
))
    ensures
        r.0 == (if completed_parts == total_parts {
            crate::runtime::FileOutcome::Fresh
        } else {
            crate::runtime::FileOutcome::Failed
        }),
        r.1 == (completed_parts == total_parts && total_parts > 1),
{
    if completed_parts == total_parts {
        (crate::runtime::FileOutcome::Fresh, total_parts > 1)
    } else {
        (crate::runtime::FileOutcome::Failed, false)
    }
}

/// A request to assemble one completed multi-part object: which object,
/// how many parts, its total bytes, and the directories involved.
#[derive(Debug)]
pub struct MergeMessage {
    pub reader: Arc<HttpdMetaReader>,
    pub total_parts: u64,
    pub total_bytes: u64,
    pub data_path: String,
    pub temp_path: String,
}

/// The manifest, data and scratch directories under one root:
/// `{use_loc}/meta`, `{use_loc}/data`, `{use_loc}/temp`.
pub fn derived_paths(use_loc: &str) -> (r: (String, String, String))
    ensures
        r.0@ == use_loc@ + "/meta"@,
        r.1@ == use_loc@ + "/data"@,
        r.2@ == use_loc@ + "/temp"@,
{
    let mut meta = String::new();
    meta.append(use_loc);
    meta.append("/meta");
    let mut data = String::new();
    data.append(use_loc);
    data.append("/data");
    let mut temp = String::new();
    temp.append(use_loc);
    temp.append("/temp");
    proof {
        assert(meta@ =~= use_loc@ + "/meta"@);
        assert(data@ =~= use_loc@ + "/data"@);
        assert(temp@ =~= use_loc@ + "/temp"@);
    }
    (meta, data, temp)
}

/// The sentinel file whose existence starts the manifest reader:
/// `{temp_path}/meta.list`.
pub fn meta_list_path(temp_path: &str) -> (r: String)
    ensures
        r@ == temp_path@ + "/meta.list"@,
{
    let mut p = String::new();
    p.append(temp_path);
    p.append("/meta.list");
    proof {
        assert(p@ =~= temp_path@ + "/meta.list"@);
    }
    p
}

} // verus!
