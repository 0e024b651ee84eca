//! The process-wide runtime state: path configuration, the four pairs
//! of monotonic counters, snapshots for progress reporting, and the
//! integer parts of the progress computation.
//!
//! The surrounding application holds one `RuntimeContext` behind its
//! synchronization of choice; counters only ever grow, every update's
//! effect is exact in its contract, and recording a file outcome bumps
//! exactly one of the three outcome counters.

use vstd::prelude::*;
use vstd::string::*;

use crate::text::{dec_of, push_dec};

verus! {

/// Process-wide paths and counters. `require_*` is what the manifests
/// demand; `download_*` counts work skipped because a matching local
/// file already existed; `completed_*` counts fresh successes;
/// `uncompleted_*` counts failures after all retries.
#[derive(Debug)]
pub struct RuntimeContext {
    pub meta_path: String,
    pub data_path: String,
    pub temp_path: String,
    pub require_count: u64,
    pub require_bytes: u64,
    pub download_count: u64,
    pub download_bytes: u64,
    pub completed_count: u64,
    pub completed_bytes: u64,
    pub uncompleted_count: u64,
    pub uncompleted_bytes: u64,
}

/// A point-in-time copy of the counters.
#[derive(Debug, Clone)]
pub struct RuntimeSnapshot {
    pub require_count: u64,
    pub require_bytes: u64,
    pub download_count: u64,
    pub download_bytes: u64,
    pub completed_count: u64,
    pub completed_bytes: u64,
    pub uncompleted_count: u64,
    pub uncompleted_bytes: u64,
}

/// How one dispatched file ended.
#[derive(Clone, Copy, Debug, PartialEq, Eq, Structural)]
pub enum FileOutcome {
    /// Freshly downloaded (and merged, when multi-part).
    Fresh,
    /// Skipped: a matching local file already existed.
    Skipped,
    /// Failed after all retries.
    Failed,
}

/// The outcome counters as one sum.
pub open spec fn spec_outcome_total(c: RuntimeContext) -> int {
    c.completed_count + c.uncompleted_count + c.download_count
}

/// Per-outcome counts over a run's dispatched files.
pub open spec fn spec_outcome_count(os: Seq<FileOutcome>, o: FileOutcome) -> int
    decreases os.len(),
{
    if os.len() == 0 {
        0
    } else {
        spec_outcome_count(os.drop_last(), o) + if os.last() == o {
            1int
        } else {
            0int
        }
    }
}

/// Every dispatched file lands in exactly one bucket: the fresh, failed
/// and skipped counts of any sequence of outcomes sum to its length.
pub proof fn lemma_outcome_partition(os: Seq<FileOutcome>)
    ensures
        spec_outcome_count(os, FileOutcome::Fresh) + spec_outcome_count(os, FileOutcome::Failed)
            + spec_outcome_count(os, FileOutcome::Skipped) == os.len(),
    decreases os.len(),
{
    if os.len() > 0 {
        lemma_outcome_partition(os.drop_last());
    }
}

/// The context after one file outcome is recorded.
pub open spec fn spec_record(c: RuntimeContext, o: FileOutcome) -> RuntimeContext {
    match o {
        FileOutcome::Fresh => RuntimeContext {
            completed_count: (c.completed_count + 1) as u64,
            ..c
        },
        FileOutcome::Failed => RuntimeContext {
            uncompleted_count: (c.uncompleted_count + 1) as u64,
            ..c
        },
        FileOutcome::Skipped => RuntimeContext {
            download_count: (c.download_count + 1) as u64,
            ..c
        },
    }
}

/// The context after a whole run's outcomes are recorded in order.
pub open spec fn spec_record_all(c: RuntimeContext, os: Seq<FileOutcome>) -> RuntimeContext
    decreases os.len(),
{
    if os.len() == 0 {
        c
    } else {
        spec_record(spec_record_all(c, os.drop_last()), os.last())
    }
}

/// Accounting a run: after any sequence of dispatched files is
/// recorded, each outcome counter has risen by that outcome's count,
/// and the completed, failed and skipped files together are exactly the
/// files dispatched.
pub proof fn lemma_record_all_partition(c: RuntimeContext, os: Seq<FileOutcome>)
    requires
        spec_outcome_total(c) + os.len() <= u64::MAX,
    ensures
        spec_record_all(c, os).completed_count == c.completed_count + spec_outcome_count(
            os,
            FileOutcome::Fresh,
        ),
        spec_record_all(c, os).uncompleted_count == c.uncompleted_count + spec_outcome_count(
            os,
            FileOutcome::Failed,
        ),
        spec_record_all(c, os).download_count == c.download_count + spec_outcome_count(
            os,
            FileOutcome::Skipped,
        ),
        spec_outcome_total(spec_record_all(c, os)) == spec_outcome_total(c) + os.len(),
    decreases os.len(),
{
    lemma_outcome_partition(os);
    if os.len() > 0 {
        lemma_outcome_partition(os.drop_last());
        lemma_record_all_partition(c, os.drop_last());
    }
}

impl RuntimeContext {
    /// A fresh context: empty paths, all counters at zero.
    pub fn new() -> (r: Self)
        ensures
            r.meta_path@ == Seq::<char>::empty(),
            r.data_path@ == Seq::<char>::empty(),
            r.temp_path@ == Seq::<char>::empty(),
            r.require_count == 0 && r.require_bytes == 0,
            r.download_count == 0 && r.download_bytes == 0,
            r.completed_count == 0 && r.completed_bytes == 0,
            r.uncompleted_count == 0 && r.uncompleted_bytes == 0,
    {
        RuntimeContext {
            meta_path: String::new(),
            data_path: String::new(),
            temp_path: String::new(),
            require_count: 0,
            require_bytes: 0,
            download_count: 0,
            download_bytes: 0,
            completed_count: 0,
            completed_bytes: 0,
            uncompleted_count: 0,
            uncompleted_bytes: 0,
        }
    }

    /// Appends the three configured paths onto the stored ones, as the
    /// one-time supervisor initialization does.
    pub fn init(&mut self, meta_path: String, data_path: String, temp_path: String)
        ensures
            final(self).meta_path@ == old(self).meta_path@ + meta_path@,
            final(self).data_path@ == old(self).data_path@ + data_path@,
            final(self).temp_path@ == old(self).temp_path@ + temp_path@,
            final(self).require_count == old(self).require_count,
            final(self).require_bytes == old(self).require_bytes,
            final(self).download_count == old(self).download_count,
            final(self).download_bytes == old(self).download_bytes,
            final(self).completed_count == old(self).completed_count,
            final(self).completed_bytes == old(self).completed_bytes,
            final(self).uncompleted_count == old(self).uncompleted_count,
            final(self).uncompleted_bytes == old(self).uncompleted_bytes,
    {
        self.meta_path.append(meta_path.as_str());
        self.data_path.append(data_path.as_str());
        self.temp_path.append(temp_path.as_str());
    }

    /// Accounts `count` more required files of `bytes` total size.
    pub fn add_require(&mut self, count: u64, bytes: u64)
        requires
            old(self).require_count + count <= u64::MAX,
            old(self).require_bytes + bytes <= u64::MAX,
        ensures
            *final(self) == (RuntimeContext {
                require_count: (old(self).require_count + count) as u64,
                require_bytes: (old(self).require_bytes + bytes) as u64,
                ..*old(self)
            }),
    {
        self.require_count = self.require_count + count;
        self.require_bytes = self.require_bytes + bytes;
    }

    /// Accounts `count` files and `bytes` bytes skipped because a
    /// matching local copy already existed.
    pub fn add_download(&mut self, count: u64, bytes: u64)
        requires
            old(self).download_count + count <= u64::MAX,
            old(self).download_bytes + bytes <= u64::MAX,
        ensures
            *final(self) == (RuntimeContext {
                download_count: (old(self).download_count + count) as u64,
                download_bytes: (old(self).download_bytes + bytes) as u64,
                ..*old(self)
            }),
    {
        self.download_count = self.download_count + count;
        self.download_bytes = self.download_bytes + bytes;
    }

    /// Accounts `count` files and `bytes` bytes freshly downloaded.
    pub fn add_completed(&mut self, count: u64, bytes: u64)
        requires
            old(self).completed_count + count <= u64::MAX,
            old(self).completed_bytes + bytes <= u64::MAX,
        ensures
            *final(self) == (RuntimeContext {
                completed_count: (old(self).completed_count + count) as u64,
                completed_bytes: (old(self).completed_bytes + bytes) as u64,
                ..*old(self)
            }),
    {
        self.completed_count = self.completed_count + count;
        self.completed_bytes = self.completed_bytes + bytes;
    }

    /// Accounts `count` files and `bytes` bytes failed for good.
    pub fn add_uncompleted(&mut self, count: u64, bytes: u64)
        requires
            old(self).uncompleted_count + count <= u64::MAX,
            old(self).uncompleted_bytes + bytes <= u64::MAX,
        ensures
            *final(self) == (RuntimeContext {
                uncompleted_count: (old(self).uncompleted_count + count) as u64,
                uncompleted_bytes: (old(self).uncompleted_bytes + bytes) as u64,
                ..*old(self)
            }),
    {
        self.uncompleted_count = self.uncompleted_count + count;
        self.uncompleted_bytes = self.uncompleted_bytes + bytes;
    }

    /// Records how one dispatched file ended: exactly one of the three
    /// outcome counters rises by one, and the total by exactly one.
    pub fn record_file(&mut self, outcome: FileOutcome)
        requires
            spec_outcome_total(*old(self)) + 1 <= u64::MAX,
        ensures
            *final(self) == spec_record(*old(self), outcome),
            final(self).completed_count == old(self).completed_count + (if outcome
                == FileOutcome::Fresh {
                1int
            } else {
                0int
            }),
            final(self).uncompleted_count == old(self).uncompleted_count + (if outcome
                == FileOutcome::Failed {
                1int
            } else {
                0int
            }),
            final(self).download_count == old(self).download_count + (if outcome
                == FileOutcome::Skipped {
                1int
            } else {
                0int
            }),
            spec_outcome_total(*final(self)) == spec_outcome_total(*old(self)) + 1,
            final(self).completed_bytes == old(self).completed_bytes,
            final(self).uncompleted_bytes == old(self).uncompleted_bytes,
            final(self).download_bytes == old(self).download_bytes,
            final(self).require_count == old(self).require_count,
            final(self).require_bytes == old(self).require_bytes,
            final(self).meta_path == old(self).meta_path,
            final(self).data_path == old(self).data_path,
            final(self).temp_path == old(self).temp_path,
    {
        match outcome {
            FileOutcome::Fresh => {
                self.completed_count = self.completed_count + 1;
            },
            FileOutcome::Failed => {
                self.uncompleted_count = self.uncompleted_count + 1;
            },
            FileOutcome::Skipped => {
                self.download_count = self.download_count + 1;
            },
        }
    }

    /// A copy of the counters as they stand.
    pub fn snapshot(&self) -> (r: RuntimeSnapshot)
        ensures
            r.require_count == self.require_count,
            r.require_bytes == self.require_bytes,
            r.download_count == self.download_count,
            r.download_bytes == self.download_bytes,
            r.completed_count == self.completed_count,
            r.completed_bytes == self.completed_bytes,
            r.uncompleted_count == self.uncompleted_count,
            r.uncompleted_bytes == self.uncompleted_bytes,
    {
        RuntimeSnapshot {
            require_count: self.require_count,
            require_bytes: self.require_bytes,
            download_count: self.download_count,
            download_bytes: self.download_bytes,
            completed_count: self.completed_count,
            completed_bytes: self.completed_bytes,
            uncompleted_count: self.uncompleted_count,
            uncompleted_bytes: self.uncompleted_bytes,
        }
    }
}

/// `a + b`, stopping at the largest `u64`.
pub open spec fn spec_sat_add(a: int, b: int) -> int {
    if a + b > u64::MAX {
        u64::MAX as int
    } else {
        a + b
    }
}

/// The one-line progress report:
/// `Success: {fresh+skipped}/{bytes}, Fail: {count}/{bytes}, Skip: {count}/{bytes}`,
/// with every number in plain decimal bytes.
pub open spec fn spec_status_line(s: RuntimeSnapshot) -> Seq<char> {
    "Success: "@ + dec_of(spec_sat_add(s.completed_count as int, s.download_count as int) as nat)
        + "/"@ + dec_of(spec_sat_add(s.completed_bytes as int, s.download_bytes as int) as nat)
        + ", Fail: "@ + dec_of(s.uncompleted_count as nat) + "/"@ + dec_of(
        s.uncompleted_bytes as nat,
    ) + ", Skip: "@ + dec_of(s.download_count as nat) + "/"@ + dec_of(s.download_bytes as nat)
}

impl RuntimeSnapshot {
    /// Renders the progress line for this snapshot.
    pub fn status_line(&self) -> (r: String)
        ensures
            r@ == spec_status_line(*self),
    {
        let mut s = String::new();
        s.append("Success: ");
        push_dec(self.completed_count.saturating_add(self.download_count), &mut s);
        s.append("/");
        push_dec(self.completed_bytes.saturating_add(self.download_bytes), &mut s);
        s.append(", Fail: ");
        push_dec(self.uncompleted_count, &mut s);
        s.append("/");
        push_dec(self.uncompleted_bytes, &mut s);
        s.append(", Skip: ");
        push_dec(self.download_count, &mut s);
        s.append("/");
        push_dec(self.download_bytes, &mut s);
        proof {
            assert(s@ =~= spec_status_line(*self));
        }
        s
    }

    /// The bytes already handled one way or another: skipped, fresh, or
    /// failed, capped at the largest `u64`.
    pub fn process_bytes(&self) -> (r: u64)
        ensures
            r == spec_sat_add(
                spec_sat_add(self.download_bytes as int, self.completed_bytes as int),
                self.uncompleted_bytes as int,
            ),
    {
        self.download_bytes.saturating_add(self.completed_bytes).saturating_add(
            self.uncompleted_bytes,
        )
    }

    /// The bytes still owed: the requirement minus what was handled,
    /// floored at zero.
    pub fn remaining_bytes(&self) -> (r: u64)
        ensures
            r == if self.require_bytes as int >= spec_sat_add(
                spec_sat_add(self.download_bytes as int, self.completed_bytes as int),
                self.uncompleted_bytes as int,
            ) {
                self.require_bytes as int - spec_sat_add(
                    spec_sat_add(self.download_bytes as int, self.completed_bytes as int),
                    self.uncompleted_bytes as int,
                )
            } else {
                0int
            },
    {
        self.require_bytes.saturating_sub(self.process_bytes())
    }
}

/// The average transfer rate for the progress line: bytes per second
/// over `use_ms`, falling back to the skip-check rate when no fresh
/// bytes moved yet; zero before the clock ticks.
pub fn speed_avg(period_bytes: u64, download_bytes: u64, use_ms: u64) -> (r: u128)
    ensures
        r == if use_ms == 0 {
            0int
        } else if period_bytes * 1000 / (use_ms as int) != 0 {
            period_bytes * 1000 / (use_ms as int)
        } else {
            download_bytes as int / (use_ms as int)
        },
{
    if use_ms == 0 {
        return 0;
    }
    let speed: u128 = (period_bytes as u128) * 1000 / (use_ms as u128);
    if speed != 0 {
        speed
    } else {
        (download_bytes as u128) / (use_ms as u128)
    }
}

/// How many seconds remain at the given rate; zero when the rate is
/// zero.
pub fn remaining_time_secs(remaining_bytes: u64, speed: u128) -> (r: u128)
    ensures
        r == if speed == 0 {
            0int
        } else {
            remaining_bytes as int / (speed as int)
        },
{
    if speed == 0 {
        0
    } else {
        (remaining_bytes as u128) / speed
    }
}

} // verus!
