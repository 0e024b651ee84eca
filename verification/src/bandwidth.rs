//! Token-bucket bandwidth accounting over one-second periods.
//!
//! The engine grants a range fetch permission to use `desired` bytes of
//! bandwidth only when the bytes already granted in the current period
//! leave room under `max_bs`. A periodic reset (driven by a one-second
//! timer in the surrounding application) clears the period counter and
//! wakes a bounded number of waiters. The application owns the timers,
//! the atomics and the wake primitive; this module holds the state and
//! every decision, so that the grant bound is proved for any schedule.

use vstd::prelude::*;

verus! {

/// How many waiters one period reset wakes at most.
pub const RESET_NOTIFY_CAP: u64 = 50;

/// How many grant attempts one permit call may make before it is a
/// fatal bandwidth error.
pub const PERMIT_RETRY_CAP: u64 = 1000;

/// The length of one accounting period in milliseconds.
pub const PERIOD_MS: u64 = 1000;

/// Bandwidth accounting state: the per-period byte ceiling, the bytes
/// granted in the current period, and how many tasks are waiting.
pub struct Bandwidth {
    pub max_bs: u64,
    pub period_used: u64,
    pub wait_count: u64,
}

/// The state is well formed: granted bytes never exceed the ceiling.
pub open spec fn bw_wf(b: Bandwidth) -> bool {
    b.period_used <= b.max_bs
}

/// Whether a request for `desired` bytes fits in the current period.
pub open spec fn grant_ok(b: Bandwidth, desired: u64) -> bool {
    b.period_used + desired <= b.max_bs
}

/// The state after one grant attempt: charged on success, unchanged on
/// refusal.
pub open spec fn after_attempt(b: Bandwidth, desired: u64) -> Bandwidth {
    if grant_ok(b, desired) {
        Bandwidth { period_used: (b.period_used + desired) as u64, ..b }
    } else {
        b
    }
}

/// The total bytes granted when the requests in `reqs` are attempted in
/// order against state `b`.
pub open spec fn granted_bytes(b: Bandwidth, reqs: Seq<u64>) -> nat
    decreases reqs.len(),
{
    if reqs.len() == 0 {
        0
    } else if grant_ok(b, reqs[0]) {
        (reqs[0] as nat) + granted_bytes(after_attempt(b, reqs[0]), reqs.drop_first())
    } else {
        granted_bytes(b, reqs.drop_first())
    }
}

/// Attempts never lower the period counter, and the counter absorbs
/// exactly the granted bytes.
proof fn lemma_granted_charge(b: Bandwidth, reqs: Seq<u64>)
    requires
        bw_wf(b),
    ensures
        granted_bytes(b, reqs) <= b.max_bs - b.period_used,
    decreases reqs.len(),
{
    if reqs.len() > 0 {
        lemma_granted_charge(after_attempt(b, reqs[0]), reqs.drop_first());
    }
}

/// Within one period — between two resets — the bytes granted by any
/// sequence of permit attempts total at most the configured ceiling,
/// whatever order the requests arrive in and however often they retry.
pub proof fn lemma_grants_bounded_per_period(b: Bandwidth, reqs: Seq<u64>)
    requires
        bw_wf(b),
        b.period_used == 0,
    ensures
        granted_bytes(b, reqs) <= b.max_bs,
{
    lemma_granted_charge(b, reqs);
}

/// What one permit attempt asks the caller to do next.
pub enum PermitStep {
    /// Granted; carries the bytes that were already used this period.
    Granted(u64),
    /// Refused; sleep this many milliseconds (or until woken) and retry.
    Wait(u64),
    /// The retry budget is exhausted: a fatal bandwidth error.
    Fail(crate::errors::EngineError),
}

impl Bandwidth {
    /// Fresh accounting state for a ceiling of `max_bs` bytes per period.
    pub fn new(max_bs: u64) -> (b: Self)
        ensures
            b.max_bs == max_bs,
            b.period_used == 0,
            b.wait_count == 0,
            bw_wf(b),
    {
        Bandwidth { max_bs, period_used: 0, wait_count: 0 }
    }

    /// One grant attempt: charges the period counter and returns the
    /// previously used bytes, or refuses and leaves the state unchanged.
    pub fn try_permit(&mut self, desired: u64) -> (r: Option<u64>)
        requires
            bw_wf(*old(self)),
        ensures
            bw_wf(*final(self)),
            *final(self) == after_attempt(*old(self), desired),
            r is Some <==> grant_ok(*old(self), desired),
            r is Some ==> r == Some(old(self).period_used),
    {
        if desired <= self.max_bs && self.period_used <= self.max_bs - desired {
            let prev = self.period_used;
            self.period_used = self.period_used + desired;
            Some(prev)
        } else {
            None
        }
    }

    /// How long a refused request sleeps: until the current period ends,
    /// and at most one full period when the period is already over.
    pub fn wait_hint_ms(&self, period_start: u64, now: u64) -> (ms: u64)
        requires
            period_start + PERIOD_MS <= u64::MAX,
        ensures
            ms == if now >= period_start + PERIOD_MS {
                PERIOD_MS as int
            } else {
                period_start + PERIOD_MS - now
            },
    {
        if now >= period_start + PERIOD_MS {
            PERIOD_MS
        } else {
            period_start + PERIOD_MS - now
        }
    }

    /// One iteration of the permit loop: grant, ask the caller to wait,
    /// or give up once `attempts` reaches the retry cap. A refusal
    /// registers the caller as a waiter; the caller reports back through
    /// [`Bandwidth::waiter_woke`] after its sleep.
    pub fn permit_step(&mut self, desired: u64, attempts: &mut u64, period_start: u64, now: u64) -> (
        r: PermitStep)
        requires
            bw_wf(*old(self)),
            period_start + PERIOD_MS <= u64::MAX,
            old(self).wait_count < u64::MAX,
        ensures
            bw_wf(*final(self)),
            *old(attempts) >= PERMIT_RETRY_CAP ==> ((r is Fail) && *final(self) == *old(self)
                && *final(attempts) == *old(attempts)),
            *old(attempts) < PERMIT_RETRY_CAP ==> final(self).period_used == after_attempt(
                *old(self),
                desired,
            ).period_used,
            *old(attempts) < PERMIT_RETRY_CAP && grant_ok(*old(self), desired) ==> (r == (
            PermitStep::Granted(old(self).period_used)) && *final(self) == after_attempt(
                *old(self),
                desired,
            ) && *final(attempts) == *old(attempts)),
            *old(attempts) < PERMIT_RETRY_CAP && !grant_ok(*old(self), desired) ==> ((r matches
                PermitStep::Wait(_)) && final(self).wait_count == old(self).wait_count + 1
                && final(self).period_used == old(self).period_used
                && *final(attempts) == *old(attempts) + 1),
    {
        if *attempts >= PERMIT_RETRY_CAP {
            return PermitStep::Fail(crate::errors::EngineError::Fatal);
        }
        match self.try_permit(desired) {
            Some(prev) => PermitStep::Granted(prev),
            None => {
                self.wait_count = self.wait_count + 1;
                *attempts = *attempts + 1;
                PermitStep::Wait(self.wait_hint_ms(period_start, now))
            },
        }
    }

    /// A refused caller finished its sleep and left the wait queue.
    pub fn waiter_woke(&mut self)
        requires
            old(self).wait_count > 0,
        ensures
            *final(self) == (Bandwidth { wait_count: (old(self).wait_count - 1) as u64, ..*old(self) }),
    {
        self.wait_count = self.wait_count - 1;
    }

    /// Ends the current period: clears the period counter and reports the
    /// achieved rate in bytes per second over the elapsed time.
    pub fn reset_period(&mut self, elapsed_ms: u64) -> (rate: u64)
        requires
            old(self).period_used <= u64::MAX / PERIOD_MS,
        ensures
            *final(self) == (Bandwidth { period_used: 0, ..*old(self) }),
            rate == if elapsed_ms == 0 {
                0int
            } else {
                old(self).period_used * PERIOD_MS / elapsed_ms as int
            },
    {
        let used = self.period_used;
        self.period_used = 0;
        if elapsed_ms == 0 {
            return 0;
        }
        proof {
            assert(used * PERIOD_MS <= (u64::MAX / PERIOD_MS) * PERIOD_MS) by (nonlinear_arith)
                requires
                    used <= u64::MAX / PERIOD_MS,
            ;
            assert((u64::MAX / PERIOD_MS) * (PERIOD_MS as int) <= u64::MAX) by (nonlinear_arith)
                requires
                    PERIOD_MS > 0,
            ;
        }
        used * PERIOD_MS / elapsed_ms
    }

    /// How many waiters a period reset should wake: all of them, up to
    /// the notify cap.
    pub fn notify_quota(&self) -> (n: u64)
        ensures
            n == if self.wait_count < RESET_NOTIFY_CAP {
                self.wait_count
            } else {
                RESET_NOTIFY_CAP
            },
    {
        if self.wait_count < RESET_NOTIFY_CAP {
            self.wait_count
        } else {
            RESET_NOTIFY_CAP
        }
    }
}

} // verus!
