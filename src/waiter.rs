//! Interruptible waiter: a wait cut into short quanta, with the shutdown flag
//! checked before each one.
use vstd::prelude::*;

verus! {

/// Length of one polling quantum, in milliseconds. It bounds how long a wait
/// can outlast a shutdown request.
pub const QUANTUM_MS: u64 = 100;

/// How a wait ended.
#[derive(Clone, Copy, Debug, PartialEq, Eq, Structural)]
pub enum WaitEnd {
    /// The whole duration went by.
    Elapsed,
    /// Shutdown was observed before the duration was over.
    Interrupted,
}

/// What the host does next while waiting.
#[derive(Clone, Copy, Debug, PartialEq, Eq, Structural)]
pub enum WaitStep {
    /// Sleep this many milliseconds, then call `step` again with the flag.
    Sleep(u64),
    /// The wait is over.
    Done(WaitEnd),
}

/// The next sleep: one quantum, or what remains if that is shorter.
pub open spec fn quantum_of(remaining: nat) -> nat {
    if remaining < QUANTUM_MS as nat {
        remaining
    } else {
        QUANTUM_MS as nat
    }
}

/// A whole wait of `remaining` milliseconds, where `flags[i]` is the shutdown
/// flag as seen at the `i`-th check: the time slept, and how the wait ended
/// (`None` while it has not ended after the checks given).
pub open spec fn wait_run(remaining: nat, flags: Seq<bool>) -> (nat, Option<WaitEnd>)
    decreases flags.len(),
{
    if flags.len() == 0 {
        (0, None)
    } else if flags[0] {
        (0, Some(WaitEnd::Interrupted))
    } else if remaining == 0 {
        (0, Some(WaitEnd::Elapsed))
    } else {
        let q = quantum_of(remaining);
        let rest = wait_run((remaining - q) as nat, flags.drop_first());
        (q + rest.0, rest.1)
    }
}

/// A wait in progress: the milliseconds still to go.
pub struct Waiter {
    remaining_ms: u64,
}

impl View for Waiter {
    type V = nat;

    closed spec fn view(&self) -> nat {
        self.remaining_ms as nat
    }
}

impl Waiter {
    /// A wait of `duration_ms` milliseconds.
    pub fn new(duration_ms: u64) -> (r: Waiter)
        ensures
            r@ == duration_ms as nat,
    {
        Waiter { remaining_ms: duration_ms }
    }

    /// A wait of `secs` seconds, capped at the largest number of milliseconds
    /// a `u64` holds.
    pub fn from_secs(secs: u64) -> (r: Waiter)
        ensures
            secs as nat * 1000 <= u64::MAX ==> r@ == secs as nat * 1000,
            secs as nat * 1000 > u64::MAX ==> r@ == u64::MAX as nat,
    {
        if secs > u64::MAX / 1000 {
            Waiter { remaining_ms: u64::MAX }
        } else {
            Waiter { remaining_ms: secs * 1000 }
        }
    }

    /// One check of the shutdown flag. A set flag ends the wait at once;
    /// otherwise the host sleeps one quantum, or ends the wait once the
    /// duration is used up.
    pub fn step(&mut self, shutdown: bool) -> (r: WaitStep)
        ensures
            shutdown ==> r == WaitStep::Done(WaitEnd::Interrupted) && final(self)@ == old(self)@,
            !shutdown && old(self)@ == 0 ==> r == WaitStep::Done(WaitEnd::Elapsed) && final(self)@
                == 0,
            !shutdown && old(self)@ > 0 ==> r == WaitStep::Sleep(quantum_of(old(self)@) as u64)
                && final(self)@ == old(self)@ - quantum_of(old(self)@),
    {
        if shutdown {
            WaitStep::Done(WaitEnd::Interrupted)
        } else if self.remaining_ms == 0 {
            WaitStep::Done(WaitEnd::Elapsed)
        } else {
            let q: u64 = if self.remaining_ms < QUANTUM_MS {
                self.remaining_ms
            } else {
                QUANTUM_MS
            };
            self.remaining_ms = self.remaining_ms - q;
            WaitStep::Sleep(q)
        }
    }
}

/// A shutdown request cuts a wait short: if the flag is first seen set at
/// check `k`, the wait has ended there, has slept no more than `k` quanta nor
/// more than its duration, and has slept at most one quantum after the last
/// check that saw the flag clear.
pub proof fn lemma_wait_interruptible(d: nat, flags: Seq<bool>, k: int)
    requires
        0 <= k < flags.len(),
        flags[k],
        forall|j: int| 0 <= j < k ==> !flags[j],
    ensures
        wait_run(d, flags).1 is Some,
        wait_run(d, flags).0 <= d,
        wait_run(d, flags).0 <= k * QUANTUM_MS,
        k > 0 ==> wait_run(d, flags).0 <= wait_run(d, flags.take(k - 1)).0 + QUANTUM_MS,
    decreases k,
{
    if k > 0 && d > 0 {
        let q = quantum_of(d);
        let rest = flags.drop_first();
        assert forall|j: int| 0 <= j < k - 1 implies !rest[j] by {
            assert(rest[j] == flags[j + 1]);
        }
        lemma_wait_interruptible((d - q) as nat, rest, k - 1);
        if k > 1 {
            assert(flags.take(k - 1).drop_first() =~= rest.take(k - 2));
            assert(flags.take(k - 1)[0] == flags[0]);
        }
    }
}

/// Without a shutdown request, a wait checked often enough ends as elapsed
/// after sleeping exactly its duration.
pub proof fn lemma_wait_elapses(d: nat, flags: Seq<bool>)
    requires
        forall|j: int| 0 <= j < flags.len() ==> !flags[j],
        d + QUANTUM_MS <= flags.len() * QUANTUM_MS,
    ensures
        wait_run(d, flags) == (d, Some(WaitEnd::Elapsed)),
    decreases flags.len(),
{
    if d > 0 {
        let q = quantum_of(d);
        let rest = flags.drop_first();
        assert forall|j: int| 0 <= j < rest.len() implies !rest[j] by {
            assert(rest[j] == flags[j + 1]);
        }
        lemma_wait_elapses((d - q) as nat, rest);
    }
}

} // verus!
