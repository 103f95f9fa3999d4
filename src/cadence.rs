use vstd::prelude::*;

verus! {

/// Minimum interval between two cycle starts of the Ethereum oracle loop, in milliseconds.
pub const ETH_ORACLE_LOOP_SPEED_MS: u64 = 13000;

/// Minimum interval between two cycle starts of the Ethereum signer loop, in milliseconds.
pub const ETH_SIGNER_LOOP_SPEED_MS: u64 = 11000;

/// Minimum interval between two cycle starts of the batch relayer loop, in milliseconds.
pub const RELAYER_LOOP_SPEED_MS: u64 = 17000;

/// The poll cadence of each of the three loops, in milliseconds.
#[derive(Clone, Copy, Debug, PartialEq, Eq, Structural)]
pub struct LoopCadences {
    pub oracle_ms: u64,
    pub signer_ms: u64,
    pub relayer_ms: u64,
}

pub open spec fn min_of(a: int, b: int) -> int {
    if a <= b {
        a
    } else {
        b
    }
}

/// How long a loop still has to wait once a cycle that began at `cycle_start`
/// has finished its work at `now`.
pub open spec fn wait_needed(cadence: int, cycle_start: int, now: int) -> int {
    if now - cycle_start >= cadence {
        0
    } else {
        cadence - (now - cycle_start)
    }
}

/// When the next cycle begins: after the body has finished and the remaining
/// wait has passed.
pub open spec fn next_cycle_start(cadence: int, cycle_start: int, now: int) -> int {
    now + wait_needed(cadence, cycle_start, now)
}

impl LoopCadences {
    /// The cadences the three loops run with.
    pub fn standard() -> (r: LoopCadences)
        ensures
            r.oracle_ms == ETH_ORACLE_LOOP_SPEED_MS,
            r.signer_ms == ETH_SIGNER_LOOP_SPEED_MS,
            r.relayer_ms == RELAYER_LOOP_SPEED_MS,
    {
        LoopCadences {
            oracle_ms: ETH_ORACLE_LOOP_SPEED_MS,
            signer_ms: ETH_SIGNER_LOOP_SPEED_MS,
            relayer_ms: RELAYER_LOOP_SPEED_MS,
        }
    }

    pub open spec fn fastest(self) -> int {
        min_of(min_of(self.signer_ms as int, self.oracle_ms as int), self.relayer_ms as int)
    }

    /// The timeout for establishing the chain connections: the cadence of the
    /// fastest loop.
    pub fn connection_timeout_ms(&self) -> (r: u64)
        ensures
            r == self.fastest(),
            r <= self.oracle_ms && r <= self.signer_ms && r <= self.relayer_ms,
            r == self.oracle_ms || r == self.signer_ms || r == self.relayer_ms,
    {
        let first = if self.signer_ms <= self.oracle_ms {
            self.signer_ms
        } else {
            self.oracle_ms
        };
        if first <= self.relayer_ms {
            first
        } else {
            self.relayer_ms
        }
    }
}

/// The time a loop sleeps after a cycle that began at `cycle_start` finished
/// its work at `now` (both in milliseconds of one clock).
pub fn remaining_wait(cadence_ms: u64, cycle_start: u64, now: u64) -> (r: u64)
    requires
        cycle_start <= now,
    ensures
        r == wait_needed(cadence_ms as int, cycle_start as int, now as int),
        r <= cadence_ms,
{
    let elapsed = now - cycle_start;
    if elapsed >= cadence_ms {
        0
    } else {
        cadence_ms - elapsed
    }
}

/// Whatever time the body of a cycle takes, even none, the next cycle begins
/// no earlier than one cadence after the start of the current one, and no
/// later than needed.
pub proof fn lemma_cadence_enforced(cadence: nat, cycle_start: int, now: int)
    requires
        cycle_start <= now,
    ensures
        next_cycle_start(cadence as int, cycle_start, now) >= cycle_start + cadence,
        next_cycle_start(cadence as int, cycle_start, now) == if now >= cycle_start + cadence {
            now
        } else {
            cycle_start + cadence
        },
{
}

/// The starts of successive cycles of a loop whose first cycle begins at
/// `first_start` and whose bodies take the times in `durations`.
pub open spec fn cycle_starts(cadence: nat, first_start: int, durations: Seq<nat>) -> Seq<int>
    decreases durations.len(),
{
    if durations.len() == 0 {
        seq![first_start]
    } else {
        let next = next_cycle_start(
            cadence as int,
            first_start,
            first_start + durations[0],
        );
        seq![first_start] + cycle_starts(cadence, next, durations.drop_first())
    }
}

/// Over any run of a loop, the start of cycle n+1 is at least one cadence after
/// the start of cycle n.
pub proof fn lemma_cycle_starts_spaced(cadence: nat, first_start: int, durations: Seq<nat>, n: int)
    requires
        0 <= n < durations.len(),
    ensures
        cycle_starts(cadence, first_start, durations).len() == durations.len() + 1,
        cycle_starts(cadence, first_start, durations)[n + 1] - cycle_starts(
            cadence,
            first_start,
            durations,
        )[n] >= cadence,
    decreases durations.len(),
{
    lemma_cycle_starts_len(cadence, first_start, durations);
    let next = next_cycle_start(cadence as int, first_start, first_start + durations[0]);
    lemma_cadence_enforced(cadence, first_start, first_start + durations[0]);
    lemma_cycle_starts_len(cadence, next, durations.drop_first());
    if n > 0 {
        lemma_cycle_starts_spaced(cadence, next, durations.drop_first(), n - 1);
    }
}

proof fn lemma_cycle_starts_len(cadence: nat, first_start: int, durations: Seq<nat>)
    ensures
        cycle_starts(cadence, first_start, durations).len() == durations.len() + 1,
        cycle_starts(cadence, first_start, durations)[0] == first_start,
    decreases durations.len(),
{
    if durations.len() > 0 {
        let next = next_cycle_start(cadence as int, first_start, first_start + durations[0]);
        lemma_cycle_starts_len(cadence, next, durations.drop_first());
    }
}

} // verus!
