//! How long each phase of a match lasts. All times are in nanoseconds.

use vstd::prelude::*;

verus! {

/// Nanoseconds in a millisecond.
pub const NANOS_PER_MILLI: u64 = 1_000_000;

/// Lines that raise the level by one.
pub const LINES_PER_LEVEL: u32 = 10;

/// Soft drop divides the time of a step by this.
pub const SOFT_DROP_STEP_FACTOR: u32 = 20;

/// Soft drop divides the wait before a spawn by this.
pub const SOFT_DROP_SPAWN_FACTOR: u32 = 10;

/// The longest wait before a piece spawns, which is also the time that a
/// spawn after a hold has already waited.
pub const MIN_SPAWN_DELAY: u64 = 500_000_000;

/// How long a resting piece may be moved before it locks.
pub const LOCK_DURATION: u64 = 500_000_000;

/// How long a resting piece may be moved before it locks under soft drop.
pub const SOFT_DROP_LOCK_DURATION: u64 = 25_000_000;

/// The highest level that has a step time of its own.
pub const TOP_STEP_LEVEL: u32 = 14;

/// The time of one step down at levels 0 to `TOP_STEP_LEVEL`, in
/// milliseconds.
pub open spec fn step_table() -> Seq<nat> {
    seq![1000, 793, 618, 473, 355, 262, 190, 135, 94, 64, 43, 28, 18, 11, 7]
}

/// The time of one step down at `level` without soft drop. Levels above
/// `TOP_STEP_LEVEL` step as fast as that level.
pub open spec fn base_step(level: nat) -> nat {
    step_table()[if level < TOP_STEP_LEVEL { level as int } else { TOP_STEP_LEVEL as int }]
        * (NANOS_PER_MILLI as nat)
}

/// The time of one step at `level`, divided by `soft_drop_factor` under soft
/// drop.
pub open spec fn base_delay(level: nat, soft_drop: bool, soft_drop_factor: nat) -> nat {
    if soft_drop {
        base_step(level) / soft_drop_factor
    } else {
        base_step(level)
    }
}

/// The time between two steps down.
pub open spec fn step_delay(level: nat, soft_drop: bool) -> nat {
    base_delay(level, soft_drop, SOFT_DROP_STEP_FACTOR as nat)
}

/// The wait before a piece spawns.
pub open spec fn spawn_delay(level: nat, soft_drop: bool) -> nat {
    let base = base_delay(level, soft_drop, SOFT_DROP_SPAWN_FACTOR as nat);
    if base < MIN_SPAWN_DELAY {
        base
    } else {
        MIN_SPAWN_DELAY as nat
    }
}

/// The time after which a resting piece locks.
pub open spec fn lock_delay(soft_drop: bool) -> nat {
    if soft_drop {
        SOFT_DROP_LOCK_DURATION as nat
    } else {
        LOCK_DURATION as nat
    }
}

/// The step table falls from each level to the next.
pub proof fn lemma_step_table_falls(a: int, b: int)
    requires
        0 <= a <= b <= TOP_STEP_LEVEL,
    ensures
        step_table()[b] <= step_table()[a],
        step_table().len() == TOP_STEP_LEVEL + 1,
{
}

/// A higher level never steps more slowly: the step delay does not grow with
/// the level, with soft drop and without.
pub proof fn lemma_step_delay_never_grows(lower: nat, higher: nat, soft_drop: bool)
    requires
        lower <= higher,
    ensures
        step_delay(higher, soft_drop) <= step_delay(lower, soft_drop),
{
    let a = if lower < TOP_STEP_LEVEL { lower as int } else { TOP_STEP_LEVEL as int };
    let b = if higher < TOP_STEP_LEVEL { higher as int } else { TOP_STEP_LEVEL as int };
    lemma_step_table_falls(a, b);
    assert(base_step(higher) <= base_step(lower)) by (nonlinear_arith)
        requires
            step_table()[b] <= step_table()[a],
            base_step(higher) == step_table()[b] * NANOS_PER_MILLI,
            base_step(lower) == step_table()[a] * NANOS_PER_MILLI,
    ;
    if soft_drop {
        assert(base_step(higher) / 20 <= base_step(lower) / 20);
    }
}

/// From `TOP_STEP_LEVEL` on the step delay stays what it is at that level.
pub proof fn lemma_step_delay_floor(level: nat, soft_drop: bool)
    requires
        level >= TOP_STEP_LEVEL,
    ensures
        step_delay(level, soft_drop) == step_delay(TOP_STEP_LEVEL as nat, soft_drop),
{
}

} // verus!
