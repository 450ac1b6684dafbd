//! The output-capacity schedule: where the first guess starts, how it grows,
//! and the hard ceiling that stops the growth.

use vstd::prelude::*;

verus! {

/// Hard ceiling on the output capacity: 256 MiB.
pub const OUTPUT_CEILING: usize = 256 * 1024 * 1024;

/// The first capacity tried for an input of `n` bytes: four times the input
/// length, at least one byte (so doubling makes progress on an empty input),
/// and never above the ceiling.
pub open spec fn initial_capacity(n: nat) -> nat {
    if 4 * n > OUTPUT_CEILING {
        OUTPUT_CEILING as nat
    } else if n == 0 {
        1
    } else {
        4 * n
    }
}

/// The largest capacity the doubling schedule reaches when it starts at `c`:
/// the capacity is doubled as long as the doubled value stays within the
/// ceiling.
pub open spec fn last_capacity(c: nat) -> nat
    decreases OUTPUT_CEILING - c,
{
    if c < 1 || c > OUTPUT_CEILING {
        c
    } else if 2 * c > OUTPUT_CEILING {
        c
    } else {
        last_capacity(2 * c)
    }
}

/// The largest capacity ever offered to the codec for an input of `n` bytes.
pub open spec fn grown_capacity(n: nat) -> nat {
    last_capacity(initial_capacity(n))
}

/// The schedule only grows: every starting point is at most the last
/// capacity it leads to.
pub proof fn lemma_last_capacity_grows(c: nat)
    ensures
        c <= last_capacity(c),
    decreases OUTPUT_CEILING - c,
{
    if 1 <= c <= OUTPUT_CEILING && 2 * c <= OUTPUT_CEILING {
        lemma_last_capacity_grows(2 * c);
    }
}

/// The schedule respects the ceiling: started within it, it stays within it.
pub proof fn lemma_last_capacity_within_ceiling(c: nat)
    requires
        c <= OUTPUT_CEILING,
    ensures
        last_capacity(c) <= OUTPUT_CEILING,
    decreases OUTPUT_CEILING - c,
{
    if 1 <= c && 2 * c <= OUTPUT_CEILING {
        lemma_last_capacity_within_ceiling(2 * c);
    }
}

/// The schedule stops only once doubling would overshoot: the last capacity
/// is always more than half the ceiling, so any output of at most 128 MiB
/// fits in some capacity the schedule offers.
pub proof fn lemma_last_capacity_past_half(c: nat)
    requires
        1 <= c <= OUTPUT_CEILING,
    ensures
        2 * last_capacity(c) > OUTPUT_CEILING,
    decreases OUTPUT_CEILING - c,
{
    if 2 * c <= OUTPUT_CEILING {
        lemma_last_capacity_past_half(2 * c);
    }
}

/// The first guess is positive and within the ceiling, whatever the input
/// length.
pub proof fn lemma_initial_capacity_in_range(n: nat)
    ensures
        1 <= initial_capacity(n) <= OUTPUT_CEILING,
{
}

} // verus!
