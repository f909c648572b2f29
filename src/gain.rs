//! Master and local gain domains, and the mixer that combines them.
use vstd::prelude::*;

verus! {

/// Lowest master gain (silence).
pub const MASTER_MIN: i32 = 0;

/// Highest master gain (twice the nominal volume).
pub const MASTER_MAX: i32 = 200;

/// Lowest local gain offset.
pub const LOCAL_MIN: i32 = -200;

/// Highest local gain offset.
pub const LOCAL_MAX: i32 = 200;

/// Unity gain, the master gain a fresh console starts with.
pub const UNITY: i32 = 100;

pub open spec fn clamp_spec(v: int, lo: int, hi: int) -> int {
    if v < lo {
        lo
    } else if v > hi {
        hi
    } else {
        v
    }
}

pub open spec fn master_in_range(g: int) -> bool {
    MASTER_MIN <= g <= MASTER_MAX
}

pub open spec fn local_in_range(l: int) -> bool {
    LOCAL_MIN <= l <= LOCAL_MAX
}

/// The device volume for a master and a local gain: their sum, floored at
/// silence. No upper clamp is applied to the sum.
pub open spec fn mixed_spec(master: int, local: int) -> int {
    if master + local <= 0 {
        0
    } else {
        master + local
    }
}

/// Clamps a requested master gain into `[MASTER_MIN, MASTER_MAX]`.
pub fn clamp_master(v: i64) -> (r: i32)
    ensures
        r == clamp_spec(v as int, MASTER_MIN as int, MASTER_MAX as int),
        master_in_range(r as int),
{
    if v < MASTER_MIN as i64 {
        MASTER_MIN
    } else if v > MASTER_MAX as i64 {
        MASTER_MAX
    } else {
        v as i32
    }
}

/// Clamps a requested local gain into `[LOCAL_MIN, LOCAL_MAX]`.
pub fn clamp_local(v: i64) -> (r: i32)
    ensures
        r == clamp_spec(v as int, LOCAL_MIN as int, LOCAL_MAX as int),
        local_in_range(r as int),
{
    if v < LOCAL_MIN as i64 {
        LOCAL_MIN
    } else if v > LOCAL_MAX as i64 {
        LOCAL_MAX
    } else {
        v as i32
    }
}

/// Combines a master and a local gain into the volume applied to the device.
pub fn mixed(master: i32, local: i32) -> (r: i32)
    requires
        master_in_range(master as int),
        local_in_range(local as int),
    ensures
        r == mixed_spec(master as int, local as int),
        0 <= r <= MASTER_MAX + LOCAL_MAX,
{
    let sum = master + local;
    if sum <= 0 {
        0
    } else {
        sum
    }
}

/// For every master gain in `[0, 2]` and local gain in `[-2, 2]` (in
/// hundredths), the mixed volume is the larger of silence and their sum.
pub proof fn lemma_mixed_is_floored_sum(g: int, l: int)
    requires
        master_in_range(g),
        local_in_range(l),
    ensures
        mixed_spec(g, l) == if g + l > 0 { g + l } else { 0 },
        mixed_spec(g, l) >= 0,
        mixed_spec(g, l) >= g + l,
{
}

} // verus!
