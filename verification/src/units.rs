//! Fixed-point conventions shared by the whole simulation.

use vstd::prelude::*;

verus! {

/// Number of fixed-point steps in one world unit.
pub const UNIT: i64 = 1_000;

/// Number of nanoseconds in one second.
pub const NANOS_PER_SECOND: u64 = 1_000_000_000;

/// Change produced by a `rate` (per second) applied for `nanos` nanoseconds,
/// rounded toward zero.
pub open spec fn displacement(rate: int, nanos: int) -> int {
    if rate >= 0 {
        (rate * nanos) / (NANOS_PER_SECOND as int)
    } else {
        -(((-rate) * nanos) / (NANOS_PER_SECOND as int))
    }
}

/// No displacement over a representable time is larger than this.
pub const DISPLACEMENT_LIMIT: i128 = 0x4_0000_0000_0000_0000_0000_0000;

/// Whether `value` can be stored in a coordinate.
pub open spec fn representable(value: int) -> bool {
    i64::MIN <= value <= i64::MAX
}

/// Computes [`displacement`] without intermediate overflow.
pub fn displacement_over(rate: i64, delta_nanos: u64) -> (moved: i128)
    ensures
        moved == displacement(rate as int, delta_nanos as int),
        rate >= 0 ==> 0 <= moved <= DISPLACEMENT_LIMIT,
        rate <= 0 ==> -DISPLACEMENT_LIMIT <= moved <= 0,
{
    let magnitude: u128 = if rate >= 0 {
        rate as u128
    } else {
        (-(rate as i128)) as u128
    };
    assert(magnitude * delta_nanos <= 0x8000_0000_0000_0000 * 0xffff_ffff_ffff_ffff)
        by (nonlinear_arith)
        requires
            0 <= magnitude <= 0x8000_0000_0000_0000,
            0 <= delta_nanos <= 0xffff_ffff_ffff_ffff,
    ;
    assert(magnitude == 0 ==> magnitude * delta_nanos == 0) by (nonlinear_arith);
    let product: u128 = magnitude * (delta_nanos as u128);
    let travelled: u128 = product / (NANOS_PER_SECOND as u128);
    if rate >= 0 {
        travelled as i128
    } else {
        -(travelled as i128)
    }
}

} // verus!
