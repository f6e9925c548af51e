//! Unit and pricing constants for the cost model and the fixed-point scale.

use vstd::prelude::*;

verus! {

/// Picounits in one whole unit: samples carry twelve fractional decimal digits.
pub const PICOS_PER_UNIT: u128 = 1_000_000_000_000;

/// Picounits of a second in one millisecond: a duration of `x` whole
/// milliseconds equals `x * PICOS_PER_MS` picounits of a second.
pub const PICOS_PER_MS: u128 = 1_000_000_000;

/// Milliseconds in one second, the divisor of the millisecond-to-second
/// conversion.
pub const MS_PER_SEC: u128 = 1000;

/// Fixed platform fee per invocation, in picodollars (0.0000002 USD).
pub const BASE_INVOCATION_PRICE_PICOS: u128 = 200_000;

/// Price of one GB-second on the 64-bit x86 target, in picodollars
/// (0.0000166667 USD).
pub const X86_PRICE_PICOS_PER_GB_SECOND: u128 = 16_666_700;

/// Price of one GB-second on the 64-bit ARM target, in picodollars
/// (0.0000133334 USD).
pub const ARM_PRICE_PICOS_PER_GB_SECOND: u128 = 13_333_400;

/// Millisecond-megabytes in one GB-second: 1000 ms per second times 1024 MB
/// per GB.
pub const MS_MB_PER_GB_SECOND: u128 = 1_024_000;

} // verus!
