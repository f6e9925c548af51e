//! Per-invocation cost estimation from billing data and hardware architecture.

use vstd::arithmetic::div_mod::lemma_div_is_ordered;
use vstd::arithmetic::mul::lemma_mul_inequality;
use vstd::prelude::*;

use crate::constants::{
    ARM_PRICE_PICOS_PER_GB_SECOND, BASE_INVOCATION_PRICE_PICOS, MS_MB_PER_GB_SECOND,
    X86_PRICE_PICOS_PER_GB_SECOND,
};
use crate::fixed::Fixed;

verus! {

/// The hardware target the process runs on, resolved once at start time.
/// Pricing is known for the two 64-bit targets; on anything else the cost of
/// an invocation is unknowable and estimated as zero.
#[derive(Clone, Copy, PartialEq, Eq, Structural, Debug)]
pub enum Arch {
    /// 64-bit x86.
    Amd64,
    /// 64-bit ARM.
    Arm64,
    /// Any other architecture: no price is known for it.
    Unsupported,
}

/// Price of one GB-second on the given architecture, in picodollars; zero
/// where no price is known.
pub open spec fn spec_price_picos(arch: Arch) -> int {
    match arch {
        Arch::Amd64 => X86_PRICE_PICOS_PER_GB_SECOND as int,
        Arch::Arm64 => ARM_PRICE_PICOS_PER_GB_SECOND as int,
        Arch::Unsupported => 0,
    }
}

/// Estimated cost of an invocation in picodollars: the base invocation fee
/// plus GB-seconds consumed times the per-GB-second price, rounded half up at
/// the last (twelfth) decimal place. `billed_ms * mem_mb / 1_024_000` is the
/// GB-second count, so the picodollar cost is the fee plus
/// `billed_ms * mem_mb * price / 1_024_000` rounded to the nearest integer.
/// On an unsupported architecture the cost is zero.
pub open spec fn spec_cost_picos(billed_ms: int, mem_mb: int, arch: Arch) -> int {
    if arch is Unsupported {
        0
    } else {
        BASE_INVOCATION_PRICE_PICOS + (billed_ms * mem_mb * spec_price_picos(arch)
            + (MS_MB_PER_GB_SECOND as int) / 2) / (MS_MB_PER_GB_SECOND as int)
    }
}

/// Estimated cost of one invocation in USD, as an exact twelve-digit decimal.
///
/// The product of the two inputs must be representable in 64 bits so that the
/// exact picodollar amount fits the result type.
pub fn estimate_cost_usd(billed_duration_ms: u64, memory_size_mb: u64, arch: Arch) -> (r: Fixed)
    requires
        (billed_duration_ms as int) * (memory_size_mb as int) <= u64::MAX as int,
    ensures
        r@ == spec_cost_picos(billed_duration_ms as int, memory_size_mb as int, arch),
        arch is Unsupported ==> r@ == 0,
{
    let price: u128 = match arch {
        Arch::Amd64 => X86_PRICE_PICOS_PER_GB_SECOND,
        Arch::Arm64 => ARM_PRICE_PICOS_PER_GB_SECOND,
        Arch::Unsupported => {
            return Fixed::zero();
        },
    };
    proof {
        assert((billed_duration_ms as int) * (memory_size_mb as int) >= 0) by (nonlinear_arith);
    }
    let gb_ms_mb: u128 = (billed_duration_ms as u128) * (memory_size_mb as u128);
    proof {
        assert(gb_ms_mb * price <= 0xffff_ffff_ffff_ffff * 16_666_700) by (nonlinear_arith)
            requires
                gb_ms_mb <= 0xffff_ffff_ffff_ffff,
                0 <= price <= 16_666_700,
        ;
    }
    let scaled: u128 = gb_ms_mb * price;
    let cost: u128 = BASE_INVOCATION_PRICE_PICOS + (scaled + MS_MB_PER_GB_SECOND / 2)
        / MS_MB_PER_GB_SECOND;
    Fixed { picos: cost }
}

/// For a fixed memory size, the estimated cost never decreases as the billed
/// duration grows.
pub proof fn lemma_cost_monotone_in_billed_duration(b1: int, b2: int, mem_mb: int, arch: Arch)
    requires
        0 <= b1 <= b2,
        0 <= mem_mb,
    ensures
        spec_cost_picos(b1, mem_mb, arch) <= spec_cost_picos(b2, mem_mb, arch),
{
    if !(arch is Unsupported) {
        let p = spec_price_picos(arch);
        lemma_mul_inequality(b1, b2, mem_mb);
        lemma_mul_inequality(b1 * mem_mb, b2 * mem_mb, p);
        lemma_div_is_ordered(
            b1 * mem_mb * p + (MS_MB_PER_GB_SECOND as int) / 2,
            b2 * mem_mb * p + (MS_MB_PER_GB_SECOND as int) / 2,
            MS_MB_PER_GB_SECOND as int,
        );
    }
}

/// For a fixed billed duration, the estimated cost never decreases as the
/// memory size grows.
pub proof fn lemma_cost_monotone_in_memory_size(billed_ms: int, m1: int, m2: int, arch: Arch)
    requires
        0 <= billed_ms,
        0 <= m1 <= m2,
    ensures
        spec_cost_picos(billed_ms, m1, arch) <= spec_cost_picos(billed_ms, m2, arch),
{
    if !(arch is Unsupported) {
        let p = spec_price_picos(arch);
        assert(billed_ms * m1 <= billed_ms * m2) by (nonlinear_arith)
            requires
                0 <= billed_ms,
                m1 <= m2,
        ;
        lemma_mul_inequality(billed_ms * m1, billed_ms * m2, p);
        lemma_div_is_ordered(
            billed_ms * m1 * p + (MS_MB_PER_GB_SECOND as int) / 2,
            billed_ms * m2 * p + (MS_MB_PER_GB_SECOND as int) / 2,
            MS_MB_PER_GB_SECOND as int,
        );
    }
}

} // verus!
