//! The unit-conversion policy: balances travel and are compared in the
//! smallest unit; only the presentation boundary scales them down, by an
//! exact division by the fixed scale, never feeding the scaled value back
//! into arithmetic.

use vstd::prelude::*;

verus! {

/// Smallest units (wei) in one display unit (ether): the fixed scale the
/// presentation boundary divides by.
pub const WEI_PER_ETH: u128 = 1_000_000_000_000_000_000;

/// Splits a smallest-unit amount into its display parts: the whole number
/// of ether and the remaining wei below one ether. The split is exact —
/// the parts reassemble to the amount — so no precision is lost before
/// display.
pub fn wei_to_eth_parts(wei: u128) -> (r: (u128, u64))
    ensures
        r.0 == wei / WEI_PER_ETH,
        r.1 == wei % WEI_PER_ETH,
        r.1 < WEI_PER_ETH,
        r.0 * WEI_PER_ETH + r.1 == wei,
{
    let whole = wei / WEI_PER_ETH;
    let frac_wide = wei % WEI_PER_ETH;
    proof {
        vstd::arithmetic::div_mod::lemma_fundamental_div_mod(wei as int, WEI_PER_ETH as int);
    }
    (whole, frac_wide as u64)
}

} // verus!
