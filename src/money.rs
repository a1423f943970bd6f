use vstd::prelude::*;

verus! {

/// Amount units per currency unit: amounts are ten-thousandths.
pub const AMOUNT_SCALE: u64 = 10000;

/// Tax rate, in percent of the subtotal.
pub const TAX_RATE_PERCENT: u64 = 8;

/// Largest subtotal an order may carry (10^14 currency units), so that tax
/// and total always fit in a `u64`.
pub const MAX_SUBTOTAL: u64 = 1_000_000_000_000_000_000;

/// Tax owed on a subtotal.
pub open spec fn tax_of(subtotal: int) -> int {
    subtotal * TAX_RATE_PERCENT as int / 100
}

/// Tax owed on `subtotal`.
pub fn tax_for(subtotal: u64) -> (r: u64)
    requires
        subtotal <= MAX_SUBTOTAL,
    ensures
        r as int == tax_of(subtotal as int),
        r <= subtotal,
{
    assert(subtotal * 8 <= MAX_SUBTOTAL * 8) by (nonlinear_arith)
        requires subtotal <= MAX_SUBTOTAL;
    subtotal * TAX_RATE_PERCENT / 100
}

} // verus!
