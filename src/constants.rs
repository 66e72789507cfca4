use vstd::prelude::*;

verus! {

/// Denominator of a rate given in basis points.
pub const BPS: u16 = 10_000;

/// Highest fee rate, in basis points, that the platform may charge.
pub const MAX_ALLOWED_FEE_IN_BPS: u64 = 500;

} // verus!
