//! Fee parameters, kept for later use.

use vstd::prelude::*;

verus! {

/// Basis points charged as a fee: none.
pub const FEE_BASIS_POINTS: u16 = 0;

/// Upper bound on the fee: one percent.
pub const MAX_FEE_BASIS_POINTS: u16 = 100;

} // verus!
