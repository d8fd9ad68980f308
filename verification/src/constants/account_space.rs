//! Account space calculations.

use vstd::prelude::*;

verus! {

/// Space required for the program state account, in bytes: discriminator,
/// initialization flag, four addresses, bump seed and two counters.
pub const PROGRAM_STATE: usize = 8 + 1 + 32 + 32 + 32 + 32 + 1 + 8 + 8;

} // verus!
