//! Legacy numbering of the BN254 scalar operations.
//!
//! These identifiers name the same two operations as the ones in the parent
//! module; they track an older slot assignment in the host environment's
//! operation table. Exactly one numbering is active in a configuration.

use vstd::prelude::*;

verus! {

/// `BN254_SCALAR_MUL` syscall ID under the legacy numbering.
pub const BN254_SCALAR_MUL: u32 = 0x00_01_01_20;

/// `BN254_SCALAR_MAC` syscall ID under the legacy numbering.
pub const BN254_SCALAR_MAC: u32 = 0x00_01_01_21;

} // verus!
