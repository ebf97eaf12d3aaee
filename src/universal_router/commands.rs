//! Universal Router command codes.

use vstd::prelude::*;

verus! {

/// V3 swap with an exact input amount.
pub const V3_SWAP_EXACT_IN: u8 = 0x00;

/// V3 swap with an exact output amount.
pub const V3_SWAP_EXACT_OUT: u8 = 0x01;

/// Token transfer through Permit2.
pub const PERMIT2_TRANSFER_FROM: u8 = 0x02;

/// Wrap ETH into WETH.
pub const WRAP_ETH: u8 = 0x0b;

/// Unwrap WETH into ETH.
pub const UNWRAP_WETH: u8 = 0x0c;

/// Lets a command revert without reverting the whole transaction.
pub const FLAG_ALLOW_REVERT: u8 = 0x80;

} // verus!
