//! Contract call data.

pub mod weth;
