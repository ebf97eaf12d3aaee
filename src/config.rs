//! Deployment settings.

use vstd::prelude::*;

verus! {

/// Alchemy API key for the Sepolia RPC endpoint.
pub const ALCHEMY_API_KEY: &'static str = "YOUR_ALCHEMY_API_KEY";

/// Base of the Alchemy Sepolia RPC URL; the key follows.
pub const ALCHEMY_SEPOLIA_BASE: &'static str = "https://eth-sepolia.g.alchemy.com/v2/";

/// The Alchemy Sepolia RPC URL for the configured key.
pub fn get_alchemy_sepolia_url() -> (url: String)
    ensures
        url@ == ALCHEMY_SEPOLIA_BASE@ + ALCHEMY_API_KEY@,
{
    let mut url = String::from_str(ALCHEMY_SEPOLIA_BASE);
    url.append(ALCHEMY_API_KEY);
    url
}

} // verus!
