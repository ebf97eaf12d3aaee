//! Uniswap Universal Router addresses and command codes.

use vstd::prelude::*;

pub mod commands;

verus! {

/// Universal Router on Sepolia.
pub const SEPOLIA_ROUTER: &'static str = "0x3a9d48ab9751398bbfa63ad67599bb04e4bdf98b";

/// Universal Router on Ethereum mainnet.
pub const MAINNET_ROUTER: &'static str = "0x3fC91A3afd70395Cd496C647d5a6CC9D4B2b7FAD";

/// Permit2 contract address (the same on all networks).
pub const PERMIT2_ADDRESS: &'static str = "0x000000000022D473030F116dDEE9F6B43aC78BA3";

/// Lower-case form of a text, as Unicode defines it.
pub uninterp spec fn lower_of(s: Seq<char>) -> Seq<char>;

/// Relies on `str::to_lowercase`: the lower-case form depends on the
/// characters alone.
#[verifier::external_body]
fn lowercase(s: &str) -> (r: String)
    ensures
        r@ == lower_of(s@),
{
    s.to_lowercase()
}

/// The router address for a chain name already in lower case.
pub open spec fn router_for(name: Seq<char>) -> Option<Seq<char>> {
    if name == "sepolia"@ {
        Some(SEPOLIA_ROUTER@)
    } else if name == "ethereum"@ || name == "mainnet"@ {
        Some(MAINNET_ROUTER@)
    } else {
        None
    }
}

/// The router address for a chain name given in lower case.
pub fn router_address_for_lowercase(name: &str) -> (address: Option<&'static str>)
    ensures
        match address {
            Some(a) => router_for(name@) == Some(a@),
            None => router_for(name@).is_none(),
        },
{
    let name = String::from_str(name);
    if name == String::from_str("sepolia") {
        Some(SEPOLIA_ROUTER)
    } else if name == String::from_str("ethereum") || name == String::from_str("mainnet") {
        Some(MAINNET_ROUTER)
    } else {
        None
    }
}

/// The Universal Router address for a chain, the name compared without
/// regard to case; `None` for a chain without one.
pub fn get_universal_router_address(chain: &str) -> (address: Option<&'static str>)
    ensures
        match address {
            Some(a) => router_for(lower_of(chain@)) == Some(a@),
            None => router_for(lower_of(chain@)).is_none(),
        },
{
    let name = lowercase(chain);
    router_address_for_lowercase(name.as_str())
}

} // verus!
