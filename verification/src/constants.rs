//! The addresses of the Liquidity Network hubs.

use vstd::prelude::*;

verus! {

/// The address of the mainnet hub.
pub const MAINNET_HUB_ADDRESS: &'static str = "https://public.liquidity.network";

/// The address of the testnet hub.
pub const TESTNET_HUB_ADDRESS: &'static str = "https://rinkeby.liquidity.network";

/// The address of the regtest hub.
pub const REGTEST_HUB_ADDRESS: &'static str = "https://limbo.liquidity.network";

} // verus!
