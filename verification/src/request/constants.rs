//! The hosts of the Liquidity Network hubs.

use vstd::prelude::*;

verus! {

/// The host of the mainnet hub.
pub const MAINNET_HUB_HOST: &'static str = "public.liquidity.network";

/// The host of the testnet hub.
pub const TESTNET_HUB_HOST: &'static str = "rinkeby.liquidity.network";

/// The host of the regtest hub.
pub const REGTEST_HUB_HOST: &'static str = "limbo.liquidity.network";

} // verus!
