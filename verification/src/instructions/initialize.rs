//! Initializing the configuration.

use vstd::prelude::*;
use crate::address::Address;
use crate::error::CurveLaunchpadError;
use crate::state::Global;

verus! {

/// The token supply of a curve created under the default parameters.
pub const DEFAULT_TOKEN_SUPPLY: u64 = 1_000_000_000_000_000;

/// The tokens for sale on a curve created under the default parameters.
pub const DEFAULT_INITIAL_REAL_TOKEN_RESERVES: u64 = 793_100_000_000_000;

/// The virtual currency reserve of a curve created under the default
/// parameters.
pub const DEFAULT_INITIAL_VIRTUAL_SOL_RESERVES: u64 = 30_000_000_000;

/// The virtual token reserve of a curve created under the default parameters.
pub const DEFAULT_INITIAL_VIRTUAL_TOKEN_RESERVES: u64 = 1_073_000_000_000_000;

/// The default fee rate: half a percent.
pub const DEFAULT_FEE_BASIS_POINTS: u64 = 50;

/// What the initialization of the configuration reads and writes.
#[derive(Clone, Copy, Debug, PartialEq, Eq)]
pub struct Initialize {
    /// Who initializes, and from then on may replace the parameters.
    pub authority: Address,
    pub global: Global,
}

impl Initialize {
    /// The configuration once initialized: owned by the authority, with the
    /// default parameters. The fee recipient stays as it was.
    pub open spec fn initialized_global(self) -> Global {
        Global {
            authority: self.authority,
            initialized: true,
            fee_recipient: self.global.fee_recipient,
            initial_virtual_token_reserves: DEFAULT_INITIAL_VIRTUAL_TOKEN_RESERVES,
            initial_virtual_sol_reserves: DEFAULT_INITIAL_VIRTUAL_SOL_RESERVES,
            initial_real_token_reserves: DEFAULT_INITIAL_REAL_TOKEN_RESERVES,
            initial_token_supply: DEFAULT_TOKEN_SUPPLY,
            fee_basis_points: DEFAULT_FEE_BASIS_POINTS,
        }
    }
}

/// Initializes the configuration, once.
///
/// Fails with `AlreadyInitialized`, and changes nothing, if it was
/// initialized before. Otherwise the configuration gets its authority and the
/// default parameters, under which new curves start out well formed.
pub fn initialize(ctx: &mut Initialize) -> (initialized: Result<(), CurveLaunchpadError>)
    ensures
        old(ctx).global.initialized ==> initialized == Err::<(), CurveLaunchpadError>(
            CurveLaunchpadError::AlreadyInitialized,
        ) && *final(ctx) == *old(ctx),
        !old(ctx).global.initialized ==> initialized == Ok::<(), CurveLaunchpadError>(())
            && *final(ctx) == (Initialize {
            global: old(ctx).initialized_global(),
            ..*old(ctx)
        }) && final(ctx).global.seeds_well_formed_curves(),
{
    if ctx.global.initialized {
        return Err(CurveLaunchpadError::AlreadyInitialized);
    }
    ctx.global.authority = ctx.authority;
    ctx.global.initialized = true;
    ctx.global.initial_token_supply = DEFAULT_TOKEN_SUPPLY;
    ctx.global.initial_real_token_reserves = DEFAULT_INITIAL_REAL_TOKEN_RESERVES;
    ctx.global.initial_virtual_sol_reserves = DEFAULT_INITIAL_VIRTUAL_SOL_RESERVES;
    ctx.global.initial_virtual_token_reserves = DEFAULT_INITIAL_VIRTUAL_TOKEN_RESERVES;
    ctx.global.fee_basis_points = DEFAULT_FEE_BASIS_POINTS;
    Ok(())
}

} // verus!
