//! Replacing the parameters for new curves.

use vstd::prelude::*;
use crate::address::Address;
use crate::error::CurveLaunchpadError;
use crate::state::Global;

verus! {

/// What a change of parameters reads and writes.
#[derive(Clone, Copy, Debug, PartialEq, Eq)]
pub struct SetParams {
    /// Who asks for the change.
    pub user: Address,
    pub global: Global,
}

/// Replaces the reserves and supply that new curves start with, and the fee
/// rate.
///
/// Fails with `NotInitialized` while the configuration is not initialized,
/// and with `InvalidAuthority` if `ctx.user` is not its authority; either way
/// nothing changes. Curves that exist keep their reserves.
pub fn set_params(
    ctx: &mut SetParams,
    initial_virtual_token_reserves: u64,
    initial_virtual_sol_reserves: u64,
    initial_real_token_reserves: u64,
    initial_token_supply: u64,
    fee_basis_points: u64,
) -> (set: Result<(), CurveLaunchpadError>)
    ensures
        !old(ctx).global.initialized ==> set == Err::<(), CurveLaunchpadError>(
            CurveLaunchpadError::NotInitialized,
        ) && *final(ctx) == *old(ctx),
        old(ctx).global.initialized && old(ctx).user != old(ctx).global.authority ==> set == Err::<
            (),
            CurveLaunchpadError,
        >(CurveLaunchpadError::InvalidAuthority) && *final(ctx) == *old(ctx),
        old(ctx).global.initialized && old(ctx).user == old(ctx).global.authority ==> set == Ok::<
            (),
            CurveLaunchpadError,
        >(()) && *final(ctx) == (SetParams {
            global: Global {
                initial_virtual_token_reserves,
                initial_virtual_sol_reserves,
                initial_real_token_reserves,
                initial_token_supply,
                fee_basis_points,
                ..old(ctx).global
            },
            ..*old(ctx)
        }),
{
    if !ctx.global.initialized {
        return Err(CurveLaunchpadError::NotInitialized);
    }
    if !ctx.user.same_as(&ctx.global.authority) {
        return Err(CurveLaunchpadError::InvalidAuthority);
    }
    ctx.global.initial_virtual_token_reserves = initial_virtual_token_reserves;
    ctx.global.initial_virtual_sol_reserves = initial_virtual_sol_reserves;
    ctx.global.initial_real_token_reserves = initial_real_token_reserves;
    ctx.global.initial_token_supply = initial_token_supply;
    ctx.global.fee_basis_points = fee_basis_points;
    Ok(())
}

} // verus!
