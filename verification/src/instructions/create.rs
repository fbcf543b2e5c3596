//! Creating a curve.

use vstd::prelude::*;
use crate::address::Address;
use crate::error::CurveLaunchpadError;
use crate::events::CreateEvent;
use crate::state::{BondingCurve, Global, Team};

verus! {

/// Everything the creation of a curve reads, and the record it fills.
#[derive(Clone, Copy, Debug, PartialEq, Eq)]
pub struct Create {
    /// The new asset.
    pub mint: Address,
    pub creator: Address,
    pub global: Global,
    /// Where the curve's record is kept.
    pub bonding_curve_address: Address,
    /// The record of the new curve. What it held before is overwritten.
    pub bonding_curve: BondingCurve,
    /// The account that holds the asset's supply for the curve.
    pub bonding_curve_token_account: Address,
}

impl Create {
    /// The curve that is created: open for trading, with no reserve currency
    /// paid in yet and everything else copied from the configuration.
    pub open spec fn seeded_curve(self, team: Team) -> BondingCurve {
        BondingCurve {
            virtual_sol_reserves: self.global.initial_virtual_sol_reserves,
            virtual_token_reserves: self.global.initial_virtual_token_reserves,
            real_sol_reserves: 0,
            real_token_reserves: self.global.initial_real_token_reserves,
            token_total_supply: self.global.initial_token_supply,
            complete: false,
            creator: self.creator,
            team,
            token_account: self.bonding_curve_token_account,
        }
    }
}

/// Creates the curve of a new asset.
///
/// Fails with `NotInitialized`, and changes nothing, while the configuration
/// is not initialized. Otherwise the curve's record is filled from the
/// configuration, and the event that announces the asset is returned.
pub fn create(ctx: &mut Create, name: String, symbol: String, uri: String, team: Team) -> (created:
    Result<CreateEvent, CurveLaunchpadError>)
    ensures
        !old(ctx).global.initialized ==> created is Err && created->Err_0
            == CurveLaunchpadError::NotInitialized && *final(ctx) == *old(ctx),
        old(ctx).global.initialized ==> {
            &&& created is Ok
            &&& created->Ok_0.name@ == name@
            &&& created->Ok_0.symbol@ == symbol@
            &&& created->Ok_0.uri@ == uri@
            &&& created->Ok_0.mint == old(ctx).mint
            &&& created->Ok_0.bonding_curve == old(ctx).bonding_curve_address
            &&& created->Ok_0.creator == old(ctx).creator
            &&& *final(ctx) == (Create {
                bonding_curve: old(ctx).seeded_curve(team),
                ..*old(ctx)
            })
            &&& final(ctx).bonding_curve.wf() <==> old(ctx).global.seeds_well_formed_curves()
        },
{
    if !ctx.global.initialized {
        return Err(CurveLaunchpadError::NotInitialized);
    }
    ctx.bonding_curve.virtual_sol_reserves = ctx.global.initial_virtual_sol_reserves;
    ctx.bonding_curve.virtual_token_reserves = ctx.global.initial_virtual_token_reserves;
    ctx.bonding_curve.real_sol_reserves = 0;
    ctx.bonding_curve.real_token_reserves = ctx.global.initial_real_token_reserves;
    ctx.bonding_curve.token_total_supply = ctx.global.initial_token_supply;
    ctx.bonding_curve.complete = false;
    ctx.bonding_curve.creator = ctx.creator;
    ctx.bonding_curve.team = team;
    ctx.bonding_curve.token_account = ctx.bonding_curve_token_account;
    Ok(
        CreateEvent {
            name,
            symbol,
            uri,
            mint: ctx.mint,
            bonding_curve: ctx.bonding_curve_address,
            creator: ctx.creator,
        },
    )
}

} // verus!
