//! The records that the launchpad keeps: its configuration, one curve per
//! asset, and one throttle record per actor and asset.

use vstd::prelude::*;
use crate::address::Address;

verus! {

/// The side a curve was created for. It has no bearing on pricing.
#[derive(Clone, Copy, Debug, PartialEq, Eq, Structural)]
pub enum Team {
    Blue,
    Red,
}

impl Default for Team {
    fn default() -> (team: Team)
        ensures
            team == Team::Blue,
    {
        Team::Blue
    }
}

/// The launchpad-wide parameters. New curves copy their reserves from here,
/// and every trade takes its fee rate from here.
#[derive(Clone, Copy, Debug, PartialEq, Eq)]
pub struct Global {
    pub authority: Address,
    pub initialized: bool,
    pub fee_recipient: Address,
    pub initial_virtual_token_reserves: u64,
    pub initial_virtual_sol_reserves: u64,
    pub initial_real_token_reserves: u64,
    pub initial_token_supply: u64,
    /// In units of a hundredth of a percent: 10000 is the whole amount.
    pub fee_basis_points: u64,
}

impl Global {
    /// The parameters describe a curve that starts out well formed: what is
    /// for sale is part of both the virtual reserves and the total supply.
    pub open spec fn seeds_well_formed_curves(self) -> bool {
        &&& self.initial_real_token_reserves <= self.initial_virtual_token_reserves
        &&& self.initial_real_token_reserves <= self.initial_token_supply
    }
}

/// The state of one curve.
///
/// The virtual reserves shape the price and are never held; the real reserves
/// are what the curve holds: the reserve currency paid in, and the tokens
/// still for sale.
#[derive(Clone, Copy, Debug, PartialEq, Eq)]
pub struct BondingCurve {
    pub virtual_sol_reserves: u64,
    pub virtual_token_reserves: u64,
    pub real_sol_reserves: u64,
    pub real_token_reserves: u64,
    pub token_total_supply: u64,
    pub complete: bool,
    pub creator: Address,
    pub team: Team,
    pub token_account: Address,
}

impl BondingCurve {
    /// What holds of a curve from its creation on, whatever is traded on it.
    pub open spec fn wf(self) -> bool {
        &&& self.real_token_reserves <= self.virtual_token_reserves
        &&& self.real_token_reserves <= self.token_total_supply
        &&& self.complete ==> self.real_token_reserves == 0
    }

    /// The product of the virtual reserves, which fixes the price curve.
    pub open spec fn product(self) -> int {
        self.virtual_sol_reserves * self.virtual_token_reserves
    }
}

/// When an actor last traded a given asset.
#[derive(Clone, Copy, Debug, PartialEq, Eq, Structural)]
pub struct UserTransferData {
    pub last_transfer_timestamp: i64,
}

impl Default for UserTransferData {
    fn default() -> (record: UserTransferData)
        ensures
            record.last_transfer_timestamp == 0,
    {
        UserTransferData { last_transfer_timestamp: 0 }
    }
}

} // verus!
