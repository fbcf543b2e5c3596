//! What the launchpad reports to the outside when an operation goes through.

use vstd::prelude::*;
use crate::address::Address;

verus! {

/// A curve was created.
#[derive(Debug, PartialEq, Eq)]
pub struct CreateEvent {
    pub name: String,
    pub symbol: String,
    pub uri: String,
    pub mint: Address,
    pub bonding_curve: Address,
    pub creator: Address,
}

/// A trade went through. The reserves are those after the trade.
#[derive(Clone, Copy, Debug, PartialEq, Eq)]
pub struct TradeEvent {
    pub mint: Address,
    pub sol_amount: u64,
    pub token_amount: u64,
    pub is_buy: bool,
    pub user: Address,
    pub timestamp: i64,
    pub virtual_sol_reserves: u64,
    pub virtual_token_reserves: u64,
    pub real_sol_reserves: u64,
    pub real_token_reserves: u64,
}

/// A buy took the last tokens that a curve had for sale.
#[derive(Clone, Copy, Debug, PartialEq, Eq)]
pub struct CompleteEvent {
    pub user: Address,
    pub mint: Address,
    pub bonding_curve: Address,
    pub timestamp: i64,
}

} // verus!
