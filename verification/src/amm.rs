//! The pricing engine: a constant-product market over virtual reserves.
//!
//! The engine works on a snapshot of a curve's reserves in 128 bits, so that
//! the product of two 64-bit reserves always fits. A buy rounds the new
//! reserve of currency up and a sell rounds it down.

use vstd::prelude::*;
use crate::arith::{
    ceil_div, div_ceil, lemma_div_ceil_bounds, lemma_div_ceil_of_product, lemma_div_floor_bounds,
    lemma_div_floor_of_product,
};
use crate::error::AmmError;

verus! {

/// What a buy gives and takes.
#[derive(Clone, Copy, Debug, PartialEq, Eq, Structural)]
pub struct BuyResult {
    /// Tokens handed to the buyer.
    pub token_amount: u64,
    /// Reserve currency owed by the buyer, before fees.
    pub sol_amount: u64,
}

/// What a sell takes and gives.
#[derive(Clone, Copy, Debug, PartialEq, Eq, Structural)]
pub struct SellResult {
    /// Tokens taken from the seller.
    pub token_amount: u64,
    /// Reserve currency owed to the seller, before fees.
    pub sol_amount: u64,
}

/// A snapshot of a curve's reserves.
#[derive(Clone, Copy, Debug, PartialEq, Eq, Structural)]
pub struct AMM {
    pub virtual_sol_reserves: u128,
    pub virtual_token_reserves: u128,
    pub real_sol_reserves: u128,
    pub real_token_reserves: u128,
    pub initial_virtual_token_reserves: u128,
}

impl AMM {
    /// The product of the virtual reserves.
    pub open spec fn product(self) -> int {
        self.virtual_sol_reserves * self.virtual_token_reserves
    }

    /// The tokens that a buy of `token_amount` hands out: no more than the
    /// reserves hold for sale.
    pub open spec fn buy_amount(self, token_amount: u128) -> u128 {
        if token_amount > self.real_token_reserves {
            self.real_token_reserves
        } else {
            token_amount
        }
    }

    /// The virtual reserve of currency after `amount` tokens have left the
    /// virtual token reserve: the least that keeps the product from falling.
    pub open spec fn virtual_sol_after_buy(self, amount: int) -> int
        recommends
            0 <= amount < self.virtual_token_reserves,
    {
        div_ceil(self.product(), self.virtual_token_reserves - amount)
    }

    /// What it costs to take `amount` tokens out of the reserves.
    pub open spec fn buy_price(self, amount: int) -> int
        recommends
            0 <= amount < self.virtual_token_reserves,
    {
        self.virtual_sol_after_buy(amount) - self.virtual_sol_reserves
    }

    /// Why a buy of `token_amount` tokens is rejected, if it is.
    pub open spec fn buy_error(self, token_amount: u128) -> Option<AmmError> {
        let amount = self.buy_amount(token_amount);
        if amount == self.virtual_token_reserves {
            Some(AmmError::Depleted)
        } else if amount > self.virtual_token_reserves || self.product() > u128::MAX
            || self.real_sol_reserves + self.buy_price(amount as int) > u128::MAX || amount
            > u64::MAX || self.buy_price(amount as int) > u64::MAX {
            Some(AmmError::Overflow)
        } else {
            None
        }
    }

    /// The reserves after a buy of `token_amount` tokens that is not rejected.
    pub open spec fn after_buy(self, token_amount: u128) -> AMM
        recommends
            self.buy_error(token_amount) is None,
    {
        let amount = self.buy_amount(token_amount);
        AMM {
            virtual_sol_reserves: (self.virtual_sol_reserves + self.buy_price(amount as int)) as u128,
            virtual_token_reserves: (self.virtual_token_reserves - amount) as u128,
            real_sol_reserves: (self.real_sol_reserves + self.buy_price(amount as int)) as u128,
            real_token_reserves: (self.real_token_reserves - amount) as u128,
            initial_virtual_token_reserves: self.initial_virtual_token_reserves,
        }
    }

    /// The virtual reserve of currency after `token_amount` tokens are sold
    /// back: the product divided by the new token reserve, rounded down.
    pub open spec fn virtual_sol_after_sell(self, token_amount: int) -> int
        recommends
            self.virtual_token_reserves + token_amount > 0,
    {
        self.product() / (self.virtual_token_reserves + token_amount)
    }

    /// What selling `token_amount` tokens pays.
    pub open spec fn sell_price(self, token_amount: int) -> int
        recommends
            self.virtual_token_reserves + token_amount > 0,
    {
        self.virtual_sol_reserves - self.virtual_sol_after_sell(token_amount)
    }

    /// Why a sell of `token_amount` tokens is rejected, if it is.
    pub open spec fn sell_error(self, token_amount: u128) -> Option<AmmError> {
        if self.virtual_token_reserves + token_amount == 0 {
            Some(AmmError::Depleted)
        } else if self.virtual_token_reserves + token_amount > u128::MAX
            || self.real_token_reserves + token_amount > u128::MAX
            || self.product() > u128::MAX
            || token_amount > u64::MAX {
            Some(AmmError::Overflow)
        } else if self.sell_price(token_amount as int) > self.real_sol_reserves {
            Some(AmmError::InsufficientLiquidity)
        } else if self.sell_price(token_amount as int) > u64::MAX {
            Some(AmmError::Overflow)
        } else {
            None
        }
    }

    /// The reserves after a sell of `token_amount` tokens that is not rejected.
    pub open spec fn after_sell(self, token_amount: u128) -> AMM
        recommends
            self.sell_error(token_amount) is None,
    {
        AMM {
            virtual_sol_reserves: (self.virtual_sol_reserves - self.sell_price(
                token_amount as int,
            )) as u128,
            virtual_token_reserves: (self.virtual_token_reserves + token_amount) as u128,
            real_sol_reserves: (self.real_sol_reserves - self.sell_price(token_amount as int)) as u128,
            real_token_reserves: (self.real_token_reserves + token_amount) as u128,
            initial_virtual_token_reserves: self.initial_virtual_token_reserves,
        }
    }

    /// A snapshot of the given reserves.
    pub fn new(
        virtual_sol_reserves: u128,
        virtual_token_reserves: u128,
        real_sol_reserves: u128,
        real_token_reserves: u128,
        initial_virtual_token_reserves: u128,
    ) -> (amm: AMM)
        ensures
            amm == (AMM {
                virtual_sol_reserves,
                virtual_token_reserves,
                real_sol_reserves,
                real_token_reserves,
                initial_virtual_token_reserves,
            }),
    {
        AMM {
            virtual_sol_reserves,
            virtual_token_reserves,
            real_sol_reserves,
            real_token_reserves,
            initial_virtual_token_reserves,
        }
    }

    /// Buys `token_amount` tokens from the reserves.
    ///
    /// A request for more than the reserves hold for sale is cut down to what
    /// they hold. The charge is the least amount of currency that keeps the
    /// product of the virtual reserves from falling. Both token reserves fall
    /// by the tokens handed out, both currency reserves rise by the charge. A
    /// rejected buy leaves the reserves as they were.
    pub fn apply_buy(&mut self, token_amount: u128) -> (bought: Result<BuyResult, AmmError>)
        ensures
            match bought {
                Ok(result) => {
                    &&& old(self).buy_error(token_amount) is None
                    &&& *final(self) == old(self).after_buy(token_amount)
                    &&& result.token_amount == old(self).buy_amount(token_amount)
                    &&& result.sol_amount == old(self).buy_price(
                        old(self).buy_amount(token_amount) as int,
                    )
                },
                Err(error) => {
                    &&& old(self).buy_error(token_amount) == Some(error)
                    &&& *final(self) == *old(self)
                },
            },
            old(self).real_token_reserves <= old(self).virtual_token_reserves
                ==> final(self).real_token_reserves <= final(self).virtual_token_reserves,
            bought is Ok ==> old(self).product() <= final(self).product() < old(self).product()
                + final(self).virtual_token_reserves,
    {
        let final_token_amount: u128 = if token_amount > self.real_token_reserves {
            self.real_token_reserves
        } else {
            token_amount
        };
        if final_token_amount == self.virtual_token_reserves {
            return Err(AmmError::Depleted);
        }
        if final_token_amount > self.virtual_token_reserves || final_token_amount
            > u64::MAX as u128 {
            return Err(AmmError::Overflow);
        }
        let new_virtual_token_reserves: u128 = self.virtual_token_reserves - final_token_amount;
        let new_real_token_reserves: u128 = self.real_token_reserves - final_token_amount;
        let product: u128 = match self.virtual_sol_reserves.checked_mul(
            self.virtual_token_reserves,
        ) {
            Some(product) => product,
            None => {
                return Err(AmmError::Overflow);
            },
        };
        let new_virtual_sol_reserves: u128 = ceil_div(product, new_virtual_token_reserves);
        proof {
            lemma_div_ceil_of_product(
                self.virtual_sol_reserves as int,
                self.virtual_token_reserves as int,
                new_virtual_token_reserves as int,
            );
            lemma_div_ceil_bounds(product as int, new_virtual_token_reserves as int);
        }
        let sol_amount: u128 = new_virtual_sol_reserves - self.virtual_sol_reserves;
        let new_real_sol_reserves: u128 = match self.real_sol_reserves.checked_add(sol_amount) {
            Some(sum) => sum,
            None => {
                return Err(AmmError::Overflow);
            },
        };
        if sol_amount > u64::MAX as u128 {
            return Err(AmmError::Overflow);
        }
        self.virtual_sol_reserves = new_virtual_sol_reserves;
        self.virtual_token_reserves = new_virtual_token_reserves;
        self.real_sol_reserves = new_real_sol_reserves;
        self.real_token_reserves = new_real_token_reserves;
        Ok(BuyResult { token_amount: final_token_amount as u64, sol_amount: sol_amount as u64 })
    }

    /// Sells `token_amount` tokens back to the reserves.
    ///
    /// The new virtual reserve of currency is the product of the virtual
    /// reserves divided by the new virtual token reserve, rounded down; the
    /// payout is what the virtual reserve of currency falls by. Both token
    /// reserves rise by `token_amount`, both currency reserves fall by the
    /// payout. A rejected sell leaves the reserves as they were.
    pub fn apply_sell(&mut self, token_amount: u128) -> (sold: Result<SellResult, AmmError>)
        ensures
            match sold {
                Ok(result) => {
                    &&& old(self).sell_error(token_amount) is None
                    &&& *final(self) == old(self).after_sell(token_amount)
                    &&& result.token_amount == token_amount
                    &&& result.sol_amount == old(self).sell_price(token_amount as int)
                },
                Err(error) => {
                    &&& old(self).sell_error(token_amount) == Some(error)
                    &&& *final(self) == *old(self)
                },
            },
            old(self).real_token_reserves <= old(self).virtual_token_reserves
                ==> final(self).real_token_reserves <= final(self).virtual_token_reserves,
            sold is Ok ==> old(self).product() - final(self).virtual_token_reserves
                < final(self).product() <= old(self).product(),
    {
        if token_amount == 0 && self.virtual_token_reserves == 0 {
            return Err(AmmError::Depleted);
        }
        if token_amount > u64::MAX as u128 {
            return Err(AmmError::Overflow);
        }
        let new_virtual_token_reserves: u128 = match self.virtual_token_reserves.checked_add(
            token_amount,
        ) {
            Some(sum) => sum,
            None => {
                return Err(AmmError::Overflow);
            },
        };
        let new_real_token_reserves: u128 = match self.real_token_reserves.checked_add(
            token_amount,
        ) {
            Some(sum) => sum,
            None => {
                return Err(AmmError::Overflow);
            },
        };
        let product: u128 = match self.virtual_sol_reserves.checked_mul(
            self.virtual_token_reserves,
        ) {
            Some(product) => product,
            None => {
                return Err(AmmError::Overflow);
            },
        };
        let new_virtual_sol_reserves: u128 = product / new_virtual_token_reserves;
        proof {
            lemma_div_floor_of_product(
                self.virtual_sol_reserves as int,
                self.virtual_token_reserves as int,
                new_virtual_token_reserves as int,
            );
            lemma_div_floor_bounds(product as int, new_virtual_token_reserves as int);
        }
        let sol_amount: u128 = self.virtual_sol_reserves - new_virtual_sol_reserves;
        if sol_amount > self.real_sol_reserves {
            return Err(AmmError::InsufficientLiquidity);
        }
        if sol_amount > u64::MAX as u128 {
            return Err(AmmError::Overflow);
        }
        self.virtual_sol_reserves = new_virtual_sol_reserves;
        self.virtual_token_reserves = new_virtual_token_reserves;
        self.real_sol_reserves = self.real_sol_reserves - sol_amount;
        self.real_token_reserves = new_real_token_reserves;
        Ok(SellResult { token_amount: token_amount as u64, sol_amount: sol_amount as u64 })
    }
}

} // verus!
