//! Pricing and settlement rules of a bonding-curve token launchpad.
//!
//! Every curve sells a fixed token supply against a reserve currency along a
//! constant-product curve over virtual reserves, and buys tokens back along
//! the same curve, until its sellable supply is exhausted.

pub mod address;
pub mod amm;
pub mod arith;
pub mod error;
pub mod events;
pub mod instructions;
pub mod laws;
pub mod state;

pub use address::Address;
pub use amm::{BuyResult, SellResult, AMM};
pub use error::{AmmError, CurveLaunchpadError};
pub use events::{CompleteEvent, CreateEvent, TradeEvent};
pub use instructions::buy::{buy, Buy, BuyReceipt};
pub use instructions::create::{create, Create};
pub use instructions::initialize::{initialize, Initialize};
pub use instructions::sell::{sell, Sell, SellReceipt};
pub use instructions::set_params::{set_params, SetParams};
pub use instructions::util::{calculate_fee, check_buy_sell, max_transfer_amount, try_calculate_fee};
pub use state::{BondingCurve, Global, Team, UserTransferData};
