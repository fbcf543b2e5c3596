//! The operations of the launchpad.

pub mod buy;
pub mod create;
pub mod initialize;
pub mod sell;
pub mod set_params;
pub mod util;
