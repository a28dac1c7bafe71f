//! A wrapped token for a bridge: a fungible-token ledger with mint and burn
//! operations for the bridge and an owner who alone may rotate the minter.

pub mod contract;
pub mod error;
pub mod fits;
pub mod host;
pub mod laws;
pub mod ledger;
pub mod msg;
pub mod outside;
pub mod supply;
pub mod text;
pub mod token;

pub use contract::{
    burn_reply, execute, execute_burn, execute_change_minter, execute_mint, forward, instantiate,
    mint_reply,
};
pub use error::BridgeError;
pub use fits::{
    allowance_fits, allowance_key_fits, bridge_mint_fits, burn_from_fits, fits, key_fits, mint_fits,
    transfer_fits, transfer_from_fits, try_execute, try_query,
};
pub use host::{query, Host, ReadOnlyHost};
pub use msg::{ExecuteMsg, InstantiateMsg};
pub use text::decimal;
pub use token::{MinterData, TokenInfo};
