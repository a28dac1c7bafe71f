//! The requests that the contract accepts.

use vstd::prelude::*;

use cosmwasm_std::Binary;
use cw20::{Expiration, Logo};

verus! {

/// What the contract is created with.
#[derive(Clone, Debug, PartialEq)]
pub struct InstantiateMsg {
    /// The identity that may rotate the minter. Fixed for the contract's life.
    pub owner: String,
    /// Display name of the token.
    pub name: String,
    /// Ticker symbol of the token.
    pub symbol: String,
    /// Decimal places that clients show.
    pub decimals: u8,
    /// The identity that may mint at first.
    pub minter: String,
}

/// One operation request. The first three kinds are the bridge's own; every
/// other kind is the ledger's and is forwarded to it as it stands.
#[derive(Debug, PartialEq)]
pub enum ExecuteMsg {
    /// Burn `amount` from the caller's balance; `to` is a free-text note for
    /// the relay and routes nothing.
    BurnWrapped { amount: u128, to: String },
    /// Mint `amount` to `recipient`; only the current minter may.
    MintWrapped { recipient: String, amount: u128 },
    /// Make `account` the minter; only the owner may.
    ChangeMinter { account: String },
    /// Move tokens to another account.
    Transfer { recipient: String, amount: u128 },
    /// Destroy tokens of the caller.
    Burn { amount: u128 },
    /// Move tokens to a contract and notify it.
    Send { contract: String, amount: u128, msg: Binary },
    /// Let `spender` use `amount` more of the caller's tokens.
    IncreaseAllowance { spender: String, amount: u128, expires: Option<Expiration> },
    /// Let `spender` use `amount` less of the caller's tokens.
    DecreaseAllowance { spender: String, amount: u128, expires: Option<Expiration> },
    /// Move tokens of `owner` to `recipient` out of the caller's allowance.
    TransferFrom { owner: String, recipient: String, amount: u128 },
    /// Move tokens of `owner` to a contract out of the caller's allowance.
    SendFrom { owner: String, contract: String, amount: u128, msg: Binary },
    /// Destroy tokens of `owner` out of the caller's allowance.
    BurnFrom { owner: String, amount: u128 },
    /// Create tokens for `recipient`; only the current minter may.
    Mint { recipient: String, amount: u128 },
    /// Change the marketing data; only the marketing account may.
    UpdateMarketing {
        project: Option<String>,
        description: Option<String>,
        marketing: Option<String>,
    },
    /// Store a new logo; only the marketing account may.
    UploadLogo(Logo),
}

} // verus!
