//! The token record as the library reads and writes it.

use vstd::prelude::*;

use crate::ledger::{Minter, Token};

verus! {

/// Who may mint, and up to which total supply.
#[derive(Clone, Debug, PartialEq)]
pub struct MinterData {
    pub minter: String,
    pub cap: Option<u128>,
}

/// The token record: display data, the supply, and the minter if there is one.
#[derive(Clone, Debug, PartialEq)]
pub struct TokenInfo {
    pub name: String,
    pub symbol: String,
    pub decimals: u8,
    pub total_supply: u128,
    pub mint: Option<MinterData>,
}

impl View for MinterData {
    type V = Minter;

    open spec fn view(&self) -> Minter {
        Minter {
            minter: self.minter@,
            cap: match self.cap {
                Some(c) => Some(c as nat),
                None => None,
            },
        }
    }
}

impl View for TokenInfo {
    type V = Token;

    open spec fn view(&self) -> Token {
        Token {
            name: self.name@,
            symbol: self.symbol@,
            decimals: self.decimals,
            total_supply: self.total_supply as nat,
            mint: match self.mint {
                Some(m) => Some(m@),
                None => None,
            },
        }
    }
}

impl TokenInfo {
    /// The cap on the supply, if a minter with a cap is set.
    pub fn get_cap(&self) -> (cap: Option<u128>)
        ensures
            cap matches Some(c) ==> self@.cap() == Some(c as nat),
            cap is None ==> self@.cap() is None,
    {
        match &self.mint {
            Some(m) => m.cap,
            None => None,
        }
    }

    /// A fresh record: nothing minted yet, `minter` the only minter, no cap.
    pub fn new(name: String, symbol: String, decimals: u8, minter: String) -> (token: TokenInfo)
        ensures
            token@ == (Token {
                name: name@,
                symbol: symbol@,
                decimals,
                total_supply: 0,
                mint: Some(Minter { minter: minter@, cap: None }),
            }),
    {
        TokenInfo {
            name,
            symbol,
            decimals,
            total_supply: 0,
            mint: Some(MinterData { minter, cap: None }),
        }
    }

    /// The same record with `account` as the only minter; the cap stays.
    pub fn with_minter(self, account: String) -> (token: TokenInfo)
        ensures
            token@ == self@.with_minter(account@),
    {
        let cap = self.get_cap();
        TokenInfo {
            name: self.name,
            symbol: self.symbol,
            decimals: self.decimals,
            total_supply: self.total_supply,
            mint: Some(MinterData { minter: account, cap }),
        }
    }
}

} // verus!
