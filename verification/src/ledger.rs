//! The mathematical picture of what the host stores for the contract, and of
//! what the ledger's mint and burn do to it.

use vstd::prelude::*;
use vstd::utf8::encode_utf8;

verus! {

/// Who may mint, and up to which total supply.
pub struct Minter {
    pub minter: Seq<char>,
    pub cap: Option<nat>,
}

/// The token record of the ledger.
pub struct Token {
    pub name: Seq<char>,
    pub symbol: Seq<char>,
    pub decimals: u8,
    pub total_supply: nat,
    pub mint: Option<Minter>,
}

/// What a host holds for the contract, as far as this library speaks of it.
pub struct Ledger {
    /// The token record, if one is stored and can be read.
    pub token: Option<Token>,
    /// The owner, if one is stored and can be read.
    pub owner: Option<Seq<char>>,
    /// Every account whose balance can be read, with the amount read. An
    /// account that was never credited reads as zero.
    pub balances: Map<Seq<char>, nat>,
    /// Every pair of owner and spender whose allowance can be read, with the
    /// amount read. A pair that was never set reads as zero.
    pub allowances: Map<(Seq<char>, Seq<char>), nat>,
    /// The contract's name and version, if recorded and readable.
    pub version: Option<(Seq<char>, Seq<char>)>,
    /// The strings that the host accepts as addresses.
    pub addresses: Set<Seq<char>>,
}

/// `part` can stand first in a key of two parts: the ledger writes the
/// length of such a part, in bytes, into two bytes.
pub open spec fn key_fits(part: Seq<char>) -> bool {
    encode_utf8(part).len() <= 0xFFFF
}

/// The token records are alike but for the supply.
pub open spec fn alike_but_supply(pre: Option<Token>, post: Option<Token>) -> bool {
    match pre {
        Some(t) => post matches Some(u) && u == t.with_supply(u.total_supply),
        None => post is None,
    }
}

/// How far the ledger's mint gets.
pub enum MintStep {
    /// The amount is zero.
    ZeroAmount,
    /// No token record can be read.
    NoToken,
    /// The caller is not the minter.
    NotMinter,
    /// The new supply would pass the cap.
    OverCap,
    /// The supply is raised; the recipient is no address.
    BadRecipient,
    /// The supply is raised; the recipient's balance cannot be read.
    BadBalance,
    /// The supply and the recipient's balance are raised.
    Minted,
}

/// How far the ledger's burn gets.
pub enum BurnStep {
    /// The amount is zero.
    ZeroAmount,
    /// The caller's balance cannot be read.
    BadBalance,
    /// The caller holds less than the amount.
    ShortBalance,
    /// The balance is lowered; no token record can be read.
    NoToken,
    /// The balance is lowered; the supply is less than the amount.
    ShortSupply,
    /// The balance and the supply are lowered.
    Burned,
}

/// What a rotation of the minter comes to.
pub enum Rotation {
    /// No owner can be read.
    NoOwner,
    /// The caller is not the owner.
    NotOwner,
    /// No token record can be read.
    NoToken,
    /// The minter is replaced.
    Rotated,
}

impl Token {
    pub open spec fn minter(self) -> Option<Seq<char>> {
        match self.mint {
            Some(m) => Some(m.minter),
            None => None,
        }
    }

    pub open spec fn cap(self) -> Option<nat> {
        match self.mint {
            Some(m) => m.cap,
            None => None,
        }
    }

    pub open spec fn with_supply(self, total_supply: nat) -> Token {
        Token { total_supply, ..self }
    }

    /// The record with `account` as the only minter, the cap as it was.
    pub open spec fn with_minter(self, account: Seq<char>) -> Token {
        Token { mint: Some(Minter { minter: account, cap: self.cap() }), ..self }
    }
}

impl Ledger {
    /// The identity that may mint now, if any.
    pub open spec fn minter(self) -> Option<Seq<char>> {
        match self.token {
            Some(t) => t.minter(),
            None => None,
        }
    }

    /// The total supply; zero where there is no token record.
    pub open spec fn total_supply(self) -> nat {
        match self.token {
            Some(t) => t.total_supply,
            None => 0,
        }
    }

    /// The balance read for `account`; zero where none can be read.
    pub open spec fn balance(self, account: Seq<char>) -> nat {
        if self.balances.dom().contains(account) {
            self.balances[account]
        } else {
            0
        }
    }

    pub open spec fn mint_step(self, sender: Seq<char>, recipient: Seq<char>, amount: nat) -> MintStep {
        if amount == 0 {
            MintStep::ZeroAmount
        } else if self.token is None {
            MintStep::NoToken
        } else if self.minter() != Some(sender) {
            MintStep::NotMinter
        } else if self.token->0.cap() is Some && self.total_supply() + amount > self.token->0.cap()->0 {
            MintStep::OverCap
        } else if !self.addresses.contains(recipient) {
            MintStep::BadRecipient
        } else if !self.balances.dom().contains(recipient) {
            MintStep::BadBalance
        } else {
            MintStep::Minted
        }
    }

    /// The sums that a mint forms fit in 128 bits.
    pub open spec fn mint_fits(self, sender: Seq<char>, recipient: Seq<char>, amount: nat) -> bool {
        &&& (amount > 0 && self.token is Some && self.minter() == Some(sender)) ==> self.total_supply()
            + amount <= u128::MAX
        &&& self.mint_step(sender, recipient, amount) is Minted ==> self.balance(recipient) + amount
            <= u128::MAX
    }

    /// The sums that a bridge mint forms fit in 128 bits. Where the recipient
    /// is no address the bridge refuses before anything is added.
    pub open spec fn bridge_mint_fits(self, sender: Seq<char>, recipient: Seq<char>, amount: nat) -> bool {
        self.addresses.contains(recipient) ==> self.mint_fits(sender, recipient, amount)
    }

    /// The sum that a transfer of `amount` from `from` to `to` forms fits in
    /// 128 bits.
    pub open spec fn transfer_fits(self, from: Seq<char>, to: Seq<char>, amount: nat) -> bool {
        (amount > 0 && self.addresses.contains(to) && to != from && self.balances.dom().contains(from)
            && self.balances[from] >= amount && self.balances.dom().contains(to)) ==> self.balances[to]
            + amount <= u128::MAX
    }

    /// Where the ledger looks up `spender`'s allowance on `owner` to change
    /// it, `owner` can stand first in the key.
    pub open spec fn allowance_key_fits(self, owner: Seq<char>, spender: Seq<char>) -> bool {
        (self.addresses.contains(spender) && spender != owner) ==> key_fits(owner)
    }

    /// Raising `spender`'s allowance on `owner` by `amount` fits: `owner` can
    /// stand first in the key, and the sum fits in 128 bits.
    pub open spec fn allowance_fits(self, owner: Seq<char>, spender: Seq<char>, amount: nat) -> bool {
        &&& self.allowance_key_fits(owner, spender)
        &&& (self.addresses.contains(spender) && spender != owner && self.allowances.dom().contains(
            (owner, spender),
        )) ==> self.allowances[(owner, spender)] + amount <= u128::MAX
    }

    /// A transfer of `amount` out of an allowance on `owner` to `to` fits:
    /// `owner` can stand first in the key, and the sum fits in 128 bits.
    pub open spec fn transfer_from_fits(self, owner: Seq<char>, to: Seq<char>, amount: nat) -> bool {
        &&& (self.addresses.contains(to) && self.addresses.contains(owner)) ==> key_fits(owner)
        &&& self.transfer_fits(owner, to, amount)
    }

    /// A burn out of an allowance on `owner` fits: `owner` can stand first in
    /// the key.
    pub open spec fn burn_from_fits(self, owner: Seq<char>) -> bool {
        self.addresses.contains(owner) ==> key_fits(owner)
    }

    /// `post` holds the token record, the owner, the version and the address
    /// rule of `self`: balances and allowances at most have changed.
    pub open spec fn keeps_records(self, post: Ledger) -> bool {
        &&& post.token == self.token
        &&& post.owner == self.owner
        &&& post.version == self.version
        &&& post.addresses == self.addresses
    }

    /// `post` holds the owner, the version and the address rule of `self`,
    /// and its token record but for the supply.
    pub open spec fn keeps_authorities(self, post: Ledger) -> bool {
        &&& alike_but_supply(self.token, post.token)
        &&& post.owner == self.owner
        &&& post.version == self.version
        &&& post.addresses == self.addresses
    }

    /// The ledger after its mint was asked for.
    pub open spec fn after_mint(self, sender: Seq<char>, recipient: Seq<char>, amount: nat) -> Ledger {
        match self.mint_step(sender, recipient, amount) {
            MintStep::Minted => Ledger {
                token: Some(self.token->0.with_supply(self.total_supply() + amount)),
                balances: self.balances.insert(recipient, self.balance(recipient) + amount),
                ..self
            },
            MintStep::BadRecipient | MintStep::BadBalance => Ledger {
                token: Some(self.token->0.with_supply(self.total_supply() + amount)),
                ..self
            },
            _ => self,
        }
    }

    pub open spec fn burn_step(self, sender: Seq<char>, amount: nat) -> BurnStep {
        if amount == 0 {
            BurnStep::ZeroAmount
        } else if !self.balances.dom().contains(sender) {
            BurnStep::BadBalance
        } else if self.balances[sender] < amount {
            BurnStep::ShortBalance
        } else if self.token is None {
            BurnStep::NoToken
        } else if self.total_supply() < amount {
            BurnStep::ShortSupply
        } else {
            BurnStep::Burned
        }
    }

    /// The ledger after its burn was asked for.
    pub open spec fn after_burn(self, sender: Seq<char>, amount: nat) -> Ledger {
        match self.burn_step(sender, amount) {
            BurnStep::Burned => Ledger {
                token: Some(self.token->0.with_supply((self.total_supply() - amount) as nat)),
                balances: self.balances.insert(sender, (self.balances[sender] - amount) as nat),
                ..self
            },
            BurnStep::NoToken | BurnStep::ShortSupply => Ledger {
                balances: self.balances.insert(sender, (self.balances[sender] - amount) as nat),
                ..self
            },
            _ => self,
        }
    }

    pub open spec fn rotation(self, sender: Seq<char>) -> Rotation {
        if self.owner is None {
            Rotation::NoOwner
        } else if self.owner != Some(sender) {
            Rotation::NotOwner
        } else if self.token is None {
            Rotation::NoToken
        } else {
            Rotation::Rotated
        }
    }

    /// The ledger with `account` as the only minter, the cap as it was.
    pub open spec fn with_minter(self, account: Seq<char>) -> Ledger {
        Ledger { token: Some(self.token->0.with_minter(account)), ..self }
    }
}

} // verus!
