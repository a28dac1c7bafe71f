//! Why a request was turned down.

use vstd::prelude::*;

use cosmwasm_std::StdError;

verus! {

/// The failure of one operation. Nothing is recovered from locally: the first
/// failing step ends the operation with one of these.
#[derive(Debug, PartialEq)]
pub enum BridgeError {
    /// An identity string that the host does not accept as an address.
    InvalidAddress(StdError),
    /// The caller lacks the authority that the operation asks for.
    Unauthorized,
    /// The ledger could not take the amount out of what is there: a balance,
    /// the supply or an allowance is smaller.
    InsufficientFunds(StdError),
    /// The amount of a transfer, mint or burn is zero.
    InvalidZeroAmount,
    /// An allowance was given to the caller's own account.
    CannotSetOwnAccount,
    /// The allowance has run out.
    Expired,
    /// There is no allowance for this account.
    NoAllowance,
    /// Minting would pass the cap.
    CannotExceedCap,
    /// The logo is larger than the ledger stores.
    LogoTooBig,
    /// The logo claims to be SVG and does not start like XML.
    InvalidXmlPreamble,
    /// The logo claims to be PNG and does not start like one.
    InvalidPngHeader,
    /// Any other standard error of the host or the ledger.
    Std(StdError),
}

impl BridgeError {
    /// The error reached this library as a standard error of the host.
    pub open spec fn is_standard(self) -> bool {
        self is Std || self is InsufficientFunds
    }
}

} // verus!
