//! The host's and the ledger's types that this library carries through
//! without looking inside them.

use vstd::prelude::*;

verus! {

/// The block, transaction and contract data of one call.
#[verifier::external_type_specification]
#[verifier::external_body]
pub struct ExEnv(cosmwasm_std::Env);

/// Who made the call, and the funds that came with it.
#[verifier::external_type_specification]
#[verifier::external_body]
pub struct ExMessageInfo(cosmwasm_std::MessageInfo);

/// The host's marker for "no custom message".
#[verifier::external_type_specification]
#[verifier::external_body]
pub struct ExEmpty(cosmwasm_std::Empty);

/// What a call hands back to the host on success.
#[verifier::external_type_specification]
#[verifier::external_body]
#[verifier::reject_recursive_types(T)]
pub struct ExResponse<T>(cosmwasm_std::Response<T>);

/// A message that a response asks the host to dispatch.
#[verifier::external_type_specification]
#[verifier::external_body]
#[verifier::reject_recursive_types(T)]
pub struct ExSubMsg<T>(cosmwasm_std::SubMsg<T>);

/// An extra event of a response.
#[verifier::external_type_specification]
#[verifier::external_body]
pub struct ExEvent(cosmwasm_std::Event);

/// A byte string in the host's wire form.
#[verifier::external_type_specification]
#[verifier::external_body]
pub struct ExBinary(cosmwasm_std::Binary);

/// The host's standard error.
#[verifier::external_type_specification]
#[verifier::external_body]
pub struct ExStdError(cosmwasm_std::StdError);

/// The ledger's own error.
#[verifier::external_type_specification]
#[verifier::external_body]
pub struct ExLedgerError(cw20_base::ContractError);

/// When an allowance runs out.
#[verifier::external_type_specification]
#[verifier::external_body]
pub struct ExExpiration(cw20::Expiration);

/// A token logo, as a link or as embedded data.
#[verifier::external_type_specification]
#[verifier::external_body]
pub struct ExLogo(cw20::Logo);

/// A read-only request to the ledger.
#[verifier::external_type_specification]
#[verifier::external_body]
pub struct ExQueryMsg(cw20_base::msg::QueryMsg);

} // verus!
