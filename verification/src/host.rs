//! The host that the contract runs in, and the calls that this library makes
//! into it and into the ledger. None of the contracts in this file is proved:
//! each says what the called code does, as its source shows it.

use vstd::prelude::*;

use cosmwasm_std::{Binary, Deps, DepsMut, Env, Event, MessageInfo, Response, StdError, SubMsg};
use cw20::{Expiration, Logo};
use cw20_base::msg::QueryMsg;

use crate::error::BridgeError;
use crate::ledger::{key_fits, BurnStep, Ledger, MintStep};
use crate::text::decimal_digits;
use crate::token::TokenInfo;

verus! {

/// The storage, address rules and querier that the host lends for one call.
#[verifier::external_body]
pub struct Host<'a> {
    pub deps: DepsMut<'a>,
}

/// The same three things, lent for reading only.
#[verifier::external_body]
pub struct ReadOnlyHost<'a> {
    pub deps: Deps<'a>,
}

/// The four parts of a response.
pub struct ResponseParts {
    pub messages: Seq<SubMsg>,
    pub attributes: Seq<(Seq<char>, Seq<char>)>,
    pub events: Seq<Event>,
    pub data: Option<Binary>,
}

/// What `host` stores for the contract and which addresses it accepts.
pub uninterp spec fn ledger_of(host: Host) -> Ledger;

/// The caller's identity in `info`.
pub uninterp spec fn sender_of(info: MessageInfo) -> Seq<char>;

/// What `response` holds.
pub uninterp spec fn parts_of(response: Response) -> ResponseParts;

/// The ledger's error `e` in this library's terms.
pub uninterp spec fn error_of(e: cw20_base::ContractError) -> BridgeError;

/// A response of attributes only.
pub open spec fn only_attributes(attributes: Seq<(Seq<char>, Seq<char>)>) -> ResponseParts {
    ResponseParts { messages: Seq::empty(), attributes, events: Seq::empty(), data: None }
}

/// `parts` with one more attribute at the end.
pub open spec fn with_attribute(parts: ResponseParts, key: Seq<char>, value: Seq<char>) -> ResponseParts {
    ResponseParts { attributes: parts.attributes.push((key, value)), ..parts }
}

/// `Api::addr_validate` of the host: accepts exactly the host's addresses,
/// and hands an accepted string back as it came.
#[verifier::external_body]
pub(crate) fn validate_address(host: &Host, input: &str) -> (r: Result<String, StdError>)
    ensures
        r is Ok <==> ledger_of(*host).addresses.contains(input@),
        r matches Ok(a) ==> a@ == input@,
{
    host.deps.api.addr_validate(input).map(|a| a.into_string())
}

/// `MessageInfo::sender`, as a string.
#[verifier::external_body]
pub(crate) fn sender(info: &MessageInfo) -> (s: String)
    ensures
        s@ == sender_of(*info),
{
    info.sender.to_string()
}

/// `Response::new`: nothing in any part.
#[verifier::external_body]
pub(crate) fn new_response() -> (r: Response)
    ensures
        parts_of(r) == only_attributes(Seq::empty()),
{
    Response::new()
}

/// `Response::add_attribute`: one more attribute at the end, the other
/// parts as they were. A key that starts with an underscore is reserved, and
/// a debug build stops on one.
#[verifier::external_body]
pub(crate) fn add_attribute(response: Response, key: &str, value: String) -> (r: Response)
    requires
        key@.len() > 0 ==> key@[0] != '_',
    ensures
        parts_of(r) == with_attribute(parts_of(response), key@, value@),
{
    response.add_attribute(key, value)
}

/// Tells the variants of the ledger's error apart. A standard error that
/// reports an overflow is what the ledger gives when it cannot subtract.
#[verifier::external_body]
pub(crate) fn import_error(e: cw20_base::ContractError) -> (r: BridgeError)
    ensures
        r == error_of(e),
{
    match e {
        cw20_base::ContractError::Std(s) => match s {
            StdError::Overflow { .. } => BridgeError::InsufficientFunds(s),
            _ => BridgeError::Std(s),
        },
        cw20_base::ContractError::Unauthorized {} => BridgeError::Unauthorized,
        cw20_base::ContractError::CannotSetOwnAccount {} => BridgeError::CannotSetOwnAccount,
        cw20_base::ContractError::InvalidZeroAmount {} => BridgeError::InvalidZeroAmount,
        cw20_base::ContractError::Expired {} => BridgeError::Expired,
        cw20_base::ContractError::NoAllowance {} => BridgeError::NoAllowance,
        cw20_base::ContractError::CannotExceedCap {} => BridgeError::CannotExceedCap,
        cw20_base::ContractError::LogoTooBig {} => BridgeError::LogoTooBig,
        cw20_base::ContractError::InvalidXmlPreamble {} => BridgeError::InvalidXmlPreamble,
        cw20_base::ContractError::InvalidPngHeader {} => BridgeError::InvalidPngHeader,
    }
}

/// `cw2::set_contract_version`: stores the name and the version in place of
/// what was there. Two strings always go into JSON, so it succeeds.
#[verifier::external_body]
pub(crate) fn set_contract_version(host: &mut Host, name: &str, version: &str) -> (r: Result<(), StdError>)
    ensures
        r is Ok,
        ledger_of(*final(host)) == (Ledger { version: Some((name@, version@)), ..ledger_of(*old(host)) }),
{
    cw2::set_contract_version(host.deps.storage, name, version)
}

/// `Item::save` on the ledger's token record: stores `token` in place of
/// what was there. Strings and integers always go into JSON, so it succeeds.
#[verifier::external_body]
pub(crate) fn save_token(host: &mut Host, token: &TokenInfo) -> (r: Result<(), StdError>)
    ensures
        r is Ok,
        ledger_of(*final(host)) == (Ledger { token: Some(token@), ..ledger_of(*old(host)) }),
{
    let mint = token.mint.as_ref().map(|m| cw20_base::state::MinterData {
        minter: cosmwasm_std::Addr::unchecked(m.minter.clone()),
        cap: m.cap.map(cosmwasm_std::Uint128::new),
    });
    let data = cw20_base::state::TokenInfo {
        name: token.name.clone(),
        symbol: token.symbol.clone(),
        decimals: token.decimals,
        total_supply: cosmwasm_std::Uint128::new(token.total_supply),
        mint,
    };
    cw20_base::state::TOKEN_INFO.save(host.deps.storage, &data)
}

/// `Item::load` on the ledger's token record: the record, or an error where
/// none is stored or what is stored cannot be read.
#[verifier::external_body]
pub(crate) fn load_token(host: &Host) -> (r: Result<TokenInfo, StdError>)
    ensures
        r is Ok <==> ledger_of(*host).token is Some,
        r matches Ok(t) ==> ledger_of(*host).token == Some(t@),
{
    let t = cw20_base::state::TOKEN_INFO.load(host.deps.storage)?;
    let mint = t.mint.map(|m| crate::token::MinterData {
        minter: m.minter.into_string(),
        cap: m.cap.map(|c| c.u128()),
    });
    Ok(TokenInfo {
        name: t.name,
        symbol: t.symbol,
        decimals: t.decimals,
        total_supply: t.total_supply.u128(),
        mint,
    })
}

/// `Item::save` on the owner record: stores `owner` in place of what was
/// there. A string always goes into JSON, so it succeeds.
#[verifier::external_body]
pub(crate) fn save_owner(host: &mut Host, owner: &String) -> (r: Result<(), StdError>)
    ensures
        r is Ok,
        ledger_of(*final(host)) == (Ledger { owner: Some(owner@), ..ledger_of(*old(host)) }),
{
    cw_storage_plus::Item::<String>::new("owner").save(host.deps.storage, owner)
}

/// `Item::load` on the owner record: the owner, or an error where none is
/// stored or what is stored cannot be read.
#[verifier::external_body]
pub(crate) fn load_owner(host: &Host) -> (r: Result<String, StdError>)
    ensures
        r is Ok <==> ledger_of(*host).owner is Some,
        r matches Ok(o) ==> ledger_of(*host).owner == Some(o@),
{
    cw_storage_plus::Item::<String>::new("owner").load(host.deps.storage)
}

/// `Map::may_load` on the ledger's balances: what is stored for `account`,
/// nothing where nothing is stored, or an error where what is stored cannot
/// be read. The ledger reads nothing as zero.
#[verifier::external_body]
pub(crate) fn read_balance(host: &Host, account: &str) -> (r: Result<Option<u128>, StdError>)
    ensures
        r is Ok <==> ledger_of(*host).balances.dom().contains(account@),
        r matches Ok(Some(b)) ==> b == ledger_of(*host).balances[account@],
        r matches Ok(None) ==> ledger_of(*host).balances[account@] == 0,
{
    let key = cosmwasm_std::Addr::unchecked(account);
    let found = cw20_base::state::BALANCES.may_load(host.deps.storage, &key)?;
    Ok(found.map(|b| b.u128()))
}

/// `Map::may_load` on the ledger's allowances: what is stored of what
/// `spender` may still use of `owner`'s tokens, nothing where nothing is
/// stored, or an error where what is stored cannot be read. The ledger reads
/// nothing as zero. The key holds the length of `owner` in two bytes, and the
/// call stops the program on a longer one.
#[verifier::external_body]
pub(crate) fn read_allowance(host: &Host, owner: &str, spender: &str) -> (r: Result<Option<u128>, StdError>)
    requires
        key_fits(owner@),
    ensures
        r is Ok <==> ledger_of(*host).allowances.dom().contains((owner@, spender@)),
        r matches Ok(Some(a)) ==> a == ledger_of(*host).allowances[(owner@, spender@)],
        r matches Ok(None) ==> ledger_of(*host).allowances[(owner@, spender@)] == 0,
{
    let owner = cosmwasm_std::Addr::unchecked(owner);
    let spender = cosmwasm_std::Addr::unchecked(spender);
    let found = cw20_base::state::ALLOWANCES.may_load(host.deps.storage, (&owner, &spender))?;
    Ok(found.map(|a| a.allowance.u128()))
}

/// The attributes of the ledger's reply to a mint; the amount stands in
/// decimal digits.
pub open spec fn mint_attributes(recipient: Seq<char>, amount: u128) -> Seq<(Seq<char>, Seq<char>)> {
    seq![("action"@, "mint"@), ("to"@, recipient), ("amount"@, decimal_digits(amount as nat))]
}

/// The attributes of the ledger's reply to a burn; the amount stands in
/// decimal digits.
pub open spec fn burn_attributes(sender: Seq<char>, amount: u128) -> Seq<(Seq<char>, Seq<char>)> {
    seq![("action"@, "burn"@), ("from"@, sender), ("amount"@, decimal_digits(amount as nat))]
}

/// `cw20_base::contract::execute_mint`. It refuses a zero amount, then a
/// caller who is not the minter, then a supply over the cap; it stores the
/// raised supply, then checks the recipient and raises the balance. It adds
/// without a check, so the sums must fit.
#[verifier::external_body]
pub(crate) fn ledger_mint(host: &mut Host, env: Env, info: MessageInfo, recipient: String, amount: u128) -> (r: Result<
    Response,
    cw20_base::ContractError,
>)
    requires
        ledger_of(*old(host)).mint_fits(sender_of(info), recipient@, amount as nat),
    ensures
        ledger_of(*final(host)) == ledger_of(*old(host)).after_mint(sender_of(info), recipient@, amount as nat),
        match ledger_of(*old(host)).mint_step(sender_of(info), recipient@, amount as nat) {
            MintStep::Minted => r matches Ok(response) && parts_of(response) == only_attributes(
                mint_attributes(recipient@, amount),
            ),
            MintStep::ZeroAmount => r matches Err(e) && error_of(e) is InvalidZeroAmount,
            MintStep::NotMinter => r matches Err(e) && error_of(e) is Unauthorized,
            MintStep::OverCap => r matches Err(e) && error_of(e) is CannotExceedCap,
            MintStep::NoToken | MintStep::BadBalance => r matches Err(e) && error_of(e) is Std,
            MintStep::BadRecipient => r matches Err(e) && error_of(e).is_standard(),
        },
{
    let amount = cosmwasm_std::Uint128::new(amount);
    cw20_base::contract::execute_mint(host.deps.branch(), env, info, recipient, amount)
}

/// `cw20_base::contract::execute_burn`. It refuses a zero amount, lowers and
/// stores the caller's balance where it covers the amount, then lowers and
/// stores the supply where that covers it.
#[verifier::external_body]
pub(crate) fn ledger_burn(host: &mut Host, env: Env, info: MessageInfo, amount: u128) -> (r: Result<
    Response,
    cw20_base::ContractError,
>)
    ensures
        ledger_of(*final(host)) == ledger_of(*old(host)).after_burn(sender_of(info), amount as nat),
        match ledger_of(*old(host)).burn_step(sender_of(info), amount as nat) {
            BurnStep::Burned => r matches Ok(response) && parts_of(response) == only_attributes(
                burn_attributes(sender_of(info), amount),
            ),
            BurnStep::ZeroAmount => r matches Err(e) && error_of(e) is InvalidZeroAmount,
            BurnStep::ShortBalance | BurnStep::ShortSupply => r matches Err(e) && error_of(e) is InsufficientFunds,
            BurnStep::BadBalance | BurnStep::NoToken => r matches Err(e) && error_of(e) is Std,
        },
{
    let amount = cosmwasm_std::Uint128::new(amount);
    cw20_base::contract::execute_burn(host.deps.branch(), env, info, amount)
}

/// An optional string as an optional sequence of characters.
pub open spec fn text_of(s: Option<String>) -> Option<Seq<char>> {
    match s {
        Some(s) => Some(s@),
        None => None,
    }
}

/// The host after the ledger's transfer, and the ledger's answer.
pub uninterp spec fn transfer_outcome(
    host: Host,
    env: Env,
    info: MessageInfo,
    recipient: Seq<char>,
    amount: u128,
) -> (Host, Result<Response, cw20_base::ContractError>);

/// The host after the ledger's send, and the ledger's answer.
pub uninterp spec fn send_outcome(
    host: Host,
    env: Env,
    info: MessageInfo,
    contract: Seq<char>,
    amount: u128,
    msg: Binary,
) -> (Host, Result<Response, cw20_base::ContractError>);

/// The host after the ledger raised an allowance, and the ledger's answer.
pub uninterp spec fn increase_allowance_outcome(
    host: Host,
    env: Env,
    info: MessageInfo,
    spender: Seq<char>,
    amount: u128,
    expires: Option<Expiration>,
) -> (Host, Result<Response, cw20_base::ContractError>);

/// The host after the ledger lowered an allowance, and the ledger's answer.
pub uninterp spec fn decrease_allowance_outcome(
    host: Host,
    env: Env,
    info: MessageInfo,
    spender: Seq<char>,
    amount: u128,
    expires: Option<Expiration>,
) -> (Host, Result<Response, cw20_base::ContractError>);

/// The host after the ledger's transfer out of an allowance, and the
/// ledger's answer.
pub uninterp spec fn transfer_from_outcome(
    host: Host,
    env: Env,
    info: MessageInfo,
    owner: Seq<char>,
    recipient: Seq<char>,
    amount: u128,
) -> (Host, Result<Response, cw20_base::ContractError>);

/// The host after the ledger's send out of an allowance, and the ledger's
/// answer.
pub uninterp spec fn send_from_outcome(
    host: Host,
    env: Env,
    info: MessageInfo,
    owner: Seq<char>,
    contract: Seq<char>,
    amount: u128,
    msg: Binary,
) -> (Host, Result<Response, cw20_base::ContractError>);

/// The host after the ledger's burn out of an allowance, and the ledger's
/// answer.
pub uninterp spec fn burn_from_outcome(
    host: Host,
    env: Env,
    info: MessageInfo,
    owner: Seq<char>,
    amount: u128,
) -> (Host, Result<Response, cw20_base::ContractError>);

/// The host after the ledger changed the marketing data, and the ledger's
/// answer.
pub uninterp spec fn update_marketing_outcome(
    host: Host,
    env: Env,
    info: MessageInfo,
    project: Option<Seq<char>>,
    description: Option<Seq<char>>,
    marketing: Option<Seq<char>>,
) -> (Host, Result<Response, cw20_base::ContractError>);

/// The host after the ledger stored a logo, and the ledger's answer.
pub uninterp spec fn upload_logo_outcome(host: Host, env: Env, info: MessageInfo, logo: Logo) -> (
    Host,
    Result<Response, cw20_base::ContractError>,
);

/// The ledger's answer to a read-only request.
pub uninterp spec fn query_outcome(host: ReadOnlyHost, env: Env, msg: QueryMsg) -> Result<Binary, StdError>;

/// `cw20_base::contract::execute_transfer`. It adds to the recipient's
/// balance without a check, so that sum must fit. It writes balances only.
#[verifier::external_body]
pub(crate) fn ledger_transfer(
    host: &mut Host,
    env: Env,
    info: MessageInfo,
    recipient: String,
    amount: u128,
) -> (r: Result<Response, cw20_base::ContractError>)
    requires
        ledger_of(*old(host)).transfer_fits(sender_of(info), recipient@, amount as nat),
    ensures
        (*final(host), r) == transfer_outcome(*old(host), env, info, recipient@, amount),
        ledger_of(*old(host)).keeps_records(ledger_of(*final(host))),
{
    let amount = cosmwasm_std::Uint128::new(amount);
    cw20_base::contract::execute_transfer(host.deps.branch(), env, info, recipient, amount)
}

/// `cw20_base::contract::execute_send`. It adds to the receiving contract's
/// balance without a check, so that sum must fit. It writes balances only.
#[verifier::external_body]
pub(crate) fn ledger_send(
    host: &mut Host,
    env: Env,
    info: MessageInfo,
    contract: String,
    amount: u128,
    msg: Binary,
) -> (r: Result<Response, cw20_base::ContractError>)
    requires
        ledger_of(*old(host)).transfer_fits(sender_of(info), contract@, amount as nat),
    ensures
        (*final(host), r) == send_outcome(*old(host), env, info, contract@, amount, msg),
        ledger_of(*old(host)).keeps_records(ledger_of(*final(host))),
{
    let amount = cosmwasm_std::Uint128::new(amount);
    cw20_base::contract::execute_send(host.deps.branch(), env, info, contract, amount, msg)
}

/// `cw20_base::allowances::execute_increase_allowance`. It adds to the
/// allowance without a check, so that sum must fit; and the caller stands
/// first in the allowance's key, so must fit there. It writes allowances only.
#[verifier::external_body]
pub(crate) fn ledger_increase_allowance(
    host: &mut Host,
    env: Env,
    info: MessageInfo,
    spender: String,
    amount: u128,
    expires: Option<Expiration>,
) -> (r: Result<Response, cw20_base::ContractError>)
    requires
        ledger_of(*old(host)).allowance_fits(sender_of(info), spender@, amount as nat),
    ensures
        (*final(host), r) == increase_allowance_outcome(*old(host), env, info, spender@, amount, expires),
        ledger_of(*old(host)).keeps_records(ledger_of(*final(host))),
{
    let amount = cosmwasm_std::Uint128::new(amount);
    cw20_base::allowances::execute_increase_allowance(host.deps.branch(), env, info, spender, amount, expires)
}

/// `cw20_base::allowances::execute_decrease_allowance`. The caller stands
/// first in the allowance's key, so must fit there. It writes allowances only.
#[verifier::external_body]
pub(crate) fn ledger_decrease_allowance(
    host: &mut Host,
    env: Env,
    info: MessageInfo,
    spender: String,
    amount: u128,
    expires: Option<Expiration>,
) -> (r: Result<Response, cw20_base::ContractError>)
    requires
        ledger_of(*old(host)).allowance_key_fits(sender_of(info), spender@),
    ensures
        (*final(host), r) == decrease_allowance_outcome(*old(host), env, info, spender@, amount, expires),
        ledger_of(*old(host)).keeps_records(ledger_of(*final(host))),
{
    let amount = cosmwasm_std::Uint128::new(amount);
    cw20_base::allowances::execute_decrease_allowance(host.deps.branch(), env, info, spender, amount, expires)
}

/// `cw20_base::allowances::execute_transfer_from`. It adds to the
/// recipient's balance without a check, so that sum must fit; and the owner
/// stands first in the allowance's key, so must fit there. It writes balances
/// and allowances only.
#[verifier::external_body]
pub(crate) fn ledger_transfer_from(
    host: &mut Host,
    env: Env,
    info: MessageInfo,
    owner: String,
    recipient: String,
    amount: u128,
) -> (r: Result<Response, cw20_base::ContractError>)
    requires
        ledger_of(*old(host)).transfer_from_fits(owner@, recipient@, amount as nat),
    ensures
        (*final(host), r) == transfer_from_outcome(*old(host), env, info, owner@, recipient@, amount),
        ledger_of(*old(host)).keeps_records(ledger_of(*final(host))),
{
    let amount = cosmwasm_std::Uint128::new(amount);
    cw20_base::allowances::execute_transfer_from(host.deps.branch(), env, info, owner, recipient, amount)
}

/// `cw20_base::allowances::execute_send_from`. It adds to the receiving
/// contract's balance without a check, so that sum must fit; and the owner
/// stands first in the allowance's key, so must fit there. It writes balances
/// and allowances only.
#[verifier::external_body]
pub(crate) fn ledger_send_from(
    host: &mut Host,
    env: Env,
    info: MessageInfo,
    owner: String,
    contract: String,
    amount: u128,
    msg: Binary,
) -> (r: Result<Response, cw20_base::ContractError>)
    requires
        ledger_of(*old(host)).transfer_from_fits(owner@, contract@, amount as nat),
    ensures
        (*final(host), r) == send_from_outcome(*old(host), env, info, owner@, contract@, amount, msg),
        ledger_of(*old(host)).keeps_records(ledger_of(*final(host))),
{
    let amount = cosmwasm_std::Uint128::new(amount);
    cw20_base::allowances::execute_send_from(host.deps.branch(), env, info, owner, contract, amount, msg)
}

/// `cw20_base::allowances::execute_burn_from`. The owner stands first in
/// the allowance's key, so must fit there. It writes allowances, balances and
/// the supply only.
#[verifier::external_body]
pub(crate) fn ledger_burn_from(host: &mut Host, env: Env, info: MessageInfo, owner: String, amount: u128) -> (r:
    Result<Response, cw20_base::ContractError>)
    requires
        ledger_of(*old(host)).burn_from_fits(owner@),
    ensures
        (*final(host), r) == burn_from_outcome(*old(host), env, info, owner@, amount),
        ledger_of(*old(host)).keeps_authorities(ledger_of(*final(host))),
{
    let amount = cosmwasm_std::Uint128::new(amount);
    cw20_base::allowances::execute_burn_from(host.deps.branch(), env, info, owner, amount)
}

/// `cw20_base::contract::execute_update_marketing`. It writes the marketing
/// record only, which the ledger picture does not show.
#[verifier::external_body]
pub(crate) fn ledger_update_marketing(
    host: &mut Host,
    env: Env,
    info: MessageInfo,
    project: Option<String>,
    description: Option<String>,
    marketing: Option<String>,
) -> (r: Result<Response, cw20_base::ContractError>)
    ensures
        (*final(host), r) == update_marketing_outcome(
            *old(host),
            env,
            info,
            text_of(project),
            text_of(description),
            text_of(marketing),
        ),
        ledger_of(*final(host)) == ledger_of(*old(host)),
{
    cw20_base::contract::execute_update_marketing(host.deps.branch(), env, info, project, description, marketing)
}

/// `cw20_base::contract::execute_upload_logo`. It writes the logo and the
/// marketing record only, which the ledger picture does not show.
#[verifier::external_body]
pub(crate) fn ledger_upload_logo(host: &mut Host, env: Env, info: MessageInfo, logo: Logo) -> (r: Result<
    Response,
    cw20_base::ContractError,
>)
    ensures
        (*final(host), r) == upload_logo_outcome(*old(host), env, info, logo),
        ledger_of(*final(host)) == ledger_of(*old(host)),
{
    cw20_base::contract::execute_upload_logo(host.deps.branch(), env, info, logo)
}

/// The owner whose allowances `msg` asks for, if it asks for allowances.
pub uninterp spec fn owner_in(msg: QueryMsg) -> Option<Seq<char>>;

/// Picks the owner out of a request for allowances.
#[verifier::external_body]
pub(crate) fn query_owner(msg: &QueryMsg) -> (owner: Option<String>)
    ensures
        text_of(owner) == owner_in(*msg),
{
    match msg {
        QueryMsg::Allowance { owner, .. } => Some(owner.clone()),
        QueryMsg::AllAllowances { owner, .. } => Some(owner.clone()),
        QueryMsg::Balance { .. } => None,
        QueryMsg::TokenInfo {} => None,
        QueryMsg::Minter {} => None,
        QueryMsg::AllAccounts { .. } => None,
        QueryMsg::MarketingInfo {} => None,
        QueryMsg::DownloadLogo {} => None,
    }
}

/// Answers a read-only request: `cw20_base::contract::query` decides, and
/// its answer is handed back as it stands. In a request for allowances the
/// owner stands first in the allowance's key, so must fit there; `try_query`
/// tells beforehand.
#[verifier::external_body]
pub fn query(host: &ReadOnlyHost, env: Env, msg: QueryMsg) -> (r: Result<Binary, StdError>)
    requires
        owner_in(msg) matches Some(owner) ==> key_fits(owner),
    ensures
        r == query_outcome(*host, env, msg),
{
    cw20_base::contract::query(host.deps, env, msg)
}

} // verus!
