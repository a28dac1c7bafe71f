//! Tests, before the ledger is asked, whether it can carry a request out. The
//! ledger adds without a check and stops the whole program where a sum does
//! not fit in 128 bits; it does the same where the first part of an
//! allowance's key is longer than two bytes can count. With these tests a
//! caller learns so beforehand.

use vstd::prelude::*;

use cosmwasm_std::{Binary, Env, MessageInfo, Response, StdError};
use cw20_base::msg::QueryMsg;

use crate::contract::{execute, executed, request_fits};
use crate::error::BridgeError;
use crate::host::{
    ledger_of, load_token, owner_in, query, query_outcome, query_owner, read_allowance, read_balance,
    sender, sender_of, validate_address, Host, ReadOnlyHost,
};
use crate::msg::ExecuteMsg;

verus! {

/// Whether `part` can stand first in a key of two parts.
pub fn key_fits(part: &str) -> (fits: bool)
    ensures
        fits == crate::ledger::key_fits(part@),
{
    part.as_bytes().len() <= 0xFFFF
}

/// What the ledger reads where `found` is stored: nothing reads as zero.
fn or_zero(found: Option<u128>) -> (amount: u128)
    ensures
        amount == (match found {
            Some(a) => a,
            None => 0,
        }),
{
    match found {
        Some(a) => a,
        None => 0,
    }
}

fn same_text(a: &str, b: &str) -> (same: bool)
    ensures
        same == (a@ == b@),
{
    a.to_owned() == b.to_owned()
}

/// Whether the sums of a mint of `amount` to `recipient`, asked for by
/// `caller`, fit.
pub fn mint_fits(host: &Host, caller: &str, recipient: &str, amount: u128) -> (fits: bool)
    ensures
        fits == ledger_of(*host).mint_fits(caller@, recipient@, amount as nat),
{
    if amount == 0 {
        return true;
    }
    let token = match load_token(host) {
        Err(_) => { return true; },
        Ok(token) => token,
    };
    let is_minter = match &token.mint {
        Some(m) => same_text(m.minter.as_str(), caller),
        None => false,
    };
    if !is_minter {
        return true;
    }
    let raised = match token.total_supply.checked_add(amount) {
        None => { return false; },
        Some(raised) => raised,
    };
    if let Some(cap) = token.get_cap() {
        if raised > cap {
            return true;
        }
    }
    if validate_address(host, recipient).is_err() {
        return true;
    }
    match read_balance(host, recipient) {
        Err(_) => true,
        Ok(found) => or_zero(found).checked_add(amount).is_some(),
    }
}

/// Whether the sums of a bridge mint of `amount` to `recipient`, asked for
/// by `caller`, fit.
pub fn bridge_mint_fits(host: &Host, caller: &str, recipient: &str, amount: u128) -> (fits: bool)
    ensures
        fits == ledger_of(*host).bridge_mint_fits(caller@, recipient@, amount as nat),
{
    if validate_address(host, recipient).is_err() {
        return true;
    }
    mint_fits(host, caller, recipient, amount)
}

/// Whether the sum of a transfer of `amount` from `from` to `to` fits.
pub fn transfer_fits(host: &Host, from: &str, to: &str, amount: u128) -> (fits: bool)
    ensures
        fits == ledger_of(*host).transfer_fits(from@, to@, amount as nat),
{
    if amount == 0 || same_text(to, from) || validate_address(host, to).is_err() {
        return true;
    }
    let covered = match read_balance(host, from) {
        Err(_) => false,
        Ok(found) => or_zero(found) >= amount,
    };
    if !covered {
        return true;
    }
    match read_balance(host, to) {
        Err(_) => true,
        Ok(found) => or_zero(found).checked_add(amount).is_some(),
    }
}

/// Whether a transfer of `amount` out of an allowance on `owner` to `to`
/// fits.
pub fn transfer_from_fits(host: &Host, owner: &str, to: &str, amount: u128) -> (fits: bool)
    ensures
        fits == ledger_of(*host).transfer_from_fits(owner@, to@, amount as nat),
{
    if validate_address(host, to).is_ok() && validate_address(host, owner).is_ok() && !key_fits(owner) {
        return false;
    }
    transfer_fits(host, owner, to, amount)
}

/// Whether a burn out of an allowance on `owner` fits.
pub fn burn_from_fits(host: &Host, owner: &str) -> (fits: bool)
    ensures
        fits == ledger_of(*host).burn_from_fits(owner@),
{
    validate_address(host, owner).is_err() || key_fits(owner)
}

/// Whether `owner` can stand first in the key where the ledger looks up
/// `spender`'s allowance on `owner` to change it.
pub fn allowance_key_fits(host: &Host, owner: &str, spender: &str) -> (fits: bool)
    ensures
        fits == ledger_of(*host).allowance_key_fits(owner@, spender@),
{
    same_text(spender, owner) || validate_address(host, spender).is_err() || key_fits(owner)
}

/// Whether raising `spender`'s allowance on `owner` by `amount` fits.
pub fn allowance_fits(host: &Host, owner: &str, spender: &str, amount: u128) -> (fits: bool)
    ensures
        fits == ledger_of(*host).allowance_fits(owner@, spender@, amount as nat),
{
    if same_text(spender, owner) || validate_address(host, spender).is_err() {
        return true;
    }
    if !key_fits(owner) {
        return false;
    }
    match read_allowance(host, owner, spender) {
        Err(_) => true,
        Ok(found) => or_zero(found).checked_add(amount).is_some(),
    }
}

/// Whether the ledger can carry `msg` from the caller in `info` out without
/// stopping the program.
pub fn fits(host: &Host, info: &MessageInfo, msg: &ExecuteMsg) -> (fits: bool)
    ensures
        fits == request_fits(ledger_of(*host), sender_of(*info), *msg),
{
    let caller = sender(info);
    match msg {
        ExecuteMsg::MintWrapped { recipient, amount } => bridge_mint_fits(
            host,
            caller.as_str(),
            recipient.as_str(),
            *amount,
        ),
        ExecuteMsg::Mint { recipient, amount } => mint_fits(host, caller.as_str(), recipient.as_str(), *amount),
        ExecuteMsg::Transfer { recipient, amount } => transfer_fits(
            host,
            caller.as_str(),
            recipient.as_str(),
            *amount,
        ),
        ExecuteMsg::Send { contract, amount, .. } => transfer_fits(
            host,
            caller.as_str(),
            contract.as_str(),
            *amount,
        ),
        ExecuteMsg::TransferFrom { owner, recipient, amount } => transfer_from_fits(
            host,
            owner.as_str(),
            recipient.as_str(),
            *amount,
        ),
        ExecuteMsg::SendFrom { owner, contract, amount, .. } => transfer_from_fits(
            host,
            owner.as_str(),
            contract.as_str(),
            *amount,
        ),
        ExecuteMsg::IncreaseAllowance { spender, amount, .. } => allowance_fits(
            host,
            caller.as_str(),
            spender.as_str(),
            *amount,
        ),
        ExecuteMsg::BurnFrom { owner, .. } => burn_from_fits(host, owner.as_str()),
        ExecuteMsg::DecreaseAllowance { spender, .. } => allowance_key_fits(
            host,
            caller.as_str(),
            spender.as_str(),
        ),
        _ => true,
    }
}

/// Carries out one request where all fits, and says so where it does not:
/// then nothing is asked of the ledger and the host stays as it was.
pub fn try_execute(host: &mut Host, env: Env, info: MessageInfo, msg: ExecuteMsg) -> (res: Option<
    Result<Response, BridgeError>,
>)
    ensures
        res is Some <==> request_fits(ledger_of(*old(host)), sender_of(info), msg),
        res matches Some(answer) ==> executed(*old(host), *final(host), env, info, msg, answer),
        res is None ==> *final(host) == *old(host),
{
    if fits(host, &info, &msg) {
        Some(execute(host, env, info, msg))
    } else {
        None
    }
}

/// Answers a read-only request where the ledger can, and says so where it
/// cannot: where the request is for the allowances of an owner who is too long
/// for the key.
pub fn try_query(host: &ReadOnlyHost, env: Env, msg: QueryMsg) -> (res: Option<Result<Binary, StdError>>)
    ensures
        res is Some <==> (owner_in(msg) matches Some(owner) ==> crate::ledger::key_fits(owner)),
        res matches Some(answer) ==> answer == query_outcome(*host, env, msg),
{
    let fits = match query_owner(&msg) {
        Some(owner) => key_fits(owner.as_str()),
        None => true,
    };
    if fits {
        Some(query(host, env, msg))
    } else {
        None
    }
}

} // verus!
