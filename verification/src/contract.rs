//! The contract's entry points: creation, the bridge's mint and burn, the
//! rotation of the minter, and the hand-over of everything else to the ledger.

use vstd::prelude::*;

use cosmwasm_std::{Env, MessageInfo, Response};

use crate::error::BridgeError;
use crate::host::{
    add_attribute, burn_attributes, burn_from_outcome, decrease_allowance_outcome, error_of,
    import_error, increase_allowance_outcome, ledger_burn, ledger_burn_from,
    ledger_decrease_allowance, ledger_increase_allowance, ledger_mint, ledger_of, ledger_send,
    ledger_send_from, ledger_transfer, ledger_transfer_from, ledger_update_marketing,
    ledger_upload_logo, load_owner, load_token, mint_attributes, new_response, only_attributes,
    parts_of, save_owner, save_token, send_from_outcome, send_outcome, sender, sender_of,
    set_contract_version, text_of, transfer_from_outcome, transfer_outcome,
    update_marketing_outcome, upload_logo_outcome, validate_address, with_attribute, Host,
};
use crate::ledger::{BurnStep, Ledger, Minter, MintStep, Rotation, Token};
use crate::msg::{ExecuteMsg, InstantiateMsg};
use crate::text::{decimal, decimal_digits};
use crate::token::TokenInfo;

verus! {

/// The name under which the contract records its version.
pub const CONTRACT_NAME: &'static str = "crates.io:wrapped-token";

/// The version that the contract records.
pub const CONTRACT_VERSION: &'static str = "0.1.0";

/// The token record that a contract starts with.
pub open spec fn initial_token(msg: InstantiateMsg) -> Token {
    Token {
        name: msg.name@,
        symbol: msg.symbol@,
        decimals: msg.decimals,
        total_supply: 0,
        mint: Some(Minter { minter: msg.minter@, cap: None }),
    }
}

/// What the creation with `msg` makes of the ledger `pre`: the ledger `post`
/// and the answer `res`.
pub open spec fn instantiated(pre: Ledger, post: Ledger, msg: InstantiateMsg, res: Result<Response, BridgeError>) -> bool {
    if pre.addresses.contains(msg.owner@) && pre.addresses.contains(msg.minter@) {
        &&& res matches Ok(response)
        &&& parts_of(response) == only_attributes(Seq::empty())
        &&& post == (Ledger {
            token: Some(initial_token(msg)),
            owner: Some(msg.owner@),
            version: Some((CONTRACT_NAME@, CONTRACT_VERSION@)),
            ..pre
        })
    } else {
        res matches Err(e) && e is InvalidAddress && post == pre
    }
}

/// Creates the contract: with two well-formed addresses it records its name
/// and version, stores a token record with nothing minted and `msg.minter` as
/// the only minter, stores `msg.owner` as the owner, and answers with an empty
/// response. Otherwise it fails and the ledger stays as it was.
pub fn instantiate(host: &mut Host, _env: Env, _info: MessageInfo, msg: InstantiateMsg) -> (res: Result<
    Response,
    BridgeError,
>)
    ensures
        instantiated(ledger_of(*old(host)), ledger_of(*final(host)), msg, res),
{
    match validate_address(host, msg.owner.as_str()) {
        Err(e) => { return Err(BridgeError::InvalidAddress(e)); },
        Ok(_) => {},
    }
    let minter = match validate_address(host, msg.minter.as_str()) {
        Err(e) => { return Err(BridgeError::InvalidAddress(e)); },
        Ok(minter) => minter,
    };
    if let Err(e) = set_contract_version(host, CONTRACT_NAME, CONTRACT_VERSION) {
        return Err(BridgeError::Std(e));
    }
    let token = TokenInfo::new(msg.name, msg.symbol, msg.decimals, minter);
    if let Err(e) = save_token(host, &token) {
        return Err(BridgeError::Std(e));
    }
    if let Err(e) = save_owner(host, &msg.owner) {
        return Err(BridgeError::Std(e));
    }
    Ok(new_response())
}

/// What a rotation of the minter to `account`, asked for by `sender`, makes
/// of the ledger `pre`: the ledger `post` and the answer `res`.
pub open spec fn minter_changed(
    pre: Ledger,
    post: Ledger,
    sender: Seq<char>,
    account: Seq<char>,
    res: Result<Response, BridgeError>,
) -> bool {
    match pre.rotation(sender) {
        Rotation::Rotated => {
            &&& res matches Ok(response)
            &&& parts_of(response) == only_attributes(seq![("account"@, account)])
            &&& post == pre.with_minter(account)
        },
        Rotation::NotOwner => res matches Err(e) && e is Unauthorized && post == pre,
        Rotation::NoOwner | Rotation::NoToken => res matches Err(e) && e is Std && post == pre,
    }
}

/// Rotates the minter. Only the owner may: for anyone else it fails with
/// `Unauthorized` and changes nothing. For the owner it overwrites the
/// minter with `account`, leaves the cap as it was, and answers with the one
/// attribute `account`.
pub fn execute_change_minter(host: &mut Host, info: MessageInfo, account: String) -> (res: Result<
    Response,
    BridgeError,
>)
    ensures
        minter_changed(ledger_of(*old(host)), ledger_of(*final(host)), sender_of(info), account@, res),
{
    let owner = match load_owner(host) {
        Err(e) => { return Err(BridgeError::Std(e)); },
        Ok(owner) => owner,
    };
    let caller = sender(&info);
    if !(owner == caller) {
        return Err(BridgeError::Unauthorized);
    }
    let token = match load_token(host) {
        Err(e) => { return Err(BridgeError::Std(e)); },
        Ok(token) => token,
    };
    let attribute = account.clone();
    if let Err(e) = save_token(host, &token.with_minter(account)) {
        return Err(BridgeError::Std(e));
    }
    proof {
        reveal_strlit("account");
    }
    Ok(add_attribute(new_response(), "account", attribute))
}

/// The bridge's answer to the ledger's answer to a mint: on success the
/// ledger's response with the attributes `sender` (the recipient) and `amount`
/// added, on failure the ledger's error in this library's terms.
pub fn mint_reply(outcome: Result<Response, cw20_base::ContractError>, account: String, amount: u128) -> (res:
    Result<Response, BridgeError>)
    ensures
        outcome matches Ok(response) ==> res matches Ok(r) && parts_of(r) == with_attribute(
            with_attribute(parts_of(response), "sender"@, account@),
            "amount"@,
            decimal_digits(amount as nat),
        ),
        outcome matches Err(e) ==> res == Err::<Response, BridgeError>(error_of(e)),
{
    match outcome {
        Ok(response) => {
            proof {
                reveal_strlit("sender");
                reveal_strlit("amount");
            }
            let response = add_attribute(response, "sender", account);
            Ok(add_attribute(response, "amount", decimal(amount)))
        },
        Err(e) => Err(import_error(e)),
    }
}

/// The bridge's answer to the ledger's answer to a burn: on success the
/// ledger's response with the attributes `sender`, `to` and `amount` added, on
/// failure the ledger's error in this library's terms.
pub fn burn_reply(outcome: Result<Response, cw20_base::ContractError>, caller: String, to: &str, amount: u128) -> (res:
    Result<Response, BridgeError>)
    ensures
        outcome matches Ok(response) ==> res matches Ok(r) && parts_of(r) == with_attribute(
            with_attribute(with_attribute(parts_of(response), "sender"@, caller@), "to"@, to@),
            "amount"@,
            decimal_digits(amount as nat),
        ),
        outcome matches Err(e) ==> res == Err::<Response, BridgeError>(error_of(e)),
{
    match outcome {
        Ok(response) => {
            proof {
                reveal_strlit("sender");
                reveal_strlit("to");
                reveal_strlit("amount");
            }
            let response = add_attribute(response, "sender", caller);
            let response = add_attribute(response, "to", to.to_owned());
            Ok(add_attribute(response, "amount", decimal(amount)))
        },
        Err(e) => Err(import_error(e)),
    }
}

/// What the ledger's mint of `amount` to `recipient`, asked for by `sender`,
/// makes of the ledger `pre`: the ledger `post`, and in `res` the ledger's
/// answer with the attributes `extra` added.
pub open spec fn minted(
    pre: Ledger,
    post: Ledger,
    sender: Seq<char>,
    recipient: Seq<char>,
    amount: u128,
    extra: Seq<(Seq<char>, Seq<char>)>,
    res: Result<Response, BridgeError>,
) -> bool {
    &&& post == pre.after_mint(sender, recipient, amount as nat)
    &&& match pre.mint_step(sender, recipient, amount as nat) {
        MintStep::Minted => res matches Ok(r) && parts_of(r) == only_attributes(
            mint_attributes(recipient, amount) + extra,
        ),
        MintStep::ZeroAmount => res matches Err(e) && e is InvalidZeroAmount,
        MintStep::NotMinter => res matches Err(e) && e is Unauthorized,
        MintStep::OverCap => res matches Err(e) && e is CannotExceedCap,
        MintStep::NoToken | MintStep::BadBalance => res matches Err(e) && e is Std,
        MintStep::BadRecipient => res matches Err(e) && e.is_standard(),
    }
}

/// What the ledger's burn of `amount`, asked for by `sender`, makes of the
/// ledger `pre`: the ledger `post`, and in `res` the ledger's answer with the
/// attributes `extra` added.
pub open spec fn burned(
    pre: Ledger,
    post: Ledger,
    sender: Seq<char>,
    amount: u128,
    extra: Seq<(Seq<char>, Seq<char>)>,
    res: Result<Response, BridgeError>,
) -> bool {
    &&& post == pre.after_burn(sender, amount as nat)
    &&& match pre.burn_step(sender, amount as nat) {
        BurnStep::Burned => res matches Ok(r) && parts_of(r) == only_attributes(
            burn_attributes(sender, amount) + extra,
        ),
        BurnStep::ZeroAmount => res matches Err(e) && e is InvalidZeroAmount,
        BurnStep::ShortBalance | BurnStep::ShortSupply => res matches Err(e) && e is InsufficientFunds,
        BurnStep::BadBalance | BurnStep::NoToken => res matches Err(e) && e is Std,
    }
}

/// The attributes that the bridge adds to the ledger's answer to a mint.
pub open spec fn mint_record(recipient: Seq<char>, amount: u128) -> Seq<(Seq<char>, Seq<char>)> {
    seq![("sender"@, recipient), ("amount"@, decimal_digits(amount as nat))]
}

/// The attributes that the bridge adds to the ledger's answer to a burn.
pub open spec fn burn_record(sender: Seq<char>, to: Seq<char>, amount: u128) -> Seq<(Seq<char>, Seq<char>)> {
    seq![("sender"@, sender), ("to"@, to), ("amount"@, decimal_digits(amount as nat))]
}

/// What a bridge mint makes of the ledger `pre`. A recipient that is no
/// address is refused; then a caller who is not the minter, whatever the
/// amount; in both cases nothing changes. Only for the minter is the ledger
/// asked: its mint decides, and the answer records the recipient and the
/// amount.
pub open spec fn mint_wrapped_done(
    pre: Ledger,
    post: Ledger,
    sender: Seq<char>,
    recipient: Seq<char>,
    amount: u128,
    res: Result<Response, BridgeError>,
) -> bool {
    if !pre.addresses.contains(recipient) {
        res matches Err(e) && e is InvalidAddress && post == pre
    } else if pre.token is None {
        res matches Err(e) && e is Std && post == pre
    } else if pre.minter() != Some(sender) {
        res matches Err(e) && e is Unauthorized && post == pre
    } else {
        minted(pre, post, sender, recipient, amount, mint_record(recipient, amount), res)
    }
}

/// Mints for the bridge. A recipient that is no address is refused first.
/// Then the minter is consulted: a caller who is not the minter is refused as
/// unauthorized, whatever the amount, and the ledger is not asked. For the
/// minter the ledger's mint decides: it refuses a zero amount and a supply
/// over the cap; else it raises the supply and the recipient's balance by
/// `amount`, and the answer records the recipient and the amount. The ledger
/// adds without a check, so for a recipient that is an address the two sums
/// must fit in 128 bits; `fits` tells beforehand.
pub fn execute_mint(host: &mut Host, env: Env, info: MessageInfo, recipient: String, amount: u128) -> (res:
    Result<Response, BridgeError>)
    requires
        ledger_of(*old(host)).bridge_mint_fits(sender_of(info), recipient@, amount as nat),
    ensures
        mint_wrapped_done(ledger_of(*old(host)), ledger_of(*final(host)), sender_of(info), recipient@, amount, res),
{
    let account = match validate_address(host, recipient.as_str()) {
        Err(e) => { return Err(BridgeError::InvalidAddress(e)); },
        Ok(account) => account,
    };
    let token = match load_token(host) {
        Err(e) => { return Err(BridgeError::Std(e)); },
        Ok(token) => token,
    };
    let caller = sender(&info);
    let is_minter = match &token.mint {
        Some(m) => m.minter == caller,
        None => false,
    };
    if !is_minter {
        return Err(BridgeError::Unauthorized);
    }
    let outcome = ledger_mint(host, env, info, account.clone(), amount);
    proof {
        let base = mint_attributes(recipient@, amount);
        assert(base.push(("sender"@, recipient@)).push(("amount"@, decimal_digits(amount as nat))) =~= base
            + mint_record(recipient@, amount));
    }
    mint_reply(outcome, account, amount)
}

/// Burns for the bridge, out of the caller's own balance; `to` is recorded
/// and routes nothing. The ledger's burn decides: it refuses a zero amount and
/// an amount over the caller's balance; else it lowers the caller's balance
/// and the supply by `amount`, and the answer records the caller, `to` and the
/// amount.
pub fn execute_burn(host: &mut Host, env: Env, info: MessageInfo, amount: u128, to: &str) -> (res: Result<
    Response,
    BridgeError,
>)
    ensures
        burned(
            ledger_of(*old(host)),
            ledger_of(*final(host)),
            sender_of(info),
            amount,
            burn_record(sender_of(info), to@, amount),
            res,
        ),
{
    let caller = sender(&info);
    let outcome = ledger_burn(host, env, info, amount);
    proof {
        let base = burn_attributes(caller@, amount);
        assert(base.push(("sender"@, caller@)).push(("to"@, to@)).push(("amount"@, decimal_digits(amount as nat)))
            =~= base + burn_record(caller@, to@, amount));
    }
    burn_reply(outcome, caller, to, amount)
}

/// The ledger's answer handed on: a response as it stands, an error in this
/// library's terms.
pub open spec fn forwarded_answer(outcome: Result<Response, cw20_base::ContractError>) -> Result<
    Response,
    BridgeError,
> {
    match outcome {
        Ok(response) => Ok(response),
        Err(e) => Err(error_of(e)),
    }
}

/// The host that the ledger left, with the ledger's answer handed on.
pub open spec fn forwarded(outcome: (Host, Result<Response, cw20_base::ContractError>)) -> (
    Host,
    Result<Response, BridgeError>,
) {
    (outcome.0, forwarded_answer(outcome.1))
}

/// Hands the ledger's answer on: a response as it stands, an error in this
/// library's terms.
pub fn forward(outcome: Result<Response, cw20_base::ContractError>) -> (res: Result<Response, BridgeError>)
    ensures
        res == forwarded_answer(outcome),
{
    match outcome {
        Ok(response) => Ok(response),
        Err(e) => Err(import_error(e)),
    }
}

/// The ledger can carry `msg` from `sender` out without stopping the
/// program: every sum that it would form fits in 128 bits, and whoever stands
/// first in the key of an allowance fits there. The ledger adds without a
/// check when it mints, credits a recipient or raises an allowance, and
/// writes the length of a key's first part into two bytes.
pub open spec fn request_fits(ledger: Ledger, sender: Seq<char>, msg: ExecuteMsg) -> bool {
    match msg {
        ExecuteMsg::MintWrapped { recipient, amount } => ledger.bridge_mint_fits(
            sender,
            recipient@,
            amount as nat,
        ),
        ExecuteMsg::Mint { recipient, amount } => ledger.mint_fits(sender, recipient@, amount as nat),
        ExecuteMsg::Transfer { recipient, amount } => ledger.transfer_fits(sender, recipient@, amount as nat),
        ExecuteMsg::Send { contract, amount, .. } => ledger.transfer_fits(sender, contract@, amount as nat),
        ExecuteMsg::TransferFrom { owner, recipient, amount } => ledger.transfer_from_fits(
            owner@,
            recipient@,
            amount as nat,
        ),
        ExecuteMsg::SendFrom { owner, contract, amount, .. } => ledger.transfer_from_fits(
            owner@,
            contract@,
            amount as nat,
        ),
        ExecuteMsg::BurnFrom { owner, .. } => ledger.burn_from_fits(owner@),
        ExecuteMsg::DecreaseAllowance { spender, .. } => ledger.allowance_key_fits(sender, spender@),
        ExecuteMsg::IncreaseAllowance { spender, amount, .. } => ledger.allowance_fits(
            sender,
            spender@,
            amount as nat,
        ),
        _ => true,
    }
}

/// What `msg` from the caller in `info` makes of the host `pre`: the host
/// `post` and the answer `res`. The bridge's three kinds follow the bridge's
/// rules; a plain mint or burn is the ledger's; every other kind is whatever
/// the ledger makes of it, handed on unchanged, and leaves the owner, the
/// minter and the rest of the token record but the supply as they were.
pub open spec fn executed(
    pre: Host,
    post: Host,
    env: Env,
    info: MessageInfo,
    msg: ExecuteMsg,
    res: Result<Response, BridgeError>,
) -> bool {
    let sender = sender_of(info);
    match msg {
        ExecuteMsg::BurnWrapped { amount, to } => burned(
            ledger_of(pre),
            ledger_of(post),
            sender,
            amount,
            burn_record(sender, to@, amount),
            res,
        ),
        ExecuteMsg::MintWrapped { recipient, amount } => mint_wrapped_done(
            ledger_of(pre),
            ledger_of(post),
            sender,
            recipient@,
            amount,
            res,
        ),
        ExecuteMsg::ChangeMinter { account } => minter_changed(
            ledger_of(pre),
            ledger_of(post),
            sender,
            account@,
            res,
        ),
        ExecuteMsg::Burn { amount } => burned(ledger_of(pre), ledger_of(post), sender, amount, Seq::empty(), res),
        ExecuteMsg::Mint { recipient, amount } => minted(
            ledger_of(pre),
            ledger_of(post),
            sender,
            recipient@,
            amount,
            Seq::empty(),
            res,
        ),
        ExecuteMsg::Transfer { recipient, amount } => {
            &&& (post, res) == forwarded(transfer_outcome(pre, env, info, recipient@, amount))
            &&& ledger_of(pre).keeps_records(ledger_of(post))
        },
        ExecuteMsg::Send { contract, amount, msg } => {
            &&& (post, res) == forwarded(send_outcome(pre, env, info, contract@, amount, msg))
            &&& ledger_of(pre).keeps_records(ledger_of(post))
        },
        ExecuteMsg::IncreaseAllowance { spender, amount, expires } => {
            &&& (post, res) == forwarded(increase_allowance_outcome(pre, env, info, spender@, amount, expires))
            &&& ledger_of(pre).keeps_records(ledger_of(post))
        },
        ExecuteMsg::DecreaseAllowance { spender, amount, expires } => {
            &&& (post, res) == forwarded(decrease_allowance_outcome(pre, env, info, spender@, amount, expires))
            &&& ledger_of(pre).keeps_records(ledger_of(post))
        },
        ExecuteMsg::TransferFrom { owner, recipient, amount } => {
            &&& (post, res) == forwarded(transfer_from_outcome(pre, env, info, owner@, recipient@, amount))
            &&& ledger_of(pre).keeps_records(ledger_of(post))
        },
        ExecuteMsg::SendFrom { owner, contract, amount, msg } => {
            &&& (post, res) == forwarded(send_from_outcome(pre, env, info, owner@, contract@, amount, msg))
            &&& ledger_of(pre).keeps_records(ledger_of(post))
        },
        ExecuteMsg::BurnFrom { owner, amount } => {
            &&& (post, res) == forwarded(burn_from_outcome(pre, env, info, owner@, amount))
            &&& ledger_of(pre).keeps_authorities(ledger_of(post))
        },
        ExecuteMsg::UpdateMarketing { project, description, marketing } => {
            &&& (post, res) == forwarded(
                update_marketing_outcome(pre, env, info, text_of(project), text_of(description), text_of(marketing)),
            )
            &&& ledger_of(post) == ledger_of(pre)
        },
        ExecuteMsg::UploadLogo(logo) => {
            &&& (post, res) == forwarded(upload_logo_outcome(pre, env, info, logo))
            &&& ledger_of(post) == ledger_of(pre)
        },
    }
}

/// Carries out one request. The three bridge kinds go to the bridge's own
/// handlers; every other kind goes to the ledger's operation of the same name,
/// with its fields as they came, and the ledger's answer comes back with the
/// error, if any, in this library's terms. The ledger stops the program on a
/// sum that does not fit in 128 bits and on a key part that is too long;
/// `fits` tells beforehand, and `try_execute` asks only where all fits.
pub fn execute(host: &mut Host, env: Env, info: MessageInfo, msg: ExecuteMsg) -> (res: Result<
    Response,
    BridgeError,
>)
    requires
        request_fits(ledger_of(*old(host)), sender_of(info), msg),
    ensures
        executed(*old(host), *final(host), env, info, msg, res),
{
    match msg {
        ExecuteMsg::BurnWrapped { amount, to } => execute_burn(host, env, info, amount, to.as_str()),
        ExecuteMsg::MintWrapped { recipient, amount } => execute_mint(host, env, info, recipient, amount),
        ExecuteMsg::ChangeMinter { account } => execute_change_minter(host, info, account),
        ExecuteMsg::Transfer { recipient, amount } => forward(
            ledger_transfer(host, env, info, recipient, amount),
        ),
        ExecuteMsg::Burn { amount } => {
            proof {
                let base = burn_attributes(sender_of(info), amount);
                assert(base + Seq::empty() =~= base);
            }
            forward(ledger_burn(host, env, info, amount))
        },
        ExecuteMsg::Send { contract, amount, msg } => forward(
            ledger_send(host, env, info, contract, amount, msg),
        ),
        ExecuteMsg::Mint { recipient, amount } => {
            proof {
                let base = mint_attributes(recipient@, amount);
                assert(base + Seq::empty() =~= base);
            }
            forward(ledger_mint(host, env, info, recipient, amount))
        },
        ExecuteMsg::IncreaseAllowance { spender, amount, expires } => forward(
            ledger_increase_allowance(host, env, info, spender, amount, expires),
        ),
        ExecuteMsg::DecreaseAllowance { spender, amount, expires } => forward(
            ledger_decrease_allowance(host, env, info, spender, amount, expires),
        ),
        ExecuteMsg::TransferFrom { owner, recipient, amount } => forward(
            ledger_transfer_from(host, env, info, owner, recipient, amount),
        ),
        ExecuteMsg::BurnFrom { owner, amount } => forward(ledger_burn_from(host, env, info, owner, amount)),
        ExecuteMsg::SendFrom { owner, contract, amount, msg } => forward(
            ledger_send_from(host, env, info, owner, contract, amount, msg),
        ),
        ExecuteMsg::UpdateMarketing { project, description, marketing } => forward(
            ledger_update_marketing(host, env, info, project, description, marketing),
        ),
        ExecuteMsg::UploadLogo(logo) => forward(ledger_upload_logo(host, env, info, logo)),
    }
}

} // verus!
