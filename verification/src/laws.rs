//! What holds of the bridge's operations, whatever the ledger was before.
//! Each law speaks of the ledger before and after a call and of the call's
//! answer, as the operation's own contract relates them.

use vstd::prelude::*;

use cosmwasm_std::{Env, MessageInfo, Response};

use crate::contract::{
    burn_record, burned, executed, instantiated, mint_record, mint_wrapped_done, minter_changed,
};
use crate::error::BridgeError;
use crate::host::{burn_attributes, ledger_of, mint_attributes, parts_of, sender_of, Host};
use crate::ledger::Ledger;
use crate::msg::{ExecuteMsg, InstantiateMsg};
use crate::supply::{lemma_burn_conserves, lemma_mint_conserves, lemma_supply_covers_balance};

verus! {

/// A creation with a well-formed owner and minter succeeds and leaves a
/// supply of zero, the given minter and the given owner.
pub proof fn law_creation_sets_up(pre: Ledger, post: Ledger, msg: InstantiateMsg, res: Result<Response, BridgeError>)
    requires
        instantiated(pre, post, msg, res),
        pre.addresses.contains(msg.owner@),
        pre.addresses.contains(msg.minter@),
    ensures
        res is Ok,
        post.total_supply() == 0,
        post.minter() == Some(msg.minter@),
        post.owner == Some(msg.owner@),
{
}

/// A bridge mint to a well-formed recipient, asked for by anyone but the
/// minter, fails as unauthorized and changes nothing, whatever the amount.
pub proof fn law_mint_needs_minter(
    pre: Ledger,
    post: Ledger,
    sender: Seq<char>,
    recipient: Seq<char>,
    amount: u128,
    res: Result<Response, BridgeError>,
)
    requires
        mint_wrapped_done(pre, post, sender, recipient, amount, res),
        pre.token is Some,
        pre.minter() != Some(sender),
        pre.addresses.contains(recipient),
    ensures
        res matches Err(e) && e is Unauthorized,
        post.total_supply() == pre.total_supply(),
        post == pre,
{
}

/// A bridge mint of a positive amount by the minter, to a well-formed
/// recipient whose balance can be read and within the cap if there is one,
/// succeeds: the supply and the recipient's balance rise by exactly the
/// amount, and the answer ends with the recipient and the amount.
pub proof fn law_mint_credits(
    pre: Ledger,
    post: Ledger,
    sender: Seq<char>,
    recipient: Seq<char>,
    amount: u128,
    res: Result<Response, BridgeError>,
)
    requires
        mint_wrapped_done(pre, post, sender, recipient, amount, res),
        pre.minter() == Some(sender),
        amount > 0,
        pre.addresses.contains(recipient),
        pre.balances.dom().contains(recipient),
        pre.token->0.cap() matches Some(cap) ==> pre.total_supply() + amount <= cap,
    ensures
        res matches Ok(r) && parts_of(r).attributes == mint_attributes(recipient, amount) + mint_record(
            recipient,
            amount,
        ),
        post.total_supply() == pre.total_supply() + amount,
        post.balance(recipient) == pre.balance(recipient) + amount,
        post.minter() == pre.minter(),
{
}

/// In a ledger whose supply is the sum of its balances, a bridge burn of a
/// positive amount that the caller's balance covers succeeds: the supply and
/// the caller's balance fall by exactly the amount.
pub proof fn law_burn_debits(
    pre: Ledger,
    post: Ledger,
    sender: Seq<char>,
    to: Seq<char>,
    amount: u128,
    res: Result<Response, BridgeError>,
)
    requires
        burned(pre, post, sender, amount, burn_record(sender, to, amount), res),
        pre.conserved(),
        pre.balances.dom().contains(sender),
        0 < amount <= pre.balance(sender),
    ensures
        res matches Ok(r) && parts_of(r).attributes == burn_attributes(sender, amount) + burn_record(
            sender,
            to,
            amount,
        ),
        post.total_supply() + amount == pre.total_supply(),
        post.balance(sender) + amount == pre.balance(sender),
{
    lemma_supply_covers_balance(pre, sender);
}

/// A bridge burn of more than the caller holds fails for want of funds and
/// changes nothing.
pub proof fn law_burn_refuses_overdraft(
    pre: Ledger,
    post: Ledger,
    sender: Seq<char>,
    to: Seq<char>,
    amount: u128,
    res: Result<Response, BridgeError>,
)
    requires
        burned(pre, post, sender, amount, burn_record(sender, to, amount), res),
        pre.balances.dom().contains(sender),
        amount > pre.balance(sender),
    ensures
        res matches Err(e) && e is InsufficientFunds,
        post == pre,
{
}

/// After the owner rotated the minter to another account, a bridge mint by
/// the old minter fails as unauthorized, and the same mint by the new one
/// succeeds.
pub proof fn law_rotation_moves_authority(
    pre: Ledger,
    mid: Ledger,
    caller: Seq<char>,
    old_minter: Seq<char>,
    account: Seq<char>,
    rotated: Result<Response, BridgeError>,
    recipient: Seq<char>,
    amount: u128,
    after_old: Ledger,
    by_old: Result<Response, BridgeError>,
    after_new: Ledger,
    by_new: Result<Response, BridgeError>,
)
    requires
        minter_changed(pre, mid, caller, account, rotated),
        pre.owner == Some(caller),
        pre.minter() == Some(old_minter),
        old_minter != account,
        mint_wrapped_done(mid, after_old, old_minter, recipient, amount, by_old),
        mint_wrapped_done(mid, after_new, account, recipient, amount, by_new),
        amount > 0,
        pre.addresses.contains(recipient),
        pre.balances.dom().contains(recipient),
        pre.token->0.cap() matches Some(cap) ==> pre.total_supply() + amount <= cap,
    ensures
        rotated is Ok,
        mid.minter() == Some(account),
        by_old matches Err(e) && e is Unauthorized,
        after_old == mid,
        by_new is Ok,
        after_new.total_supply() == pre.total_supply() + amount,
{
}

/// A rotation of the minter asked for by anyone but the owner fails as
/// unauthorized and leaves the minter, and all else, as it was.
pub proof fn law_rotation_needs_owner(
    pre: Ledger,
    post: Ledger,
    caller: Seq<char>,
    account: Seq<char>,
    res: Result<Response, BridgeError>,
)
    requires
        minter_changed(pre, post, caller, account, res),
        pre.owner is Some,
        pre.owner != Some(caller),
    ensures
        res matches Err(e) && e is Unauthorized,
        post.minter() == pre.minter(),
        post == pre,
{
}

/// A bridge mint that went through, followed by a bridge burn of the same
/// amount by the account that received it, brings the supply and that
/// account's balance back to what they were.
pub proof fn law_mint_then_burn_restores(
    pre: Ledger,
    mid: Ledger,
    post: Ledger,
    minter: Seq<char>,
    account: Seq<char>,
    to: Seq<char>,
    amount: u128,
    minted: Result<Response, BridgeError>,
    burnt: Result<Response, BridgeError>,
)
    requires
        mint_wrapped_done(pre, mid, minter, account, amount, minted),
        minted is Ok,
        burned(mid, post, account, amount, burn_record(account, to, amount), burnt),
    ensures
        burnt is Ok,
        post.total_supply() == pre.total_supply(),
        post.balance(account) == pre.balance(account),
{
}

/// A creation that went through, on a host where nobody held anything,
/// leaves a supply that is the sum of the balances.
pub proof fn law_creation_conserves(pre: Ledger, post: Ledger, msg: InstantiateMsg, res: Result<Response, BridgeError>)
    requires
        instantiated(pre, post, msg, res),
        res is Ok,
        pre.holders() == Set::<Seq<char>>::empty(),
    ensures
        post.conserved(),
{
    assert(post.holders() =~= pre.holders());
}

/// A bridge mint that went through keeps the supply equal to the sum of the
/// balances.
pub proof fn law_mint_conserves(
    pre: Ledger,
    post: Ledger,
    sender: Seq<char>,
    recipient: Seq<char>,
    amount: u128,
    res: Result<Response, BridgeError>,
)
    requires
        mint_wrapped_done(pre, post, sender, recipient, amount, res),
        res is Ok,
        pre.conserved(),
    ensures
        post.conserved(),
{
    lemma_mint_conserves(pre, sender, recipient, amount as nat);
}

/// A bridge burn that went through keeps the supply equal to the sum of the
/// balances.
pub proof fn law_burn_conserves(
    pre: Ledger,
    post: Ledger,
    sender: Seq<char>,
    to: Seq<char>,
    amount: u128,
    res: Result<Response, BridgeError>,
)
    requires
        burned(pre, post, sender, amount, burn_record(sender, to, amount), res),
        res is Ok,
        pre.conserved(),
    ensures
        post.conserved(),
{
    lemma_burn_conserves(pre, sender, amount as nat);
}

/// A rotation of the minter, granted or refused, keeps the supply equal to
/// the sum of the balances, and never touches the owner.
pub proof fn law_rotation_conserves(
    pre: Ledger,
    post: Ledger,
    caller: Seq<char>,
    account: Seq<char>,
    res: Result<Response, BridgeError>,
)
    requires
        minter_changed(pre, post, caller, account, res),
        pre.conserved(),
    ensures
        post.conserved(),
        post.owner == pre.owner,
        post.total_supply() == pre.total_supply(),
{
    assert(post.holders() =~= pre.holders());
}

/// No bridge mint and no bridge burn changes the owner or the minter.
pub proof fn law_mint_and_burn_keep_the_authorities(
    pre: Ledger,
    sender: Seq<char>,
    recipient: Seq<char>,
    to: Seq<char>,
    amount: u128,
    after_mint: Ledger,
    minted: Result<Response, BridgeError>,
    after_burn: Ledger,
    burnt: Result<Response, BridgeError>,
)
    requires
        mint_wrapped_done(pre, after_mint, sender, recipient, amount, minted),
        burned(pre, after_burn, sender, amount, burn_record(sender, to, amount), burnt),
    ensures
        after_mint.owner == pre.owner,
        after_mint.minter() == pre.minter(),
        after_burn.owner == pre.owner,
        after_burn.minter() == pre.minter(),
{
}

/// No request of any kind changes the owner, the recorded version or the
/// host's address rule.
pub proof fn law_owner_never_changes(
    pre: Host,
    post: Host,
    env: Env,
    info: MessageInfo,
    msg: ExecuteMsg,
    res: Result<Response, BridgeError>,
)
    requires
        executed(pre, post, env, info, msg, res),
    ensures
        ledger_of(post).owner == ledger_of(pre).owner,
        ledger_of(post).version == ledger_of(pre).version,
        ledger_of(post).addresses == ledger_of(pre).addresses,
{
}

/// The minter changes by a rotation that the owner asks for, and by no other
/// request.
pub proof fn law_only_the_owner_moves_the_minter(
    pre: Host,
    post: Host,
    env: Env,
    info: MessageInfo,
    msg: ExecuteMsg,
    res: Result<Response, BridgeError>,
)
    requires
        executed(pre, post, env, info, msg, res),
        ledger_of(post).minter() != ledger_of(pre).minter(),
    ensures
        msg is ChangeMinter,
        ledger_of(pre).owner == Some(sender_of(info)),
        res is Ok,
{
}

} // verus!
