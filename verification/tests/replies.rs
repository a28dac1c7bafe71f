use cosmwasm_std::{attr, Binary, OverflowError, OverflowOperation, Response, StdError};
use wrapped_token::token::{MinterData, TokenInfo};
use wrapped_token::{burn_reply, decimal, forward, mint_reply, BridgeError};

fn short_by_two() -> StdError {
    StdError::overflow(OverflowError::new(OverflowOperation::Sub, 5, 7))
}

#[test]
fn mint_reply_adds_recipient_and_amount() {
    let ledger = Response::new().add_attribute("action", "mint").set_data(Binary::from(b"d".to_vec()));
    let res = mint_reply(Ok(ledger), "holder".to_string(), 340282366920938463463374607431768211455).unwrap();
    assert_eq!(
        res.attributes,
        vec![
            attr("action", "mint"),
            attr("sender", "holder"),
            attr("amount", "340282366920938463463374607431768211455"),
        ]
    );
    assert_eq!(res.data, Some(Binary::from(b"d".to_vec())));
}

#[test]
fn mint_reply_hands_an_error_on() {
    let res = mint_reply(Err(cw20_base::ContractError::Unauthorized {}), "holder".to_string(), 1);
    assert_eq!(res, Err(BridgeError::Unauthorized));
    let res = mint_reply(Err(cw20_base::ContractError::CannotExceedCap {}), "holder".to_string(), 1);
    assert_eq!(res, Err(BridgeError::CannotExceedCap));
}

#[test]
fn burn_reply_adds_sender_note_and_amount() {
    let res = burn_reply(Ok(Response::new()), "holder".to_string(), "0xabc", 0).unwrap();
    assert_eq!(res.attributes, vec![attr("sender", "holder"), attr("to", "0xabc"), attr("amount", "0")]);
}

#[test]
fn burn_reply_hands_an_error_on() {
    let res = burn_reply(Err(cw20_base::ContractError::InvalidZeroAmount {}), "holder".to_string(), "x", 0);
    assert_eq!(res, Err(BridgeError::InvalidZeroAmount));
}

#[test]
fn forward_keeps_a_response_as_it_is() {
    let ledger = Response::new().add_attribute("action", "transfer");
    assert_eq!(forward(Ok(ledger.clone())), Ok(ledger));
}

#[test]
fn forward_names_every_ledger_error() {
    assert_eq!(forward(Err(cw20_base::ContractError::Unauthorized {})), Err(BridgeError::Unauthorized));
    assert_eq!(forward(Err(cw20_base::ContractError::CannotSetOwnAccount {})), Err(BridgeError::CannotSetOwnAccount));
    assert_eq!(forward(Err(cw20_base::ContractError::InvalidZeroAmount {})), Err(BridgeError::InvalidZeroAmount));
    assert_eq!(forward(Err(cw20_base::ContractError::Expired {})), Err(BridgeError::Expired));
    assert_eq!(forward(Err(cw20_base::ContractError::NoAllowance {})), Err(BridgeError::NoAllowance));
    assert_eq!(forward(Err(cw20_base::ContractError::CannotExceedCap {})), Err(BridgeError::CannotExceedCap));
    assert_eq!(forward(Err(cw20_base::ContractError::LogoTooBig {})), Err(BridgeError::LogoTooBig));
    assert_eq!(forward(Err(cw20_base::ContractError::InvalidXmlPreamble {})), Err(BridgeError::InvalidXmlPreamble));
    assert_eq!(forward(Err(cw20_base::ContractError::InvalidPngHeader {})), Err(BridgeError::InvalidPngHeader));
    assert_eq!(
        forward(Err(cw20_base::ContractError::Std(StdError::generic_err("broken")))),
        Err(BridgeError::Std(StdError::generic_err("broken")))
    );
    assert_eq!(
        forward(Err(cw20_base::ContractError::Std(StdError::not_found("token")))),
        Err(BridgeError::Std(StdError::not_found("token")))
    );
    assert_eq!(
        forward(Err(cw20_base::ContractError::Std(short_by_two()))),
        Err(BridgeError::InsufficientFunds(short_by_two()))
    );
}

#[test]
fn token_record_starts_empty_with_one_minter() {
    let token = TokenInfo::new("Wrapped".to_string(), "WRP".to_string(), 6, "minter".to_string());
    assert_eq!(
        token,
        TokenInfo {
            name: "Wrapped".to_string(),
            symbol: "WRP".to_string(),
            decimals: 6,
            total_supply: 0,
            mint: Some(MinterData { minter: "minter".to_string(), cap: None }),
        }
    );
    assert_eq!(token.get_cap(), None);
}

#[test]
fn token_record_changes_minter_and_keeps_the_rest() {
    let token = TokenInfo {
        name: "Wrapped".to_string(),
        symbol: "WRP".to_string(),
        decimals: 6,
        total_supply: 42,
        mint: Some(MinterData { minter: "minter".to_string(), cap: Some(100) }),
    };
    assert_eq!(token.get_cap(), Some(100));
    let token = token.with_minter("minter2".to_string());
    assert_eq!(
        token,
        TokenInfo {
            name: "Wrapped".to_string(),
            symbol: "WRP".to_string(),
            decimals: 6,
            total_supply: 42,
            mint: Some(MinterData { minter: "minter2".to_string(), cap: Some(100) }),
        }
    );
    let bare = TokenInfo {
        name: "Wrapped".to_string(),
        symbol: "WRP".to_string(),
        decimals: 6,
        total_supply: 42,
        mint: None,
    };
    assert_eq!(bare.get_cap(), None);
    let bare = bare.with_minter("minter2".to_string());
    assert_eq!(bare.mint, Some(MinterData { minter: "minter2".to_string(), cap: None }));
}

#[test]
fn decimal_writes_digits_without_leading_zeros() {
    assert_eq!(decimal(0), "0");
    assert_eq!(decimal(7), "7");
    assert_eq!(decimal(10), "10");
    assert_eq!(decimal(1000), "1000");
    assert_eq!(decimal(909090), "909090");
    assert_eq!(decimal(u128::MAX), "340282366920938463463374607431768211455");
    assert_eq!(decimal(u128::MAX), u128::MAX.to_string());
}
