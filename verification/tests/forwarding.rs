use cosmwasm_std::testing::{mock_dependencies, mock_env, mock_info, MockApi, MockQuerier, MockStorage};
use cosmwasm_std::{
    attr, from_json, to_json_binary, Addr, Binary, CosmosMsg, OwnedDeps, StdError, SubMsg, Uint128, WasmMsg,
};
use cw20::{
    AllowanceResponse, BalanceResponse, Cw20ReceiveMsg, EmbeddedLogo, Expiration, Logo, LogoInfo,
    MarketingInfoResponse, MinterResponse, TokenInfoResponse,
};
use cw20_base::msg::QueryMsg;
use cw20_base::state::{ALLOWANCES, BALANCES, LOGO, MARKETING_INFO, TOKEN_INFO};
use wrapped_token::{
    execute, instantiate, query, BridgeError, ExecuteMsg, Host, InstantiateMsg, ReadOnlyHost,
};

type Deps = OwnedDeps<MockStorage, MockApi, MockQuerier>;

fn started() -> Deps {
    let mut deps = mock_dependencies();
    {
        let mut host = Host { deps: deps.as_mut() };
        let msg = InstantiateMsg {
            owner: "owner".to_string(),
            name: "Wrapped".to_string(),
            symbol: "WRP".to_string(),
            decimals: 6,
            minter: "minter".to_string(),
        };
        instantiate(&mut host, mock_env(), mock_info("creator", &[]), msg).unwrap();
        let mint = ExecuteMsg::Mint { recipient: "alice".to_string(), amount: 1000 };
        execute(&mut host, mock_env(), mock_info("minter", &[]), mint).unwrap();
    }
    deps
}

fn run(deps: &mut Deps, sender: &str, msg: ExecuteMsg) -> Result<cosmwasm_std::Response, BridgeError> {
    let mut host = Host { deps: deps.as_mut() };
    execute(&mut host, mock_env(), mock_info(sender, &[]), msg)
}

fn balance(deps: &Deps, account: &str) -> u128 {
    BALANCES.may_load(&deps.storage, &Addr::unchecked(account)).unwrap().unwrap_or_default().u128()
}

fn supply(deps: &Deps) -> u128 {
    TOKEN_INFO.load(&deps.storage).unwrap().total_supply.u128()
}

fn allowance(deps: &Deps, owner: &str, spender: &str) -> u128 {
    ALLOWANCES
        .may_load(&deps.storage, (&Addr::unchecked(owner), &Addr::unchecked(spender)))
        .unwrap()
        .unwrap_or_default()
        .allowance
        .u128()
}

fn with_marketing(deps: &mut Deps, account: &str) {
    let info = MarketingInfoResponse {
        project: None,
        description: None,
        marketing: Some(Addr::unchecked(account)),
        logo: None,
    };
    MARKETING_INFO.save(&mut deps.storage, &info).unwrap();
}

#[test]
fn plain_mint_is_the_ledgers_mint() {
    let mut deps = mock_dependencies();
    let res = {
        let mut host = Host { deps: deps.as_mut() };
        let msg = InstantiateMsg {
            owner: "owner".to_string(),
            name: "Wrapped".to_string(),
            symbol: "WRP".to_string(),
            decimals: 6,
            minter: "minter".to_string(),
        };
        instantiate(&mut host, mock_env(), mock_info("creator", &[]), msg).unwrap();
        let mint = ExecuteMsg::Mint { recipient: "alice".to_string(), amount: 1000 };
        execute(&mut host, mock_env(), mock_info("minter", &[]), mint).unwrap()
    };
    assert_eq!(res.attributes, vec![attr("action", "mint"), attr("to", "alice"), attr("amount", "1000")]);
    assert_eq!(balance(&deps, "alice"), 1000);
    assert_eq!(supply(&deps), 1000);
}

#[test]
fn plain_mint_to_a_malformed_recipient_keeps_the_raised_supply() {
    let mut deps = started();
    let err = run(&mut deps, "minter", ExecuteMsg::Mint { recipient: "x".to_string(), amount: 5 }).unwrap_err();
    assert!(matches!(err, BridgeError::Std(StdError::GenericErr { .. })));
    assert_eq!(supply(&deps), 1005);
    assert_eq!(balance(&deps, "x"), 0);
}

#[test]
fn plain_mint_by_another_is_unauthorized() {
    let mut deps = started();
    let err = run(&mut deps, "alice", ExecuteMsg::Mint { recipient: "alice".to_string(), amount: 5 }).unwrap_err();
    assert_eq!(err, BridgeError::Unauthorized);
    assert_eq!(supply(&deps), 1000);
}

#[test]
fn plain_burn_is_the_ledgers_burn() {
    let mut deps = started();
    let res = run(&mut deps, "alice", ExecuteMsg::Burn { amount: 250 }).unwrap();
    assert_eq!(res.attributes, vec![attr("action", "burn"), attr("from", "alice"), attr("amount", "250")]);
    assert_eq!(balance(&deps, "alice"), 750);
    assert_eq!(supply(&deps), 750);
}

#[test]
fn transfer_moves_tokens() {
    let mut deps = started();
    let msg = ExecuteMsg::Transfer { recipient: "bobby".to_string(), amount: 300 };
    let res = run(&mut deps, "alice", msg).unwrap();
    assert_eq!(
        res.attributes,
        vec![attr("action", "transfer"), attr("from", "alice"), attr("to", "bobby"), attr("amount", "300")]
    );
    assert_eq!(balance(&deps, "alice"), 700);
    assert_eq!(balance(&deps, "bobby"), 300);
    assert_eq!(supply(&deps), 1000);
}

#[test]
fn transfer_over_the_balance_fails() {
    let mut deps = started();
    let msg = ExecuteMsg::Transfer { recipient: "bobby".to_string(), amount: 1001 };
    let err = run(&mut deps, "alice", msg).unwrap_err();
    assert!(matches!(err, BridgeError::InsufficientFunds(_)));
    assert_eq!(balance(&deps, "alice"), 1000);
}

#[test]
fn transfer_of_zero_fails() {
    let mut deps = started();
    let msg = ExecuteMsg::Transfer { recipient: "bobby".to_string(), amount: 0 };
    assert_eq!(run(&mut deps, "alice", msg).unwrap_err(), BridgeError::InvalidZeroAmount);
}

#[test]
fn send_moves_tokens_and_notifies() {
    let mut deps = started();
    let payload = Binary::from(b"payload".to_vec());
    let msg = ExecuteMsg::Send { contract: "market".to_string(), amount: 40, msg: payload.clone() };
    let res = run(&mut deps, "alice", msg).unwrap();
    let expected = Cw20ReceiveMsg { sender: "alice".to_string(), amount: Uint128::new(40), msg: payload }
        .into_binary()
        .unwrap();
    assert_eq!(
        res.messages,
        vec![SubMsg::new(CosmosMsg::Wasm(WasmMsg::Execute {
            contract_addr: "market".to_string(),
            msg: expected,
            funds: vec![],
        }))]
    );
    assert_eq!(balance(&deps, "market"), 40);
    assert_eq!(balance(&deps, "alice"), 960);
}

#[test]
fn allowance_rises_and_falls() {
    let mut deps = started();
    let up = ExecuteMsg::IncreaseAllowance { spender: "spender".to_string(), amount: 500, expires: None };
    run(&mut deps, "alice", up).unwrap();
    assert_eq!(allowance(&deps, "alice", "spender"), 500);
    let down = ExecuteMsg::DecreaseAllowance { spender: "spender".to_string(), amount: 200, expires: None };
    let res = run(&mut deps, "alice", down).unwrap();
    assert_eq!(res.attributes[0], attr("action", "decrease_allowance"));
    assert_eq!(allowance(&deps, "alice", "spender"), 300);
}

#[test]
fn allowance_to_oneself_is_refused() {
    let mut deps = started();
    let up = ExecuteMsg::IncreaseAllowance { spender: "alice".to_string(), amount: 500, expires: None };
    assert_eq!(run(&mut deps, "alice", up).unwrap_err(), BridgeError::CannotSetOwnAccount);
}

#[test]
fn transfer_from_uses_the_allowance() {
    let mut deps = started();
    let up = ExecuteMsg::IncreaseAllowance { spender: "spender".to_string(), amount: 500, expires: None };
    run(&mut deps, "alice", up).unwrap();
    let msg = ExecuteMsg::TransferFrom { owner: "alice".to_string(), recipient: "bobby".to_string(), amount: 120 };
    run(&mut deps, "spender", msg).unwrap();
    assert_eq!(balance(&deps, "alice"), 880);
    assert_eq!(balance(&deps, "bobby"), 120);
    assert_eq!(allowance(&deps, "alice", "spender"), 380);
}

#[test]
fn transfer_from_without_an_allowance_is_refused() {
    let mut deps = started();
    let msg = ExecuteMsg::TransferFrom { owner: "alice".to_string(), recipient: "bobby".to_string(), amount: 1 };
    assert_eq!(run(&mut deps, "spender", msg).unwrap_err(), BridgeError::NoAllowance);
}

#[test]
fn transfer_from_on_an_expired_allowance_is_refused() {
    let mut deps = started();
    let up = ExecuteMsg::IncreaseAllowance {
        spender: "spender".to_string(),
        amount: 500,
        expires: Some(Expiration::AtHeight(1)),
    };
    run(&mut deps, "alice", up).unwrap();
    let msg = ExecuteMsg::TransferFrom { owner: "alice".to_string(), recipient: "bobby".to_string(), amount: 1 };
    assert_eq!(run(&mut deps, "spender", msg).unwrap_err(), BridgeError::Expired);
}

#[test]
fn transfer_from_over_the_allowance_is_refused() {
    let mut deps = started();
    let up = ExecuteMsg::IncreaseAllowance { spender: "spender".to_string(), amount: 10, expires: None };
    run(&mut deps, "alice", up).unwrap();
    let msg = ExecuteMsg::TransferFrom { owner: "alice".to_string(), recipient: "bobby".to_string(), amount: 11 };
    assert!(matches!(run(&mut deps, "spender", msg).unwrap_err(), BridgeError::InsufficientFunds(_)));
}

#[test]
fn burn_from_uses_the_allowance() {
    let mut deps = started();
    let up = ExecuteMsg::IncreaseAllowance { spender: "spender".to_string(), amount: 500, expires: None };
    run(&mut deps, "alice", up).unwrap();
    let msg = ExecuteMsg::BurnFrom { owner: "alice".to_string(), amount: 100 };
    let res = run(&mut deps, "spender", msg).unwrap();
    assert_eq!(res.attributes[0], attr("action", "burn_from"));
    assert_eq!(balance(&deps, "alice"), 900);
    assert_eq!(supply(&deps), 900);
}

#[test]
fn send_from_uses_the_allowance_and_notifies() {
    let mut deps = started();
    let up = ExecuteMsg::IncreaseAllowance { spender: "spender".to_string(), amount: 500, expires: None };
    run(&mut deps, "alice", up).unwrap();
    let msg = ExecuteMsg::SendFrom {
        owner: "alice".to_string(),
        contract: "market".to_string(),
        amount: 60,
        msg: Binary::from(b"x".to_vec()),
    };
    let res = run(&mut deps, "spender", msg).unwrap();
    assert_eq!(res.messages.len(), 1);
    assert_eq!(res.attributes[0], attr("action", "send_from"));
    assert_eq!(balance(&deps, "market"), 60);
    assert_eq!(allowance(&deps, "alice", "spender"), 440);
}

#[test]
fn marketing_is_updated_by_its_account() {
    let mut deps = started();
    with_marketing(&mut deps, "marketer");
    let msg = ExecuteMsg::UpdateMarketing {
        project: Some("https://example.org".to_string()),
        description: Some("A wrapped asset".to_string()),
        marketing: None,
    };
    let res = run(&mut deps, "marketer", msg).unwrap();
    assert_eq!(res.attributes, vec![attr("action", "update_marketing")]);
    let stored = MARKETING_INFO.load(&deps.storage).unwrap();
    assert_eq!(stored.project, Some("https://example.org".to_string()));
    assert_eq!(stored.description, Some("A wrapped asset".to_string()));
}

#[test]
fn marketing_is_closed_to_others() {
    let mut deps = started();
    let msg = ExecuteMsg::UpdateMarketing { project: None, description: None, marketing: None };
    assert_eq!(run(&mut deps, "alice", msg).unwrap_err(), BridgeError::Unauthorized);
}

#[test]
fn logo_is_stored() {
    let mut deps = started();
    with_marketing(&mut deps, "marketer");
    let logo = Logo::Url("https://example.org/logo.svg".to_string());
    let res = run(&mut deps, "marketer", ExecuteMsg::UploadLogo(logo.clone())).unwrap();
    assert_eq!(res.attributes, vec![attr("action", "upload_logo")]);
    assert_eq!(LOGO.load(&deps.storage).unwrap(), logo);
    let stored = MARKETING_INFO.load(&deps.storage).unwrap();
    assert_eq!(stored.logo, Some(LogoInfo::Url("https://example.org/logo.svg".to_string())));
}

#[test]
fn logo_that_is_too_big_is_refused() {
    let mut deps = started();
    with_marketing(&mut deps, "marketer");
    let mut png = vec![0x89, b'P', b'N', b'G', 0x0d, 0x0a, 0x1a, 0x0a];
    png.resize(5 * 1024 + 1, 0);
    let logo = Logo::Embedded(EmbeddedLogo::Png(Binary::from(png)));
    assert_eq!(run(&mut deps, "marketer", ExecuteMsg::UploadLogo(logo)).unwrap_err(), BridgeError::LogoTooBig);
}

#[test]
fn logo_with_a_bad_png_header_is_refused() {
    let mut deps = started();
    with_marketing(&mut deps, "marketer");
    let logo = Logo::Embedded(EmbeddedLogo::Png(Binary::from(b"not a png".to_vec())));
    assert_eq!(
        run(&mut deps, "marketer", ExecuteMsg::UploadLogo(logo)).unwrap_err(),
        BridgeError::InvalidPngHeader
    );
}

#[test]
fn logo_with_a_bad_xml_preamble_is_refused() {
    let mut deps = started();
    with_marketing(&mut deps, "marketer");
    let logo = Logo::Embedded(EmbeddedLogo::Svg(Binary::from(b"<svg></svg>".to_vec())));
    assert_eq!(
        run(&mut deps, "marketer", ExecuteMsg::UploadLogo(logo)).unwrap_err(),
        BridgeError::InvalidXmlPreamble
    );
}

#[test]
fn query_answers_from_the_ledger() {
    let deps = started();
    let host = ReadOnlyHost { deps: deps.as_ref() };
    let raw = query(&host, mock_env(), QueryMsg::Balance { address: "alice".to_string() }).unwrap();
    let answer: BalanceResponse = from_json(&raw).unwrap();
    assert_eq!(answer.balance, Uint128::new(1000));
    let raw = query(&host, mock_env(), QueryMsg::TokenInfo {}).unwrap();
    assert_eq!(
        raw,
        to_json_binary(&TokenInfoResponse {
            name: "Wrapped".to_string(),
            symbol: "WRP".to_string(),
            decimals: 6,
            total_supply: Uint128::new(1000),
        })
        .unwrap()
    );
    let raw = query(&host, mock_env(), QueryMsg::Minter {}).unwrap();
    let answer: Option<MinterResponse> = from_json(&raw).unwrap();
    assert_eq!(answer, Some(MinterResponse { minter: "minter".to_string(), cap: None }));
    let raw = query(
        &host,
        mock_env(),
        QueryMsg::Allowance { owner: "alice".to_string(), spender: "spender".to_string() },
    )
    .unwrap();
    let answer: AllowanceResponse = from_json(&raw).unwrap();
    assert_eq!(answer.allowance, Uint128::zero());
}

#[test]
fn query_for_a_malformed_address_fails() {
    let deps = started();
    let host = ReadOnlyHost { deps: deps.as_ref() };
    let err = query(&host, mock_env(), QueryMsg::Balance { address: "a".to_string() }).unwrap_err();
    assert!(matches!(err, StdError::GenericErr { .. }));
}

#[test]
fn supply_stays_the_sum_of_the_balances() {
    let mut deps = started();
    run(&mut deps, "minter", ExecuteMsg::MintWrapped { recipient: "bobby".to_string(), amount: 250 }).unwrap();
    run(&mut deps, "alice", ExecuteMsg::BurnWrapped { amount: 100, to: "far".to_string() }).unwrap();
    run(&mut deps, "alice", ExecuteMsg::Transfer { recipient: "carol".to_string(), amount: 30 }).unwrap();
    run(&mut deps, "owner", ExecuteMsg::ChangeMinter { account: "carol".to_string() }).unwrap();
    run(&mut deps, "carol", ExecuteMsg::MintWrapped { recipient: "carol".to_string(), amount: 5 }).unwrap();
    run(&mut deps, "bobby", ExecuteMsg::BurnWrapped { amount: 250, to: "far".to_string() }).unwrap();
    let sum = balance(&deps, "alice") + balance(&deps, "bobby") + balance(&deps, "carol");
    assert_eq!(balance(&deps, "alice"), 870);
    assert_eq!(balance(&deps, "bobby"), 0);
    assert_eq!(balance(&deps, "carol"), 35);
    assert_eq!(sum, 905);
    assert_eq!(supply(&deps), 905);
}
