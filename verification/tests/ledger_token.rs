use cw_vault_token::{
    attr, Addr, Burn, Coin, ContractError, ContractInfo, Cw4626, Cw4626InstantiateMsg,
    CwTokenError, CwTokenResult, Deps, Env, Event, Instantiate, InstantiateMarketingInfo,
    MarketingInfo, MessageInfo, Mint, OverflowError, OverflowOperation, Receive, Response,
    StdError, TokenInfo, TokenStorage, Transfer, VaultToken,
};

const SENDER: &str = "sender";
const SUBDENOM: &str = "subdenom";

fn ledger_env() -> Env {
    let env = cosmwasm_std::testing::mock_env();
    Env { contract: ContractInfo { address: Addr::unchecked(env.contract.address.as_str()) } }
}

fn mock_info(sender: &str, funds: &[Coin]) -> MessageInfo {
    MessageInfo { sender: Addr::unchecked(sender), funds: funds.to_vec() }
}

fn instantiate_cw4626(cw4626: Cw4626, deps: &mut Deps) -> CwTokenResult<Response> {
    let msg = Cw4626InstantiateMsg {
        name: "Cw4626 tokenized vault".to_string(),
        symbol: "vaultToken".to_string(),
        decimals: 6,
        marketing: None,
    };

    cw4626.instantiate(deps, Some(msg))
}

fn setup_and_mint(mint_amount: u128, recipient: Option<&Addr>) -> (Deps, Env, Cw4626) {
    let mut deps = Deps::new();
    let env = ledger_env();

    let cw4626 = Cw4626 { address: Addr::unchecked("cw4626") };

    instantiate_cw4626(cw4626.clone(), &mut deps).unwrap();

    cw4626
        .mint(&mut deps, &env, recipient.unwrap_or(&env.contract.address), mint_amount)
        .unwrap();

    (deps, env, cw4626)
}

#[test]
fn test_instantiate() {
    let mut deps = Deps::new();
    let cw4626 = Cw4626 { address: Addr::unchecked("cw4626") };

    instantiate_cw4626(cw4626, &mut deps).unwrap();

    // Assert correct token info
    let token_info = deps.storage.token_info.clone().unwrap();
    assert_eq!(token_info.name, "Cw4626 tokenized vault");
    assert_eq!(token_info.symbol, "vaultToken");
    assert_eq!(token_info.decimals, 6);
    assert_eq!(token_info.total_supply, 0);
    assert_eq!(token_info.mint, None);
}

#[test]
fn cw4626_test_mint_and_burn() {
    // Setup and mint 1000 tokens
    let mint_amount = 1000u128;
    let (mut deps, env, cw4626) = setup_and_mint(mint_amount, None);

    // Assert correct balance was minted
    let balance = deps.storage.balances.may_load(&env.contract.address).unwrap();
    assert_eq!(balance, mint_amount);

    // Assert correct total supply
    let token_info = deps.storage.token_info.clone().unwrap();
    assert_eq!(token_info.total_supply, mint_amount);

    // Try burning more than was minted
    let burn_amount = 5000u128;
    let res = cw4626.burn(&mut deps, &env, burn_amount).unwrap_err();

    // Assert error message
    assert_eq!(
        res,
        CwTokenError::Std(StdError::Overflow {
            source: OverflowError {
                operation: OverflowOperation::Sub,
                operand1: mint_amount.to_string(),
                operand2: burn_amount.to_string(),
            }
        })
    );

    // Burn correct amount
    let burn_amount = 500u128;
    cw4626.burn(&mut deps, &env, burn_amount).unwrap();

    // Assert correct balance was burned
    let balance = deps.storage.balances.may_load(&env.contract.address).unwrap();
    assert_eq!(balance, mint_amount - burn_amount);

    // Assert correct total supply
    let token_info = deps.storage.token_info.clone().unwrap();
    assert_eq!(token_info.total_supply, mint_amount - burn_amount);
}

#[test]
fn test_vault_token_queries() {
    // Setup and mint 1000 tokens
    let mint_amount = 1000u128;
    let (deps, env, cw4626) = setup_and_mint(mint_amount, None);

    // Assert that total supply query is correct
    let total_supply = cw4626.query_total_supply(&deps).unwrap();
    assert_eq!(total_supply, mint_amount);

    // Assert that balance query is correct
    let balance = cw4626.query_balance(&deps, env.contract.address.as_str()).unwrap();
    assert_eq!(balance, mint_amount);
}

#[test]
fn test_receive() {
    let sender = Addr::unchecked(SENDER);
    let info = mock_info(SENDER, &[]);

    // Setup and mint 1000 tokens
    let mint_amount = 1000u128;
    let (mut deps, env, cw4626) = setup_and_mint(mint_amount, Some(&sender));

    // Test receiving more than was minted
    let receive_amount = 5000u128;
    let res = cw4626.receive(&mut deps, &env, &info, receive_amount).unwrap_err();

    // Assert overflow error message
    assert_eq!(
        res,
        StdError::Overflow {
            source: OverflowError {
                operation: OverflowOperation::Sub,
                operand1: mint_amount.to_string(),
                operand2: receive_amount.to_string(),
            }
        }
    );

    // Receive 500 tokens
    let receive_amount = 250u128;
    cw4626.receive(&mut deps, &env, &info, receive_amount).unwrap();

    // Assert correct balance was received
    let balance = deps.storage.balances.may_load(&env.contract.address).unwrap();
    assert_eq!(balance, receive_amount);

    // Assert correct balance was deducted from sender
    let balance = deps.storage.balances.may_load(&sender).unwrap();
    assert_eq!(balance, mint_amount - receive_amount);

    // Assert correct total supply
    let token_info = deps.storage.token_info.clone().unwrap();
    assert_eq!(token_info.total_supply, mint_amount);
}

#[test]
fn test_to_string() {
    let cw4626 = Cw4626 { address: Addr::unchecked("cw4626") };

    assert_eq!(cw4626.to_string(), "cw4626");
}

#[test]
fn test_with_osmosis_bindings() {
    // The two accounts of the host, with what they hold there.
    let accs = [
        mock_info(
            "osmo1creator",
            &[Coin::new(1_000_000_000_000, "uatom"), Coin::new(1_000_000_000_000, "uosmo")],
        ),
        mock_info(
            "osmo1recipient",
            &[Coin::new(1_000_000_000_000, "uatom"), Coin::new(1_000_000_000_000, "uosmo")],
        ),
    ];

    // test_instantiate
    let mut deps = Deps::new();
    let cw4626 = Cw4626::new(&ledger_env());
    let init_info = Cw4626InstantiateMsg {
        name: SUBDENOM.to_string(),
        symbol: "VAULT".to_string(),
        decimals: 6,
        marketing: None,
    };
    cw4626.instantiate(&mut deps, Some(init_info)).unwrap();
    let token_info = deps.storage.token_info.clone().unwrap();
    assert_eq!(
        token_info,
        TokenInfo {
            name: SUBDENOM.to_string(),
            symbol: "VAULT".to_string(),
            decimals: 6,
            total_supply: 0,
            mint: None
        }
    );

    // test_mint
    let creator = &accs[0];
    let recipient = &accs[1];
    let mut env = ledger_env();
    env.contract.address = creator.sender.clone();
    let amount_to_mint = 10000000u128;
    cw4626.mint(&mut deps, &env, &recipient.sender, amount_to_mint).unwrap();
    let supply = cw4626.query_total_supply(&deps).unwrap();
    assert_eq!(supply, 10000000);
    let balance = cw4626.query_balance(&deps, recipient.sender.as_str()).unwrap();
    assert_eq!(balance, 10000000);

    // test_burn
    let creator = &accs[1];
    let recipient = &accs[1];
    let mut env = ledger_env();
    env.contract.address = creator.sender.clone();
    let amount_to_burn = 1000000u128;
    cw4626.burn(&mut deps, &env, amount_to_burn).unwrap();
    let supply = cw4626.query_total_supply(&deps).unwrap();
    assert_eq!(supply, 9000000);
    let balance = cw4626.query_balance(&deps, recipient.sender.as_str()).unwrap();
    assert_eq!(balance, 9000000);

    // query_vault_supply
    let supply = cw4626.query_total_supply(&deps).unwrap();
    assert_eq!(supply, 9000000);

    // query_balance
    let balance = cw4626.query_balance(&deps, recipient.sender.as_str()).unwrap();
    assert_eq!(balance, 9000000);
}

#[test]
fn ledger_effects_report_the_operation() {
    let mut deps = Deps::new();
    let env = ledger_env();
    let cw4626 = Cw4626 { address: Addr::unchecked("cw4626") };
    let res = instantiate_cw4626(cw4626.clone(), &mut deps).unwrap();
    let attrs = vec![
        attr("action", "instantiate"),
        attr("name", "Cw4626 tokenized vault"),
        attr("symbol", "vaultToken"),
        attr("decimals", "6"),
    ];
    assert_eq!(
        res,
        Response {
            messages: vec![],
            attributes: attrs.clone(),
            events: vec![Event {
                ty: "apollo/cw-vault-token/cw4626".to_string(),
                attributes: attrs
            }],
        }
    );

    let res = cw4626.mint(&mut deps, &env, &env.contract.address, 1000).unwrap();
    let attrs = vec![
        attr("action", "mint"),
        attr("vault_token_address", "cw4626"),
        attr("amount", "1000"),
        attr("recipient", "cosmos2contract"),
    ];
    assert_eq!(
        res,
        Response {
            messages: vec![],
            attributes: attrs.clone(),
            events: vec![Event {
                ty: "apollo/cw-vault-token/cw4626".to_string(),
                attributes: attrs
            }],
        }
    );

    let res = cw4626.burn(&mut deps, &env, 400).unwrap();
    let attrs =
        vec![attr("action", "burn"), attr("vault_token_address", "cw4626"), attr("amount", "400")];
    assert_eq!(
        res,
        Response {
            messages: vec![],
            attributes: attrs.clone(),
            events: vec![Event {
                ty: "apollo/cw-vault-token/cw4626".to_string(),
                attributes: attrs
            }],
        }
    );
}

#[test]
fn ledger_instantiate_checks_the_message() {
    let cw4626 = Cw4626 { address: Addr::unchecked("cw4626") };
    let mut deps = Deps::new();

    assert_eq!(
        cw4626.instantiate(&mut deps, None),
        Err(CwTokenError::Std(StdError::GenericErr {
            msg: "init_info requried for Cw4626".to_string()
        }))
    );
    assert_eq!(deps, Deps::new());

    let message = |name: &str, symbol: &str, decimals: u8| Cw4626InstantiateMsg {
        name: name.to_string(),
        symbol: symbol.to_string(),
        decimals,
        marketing: None,
    };
    let sdk = |text: &str| {
        Err(CwTokenError::Std(StdError::Sdk(cosmwasm_std::StdError::generic_err(text))))
    };
    let bad_name = "Name is not in the expected format (3-50 UTF-8 bytes)";
    let bad_symbol = "Ticker symbol is not in expected format [a-zA-Z\\-]{3,12}";
    let bad_decimals = "Decimals must not exceed 18";

    assert_eq!(cw4626.instantiate(&mut deps, Some(message("ab", "VAULT", 6))), sdk(bad_name));
    assert_eq!(
        cw4626.instantiate(&mut deps, Some(message(&"x".repeat(51), "VAULT", 6))),
        sdk(bad_name)
    );
    // The name is measured in bytes, not in characters.
    assert_eq!(
        cw4626.instantiate(&mut deps, Some(message(&"ü".repeat(26), "VAULT", 6))),
        sdk(bad_name)
    );
    assert_eq!(cw4626.instantiate(&mut deps, Some(message("abc", "VA", 6))), sdk(bad_symbol));
    assert_eq!(
        cw4626.instantiate(&mut deps, Some(message("abc", "VAULTVAULTVAU", 6))),
        sdk(bad_symbol)
    );
    assert_eq!(cw4626.instantiate(&mut deps, Some(message("abc", "VAU1T", 6))), sdk(bad_symbol));
    assert_eq!(cw4626.instantiate(&mut deps, Some(message("abc", "VAULT", 19))), sdk(bad_decimals));
    assert_eq!(deps, Deps::new());

    assert!(cw4626.instantiate(&mut deps, Some(message("abc", "a-Z", 18))).is_ok());
    assert!(cw4626.instantiate(&mut deps, Some(message(&"ü".repeat(25), "abcdefghijkl", 0))).is_ok());
    assert_eq!(message("ab", "VAULT", 6).validate().is_ok(), false);
    assert_eq!(message("abc", "VAULT", 6).validate(), Ok(()));
}

#[test]
fn ledger_instantiate_saves_the_marketing_info() {
    let cw4626 = Cw4626 { address: Addr::unchecked("cw4626") };
    let mut deps = Deps::new();
    let msg = Cw4626InstantiateMsg {
        name: "Vault".to_string(),
        symbol: "VAULT".to_string(),
        decimals: 6,
        marketing: Some(InstantiateMarketingInfo {
            project: Some("project".to_string()),
            description: None,
            marketing: Some(Addr::unchecked("marketer")),
        }),
    };
    cw4626.instantiate(&mut deps, Some(msg)).unwrap();
    assert_eq!(
        deps.storage.marketing_info,
        Some(MarketingInfo {
            project: Some("project".to_string()),
            description: None,
            marketing: Some(Addr::unchecked("marketer")),
        })
    );
    assert_eq!(cw4626.query_total_supply(&deps), Ok(0));
    assert_eq!(deps.storage.token, None);
    assert_eq!(cw4626.save(&mut deps.storage), Ok(()));
    assert_eq!(Cw4626::load(&deps.storage), Ok(cw4626));
}

#[test]
fn ledger_mint_needs_a_token_and_an_amount() {
    let env = ledger_env();
    let bob = Addr::unchecked("bob");
    let cw4626 = Cw4626 { address: Addr::unchecked("cw4626") };
    let mut deps = Deps::new();

    // Nothing is minted before the token is set up; zero is refused first.
    assert_eq!(
        cw4626.mint(&mut deps, &env, &bob, 0),
        Err(CwTokenError::Cw20ContractError(ContractError::InvalidZeroAmount {}))
    );
    assert_eq!(
        cw4626.mint(&mut deps, &env, &bob, 1),
        Err(CwTokenError::Cw20ContractError(ContractError::Unauthorized {}))
    );
    assert_eq!(
        cw4626.query_total_supply(&deps),
        Err(CwTokenError::Std(StdError::NotFound {
            kind: "cw20_base::state::TokenInfo".to_string()
        }))
    );
    assert_eq!(
        cw4626.burn(&mut deps, &env, 0),
        Err(CwTokenError::Std(StdError::NotFound {
            kind: "cw20_base::state::TokenInfo".to_string()
        }))
    );
    assert_eq!(deps, Deps::new());

    instantiate_cw4626(cw4626.clone(), &mut deps).unwrap();
    assert_eq!(
        cw4626.mint(&mut deps, &env, &bob, 0),
        Err(CwTokenError::Cw20ContractError(ContractError::InvalidZeroAmount {}))
    );
    assert_eq!(cw4626.query_total_supply(&deps), Ok(0));
    assert_eq!(deps.storage.balances.may_load(&bob), None);
    assert_eq!(cw4626.query_balance(&deps, "bob"), Ok(0));
}

#[test]
fn ledger_mint_overflow_is_an_error_and_changes_nothing() {
    let bob = Addr::unchecked("bob");
    let (mut deps, env, cw4626) = setup_and_mint(u128::MAX - 10, Some(&bob));
    let err = cw4626.mint(&mut deps, &env, &Addr::unchecked("carol"), 11).unwrap_err();
    assert_eq!(
        err,
        CwTokenError::Std(StdError::Overflow {
            source: OverflowError {
                operation: OverflowOperation::Add,
                operand1: (u128::MAX - 10).to_string(),
                operand2: "11".to_string(),
            }
        })
    );
    assert_eq!(cw4626.query_total_supply(&deps), Ok(u128::MAX - 10));
    assert_eq!(deps.storage.balances.may_load(&Addr::unchecked("carol")), None);
    cw4626.mint(&mut deps, &env, &Addr::unchecked("carol"), 10).unwrap();
    assert_eq!(cw4626.query_total_supply(&deps), Ok(u128::MAX));
    assert_eq!(cw4626.query_balance(&deps, "carol"), Ok(10));
    assert_eq!(cw4626.query_balance(&deps, "bob"), Ok(u128::MAX - 10));
}

#[test]
fn ledger_mint_then_burn_restores_supply_and_balance() {
    for start in [0u128, 5, 1000] {
        for amount in [1u128, 5, 999] {
            let (mut deps, env, cw4626) = setup_and_mint(1, Some(&Addr::unchecked("other")));
            if start > 0 {
                cw4626.mint(&mut deps, &env, &env.contract.address, start).unwrap();
            }
            let supply = cw4626.query_total_supply(&deps).unwrap();
            cw4626.mint(&mut deps, &env, &env.contract.address, amount).unwrap();
            assert_eq!(cw4626.query_total_supply(&deps), Ok(supply + amount));
            assert_eq!(
                cw4626.query_balance(&deps, env.contract.address.as_str()),
                Ok(start + amount)
            );
            cw4626.burn(&mut deps, &env, amount).unwrap();
            assert_eq!(cw4626.query_total_supply(&deps), Ok(supply));
            assert_eq!(cw4626.query_balance(&deps, env.contract.address.as_str()), Ok(start));
            assert_eq!(cw4626.query_balance(&deps, "other"), Ok(1));
        }
    }
}

#[test]
fn ledger_burn_takes_from_the_contract_only() {
    // The tokens are bob's, not the contract's: there is nothing to burn.
    let (mut deps, env, cw4626) = setup_and_mint(1000, Some(&Addr::unchecked("bob")));
    assert_eq!(
        cw4626.burn(&mut deps, &env, 1),
        Err(CwTokenError::Std(StdError::Overflow {
            source: OverflowError {
                operation: OverflowOperation::Sub,
                operand1: "0".to_string(),
                operand2: "1".to_string(),
            }
        }))
    );
    assert_eq!(cw4626.query_total_supply(&deps), Ok(1000));
    assert_eq!(cw4626.query_balance(&deps, "bob"), Ok(1000));
    assert_eq!(deps.storage.balances.may_load(&env.contract.address), None);
    // To burn nothing is no error, and it gives the contract a balance of zero.
    cw4626.burn(&mut deps, &env, 0).unwrap();
    assert_eq!(deps.storage.balances.may_load(&env.contract.address), Some(0));
}

#[test]
fn ledger_receive_from_the_contract_itself() {
    let (mut deps, env, cw4626) = setup_and_mint(1000, None);
    let info = mock_info(env.contract.address.as_str(), &[]);
    cw4626.receive(&mut deps, &env, &info, 400).unwrap();
    assert_eq!(cw4626.query_balance(&deps, env.contract.address.as_str()), Ok(1000));
    assert!(cw4626.receive(&mut deps, &env, &info, 1001).is_err());
    assert_eq!(cw4626.query_balance(&deps, env.contract.address.as_str()), Ok(1000));
}

#[test]
fn ledger_transfer_moves_the_contracts_tokens() {
    let (mut deps, env, cw4626) = setup_and_mint(1000, None);
    let info = mock_info(SENDER, &[]);
    let res = Transfer::transfer(&cw4626, &mut deps, &env, &info, "bob", 300).unwrap();
    let attrs = vec![
        attr("action", "transfer"),
        attr("vault_token_address", "cw4626"),
        attr("amount", "300"),
        attr("recipient", "bob"),
    ];
    assert_eq!(
        res,
        Response {
            messages: vec![],
            attributes: attrs.clone(),
            events: vec![Event {
                ty: "apollo/cw-vault-token/cw4626".to_string(),
                attributes: attrs
            }],
        }
    );
    assert_eq!(cw4626.query_balance(&deps, "bob"), Ok(300));
    assert_eq!(cw4626.query_balance(&deps, env.contract.address.as_str()), Ok(700));
    assert_eq!(cw4626.query_total_supply(&deps), Ok(1000));
    assert_eq!(
        Transfer::transfer(&cw4626, &mut deps, &env, &info, "bob", 701),
        Err(CwTokenError::Std(StdError::Overflow {
            source: OverflowError {
                operation: OverflowOperation::Sub,
                operand1: "700".to_string(),
                operand2: "701".to_string(),
            }
        }))
    );
    assert_eq!(cw4626.query_balance(&deps, "bob"), Ok(300));
    assert_eq!(cw4626.query_balance(&deps, env.contract.address.as_str()), Ok(700));
}
