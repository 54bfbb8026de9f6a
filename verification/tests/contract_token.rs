use cw_vault_token::implementations::cw20::REPLY_SAVE_CW20_ADDRESS;
use cw_vault_token::{
    attr, unwrap_reply, Addr, AssertReceived, AssetInfo, Burn, Coin, ContractError, ContractInfo,
    CosmosMsg, Cw20, Cw20InitInfo, CwTokenError, Deps, Env, Event, Holding, Instantiate,
    MessageInfo, Mint, ParseReplyError, Receive, Reply, Response, StdError, SubMsg,
    SubMsgResponse, SupplyOf, Token, TokenIdentity, TokenStorage, Transfer, WasmMsg,
};
use osmosis_std::types::cosmwasm::wasm::v1::MsgInstantiateContractResponse;

fn token_env() -> Env {
    Env { contract: ContractInfo { address: Addr::unchecked("vault") } }
}

fn created_at(address: &str) -> Reply {
    let data = MsgInstantiateContractResponse { address: address.to_string(), data: vec![] };
    Reply {
        id: REPLY_SAVE_CW20_ADDRESS,
        result: Ok(SubMsgResponse { events: vec![], data: Some(data.to_proto_bytes()) }),
    }
}

fn execute(contract: &str, msg: &cw20::Cw20ExecuteMsg) -> Response {
    Response {
        messages: vec![SubMsg::new(CosmosMsg::Wasm(WasmMsg::Execute {
            contract_addr: contract.to_string(),
            msg: cosmwasm_std::to_json_binary(msg).unwrap().to_vec(),
            funds: vec![],
        }))],
        attributes: vec![],
        events: vec![],
    }
}

#[test]
fn cw20_instantiate_asks_for_a_contract() {
    let mut deps = Deps::new();
    let info = Cw20InitInfo {
        code_id: 17,
        admin: Some("admin".to_string()),
        funds: vec![Coin::new(5, "uosmo")],
        label: "vault token".to_string(),
        init_msg: b"{\"name\":\"x\"}".to_vec(),
    };
    let res = Cw20::default().instantiate(&mut deps, Some(info)).unwrap();
    assert_eq!(REPLY_SAVE_CW20_ADDRESS, 14509);
    assert_eq!(
        res,
        Response {
            messages: vec![SubMsg::reply_always(
                CosmosMsg::Wasm(WasmMsg::Instantiate {
                    admin: Some("admin".to_string()),
                    code_id: 17,
                    msg: b"{\"name\":\"x\"}".to_vec(),
                    funds: vec![Coin::new(5, "uosmo")],
                    label: "vault token".to_string(),
                }),
                14509
            )],
            attributes: vec![],
            events: vec![Event {
                ty: "create_cw20".to_string(),
                attributes: vec![attr("label", "vault token")]
            }],
        }
    );
    assert_eq!(deps, Deps::new());

    assert_eq!(
        Cw20::default().instantiate(&mut deps, None),
        Err(CwTokenError::Std(StdError::GenericErr {
            msg: "init_info requried for Cw20".to_string()
        }))
    );
    assert_eq!(deps, Deps::new());
    assert_eq!(Cw20::default().to_string(), "");
}

#[test]
fn cw20_reply_saves_the_address() {
    let mut deps = Deps::new();
    let reply = created_at("osmo1token");
    assert_eq!(Cw20::reply_address(&reply), Ok("osmo1token".to_string()));
    let res =
        Cw20::save_token(&mut deps, &token_env(), &reply, Ok(Addr::unchecked("osmo1token")))
            .unwrap();
    assert_eq!(
        res,
        Response {
            messages: vec![],
            attributes: vec![
                attr("action", "save_cw20_addr"),
                attr("contract_addr", "osmo1token")
            ],
            events: vec![],
        }
    );
    assert_eq!(deps.storage.token, Some(TokenIdentity::Cw20(Addr::unchecked("osmo1token"))));
    assert_eq!(Cw20::load(&deps.storage), Ok(Cw20(Addr::unchecked("osmo1token"))));

    // The next reply replaces it.
    let reply = created_at("osmo1other");
    Cw20::save_token(&mut deps, &token_env(), &reply, Ok(Addr::unchecked("osmo1other"))).unwrap();
    assert_eq!(Cw20::load(&deps.storage), Ok(Cw20(Addr::unchecked("osmo1other"))));
}

#[test]
fn cw20_reply_with_unknown_id_is_refused() {
    let mut deps = Deps::new();
    let mut reply = created_at("osmo1token");
    reply.id = 14508;
    assert_eq!(Cw20::reply_address(&reply), Err(CwTokenError::InvalidReplyId {}));
    assert_eq!(
        Cw20::save_token(&mut deps, &token_env(), &reply, Ok(Addr::unchecked("osmo1token"))),
        Err(CwTokenError::InvalidReplyId {})
    );
    assert_eq!(deps, Deps::new());
    assert_eq!(
        Cw20::load(&deps.storage),
        Err(CwTokenError::Std(StdError::NotFound { kind: "cw_vault_token::Cw20".to_string() }))
    );
}

#[test]
fn cw20_reply_to_a_failed_request_gives_the_hosts_reason() {
    let mut deps = Deps::new();
    let reply = Reply { id: REPLY_SAVE_CW20_ADDRESS, result: Err("out of gas".to_string()) };
    assert_eq!(
        Cw20::save_token(&mut deps, &token_env(), &reply, Ok(Addr::unchecked("osmo1token"))),
        Err(CwTokenError::ParseReplyError(ParseReplyError::SubMsgFailure(
            "out of gas".to_string()
        )))
    );
    assert_eq!(deps, Deps::new());
    assert_eq!(
        unwrap_reply(&reply),
        Err(StdError::GenericErr { msg: "out of gas".to_string() })
    );
    let fine = created_at("a");
    assert_eq!(unwrap_reply(&fine), Ok(fine.result.as_ref().unwrap()));
}

#[test]
fn cw20_reply_with_bad_data_is_an_error() {
    let mut deps = Deps::new();
    let ok = || Ok(Addr::unchecked("osmo1token"));

    let reply = Reply {
        id: REPLY_SAVE_CW20_ADDRESS,
        result: Ok(SubMsgResponse { events: vec![], data: None }),
    };
    assert_eq!(
        Cw20::save_token(&mut deps, &token_env(), &reply, ok()),
        Err(CwTokenError::ParseReplyError(ParseReplyError::ParseFailure(
            "Missing reply data".to_string()
        )))
    );

    // Field 2 where field 1 is looked for.
    let reply = Reply {
        id: REPLY_SAVE_CW20_ADDRESS,
        result: Ok(SubMsgResponse { events: vec![], data: Some(vec![0x12, 0x01, 0x61]) }),
    };
    assert_eq!(
        Cw20::save_token(&mut deps, &token_env(), &reply, ok()),
        Err(CwTokenError::ParseReplyError(ParseReplyError::ParseFailure(
            "failed to decode Protobuf message: invalid field #2 for field #1".to_string()
        )))
    );

    // An address that is no UTF-8 text.
    let bytes = vec![0x0a, 0x02, 0xff, 0xfe];
    let expected = String::from_utf8(vec![0xff, 0xfe]).unwrap_err();
    let reply = Reply {
        id: REPLY_SAVE_CW20_ADDRESS,
        result: Ok(SubMsgResponse { events: vec![], data: Some(bytes) }),
    };
    assert_eq!(
        Cw20::save_token(&mut deps, &token_env(), &reply, ok()),
        Err(CwTokenError::ParseReplyError(ParseReplyError::BrokenUtf8(expected)))
    );
    assert_eq!(deps, Deps::new());
}

#[test]
fn cw20_reply_with_an_address_that_the_host_refuses() {
    let mut deps = Deps::new();
    let reply = created_at("x");
    let refused = StdError::Sdk(cosmwasm_std::StdError::generic_err(
        "Invalid input: human address too short for this mock implementation (must be >= 3).",
    ));
    let same = StdError::Sdk(cosmwasm_std::StdError::generic_err(
        "Invalid input: human address too short for this mock implementation (must be >= 3).",
    ));
    assert_eq!(
        Cw20::save_token(&mut deps, &token_env(), &reply, Err(refused)),
        Err(CwTokenError::Std(same))
    );
    assert_eq!(deps, Deps::new());
}

#[test]
fn cw20_operations_are_messages_to_the_contract() {
    let mut deps = Deps::new();
    let env = token_env();
    let info = MessageInfo { sender: Addr::unchecked("sender"), funds: vec![] };
    let token = Cw20(Addr::unchecked("osmo1token"));

    let res = token.mint(&mut deps, &env, &Addr::unchecked("bob"), 1000).unwrap();
    assert_eq!(
        res,
        execute(
            "osmo1token",
            &cw20::Cw20ExecuteMsg::Mint {
                recipient: "bob".to_string(),
                amount: cosmwasm_std::Uint128::new(1000)
            }
        )
    );
    match &res.messages[0].msg {
        CosmosMsg::Wasm(WasmMsg::Execute { msg, .. }) => {
            assert_eq!(msg.as_slice(), br#"{"mint":{"recipient":"bob","amount":"1000"}}"#)
        }
        other => panic!("unexpected message {:?}", other),
    }

    let res = token.burn(&mut deps, &env, 7).unwrap();
    assert_eq!(
        res,
        execute(
            "osmo1token",
            &cw20::Cw20ExecuteMsg::Burn { amount: cosmwasm_std::Uint128::new(7) }
        )
    );

    let res = token.transfer(&mut deps, &env, &info, "carol", u128::MAX).unwrap();
    assert_eq!(
        res,
        execute(
            "osmo1token",
            &cw20::Cw20ExecuteMsg::Transfer {
                recipient: "carol".to_string(),
                amount: cosmwasm_std::Uint128::MAX
            }
        )
    );

    assert_eq!(
        token.mint(&mut deps, &env, &Addr::unchecked("bob"), 0),
        Err(CwTokenError::Cw20ContractError(ContractError::InvalidZeroAmount {}))
    );
    assert_eq!(deps, Deps::new());
    assert_eq!(Cw20::is_native(), false);
}

#[test]
fn cw20_execute_takes_the_payload_or_the_error() {
    let token = Cw20(Addr::unchecked("osmo1token"));
    let res = token.execute(Ok(vec![1, 2, 3])).unwrap();
    assert_eq!(
        res.messages,
        vec![SubMsg::new(CosmosMsg::Wasm(WasmMsg::Execute {
            contract_addr: "osmo1token".to_string(),
            msg: vec![1, 2, 3],
            funds: vec![],
        }))]
    );
    assert_eq!(
        token.execute(Err(cosmwasm_std::StdError::serialize_err("T", "broken"))),
        Err(CwTokenError::Std(StdError::Sdk(cosmwasm_std::StdError::serialize_err(
            "T", "broken"
        ))))
    );
}

#[test]
fn cw20_queries_read_the_hosts_answers() {
    let mut deps = Deps::new();
    let token = Cw20(Addr::unchecked("osmo1token"));
    assert_eq!(token.query_balance(&deps, "bob"), Ok(0));
    assert_eq!(
        token.query_total_supply(&deps),
        Err(CwTokenError::Std(StdError::NotFound {
            kind: "total supply in token info response".to_string()
        }))
    );
    deps.querier.balances =
        vec![Holding { asset: "osmo1token".to_string(), holder: "bob".to_string(), amount: 12 }];
    deps.querier.supplies =
        vec![SupplyOf { asset: "osmo1token".to_string(), amount: "500".to_string() }];
    assert_eq!(token.query_balance(&deps, "bob"), Ok(12));
    assert_eq!(token.query_total_supply(&deps), Ok(500));
}

#[test]
fn cw20_from_and_to_asset_info() {
    let token = Cw20(Addr::unchecked("osmo1token"));
    assert_eq!(AssetInfo::from(token.clone()), AssetInfo::Cw20(Addr::unchecked("osmo1token")));
    assert_eq!(Cw20::try_from(AssetInfo::Cw20(Addr::unchecked("osmo1token"))), Ok(token));
    assert_eq!(
        Cw20::try_from(AssetInfo::Native("uosmo".to_string())),
        Err(StdError::GenericErr { msg: "Cannot convert native addr to Cw20.".to_string() })
    );
    assert_eq!(
        Cw20::try_from(AssetInfo::Cw1155(Addr::unchecked("c"), "1".to_string())),
        Err(StdError::GenericErr { msg: "Cannot convert Cw1155 asset to Cw20.".to_string() })
    );
    assert_eq!(
        Cw20::try_from(AssetInfo::Unknown),
        Err(StdError::GenericErr { msg: "Cannot convert unknown asset to Cw20.".to_string() })
    );
}

#[test]
fn cw20_receive_checks_the_funds() {
    let mut deps = Deps::new();
    let env = token_env();
    let token = Cw20(Addr::unchecked("osmo1token"));
    let info = MessageInfo {
        sender: Addr::unchecked("sender"),
        funds: vec![Coin::new(1000, "osmo1token")],
    };
    assert_eq!(token.receive(&mut deps, &env, &info, 1000), Ok(()));
    assert_eq!(token.assert_received(&deps, &info, 1000), Ok(()));
    for amount in [999u128, 1001] {
        let expected =
            StdError::GenericErr { msg: format!("Expected to receive {}osmo1token", amount) };
        assert_eq!(token.receive(&mut deps, &env, &info, amount), Err(expected));
        let expected =
            StdError::GenericErr { msg: format!("Expected to receive {}osmo1token", amount) };
        assert_eq!(token.assert_received(&deps, &info, amount), Err(expected));
    }
    assert_eq!(deps, Deps::new());
}

#[test]
fn cw20_reply_taken_twice_changes_nothing_more() {
    let mut deps = Deps::new();
    let reply = created_at("osmo1token");
    let checked = || Ok(Addr::unchecked("osmo1token"));
    let first = Cw20::save_token(&mut deps, &token_env(), &reply, checked()).unwrap();
    let saved = deps.storage.token.clone();
    let second = Cw20::save_token(&mut deps, &token_env(), &reply, checked()).unwrap();
    assert_eq!(first, second);
    assert_eq!(deps.storage.token, saved);
}
