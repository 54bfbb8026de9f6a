use cw_vault_token::{
    Addr, AssertReceived, Coin, ContractInfo, Deps, Env, MessageInfo, NeutronDenom, OsmosisDenom,
    Receive, StdError, VaultToken,
};

const SENDER: &str = "sender";
const SUBDENOM: &str = "subdenom";

fn contract_env() -> Env {
    let env = cosmwasm_std::testing::mock_env();
    Env { contract: ContractInfo { address: Addr::unchecked(env.contract.address.as_str()) } }
}

fn invalid_denom(kind: &str) -> StdError {
    StdError::GenericErr { msg: format!("Can't create {} from invalid denom.", kind) }
}

#[test]
fn neutron_to_string() {
    let denom = NeutronDenom::new(SENDER.to_string(), SUBDENOM.to_string());
    assert_eq!(denom.to_string(), format!("factory/{}/{}", SENDER, SUBDENOM));
}

#[test]
fn osmosis_to_string() {
    let denom = OsmosisDenom::new(SENDER.to_string(), SUBDENOM.to_string());
    assert_eq!(denom.to_string(), format!("factory/{}/{}", SENDER, SUBDENOM));
}

#[test]
fn neutron_from_native_denom_valid_denom() {
    let denom = NeutronDenom::from_native_denom("factory/sender/subdenom").unwrap();
    assert_eq!(denom.owner, "sender");
    assert_eq!(denom.subdenom, "subdenom");
}

#[test]
fn neutron_from_native_denom_too_few_parts() {
    assert_eq!(
        NeutronDenom::from_native_denom("factory/sender"),
        Err(invalid_denom("NeutronDenom"))
    );
}

#[test]
fn neutron_from_native_denom_too_many_parts() {
    assert_eq!(
        NeutronDenom::from_native_denom("factory/sender/subdenom/extra"),
        Err(invalid_denom("NeutronDenom"))
    );
}

#[test]
fn neutron_from_native_denom_wrong_first_part() {
    assert_eq!(
        NeutronDenom::from_native_denom("wrong/sender/subdenom"),
        Err(invalid_denom("NeutronDenom"))
    );
}

#[test]
fn osmosis_from_native_denom_valid_denom() {
    let denom = OsmosisDenom::from_native_denom("factory/sender/subdenom").unwrap();
    assert_eq!(denom.owner, "sender");
    assert_eq!(denom.subdenom, "subdenom");
}

#[test]
fn osmosis_from_native_denom_too_few_parts() {
    assert_eq!(
        OsmosisDenom::from_native_denom("factory/sender"),
        Err(invalid_denom("OsmosisDenom"))
    );
}

#[test]
fn osmosis_from_native_denom_too_many_parts() {
    assert_eq!(
        OsmosisDenom::from_native_denom("factory/sender/subdenom/extra"),
        Err(invalid_denom("OsmosisDenom"))
    );
}

#[test]
fn osmosis_from_native_denom_wrong_first_part() {
    assert_eq!(
        OsmosisDenom::from_native_denom("wrong/sender/subdenom"),
        Err(invalid_denom("OsmosisDenom"))
    );
}

#[test]
fn from_native_denom_edge_shapes() {
    // Empty segments are segments: the owner or the subdenom may be empty.
    let denom = OsmosisDenom::from_native_denom("factory//").unwrap();
    assert_eq!(denom.owner, "");
    assert_eq!(denom.subdenom, "");
    let denom = NeutronDenom::from_native_denom("factory/a/").unwrap();
    assert_eq!(denom.owner, "a");
    assert_eq!(denom.subdenom, "");
    assert!(OsmosisDenom::from_native_denom("").is_err());
    assert!(OsmosisDenom::from_native_denom("factory").is_err());
    assert!(OsmosisDenom::from_native_denom("factory/").is_err());
    assert!(OsmosisDenom::from_native_denom("Factory/a/b").is_err());
    assert!(OsmosisDenom::from_native_denom("factoryx/a/b").is_err());
    assert!(OsmosisDenom::from_native_denom("/factory/a").is_err());
    assert!(NeutronDenom::from_native_denom("factory/a/b/").is_err());
}

#[test]
fn denom_round_trip_on_values() {
    let owners = ["alice", "", "osmo1xyz", "ünïcödé"];
    let subdenoms = ["vault", "", "a-b_c.d", "日本"];
    for owner in owners {
        for subdenom in subdenoms {
            let denom = OsmosisDenom::new(owner.to_string(), subdenom.to_string());
            let read = OsmosisDenom::from_native_denom(&denom.to_string()).unwrap();
            assert_eq!(read, denom);
            let denom = NeutronDenom::new(owner.to_string(), subdenom.to_string());
            let read = NeutronDenom::from_native_denom(&denom.to_string()).unwrap();
            assert_eq!(read, denom);
            assert_eq!(read.to_string(), format!("factory/{}/{}", owner, subdenom));
        }
    }
}

fn receive_with_funds(neutron: bool, receive_amount: u128, sent_amount: u128) -> Result<(), StdError> {
    let mut deps = Deps::new();
    let env = contract_env();
    let name = format!("factory/{}/{}", env.contract.address.as_str(), SUBDENOM);
    let info = MessageInfo {
        sender: Addr::unchecked(SENDER),
        funds: vec![Coin { denom: name, amount: sent_amount }],
    };
    let owner = env.contract.address.to_string();
    let result = if neutron {
        let denom = NeutronDenom::new(owner, SUBDENOM.to_string());
        let checked = denom.assert_received(&deps, &info, receive_amount);
        assert_eq!(denom.receive(&mut deps, &env, &info, receive_amount), checked);
        checked
    } else {
        let denom = OsmosisDenom::new(owner, SUBDENOM.to_string());
        let checked = denom.assert_received(&deps, &info, receive_amount);
        assert_eq!(denom.receive(&mut deps, &env, &info, receive_amount), checked);
        checked
    };
    assert_eq!(deps, Deps::new());
    result
}

fn expected_to_receive(amount: u128) -> StdError {
    StdError::GenericErr {
        msg: format!("Expected to receive {}factory/cosmos2contract/subdenom", amount),
    }
}

#[test]
fn neutron_receive_sent_amount_correct() {
    assert_eq!(receive_with_funds(true, 1000, 1000), Ok(()));
}

#[test]
fn neutron_receive_sent_amount_too_large() {
    assert_eq!(receive_with_funds(true, 1000, 1001), Err(expected_to_receive(1000)));
}

#[test]
fn neutron_receive_sent_amount_too_small() {
    assert_eq!(receive_with_funds(true, 1000, 999), Err(expected_to_receive(1000)));
}

#[test]
fn osmosis_receive_sent_amount_correct() {
    assert_eq!(receive_with_funds(false, 1000, 1000), Ok(()));
}

#[test]
fn osmosis_receive_sent_amount_too_large() {
    assert_eq!(receive_with_funds(false, 1000, 1001), Err(expected_to_receive(1000)));
}

#[test]
fn osmosis_receive_sent_amount_too_small() {
    assert_eq!(receive_with_funds(false, 1000, 999), Err(expected_to_receive(1000)));
}

#[test]
fn receive_looks_at_every_coin_and_at_the_denom() {
    let mut deps = Deps::new();
    let env = contract_env();
    let denom = OsmosisDenom::new("alice".to_string(), "vault".to_string());
    let info = MessageInfo {
        sender: Addr::unchecked(SENDER),
        funds: vec![
            Coin::new(5, "uosmo"),
            Coin::new(7, "factory/alice/other"),
            Coin::new(7, "factory/alice/vault"),
        ],
    };
    assert_eq!(denom.receive(&mut deps, &env, &info, 7), Ok(()));
    assert_eq!(
        denom.receive(&mut deps, &env, &info, 5),
        Err(StdError::GenericErr { msg: "Expected to receive 5factory/alice/vault".to_string() })
    );
    let nothing = MessageInfo { sender: Addr::unchecked(SENDER), funds: vec![] };
    assert_eq!(
        denom.receive(&mut deps, &env, &nothing, 0),
        Err(StdError::GenericErr { msg: "Expected to receive 0factory/alice/vault".to_string() })
    );
}

#[test]
fn coin_is_written_as_the_host_writes_it() {
    let coin = Coin::new(123456789012345678901234567890, "uatom");
    let theirs = cosmwasm_std::Coin::new(123456789012345678901234567890, "uatom");
    assert_eq!(coin.to_string(), theirs.to_string());
    assert_eq!(Coin::new(0, "x").to_string(), "0x");
    assert_eq!(Coin::new(u128::MAX, "").to_string(), u128::MAX.to_string());
}
