//! A denom of the token factory on a host that answers no supply query: the
//! contract keeps the supply in its own state and moves it with every mint
//! and burn.

use crate::denom::{denom_text, format_denom, parse_denom, DenomView};
use crate::effects::{plain_msg, BankMsg, CosmosMsg, CosmosMsgView, Response, ResponseView};
use crate::error::{
    checked_add, checked_sub, overflow_error, zero_amount_error, ContractError, CwTokenError,
    CwTokenErrorView, OverflowOperation, StdError, StdErrorView,
};
use crate::factory::{burn_msg, burn_view, mint_msg, mint_view};
use crate::host::{attr_view, Addr, Coin, CoinView, Env, Event, EventView, MessageInfo, Reply};
use crate::native::{
    check_funds, create_denom, create_denom_response, funds_check, save_denom,
    save_denom_outcome, send_coins, send_response,
};
use crate::querier::balance_answer;
use crate::state::{
    Deps, DepsView, StorageView, TokenIdentity, TokenIdentityView, TokenStorage,
};
use crate::text::{decimal, decimal_string};
use crate::token::AssertReceived;
use crate::traits::{
    follows, Answer, Burn, Change, Instantiate, Mint, Outcome, Receive, Transfer, VaultToken,
};
use vstd::prelude::*;

verus! {

/// The key under which the contract keeps the supply of its denom.
pub const TOTAL_SUPPLY_KEY: &'static str = "neutron_denom_total_supply";

/// The id under which the host answers the request that creates the denom.
pub const REPLY_SAVE_NEUTRON_DENOM: u64 = 14510;

/// A denom of the token factory, `factory/{owner}/{subdenom}`. Only the
/// owner can mint and burn it.
#[derive(Debug, PartialEq, Eq, Clone)]
pub struct NeutronDenom {
    /// Creator and owner of the denom.
    pub owner: String,
    pub subdenom: String,
}

impl View for NeutronDenom {
    type V = DenomView;

    open spec fn view(&self) -> DenomView {
        DenomView { owner: self.owner@, subdenom: self.subdenom@ }
    }
}

/// The supply that the state records: zero until the first mint.
pub open spec fn recorded_supply(storage: StorageView) -> u128 {
    match storage.total_supply {
        Some(supply) => supply,
        None => 0,
    }
}

/// The effects of a mint: the token factory mints to the contract, the bank
/// sends the new coins on to the recipient, and one event reports it.
pub open spec fn mint_response(
    denom: DenomView,
    contract: Seq<char>,
    recipient: Seq<char>,
    amount: u128,
) -> ResponseView {
    let name = denom_text(denom.owner, denom.subdenom);
    ResponseView {
        messages: seq![
            plain_msg(mint_view(contract, name, decimal(amount as nat), Seq::empty())),
            plain_msg(
                CosmosMsgView::BankSend {
                    to_address: recipient,
                    amount: seq![CoinView { denom: name, amount }],
                },
            ),
        ],
        attributes: Seq::empty(),
        events: seq![
            EventView {
                ty: "apollo/cw-vault-token/neutron"@,
                attributes: seq![
                    attr_view("action"@, "mint"@),
                    attr_view("denom"@, name),
                    attr_view("amount"@, decimal(amount as nat)),
                    attr_view("recipient"@, recipient),
                ],
            },
        ],
    }
}

/// What a mint comes to. To mint nothing is an error, and so is a supply
/// that would leave the range of 128 bits; else the supply grows by `amount`.
pub open spec fn mint_outcome(
    denom: DenomView,
    storage: StorageView,
    contract: Seq<char>,
    recipient: Seq<char>,
    amount: u128,
) -> Outcome {
    let supply = recorded_supply(storage);
    if amount == 0 {
        Err(zero_amount_error())
    } else if supply + amount > u128::MAX {
        Err(CwTokenErrorView::Std(overflow_error(OverflowOperation::Add, supply, amount)))
    } else {
        Ok(
            (
                StorageView { total_supply: Some((supply + amount) as u128), ..storage },
                mint_response(denom, contract, recipient, amount),
            ),
        )
    }
}

/// The effects of a burn: the token factory burns from the contract, and
/// one event reports it.
pub open spec fn burn_response(denom: DenomView, contract: Seq<char>, amount: u128)
    -> ResponseView {
    let name = denom_text(denom.owner, denom.subdenom);
    ResponseView {
        messages: seq![
            plain_msg(burn_view(contract, name, decimal(amount as nat), Seq::empty())),
        ],
        attributes: Seq::empty(),
        events: seq![
            EventView {
                ty: "apollo/cw-vault-token/neutron"@,
                attributes: seq![
                    attr_view("action"@, "burn"@),
                    attr_view("denom"@, name),
                    attr_view("amount"@, decimal(amount as nat)),
                ],
            },
        ],
    }
}

/// What a burn comes to. To burn more than the supply is an error; else the
/// supply shrinks by `amount`.
pub open spec fn burn_outcome(
    denom: DenomView,
    storage: StorageView,
    contract: Seq<char>,
    amount: u128,
) -> Outcome {
    let supply = recorded_supply(storage);
    if amount > supply {
        Err(CwTokenErrorView::Std(overflow_error(OverflowOperation::Sub, supply, amount)))
    } else {
        Ok(
            (
                StorageView { total_supply: Some((supply - amount) as u128), ..storage },
                burn_response(denom, contract, amount),
            ),
        )
    }
}

impl NeutronDenom {
    pub fn new(owner: String, subdenom: String) -> (denom: Self)
        ensures
            denom.owner == owner,
            denom.subdenom == subdenom,
    {
        NeutronDenom { owner, subdenom }
    }

    /// Reads a denom from its full name, `factory/{owner}/{subdenom}`. A text
    /// of any other shape is refused.
    pub fn from_native_denom(denom: &str) -> (r: Result<Self, StdError>)
        ensures
            match crate::denom::denom_parts(denom@) {
                Some(parts) => r is Ok && r->Ok_0@ == parts,
                None => r is Err && r->Err_0@ == (StdErrorView::GenericErr {
                    msg: "Can't create NeutronDenom from invalid denom."@,
                }),
            },
    {
        match parse_denom(denom) {
            Some((owner, subdenom)) => Ok(NeutronDenom { owner, subdenom }),
            None => Err(
                StdError::GenericErr {
                    msg: "Can't create NeutronDenom from invalid denom.".to_owned(),
                },
            ),
        }
    }

    /// Takes the host's reply to the request that `instantiate` made, and
    /// saves the denom that the reply names as the token of the contract.
    pub fn save_token(deps: &mut Deps, _env: &Env, reply: &Reply) -> (r: Result<
        Response,
        CwTokenError,
    >)
        ensures
            follows(
                save_denom_outcome(
                    old(deps)@.storage,
                    reply@,
                    REPLY_SAVE_NEUTRON_DENOM,
                    "Can't create NeutronDenom from invalid denom."@,
                    "save_neutron_denom"@,
                ),
                old(deps)@,
                final(deps)@,
                r,
            ),
    {
        save_denom(
            deps,
            reply,
            REPLY_SAVE_NEUTRON_DENOM,
            "Can't create NeutronDenom from invalid denom.",
            "save_neutron_denom",
        )
    }
}

impl TokenStorage for NeutronDenom {
    open spec fn identity(&self) -> TokenIdentityView {
        TokenIdentityView::Denom { owner: self.owner@, subdenom: self.subdenom@ }
    }

    open spec fn reads(id: TokenIdentityView) -> bool {
        id is Denom
    }

    open spec fn kind_name() -> Seq<char> {
        "cw_vault_token::NeutronDenom"@
    }

    fn kind() -> (name: &'static str) {
        "cw_vault_token::NeutronDenom"
    }

    fn to_identity(&self) -> (id: TokenIdentity) {
        TokenIdentity::Denom { owner: self.owner.clone(), subdenom: self.subdenom.clone() }
    }

    fn from_identity(id: &TokenIdentity) -> (token: Option<Self>) {
        match id {
            TokenIdentity::Denom { owner, subdenom } => Some(
                NeutronDenom { owner: owner.clone(), subdenom: subdenom.clone() },
            ),
            _ => None,
        }
    }
}

impl Instantiate for NeutronDenom {
    type InitInfo = Vec<u8>;

    open spec fn instantiate_outcome(&self, storage: StorageView, init_info: Option<Vec<u8>>)
        -> Outcome {
        Ok((storage, create_denom_response(self@, REPLY_SAVE_NEUTRON_DENOM)))
    }

    /// Asks the token factory to create the denom. Nothing is saved before
    /// the host's reply has come.
    fn instantiate(&self, _deps: &mut Deps, _init_info: Option<Vec<u8>>) -> (r: Result<
        Response,
        CwTokenError,
    >) {
        Ok(create_denom(self.owner.as_str(), self.subdenom.as_str(), REPLY_SAVE_NEUTRON_DENOM))
    }
}

impl Mint for NeutronDenom {
    open spec fn mint_outcome(
        &self,
        storage: StorageView,
        env: Env,
        recipient: Addr,
        amount: u128,
    ) -> Outcome {
        mint_outcome(self@, storage, env.contract.address@, recipient@, amount)
    }

    proof fn mint_of_nothing(&self, storage: StorageView, env: Env, recipient: Addr) {
    }

    /// Asks the token factory to mint to the contract and the bank to send the
    /// new coins on to `recipient`, and adds `amount` to the recorded supply.
    fn mint(&self, deps: &mut Deps, env: &Env, recipient: &Addr, amount: u128) -> (r: Result<
        Response,
        CwTokenError,
    >) {
        if amount == 0 {
            return Err(CwTokenError::Cw20ContractError(ContractError::InvalidZeroAmount {  }));
        }
        let name = self.to_string();
        let amount_text = decimal_string(amount);
        let mint = mint_msg(
            env.contract.address.as_str(),
            name.as_str(),
            amount_text.as_str(),
            "",
        );
        let supply = match deps.storage.total_supply {
            Some(supply) => supply,
            None => 0,
        };
        let grown = match checked_add(supply, amount) {
            Ok(grown) => grown,
            Err(e) => {
                return Err(CwTokenError::Std(e));
            },
        };
        deps.storage.total_supply = Some(grown);
        let event = Event::new("apollo/cw-vault-token/neutron").add_attribute(
            "action",
            "mint",
        ).add_attribute("denom", name.as_str()).add_attribute(
            "amount",
            amount_text.as_str(),
        ).add_attribute("recipient", recipient.as_str());
        let coins = vec![Coin { denom: name.clone(), amount }];
        let send = CosmosMsg::Bank(
            BankMsg::Send { to_address: recipient.to_string(), amount: coins },
        );
        let r = Response::new().add_message(mint).add_message(send).add_event(event);
        proof {
            reveal_strlit("");
            let want = mint_response(self@, env.contract.address@, recipient@, amount);
            assert(""@ =~= Seq::<char>::empty());
            assert(coins.deep_view() =~= seq![CoinView { denom: name@, amount }]);
            assert(event@.attributes =~= want.events[0].attributes);
            assert(r@.messages =~= want.messages);
            assert(r@.events =~= want.events);
        }
        Ok(r)
    }
}

impl Burn for NeutronDenom {
    open spec fn burn_outcome(&self, storage: StorageView, env: Env, amount: u128) -> Outcome {
        burn_outcome(self@, storage, env.contract.address@, amount)
    }

    /// Asks the token factory to burn from the contract, and takes `amount`
    /// off the recorded supply.
    fn burn(&self, deps: &mut Deps, env: &Env, amount: u128) -> (r: Result<
        Response,
        CwTokenError,
    >) {
        let supply = match deps.storage.total_supply {
            Some(supply) => supply,
            None => 0,
        };
        let rest = match checked_sub(supply, amount) {
            Ok(rest) => rest,
            Err(e) => {
                return Err(CwTokenError::Std(e));
            },
        };
        deps.storage.total_supply = Some(rest);
        let name = self.to_string();
        let amount_text = decimal_string(amount);
        let event = Event::new("apollo/cw-vault-token/neutron").add_attribute(
            "action",
            "burn",
        ).add_attribute("denom", name.as_str()).add_attribute("amount", amount_text.as_str());
        let burn = burn_msg(
            env.contract.address.as_str(),
            name.as_str(),
            amount_text.as_str(),
            "",
        );
        let r = Response::new().add_message(burn).add_event(event);
        proof {
            reveal_strlit("");
            let want = burn_response(self@, env.contract.address@, amount);
            assert(""@ =~= Seq::<char>::empty());
            assert(event@.attributes =~= want.events[0].attributes);
            assert(r@.messages =~= want.messages);
            assert(r@.events =~= want.events);
        }
        Ok(r)
    }
}

impl Receive for NeutronDenom {
    open spec fn receive_change(
        &self,
        storage: StorageView,
        env: Env,
        info: MessageInfo,
        amount: u128,
    ) -> Change {
        funds_check(
            storage,
            info.funds.deep_view(),
            CoinView { denom: denom_text(self.owner@, self.subdenom@), amount },
        )
    }

    /// Checks that exactly `amount` of the denom came with the message.
    fn receive(&self, _deps: &mut Deps, _env: &Env, info: &MessageInfo, amount: u128) -> (r: Result<
        (),
        StdError,
    >) {
        check_funds(info, self.to_string(), amount)
    }
}

impl VaultToken for NeutronDenom {
    open spec fn text(&self) -> Seq<char> {
        denom_text(self.owner@, self.subdenom@)
    }

    open spec fn balance_of(&self, deps: DepsView, address: Seq<char>) -> Answer {
        Ok(balance_answer(deps.querier.balances, self.text(), address))
    }

    open spec fn total_supply(&self, deps: DepsView) -> Answer {
        Ok(recorded_supply(deps.storage))
    }

    /// The full name of the denom, `factory/{owner}/{subdenom}`.
    fn to_string(&self) -> (s: String) {
        format_denom(self.owner.as_str(), self.subdenom.as_str())
    }

    /// The balance that the host's bank reports for `address`.
    fn query_balance(&self, deps: &Deps, address: &str) -> (r: Result<u128, CwTokenError>) {
        let name = self.to_string();
        Ok(deps.querier.query_balance(name.as_str(), address))
    }

    /// The supply that the contract's state records.
    fn query_total_supply(&self, deps: &Deps) -> (r: Result<u128, CwTokenError>) {
        match deps.storage.total_supply {
            Some(supply) => Ok(supply),
            None => Ok(0),
        }
    }
}

impl AssertReceived for NeutronDenom {
    open spec fn received_denom(&self) -> Seq<char> {
        self.text()
    }

    /// Checks that exactly `amount` of the denom came with the message.
    fn assert_received(&self, _deps: &Deps, info: &MessageInfo, amount: u128) -> (r: Result<
        (),
        StdError,
    >) {
        check_funds(info, self.to_string(), amount)
    }
}

impl Transfer for NeutronDenom {
    open spec fn transfer_outcome(
        &self,
        storage: StorageView,
        env: Env,
        info: MessageInfo,
        recipient: Seq<char>,
        amount: u128,
    ) -> Outcome {
        Ok((storage, send_response(denom_text(self.owner@, self.subdenom@), recipient, amount)))
    }

    /// Asks the host's bank to move `amount` of the denom from the contract
    /// to `recipient`.
    fn transfer(
        &self,
        _deps: &mut Deps,
        _env: &Env,
        _info: &MessageInfo,
        recipient: &str,
        amount: u128,
    ) -> (r: Result<Response, CwTokenError>) {
        Ok(send_coins(self.to_string(), recipient, amount))
    }
}

} // verus!
