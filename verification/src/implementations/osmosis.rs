//! A denom of the token factory on a host that answers supply queries: the
//! contract keeps nothing about the denom in its own state.

use crate::denom::{denom_text, format_denom, parse_denom, DenomView};
use crate::effects::{plain_msg, Response, ResponseView};
use crate::error::{zero_amount_error, ContractError, CwTokenError, StdError, StdErrorView};
use crate::factory::{burn_msg, burn_view, mint_msg, mint_view};
use crate::host::{attr_view, Addr, CoinView, Env, Event, EventView, MessageInfo, Reply};
use crate::native::{
    check_funds, create_denom, create_denom_response, funds_check, save_denom,
    save_denom_outcome, send_coins, send_response,
};
use crate::querier::{balance_answer, read_supply, supply_answer, supply_outcome};
use crate::state::{
    Deps, DepsView, StorageView, TokenIdentity, TokenIdentityView, TokenStorage,
};
use crate::text::{decimal, decimal_string};
use crate::token::AssertReceived;
use crate::traits::{
    follows, Answer, Burn, Change, Instantiate, Mint, Outcome, Receive, Transfer, VaultToken,
};
use vstd::prelude::*;

verus! {

/// The id under which the host answers the request that creates the denom.
pub const REPLY_SAVE_OSMOSIS_DENOM: u64 = 14508;

/// A denom of the token factory, `factory/{owner}/{subdenom}`. Only the
/// owner can mint and burn it.
#[derive(Debug, PartialEq, Eq, Clone)]
pub struct OsmosisDenom {
    /// Creator and owner of the denom.
    pub owner: String,
    pub subdenom: String,
}

impl View for OsmosisDenom {
    type V = DenomView;

    open spec fn view(&self) -> DenomView {
        DenomView { owner: self.owner@, subdenom: self.subdenom@ }
    }
}

/// The effects of a mint: the token factory mints to the recipient, and one
/// event reports it.
pub open spec fn mint_response(
    denom: DenomView,
    contract: Seq<char>,
    recipient: Seq<char>,
    amount: u128,
) -> ResponseView {
    let name = denom_text(denom.owner, denom.subdenom);
    ResponseView {
        messages: seq![plain_msg(mint_view(contract, name, decimal(amount as nat), recipient))],
        attributes: Seq::empty(),
        events: seq![
            EventView {
                ty: "apollo/cw-vault-token/osmosis"@,
                attributes: seq![
                    attr_view("action"@, "mint"@),
                    attr_view("denom"@, name),
                    attr_view("amount"@, decimal(amount as nat)),
                    attr_view("recipient"@, recipient),
                ],
            },
        ],
    }
}

/// What a mint comes to. To mint nothing is an error; else the state stays
/// as it is and the effects ask the host to mint.
pub open spec fn mint_outcome(
    denom: DenomView,
    storage: StorageView,
    contract: Seq<char>,
    recipient: Seq<char>,
    amount: u128,
) -> Outcome {
    if amount == 0 {
        Err(zero_amount_error())
    } else {
        Ok((storage, mint_response(denom, contract, recipient, amount)))
    }
}

/// The effects of a burn: the token factory burns from the contract, and
/// one event reports it.
pub open spec fn burn_response(denom: DenomView, contract: Seq<char>, amount: u128)
    -> ResponseView {
    let name = denom_text(denom.owner, denom.subdenom);
    ResponseView {
        messages: seq![plain_msg(burn_view(contract, name, decimal(amount as nat), contract))],
        attributes: Seq::empty(),
        events: seq![
            EventView {
                ty: "apollo/cw-vault-token/osmosis"@,
                attributes: seq![
                    attr_view("action"@, "burn"@),
                    attr_view("denom"@, name),
                    attr_view("amount"@, decimal(amount as nat)),
                ],
            },
        ],
    }
}

impl OsmosisDenom {
    pub fn new(owner: String, subdenom: String) -> (denom: Self)
        ensures
            denom.owner == owner,
            denom.subdenom == subdenom,
    {
        OsmosisDenom { owner, subdenom }
    }

    /// Reads a denom from its full name, `factory/{owner}/{subdenom}`. A text
    /// of any other shape is refused.
    pub fn from_native_denom(denom: &str) -> (r: Result<Self, StdError>)
        ensures
            match crate::denom::denom_parts(denom@) {
                Some(parts) => r is Ok && r->Ok_0@ == parts,
                None => r is Err && r->Err_0@ == (StdErrorView::GenericErr {
                    msg: "Can't create OsmosisDenom from invalid denom."@,
                }),
            },
    {
        match parse_denom(denom) {
            Some((owner, subdenom)) => Ok(OsmosisDenom { owner, subdenom }),
            None => Err(
                StdError::GenericErr {
                    msg: "Can't create OsmosisDenom from invalid denom.".to_owned(),
                },
            ),
        }
    }

    /// Takes the host's reply to the request that `instantiate` made, and
    /// saves the denom that the reply names as the token of the contract.
    pub fn save_token(deps: &mut Deps, _env: &Env, reply: &Reply) -> (r: Result<
        Response,
        CwTokenError,
    >)
        ensures
            follows(
                save_denom_outcome(
                    old(deps)@.storage,
                    reply@,
                    REPLY_SAVE_OSMOSIS_DENOM,
                    "Can't create OsmosisDenom from invalid denom."@,
                    "save_osmosis_denom"@,
                ),
                old(deps)@,
                final(deps)@,
                r,
            ),
    {
        save_denom(
            deps,
            reply,
            REPLY_SAVE_OSMOSIS_DENOM,
            "Can't create OsmosisDenom from invalid denom.",
            "save_osmosis_denom",
        )
    }
}

impl TokenStorage for OsmosisDenom {
    open spec fn identity(&self) -> TokenIdentityView {
        TokenIdentityView::Denom { owner: self.owner@, subdenom: self.subdenom@ }
    }

    open spec fn reads(id: TokenIdentityView) -> bool {
        id is Denom
    }

    open spec fn kind_name() -> Seq<char> {
        "cw_vault_token::OsmosisDenom"@
    }

    fn kind() -> (name: &'static str) {
        "cw_vault_token::OsmosisDenom"
    }

    fn to_identity(&self) -> (id: TokenIdentity) {
        TokenIdentity::Denom { owner: self.owner.clone(), subdenom: self.subdenom.clone() }
    }

    fn from_identity(id: &TokenIdentity) -> (token: Option<Self>) {
        match id {
            TokenIdentity::Denom { owner, subdenom } => Some(
                OsmosisDenom { owner: owner.clone(), subdenom: subdenom.clone() },
            ),
            _ => None,
        }
    }
}

impl Instantiate for OsmosisDenom {
    type InitInfo = Vec<u8>;

    open spec fn instantiate_outcome(&self, storage: StorageView, init_info: Option<Vec<u8>>)
        -> Outcome {
        Ok((storage, create_denom_response(self@, REPLY_SAVE_OSMOSIS_DENOM)))
    }

    /// Asks the token factory to create the denom. Nothing is saved before
    /// the host's reply has come.
    fn instantiate(&self, _deps: &mut Deps, _init_info: Option<Vec<u8>>) -> (r: Result<
        Response,
        CwTokenError,
    >) {
        Ok(create_denom(self.owner.as_str(), self.subdenom.as_str(), REPLY_SAVE_OSMOSIS_DENOM))
    }
}

impl Mint for OsmosisDenom {
    open spec fn mint_outcome(
        &self,
        storage: StorageView,
        env: Env,
        recipient: Addr,
        amount: u128,
    ) -> Outcome {
        mint_outcome(self@, storage, env.contract.address@, recipient@, amount)
    }

    proof fn mint_of_nothing(&self, storage: StorageView, env: Env, recipient: Addr) {
    }

    /// Asks the token factory to mint `amount` of the denom to `recipient`.
    fn mint(&self, _deps: &mut Deps, env: &Env, recipient: &Addr, amount: u128) -> (r: Result<
        Response,
        CwTokenError,
    >) {
        if amount == 0 {
            return Err(CwTokenError::Cw20ContractError(ContractError::InvalidZeroAmount {  }));
        }
        let name = self.to_string();
        let amount_text = decimal_string(amount);
        let mint = mint_msg(
            env.contract.address.as_str(),
            name.as_str(),
            amount_text.as_str(),
            recipient.as_str(),
        );
        let event = Event::new("apollo/cw-vault-token/osmosis").add_attribute(
            "action",
            "mint",
        ).add_attribute("denom", name.as_str()).add_attribute(
            "amount",
            amount_text.as_str(),
        ).add_attribute("recipient", recipient.as_str());
        let r = Response::new().add_message(mint).add_event(event);
        proof {
            let want = mint_response(self@, env.contract.address@, recipient@, amount);
            assert(event@.attributes =~= want.events[0].attributes);
            assert(r@.messages =~= want.messages);
            assert(r@.events =~= want.events);
        }
        Ok(r)
    }
}

impl Burn for OsmosisDenom {
    open spec fn burn_outcome(&self, storage: StorageView, env: Env, amount: u128) -> Outcome {
        Ok((storage, burn_response(self@, env.contract.address@, amount)))
    }

    /// Asks the token factory to burn from the contract. Whether the contract
    /// holds that much is for the host to say.
    fn burn(&self, _deps: &mut Deps, env: &Env, amount: u128) -> (r: Result<
        Response,
        CwTokenError,
    >) {
        let name = self.to_string();
        let amount_text = decimal_string(amount);
        let event = Event::new("apollo/cw-vault-token/osmosis").add_attribute(
            "action",
            "burn",
        ).add_attribute("denom", name.as_str()).add_attribute("amount", amount_text.as_str());
        let burn = burn_msg(
            env.contract.address.as_str(),
            name.as_str(),
            amount_text.as_str(),
            env.contract.address.as_str(),
        );
        let r = Response::new().add_message(burn).add_event(event);
        proof {
            let want = burn_response(self@, env.contract.address@, amount);
            assert(event@.attributes =~= want.events[0].attributes);
            assert(r@.messages =~= want.messages);
            assert(r@.events =~= want.events);
        }
        Ok(r)
    }
}

impl Receive for OsmosisDenom {
    open spec fn receive_change(
        &self,
        storage: StorageView,
        env: Env,
        info: MessageInfo,
        amount: u128,
    ) -> Change {
        funds_check(
            storage,
            info.funds.deep_view(),
            CoinView { denom: denom_text(self.owner@, self.subdenom@), amount },
        )
    }

    /// Checks that exactly `amount` of the denom came with the message.
    fn receive(&self, _deps: &mut Deps, _env: &Env, info: &MessageInfo, amount: u128) -> (r: Result<
        (),
        StdError,
    >) {
        check_funds(info, self.to_string(), amount)
    }
}

impl VaultToken for OsmosisDenom {
    open spec fn text(&self) -> Seq<char> {
        denom_text(self.owner@, self.subdenom@)
    }

    open spec fn balance_of(&self, deps: DepsView, address: Seq<char>) -> Answer {
        Ok(balance_answer(deps.querier.balances, self.text(), address))
    }

    open spec fn total_supply(&self, deps: DepsView) -> Answer {
        supply_outcome(
            supply_answer(deps.querier.supplies, self.text()),
            "amount in supply response"@,
        )
    }

    /// The full name of the denom, `factory/{owner}/{subdenom}`.
    fn to_string(&self) -> (s: String) {
        format_denom(self.owner.as_str(), self.subdenom.as_str())
    }

    /// The balance that the host's bank reports for `address`.
    fn query_balance(&self, deps: &Deps, address: &str) -> (r: Result<u128, CwTokenError>) {
        let name = self.to_string();
        Ok(deps.querier.query_balance(name.as_str(), address))
    }

    /// The supply that the host's bank reports. An answer without an amount
    /// is an error, and so is an amount that the host SDK cannot read.
    fn query_total_supply(&self, deps: &Deps) -> (r: Result<u128, CwTokenError>) {
        let name = self.to_string();
        read_supply(deps.querier.query_supply(name.as_str()), "amount in supply response")
    }
}

impl AssertReceived for OsmosisDenom {
    open spec fn received_denom(&self) -> Seq<char> {
        self.text()
    }

    /// Checks that exactly `amount` of the denom came with the message.
    fn assert_received(&self, _deps: &Deps, info: &MessageInfo, amount: u128) -> (r: Result<
        (),
        StdError,
    >) {
        check_funds(info, self.to_string(), amount)
    }
}

impl Transfer for OsmosisDenom {
    open spec fn transfer_outcome(
        &self,
        storage: StorageView,
        env: Env,
        info: MessageInfo,
        recipient: Seq<char>,
        amount: u128,
    ) -> Outcome {
        Ok((storage, send_response(denom_text(self.owner@, self.subdenom@), recipient, amount)))
    }

    /// Asks the host's bank to move `amount` of the denom from the contract
    /// to `recipient`.
    fn transfer(
        &self,
        _deps: &mut Deps,
        _env: &Env,
        _info: &MessageInfo,
        recipient: &str,
        amount: u128,
    ) -> (r: Result<Response, CwTokenError>) {
        Ok(send_coins(self.to_string(), recipient, amount))
    }
}

} // verus!
