//! A token that a contract of its own keeps. Every operation on it is one
//! message to that contract, and the token's contract comes into being
//! through a request whose reply brings its address.

use crate::effects::{
    plain_msg, request_msg, CosmosMsg, CosmosMsgView, Response, ResponseView, SubMsg, WasmMsg,
};
use crate::error::{ContractError, CwTokenError, CwTokenErrorView, StdError, StdErrorView};
use crate::host::{
    attr_view, Addr, Coin, CoinView, Env, Event, EventView, MessageInfo, Reply, ReplyView,
};
use crate::native::{check_funds, funds_check};
use crate::querier::{balance_answer, read_supply, supply_answer, supply_outcome};
use crate::reply::{parse_reply_instantiate_data, reply_instantiate_data};
use crate::state::{
    Deps, DepsView, StorageView, TokenIdentity, TokenIdentityView, TokenStorage,
};
use crate::token::{AssertReceived, Token};
use crate::traits::{
    follows, Answer, Burn, Change, Instantiate, Mint, Outcome, Receive, Transfer,
};
use cosmwasm_std::StdError as SdkError;
use vstd::prelude::*;

verus! {

/// The id under which the host answers the request that creates the token's
/// contract.
pub const REPLY_SAVE_CW20_ADDRESS: u64 = 14509;

/// A token that the contract at this address keeps.
#[derive(Debug, PartialEq, Eq, Clone)]
pub struct Cw20(pub Addr);

impl View for Cw20 {
    type V = Seq<char>;

    open spec fn view(&self) -> Seq<char> {
        self.0@
    }
}

/// An asset: a denom of the host, or a token that a contract keeps.
#[derive(Debug, PartialEq, Eq, Clone)]
pub enum AssetInfo {
    Native(String),
    Cw20(Addr),
    Cw1155(Addr, String),
    /// An asset of a kind that this library does not know.
    Unknown,
}

/// What the library asks the contract that creates a token's contract.
#[derive(Debug, PartialEq, Eq, Clone)]
pub struct Cw20InitInfo {
    pub code_id: u64,
    pub admin: Option<String>,
    pub funds: Vec<Coin>,
    pub label: String,
    pub init_msg: Vec<u8>,
}

/// [`Cw20InitInfo`] as a value: its texts as sequences of characters, its lists as
/// sequences.
pub struct Cw20InitInfoView {
    pub code_id: u64,
    pub admin: Option<Seq<char>>,
    pub funds: Seq<CoinView>,
    pub label: Seq<char>,
    pub init_msg: Seq<u8>,
}

impl View for Cw20InitInfo {
    type V = Cw20InitInfoView;

    open spec fn view(&self) -> Cw20InitInfoView {
        Cw20InitInfoView {
            code_id: self.code_id,
            admin: self.admin.deep_view(),
            funds: self.funds.deep_view(),
            label: self.label@,
            init_msg: self.init_msg@,
        }
    }
}

/// A message to the contract that keeps a token.
#[derive(Debug, PartialEq, Eq, Clone)]
pub enum Cw20ExecuteMsg {
    /// Moves tokens of the sender to `recipient`.
    Transfer { recipient: String, amount: u128 },
    /// Destroys tokens of the sender.
    Burn { amount: u128 },
    /// Makes new tokens for `recipient`.
    Mint { recipient: String, amount: u128 },
}

/// [`Cw20ExecuteMsg`] as a value: its texts as sequences of characters, its lists as
/// sequences.
pub enum Cw20ExecuteMsgView {
    Transfer { recipient: Seq<char>, amount: u128 },
    Burn { amount: u128 },
    Mint { recipient: Seq<char>, amount: u128 },
}

impl View for Cw20ExecuteMsg {
    type V = Cw20ExecuteMsgView;

    open spec fn view(&self) -> Cw20ExecuteMsgView {
        match self {
            Cw20ExecuteMsg::Transfer { recipient, amount } => Cw20ExecuteMsgView::Transfer {
                recipient: recipient@,
                amount: *amount,
            },
            Cw20ExecuteMsg::Burn { amount } => Cw20ExecuteMsgView::Burn { amount: *amount },
            Cw20ExecuteMsg::Mint { recipient, amount } => Cw20ExecuteMsgView::Mint {
                recipient: recipient@,
                amount: *amount,
            },
        }
    }
}

/// The payload that carries `msg` to the contract that keeps a token, or
/// the host SDK's error where it writes none.
pub uninterp spec fn execute_msg_json(msg: Cw20ExecuteMsgView) -> Result<Seq<u8>, SdkError>;

/// An encoding, with the bytes in it as values.
pub open spec fn payload_view(payload: Result<Vec<u8>, SdkError>) -> Result<Seq<u8>, SdkError> {
    match payload {
        Ok(bytes) => Ok(bytes@),
        Err(e) => Err(e),
    }
}

/// Calls `to_json_binary` of cosmwasm_std on the message of the cw20 crate
/// that has the same variant and fields. The contract claims only that the
/// outcome depends on the message alone.
#[verifier::external_body]
pub(crate) fn encode_execute_msg(msg: &Cw20ExecuteMsg) -> (r: Result<Vec<u8>, SdkError>)
    ensures
        payload_view(r) == execute_msg_json(msg@),
{
    let msg = match msg {
        Cw20ExecuteMsg::Transfer { recipient, amount } => cw20::Cw20ExecuteMsg::Transfer {
            recipient: recipient.clone(),
            amount: cosmwasm_std::Uint128::new(*amount),
        },
        Cw20ExecuteMsg::Burn { amount } => cw20::Cw20ExecuteMsg::Burn {
            amount: cosmwasm_std::Uint128::new(*amount),
        },
        Cw20ExecuteMsg::Mint { recipient, amount } => cw20::Cw20ExecuteMsg::Mint {
            recipient: recipient.clone(),
            amount: cosmwasm_std::Uint128::new(*amount),
        },
    };
    cosmwasm_std::to_json_binary(&msg).map(|b| b.0)
}

/// What sending a payload to the token's contract comes to: one message
/// with the payload, or the error that came in the payload's place. The state
/// is not touched.
pub open spec fn execute_outcome(
    contract: Seq<char>,
    storage: StorageView,
    payload: Result<Seq<u8>, SdkError>,
) -> Outcome {
    match payload {
        Ok(bytes) => Ok((storage, execute_response(contract, bytes))),
        Err(e) => Err(CwTokenErrorView::Std(StdErrorView::Sdk(e))),
    }
}

/// What a mint comes to. To mint nothing is an error; else the token's
/// contract is asked to mint.
pub open spec fn mint_outcome(
    contract: Seq<char>,
    storage: StorageView,
    recipient: Seq<char>,
    amount: u128,
) -> Outcome {
    if amount == 0 {
        Err(crate::error::zero_amount_error())
    } else {
        execute_outcome(
            contract,
            storage,
            execute_msg_json(Cw20ExecuteMsgView::Mint { recipient, amount }),
        )
    }
}

/// The effects of one message to the token's contract, without funds.
pub open spec fn execute_response(contract: Seq<char>, payload: Seq<u8>) -> ResponseView {
    ResponseView {
        messages: seq![
            plain_msg(
                CosmosMsgView::WasmExecute {
                    contract_addr: contract,
                    msg: payload,
                    funds: Seq::empty(),
                },
            ),
        ],
        attributes: Seq::empty(),
        events: Seq::empty(),
    }
}

/// The effects of asking the host to create the token's contract: one
/// request, which the host answers under the reserved id whether it succeeds
/// or fails, and one event that bears the label.
pub open spec fn create_response(info: Cw20InitInfoView) -> ResponseView {
    ResponseView {
        messages: seq![
            request_msg(
                CosmosMsgView::WasmInstantiate {
                    admin: info.admin,
                    code_id: info.code_id,
                    msg: info.init_msg,
                    funds: info.funds,
                    label: info.label,
                },
                REPLY_SAVE_CW20_ADDRESS,
            ),
        ],
        attributes: Seq::empty(),
        events: seq![
            EventView { ty: "create_cw20"@, attributes: seq![attr_view("label"@, info.label)] },
        ],
    }
}

/// The error of setting a token up without saying how.
pub open spec fn missing_init_info() -> CwTokenErrorView {
    CwTokenErrorView::Std(StdErrorView::GenericErr { msg: "init_info requried for Cw20"@ })
}

/// The address that the reply to the creating request brings. A reply
/// under another id is refused; a failed request gives the host's reason,
/// word for word; a reply without data, or with data that does not decode,
/// is an error.
pub open spec fn reply_address(reply: ReplyView) -> Result<Seq<char>, CwTokenErrorView> {
    if reply.id != REPLY_SAVE_CW20_ADDRESS {
        Err(CwTokenErrorView::InvalidReplyId)
    } else {
        match reply_instantiate_data(reply) {
            Err(e) => Err(CwTokenErrorView::ParseReplyError(e)),
            Ok(data) => Ok(data.contract_address),
        }
    }
}

/// What the reply to the creating request comes to, given what the host
/// said of the address in it. Where the reply brings no address, or the host
/// refuses the address, nothing is saved. Else the address as the host
/// accepted it becomes the token of the contract, and the effects confirm it.
pub open spec fn save_token_outcome(
    storage: StorageView,
    reply: ReplyView,
    checked: Result<Seq<char>, StdErrorView>,
) -> Outcome {
    match reply_address(reply) {
        Err(e) => Err(e),
        Ok(_) => match checked {
            Err(e) => Err(CwTokenErrorView::Std(e)),
            Ok(address) => Ok(
                (
                    StorageView { token: Some(TokenIdentityView::Cw20(address)), ..storage },
                    ResponseView {
                        messages: Seq::empty(),
                        attributes: seq![
                            attr_view("action"@, "save_cw20_addr"@),
                            attr_view("contract_addr"@, address),
                        ],
                        events: Seq::empty(),
                    },
                ),
            ),
        },
    }
}

/// What the host said of an address, with the texts in it as values.
pub open spec fn checked_view(checked: Result<Addr, StdError>) -> Result<Seq<char>, StdErrorView> {
    match checked {
        Ok(address) => Ok(address@),
        Err(e) => Err(e@),
    }
}

impl Default for Cw20 {
    /// A token without an address, good only for setting a token up.
    fn default() -> (token: Self)
        ensures
            token@ == Seq::<char>::empty(),
    {
        Cw20(Addr(String::new()))
    }
}

impl AssetInfo {
    /// The asset that is the token `cw20_asset`.
    pub fn from(cw20_asset: Cw20) -> (asset: AssetInfo)
        ensures
            asset == AssetInfo::Cw20(cw20_asset.0),
    {
        AssetInfo::Cw20(cw20_asset.0)
    }
}

impl Cw20 {
    /// The token that the asset is. An asset of another kind is refused.
    pub fn try_from(asset_info: AssetInfo) -> (r: Result<Cw20, StdError>)
        ensures
            match asset_info {
                AssetInfo::Cw20(address) => r == Ok::<Cw20, StdError>(Cw20(address)),
                AssetInfo::Native(_) => r is Err && r->Err_0@ == (StdErrorView::GenericErr {
                    msg: "Cannot convert native addr to Cw20."@,
                }),
                AssetInfo::Cw1155(_, _) => r is Err && r->Err_0@ == (StdErrorView::GenericErr {
                    msg: "Cannot convert Cw1155 asset to Cw20."@,
                }),
                AssetInfo::Unknown => r is Err && r->Err_0@ == (StdErrorView::GenericErr {
                    msg: "Cannot convert unknown asset to Cw20."@,
                }),
            },
    {
        match asset_info {
            AssetInfo::Cw20(address) => Ok(Cw20(address)),
            AssetInfo::Native(_) => Err(
                StdError::GenericErr { msg: "Cannot convert native addr to Cw20.".to_owned() },
            ),
            AssetInfo::Cw1155(_, _) => Err(
                StdError::GenericErr { msg: "Cannot convert Cw1155 asset to Cw20.".to_owned() },
            ),
            AssetInfo::Unknown => Err(
                StdError::GenericErr { msg: "Cannot convert unknown asset to Cw20.".to_owned() },
            ),
        }
    }

    /// The address of the token's contract.
    pub fn to_string(&self) -> (s: String)
        ensures
            s@ == self@,
    {
        self.0.to_string()
    }

    /// Reads the address of the new contract out of the host's reply to the
    /// request that `instantiate` made.
    pub fn reply_address(reply: &Reply) -> (r: Result<String, CwTokenError>)
        ensures
            match reply_address(reply@) {
                Ok(address) => r is Ok && r->Ok_0@ == address,
                Err(e) => r is Err && r->Err_0@ == e,
            },
    {
        if reply.id != REPLY_SAVE_CW20_ADDRESS {
            return Err(CwTokenError::InvalidReplyId {  });
        }
        match parse_reply_instantiate_data(reply) {
            Ok(data) => Ok(data.contract_address),
            Err(e) => Err(CwTokenError::ParseReplyError(e)),
        }
    }

    /// Takes the host's reply to the request that `instantiate` made,
    /// together with what the host said of the address in the reply, and
    /// saves the token at that address as the token of the contract.
    pub fn save_token(
        deps: &mut Deps,
        _env: &Env,
        reply: &Reply,
        checked: Result<Addr, StdError>,
    ) -> (r: Result<Response, CwTokenError>)
        ensures
            follows(
                save_token_outcome(old(deps)@.storage, reply@, checked_view(checked)),
                old(deps)@,
                final(deps)@,
                r,
            ),
    {
        match Self::reply_address(reply) {
            Ok(_) => {},
            Err(e) => {
                return Err(e);
            },
        }
        let address = match checked {
            Ok(address) => address,
            Err(e) => {
                return Err(CwTokenError::Std(e));
            },
        };
        let r = Response::new().add_attribute("action", "save_cw20_addr").add_attribute(
            "contract_addr",
            address.as_str(),
        );
        proof {
            let want = save_token_outcome(old(deps)@.storage, reply@, checked_view(checked));
            assert(r@.attributes =~= want->Ok_0.1.attributes);
        }
        deps.storage.token = Some(TokenIdentity::Cw20(address));
        Ok(r)
    }

    /// The effects of sending `payload` to the token's contract, where
    /// there is a payload; else the error that came in its place.
    pub fn execute(&self, payload: Result<Vec<u8>, SdkError>) -> (r: Result<Response, CwTokenError>)
        ensures
            match payload {
                Ok(bytes) => r is Ok && r->Ok_0@ == execute_response(self@, bytes@),
                Err(e) => r is Err && r->Err_0@ == CwTokenErrorView::Std(StdErrorView::Sdk(e)),
            },
    {
        match payload {
            Ok(bytes) => {
                let funds: Vec<Coin> = Vec::new();
                assert(funds.deep_view() =~= Seq::empty());
                let msg = CosmosMsg::Wasm(
                    WasmMsg::Execute { contract_addr: self.0.to_string(), msg: bytes, funds },
                );
                let r = Response::new().add_message(msg);
                assert(r@.messages =~= execute_response(self@, bytes@).messages);
                Ok(r)
            },
            Err(e) => Err(CwTokenError::Std(StdError::Sdk(e))),
        }
    }
}

impl TokenStorage for Cw20 {
    open spec fn identity(&self) -> TokenIdentityView {
        TokenIdentityView::Cw20(self.0@)
    }

    open spec fn reads(id: TokenIdentityView) -> bool {
        id is Cw20
    }

    open spec fn kind_name() -> Seq<char> {
        "cw_vault_token::Cw20"@
    }

    fn kind() -> (name: &'static str) {
        "cw_vault_token::Cw20"
    }

    fn to_identity(&self) -> (id: TokenIdentity) {
        TokenIdentity::Cw20(Addr(self.0.to_string()))
    }

    fn from_identity(id: &TokenIdentity) -> (token: Option<Self>) {
        match id {
            TokenIdentity::Cw20(address) => Some(Cw20(Addr(address.to_string()))),
            _ => None,
        }
    }
}

impl Instantiate for Cw20 {
    type InitInfo = Cw20InitInfo;

    open spec fn instantiate_outcome(&self, storage: StorageView, init_info: Option<Cw20InitInfo>)
        -> Outcome {
        match init_info {
            None => Err(missing_init_info()),
            Some(info) => Ok((storage, create_response(info@))),
        }
    }

    /// Asks the host to create the token's contract. Nothing is saved before
    /// the host's reply has come.
    fn instantiate(&self, _deps: &mut Deps, init_info: Option<Cw20InitInfo>) -> (r: Result<
        Response,
        CwTokenError,
    >) {
        let info = match init_info {
            Some(info) => info,
            None => {
                return Err(
                    CwTokenError::Std(
                        StdError::GenericErr { msg: "init_info requried for Cw20".to_owned() },
                    ),
                );
            },
        };
        let ghost want = create_response(info@);
        let event = Event::new("create_cw20").add_attribute("label", info.label.as_str());
        let Cw20InitInfo { code_id, admin, funds, label, init_msg } = info;
        let request = SubMsg::reply_always(
            CosmosMsg::Wasm(WasmMsg::Instantiate { admin, code_id, msg: init_msg, funds, label }),
            REPLY_SAVE_CW20_ADDRESS,
        );
        let r = Response::new().add_submessage(request).add_event(event);
        proof {
            assert(event@.attributes =~= want.events[0].attributes);
            assert(r@.messages =~= want.messages);
            assert(r@.events =~= want.events);
        }
        Ok(r)
    }
}

impl Transfer for Cw20 {
    open spec fn transfer_outcome(
        &self,
        storage: StorageView,
        env: Env,
        info: MessageInfo,
        recipient: Seq<char>,
        amount: u128,
    ) -> Outcome {
        execute_outcome(
            self@,
            storage,
            execute_msg_json(Cw20ExecuteMsgView::Transfer { recipient, amount }),
        )
    }

    /// Asks the token's contract to move `amount` tokens of this contract to
    /// `recipient`.
    fn transfer(
        &self,
        _deps: &mut Deps,
        _env: &Env,
        _info: &MessageInfo,
        recipient: &str,
        amount: u128,
    ) -> (r: Result<Response, CwTokenError>) {
        let msg = Cw20ExecuteMsg::Transfer { recipient: recipient.to_owned(), amount };
        self.execute(encode_execute_msg(&msg))
    }
}

impl Token for Cw20 {
    open spec fn balance_of(&self, deps: DepsView, address: Seq<char>) -> Answer {
        Ok(balance_answer(deps.querier.balances, self@, address))
    }

    open spec fn total_supply(&self, deps: DepsView) -> Answer {
        supply_outcome(
            supply_answer(deps.querier.supplies, self@),
            "total supply in token info response"@,
        )
    }

    /// The balance that the token's contract reports for `address`.
    fn query_balance(&self, deps: &Deps, address: &str) -> (r: Result<u128, CwTokenError>) {
        Ok(deps.querier.query_balance(self.0.as_str(), address))
    }

    /// The supply that the token's contract reports. An answer without an
    /// amount is an error, and so is an amount that the host SDK cannot read.
    fn query_total_supply(&self, deps: &Deps) -> (r: Result<u128, CwTokenError>) {
        read_supply(
            deps.querier.query_supply(self.0.as_str()),
            "total supply in token info response",
        )
    }

    fn is_native() -> (native: bool)
        ensures
            !native,
    {
        false
    }
}

impl Mint for Cw20 {
    open spec fn mint_outcome(
        &self,
        storage: StorageView,
        env: Env,
        recipient: Addr,
        amount: u128,
    ) -> Outcome {
        mint_outcome(self@, storage, recipient@, amount)
    }

    proof fn mint_of_nothing(&self, storage: StorageView, env: Env, recipient: Addr) {
    }

    /// Asks the token's contract to mint `amount` tokens to `recipient`.
    fn mint(&self, _deps: &mut Deps, _env: &Env, recipient: &Addr, amount: u128) -> (r: Result<
        Response,
        CwTokenError,
    >) {
        if amount == 0 {
            return Err(CwTokenError::Cw20ContractError(ContractError::InvalidZeroAmount {  }));
        }
        let msg = Cw20ExecuteMsg::Mint { recipient: recipient.to_string(), amount };
        self.execute(encode_execute_msg(&msg))
    }
}

impl Burn for Cw20 {
    open spec fn burn_outcome(&self, storage: StorageView, env: Env, amount: u128) -> Outcome {
        execute_outcome(self@, storage, execute_msg_json(Cw20ExecuteMsgView::Burn { amount }))
    }

    /// Asks the token's contract to burn `amount` tokens of this contract.
    fn burn(&self, _deps: &mut Deps, _env: &Env, amount: u128) -> (r: Result<
        Response,
        CwTokenError,
    >) {
        let msg = Cw20ExecuteMsg::Burn { amount };
        self.execute(encode_execute_msg(&msg))
    }
}

impl Receive for Cw20 {
    open spec fn receive_change(
        &self,
        storage: StorageView,
        env: Env,
        info: MessageInfo,
        amount: u128,
    ) -> Change {
        funds_check(storage, info.funds.deep_view(), CoinView { denom: self@, amount })
    }

    /// Checks that exactly `amount` of the token came with the message, as a
    /// coin that bears the address of the token's contract.
    fn receive(&self, _deps: &mut Deps, _env: &Env, info: &MessageInfo, amount: u128) -> (r: Result<
        (),
        StdError,
    >) {
        check_funds(info, self.to_string(), amount)
    }
}

impl AssertReceived for Cw20 {
    open spec fn received_denom(&self) -> Seq<char> {
        self@
    }

    /// Checks that exactly `amount` of the token came with the message.
    fn assert_received(&self, _deps: &Deps, info: &MessageInfo, amount: u128) -> (r: Result<
        (),
        StdError,
    >) {
        check_funds(info, self.to_string(), amount)
    }
}

} // verus!
