//! A token whose ledger the contract itself keeps: its record of itself, its
//! supply and the balance of each holder are part of the contract's state.

use crate::effects::{Response, ResponseView};
use crate::error::{
    checked_add, checked_sub, overflow_error, zero_amount_error, ContractError,
    ContractErrorView, CwTokenError, CwTokenErrorView, OverflowOperation, StdError, StdErrorView,
};
use crate::host::{attr_view, Addr, AttributeView, Env, Event, EventView, MessageInfo};
use crate::state::{
    Deps, DepsView, MarketingInfo, MarketingInfoView, StorageView, TokenIdentity,
    TokenIdentityView, TokenInfo, TokenInfoView, TokenStorage,
};
use crate::text::{decimal, decimal_string};
use crate::traits::{
    follows_change, Answer, Burn, Change, Instantiate, Mint, Outcome, Receive, Transfer,
    VaultToken,
};
use cosmwasm_std::StdError as SdkError;
use vstd::prelude::*;
use vstd::utf8::encode_utf8;

verus! {

/// A token whose ledger is kept by the contract at `address`. Only the
/// contract itself mints: it is for the contract to decide who may ask it to.
#[derive(Debug, PartialEq, Eq, Clone)]
pub struct Cw4626 {
    pub address: Addr,
}

impl View for Cw4626 {
    type V = Seq<char>;

    open spec fn view(&self) -> Seq<char> {
        self.address@
    }
}

/// What the project behind a token tells about itself when the token is set
/// up.
#[derive(Debug, PartialEq, Eq, Clone)]
pub struct InstantiateMarketingInfo {
    pub project: Option<String>,
    pub description: Option<String>,
    /// The address that may change this information, as the host accepted it.
    pub marketing: Option<Addr>,
}

/// What a ledger token is set up with.
#[derive(Debug, PartialEq, Eq, Clone)]
pub struct Cw4626InstantiateMsg {
    /// Name of the token
    pub name: String,
    /// Ticker symbol for the token
    pub symbol: String,
    /// Number of decimals
    pub decimals: u8,
    /// Optional marketing info
    pub marketing: Option<InstantiateMarketingInfo>,
}

/// [`Cw4626InstantiateMsg`] as a value: its texts as sequences of characters, its lists as
/// sequences.
pub struct Cw4626InstantiateMsgView {
    pub name: Seq<char>,
    pub symbol: Seq<char>,
    pub decimals: u8,
    pub marketing: Option<MarketingInfoView>,
}

impl View for Cw4626InstantiateMsg {
    type V = Cw4626InstantiateMsgView;

    open spec fn view(&self) -> Cw4626InstantiateMsgView {
        Cw4626InstantiateMsgView {
            name: self.name@,
            symbol: self.symbol@,
            decimals: self.decimals,
            marketing: match self.marketing {
                Some(m) => Some(
                    MarketingInfoView {
                        project: m.project.deep_view(),
                        description: m.description.deep_view(),
                        marketing: m.marketing.deep_view(),
                    },
                ),
                None => None,
            },
        }
    }
}

impl DeepView for Cw4626InstantiateMsg {
    type V = Cw4626InstantiateMsgView;

    open spec fn deep_view(&self) -> Cw4626InstantiateMsgView {
        self@
    }
}

/// Whether a byte may stand in a ticker symbol: a letter or a hyphen.
pub open spec fn symbol_byte(b: u8) -> bool {
    b == 45 || (65 <= b <= 90) || (97 <= b <= 122)
}

/// Whether a token may be set up under this name, symbol and number of
/// decimals: a name of 3 to 50 bytes, a symbol of 3 to 12 letters and hyphens,
/// at most 18 decimals.
pub open spec fn valid_token_info(name: Seq<char>, symbol: Seq<char>, decimals: u8) -> bool {
    &&& 3 <= encode_utf8(name).len() <= 50
    &&& 3 <= encode_utf8(symbol).len() <= 12
    &&& forall|i: int| 0 <= i < encode_utf8(symbol).len() ==> symbol_byte(encode_utf8(symbol)[i])
    &&& decimals <= 18
}

/// The error with which the ledger's own SDK refuses a name, symbol and
/// number of decimals that are not valid.
pub uninterp spec fn token_info_error(name: Seq<char>, symbol: Seq<char>, decimals: u8) -> SdkError;

/// Calls `InstantiateMsg::validate` of cw20_base on a message with this name,
/// symbol and number of decimals, and with neither balances nor a minter.
/// The contract claims that the call succeeds exactly where the three are
/// valid as written out above, and that its error depends on the three alone.
#[verifier::external_body]
pub(crate) fn validate_token_info(name: &str, symbol: &str, decimals: u8) -> (r: Result<
    (),
    SdkError,
>)
    ensures
        r is Ok <==> valid_token_info(name@, symbol@, decimals),
        r is Err ==> r->Err_0 == token_info_error(name@, symbol@, decimals),
{
    let msg = cw20_base::msg::InstantiateMsg {
        name: name.to_string(),
        symbol: symbol.to_string(),
        decimals,
        initial_balances: vec![],
        mint: None,
        marketing: None,
    };
    msg.validate()
}

/// The error of setting a token up under a name, symbol or number of
/// decimals that is not valid.
pub open spec fn invalid_token_info(msg: Cw4626InstantiateMsgView) -> StdErrorView {
    StdErrorView::Sdk(token_info_error(msg.name, msg.symbol, msg.decimals))
}

/// The balance that the ledger records for `holder`: zero where it records
/// none.
pub open spec fn ledger_balance(storage: StorageView, holder: Seq<char>) -> u128 {
    if storage.balances.contains_key(holder) {
        storage.balances[holder]
    } else {
        0
    }
}

/// The effects of an operation on the ledger: no message, and the
/// attributes once on their own and once as an event.
pub open spec fn ledger_response(attributes: Seq<AttributeView>) -> ResponseView {
    ResponseView {
        messages: Seq::empty(),
        attributes,
        events: seq![EventView { ty: "apollo/cw-vault-token/cw4626"@, attributes }],
    }
}

/// What the effects of setting the token up report.
pub open spec fn instantiate_attributes(msg: Cw4626InstantiateMsgView) -> Seq<AttributeView> {
    seq![
        attr_view("action"@, "instantiate"@),
        attr_view("name"@, msg.name),
        attr_view("symbol"@, msg.symbol),
        attr_view("decimals"@, decimal(msg.decimals as nat)),
    ]
}

/// The error of setting a ledger token up without saying how.
pub open spec fn missing_init_info() -> CwTokenErrorView {
    CwTokenErrorView::Std(StdErrorView::GenericErr { msg: "init_info requried for Cw4626"@ })
}

/// The state after a ledger token was set up with `msg`: the token's record
/// of itself with a supply of zero and no minter, and the marketing
/// information where `msg` has any.
pub open spec fn instantiated(storage: StorageView, msg: Cw4626InstantiateMsgView)
    -> StorageView {
    StorageView {
        token_info: Some(
            TokenInfoView {
                name: msg.name,
                symbol: msg.symbol,
                decimals: msg.decimals,
                total_supply: 0,
                mint: None,
            },
        ),
        marketing_info: match msg.marketing {
            Some(m) => Some(m),
            None => storage.marketing_info,
        },
        ..storage
    }
}

/// What a mint reports.
pub open spec fn mint_attributes(token: Seq<char>, recipient: Seq<char>, amount: u128) -> Seq<
    AttributeView,
> {
    seq![
        attr_view("action"@, "mint"@),
        attr_view("vault_token_address"@, token),
        attr_view("amount"@, decimal(amount as nat)),
        attr_view("recipient"@, recipient),
    ]
}

/// What a mint comes to. To mint nothing is an error, to mint before the
/// token was set up is not allowed, and neither the supply nor the
/// recipient's balance may leave the range of 128 bits. Else both grow by
/// `amount`.
pub open spec fn mint_outcome(
    token: Seq<char>,
    storage: StorageView,
    recipient: Seq<char>,
    amount: u128,
) -> Outcome {
    let balance = ledger_balance(storage, recipient);
    if amount == 0 {
        Err(zero_amount_error())
    } else {
        match storage.token_info {
            None => Err(CwTokenErrorView::Cw20ContractError(ContractErrorView::Unauthorized)),
            Some(info) => if info.total_supply + amount > u128::MAX {
                Err(
                    CwTokenErrorView::Std(
                        overflow_error(OverflowOperation::Add, info.total_supply, amount),
                    ),
                )
            } else if balance + amount > u128::MAX {
                Err(CwTokenErrorView::Std(overflow_error(OverflowOperation::Add, balance, amount)))
            } else {
                Ok(
                    (
                        StorageView {
                            token_info: Some(
                                TokenInfoView {
                                    total_supply: (info.total_supply + amount) as u128,
                                    ..info
                                },
                            ),
                            balances: storage.balances.insert(
                                recipient,
                                (balance + amount) as u128,
                            ),
                            ..storage
                        },
                        ledger_response(mint_attributes(token, recipient, amount)),
                    ),
                )
            },
        }
    }
}

/// What a burn reports.
pub open spec fn burn_attributes(token: Seq<char>, amount: u128) -> Seq<AttributeView> {
    seq![
        attr_view("action"@, "burn"@),
        attr_view("vault_token_address"@, token),
        attr_view("amount"@, decimal(amount as nat)),
    ]
}

/// The error of an operation that needs the token's record of itself and
/// finds none.
pub open spec fn no_token_info() -> StdErrorView {
    StdErrorView::NotFound { kind: "cw20_base::state::TokenInfo"@ }
}

/// What a burn comes to. The tokens leave the balance of the contract
/// itself: to burn more than that balance is an error, and so is a burn
/// before the token was set up or of more than the supply. Else both shrink
/// by `amount`.
pub open spec fn burn_outcome(
    token: Seq<char>,
    storage: StorageView,
    contract: Seq<char>,
    amount: u128,
) -> Outcome {
    let balance = ledger_balance(storage, contract);
    if amount > balance {
        Err(CwTokenErrorView::Std(overflow_error(OverflowOperation::Sub, balance, amount)))
    } else {
        match storage.token_info {
            None => Err(CwTokenErrorView::Std(no_token_info())),
            Some(info) => if amount > info.total_supply {
                Err(
                    CwTokenErrorView::Std(
                        overflow_error(OverflowOperation::Sub, info.total_supply, amount),
                    ),
                )
            } else {
                Ok(
                    (
                        StorageView {
                            token_info: Some(
                                TokenInfoView {
                                    total_supply: (info.total_supply - amount) as u128,
                                    ..info
                                },
                            ),
                            balances: storage.balances.insert(
                                contract,
                                (balance - amount) as u128,
                            ),
                            ..storage
                        },
                        ledger_response(burn_attributes(token, amount)),
                    ),
                )
            },
        }
    }
}

/// What moving `amount` tokens from the balance of `from` to that of `to`
/// comes to. A holder that has less is an error, and so is a balance that
/// would leave the range of 128 bits.
pub open spec fn moved(storage: StorageView, from: Seq<char>, to: Seq<char>, amount: u128)
    -> Change {
    let had = ledger_balance(storage, from);
    if amount > had {
        Err(overflow_error(OverflowOperation::Sub, had, amount))
    } else {
        let taken = StorageView {
            balances: storage.balances.insert(from, (had - amount) as u128),
            ..storage
        };
        let held = ledger_balance(taken, to);
        if held + amount > u128::MAX {
            Err(overflow_error(OverflowOperation::Add, held, amount))
        } else {
            Ok(
                StorageView {
                    balances: taken.balances.insert(to, (held + amount) as u128),
                    ..storage
                },
            )
        }
    }
}

/// What a transfer reports.
pub open spec fn transfer_attributes(token: Seq<char>, recipient: Seq<char>, amount: u128) -> Seq<
    AttributeView,
> {
    seq![
        attr_view("action"@, "transfer"@),
        attr_view("vault_token_address"@, token),
        attr_view("amount"@, decimal(amount as nat)),
        attr_view("recipient"@, recipient),
    ]
}

/// What a transfer comes to: `amount` tokens move from the balance of the
/// contract itself to that of `recipient`.
pub open spec fn transfer_outcome(
    token: Seq<char>,
    storage: StorageView,
    contract: Seq<char>,
    recipient: Seq<char>,
    amount: u128,
) -> Outcome {
    match moved(storage, contract, recipient, amount) {
        Err(e) => Err(CwTokenErrorView::Std(e)),
        Ok(after) => Ok((after, ledger_response(transfer_attributes(token, recipient, amount)))),
    }
}

impl Cw4626InstantiateMsg {
    /// Whether a token may be set up with this message.
    pub fn validate(&self) -> (r: Result<(), StdError>)
        ensures
            r is Ok <==> valid_token_info(self.name@, self.symbol@, self.decimals),
            r is Err ==> r->Err_0@ == invalid_token_info(self@),
    {
        match validate_token_info(self.name.as_str(), self.symbol.as_str(), self.decimals) {
            Ok(_) => Ok(()),
            Err(e) => Err(StdError::Sdk(e)),
        }
    }
}

fn balance_or_zero(deps: &Deps, holder: &Addr) -> (balance: u128)
    ensures
        balance == ledger_balance(deps@.storage, holder@),
{
    match deps.storage.balances.may_load(holder) {
        Some(balance) => balance,
        None => 0,
    }
}

fn ledger_effects(
    action: &str,
    token: &str,
    amount: u128,
    recipient: Option<&str>,
) -> (r: Response)
    ensures
        r@ == ledger_response(
            match recipient {
                Some(to) => seq![
                    attr_view("action"@, action@),
                    attr_view("vault_token_address"@, token@),
                    attr_view("amount"@, decimal(amount as nat)),
                    attr_view("recipient"@, to@),
                ],
                None => seq![
                    attr_view("action"@, action@),
                    attr_view("vault_token_address"@, token@),
                    attr_view("amount"@, decimal(amount as nat)),
                ],
            },
        ),
{
    let amount_text = decimal_string(amount);
    let event = Event::new("apollo/cw-vault-token/cw4626").add_attribute(
        "action",
        action,
    ).add_attribute("vault_token_address", token).add_attribute("amount", amount_text.as_str());
    let r = Response::new().add_attribute("action", action).add_attribute(
        "vault_token_address",
        token,
    ).add_attribute("amount", amount_text.as_str());
    match recipient {
        Some(to) => {
            let event = event.add_attribute("recipient", to);
            let r = r.add_attribute("recipient", to).add_event(event);
            proof {
                let want = seq![
                    attr_view("action"@, action@),
                    attr_view("vault_token_address"@, token@),
                    attr_view("amount"@, decimal(amount as nat)),
                    attr_view("recipient"@, to@),
                ];
                assert(event@.attributes =~= want);
                assert(r@.attributes =~= want);
                assert(r@.events =~= ledger_response(want).events);
            }
            r
        },
        None => {
            let r = r.add_event(event);
            proof {
                let want = seq![
                    attr_view("action"@, action@),
                    attr_view("vault_token_address"@, token@),
                    attr_view("amount"@, decimal(amount as nat)),
                ];
                assert(event@.attributes =~= want);
                assert(r@.attributes =~= want);
                assert(r@.events =~= ledger_response(want).events);
            }
            r
        },
    }
}

impl Cw4626 {
    /// The token of the contract that is running.
    pub fn new(env: &Env) -> (token: Self)
        ensures
            token@ == env.contract.address@,
    {
        Cw4626 { address: Addr(env.contract.address.to_string()) }
    }
}

impl TokenStorage for Cw4626 {
    open spec fn identity(&self) -> TokenIdentityView {
        TokenIdentityView::Cw4626(self.address@)
    }

    open spec fn reads(id: TokenIdentityView) -> bool {
        id is Cw4626
    }

    open spec fn kind_name() -> Seq<char> {
        "cw_vault_token::Cw4626"@
    }

    fn kind() -> (name: &'static str) {
        "cw_vault_token::Cw4626"
    }

    fn to_identity(&self) -> (id: TokenIdentity) {
        TokenIdentity::Cw4626(Addr(self.address.to_string()))
    }

    fn from_identity(id: &TokenIdentity) -> (token: Option<Self>) {
        match id {
            TokenIdentity::Cw4626(address) => Some(Cw4626 { address: Addr(address.to_string()) }),
            _ => None,
        }
    }
}

impl Instantiate for Cw4626 {
    type InitInfo = Cw4626InstantiateMsg;

    open spec fn instantiate_outcome(
        &self,
        storage: StorageView,
        init_info: Option<Cw4626InstantiateMsg>,
    ) -> Outcome {
        match init_info {
            None => Err(missing_init_info()),
            Some(msg) => if valid_token_info(msg.name@, msg.symbol@, msg.decimals) {
                Ok((instantiated(storage, msg@), ledger_response(instantiate_attributes(msg@))))
            } else {
                Err(CwTokenErrorView::Std(invalid_token_info(msg@)))
            },
        }
    }

    /// Sets the token up in the contract's own state: its record of itself,
    /// with a supply of zero and no minter, and the marketing information.
    /// The token is there at once: no request goes to the host.
    fn instantiate(&self, deps: &mut Deps, init_info: Option<Cw4626InstantiateMsg>) -> (r: Result<
        Response,
        CwTokenError,
    >) {
        let msg = match init_info {
            Some(msg) => msg,
            None => {
                return Err(
                    CwTokenError::Std(
                        StdError::GenericErr { msg: "init_info requried for Cw4626".to_owned() },
                    ),
                );
            },
        };
        match msg.validate() {
            Ok(_) => {},
            Err(e) => {
                return Err(CwTokenError::Std(e));
            },
        }
        let decimals_text = decimal_string(msg.decimals as u128);
        let event = Event::new("apollo/cw-vault-token/cw4626").add_attribute(
            "action",
            "instantiate",
        ).add_attribute("name", msg.name.as_str()).add_attribute(
            "symbol",
            msg.symbol.as_str(),
        ).add_attribute("decimals", decimals_text.as_str());
        let r = Response::new().add_attribute("action", "instantiate").add_attribute(
            "name",
            msg.name.as_str(),
        ).add_attribute("symbol", msg.symbol.as_str()).add_attribute(
            "decimals",
            decimals_text.as_str(),
        ).add_event(event);
        proof {
            let want = instantiate_attributes(msg@);
            assert(event@.attributes =~= want);
            assert(r@.attributes =~= want);
            assert(r@.events =~= ledger_response(want).events);
        }
        let Cw4626InstantiateMsg { name, symbol, decimals, marketing } = msg;
        deps.storage.token_info = Some(
            TokenInfo { name, symbol, decimals, total_supply: 0, mint: None },
        );
        match marketing {
            Some(m) => {
                deps.storage.marketing_info = Some(
                    MarketingInfo {
                        project: m.project,
                        description: m.description,
                        marketing: m.marketing,
                    },
                );
            },
            None => {},
        }
        Ok(r)
    }
}

impl Mint for Cw4626 {
    open spec fn mint_outcome(
        &self,
        storage: StorageView,
        env: Env,
        recipient: Addr,
        amount: u128,
    ) -> Outcome {
        mint_outcome(self@, storage, recipient@, amount)
    }

    proof fn mint_of_nothing(&self, storage: StorageView, env: Env, recipient: Addr) {
    }

    /// Mints on the ledger: the supply and the recipient's balance grow by
    /// `amount`.
    fn mint(&self, deps: &mut Deps, _env: &Env, recipient: &Addr, amount: u128) -> (r: Result<
        Response,
        CwTokenError,
    >) {
        if amount == 0 {
            return Err(CwTokenError::Cw20ContractError(ContractError::InvalidZeroAmount {  }));
        }
        let supply = match &deps.storage.token_info {
            Some(info) => info.total_supply,
            None => {
                return Err(CwTokenError::Cw20ContractError(ContractError::Unauthorized {  }));
            },
        };
        let grown = match checked_add(supply, amount) {
            Ok(grown) => grown,
            Err(e) => {
                return Err(CwTokenError::Std(e));
            },
        };
        let balance = match checked_add(balance_or_zero(deps, recipient), amount) {
            Ok(balance) => balance,
            Err(e) => {
                return Err(CwTokenError::Std(e));
            },
        };
        set_supply(deps, grown);
        deps.storage.balances.save(recipient, balance);
        Ok(ledger_effects("mint", self.address.as_str(), amount, Some(recipient.as_str())))
    }
}

fn set_supply(deps: &mut Deps, supply: u128)
    requires
        old(deps)@.storage.token_info is Some,
    ensures
        final(deps)@ == (crate::state::DepsView {
            storage: StorageView {
                token_info: Some(
                    TokenInfoView {
                        total_supply: supply,
                        ..old(deps)@.storage.token_info->Some_0
                    },
                ),
                ..old(deps)@.storage
            },
            ..old(deps)@
        }),
{
    match deps.storage.token_info.take() {
        Some(info) => {
            deps.storage.token_info = Some(TokenInfo { total_supply: supply, ..info });
        },
        None => {},
    }
}

impl Burn for Cw4626 {
    open spec fn burn_outcome(&self, storage: StorageView, env: Env, amount: u128) -> Outcome {
        burn_outcome(self@, storage, env.contract.address@, amount)
    }

    /// Burns tokens that the contract itself holds.
    fn burn(&self, deps: &mut Deps, env: &Env, amount: u128) -> (r: Result<
        Response,
        CwTokenError,
    >) {
        let balance = match checked_sub(balance_or_zero(deps, &env.contract.address), amount) {
            Ok(balance) => balance,
            Err(e) => {
                return Err(CwTokenError::Std(e));
            },
        };
        let supply = match &deps.storage.token_info {
            Some(info) => info.total_supply,
            None => {
                return Err(
                    CwTokenError::Std(
                        StdError::NotFound { kind: "cw20_base::state::TokenInfo".to_owned() },
                    ),
                );
            },
        };
        let rest = match checked_sub(supply, amount) {
            Ok(rest) => rest,
            Err(e) => {
                return Err(CwTokenError::Std(e));
            },
        };
        set_supply(deps, rest);
        deps.storage.balances.save(&env.contract.address, balance);
        Ok(ledger_effects("burn", self.address.as_str(), amount, None))
    }
}

fn move_tokens(deps: &mut Deps, from: &Addr, to: &Addr, amount: u128) -> (r: Result<(), StdError>)
    ensures
        follows_change(moved(old(deps)@.storage, from@, to@, amount), old(deps)@, final(deps)@, r),
{
    let rest = checked_sub(balance_or_zero(deps, from), amount)?;
    let held = if from.same_as(to) {
        rest
    } else {
        balance_or_zero(deps, to)
    };
    let grown = checked_add(held, amount)?;
    deps.storage.balances.save(from, rest);
    deps.storage.balances.save(to, grown);
    Ok(())
}

impl Receive for Cw4626 {
    open spec fn receive_change(
        &self,
        storage: StorageView,
        env: Env,
        info: MessageInfo,
        amount: u128,
    ) -> Change {
        moved(storage, info.sender@, env.contract.address@, amount)
    }

    /// Moves `amount` tokens from the sender's balance to the contract's.
    fn receive(&self, deps: &mut Deps, env: &Env, info: &MessageInfo, amount: u128) -> (r: Result<
        (),
        StdError,
    >) {
        move_tokens(deps, &info.sender, &env.contract.address, amount)
    }
}

impl Transfer for Cw4626 {
    open spec fn transfer_outcome(
        &self,
        storage: StorageView,
        env: Env,
        info: MessageInfo,
        recipient: Seq<char>,
        amount: u128,
    ) -> Outcome {
        transfer_outcome(self@, storage, env.contract.address@, recipient, amount)
    }

    /// Moves `amount` tokens from the contract's balance to that of
    /// `recipient`.
    fn transfer(
        &self,
        deps: &mut Deps,
        env: &Env,
        _info: &MessageInfo,
        recipient: &str,
        amount: u128,
    ) -> (r: Result<Response, CwTokenError>) {
        match move_tokens(deps, &env.contract.address, &Addr::unchecked(recipient), amount) {
            Ok(_) => Ok(ledger_effects("transfer", self.address.as_str(), amount, Some(recipient))),
            Err(e) => Err(CwTokenError::Std(e)),
        }
    }
}

impl VaultToken for Cw4626 {
    open spec fn text(&self) -> Seq<char> {
        self.address@
    }

    open spec fn balance_of(&self, deps: DepsView, address: Seq<char>) -> Answer {
        Ok(ledger_balance(deps.storage, address))
    }

    open spec fn total_supply(&self, deps: DepsView) -> Answer {
        match deps.storage.token_info {
            Some(info) => Ok(info.total_supply),
            None => Err(CwTokenErrorView::Std(no_token_info())),
        }
    }

    /// The address of the contract.
    fn to_string(&self) -> (s: String) {
        self.address.to_string()
    }

    /// The balance that the ledger records for `address`.
    fn query_balance(&self, deps: &Deps, address: &str) -> (r: Result<u128, CwTokenError>) {
        Ok(balance_or_zero(deps, &Addr::unchecked(address)))
    }

    /// The supply that the token records. Before the token was set up there
    /// is no record, which is an error.
    fn query_total_supply(&self, deps: &Deps) -> (r: Result<u128, CwTokenError>) {
        match &deps.storage.token_info {
            Some(info) => Ok(info.total_supply),
            None => Err(
                CwTokenError::Std(
                    StdError::NotFound { kind: "cw20_base::state::TokenInfo".to_owned() },
                ),
            ),
        }
    }
}

} // verus!
