//! Vault tokens: one set of operations (instantiate, mint, burn, transfer,
//! receive, balance and supply queries) over several kinds of token.
//!
//! A vault contract keeps one token. The token is a contract of its own
//! ([`Cw20`]), a ledger in the vault's own state ([`Cw4626`]), or a denom of
//! the host chain's token factory ([`OsmosisDenom`], [`NeutronDenom`]). Each
//! operation is a function from the contract's state and the host's answers
//! to the next state and the effects that the host is to carry out: the
//! library sends nothing and stores nothing itself. A failed operation leaves
//! the state as it was.
//!
//! Where the host has to create the token first, `instantiate` returns the
//! request and the token is saved when the host's reply is handed to
//! `save_token`.

pub mod denom;
pub mod effects;
pub mod error;
pub mod factory;
pub mod host;
pub mod implementations;
pub mod laws;
pub mod ledger;
pub mod native;
pub mod querier;
pub mod reply;
pub mod state;
pub mod text;
pub mod token;
pub mod traits;

pub use effects::{BankMsg, CosmosMsg, ReplyOn, Response, SubMsg, WasmMsg};
pub use error::{
    ContractError, CwTokenError, CwTokenResult, OverflowError, OverflowOperation, ParseReplyError,
    StdError, StdResult,
};
pub use host::{
    attr, Addr, Attribute, Coin, ContractInfo, Env, Event, MessageInfo, Reply, SubMsgResponse,
};
pub use implementations::cw20::{AssetInfo, Cw20, Cw20ExecuteMsg, Cw20InitInfo};
pub use implementations::cw4626::{Cw4626, Cw4626InstantiateMsg, InstantiateMarketingInfo};
pub use implementations::neutron::NeutronDenom;
pub use implementations::osmosis::OsmosisDenom;
pub use ledger::Ledger;
pub use querier::{Holding, Querier, SupplyOf};
pub use reply::unwrap_reply;
pub use state::{
    Deps, MarketingInfo, MinterData, Storage, TokenIdentity, TokenInfo, TokenStorage,
};
pub use token::{AssertReceived, Token};
pub use traits::{Burn, Instantiate, Mint, Receive, Transfer, VaultToken};
