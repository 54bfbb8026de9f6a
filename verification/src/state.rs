//! The contract's own persistent state, and the single slot in it that holds
//! the identity of the contract's token.

use crate::error::{CwTokenError, CwTokenErrorView, StdError, StdErrorView};
use crate::host::Addr;
use crate::ledger::Ledger;
use crate::querier::{Querier, QuerierView};
use vstd::prelude::*;

verus! {

/// The key of the slot that holds the token's identity.
pub const STORE_TOKEN_KEY: &'static str = "store_token";

/// Who may mint a ledger token, and up to what supply.
#[derive(Debug, PartialEq, Eq, Clone)]
pub struct MinterData {
    pub minter: Addr,
    pub cap: Option<u128>,
}

/// [`MinterData`] as a value: its texts as sequences of characters, its lists as
/// sequences.
pub struct MinterDataView {
    pub minter: Seq<char>,
    pub cap: Option<u128>,
}

impl View for MinterData {
    type V = MinterDataView;

    open spec fn view(&self) -> MinterDataView {
        MinterDataView { minter: self.minter@, cap: self.cap }
    }
}

impl DeepView for MinterData {
    type V = MinterDataView;

    open spec fn deep_view(&self) -> MinterDataView {
        self@
    }
}

/// What a ledger token records about itself.
#[derive(Debug, PartialEq, Eq, Clone)]
pub struct TokenInfo {
    pub name: String,
    pub symbol: String,
    pub decimals: u8,
    pub total_supply: u128,
    pub mint: Option<MinterData>,
}

/// [`TokenInfo`] as a value: its texts as sequences of characters, its lists as
/// sequences.
pub struct TokenInfoView {
    pub name: Seq<char>,
    pub symbol: Seq<char>,
    pub decimals: u8,
    pub total_supply: u128,
    pub mint: Option<MinterDataView>,
}

impl View for TokenInfo {
    type V = TokenInfoView;

    open spec fn view(&self) -> TokenInfoView {
        TokenInfoView {
            name: self.name@,
            symbol: self.symbol@,
            decimals: self.decimals,
            total_supply: self.total_supply,
            mint: self.mint.deep_view(),
        }
    }
}

impl DeepView for TokenInfo {
    type V = TokenInfoView;

    open spec fn deep_view(&self) -> TokenInfoView {
        self@
    }
}

/// What a ledger token tells about the project behind it.
#[derive(Debug, PartialEq, Eq, Clone)]
pub struct MarketingInfo {
    pub project: Option<String>,
    pub description: Option<String>,
    /// The address that may change this information.
    pub marketing: Option<Addr>,
}

/// [`MarketingInfo`] as a value: its texts as sequences of characters, its lists as
/// sequences.
pub struct MarketingInfoView {
    pub project: Option<Seq<char>>,
    pub description: Option<Seq<char>>,
    pub marketing: Option<Seq<char>>,
}

impl View for MarketingInfo {
    type V = MarketingInfoView;

    open spec fn view(&self) -> MarketingInfoView {
        MarketingInfoView {
            project: self.project.deep_view(),
            description: self.description.deep_view(),
            marketing: self.marketing.deep_view(),
        }
    }
}

impl DeepView for MarketingInfo {
    type V = MarketingInfoView;

    open spec fn deep_view(&self) -> MarketingInfoView {
        self@
    }
}

/// The identity of a token: what names it among the tokens of its kind.
#[derive(Debug, PartialEq, Eq, Clone)]
pub enum TokenIdentity {
    /// A token that a contract of its own keeps: that contract's address.
    Cw20(Addr),
    /// A token whose ledger the contract itself keeps: the contract's address.
    Cw4626(Addr),
    /// A denom of the host's token factory: `factory/{owner}/{subdenom}`.
    Denom { owner: String, subdenom: String },
}

/// [`TokenIdentity`] as a value: its texts as sequences of characters, its lists as
/// sequences.
pub enum TokenIdentityView {
    Cw20(Seq<char>),
    Cw4626(Seq<char>),
    Denom { owner: Seq<char>, subdenom: Seq<char> },
}

impl View for TokenIdentity {
    type V = TokenIdentityView;

    open spec fn view(&self) -> TokenIdentityView {
        match self {
            TokenIdentity::Cw20(a) => TokenIdentityView::Cw20(a@),
            TokenIdentity::Cw4626(a) => TokenIdentityView::Cw4626(a@),
            TokenIdentity::Denom { owner, subdenom } => TokenIdentityView::Denom {
                owner: owner@,
                subdenom: subdenom@,
            },
        }
    }
}

impl DeepView for TokenIdentity {
    type V = TokenIdentityView;

    open spec fn deep_view(&self) -> TokenIdentityView {
        self@
    }
}

/// The persistent state of the contract.
#[derive(Debug, PartialEq, Eq)]
pub struct Storage {
    /// The slot of the token's identity: empty until a token is saved, and
    /// replaced as a whole by each save.
    pub token: Option<TokenIdentity>,
    /// The supply of a factory denom whose host answers no supply query.
    pub total_supply: Option<u128>,
    /// A ledger token's record of itself.
    pub token_info: Option<TokenInfo>,
    pub marketing_info: Option<MarketingInfo>,
    /// A ledger token's balances.
    pub balances: Ledger,
}

/// [`Storage`] as a value: its texts as sequences of characters, its lists as
/// sequences.
pub struct StorageView {
    pub token: Option<TokenIdentityView>,
    pub total_supply: Option<u128>,
    pub token_info: Option<TokenInfoView>,
    pub marketing_info: Option<MarketingInfoView>,
    pub balances: Map<Seq<char>, u128>,
}

impl View for Storage {
    type V = StorageView;

    open spec fn view(&self) -> StorageView {
        StorageView {
            token: self.token.deep_view(),
            total_supply: self.total_supply,
            token_info: self.token_info.deep_view(),
            marketing_info: self.marketing_info.deep_view(),
            balances: self.balances@,
        }
    }
}

/// The state in which nothing was ever saved.
pub open spec fn empty_storage() -> StorageView {
    StorageView {
        token: None,
        total_supply: None,
        token_info: None,
        marketing_info: None,
        balances: Map::empty(),
    }
}

impl Storage {
    /// A state in which nothing was ever saved.
    pub fn new() -> (s: Storage)
        ensures
            s@ == empty_storage(),
    {
        Storage {
            token: None,
            total_supply: None,
            token_info: None,
            marketing_info: None,
            balances: Ledger::new(),
        }
    }
}

/// What an operation works on: the contract's state, and the host's answers.
#[derive(Debug, PartialEq, Eq)]
pub struct Deps {
    pub storage: Storage,
    pub querier: Querier,
}

/// [`Deps`] as a value: its texts as sequences of characters, its lists as
/// sequences.
pub struct DepsView {
    pub storage: StorageView,
    pub querier: QuerierView,
}

impl View for Deps {
    type V = DepsView;

    open spec fn view(&self) -> DepsView {
        DepsView { storage: self.storage@, querier: self.querier@ }
    }
}

impl Deps {
    /// An empty state, and a host that was asked nothing.
    pub fn new() -> (d: Deps)
        ensures
            d@ == (DepsView {
                storage: empty_storage(),
                querier: QuerierView { balances: Seq::empty(), supplies: Seq::empty() },
            }),
    {
        Deps { storage: Storage::new(), querier: Querier::new() }
    }
}

/// The error of a load from the empty slot.
pub open spec fn not_found_error(kind: Seq<char>) -> CwTokenErrorView {
    CwTokenErrorView::Std(StdErrorView::NotFound { kind })
}

/// The error of a load that finds a token of another kind in the slot.
pub open spec fn other_kind_error(kind: Seq<char>) -> CwTokenErrorView {
    CwTokenErrorView::Std(
        StdErrorView::ParseErr { target_type: kind, msg: "the stored token is of another kind"@ },
    )
}

/// What a load finds in `storage`, for a kind of token of the name `kind`
/// that can be read from the identity in the slot or not: that identity, or
/// the error that tells why there is none of that kind.
pub open spec fn slot_content(storage: StorageView, kind: Seq<char>, readable: bool) -> Result<
    TokenIdentityView,
    CwTokenErrorView,
> {
    match storage.token {
        None => Err(not_found_error(kind)),
        Some(id) => if readable {
            Ok(id)
        } else {
            Err(other_kind_error(kind))
        },
    }
}

/// A kind of token that can be kept in the slot of the contract's state.
pub trait TokenStorage: Sized {
    /// The identity under which this token is kept.
    spec fn identity(&self) -> TokenIdentityView;

    /// Whether `id` is the identity of a token of this kind.
    spec fn reads(id: TokenIdentityView) -> bool;

    /// The name of this kind, by which the errors of `load` tell it.
    spec fn kind_name() -> Seq<char>;

    fn kind() -> (name: &'static str)
        ensures
            name@ == Self::kind_name(),
    ;

    fn to_identity(&self) -> (id: TokenIdentity)
        ensures
            id@ == self.identity(),
            Self::reads(id@),
    ;

    fn from_identity(id: &TokenIdentity) -> (token: Option<Self>)
        ensures
            Self::reads(id@) ==> token is Some && token->Some_0.identity() == id@,
            !Self::reads(id@) ==> token is None,
    ;

    /// Reads the token from the slot. Fails with a not-found error where nothing
    /// was ever saved, and with a parse error where the slot holds a token of
    /// another kind.
    fn load(storage: &Storage) -> (r: Result<Self, CwTokenError>)
        ensures
            match slot_content(
                storage@,
                Self::kind_name(),
                storage@.token is Some && Self::reads(storage@.token->Some_0),
            ) {
                Ok(id) => r is Ok && r->Ok_0.identity() == id,
                Err(e) => r is Err && r->Err_0@ == e,
            },
    {
        match &storage.token {
            None => Err(CwTokenError::Std(StdError::NotFound { kind: Self::kind().to_owned() })),
            Some(id) => match Self::from_identity(id) {
                Some(token) => Ok(token),
                None => Err(
                    CwTokenError::Std(
                        StdError::ParseErr {
                            target_type: Self::kind().to_owned(),
                            msg: "the stored token is of another kind".to_owned(),
                        },
                    ),
                ),
            },
        }
    }

    /// Puts the token into the slot, in place of whatever was there. The rest
    /// of the state stays as it was.
    fn save(&self, storage: &mut Storage) -> (r: Result<(), CwTokenError>)
        ensures
            r is Ok,
            final(storage)@ == (StorageView { token: Some(self.identity()), ..old(storage)@ }),
    {
        storage.token = Some(self.to_identity());
        Ok(())
    }
}

/// What a load of a token of kind `T` finds in `storage`.
pub open spec fn loaded<T: TokenStorage>(storage: StorageView) -> Result<
    TokenIdentityView,
    CwTokenErrorView,
> {
    slot_content(
        storage,
        T::kind_name(),
        storage.token is Some && T::reads(storage.token->Some_0),
    )
}

} // verus!
