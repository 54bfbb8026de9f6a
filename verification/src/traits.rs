//! The operations of a vault token, one trait for each, so that a kind of
//! token offers exactly the operations that it can perform.

use crate::effects::{Response, ResponseView};
use crate::error::{zero_amount_error, CwTokenError, CwTokenErrorView, StdError, StdErrorView};
use crate::host::{Addr, Env, MessageInfo};
use crate::state::{Deps, DepsView, StorageView};
use vstd::prelude::*;

verus! {

/// What an operation comes to: the next state and the effects, or an error.
pub type Outcome = Result<(StorageView, ResponseView), CwTokenErrorView>;

/// Whether a call did what `outcome` says: on success the state is the new
/// one and the effects are returned; on failure the error is returned and the
/// state is as it was. The host's answers stay as they were in both cases.
pub open spec fn follows(
    outcome: Outcome,
    before: DepsView,
    after: DepsView,
    r: Result<Response, CwTokenError>,
) -> bool {
    match outcome {
        Ok((storage, response)) => r is Ok && r->Ok_0@ == response && after == (DepsView {
            storage,
            ..before
        }),
        Err(e) => r is Err && r->Err_0@ == e && after == before,
    }
}

/// What an operation without effects comes to: the next state, or an error.
pub type Change = Result<StorageView, StdErrorView>;

/// Whether a call did what `change` says: on success the state is the new
/// one; on failure the error is returned and the state is as it was.
pub open spec fn follows_change(
    change: Change,
    before: DepsView,
    after: DepsView,
    r: Result<(), StdError>,
) -> bool {
    match change {
        Ok(storage) => r is Ok && after == (DepsView { storage, ..before }),
        Err(e) => r is Err && r->Err_0@ == e && after == before,
    }
}

/// What a question comes to: an amount, or an error.
pub type Answer = Result<u128, CwTokenErrorView>;

/// Whether a call answered what `answer` says.
pub open spec fn answers(answer: Answer, r: Result<u128, CwTokenError>) -> bool {
    match answer {
        Ok(amount) => r == Ok::<u128, CwTokenError>(amount),
        Err(e) => r is Err && r->Err_0@ == e,
    }
}

/// Setting a token up.
pub trait Instantiate {
    /// What this kind of token needs to be told in order to be set up.
    type InitInfo;

    /// What setting the token up comes to.
    spec fn instantiate_outcome(
        &self,
        storage: StorageView,
        init_info: Option<Self::InitInfo>,
    ) -> Outcome;

    /// Sets the token up. Where the host has to create something first, the
    /// effects hold that request and the token is saved only when the host's
    /// reply arrives. A failure leaves the state as it was.
    fn instantiate(&self, deps: &mut Deps, init_info: Option<Self::InitInfo>) -> (r: Result<
        Response,
        CwTokenError,
    >)
        ensures
            follows(
                self.instantiate_outcome(old(deps)@.storage, init_info),
                old(deps)@,
                final(deps)@,
                r,
            ),
    ;
}

/// Making new tokens.
pub trait Mint {
    /// What a mint of `amount` tokens to `recipient` comes to, where the
    /// contract runs in `env`.
    spec fn mint_outcome(
        &self,
        storage: StorageView,
        env: Env,
        recipient: Addr,
        amount: u128,
    ) -> Outcome;

    /// To mint nothing is an error, whatever the kind of token and its state.
    proof fn mint_of_nothing(&self, storage: StorageView, env: Env, recipient: Addr)
        ensures
            self.mint_outcome(storage, env, recipient, 0) == Err::<
                (StorageView, ResponseView),
                CwTokenErrorView,
            >(zero_amount_error()),
    ;

    /// Mints `amount` tokens to `recipient`. To mint nothing is an error,
    /// whatever the kind of token, and a failure leaves the state as it was.
    fn mint(&self, deps: &mut Deps, env: &Env, recipient: &Addr, amount: u128) -> (r: Result<
        Response,
        CwTokenError,
    >)
        ensures
            follows(
                self.mint_outcome(old(deps)@.storage, *env, *recipient, amount),
                old(deps)@,
                final(deps)@,
                r,
            ),
            amount == 0 ==> r is Err && r->Err_0@ == zero_amount_error(),
    ;
}

/// Destroying tokens.
pub trait Burn {
    /// What a burn of `amount` tokens comes to, where the contract runs in
    /// `env`.
    spec fn burn_outcome(&self, storage: StorageView, env: Env, amount: u128) -> Outcome;

    /// Burns `amount` tokens that the contract holds. A failure leaves the
    /// state as it was.
    fn burn(&self, deps: &mut Deps, env: &Env, amount: u128) -> (r: Result<Response, CwTokenError>)
        ensures
            follows(
                self.burn_outcome(old(deps)@.storage, *env, amount),
                old(deps)@,
                final(deps)@,
                r,
            ),
    ;
}

/// Taking tokens in.
pub trait Receive {
    /// What taking `amount` tokens in comes to, for the message `info` to
    /// the contract that runs in `env`.
    spec fn receive_change(
        &self,
        storage: StorageView,
        env: Env,
        info: MessageInfo,
        amount: u128,
    ) -> Change;

    /// Takes `amount` tokens from the sender into the contract's balance, or
    /// checks that they have come with the message. A failure leaves the state
    /// as it was.
    fn receive(&self, deps: &mut Deps, env: &Env, info: &MessageInfo, amount: u128) -> (r: Result<
        (),
        StdError,
    >)
        ensures
            follows_change(
                self.receive_change(old(deps)@.storage, *env, *info, amount),
                old(deps)@,
                final(deps)@,
                r,
            ),
    ;
}

/// Moving tokens on.
pub trait Transfer {
    /// What moving `amount` tokens of the contract to `recipient` comes to.
    spec fn transfer_outcome(
        &self,
        storage: StorageView,
        env: Env,
        info: MessageInfo,
        recipient: Seq<char>,
        amount: u128,
    ) -> Outcome;

    /// Moves `amount` tokens of the contract to `recipient`. A failure leaves
    /// the state as it was.
    fn transfer(
        &self,
        deps: &mut Deps,
        env: &Env,
        info: &MessageInfo,
        recipient: &str,
        amount: u128,
    ) -> (r: Result<Response, CwTokenError>)
        ensures
            follows(
                self.transfer_outcome(old(deps)@.storage, *env, *info, recipient@, amount),
                old(deps)@,
                final(deps)@,
                r,
            ),
    ;
}

/// A token that a vault can use: it can be set up, minted, burned, taken in
/// and asked about.
pub trait VaultToken: Instantiate + Mint + Burn + Receive {
    /// The text that names the token on the host.
    spec fn text(&self) -> Seq<char>;

    /// The balance that `address` has of the token, as the state and the
    /// host's answers tell it.
    spec fn balance_of(&self, deps: DepsView, address: Seq<char>) -> Answer;

    /// How much of the token there is, as the state and the host's answers
    /// tell it.
    spec fn total_supply(&self, deps: DepsView) -> Answer;

    /// The text that names the token on the host.
    fn to_string(&self) -> (s: String)
        ensures
            s@ == self.text(),
    ;

    /// The balance that `address` has of the token.
    fn query_balance(&self, deps: &Deps, address: &str) -> (r: Result<u128, CwTokenError>)
        ensures
            answers(self.balance_of(deps@, address@), r),
    ;

    /// How much of the token there is.
    fn query_total_supply(&self, deps: &Deps) -> (r: Result<u128, CwTokenError>)
        ensures
            answers(self.total_supply(deps@), r),
    ;
}

} // verus!
