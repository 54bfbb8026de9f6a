//! A token that is moved and asked about, and the check that tokens have
//! come in.

use crate::error::{CwTokenError, StdError};
use crate::host::{holds_coin, CoinView, MessageInfo};
use crate::native::amount_mismatch;
use crate::state::{Deps, DepsView};
use crate::traits::{answers, Answer, Transfer};
use vstd::prelude::*;

verus! {

/// A token that can be moved and asked about.
pub trait Token: Transfer {
    /// The balance that `address` has of the token, as the host's answers
    /// tell it.
    spec fn balance_of(&self, deps: DepsView, address: Seq<char>) -> Answer;

    /// How much of the token there is, as the host's answers tell it.
    spec fn total_supply(&self, deps: DepsView) -> Answer;

    /// The balance that `address` has of the token.
    fn query_balance(&self, deps: &Deps, address: &str) -> (r: Result<u128, CwTokenError>)
        ensures
            answers(self.balance_of(deps@, address@), r),
    ;

    /// How much of the token there is.
    fn query_total_supply(&self, deps: &Deps) -> (r: Result<u128, CwTokenError>)
        ensures
            answers(self.total_supply(deps@), r),
    ;

    /// Whether the token is a denom of the host itself.
    fn is_native() -> bool;
}

/// Checking that tokens have come in.
pub trait AssertReceived {
    /// The text that names the token on the host.
    spec fn received_denom(&self) -> Seq<char>;

    /// Checks that exactly `amount` of the token came with the message. The
    /// check passes where the funds hold that very coin, and nowhere else:
    /// more is refused as much as less.
    fn assert_received(&self, deps: &Deps, info: &MessageInfo, amount: u128) -> (r: Result<
        (),
        StdError,
    >)
        ensures
            match r {
                Ok(_) => holds_coin(
                    info.funds.deep_view(),
                    CoinView { denom: self.received_denom(), amount },
                ),
                Err(e) => !holds_coin(
                    info.funds.deep_view(),
                    CoinView { denom: self.received_denom(), amount },
                ) && e@ == amount_mismatch(CoinView { denom: self.received_denom(), amount }),
            },
    ;
}

} // verus!
