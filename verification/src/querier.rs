//! What the host answers when it is asked for a balance or a supply. The
//! host's answers are handed to an operation as a table; the operation looks
//! its answer up and asks nobody.

use cosmwasm_std::StdError as SdkError;
use std::str::FromStr;
use vstd::prelude::*;

verus! {

/// What the host SDK reads out of `text`: an amount, or its error for a text
/// that is none.
pub uninterp spec fn uint128_from_str(text: Seq<char>) -> Result<u128, SdkError>;

/// Calls `Uint128::from_str` of cosmwasm_std, which reads an amount that the
/// host wrote as text. The contract claims only that the outcome depends on
/// the text alone.
#[verifier::external_body]
pub(crate) fn parse_uint128(text: &str) -> (r: Result<u128, SdkError>)
    ensures
        r == uint128_from_str(text@),
{
    match cosmwasm_std::Uint128::from_str(text) {
        Ok(amount) => Ok(amount.u128()),
        Err(e) => Err(e),
    }
}

/// What a supply that the host wrote as `answer` comes to: the amount that
/// the host SDK reads out of it; where the host gave no answer, the error
/// `missing`; where the SDK reads no amount, the SDK's error.
pub open spec fn supply_outcome(answer: Option<Seq<char>>, missing: Seq<char>) -> Result<
    u128,
    crate::error::CwTokenErrorView,
> {
    match answer {
        None => Err(
            crate::error::CwTokenErrorView::Std(
                crate::error::StdErrorView::NotFound { kind: missing },
            ),
        ),
        Some(text) => match uint128_from_str(text) {
            Ok(amount) => Ok(amount),
            Err(e) => Err(crate::error::CwTokenErrorView::Std(crate::error::StdErrorView::Sdk(e))),
        },
    }
}

/// Reads the supply out of the host's answer.
pub fn read_supply(answer: Option<String>, missing: &str) -> (r: Result<
    u128,
    crate::error::CwTokenError,
>)
    ensures
        match supply_outcome(answer.deep_view(), missing@) {
            Ok(amount) => r == Ok::<u128, crate::error::CwTokenError>(amount),
            Err(e) => r is Err && r->Err_0@ == e,
        },
{
    let text = match answer {
        Some(text) => text,
        None => {
            return Err(
                crate::error::CwTokenError::Std(
                    crate::error::StdError::NotFound { kind: missing.to_owned() },
                ),
            );
        },
    };
    match parse_uint128(text.as_str()) {
        Ok(amount) => Ok(amount),
        Err(e) => Err(crate::error::CwTokenError::Std(crate::error::StdError::Sdk(e))),
    }
}

/// The host's answer to "how much of `asset` does `holder` have". The asset
/// is a native denom, or the address of a token contract.
#[derive(Debug, PartialEq, Eq, Clone)]
pub struct Holding {
    pub asset: String,
    pub holder: String,
    pub amount: u128,
}

/// [`Holding`] as a value: its texts as sequences of characters, its lists as
/// sequences.
pub struct HoldingView {
    pub asset: Seq<char>,
    pub holder: Seq<char>,
    pub amount: u128,
}

impl View for Holding {
    type V = HoldingView;

    open spec fn view(&self) -> HoldingView {
        HoldingView { asset: self.asset@, holder: self.holder@, amount: self.amount }
    }
}

impl DeepView for Holding {
    type V = HoldingView;

    open spec fn deep_view(&self) -> HoldingView {
        self@
    }
}

/// The host's answer to "how much of `asset` is there", the amount as the
/// host wrote it.
#[derive(Debug, PartialEq, Eq, Clone)]
pub struct SupplyOf {
    pub asset: String,
    pub amount: String,
}

/// [`SupplyOf`] as a value: its texts as sequences of characters, its lists as
/// sequences.
pub struct SupplyOfView {
    pub asset: Seq<char>,
    pub amount: Seq<char>,
}

impl View for SupplyOf {
    type V = SupplyOfView;

    open spec fn view(&self) -> SupplyOfView {
        SupplyOfView { asset: self.asset@, amount: self.amount@ }
    }
}

impl DeepView for SupplyOf {
    type V = SupplyOfView;

    open spec fn deep_view(&self) -> SupplyOfView {
        self@
    }
}

/// The answers of the host.
#[derive(Debug, PartialEq, Eq, Clone)]
pub struct Querier {
    pub balances: Vec<Holding>,
    pub supplies: Vec<SupplyOf>,
}

/// [`Querier`] as a value: its texts as sequences of characters, its lists as
/// sequences.
pub struct QuerierView {
    pub balances: Seq<HoldingView>,
    pub supplies: Seq<SupplyOfView>,
}

impl View for Querier {
    type V = QuerierView;

    open spec fn view(&self) -> QuerierView {
        QuerierView {
            balances: self.balances.deep_view(),
            supplies: self.supplies.deep_view(),
        }
    }
}

/// The first answer on the balance that `holder` has of `asset`; zero where
/// the host gave none, as the host itself answers for a holder it does not
/// know.
pub open spec fn balance_answer(
    balances: Seq<HoldingView>,
    asset: Seq<char>,
    holder: Seq<char>,
) -> u128
    decreases balances.len(),
{
    if balances.len() == 0 {
        0
    } else if balances[0].asset == asset && balances[0].holder == holder {
        balances[0].amount
    } else {
        balance_answer(balances.drop_first(), asset, holder)
    }
}

/// The first answer on the supply of `asset`, if the host gave one.
pub open spec fn supply_answer(supplies: Seq<SupplyOfView>, asset: Seq<char>) -> Option<
    Seq<char>,
>
    decreases supplies.len(),
{
    if supplies.len() == 0 {
        None
    } else if supplies[0].asset == asset {
        Some(supplies[0].amount)
    } else {
        supply_answer(supplies.drop_first(), asset)
    }
}

impl Querier {
    /// A host that was asked nothing.
    pub fn new() -> (q: Querier)
        ensures
            q@ == (QuerierView { balances: Seq::empty(), supplies: Seq::empty() }),
    {
        let q = Querier { balances: Vec::new(), supplies: Vec::new() };
        assert(q.balances.deep_view() =~= Seq::empty());
        assert(q.supplies.deep_view() =~= Seq::empty());
        q
    }

    /// How much of `asset` the host says that `holder` has.
    pub fn query_balance(&self, asset: &str, holder: &str) -> (amount: u128)
        ensures
            amount == balance_answer(self@.balances, asset@, holder@),
    {
        let ghost all = self@.balances;
        let mut i: usize = 0;
        assert(all.skip(0) =~= all);
        while i < self.balances.len()
            invariant
                i <= self.balances.len(),
                all == self.balances.deep_view(),
                balance_answer(all, asset@, holder@) == balance_answer(
                    all.skip(i as int),
                    asset@,
                    holder@,
                ),
            decreases self.balances.len() - i,
        {
            let entry = &self.balances[i];
            proof {
                assert(all.skip(i as int)[0] == entry@);
                assert(all.skip(i as int).drop_first() =~= all.skip(i + 1));
            }
            if crate::text::same_text(entry.asset.as_str(), asset) && crate::text::same_text(
                entry.holder.as_str(),
                holder,
            ) {
                return entry.amount;
            }
            i = i + 1;
        }
        0
    }

    /// How much of `asset` the host says there is, as the host wrote it.
    pub fn query_supply(&self, asset: &str) -> (amount: Option<String>)
        ensures
            amount.deep_view() == supply_answer(self@.supplies, asset@),
    {
        let ghost all = self@.supplies;
        let mut i: usize = 0;
        assert(all.skip(0) =~= all);
        while i < self.supplies.len()
            invariant
                i <= self.supplies.len(),
                all == self.supplies.deep_view(),
                supply_answer(all, asset@) == supply_answer(all.skip(i as int), asset@),
            decreases self.supplies.len() - i,
        {
            let entry = &self.supplies[i];
            proof {
                assert(all.skip(i as int)[0] == entry@);
                assert(all.skip(i as int).drop_first() =~= all.skip(i + 1));
            }
            if crate::text::same_text(entry.asset.as_str(), asset) {
                return Some(entry.amount.clone());
            }
            i = i + 1;
        }
        None
    }
}

} // verus!
