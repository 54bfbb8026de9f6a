//! What the kinds of token-factory denom have in common: the request that
//! creates the denom, the reply that names it, and the check of the funds that
//! came with a message.

use crate::denom::{denom_parts, denom_text, parse_denom, DenomView};
use crate::effects::{
    plain_msg, request_msg, BankMsg, CosmosMsg, CosmosMsgView, Response, ResponseView, SubMsg,
};
use crate::error::{CwTokenError, CwTokenErrorView, StdError, StdErrorView};
use crate::factory::{create_denom_msg, create_denom_view};
use crate::host::{
    attr_view, coin_text, has_coin, holds_coin, Coin, CoinView, Event, EventView, MessageInfo,
    Reply, ReplyView,
};
use crate::reply::{created_denom, parse_created_denom, unwrap_reply};
use crate::state::{Deps, StorageView, TokenIdentity, TokenIdentityView};
use crate::traits::{follows, Change, Outcome};
use vstd::prelude::*;
use vstd::string::*;

verus! {

/// The effects of setting up the denom that `owner` creates as `subdenom`:
/// one request to the token factory, which the host answers under `id`
/// whether it succeeds or fails, and one event that names the denom.
pub open spec fn create_denom_response(denom: DenomView, id: u64) -> ResponseView {
    ResponseView {
        messages: seq![request_msg(create_denom_view(denom.owner, denom.subdenom), id)],
        attributes: Seq::empty(),
        events: seq![
            EventView {
                ty: "apollo/cw-token/instantiate"@,
                attributes: seq![attr_view("denom"@, denom_text(denom.owner, denom.subdenom))],
            },
        ],
    }
}

/// Builds the effects of setting up a denom.
pub fn create_denom(owner: &str, subdenom: &str, id: u64) -> (r: Response)
    ensures
        r@ == create_denom_response(DenomView { owner: owner@, subdenom: subdenom@ }, id),
{
    let name = crate::denom::format_denom(owner, subdenom);
    let request = SubMsg::reply_always(create_denom_msg(owner, subdenom), id);
    let event = Event::new("apollo/cw-token/instantiate").add_attribute("denom", name.as_str());
    let r = Response::new().add_submessage(request).add_event(event);
    proof {
        let want = create_denom_response(DenomView { owner: owner@, subdenom: subdenom@ }, id);
        assert(r@.messages =~= want.messages);
        assert(event@.attributes =~= want.events[0].attributes);
        assert(r@.events =~= want.events);
    }
    r
}

/// What the reply to the request that creates a denom comes to. A reply
/// under another id than `id` is refused. A failed request gives the host's
/// reason, word for word. Else the denom's name is read from the reply's
/// events and taken apart; the denom becomes the token of the contract, and
/// the effects confirm it. Every failure leaves the state as it was.
pub open spec fn save_denom_outcome(
    storage: StorageView,
    reply: ReplyView,
    id: u64,
    invalid: Seq<char>,
    action: Seq<char>,
) -> Outcome {
    if reply.id != id {
        Err(CwTokenErrorView::InvalidReplyId)
    } else {
        match reply.result {
            Err(reason) => Err(CwTokenErrorView::Std(StdErrorView::GenericErr { msg: reason })),
            Ok(response) => match created_denom(response.events) {
                Err(e) => Err(CwTokenErrorView::Std(e)),
                Ok(name) => match denom_parts(name) {
                    None => Err(CwTokenErrorView::Std(StdErrorView::GenericErr { msg: invalid })),
                    Some(parts) => Ok(
                        (
                            StorageView {
                                token: Some(
                                    TokenIdentityView::Denom {
                                        owner: parts.owner,
                                        subdenom: parts.subdenom,
                                    },
                                ),
                                ..storage
                            },
                            ResponseView {
                                messages: Seq::empty(),
                                attributes: seq![
                                    attr_view("action"@, action),
                                    attr_view("denom"@, name),
                                ],
                                events: Seq::empty(),
                            },
                        ),
                    ),
                },
            },
        }
    }
}

/// Takes the reply to the request that creates a denom, and saves the denom
/// that it names as the token of the contract.
pub fn save_denom(deps: &mut Deps, reply: &Reply, id: u64, invalid: &str, action: &str) -> (r:
    Result<Response, CwTokenError>)
    ensures
        follows(
            save_denom_outcome(old(deps)@.storage, reply@, id, invalid@, action@),
            old(deps)@,
            final(deps)@,
            r,
        ),
{
    if reply.id != id {
        return Err(CwTokenError::InvalidReplyId {  });
    }
    let response = match unwrap_reply(reply) {
        Ok(response) => response,
        Err(e) => {
            return Err(CwTokenError::Std(e));
        },
    };
    let name = match parse_created_denom(response) {
        Ok(name) => name,
        Err(e) => {
            return Err(CwTokenError::Std(e));
        },
    };
    let (owner, subdenom) = match parse_denom(name.as_str()) {
        Some(parts) => parts,
        None => {
            return Err(CwTokenError::Std(StdError::GenericErr { msg: invalid.to_owned() }));
        },
    };
    deps.storage.token = Some(TokenIdentity::Denom { owner, subdenom });
    let r = Response::new().add_attribute("action", action).add_attribute("denom", name.as_str());
    proof {
        let want = save_denom_outcome(old(deps)@.storage, reply@, id, invalid@, action@);
        assert(want is Ok);
        assert(r@.attributes =~= want->Ok_0.1.attributes);
    }
    Ok(r)
}

/// The effects of moving `amount` of `denom` from the contract to
/// `recipient`: one message to the host's bank.
pub open spec fn send_response(denom: Seq<char>, recipient: Seq<char>, amount: u128)
    -> ResponseView {
    ResponseView {
        messages: seq![
            plain_msg(
                CosmosMsgView::BankSend {
                    to_address: recipient,
                    amount: seq![CoinView { denom, amount }],
                },
            ),
        ],
        attributes: Seq::empty(),
        events: Seq::empty(),
    }
}

/// Builds the effects of moving coins from the contract to `recipient`.
pub fn send_coins(denom: String, recipient: &str, amount: u128) -> (r: Response)
    ensures
        r@ == send_response(denom@, recipient@, amount),
{
    let coins = vec![Coin { denom, amount }];
    assert(coins.deep_view() =~= seq![CoinView { denom: denom@, amount }]);
    let r = Response::new().add_message(
        CosmosMsg::Bank(BankMsg::Send { to_address: recipient.to_owned(), amount: coins }),
    );
    assert(r@.messages =~= send_response(denom@, recipient@, amount).messages);
    r
}

/// The error of a message that did not bring the coin `required`.
pub open spec fn amount_mismatch(required: CoinView) -> StdErrorView {
    StdErrorView::GenericErr { msg: "Expected to receive "@ + coin_text(required) }
}

/// What the check of the funds comes to: it passes where the funds hold
/// exactly the coin `required`, and nowhere else. The state is not touched.
pub open spec fn funds_check(storage: StorageView, funds: Seq<CoinView>, required: CoinView)
    -> Change {
    if holds_coin(funds, required) {
        Ok(storage)
    } else {
        Err(amount_mismatch(required))
    }
}

/// Checks that exactly `amount` of `denom` came with the message: more is
/// refused as much as less.
pub fn check_funds(info: &MessageInfo, denom: String, amount: u128) -> (r: Result<(), StdError>)
    ensures
        match r {
            Ok(_) => holds_coin(info.funds.deep_view(), CoinView { denom: denom@, amount }),
            Err(e) => !holds_coin(info.funds.deep_view(), CoinView { denom: denom@, amount })
                && e@ == amount_mismatch(CoinView { denom: denom@, amount }),
        },
{
    let required = Coin { denom, amount };
    if !has_coin(&info.funds, &required) {
        return Err(
            StdError::GenericErr {
                msg: String::from_str("Expected to receive ").concat(
                    required.to_string().as_str(),
                ),
            },
        );
    }
    Ok(())
}

} // verus!
