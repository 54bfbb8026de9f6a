//! What holds of the operations taken together.

use crate::denom::{denom_parts, denom_text, lemma_parts_of_name, names_denom, DenomView};
use crate::effects::{ReplyOn, ResponseView};
use crate::error::{
    overflow_error, zero_amount_error, CwTokenErrorView, OverflowOperation, ParseReplyErrorView,
    StdErrorView,
};
use crate::host::{Addr, CoinView, Env, ReplyView};
use crate::implementations::cw20::{
    save_token_outcome, Cw20, Cw20InitInfo, REPLY_SAVE_CW20_ADDRESS,
};
use crate::implementations::cw4626;
use crate::implementations::neutron;
use crate::implementations::neutron::{NeutronDenom, REPLY_SAVE_NEUTRON_DENOM};
use crate::implementations::osmosis::{OsmosisDenom, REPLY_SAVE_OSMOSIS_DENOM};
use crate::native::{amount_mismatch, funds_check, save_denom_outcome};
use crate::state::{loaded, StorageView, TokenIdentityView};
use crate::text::{count_of, free_of, lemma_count_of_concat, lemma_count_of_free};
use crate::traits::{Instantiate, Mint, Outcome};
use vstd::prelude::*;

verus! {

/// A denom's name, read back, gives the owner and the subdenom that it was
/// written from, whatever the two are, as long as neither holds a slash.
pub proof fn law_denom_round_trip(owner: Seq<char>, subdenom: Seq<char>)
    requires
        free_of(owner, '/'),
        free_of(subdenom, '/'),
    ensures
        denom_parts(denom_text(owner, subdenom)) == Some(DenomView { owner, subdenom }),
{
    lemma_parts_of_name(denom_text(owner, subdenom), owner, subdenom);
}

/// A text that reads as a denom is the name that is written from what was
/// read, letter for letter.
pub proof fn law_denom_name_is_canonical(s: Seq<char>)
    requires
        denom_parts(s) is Some,
    ensures
        denom_text(denom_parts(s)->Some_0.owner, denom_parts(s)->Some_0.subdenom) == s,
        free_of(denom_parts(s)->Some_0.owner, '/'),
        free_of(denom_parts(s)->Some_0.subdenom, '/'),
{
}

/// A text that is not `factory/X/Y` for any two slash-free texts `X` and `Y`
/// does not read as a denom.
pub proof fn law_other_texts_fail(s: Seq<char>)
    requires
        forall|x: Seq<char>, y: Seq<char>|
            free_of(x, '/') && free_of(y, '/') ==> s != denom_text(x, y),
    ensures
        denom_parts(s) is None,
{
}

/// A text with fewer or more than two slashes, that is with another number
/// of segments than three, does not read as a denom.
pub proof fn law_wrong_segment_count_fails(s: Seq<char>)
    requires
        count_of(s, '/') != 2,
    ensures
        denom_parts(s) is None,
{
    if denom_parts(s) is Some {
        let p = denom_parts(s)->Some_0;
        assert(names_denom(s, p.owner, p.subdenom));
        reveal_strlit("factory/");
        reveal_strlit("/");
        let head = "factory/"@;
        lemma_count_of_concat(head + p.owner + "/"@, p.subdenom, '/');
        lemma_count_of_concat(head + p.owner, "/"@, '/');
        lemma_count_of_concat(head, p.owner, '/');
        lemma_count_of_free(p.owner, '/');
        lemma_count_of_free(p.subdenom, '/');
        assert(count_of("/"@, '/') == 1) by {
            assert("/"@.drop_last() =~= Seq::<char>::empty());
            assert(count_of(Seq::<char>::empty(), '/') == 0);
            assert("/"@.last() == '/');
        }
        assert(count_of(head, '/') == 1) by {
            let body = head.drop_last();
            assert(free_of(body, '/'));
            lemma_count_of_free(body, '/');
        }
    }
}

/// A text whose first segment is not `factory` does not read as a denom.
pub proof fn law_wrong_first_segment_fails(s: Seq<char>)
    requires
        s.len() < 8 || s.subrange(0, 8) != "factory/"@,
    ensures
        denom_parts(s) is None,
{
    if denom_parts(s) is Some {
        let p = denom_parts(s)->Some_0;
        assert(names_denom(s, p.owner, p.subdenom));
        reveal_strlit("factory/");
        assert(s.subrange(0, 8) =~= "factory/"@);
    }
}

/// On a denom with a supply in the contract's state, a mint that succeeds
/// and a burn of the same amount leave the supply where it was, and the rest
/// of the state too.
pub proof fn law_neutron_mint_then_burn(
    denom: DenomView,
    storage: StorageView,
    contract: Seq<char>,
    recipient: Seq<char>,
    amount: u128,
)
    requires
        amount > 0,
        neutron::mint_outcome(denom, storage, contract, recipient, amount) is Ok,
    ensures
        ({
            let minted = neutron::mint_outcome(denom, storage, contract, recipient, amount)->Ok_0.0;
            let burned = neutron::burn_outcome(denom, minted, contract, amount);
            &&& neutron::recorded_supply(minted) == neutron::recorded_supply(storage) + amount
            &&& burned is Ok
            &&& neutron::recorded_supply(burned->Ok_0.0) == neutron::recorded_supply(storage)
            &&& burned->Ok_0.0 == (StorageView {
                total_supply: Some(neutron::recorded_supply(storage)),
                ..storage
            })
        }),
{
}

/// On a denom with a supply in the contract's state, a burn of more than the
/// supply fails with the arithmetic error of the subtraction.
pub proof fn law_neutron_burn_beyond_supply(
    denom: DenomView,
    storage: StorageView,
    contract: Seq<char>,
    amount: u128,
)
    requires
        amount > neutron::recorded_supply(storage),
    ensures
        neutron::burn_outcome(denom, storage, contract, amount) == Err::<
            (StorageView, ResponseView),
            CwTokenErrorView,
        >(
            CwTokenErrorView::Std(
                overflow_error(OverflowOperation::Sub, neutron::recorded_supply(storage), amount),
            ),
        ),
{
}

/// On a ledger token, a mint to the contract itself that succeeds and a burn
/// of the same amount leave the supply and the contract's balance where they
/// were, and the other balances too.
pub proof fn law_ledger_mint_then_burn(
    token: Seq<char>,
    storage: StorageView,
    contract: Seq<char>,
    amount: u128,
)
    requires
        amount > 0,
        cw4626::mint_outcome(token, storage, contract, amount) is Ok,
    ensures
        ({
            let minted = cw4626::mint_outcome(token, storage, contract, amount)->Ok_0.0;
            let burned = cw4626::burn_outcome(token, minted, contract, amount);
            &&& cw4626::ledger_balance(minted, contract) == cw4626::ledger_balance(
                storage,
                contract,
            ) + amount
            &&& burned is Ok
            &&& burned->Ok_0.0.token_info == storage.token_info
            &&& cw4626::ledger_balance(burned->Ok_0.0, contract) == cw4626::ledger_balance(
                storage,
                contract,
            )
            &&& forall|holder: Seq<char>|
                cw4626::ledger_balance(burned->Ok_0.0, holder) == cw4626::ledger_balance(
                    storage,
                    holder,
                )
        }),
{
}

/// On a ledger token, a burn of more than the contract's balance fails with
/// the arithmetic error of the subtraction.
pub proof fn law_ledger_burn_beyond_balance(
    token: Seq<char>,
    storage: StorageView,
    contract: Seq<char>,
    amount: u128,
)
    requires
        amount > cw4626::ledger_balance(storage, contract),
    ensures
        cw4626::burn_outcome(token, storage, contract, amount) == Err::<
            (StorageView, ResponseView),
            CwTokenErrorView,
        >(
            CwTokenErrorView::Std(
                overflow_error(
                    OverflowOperation::Sub,
                    cw4626::ledger_balance(storage, contract),
                    amount,
                ),
            ),
        ),
{
}

/// A mint of nothing fails with the zero-amount error, on every kind of
/// token and whatever the state is: no state comes of it, and no effects.
pub proof fn law_mint_of_nothing_fails<T: Mint>(
    token: T,
    storage: StorageView,
    env: Env,
    recipient: Addr,
)
    ensures
        token.mint_outcome(storage, env, recipient, 0) == Err::<
            (StorageView, ResponseView),
            CwTokenErrorView,
        >(zero_amount_error()),
{
    token.mint_of_nothing(storage, env, recipient);
}

/// Whether an operation succeeds, leaves `storage` as it is, and has for its
/// only message a request that the host always answers under `id`.
pub open spec fn asks_once(outcome: Outcome, storage: StorageView, id: u64) -> bool {
    &&& outcome is Ok
    &&& outcome->Ok_0.0 == storage
    &&& outcome->Ok_0.1.messages.len() == 1
    &&& outcome->Ok_0.1.messages[0].id == id
    &&& outcome->Ok_0.1.messages[0].reply_on == ReplyOn::Always
}

/// Setting up a token that the host has to create first saves nothing. The
/// effects hold exactly one request, which the host answers, whether the
/// request succeeds or fails, under the id that is reserved for the kind of
/// token; and no two kinds reserve the same id.
pub proof fn law_creation_request(
    storage: StorageView,
    contract_token: Cw20,
    info: Cw20InitInfo,
    osmosis_denom: OsmosisDenom,
    neutron_denom: NeutronDenom,
    payload: Option<Vec<u8>>,
)
    ensures
        asks_once(
            contract_token.instantiate_outcome(storage, Some(info)),
            storage,
            REPLY_SAVE_CW20_ADDRESS,
        ),
        asks_once(
            osmosis_denom.instantiate_outcome(storage, payload),
            storage,
            REPLY_SAVE_OSMOSIS_DENOM,
        ),
        asks_once(
            neutron_denom.instantiate_outcome(storage, payload),
            storage,
            REPLY_SAVE_NEUTRON_DENOM,
        ),
        REPLY_SAVE_CW20_ADDRESS != REPLY_SAVE_OSMOSIS_DENOM,
        REPLY_SAVE_CW20_ADDRESS != REPLY_SAVE_NEUTRON_DENOM,
        REPLY_SAVE_OSMOSIS_DENOM != REPLY_SAVE_NEUTRON_DENOM,
{
}

/// A reply under an id that the kind of token does not reserve is refused
/// as such, whatever else it holds.
pub proof fn law_unknown_reply_id(
    storage: StorageView,
    reply: ReplyView,
    id: u64,
    invalid: Seq<char>,
    action: Seq<char>,
    checked: Result<Seq<char>, StdErrorView>,
)
    ensures
        reply.id != id ==> save_denom_outcome(storage, reply, id, invalid, action) is Err
            && save_denom_outcome(storage, reply, id, invalid, action)->Err_0
            == CwTokenErrorView::InvalidReplyId,
        reply.id != REPLY_SAVE_CW20_ADDRESS ==> save_token_outcome(storage, reply, checked) is Err
            && save_token_outcome(storage, reply, checked)->Err_0
            == CwTokenErrorView::InvalidReplyId,
{
}

/// A reply to a request that failed gives the host's reason, word for word.
pub proof fn law_failed_request(
    storage: StorageView,
    reply: ReplyView,
    invalid: Seq<char>,
    action: Seq<char>,
    checked: Result<Seq<char>, StdErrorView>,
)
    requires
        reply.result is Err,
    ensures
        save_denom_outcome(storage, reply, reply.id, invalid, action) is Err,
        save_denom_outcome(storage, reply, reply.id, invalid, action)->Err_0
            == CwTokenErrorView::Std(StdErrorView::GenericErr { msg: reply.result->Err_0 }),
        reply.id == REPLY_SAVE_CW20_ADDRESS ==> save_token_outcome(storage, reply, checked) is Err
            && save_token_outcome(storage, reply, checked)->Err_0
            == CwTokenErrorView::ParseReplyError(
            ParseReplyErrorView::SubMsgFailure(reply.result->Err_0),
        ),
{
}

/// After a reply that was taken, a load finds the very token that the reply
/// named: for a token contract the address as the host accepted it, for a
/// denom the owner and subdenom of the name in the reply.
pub proof fn law_load_after_reply(
    storage: StorageView,
    reply: ReplyView,
    id: u64,
    invalid: Seq<char>,
    action: Seq<char>,
    checked: Result<Seq<char>, StdErrorView>,
)
    ensures
        save_token_outcome(storage, reply, checked) is Ok ==> checked is Ok && loaded::<Cw20>(
            save_token_outcome(storage, reply, checked)->Ok_0.0,
        ) == Ok::<TokenIdentityView, CwTokenErrorView>(TokenIdentityView::Cw20(checked->Ok_0)),
        save_denom_outcome(storage, reply, id, invalid, action) is Ok ==> ({
            let saved = save_denom_outcome(storage, reply, id, invalid, action)->Ok_0.0;
            &&& saved.token is Some
            &&& saved.token->Some_0 is Denom
            &&& loaded::<NeutronDenom>(saved) == Ok::<TokenIdentityView, CwTokenErrorView>(
                saved.token->Some_0,
            )
            &&& loaded::<OsmosisDenom>(saved) == Ok::<TokenIdentityView, CwTokenErrorView>(
                saved.token->Some_0,
            )
            &&& reply.result is Ok
            &&& crate::reply::created_denom(reply.result->Ok_0.events) is Ok
            &&& denom_text(saved.token->Some_0->owner, saved.token->Some_0->subdenom)
                == crate::reply::created_denom(reply.result->Ok_0.events)->Ok_0
        }),
{
}

/// A reply that was taken can be taken again: the second time comes to the
/// same state and the same effects as the first.
pub proof fn law_reply_twice(
    storage: StorageView,
    reply: ReplyView,
    id: u64,
    invalid: Seq<char>,
    action: Seq<char>,
    checked: Result<Seq<char>, StdErrorView>,
)
    ensures
        save_token_outcome(storage, reply, checked) is Ok ==> save_token_outcome(
            save_token_outcome(storage, reply, checked)->Ok_0.0,
            reply,
            checked,
        ) == save_token_outcome(storage, reply, checked),
        save_denom_outcome(storage, reply, id, invalid, action) is Ok ==> save_denom_outcome(
            save_denom_outcome(storage, reply, id, invalid, action)->Ok_0.0,
            reply,
            id,
            invalid,
            action,
        ) == save_denom_outcome(storage, reply, id, invalid, action),
{
}

/// Where one coin of the token came with the message, the check of the
/// funds passes if it is exactly the amount asked for; more fails as less
/// does, with the error that names the coin asked for.
pub proof fn law_receive_exact(storage: StorageView, denom: Seq<char>, sent: u128, amount: u128)
    ensures
        sent == amount ==> funds_check(
            storage,
            seq![CoinView { denom, amount: sent }],
            CoinView { denom, amount },
        ) == Ok::<StorageView, StdErrorView>(storage),
        sent != amount ==> funds_check(
            storage,
            seq![CoinView { denom, amount: sent }],
            CoinView { denom, amount },
        ) == Err::<StorageView, StdErrorView>(amount_mismatch(CoinView { denom, amount })),
{
    let funds = seq![CoinView { denom, amount: sent }];
    if sent == amount {
        assert(funds[0] == CoinView { denom, amount });
    }
}

} // verus!
