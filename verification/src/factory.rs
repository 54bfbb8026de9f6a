//! The messages of the host's token-factory module. The module reads them in
//! its own binary encoding, which the library does not compute itself: it has
//! each message encoded by the SDK of the host chain.

use crate::effects::{CosmosMsg, CosmosMsgView};
use osmosis_std::types::cosmos::base::v1beta1::Coin as CoinMsg;
use osmosis_std::types::osmosis::tokenfactory::v1beta1::{MsgBurn, MsgCreateDenom, MsgMint};
use vstd::prelude::*;

verus! {

/// The encoding of the request that `sender` creates the denom `subdenom`.
pub uninterp spec fn create_denom_proto(sender: Seq<char>, subdenom: Seq<char>) -> Seq<u8>;

/// The encoding of the request that `sender` mints `amount` of `denom` to
/// `mint_to_address`.
pub uninterp spec fn mint_proto(
    sender: Seq<char>,
    denom: Seq<char>,
    amount: Seq<char>,
    mint_to_address: Seq<char>,
) -> Seq<u8>;

/// The encoding of the request that `sender` burns `amount` of `denom` from
/// `burn_from_address`.
pub uninterp spec fn burn_proto(
    sender: Seq<char>,
    denom: Seq<char>,
    amount: Seq<char>,
    burn_from_address: Seq<char>,
) -> Seq<u8>;

/// The message that asks the token factory to create a denom.
pub open spec fn create_denom_view(sender: Seq<char>, subdenom: Seq<char>) -> CosmosMsgView {
    CosmosMsgView::Stargate {
        type_url: "/osmosis.tokenfactory.v1beta1.MsgCreateDenom"@,
        value: create_denom_proto(sender, subdenom),
    }
}

/// The message that asks the token factory to mint.
pub open spec fn mint_view(
    sender: Seq<char>,
    denom: Seq<char>,
    amount: Seq<char>,
    mint_to_address: Seq<char>,
) -> CosmosMsgView {
    CosmosMsgView::Stargate {
        type_url: "/osmosis.tokenfactory.v1beta1.MsgMint"@,
        value: mint_proto(sender, denom, amount, mint_to_address),
    }
}

/// The message that asks the token factory to burn.
pub open spec fn burn_view(
    sender: Seq<char>,
    denom: Seq<char>,
    amount: Seq<char>,
    burn_from_address: Seq<char>,
) -> CosmosMsgView {
    CosmosMsgView::Stargate {
        type_url: "/osmosis.tokenfactory.v1beta1.MsgBurn"@,
        value: burn_proto(sender, denom, amount, burn_from_address),
    }
}

/// Calls `MsgCreateDenom::to_proto_bytes` of osmosis_std and pairs the bytes
/// with `MsgCreateDenom::TYPE_URL`. The contract claims that the type URL is
/// the one written out above, and that the bytes depend on the two fields
/// alone.
#[verifier::external_body]
pub(crate) fn create_denom_msg(sender: &str, subdenom: &str) -> (msg: CosmosMsg)
    ensures
        msg@ == (CosmosMsgView::Stargate {
            type_url: "/osmosis.tokenfactory.v1beta1.MsgCreateDenom"@,
            value: create_denom_proto(sender@, subdenom@),
        }),
{
    let msg = MsgCreateDenom { sender: sender.to_string(), subdenom: subdenom.to_string() };
    CosmosMsg::Stargate {
        type_url: MsgCreateDenom::TYPE_URL.to_string(),
        value: msg.to_proto_bytes(),
    }
}

/// Calls `MsgMint::to_proto_bytes` of osmosis_std and pairs the bytes with
/// `MsgMint::TYPE_URL`. The contract claims that the type URL is the one
/// written out above, and that the bytes depend on the four fields alone.
#[verifier::external_body]
pub(crate) fn mint_msg(sender: &str, denom: &str, amount: &str, mint_to_address: &str) -> (msg:
    CosmosMsg)
    ensures
        msg@ == (CosmosMsgView::Stargate {
            type_url: "/osmosis.tokenfactory.v1beta1.MsgMint"@,
            value: mint_proto(sender@, denom@, amount@, mint_to_address@),
        }),
{
    let msg = MsgMint {
        sender: sender.to_string(),
        amount: Some(CoinMsg { denom: denom.to_string(), amount: amount.to_string() }),
        mint_to_address: mint_to_address.to_string(),
    };
    CosmosMsg::Stargate { type_url: MsgMint::TYPE_URL.to_string(), value: msg.to_proto_bytes() }
}

/// Calls `MsgBurn::to_proto_bytes` of osmosis_std and pairs the bytes with
/// `MsgBurn::TYPE_URL`. The contract claims that the type URL is the one
/// written out above, and that the bytes depend on the four fields alone.
#[verifier::external_body]
pub(crate) fn burn_msg(sender: &str, denom: &str, amount: &str, burn_from_address: &str) -> (msg:
    CosmosMsg)
    ensures
        msg@ == (CosmosMsgView::Stargate {
            type_url: "/osmosis.tokenfactory.v1beta1.MsgBurn"@,
            value: burn_proto(sender@, denom@, amount@, burn_from_address@),
        }),
{
    let msg = MsgBurn {
        sender: sender.to_string(),
        amount: Some(CoinMsg { denom: denom.to_string(), amount: amount.to_string() }),
        burn_from_address: burn_from_address.to_string(),
    };
    CosmosMsg::Stargate { type_url: MsgBurn::TYPE_URL.to_string(), value: msg.to_proto_bytes() }
}

} // verus!
