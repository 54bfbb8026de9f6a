//! Reading the host's reply to a request that creates something: the address
//! of a new contract, or the name of a new denom.

use crate::error::{ParseReplyError, ParseReplyErrorView, StdError, StdErrorView};
use crate::host::{Attribute, AttributeView, Event, EventView, Reply, ReplyView, SubMsgResponse};
use crate::text::same_text;
use vstd::prelude::*;

verus! {

/// What the reply to a request that creates a contract holds.
#[derive(Debug, PartialEq, Eq, Clone)]
pub struct MsgInstantiateContractResponse {
    /// The address that the host gave to the new contract.
    pub contract_address: String,
    pub data: Option<Vec<u8>>,
}

/// [`MsgInstantiateContractResponse`] as a value: its text as a sequence of
/// characters, its bytes as a sequence.
pub struct MsgInstantiateContractResponseView {
    pub contract_address: Seq<char>,
    pub data: Option<Seq<u8>>,
}

impl View for MsgInstantiateContractResponse {
    type V = MsgInstantiateContractResponseView;

    open spec fn view(&self) -> MsgInstantiateContractResponseView {
        MsgInstantiateContractResponseView {
            contract_address: self.contract_address@,
            data: match self.data {
                Some(d) => Some(d@),
                None => None,
            },
        }
    }
}

/// What the bytes of a reply to a request that creates a contract decode to.
pub uninterp spec fn instantiate_response_data(data: Seq<u8>) -> Result<
    MsgInstantiateContractResponseView,
    ParseReplyErrorView,
>;

/// The outcome of a decoding, with the texts and bytes in it as values.
pub open spec fn decoded_view(
    r: Result<MsgInstantiateContractResponse, ParseReplyError>,
) -> Result<MsgInstantiateContractResponseView, ParseReplyErrorView> {
    match r {
        Ok(response) => Ok(response@),
        Err(e) => Err(e@),
    }
}

/// Calls `parse_instantiate_response_data` of cw_utils, which decodes the
/// data of a reply to a request that creates a contract. The contract claims
/// only that the outcome depends on the bytes alone.
#[verifier::external_body]
pub(crate) fn parse_instantiate_response_data(data: &Vec<u8>) -> (r: Result<
    MsgInstantiateContractResponse,
    ParseReplyError,
>)
    ensures
        decoded_view(r) == instantiate_response_data(data@),
{
    match cw_utils::parse_instantiate_response_data(data.as_slice()) {
        Ok(res) => Ok(
            MsgInstantiateContractResponse {
                contract_address: res.contract_address,
                data: res.data.map(|b| b.0),
            },
        ),
        Err(cw_utils::ParseReplyError::SubMsgFailure(m)) => Err(ParseReplyError::SubMsgFailure(m)),
        Err(cw_utils::ParseReplyError::ParseFailure(m)) => Err(ParseReplyError::ParseFailure(m)),
        Err(cw_utils::ParseReplyError::BrokenUtf8(e)) => Err(ParseReplyError::BrokenUtf8(e)),
    }
}

/// What the reply to a request that creates a contract tells: the host's
/// reason where the request failed, an error where the reply has no data or
/// the data does not decode, else the decoded data.
pub open spec fn reply_instantiate_data(reply: ReplyView) -> Result<
    MsgInstantiateContractResponseView,
    ParseReplyErrorView,
> {
    match reply.result {
        Err(reason) => Err(ParseReplyErrorView::SubMsgFailure(reason)),
        Ok(response) => match response.data {
            None => Err(ParseReplyErrorView::ParseFailure("Missing reply data"@)),
            Some(data) => instantiate_response_data(data),
        },
    }
}

/// Reads the reply to a request that creates a contract.
pub fn parse_reply_instantiate_data(reply: &Reply) -> (r: Result<
    MsgInstantiateContractResponse,
    ParseReplyError,
>)
    ensures
        decoded_view(r) == reply_instantiate_data(reply@),
{
    match &reply.result {
        Err(reason) => Err(ParseReplyError::SubMsgFailure(reason.clone())),
        Ok(response) => match &response.data {
            None => Err(ParseReplyError::ParseFailure("Missing reply data".to_owned())),
            Some(data) => parse_instantiate_response_data(data),
        },
    }
}

/// What a reply holds where the request succeeded; where it failed, the
/// error that carries the host's reason word for word.
pub fn unwrap_reply(reply: &Reply) -> (r: Result<&SubMsgResponse, StdError>)
    ensures
        match reply.result {
            Ok(response) => r == Ok::<&SubMsgResponse, StdError>(&response),
            Err(reason) => r is Err && r->Err_0@ == (StdErrorView::GenericErr { msg: reason@ }),
        },
{
    match &reply.result {
        Ok(response) => Ok(response),
        Err(reason) => Err(StdError::GenericErr { msg: reason.clone() }),
    }
}

/// The first event of type `ty` among `events`.
pub open spec fn first_event(events: Seq<EventView>, ty: Seq<char>) -> Option<EventView>
    decreases events.len(),
{
    if events.len() == 0 {
        None
    } else if events[0].ty == ty {
        Some(events[0])
    } else {
        first_event(events.drop_first(), ty)
    }
}

/// The value of the first attribute under `key` among `attributes`.
pub open spec fn first_value(attributes: Seq<AttributeView>, key: Seq<char>) -> Option<Seq<char>>
    decreases attributes.len(),
{
    if attributes.len() == 0 {
        None
    } else if attributes[0].key == key {
        Some(attributes[0].value)
    } else {
        first_value(attributes.drop_first(), key)
    }
}

/// Finds the first event of type `ty`.
pub fn find_event<'a>(events: &'a Vec<Event>, ty: &str) -> (r: Option<&'a Event>)
    ensures
        match first_event(events.deep_view(), ty@) {
            Some(e) => r is Some && r->Some_0@ == e,
            None => r is None,
        },
{
    let ghost all = events.deep_view();
    let mut i: usize = 0;
    assert(all.skip(0) =~= all);
    while i < events.len()
        invariant
            i <= events.len(),
            all == events.deep_view(),
            first_event(all, ty@) == first_event(all.skip(i as int), ty@),
        decreases events.len() - i,
    {
        let event = &events[i];
        proof {
            assert(all.skip(i as int)[0] == event@);
            assert(all.skip(i as int).drop_first() =~= all.skip(i + 1));
        }
        if same_text(event.ty.as_str(), ty) {
            return Some(event);
        }
        i = i + 1;
    }
    None
}

/// Finds the value of the first attribute under `key`.
pub fn find_value<'a>(attributes: &'a Vec<Attribute>, key: &str) -> (r: Option<&'a String>)
    ensures
        match first_value(attributes.deep_view(), key@) {
            Some(v) => r is Some && r->Some_0@ == v,
            None => r is None,
        },
{
    let ghost all = attributes.deep_view();
    let mut i: usize = 0;
    assert(all.skip(0) =~= all);
    while i < attributes.len()
        invariant
            i <= attributes.len(),
            all == attributes.deep_view(),
            first_value(all, key@) == first_value(all.skip(i as int), key@),
        decreases attributes.len() - i,
    {
        let attribute = &attributes[i];
        proof {
            assert(all.skip(i as int)[0] == attribute@);
            assert(all.skip(i as int).drop_first() =~= all.skip(i + 1));
        }
        if same_text(attribute.key.as_str(), key) {
            return Some(&attribute.value);
        }
        i = i + 1;
    }
    None
}

/// The name of the denom that a reply's events report as created: the value
/// of `new_token_denom` in the first `create_denom` event. Where the event or
/// the attribute is missing, the error says which.
pub open spec fn created_denom(events: Seq<EventView>) -> Result<Seq<char>, StdErrorView> {
    match first_event(events, "create_denom"@) {
        None => Err(StdErrorView::GenericErr { msg: "cannot find `create_denom` event"@ }),
        Some(event) => match first_value(event.attributes, "new_token_denom"@) {
            None => Err(
                StdErrorView::GenericErr { msg: "cannot find `new_token_denom` attribute"@ },
            ),
            Some(denom) => Ok(denom),
        },
    }
}

/// Reads the name of the new denom out of the events of a reply.
pub fn parse_created_denom<'a>(response: &'a SubMsgResponse) -> (r: Result<&'a String, StdError>)
    ensures
        match created_denom(response@.events) {
            Ok(denom) => r is Ok && r->Ok_0@ == denom,
            Err(e) => r is Err && r->Err_0@ == e,
        },
{
    match find_event(&response.events, "create_denom") {
        None => Err(
            StdError::GenericErr { msg: "cannot find `create_denom` event".to_owned() },
        ),
        Some(event) => match find_value(&event.attributes, "new_token_denom") {
            None => Err(
                StdError::GenericErr {
                    msg: "cannot find `new_token_denom` attribute".to_owned(),
                },
            ),
            Some(denom) => Ok(denom),
        },
    }
}

} // verus!
