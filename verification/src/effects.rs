//! The effects of an operation: the messages that the host is to dispatch
//! and the events that it is to record. An operation describes them; it
//! carries none of them out.

use crate::host::{attr_view, Attribute, AttributeView, Coin, CoinView, Event, EventView};
use vstd::prelude::*;

verus! {

/// A message to the host's bank.
#[derive(Debug, PartialEq, Eq, Clone)]
pub enum BankMsg {
    /// Moves coins from the contract to `to_address`.
    Send { to_address: String, amount: Vec<Coin> },
}

/// A message to another contract.
#[derive(Debug, PartialEq, Eq, Clone)]
pub enum WasmMsg {
    /// Calls the contract at `contract_addr` with the payload `msg`.
    Execute { contract_addr: String, msg: Vec<u8>, funds: Vec<Coin> },
    /// Creates a contract from the code `code_id`.
    Instantiate {
        admin: Option<String>,
        code_id: u64,
        msg: Vec<u8>,
        funds: Vec<Coin>,
        label: String,
    },
}

/// A message that the host is to dispatch.
#[derive(Debug, PartialEq, Eq, Clone)]
pub enum CosmosMsg {
    Bank(BankMsg),
    Wasm(WasmMsg),
    /// A message to a module of the host, in that module's own encoding.
    Stargate { type_url: String, value: Vec<u8> },
}

/// [`CosmosMsg`] as a value: its texts as sequences of characters, its lists as
/// sequences.
pub enum CosmosMsgView {
    BankSend { to_address: Seq<char>, amount: Seq<CoinView> },
    WasmExecute { contract_addr: Seq<char>, msg: Seq<u8>, funds: Seq<CoinView> },
    WasmInstantiate {
        admin: Option<Seq<char>>,
        code_id: u64,
        msg: Seq<u8>,
        funds: Seq<CoinView>,
        label: Seq<char>,
    },
    Stargate { type_url: Seq<char>, value: Seq<u8> },
}

impl View for CosmosMsg {
    type V = CosmosMsgView;

    open spec fn view(&self) -> CosmosMsgView {
        match self {
            CosmosMsg::Bank(BankMsg::Send { to_address, amount }) => CosmosMsgView::BankSend {
                to_address: to_address@,
                amount: amount.deep_view(),
            },
            CosmosMsg::Wasm(
                WasmMsg::Execute { contract_addr, msg, funds },
            ) => CosmosMsgView::WasmExecute {
                contract_addr: contract_addr@,
                msg: msg@,
                funds: funds.deep_view(),
            },
            CosmosMsg::Wasm(
                WasmMsg::Instantiate { admin, code_id, msg, funds, label },
            ) => CosmosMsgView::WasmInstantiate {
                admin: admin.deep_view(),
                code_id: *code_id,
                msg: msg@,
                funds: funds.deep_view(),
                label: label@,
            },
            CosmosMsg::Stargate { type_url, value } => CosmosMsgView::Stargate {
                type_url: type_url@,
                value: value@,
            },
        }
    }
}

impl DeepView for CosmosMsg {
    type V = CosmosMsgView;

    open spec fn deep_view(&self) -> CosmosMsgView {
        self@
    }
}

/// When the host is to answer a sub-request.
#[derive(Debug, PartialEq, Eq, Clone, Copy, Structural)]
pub enum ReplyOn {
    /// Whether the sub-request succeeds or fails.
    Always,
    Error,
    Success,
    /// Not at all.
    Never,
}

/// A message together with the answer that is asked of the host.
#[derive(Debug, PartialEq, Eq, Clone)]
pub struct SubMsg {
    /// The id under which the host's reply will come.
    pub id: u64,
    pub msg: CosmosMsg,
    pub gas_limit: Option<u64>,
    pub reply_on: ReplyOn,
}

/// [`SubMsg`] as a value: its texts as sequences of characters, its lists as
/// sequences.
pub struct SubMsgView {
    pub id: u64,
    pub msg: CosmosMsgView,
    pub gas_limit: Option<u64>,
    pub reply_on: ReplyOn,
}

impl View for SubMsg {
    type V = SubMsgView;

    open spec fn view(&self) -> SubMsgView {
        SubMsgView {
            id: self.id,
            msg: self.msg@,
            gas_limit: self.gas_limit,
            reply_on: self.reply_on,
        }
    }
}

impl DeepView for SubMsg {
    type V = SubMsgView;

    open spec fn deep_view(&self) -> SubMsgView {
        self@
    }
}

/// The id of a message that asks for no reply.
pub const UNUSED_MSG_ID: u64 = 0;

/// `msg`, sent without asking for a reply.
pub open spec fn plain_msg(msg: CosmosMsgView) -> SubMsgView {
    SubMsgView { id: UNUSED_MSG_ID, msg, gas_limit: None, reply_on: ReplyOn::Never }
}

/// `msg`, sent as a sub-request that the host answers under `id` whether it
/// succeeds or fails.
pub open spec fn request_msg(msg: CosmosMsgView, id: u64) -> SubMsgView {
    SubMsgView { id, msg, gas_limit: None, reply_on: ReplyOn::Always }
}

impl SubMsg {
    /// A message that asks for no reply.
    pub fn new(msg: CosmosMsg) -> (m: SubMsg)
        ensures
            m@ == plain_msg(msg@),
    {
        SubMsg { id: UNUSED_MSG_ID, msg, gas_limit: None, reply_on: ReplyOn::Never }
    }

    /// A sub-request that the host answers under `id` whether it succeeds or
    /// fails.
    pub fn reply_always(msg: CosmosMsg, id: u64) -> (m: SubMsg)
        ensures
            m@ == request_msg(msg@, id),
    {
        SubMsg { id, msg, gas_limit: None, reply_on: ReplyOn::Always }
    }
}

/// The effects of one operation, each list in the order in which the
/// operation produced it.
#[derive(Debug, PartialEq, Eq, Clone)]
pub struct Response {
    pub messages: Vec<SubMsg>,
    pub attributes: Vec<Attribute>,
    pub events: Vec<Event>,
}

/// [`Response`] as a value: its texts as sequences of characters, its lists as
/// sequences.
pub struct ResponseView {
    pub messages: Seq<SubMsgView>,
    pub attributes: Seq<AttributeView>,
    pub events: Seq<EventView>,
}

impl View for Response {
    type V = ResponseView;

    open spec fn view(&self) -> ResponseView {
        ResponseView {
            messages: self.messages.deep_view(),
            attributes: self.attributes.deep_view(),
            events: self.events.deep_view(),
        }
    }
}

impl Response {
    /// No effects.
    pub fn new() -> (r: Response)
        ensures
            r@ == (ResponseView {
                messages: Seq::empty(),
                attributes: Seq::empty(),
                events: Seq::empty(),
            }),
    {
        let r = Response { messages: Vec::new(), attributes: Vec::new(), events: Vec::new() };
        assert(r.messages.deep_view() =~= Seq::empty());
        assert(r.attributes.deep_view() =~= Seq::empty());
        assert(r.events.deep_view() =~= Seq::empty());
        r
    }

    /// Adds a message that asks for no reply.
    pub fn add_message(self, msg: CosmosMsg) -> (r: Response)
        ensures
            r@ == (ResponseView { messages: self@.messages.push(plain_msg(msg@)), ..self@ }),
    {
        self.add_submessage(SubMsg::new(msg))
    }

    /// Adds a message with the reply that it asks for.
    pub fn add_submessage(self, msg: SubMsg) -> (r: Response)
        ensures
            r@ == (ResponseView { messages: self@.messages.push(msg@), ..self@ }),
    {
        let mut r = self;
        let ghost m = msg@;
        r.messages.push(msg);
        assert(r.messages.deep_view() =~= self@.messages.push(m));
        r
    }

    pub fn add_event(self, event: Event) -> (r: Response)
        ensures
            r@ == (ResponseView { events: self@.events.push(event@), ..self@ }),
    {
        let mut r = self;
        let ghost e = event@;
        r.events.push(event);
        assert(r.events.deep_view() =~= self@.events.push(e));
        r
    }

    pub fn add_attribute(self, key: &str, value: &str) -> (r: Response)
        ensures
            r@ == (ResponseView {
                attributes: self@.attributes.push(attr_view(key@, value@)),
                ..self@
            }),
    {
        let mut r = self;
        r.attributes.push(crate::host::attr(key, value));
        assert(r.attributes.deep_view() =~= self@.attributes.push(attr_view(key@, value@)));
        r
    }
}

} // verus!
