//! What the host chain hands to one invocation of the contract, as plain
//! values: addresses, coins, the environment, the message's sender and funds,
//! and the reply to a sub-request.

use vstd::prelude::*;

verus! {

/// An address that the host has accepted as well formed.
#[derive(Debug, PartialEq, Eq, Clone)]
pub struct Addr(pub String);

impl View for Addr {
    type V = Seq<char>;

    open spec fn view(&self) -> Seq<char> {
        self.0@
    }
}

impl DeepView for Addr {
    type V = Seq<char>;

    open spec fn deep_view(&self) -> Seq<char> {
        self@
    }
}

impl Addr {
    /// Takes `input` for an address without asking the host.
    pub fn unchecked(input: &str) -> (a: Addr)
        ensures
            a@ == input@,
    {
        Addr(input.to_owned())
    }

    pub fn as_str(&self) -> (s: &str)
        ensures
            s@ == self@,
    {
        self.0.as_str()
    }

    pub fn to_string(&self) -> (s: String)
        ensures
            s@ == self@,
    {
        self.0.clone()
    }

    /// Whether two addresses are the same text.
    pub fn same_as(&self, other: &Addr) -> (r: bool)
        ensures
            r == (self@ == other@),
    {
        self.0 == other.0
    }
}

/// An amount of one native denom.
#[derive(Debug, PartialEq, Eq, Clone)]
pub struct Coin {
    pub denom: String,
    pub amount: u128,
}

/// [`Coin`] as a value: its texts as sequences of characters, its lists as
/// sequences.
pub struct CoinView {
    pub denom: Seq<char>,
    pub amount: u128,
}

impl View for Coin {
    type V = CoinView;

    open spec fn view(&self) -> CoinView {
        CoinView { denom: self.denom@, amount: self.amount }
    }
}

impl DeepView for Coin {
    type V = CoinView;

    open spec fn deep_view(&self) -> CoinView {
        self@
    }
}

/// A coin as the host writes it: the amount, then the denom.
pub open spec fn coin_text(c: CoinView) -> Seq<char> {
    crate::text::decimal(c.amount as nat) + c.denom
}

impl Coin {
    pub fn new(amount: u128, denom: &str) -> (c: Coin)
        ensures
            c@ == (CoinView { denom: denom@, amount }),
    {
        Coin { denom: denom.to_owned(), amount }
    }

    /// Whether two coins are the same amount of the same denom.
    pub fn same_as(&self, other: &Coin) -> (r: bool)
        ensures
            r == (self@ == other@),
    {
        self.amount == other.amount && self.denom == other.denom
    }

    /// The coin as the host writes it.
    pub fn to_string(&self) -> (s: String)
        ensures
            s@ == coin_text(self@),
    {
        crate::text::decimal_string(self.amount).concat(self.denom.as_str())
    }
}

/// Whether `coins` holds, at some place, exactly the coin `c`.
pub open spec fn holds_coin(coins: Seq<CoinView>, c: CoinView) -> bool {
    exists|i: int| 0 <= i < coins.len() && coins[i] == c
}

/// Whether `coins` holds exactly the coin `wanted`.
pub fn has_coin(coins: &Vec<Coin>, wanted: &Coin) -> (r: bool)
    ensures
        r == holds_coin(coins.deep_view(), wanted@),
{
    let mut i: usize = 0;
    while i < coins.len()
        invariant
            i <= coins.len(),
            forall|j: int| 0 <= j < i ==> coins.deep_view()[j] != wanted@,
        decreases coins.len() - i,
    {
        if coins[i].same_as(wanted) {
            assert(coins.deep_view()[i as int] == wanted@);
            return true;
        }
        i = i + 1;
    }
    false
}

/// The contract that is running.
#[derive(Debug, PartialEq, Eq, Clone)]
pub struct ContractInfo {
    pub address: Addr,
}

/// Where the invocation runs.
#[derive(Debug, PartialEq, Eq, Clone)]
pub struct Env {
    pub contract: ContractInfo,
}

/// Who sent the message, and the coins that came with it.
#[derive(Debug, PartialEq, Eq, Clone)]
pub struct MessageInfo {
    pub sender: Addr,
    pub funds: Vec<Coin>,
}

/// One key and its value in an event.
#[derive(Debug, PartialEq, Eq, Clone)]
pub struct Attribute {
    pub key: String,
    pub value: String,
}

/// [`Attribute`] as a value: its texts as sequences of characters, its lists as
/// sequences.
pub struct AttributeView {
    pub key: Seq<char>,
    pub value: Seq<char>,
}

impl View for Attribute {
    type V = AttributeView;

    open spec fn view(&self) -> AttributeView {
        AttributeView { key: self.key@, value: self.value@ }
    }
}

impl DeepView for Attribute {
    type V = AttributeView;

    open spec fn deep_view(&self) -> AttributeView {
        self@
    }
}

/// The attribute `key = value`.
pub open spec fn attr_view(key: Seq<char>, value: Seq<char>) -> AttributeView {
    AttributeView { key, value }
}

/// The attribute `key = value`.
pub fn attr(key: &str, value: &str) -> (a: Attribute)
    ensures
        a@ == attr_view(key@, value@),
{
    Attribute { key: key.to_owned(), value: value.to_owned() }
}

/// A record of something that happened: a type and its attributes, in order.
#[derive(Debug, PartialEq, Eq, Clone)]
pub struct Event {
    pub ty: String,
    pub attributes: Vec<Attribute>,
}

/// [`Event`] as a value: its texts as sequences of characters, its lists as
/// sequences.
pub struct EventView {
    pub ty: Seq<char>,
    pub attributes: Seq<AttributeView>,
}

impl View for Event {
    type V = EventView;

    open spec fn view(&self) -> EventView {
        EventView { ty: self.ty@, attributes: self.attributes.deep_view() }
    }
}

impl DeepView for Event {
    type V = EventView;

    open spec fn deep_view(&self) -> EventView {
        self@
    }
}

impl Event {
    pub fn new(ty: &str) -> (e: Event)
        ensures
            e@ == (EventView { ty: ty@, attributes: Seq::empty() }),
    {
        let e = Event { ty: ty.to_owned(), attributes: Vec::new() };
        assert(e.attributes.deep_view() =~= Seq::empty());
        e
    }

    pub fn add_attribute(self, key: &str, value: &str) -> (e: Event)
        ensures
            e@ == (EventView {
                ty: self@.ty,
                attributes: self@.attributes.push(attr_view(key@, value@)),
            }),
    {
        let mut e = self;
        e.attributes.push(attr(key, value));
        assert(e.attributes.deep_view() =~= self@.attributes.push(attr_view(key@, value@)));
        e
    }
}

/// What came of a sub-request that succeeded.
#[derive(Debug, PartialEq, Eq, Clone)]
pub struct SubMsgResponse {
    pub events: Vec<Event>,
    pub data: Option<Vec<u8>>,
}

/// [`SubMsgResponse`] as a value: its texts as sequences of characters, its lists as
/// sequences.
pub struct SubMsgResponseView {
    pub events: Seq<EventView>,
    pub data: Option<Seq<u8>>,
}

impl View for SubMsgResponse {
    type V = SubMsgResponseView;

    open spec fn view(&self) -> SubMsgResponseView {
        SubMsgResponseView {
            events: self.events.deep_view(),
            data: match self.data {
                Some(d) => Some(d@),
                None => None,
            },
        }
    }
}

/// The host's answer to a sub-request, under the id that the request bore.
#[derive(Debug, PartialEq, Eq)]
pub struct Reply {
    pub id: u64,
    /// What came of the sub-request: its events and data, or the host's reason
    /// for its failure.
    pub result: Result<SubMsgResponse, String>,
}

/// [`Reply`] as a value: its texts as sequences of characters, its lists as
/// sequences.
pub struct ReplyView {
    pub id: u64,
    pub result: Result<SubMsgResponseView, Seq<char>>,
}

impl View for Reply {
    type V = ReplyView;

    open spec fn view(&self) -> ReplyView {
        ReplyView {
            id: self.id,
            result: match self.result {
                Ok(response) => Ok(response@),
                Err(reason) => Err(reason@),
            },
        }
    }
}

} // verus!
