//! What an operation hands back: the payments to be made on its behalf, and a
//! log of attributes and events.  The ledger moves no value itself; it only
//! says which movements it wants.

use vstd::prelude::*;
use crate::coin::{Coin, CoinView};

verus! {

/// A key and a value of the log.
#[derive(Debug, PartialEq, Eq)]
pub struct Attribute {
    pub key: String,
    pub value: String,
}

/// What an [`Attribute`] stands for.
pub struct AttributeView {
    pub key: Seq<char>,
    pub value: Seq<char>,
}

impl View for Attribute {
    type V = AttributeView;

    open spec fn view(&self) -> AttributeView {
        AttributeView { key: self.key@, value: self.value@ }
    }
}

/// What a sequence of attributes stands for.
pub open spec fn attributes_view(attributes: Seq<Attribute>) -> Seq<AttributeView> {
    attributes.map_values(|a: Attribute| a@)
}

/// The attribute with the given key and value.
pub open spec fn attribute(key: Seq<char>, value: Seq<char>) -> AttributeView {
    AttributeView { key, value }
}

impl Attribute {
    /// The attribute with the given key and value.
    pub fn new(key: &str, value: &str) -> (made: Self)
        ensures
            made@ == attribute(key@, value@),
    {
        Attribute { key: key.to_owned(), value: value.to_owned() }
    }
}

/// A notification for observers outside the ledger.
#[derive(Debug, PartialEq, Eq)]
pub struct Event {
    /// The kind of the event.
    pub ty: String,
    pub attributes: Vec<Attribute>,
}

/// What an [`Event`] stands for.
pub struct EventView {
    pub ty: Seq<char>,
    pub attributes: Seq<AttributeView>,
}

impl View for Event {
    type V = EventView;

    open spec fn view(&self) -> EventView {
        EventView { ty: self.ty@, attributes: attributes_view(self.attributes@) }
    }
}

impl Event {
    /// The event of kind `ty`, without attributes.
    pub fn new(ty: &str) -> (event: Self)
        ensures
            event@ == (EventView { ty: ty@, attributes: Seq::<AttributeView>::empty() }),
    {
        let event = Event { ty: ty.to_owned(), attributes: Vec::new() };
        assert(event@.attributes =~= Seq::<AttributeView>::empty());
        event
    }

    /// The event with one more attribute at the end.
    pub fn add_attribute(self, key: &str, value: &str) -> (event: Self)
        ensures
            event@ == (EventView {
                ty: self@.ty,
                attributes: self@.attributes.push(attribute(key@, value@)),
            }),
    {
        let mut event = self;
        event.attributes.push(Attribute::new(key, value));
        assert(event@.attributes =~= self@.attributes.push(attribute(key@, value@)));
        event
    }
}

/// A payment that the ledger wants made: `amount` to the account `to_address`.
#[derive(Debug, PartialEq, Eq)]
pub struct Payout {
    pub to_address: String,
    pub amount: Coin,
}

/// What a [`Payout`] stands for.
pub struct PayoutView {
    pub to_address: Seq<char>,
    pub amount: CoinView,
}

impl View for Payout {
    type V = PayoutView;

    open spec fn view(&self) -> PayoutView {
        PayoutView { to_address: self.to_address@, amount: self.amount@ }
    }
}

/// What a sequence of payouts stands for.
pub open spec fn payouts_view(payouts: Seq<Payout>) -> Seq<PayoutView> {
    payouts.map_values(|p: Payout| p@)
}

/// What a sequence of events stands for.
pub open spec fn events_view(events: Seq<Event>) -> Seq<EventView> {
    events.map_values(|e: Event| e@)
}

/// The payment of `amount` units of `denom` to `to_address`.
pub open spec fn payout(to_address: Seq<char>, denom: Seq<char>, amount: nat) -> PayoutView {
    PayoutView { to_address, amount: CoinView { denom, amount } }
}

/// The result of an operation that succeeded.
#[derive(Debug, PartialEq, Eq)]
pub struct Response {
    /// The payments to be made, in order.
    pub messages: Vec<Payout>,
    /// The log of the operation; its first attribute names the action.
    pub attributes: Vec<Attribute>,
    /// Notifications for observers outside the ledger.
    pub events: Vec<Event>,
}

/// What a [`Response`] stands for.
pub struct ResponseView {
    pub messages: Seq<PayoutView>,
    pub attributes: Seq<AttributeView>,
    pub events: Seq<EventView>,
}

impl View for Response {
    type V = ResponseView;

    open spec fn view(&self) -> ResponseView {
        ResponseView {
            messages: payouts_view(self.messages@),
            attributes: attributes_view(self.attributes@),
            events: events_view(self.events@),
        }
    }
}

impl Response {
    /// The response that asks for nothing and logs nothing.
    pub fn new() -> (response: Self)
        ensures
            response@ == (ResponseView {
                messages: Seq::<PayoutView>::empty(),
                attributes: Seq::<AttributeView>::empty(),
                events: Seq::<EventView>::empty(),
            }),
    {
        let response = Response {
            messages: Vec::new(),
            attributes: Vec::new(),
            events: Vec::new(),
        };
        assert(response@.messages =~= Seq::<PayoutView>::empty());
        assert(response@.attributes =~= Seq::<AttributeView>::empty());
        assert(response@.events =~= Seq::<EventView>::empty());
        response
    }

    /// The response with one more attribute at the end of its log.
    pub fn add_attribute(self, key: &str, value: &str) -> (response: Self)
        ensures
            response@ == (ResponseView {
                messages: self@.messages,
                attributes: self@.attributes.push(attribute(key@, value@)),
                events: self@.events,
            }),
    {
        let mut response = self;
        response.attributes.push(Attribute::new(key, value));
        assert(response@.attributes =~= self@.attributes.push(attribute(key@, value@)));
        response
    }

    /// The response with one more payment at the end of its list.
    pub fn add_message(self, message: Payout) -> (response: Self)
        ensures
            response@ == (ResponseView {
                messages: self@.messages.push(message@),
                attributes: self@.attributes,
                events: self@.events,
            }),
    {
        let mut response = self;
        response.messages.push(message);
        assert(response@.messages =~= self@.messages.push(message@));
        response
    }

    /// The response with the given payments, in their order, at the end of
    /// its list.
    pub fn add_messages(self, messages: Vec<Payout>) -> (response: Self)
        ensures
            response@ == (ResponseView {
                messages: self@.messages + payouts_view(messages@),
                attributes: self@.attributes,
                events: self@.events,
            }),
    {
        let mut response = self;
        let mut rest = messages;
        response.messages.append(&mut rest);
        assert(response@.messages =~= self@.messages + payouts_view(messages@));
        response
    }

    /// The response with one more event at the end of its list.
    pub fn add_event(self, event: Event) -> (response: Self)
        ensures
            response@ == (ResponseView {
                messages: self@.messages,
                attributes: self@.attributes,
                events: self@.events.push(event@),
            }),
    {
        let mut response = self;
        response.events.push(event);
        assert(response@.events =~= self@.events.push(event@));
        response
    }
}

} // verus!
