use vstd::prelude::*;

verus! {

/// An amount of one denomination of funds.
#[derive(Clone, Debug, PartialEq, Eq)]
pub struct Coin {
    pub denom: String,
    pub amount: u128,
}

/// A key-value pair attached to a response or an event.
#[derive(Clone, Debug, PartialEq, Eq)]
pub struct Attribute {
    pub key: String,
    pub value: String,
}

/// A named event with its attributes.
#[derive(Clone, Debug, PartialEq, Eq)]
pub struct Event {
    pub ty: String,
    pub attributes: Vec<Attribute>,
}

/// The kind of action for which a reward is claimed.
#[derive(Clone, Copy, Debug, PartialEq, Eq, Structural)]
pub enum ClaimAction {
    MintNFT,
    BidNFT,
}

/// Outbound instruction: credit `recipient` for `action`.
#[derive(Clone, Debug, PartialEq, Eq)]
pub struct ClaimFor {
    pub recipient: String,
    pub action: ClaimAction,
}

/// What a successful operation hands back: outbound instructions,
/// attributes and events.
#[derive(Clone, Debug, PartialEq, Eq)]
pub struct Response {
    pub messages: Vec<ClaimFor>,
    pub attributes: Vec<Attribute>,
    pub events: Vec<Event>,
}

/// An attribute as a pair of character sequences.
pub open spec fn attr_view(a: Attribute) -> (Seq<char>, Seq<char>) {
    (a.key@, a.value@)
}

/// A list of attributes as pairs of character sequences.
pub open spec fn attrs_view(v: Seq<Attribute>) -> Seq<(Seq<char>, Seq<char>)> {
    v.map_values(|a: Attribute| attr_view(a))
}

/// An outbound instruction as its recipient and action.
pub open spec fn claim_view(m: ClaimFor) -> (Seq<char>, ClaimAction) {
    (m.recipient@, m.action)
}

/// The outbound instructions of a response as recipients and actions.
pub open spec fn claims_view(v: Seq<ClaimFor>) -> Seq<(Seq<char>, ClaimAction)> {
    v.map_values(|m: ClaimFor| claim_view(m))
}

/// Builds an attribute from a key and a value.
pub fn attribute(key: &str, value: String) -> (r: Attribute)
    ensures
        r.key@ == key@,
        r.value == value,
{
    Attribute { key: String::from_str(key), value }
}

impl Event {
    /// An event of type `ty` with no attributes.
    pub fn new(ty: &str) -> (r: Event)
        ensures
            r.ty@ == ty@,
            r.attributes@.len() == 0,
    {
        Event { ty: String::from_str(ty), attributes: Vec::new() }
    }

    /// Appends an attribute.
    pub fn add_attribute(self, key: &str, value: String) -> (r: Event)
        ensures
            r.ty == self.ty,
            attrs_view(r.attributes@) == attrs_view(self.attributes@).push((key@, value@)),
    {
        let mut e = self;
        let a = attribute(key, value);
        e.attributes.push(a);
        assert(attrs_view(e.attributes@) =~= attrs_view(self.attributes@).push((key@, value@)));
        e
    }
}

impl Response {
    /// A response with no messages, attributes or events.
    pub fn new() -> (r: Response)
        ensures
            r.messages@.len() == 0,
            r.attributes@.len() == 0,
            r.events@.len() == 0,
    {
        Response { messages: Vec::new(), attributes: Vec::new(), events: Vec::new() }
    }

    /// Appends an outbound instruction.
    pub fn add_message(self, m: ClaimFor) -> (r: Response)
        ensures
            r.messages@ == self.messages@.push(m),
            r.attributes == self.attributes,
            r.events == self.events,
    {
        let mut res = self;
        res.messages.push(m);
        res
    }

    /// Appends an attribute.
    pub fn add_attribute(self, key: &str, value: String) -> (r: Response)
        ensures
            r.messages == self.messages,
            attrs_view(r.attributes@) == attrs_view(self.attributes@).push((key@, value@)),
            r.events == self.events,
    {
        let mut res = self;
        let a = attribute(key, value);
        res.attributes.push(a);
        assert(attrs_view(res.attributes@) =~= attrs_view(self.attributes@).push((key@, value@)));
        res
    }

    /// Appends an event.
    pub fn add_event(self, e: Event) -> (r: Response)
        ensures
            r.messages == self.messages,
            r.attributes == self.attributes,
            r.events@ == self.events@.push(e),
    {
        let mut res = self;
        res.events.push(e);
        res
    }
}

} // verus!
