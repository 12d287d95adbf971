use vstd::prelude::*;

verus! {

/// A key and a value attached to an [`Event`].
#[derive(Debug, Clone, PartialEq, Eq)]
pub struct Attribute {
    pub key: String,
    pub value: String,
}

/// Mathematical value of an [`Attribute`].
pub struct AttributeView {
    pub key: Seq<char>,
    pub value: Seq<char>,
}

impl View for Attribute {
    type V = AttributeView;

    open spec fn view(&self) -> AttributeView {
        AttributeView { key: self.key@, value: self.value@ }
    }
}

/// A structured record of something that an operation did: a type and an
/// ordered list of attributes.
#[derive(Debug, Clone, PartialEq, Eq)]
pub struct Event {
    pub ty: String,
    pub attributes: Vec<Attribute>,
}

/// Mathematical value of an [`Event`].
pub struct EventView {
    pub ty: Seq<char>,
    pub attributes: Seq<AttributeView>,
}

impl View for Event {
    type V = EventView;

    open spec fn view(&self) -> EventView {
        EventView { ty: self.ty@, attributes: self.attributes@.map_values(|a: Attribute| a@) }
    }
}

impl Event {
    /// An event of the given type without attributes.
    pub fn new(ty: &str) -> (event: Event)
        ensures
            event@ == (EventView { ty: ty@, attributes: Seq::empty() }),
    {
        let event = Event { ty: String::from_str(ty), attributes: Vec::new() };
        assert(event@.attributes =~= Seq::empty());
        event
    }

    /// The same event with one more attribute at the end.
    pub fn add_attribute(self, key: &str, value: &str) -> (event: Event)
        ensures
            event@ == (EventView {
                ty: self@.ty,
                attributes: self@.attributes.push(AttributeView { key: key@, value: value@ }),
            }),
    {
        let mut event = self;
        event.attributes.push(Attribute { key: String::from_str(key), value: String::from_str(value) });
        assert(event@.attributes =~= self@.attributes.push(
            AttributeView { key: key@, value: value@ },
        ));
        event
    }
}

/// What a successful operation hands back: the events to record, in order.
#[derive(Debug, Clone, PartialEq, Eq)]
pub struct Response {
    pub events: Vec<Event>,
}

/// Mathematical value of a [`Response`].
pub struct ResponseView {
    pub events: Seq<EventView>,
}

impl ResponseView {
    /// The response that carries nothing.
    pub open spec fn empty() -> ResponseView {
        ResponseView { events: Seq::empty() }
    }
}

impl View for Response {
    type V = ResponseView;

    open spec fn view(&self) -> ResponseView {
        ResponseView { events: self.events@.map_values(|e: Event| e@) }
    }
}

impl Default for Response {
    /// The response that carries nothing.
    fn default() -> (response: Response)
        ensures
            response@ == ResponseView::empty(),
    {
        let response = Response { events: Vec::new() };
        assert(response@.events =~= Seq::empty());
        response
    }
}

impl Response {
    /// The same response with one more event at the end.
    pub fn add_event(self, event: Event) -> (response: Response)
        ensures
            response@ == (ResponseView { events: self@.events.push(event@) }),
    {
        let mut response = self;
        response.events.push(event);
        assert(response@.events =~= self@.events.push(event@));
        response
    }
}

} // verus!
