//! Structural XML events as the accumulator consumes them, and attribute lookup.
use vstd::prelude::*;

verus! {

/// One attribute of an opening tag: its key and raw value, decoded as text
/// (entity references in the value are kept as written).
#[derive(Clone, Debug, PartialEq, Eq)]
pub struct Attribute {
    pub key: String,
    pub value: String,
}

/// One structural event of a document, in document order.
#[derive(Clone, Debug, PartialEq, Eq)]
pub enum XmlEvent {
    /// An element opened, with its attributes in the order they were written.
    Opened { name: String, attributes: Vec<Attribute> },
    /// An element closed.
    Closed { name: String },
    /// Trimmed, unescaped text content.
    Text { content: String },
    /// The document ended.
    EndOfDocument,
}

/// Mathematical view of an event; attributes become (key, value) pairs.
pub enum EventV {
    Opened { name: Seq<char>, attributes: Seq<(Seq<char>, Seq<char>)> },
    Closed { name: Seq<char> },
    Text { content: Seq<char> },
    EndOfDocument,
}

pub open spec fn attributes_view(attrs: Seq<Attribute>) -> Seq<(Seq<char>, Seq<char>)> {
    attrs.map_values(|a: Attribute| (a.key@, a.value@))
}

impl View for XmlEvent {
    type V = EventV;

    open spec fn view(&self) -> EventV {
        match self {
            XmlEvent::Opened { name, attributes } => EventV::Opened {
                name: name@,
                attributes: attributes_view(attributes@),
            },
            XmlEvent::Closed { name } => EventV::Closed { name: name@ },
            XmlEvent::Text { content } => EventV::Text { content: content@ },
            XmlEvent::EndOfDocument => EventV::EndOfDocument,
        }
    }
}

pub open spec fn events_view(events: Seq<XmlEvent>) -> Seq<EventV> {
    events.map_values(|e: XmlEvent| e@)
}

pub open spec fn text_option(o: Option<String>) -> Option<Seq<char>> {
    match o {
        Some(s) => Some(s@),
        None => None,
    }
}

/// The value of the first attribute named `key`, if any.
pub open spec fn find_attr(attrs: Seq<(Seq<char>, Seq<char>)>, key: Seq<char>) -> Option<Seq<char>>
    decreases attrs.len(),
{
    if attrs.len() == 0 {
        None
    } else if attrs[0].0 == key {
        Some(attrs[0].1)
    } else {
        find_attr(attrs.drop_first(), key)
    }
}

/// Whether `a` spells exactly the characters of `b`.
pub fn same_text(a: &String, b: &str) -> (r: bool)
    ensures
        r == (a@ == b@),
{
    let t = String::from_str(b);
    *a == t
}

/// The value of the first attribute whose key is `key`.
pub fn attribute_value(attrs: &Vec<Attribute>, key: &str) -> (r: Option<String>)
    ensures
        text_option(r) == find_attr(attributes_view(attrs@), key@),
{
    let ghost all = attributes_view(attrs@);
    let mut i: usize = 0;
    assert(all.skip(0) =~= all);
    while i < attrs.len()
        invariant
            i <= attrs.len(),
            all == attributes_view(attrs@),
            find_attr(all, key@) == find_attr(all.skip(i as int), key@),
        decreases attrs.len() - i,
    {
        assert(all.skip(i as int).drop_first() =~= all.skip(i + 1));
        if same_text(&attrs[i].key, key) {
            return Some(attrs[i].value.clone());
        }
        i += 1;
    }
    assert(all.skip(i as int).len() == 0);
    None
}

} // verus!
