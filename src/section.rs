//! The diagnostic tree: a recursive report that absorbs failures as errors.
use vstd::prelude::*;

use crate::hex_text::{encode_hex, hex_of};

verus! {

/// A named entry of a diagnostic section; its value may be recorded as absent.
#[derive(Debug)]
pub struct Attribute {
    pub topic: Option<String>,
    pub value: Option<String>,
}

/// A node of the diagnostic tree: a topic, optional identity, error and raw
/// bytes (as hexadecimal text), ordered attributes and ordered children.
#[derive(Debug)]
pub struct Section {
    pub topic: Option<String>,
    pub identity: Option<String>,
    pub error: Option<String>,
    pub attributes: Vec<Attribute>,
    pub bytes: Option<String>,
    pub children: Vec<Section>,
}

/// The text held by an optional string.
pub open spec fn text_of(o: Option<String>) -> Option<Seq<char>> {
    match o {
        Some(s) => Some(s@),
        None => None,
    }
}

/// Attribute `a` has topic `topic` and value `value`.
pub open spec fn attr_is(a: Attribute, topic: Seq<char>, value: Option<Seq<char>>) -> bool {
    text_of(a.topic) == Some(topic) && text_of(a.value) == value
}

/// The topics of a list of attributes, in order.
pub open spec fn attr_topics(s: Seq<Attribute>) -> Seq<Option<Seq<char>>> {
    s.map_values(|a: Attribute| text_of(a.topic))
}

/// The topics of a list of sections, in order.
pub open spec fn section_topics(s: Seq<Section>) -> Seq<Option<Seq<char>>> {
    s.map_values(|c: Section| text_of(c.topic))
}

/// `r` differs from `s` in its children alone: the same topic, identity,
/// error, attributes and bytes.
pub open spec fn same_head(r: Section, s: Section) -> bool {
    &&& r.topic == s.topic
    &&& r.identity == s.identity
    &&& r.error == s.error
    &&& r.attributes@ == s.attributes@
    &&& r.bytes == s.bytes
}

/// `r` differs from `s` in its attributes alone.
pub open spec fn same_but_attributes(r: Section, s: Section) -> bool {
    &&& r.topic == s.topic
    &&& r.identity == s.identity
    &&& r.error == s.error
    &&& r.bytes == s.bytes
    &&& r.children@ == s.children@
}

/// A section that holds nothing at all.
pub open spec fn is_empty_section(s: Section) -> bool {
    &&& s.topic is None
    &&& s.identity is None
    &&& s.error is None
    &&& s.attributes@.len() == 0
    &&& s.bytes is None
    &&& s.children@.len() == 0
}

/// A section that holds an error and nothing else.
pub open spec fn is_error_only(s: Section) -> bool {
    &&& s.topic is None
    &&& s.identity is None
    &&& s.error is Some
    &&& s.attributes@.len() == 0
    &&& s.bytes is None
    &&& s.children@.len() == 0
}

impl Section {
    /// A section that only reports `error`.
    pub fn from_error(error: String) -> (r: Section)
        ensures
            is_error_only(r),
            text_of(r.error) == Some(error@),
    {
        Section {
            topic: None,
            identity: None,
            error: Some(error),
            attributes: Vec::new(),
            bytes: None,
            children: Vec::new(),
        }
    }

    /// An empty section.
    pub fn new() -> (r: Section)
        ensures
            is_empty_section(r),
    {
        Section {
            topic: None,
            identity: None,
            error: None,
            attributes: Vec::new(),
            bytes: None,
            children: Vec::new(),
        }
    }

    /// Sets the topic.
    pub fn with_topic(self, topic: &str) -> (r: Section)
        ensures
            text_of(r.topic) == Some(topic@),
            r.identity == self.identity,
            r.error == self.error,
            r.attributes@ == self.attributes@,
            r.bytes == self.bytes,
            r.children@ == self.children@,
    {
        Section { topic: Some(topic.to_string()), ..self }
    }

    /// Attaches raw bytes, kept as lower-case hexadecimal text.
    pub fn with_bytes(self, bytes: &[u8]) -> (r: Section)
        ensures
            text_of(r.bytes) == Some(hex_of(bytes@)),
            r.topic == self.topic,
            r.identity == self.identity,
            r.error == self.error,
            r.attributes@ == self.attributes@,
            r.children@ == self.children@,
    {
        Section { bytes: Some(encode_hex(bytes)), ..self }
    }

    /// Appends an attribute whose value is present.
    pub fn with_attr(self, topic: &str, value: String) -> (r: Section)
        ensures
            same_but_attributes(r, self),
            r.attributes@.len() == self.attributes@.len() + 1,
            r.attributes@.take(self.attributes@.len() as int) == self.attributes@,
            attr_is(r.attributes@.last(), topic@, Some(value@)),
    {
        let mut s = self;
        s.attributes.push(Attribute { topic: Some(topic.to_string()), value: Some(value) });
        proof {
            assert(s.attributes@.take(self.attributes@.len() as int) =~= self.attributes@);
        }
        s
    }

    /// Appends an attribute whose value may be absent; an absent value is
    /// recorded as such.
    pub fn with_maybe_attr(self, topic: &str, value: Option<String>) -> (r: Section)
        ensures
            same_but_attributes(r, self),
            r.attributes@.len() == self.attributes@.len() + 1,
            r.attributes@.take(self.attributes@.len() as int) == self.attributes@,
            attr_is(r.attributes@.last(), topic@, text_of(value)),
    {
        let mut s = self;
        s.attributes.push(Attribute { topic: Some(topic.to_string()), value });
        proof {
            assert(s.attributes@.take(self.attributes@.len() as int) =~= self.attributes@);
        }
        s
    }

    /// Absorbs the outcome of building a child: a child that was built is
    /// appended; a failure sets this section's error and appends nothing.
    pub fn try_build_child(self, outcome: Result<Section, String>) -> (r: Section)
        ensures
            r.topic == self.topic,
            r.identity == self.identity,
            r.attributes@ == self.attributes@,
            r.bytes == self.bytes,
            outcome matches Ok(c) ==> r.error == self.error && r.children@ == self.children@.push(c),
            outcome matches Err(e) ==> r.error == Some(e) && r.children@ == self.children@,
    {
        let mut s = self;
        match outcome {
            Ok(c) => {
                s.children.push(c);
            },
            Err(e) => {
                s.error = Some(e);
            },
        }
        s
    }

    /// Appends one child.
    pub fn push_child(self, child: Section) -> (r: Section)
        ensures
            same_head(r, self),
            r.children@ == self.children@.push(child),
    {
        let mut s = self;
        s.children.push(child);
        s
    }

    /// Appends a child if there is one.
    pub fn maybe_push_child(self, child: Option<Section>) -> (r: Section)
        ensures
            same_head(r, self),
            child matches Some(c) ==> r.children@ == self.children@.push(c),
            child is None ==> r.children@ == self.children@,
    {
        let mut s = self;
        if let Some(c) = child {
            s.children.push(c);
        }
        s
    }

    /// Appends a child that was built in full.
    pub fn build_child(self, child: Section) -> (r: Section)
        ensures
            same_head(r, self),
            r.children@ == self.children@.push(child),
    {
        self.push_child(child)
    }

    /// Appends a batch of children after the existing ones.
    pub fn append_children(self, children: Vec<Section>) -> (r: Section)
        ensures
            same_head(r, self),
            r.children@ == self.children@ + children@,
    {
        let mut s = self;
        let mut more = children;
        s.children.append(&mut more);
        s
    }

    /// Replaces the children by a batch.
    pub fn collect_children(self, children: Vec<Section>) -> (r: Section)
        ensures
            same_head(r, self),
            r.children@ == children@,
    {
        Section { children, ..self }
    }
}

} // verus!
