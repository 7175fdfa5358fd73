//! The accumulator state machine: per-document context, one step per event,
//! and a whole pass over an event sequence.
use vstd::prelude::*;
use crate::event::{
    attribute_value, attributes_view, events_view, find_attr, same_text, Attribute, EventV,
    XmlEvent,
};
use crate::record::{
    empty_dependency, empty_mention, empty_token, rows_view, DependencyRecord, DependencyRowV,
    MentionRecord, MentionRowV, Row, RowV, TokenRecord, TokenRowV,
};
use crate::tag::{classify, kind_of, TagKind};

verus! {

/// Mathematical view of the per-document context.
pub struct ContextV {
    pub sentence_id: Seq<char>,
    pub token: TokenRowV,
    pub dependency: DependencyRowV,
    pub mention: MentionRowV,
    pub tag_stack: Seq<Seq<char>>,
    pub governor_idx: Seq<char>,
    pub dependent_idx: Seq<char>,
    pub in_dependency_block: bool,
}

/// The context at the start of a document: nothing open, every buffer empty.
pub open spec fn initial_context() -> ContextV {
    ContextV {
        sentence_id: Seq::empty(),
        token: empty_token(),
        dependency: empty_dependency(),
        mention: empty_mention(),
        tag_stack: Seq::empty(),
        governor_idx: Seq::empty(),
        dependent_idx: Seq::empty(),
        in_dependency_block: false,
    }
}

/// `"true"` when the attribute is present and equal to `"true"`, else `"false"`.
pub open spec fn representative_flag(attrs: Seq<(Seq<char>, Seq<char>)>) -> Seq<char> {
    if find_attr(attrs, "representative"@) == Some("true"@) {
        "true"@
    } else {
        "false"@
    }
}

/// The value of the first attribute named `key`, or the empty string.
pub open spec fn attr_or_empty(attrs: Seq<(Seq<char>, Seq<char>)>, key: Seq<char>) -> Seq<char> {
    match find_attr(attrs, key) {
        Some(v) => v,
        None => Seq::empty(),
    }
}

/// The context after an element named `name` opens. A `token` with an `id`, a
/// `dep` inside the designated block and a `mention` each start a fresh record.
pub open spec fn on_open(c0: ContextV, name: Seq<char>, attrs: Seq<(Seq<char>, Seq<char>)>) -> ContextV {
    let c = ContextV { tag_stack: c0.tag_stack.push(name), ..c0 };
    match kind_of(name) {
        TagKind::Sentence => match find_attr(attrs, "id"@) {
            Some(v) => ContextV { sentence_id: v, ..c },
            None => c,
        },
        TagKind::DependencyBlock => ContextV {
            in_dependency_block: true,
            dependency: DependencyRowV { sentence_id: c.sentence_id, ..c.dependency },
            ..c
        },
        TagKind::Token => match find_attr(attrs, "id"@) {
            Some(v) => ContextV {
                token: TokenRowV { sentence_id: c.sentence_id, token_id: v, ..empty_token() },
                ..c
            },
            None => c,
        },
        TagKind::Dep => if c.in_dependency_block {
            ContextV {
                dependency: DependencyRowV {
                    sentence_id: c.sentence_id,
                    relation_type: attr_or_empty(attrs, "type"@),
                    ..empty_dependency()
                },
                ..c
            }
        } else {
            c
        },
        TagKind::Governor => if c.in_dependency_block {
            match find_attr(attrs, "idx"@) {
                Some(v) => ContextV { governor_idx: v, ..c },
                None => c,
            }
        } else {
            c
        },
        TagKind::Dependent => if c.in_dependency_block {
            match find_attr(attrs, "idx"@) {
                Some(v) => ContextV { dependent_idx: v, ..c },
                None => c,
            }
        } else {
            c
        },
        TagKind::Mention => ContextV {
            mention: MentionRowV { is_representative: representative_flag(attrs), ..empty_mention() },
            ..c
        },
        _ => c,
    }
}

/// The context after text: it goes to the field that the innermost open element names.
pub open spec fn on_text(c: ContextV, text: Seq<char>) -> ContextV {
    if c.tag_stack.len() == 0 {
        c
    } else {
        match kind_of(c.tag_stack.last()) {
            TagKind::Word => ContextV { token: TokenRowV { word: text, ..c.token }, ..c },
            TagKind::Lemma => ContextV { token: TokenRowV { lemma: text, ..c.token }, ..c },
            TagKind::OffsetBegin => ContextV {
                token: TokenRowV { char_offset_begin: text, ..c.token },
                ..c
            },
            TagKind::OffsetEnd => ContextV {
                token: TokenRowV { char_offset_end: text, ..c.token },
                ..c
            },
            TagKind::PartOfSpeech => ContextV {
                token: TokenRowV { part_of_speech: text, ..c.token },
                ..c
            },
            TagKind::NamedEntity => ContextV {
                token: TokenRowV { named_entity_tag: text, ..c.token },
                ..c
            },
            TagKind::Governor => if c.in_dependency_block {
                ContextV {
                    dependency: DependencyRowV {
                        governor_word: text,
                        governor_index: c.governor_idx,
                        ..c.dependency
                    },
                    ..c
                }
            } else {
                c
            },
            TagKind::Dependent => if c.in_dependency_block {
                ContextV {
                    dependency: DependencyRowV {
                        dependent_word: text,
                        dependent_index: c.dependent_idx,
                        ..c.dependency
                    },
                    ..c
                }
            } else {
                c
            },
            TagKind::Sentence => ContextV {
                mention: MentionRowV { sentence_id: text, ..c.mention },
                ..c
            },
            TagKind::Start => ContextV { mention: MentionRowV { start: text, ..c.mention }, ..c },
            TagKind::End => ContextV { mention: MentionRowV { end: text, ..c.mention }, ..c },
            TagKind::Head => ContextV { mention: MentionRowV { head: text, ..c.mention }, ..c },
            _ => c,
        }
    }
}

/// The context after an element named `name` closes, and the row it completes.
pub open spec fn on_close(c0: ContextV, name: Seq<char>) -> (ContextV, Option<RowV>) {
    let c = if c0.tag_stack.len() == 0 {
        c0
    } else {
        ContextV { tag_stack: c0.tag_stack.drop_last(), ..c0 }
    };
    match kind_of(name) {
        TagKind::Sentence => (ContextV { sentence_id: Seq::empty(), ..c }, None),
        TagKind::DependencyBlock => (ContextV { in_dependency_block: false, ..c }, None),
        TagKind::Token => (ContextV { token: empty_token(), ..c }, Some(RowV::Token(c.token))),
        TagKind::Dep => if c.in_dependency_block {
            (
                ContextV {
                    dependency: empty_dependency(),
                    governor_idx: Seq::empty(),
                    dependent_idx: Seq::empty(),
                    ..c
                },
                Some(RowV::Dependency(c.dependency)),
            )
        } else {
            (c, None)
        },
        TagKind::Mention => (
            ContextV { mention: empty_mention(), ..c },
            Some(RowV::Mention(c.mention)),
        ),
        _ => (c, None),
    }
}

/// One step of the machine: the next context, and the row emitted, if any.
pub open spec fn step(c: ContextV, e: EventV) -> (ContextV, Option<RowV>) {
    match e {
        EventV::Opened { name, attributes } => (on_open(c, name, attributes), None),
        EventV::Closed { name } => on_close(c, name),
        EventV::Text { content } => (on_text(c, content), None),
        EventV::EndOfDocument => (c, None),
    }
}

pub open spec fn option_seq(r: Option<RowV>) -> Seq<RowV> {
    match r {
        Some(x) => seq![x],
        None => Seq::empty(),
    }
}

/// The context after a sequence of events, and every row emitted, in order.
pub open spec fn run(c: ContextV, events: Seq<EventV>) -> (ContextV, Seq<RowV>)
    decreases events.len(),
{
    if events.len() == 0 {
        (c, Seq::empty())
    } else {
        let (c1, rows) = run(c, events.drop_last());
        let (c2, r) = step(c1, events.last());
        (c2, rows + option_seq(r))
    }
}

/// The rows that a whole document yields.
pub open spec fn project(events: Seq<EventV>) -> Seq<RowV> {
    run(initial_context(), events).1
}

/// The accumulator's context for one document.
pub struct ParseContext {
    pub sentence_id: String,
    pub token: TokenRecord,
    pub dependency: DependencyRecord,
    pub mention: MentionRecord,
    pub tag_stack: Vec<String>,
    pub governor_idx: String,
    pub dependent_idx: String,
    pub in_dependency_block: bool,
}

impl View for ParseContext {
    type V = ContextV;

    open spec fn view(&self) -> ContextV {
        ContextV {
            sentence_id: self.sentence_id@,
            token: self.token@,
            dependency: self.dependency@,
            mention: self.mention@,
            tag_stack: self.tag_stack@.map_values(|s: String| s@),
            governor_idx: self.governor_idx@,
            dependent_idx: self.dependent_idx@,
            in_dependency_block: self.in_dependency_block,
        }
    }
}

pub open spec fn option_row(r: Option<Row>) -> Option<RowV> {
    match r {
        Some(x) => Some(x@),
        None => None,
    }
}

impl ParseContext {
    /// A fresh context for a new document.
    pub fn new() -> (r: Self)
        ensures
            r@ == initial_context(),
    {
        let r = ParseContext {
            sentence_id: String::new(),
            token: TokenRecord::empty(),
            dependency: DependencyRecord::empty(),
            mention: MentionRecord::empty(),
            tag_stack: Vec::new(),
            governor_idx: String::new(),
            dependent_idx: String::new(),
            in_dependency_block: false,
        };
        assert(r@.tag_stack =~= Seq::empty());
        r
    }

    fn open_element(&mut self, name: &String, attrs: &Vec<Attribute>)
        ensures
            final(self)@ == on_open(old(self)@, name@, attributes_view(attrs@)),
    {
        self.tag_stack.push(name.clone());
        assert(self@.tag_stack =~= old(self)@.tag_stack.push(name@));
        match classify(name) {
            TagKind::Sentence => {
                if let Some(v) = attribute_value(attrs, "id") {
                    self.sentence_id = v;
                }
            },
            TagKind::DependencyBlock => {
                self.in_dependency_block = true;
                self.dependency.sentence_id = self.sentence_id.clone();
            },
            TagKind::Token => {
                if let Some(v) = attribute_value(attrs, "id") {
                    let mut fresh = TokenRecord::empty();
                    fresh.sentence_id = self.sentence_id.clone();
                    fresh.token_id = v;
                    self.token = fresh;
                }
            },
            TagKind::Dep => {
                if self.in_dependency_block {
                    let mut fresh = DependencyRecord::empty();
                    fresh.sentence_id = self.sentence_id.clone();
                    if let Some(v) = attribute_value(attrs, "type") {
                        fresh.relation_type = v;
                    }
                    self.dependency = fresh;
                }
            },
            TagKind::Governor => {
                if self.in_dependency_block {
                    if let Some(v) = attribute_value(attrs, "idx") {
                        self.governor_idx = v;
                    }
                }
            },
            TagKind::Dependent => {
                if self.in_dependency_block {
                    if let Some(v) = attribute_value(attrs, "idx") {
                        self.dependent_idx = v;
                    }
                }
            },
            TagKind::Mention => {
                let flag = match attribute_value(attrs, "representative") {
                    Some(v) => same_text(&v, "true"),
                    None => false,
                };
                let mut fresh = MentionRecord::empty();
                fresh.is_representative = if flag {
                    String::from_str("true")
                } else {
                    String::from_str("false")
                };
                self.mention = fresh;
            },
            _ => {},
        }
    }

    fn add_text(&mut self, text: &String)
        ensures
            final(self)@ == on_text(old(self)@, text@),
    {
        let n = self.tag_stack.len();
        if n == 0 {
            return;
        }
        let t = text.clone();
        match classify(&self.tag_stack[n - 1]) {
            TagKind::Word => self.token.word = t,
            TagKind::Lemma => self.token.lemma = t,
            TagKind::OffsetBegin => self.token.char_offset_begin = t,
            TagKind::OffsetEnd => self.token.char_offset_end = t,
            TagKind::PartOfSpeech => self.token.part_of_speech = t,
            TagKind::NamedEntity => self.token.named_entity_tag = t,
            TagKind::Governor => {
                if self.in_dependency_block {
                    self.dependency.governor_word = t;
                    self.dependency.governor_index = self.governor_idx.clone();
                }
            },
            TagKind::Dependent => {
                if self.in_dependency_block {
                    self.dependency.dependent_word = t;
                    self.dependency.dependent_index = self.dependent_idx.clone();
                }
            },
            TagKind::Sentence => self.mention.sentence_id = t,
            TagKind::Start => self.mention.start = t,
            TagKind::End => self.mention.end = t,
            TagKind::Head => self.mention.head = t,
            _ => {},
        }
    }

    fn close_element(&mut self, name: &String) -> (r: Option<Row>)
        ensures
            (final(self)@, option_row(r)) == on_close(old(self)@, name@),
    {
        let _ = self.tag_stack.pop();
        assert(self@.tag_stack =~= (if old(self)@.tag_stack.len() == 0 {
            old(self)@.tag_stack
        } else {
            old(self)@.tag_stack.drop_last()
        }));
        match classify(name) {
            TagKind::Sentence => {
                self.sentence_id = String::new();
                None
            },
            TagKind::DependencyBlock => {
                self.in_dependency_block = false;
                None
            },
            TagKind::Token => {
                let mut done = TokenRecord::empty();
                core::mem::swap(&mut done, &mut self.token);
                Some(Row::Token(done))
            },
            TagKind::Dep => {
                if self.in_dependency_block {
                    let mut done = DependencyRecord::empty();
                    core::mem::swap(&mut done, &mut self.dependency);
                    self.governor_idx = String::new();
                    self.dependent_idx = String::new();
                    Some(Row::Dependency(done))
                } else {
                    None
                }
            },
            TagKind::Mention => {
                let mut done = MentionRecord::empty();
                core::mem::swap(&mut done, &mut self.mention);
                Some(Row::Mention(done))
            },
            _ => None,
        }
    }

    /// Whether a text event would go anywhere: some element is open.
    pub fn wants_text(&self) -> (r: bool)
        ensures
            r == (self@.tag_stack.len() > 0),
    {
        self.tag_stack.len() > 0
    }

    /// Whether every element that opened has closed again.
    pub fn is_balanced(&self) -> (r: bool)
        ensures
            r == (self@.tag_stack.len() == 0),
    {
        self.tag_stack.len() == 0
    }

    /// Consumes one event; returns the row that it completes, if any.
    pub fn handle_event(&mut self, event: &XmlEvent) -> (r: Option<Row>)
        ensures
            (final(self)@, option_row(r)) == step(old(self)@, event@),
    {
        match event {
            XmlEvent::Opened { name, attributes } => {
                self.open_element(name, attributes);
                None
            },
            XmlEvent::Closed { name } => self.close_element(name),
            XmlEvent::Text { content } => {
                self.add_text(content);
                None
            },
            XmlEvent::EndOfDocument => None,
        }
    }
}

/// Runs a fresh context over a whole document's events; returns every row, in order.
pub fn convert_events(events: &Vec<XmlEvent>) -> (r: Vec<Row>)
    ensures
        rows_view(r@) == project(events_view(events@)),
{
    let ghost evs = events_view(events@);
    let mut ctx = ParseContext::new();
    let mut rows: Vec<Row> = Vec::new();
    let mut i: usize = 0;
    assert(evs.take(0) =~= Seq::<EventV>::empty());
    while i < events.len()
        invariant
            i <= events.len(),
            evs == events_view(events@),
            (ctx@, rows_view(rows@)) == run(initial_context(), evs.take(i as int)),
        decreases events.len() - i,
    {
        let ghost before = rows_view(rows@);
        let r = ctx.handle_event(&events[i]);
        if let Some(row) = r {
            rows.push(row);
        }
        assert(evs.take(i + 1).drop_last() =~= evs.take(i as int));
        assert(rows_view(rows@) =~= before + option_seq(option_row(r)));
        i += 1;
    }
    assert(evs.take(i as int) =~= evs);
    rows
}

} // verus!
