//! The three row kinds, their mathematical views, and their column layouts.
use vstd::prelude::*;

verus! {

/// Mathematical view of a token row: every field is a character sequence.
pub struct TokenRowV {
    pub sentence_id: Seq<char>,
    pub token_id: Seq<char>,
    pub word: Seq<char>,
    pub lemma: Seq<char>,
    pub char_offset_begin: Seq<char>,
    pub char_offset_end: Seq<char>,
    pub part_of_speech: Seq<char>,
    pub named_entity_tag: Seq<char>,
}

/// Mathematical view of a dependency edge row.
pub struct DependencyRowV {
    pub sentence_id: Seq<char>,
    pub relation_type: Seq<char>,
    pub governor_word: Seq<char>,
    pub governor_index: Seq<char>,
    pub dependent_word: Seq<char>,
    pub dependent_index: Seq<char>,
}

/// Mathematical view of a coreference mention row.
pub struct MentionRowV {
    pub is_representative: Seq<char>,
    pub sentence_id: Seq<char>,
    pub start: Seq<char>,
    pub end: Seq<char>,
    pub head: Seq<char>,
}

/// Mathematical view of an emitted row, tagged with its table.
pub enum RowV {
    Token(TokenRowV),
    Dependency(DependencyRowV),
    Mention(MentionRowV),
}

pub open spec fn empty_token() -> TokenRowV {
    TokenRowV {
        sentence_id: Seq::empty(),
        token_id: Seq::empty(),
        word: Seq::empty(),
        lemma: Seq::empty(),
        char_offset_begin: Seq::empty(),
        char_offset_end: Seq::empty(),
        part_of_speech: Seq::empty(),
        named_entity_tag: Seq::empty(),
    }
}

pub open spec fn empty_dependency() -> DependencyRowV {
    DependencyRowV {
        sentence_id: Seq::empty(),
        relation_type: Seq::empty(),
        governor_word: Seq::empty(),
        governor_index: Seq::empty(),
        dependent_word: Seq::empty(),
        dependent_index: Seq::empty(),
    }
}

pub open spec fn empty_mention() -> MentionRowV {
    MentionRowV {
        is_representative: Seq::empty(),
        sentence_id: Seq::empty(),
        start: Seq::empty(),
        end: Seq::empty(),
        head: Seq::empty(),
    }
}

/// The token table's cells, in column order.
pub open spec fn token_cells(t: TokenRowV) -> Seq<Seq<char>> {
    seq![
        t.sentence_id,
        t.token_id,
        t.word,
        t.lemma,
        t.char_offset_begin,
        t.char_offset_end,
        t.part_of_speech,
        t.named_entity_tag,
    ]
}

/// The dependency table's cells, in column order.
pub open spec fn dependency_cells(d: DependencyRowV) -> Seq<Seq<char>> {
    seq![
        d.sentence_id,
        d.relation_type,
        d.governor_word,
        d.governor_index,
        d.dependent_word,
        d.dependent_index,
    ]
}

/// The coreference table's cells, in column order.
pub open spec fn mention_cells(m: MentionRowV) -> Seq<Seq<char>> {
    seq![m.is_representative, m.sentence_id, m.start, m.end, m.head]
}

pub open spec fn row_cells(r: RowV) -> Seq<Seq<char>> {
    match r {
        RowV::Token(t) => token_cells(t),
        RowV::Dependency(d) => dependency_cells(d),
        RowV::Mention(m) => mention_cells(m),
    }
}

/// A token record under construction, or emitted.
#[derive(Clone, Debug, PartialEq, Eq, Default)]
pub struct TokenRecord {
    pub sentence_id: String,
    pub token_id: String,
    pub word: String,
    pub lemma: String,
    pub char_offset_begin: String,
    pub char_offset_end: String,
    pub part_of_speech: String,
    pub named_entity_tag: String,
}

/// A dependency edge record under construction, or emitted.
#[derive(Clone, Debug, PartialEq, Eq, Default)]
pub struct DependencyRecord {
    pub sentence_id: String,
    pub relation_type: String,
    pub governor_word: String,
    pub governor_index: String,
    pub dependent_word: String,
    pub dependent_index: String,
}

/// A coreference mention record under construction, or emitted.
#[derive(Clone, Debug, PartialEq, Eq, Default)]
pub struct MentionRecord {
    pub is_representative: String,
    pub sentence_id: String,
    pub start: String,
    pub end: String,
    pub head: String,
}

/// A complete row, tagged with the table it belongs to.
#[derive(Clone, Debug, PartialEq, Eq)]
pub enum Row {
    Token(TokenRecord),
    Dependency(DependencyRecord),
    Mention(MentionRecord),
}

impl View for TokenRecord {
    type V = TokenRowV;

    open spec fn view(&self) -> TokenRowV {
        TokenRowV {
            sentence_id: self.sentence_id@,
            token_id: self.token_id@,
            word: self.word@,
            lemma: self.lemma@,
            char_offset_begin: self.char_offset_begin@,
            char_offset_end: self.char_offset_end@,
            part_of_speech: self.part_of_speech@,
            named_entity_tag: self.named_entity_tag@,
        }
    }
}

impl View for DependencyRecord {
    type V = DependencyRowV;

    open spec fn view(&self) -> DependencyRowV {
        DependencyRowV {
            sentence_id: self.sentence_id@,
            relation_type: self.relation_type@,
            governor_word: self.governor_word@,
            governor_index: self.governor_index@,
            dependent_word: self.dependent_word@,
            dependent_index: self.dependent_index@,
        }
    }
}

impl View for MentionRecord {
    type V = MentionRowV;

    open spec fn view(&self) -> MentionRowV {
        MentionRowV {
            is_representative: self.is_representative@,
            sentence_id: self.sentence_id@,
            start: self.start@,
            end: self.end@,
            head: self.head@,
        }
    }
}

impl View for Row {
    type V = RowV;

    open spec fn view(&self) -> RowV {
        match self {
            Row::Token(t) => RowV::Token(t@),
            Row::Dependency(d) => RowV::Dependency(d@),
            Row::Mention(m) => RowV::Mention(m@),
        }
    }
}

pub open spec fn rows_view(rows: Seq<Row>) -> Seq<RowV> {
    rows.map_values(|r: Row| r@)
}

impl TokenRecord {
    /// A record whose every field is empty.
    pub fn empty() -> (r: Self)
        ensures
            r@ == empty_token(),
    {
        TokenRecord {
            sentence_id: String::new(),
            token_id: String::new(),
            word: String::new(),
            lemma: String::new(),
            char_offset_begin: String::new(),
            char_offset_end: String::new(),
            part_of_speech: String::new(),
            named_entity_tag: String::new(),
        }
    }

    /// The cells of this record, in the token table's column order.
    pub fn cells(&self) -> (r: Vec<String>)
        ensures
            r.deep_view() == token_cells(self@),
    {
        let r = vec![
            self.sentence_id.clone(),
            self.token_id.clone(),
            self.word.clone(),
            self.lemma.clone(),
            self.char_offset_begin.clone(),
            self.char_offset_end.clone(),
            self.part_of_speech.clone(),
            self.named_entity_tag.clone(),
        ];
        assert(r.deep_view() =~= token_cells(self@));
        r
    }
}

impl DependencyRecord {
    /// A record whose every field is empty.
    pub fn empty() -> (r: Self)
        ensures
            r@ == empty_dependency(),
    {
        DependencyRecord {
            sentence_id: String::new(),
            relation_type: String::new(),
            governor_word: String::new(),
            governor_index: String::new(),
            dependent_word: String::new(),
            dependent_index: String::new(),
        }
    }

    /// The cells of this record, in the dependency table's column order.
    pub fn cells(&self) -> (r: Vec<String>)
        ensures
            r.deep_view() == dependency_cells(self@),
    {
        let r = vec![
            self.sentence_id.clone(),
            self.relation_type.clone(),
            self.governor_word.clone(),
            self.governor_index.clone(),
            self.dependent_word.clone(),
            self.dependent_index.clone(),
        ];
        assert(r.deep_view() =~= dependency_cells(self@));
        r
    }
}

impl MentionRecord {
    /// A record whose every field is empty.
    pub fn empty() -> (r: Self)
        ensures
            r@ == empty_mention(),
    {
        MentionRecord {
            is_representative: String::new(),
            sentence_id: String::new(),
            start: String::new(),
            end: String::new(),
            head: String::new(),
        }
    }

    /// The cells of this record, in the coreference table's column order.
    pub fn cells(&self) -> (r: Vec<String>)
        ensures
            r.deep_view() == mention_cells(self@),
    {
        let r = vec![
            self.is_representative.clone(),
            self.sentence_id.clone(),
            self.start.clone(),
            self.end.clone(),
            self.head.clone(),
        ];
        assert(r.deep_view() =~= mention_cells(self@));
        r
    }
}

impl Row {
    /// The cells of this row, in its table's column order.
    pub fn cells(&self) -> (r: Vec<String>)
        ensures
            r.deep_view() == row_cells(self@),
    {
        match self {
            Row::Token(t) => t.cells(),
            Row::Dependency(d) => d.cells(),
            Row::Mention(m) => m.cells(),
        }
    }
}

} // verus!
