//! The three output tables: their column headers and file names.
use vstd::prelude::*;
use crate::record::Row;

verus! {

/// One of the three output tables.
#[derive(Clone, Copy, Debug, PartialEq, Eq, Structural)]
pub enum TableKind {
    Tokens,
    Dependencies,
    Coreferences,
}

/// The file name prefix of each table.
pub open spec fn prefix_of(t: TableKind) -> Seq<char> {
    match t {
        TableKind::Tokens => "tokens"@,
        TableKind::Dependencies => "dependencies"@,
        TableKind::Coreferences => "coreferences"@,
    }
}

/// The header row of each table.
pub open spec fn header_of(t: TableKind) -> Seq<Seq<char>> {
    match t {
        TableKind::Tokens => seq![
            "sentence_id"@,
            "token_id"@,
            "word"@,
            "lemma"@,
            "CharacterOffsetBegin"@,
            "CharacterOffsetEnd"@,
            "POS"@,
            "NER"@,
        ],
        TableKind::Dependencies => seq![
            "sentence_id"@,
            "type"@,
            "governor"@,
            "governor_idx"@,
            "dependent"@,
            "dependent_idx"@,
        ],
        TableKind::Coreferences => seq![
            "representative"@,
            "sentence_id"@,
            "start"@,
            "end"@,
            "head"@,
        ],
    }
}

fn owned_row(cells: &[&str]) -> (r: Vec<String>)
    ensures
        r.deep_view() == cells@.map_values(|s: &str| s@),
{
    let mut r: Vec<String> = Vec::new();
    let mut i: usize = 0;
    while i < cells.len()
        invariant
            i <= cells@.len(),
            r.deep_view() == cells@.take(i as int).map_values(|s: &str| s@),
        decreases cells@.len() - i,
    {
        r.push(String::from_str(cells[i]));
        assert(cells@.take(i + 1).map_values(|s: &str| s@) =~= cells@.take(i as int).map_values(
            |s: &str| s@,
        ).push(cells@[i as int]@));
        i += 1;
    }
    assert(cells@.take(i as int) =~= cells@);
    r
}

impl TableKind {
    /// The table that a row belongs to.
    pub fn of_row(row: &Row) -> (r: TableKind)
        ensures
            row is Token <==> r == TableKind::Tokens,
            row is Dependency <==> r == TableKind::Dependencies,
            row is Mention <==> r == TableKind::Coreferences,
    {
        match row {
            Row::Token(_) => TableKind::Tokens,
            Row::Dependency(_) => TableKind::Dependencies,
            Row::Mention(_) => TableKind::Coreferences,
        }
    }

    /// The header row of this table.
    pub fn header(self) -> (r: Vec<String>)
        ensures
            r.deep_view() == header_of(self),
    {
        let cells: Vec<&str> = match self {
            TableKind::Tokens => vec![
                "sentence_id",
                "token_id",
                "word",
                "lemma",
                "CharacterOffsetBegin",
                "CharacterOffsetEnd",
                "POS",
                "NER",
            ],
            TableKind::Dependencies => vec![
                "sentence_id",
                "type",
                "governor",
                "governor_idx",
                "dependent",
                "dependent_idx",
            ],
            TableKind::Coreferences => vec!["representative", "sentence_id", "start", "end", "head"],
        };
        let r = owned_row(cells.as_slice());
        assert(r.deep_view() =~= header_of(self));
        r
    }

    /// The name of this table's file for the document with base name `base`:
    /// `<prefix>_<base>.csv`.
    pub fn file_name(self, base: &str) -> (r: String)
        ensures
            r@ == prefix_of(self) + "_"@ + base@ + ".csv"@,
    {
        let prefix = match self {
            TableKind::Tokens => "tokens",
            TableKind::Dependencies => "dependencies",
            TableKind::Coreferences => "coreferences",
        };
        String::from_str(prefix).concat("_").concat(base).concat(".csv")
    }
}

} // verus!
