//! The element names that the accumulator reacts to.
use vstd::prelude::*;
use crate::event::same_text;

verus! {

/// The closed set of element names with a meaning; everything else is `Other`.
#[derive(Clone, Copy, Debug, PartialEq, Eq, Structural)]
pub enum TagKind {
    Sentence,
    /// The collapsed, coordination-and-preposition-processed dependency block.
    DependencyBlock,
    Token,
    Word,
    Lemma,
    OffsetBegin,
    OffsetEnd,
    PartOfSpeech,
    NamedEntity,
    Dep,
    Governor,
    Dependent,
    Mention,
    Start,
    End,
    Head,
    Other,
}

/// The kind that an element name denotes.
pub open spec fn kind_of(name: Seq<char>) -> TagKind {
    if name == "sentence"@ {
        TagKind::Sentence
    } else if name == "collapsed-ccprocessed-dependencies"@ {
        TagKind::DependencyBlock
    } else if name == "token"@ {
        TagKind::Token
    } else if name == "word"@ {
        TagKind::Word
    } else if name == "lemma"@ {
        TagKind::Lemma
    } else if name == "CharacterOffsetBegin"@ {
        TagKind::OffsetBegin
    } else if name == "CharacterOffsetEnd"@ {
        TagKind::OffsetEnd
    } else if name == "POS"@ {
        TagKind::PartOfSpeech
    } else if name == "NER"@ {
        TagKind::NamedEntity
    } else if name == "dep"@ {
        TagKind::Dep
    } else if name == "governor"@ {
        TagKind::Governor
    } else if name == "dependent"@ {
        TagKind::Dependent
    } else if name == "mention"@ {
        TagKind::Mention
    } else if name == "start"@ {
        TagKind::Start
    } else if name == "end"@ {
        TagKind::End
    } else if name == "head"@ {
        TagKind::Head
    } else {
        TagKind::Other
    }
}

/// Classifies an element name.
pub fn classify(name: &String) -> (k: TagKind)
    ensures
        k == kind_of(name@),
{
    if same_text(name, "sentence") {
        TagKind::Sentence
    } else if same_text(name, "collapsed-ccprocessed-dependencies") {
        TagKind::DependencyBlock
    } else if same_text(name, "token") {
        TagKind::Token
    } else if same_text(name, "word") {
        TagKind::Word
    } else if same_text(name, "lemma") {
        TagKind::Lemma
    } else if same_text(name, "CharacterOffsetBegin") {
        TagKind::OffsetBegin
    } else if same_text(name, "CharacterOffsetEnd") {
        TagKind::OffsetEnd
    } else if same_text(name, "POS") {
        TagKind::PartOfSpeech
    } else if same_text(name, "NER") {
        TagKind::NamedEntity
    } else if same_text(name, "dep") {
        TagKind::Dep
    } else if same_text(name, "governor") {
        TagKind::Governor
    } else if same_text(name, "dependent") {
        TagKind::Dependent
    } else if same_text(name, "mention") {
        TagKind::Mention
    } else if same_text(name, "start") {
        TagKind::Start
    } else if same_text(name, "end") {
        TagKind::End
    } else if same_text(name, "head") {
        TagKind::Head
    } else {
        TagKind::Other
    }
}

} // verus!
