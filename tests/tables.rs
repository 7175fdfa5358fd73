use xml_to_csv::record::{DependencyRecord, MentionRecord, Row, TokenRecord};
use xml_to_csv::table::TableKind;

#[test]
fn table_headers() {
    assert_eq!(
        TableKind::Tokens.header().join(","),
        "sentence_id,token_id,word,lemma,CharacterOffsetBegin,CharacterOffsetEnd,POS,NER"
    );
    assert_eq!(
        TableKind::Dependencies.header().join(","),
        "sentence_id,type,governor,governor_idx,dependent,dependent_idx"
    );
    assert_eq!(
        TableKind::Coreferences.header().join(","),
        "representative,sentence_id,start,end,head"
    );
}

#[test]
fn table_file_names() {
    assert_eq!(TableKind::Tokens.file_name("doc1"), "tokens_doc1.csv");
    assert_eq!(TableKind::Dependencies.file_name("a.b"), "dependencies_a.b.csv");
    assert_eq!(TableKind::Coreferences.file_name(""), "coreferences_.csv");
}

#[test]
fn rows_know_their_table() {
    assert_eq!(TableKind::of_row(&Row::Token(TokenRecord::empty())), TableKind::Tokens);
    assert_eq!(
        TableKind::of_row(&Row::Dependency(DependencyRecord::empty())),
        TableKind::Dependencies
    );
    assert_eq!(TableKind::of_row(&Row::Mention(MentionRecord::empty())), TableKind::Coreferences);
}

#[test]
fn empty_records_have_empty_cells() {
    assert_eq!(TokenRecord::empty().cells(), vec![String::new(); 8]);
    assert_eq!(DependencyRecord::empty().cells(), vec![String::new(); 6]);
    assert_eq!(MentionRecord::empty().cells(), vec![String::new(); 5]);
}
