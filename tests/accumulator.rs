use xml_to_csv::event::{attribute_value, Attribute, XmlEvent};
use xml_to_csv::machine::{convert_events, ParseContext};
use xml_to_csv::record::{DependencyRecord, MentionRecord, Row, TokenRecord};
use xml_to_csv::tag::{classify, TagKind};

fn open(name: &str, attrs: &[(&str, &str)]) -> XmlEvent {
    XmlEvent::Opened {
        name: name.to_string(),
        attributes: attrs
            .iter()
            .map(|(k, v)| Attribute { key: k.to_string(), value: v.to_string() })
            .collect(),
    }
}

fn close(name: &str) -> XmlEvent {
    XmlEvent::Closed { name: name.to_string() }
}

fn text(content: &str) -> XmlEvent {
    XmlEvent::Text { content: content.to_string() }
}

fn leaf(name: &str, content: &str) -> Vec<XmlEvent> {
    vec![open(name, &[]), text(content), close(name)]
}

fn s(v: &str) -> String {
    v.to_string()
}

fn token_events(id: &str, fields: &[(&str, &str)]) -> Vec<XmlEvent> {
    let mut evs = vec![open("token", &[("id", id)])];
    for (name, content) in fields {
        evs.extend(leaf(name, content));
    }
    evs.push(close("token"));
    evs
}

fn dep_events(kind: &str, gov: (&str, &str), dep: (&str, &str)) -> Vec<XmlEvent> {
    vec![
        open("dep", &[("type", kind)]),
        open("governor", &[("idx", gov.0)]),
        text(gov.1),
        close("governor"),
        open("dependent", &[("idx", dep.0)]),
        text(dep.1),
        close("dependent"),
        close("dep"),
    ]
}

fn cells(row: &Row) -> Vec<String> {
    row.cells()
}

#[test]
fn single_token_row() {
    let mut evs = vec![open("root", &[]), open("sentence", &[("id", "1")]), open("tokens", &[])];
    evs.extend(token_events(
        "1",
        &[
            ("word", "Hello"),
            ("lemma", "hello"),
            ("CharacterOffsetBegin", "0"),
            ("CharacterOffsetEnd", "5"),
            ("POS", "UH"),
            ("NER", "O"),
        ],
    ));
    evs.extend(vec![close("tokens"), close("sentence"), close("root"), XmlEvent::EndOfDocument]);
    let rows = convert_events(&evs);
    assert_eq!(rows.len(), 1);
    assert_eq!(cells(&rows[0]).join(","), "1,1,Hello,hello,0,5,UH,O");
}

#[test]
fn designated_block_dependency_row() {
    let mut evs = vec![
        open("sentence", &[("id", "3")]),
        open("collapsed-ccprocessed-dependencies", &[]),
    ];
    evs.extend(dep_events("nsubj", ("2", "ran"), ("1", "dog")));
    evs.extend(vec![close("collapsed-ccprocessed-dependencies"), close("sentence")]);
    let rows = convert_events(&evs);
    assert_eq!(rows.len(), 1);
    assert_eq!(cells(&rows[0]).join(","), "3,nsubj,ran,2,dog,1");
    assert_eq!(
        rows[0],
        Row::Dependency(DependencyRecord {
            sentence_id: s("3"),
            relation_type: s("nsubj"),
            governor_word: s("ran"),
            governor_index: s("2"),
            dependent_word: s("dog"),
            dependent_index: s("1"),
        })
    );
}

#[test]
fn dependency_outside_designated_block_is_ignored() {
    let mut evs = vec![open("sentence", &[("id", "3")]), open("basic-dependencies", &[])];
    evs.extend(dep_events("nsubj", ("2", "ran"), ("1", "dog")));
    evs.push(close("basic-dependencies"));
    evs.push(open("collapsed-ccprocessed-dependencies", &[]));
    evs.extend(dep_events("dobj", ("2", "ran"), ("4", "cat")));
    evs.push(close("collapsed-ccprocessed-dependencies"));
    evs.push(open("collapsed-dependencies", &[]));
    evs.extend(dep_events("amod", ("4", "cat"), ("3", "big")));
    evs.push(close("collapsed-dependencies"));
    evs.push(close("sentence"));
    let rows = convert_events(&evs);
    assert_eq!(rows.len(), 1);
    assert_eq!(cells(&rows[0]).join(","), "3,dobj,ran,2,cat,4");
}

fn mention_flag(attrs: &[(&str, &str)]) -> String {
    let mut evs = vec![open("coreference", &[]), open("mention", attrs)];
    evs.extend(leaf("sentence", "2"));
    evs.extend(leaf("start", "1"));
    evs.extend(leaf("end", "3"));
    evs.extend(leaf("head", "2"));
    evs.push(close("mention"));
    evs.push(close("coreference"));
    let rows = convert_events(&evs);
    assert_eq!(rows.len(), 1);
    match &rows[0] {
        Row::Mention(m) => {
            assert_eq!(m.sentence_id, "2");
            assert_eq!(m.start, "1");
            assert_eq!(m.end, "3");
            assert_eq!(m.head, "2");
            m.is_representative.clone()
        }
        other => panic!("expected a mention row, got {:?}", other),
    }
}

#[test]
fn mention_representative_flag() {
    assert_eq!(mention_flag(&[]), "false");
    assert_eq!(mention_flag(&[("representative", "true")]), "true");
    assert_eq!(mention_flag(&[("representative", "false")]), "false");
    assert_eq!(mention_flag(&[("representative", "yes")]), "false");
    assert_eq!(mention_flag(&[("representative", "TRUE")]), "false");
    assert_eq!(mention_flag(&[("other", "true")]), "false");
    // the first attribute with the key decides
    assert_eq!(mention_flag(&[("representative", "true"), ("representative", "no")]), "true");
}

#[test]
fn mention_row_cells() {
    let mut evs = vec![open("mention", &[("representative", "true")])];
    evs.extend(leaf("sentence", "4"));
    evs.extend(leaf("start", "7"));
    evs.extend(leaf("end", "9"));
    evs.extend(leaf("head", "8"));
    evs.push(close("mention"));
    let rows = convert_events(&evs);
    assert_eq!(cells(&rows[0]).join(","), "true,4,7,9,8");
}

#[test]
fn buffers_reset_after_emission() {
    let mut evs = vec![open("sentence", &[("id", "1")])];
    evs.extend(token_events("1", &[("word", "a"), ("lemma", "a"), ("POS", "DT"), ("NER", "O")]));
    evs.extend(token_events("2", &[("word", "b")]));
    evs.push(open("collapsed-ccprocessed-dependencies", &[]));
    evs.extend(dep_events("det", ("2", "b"), ("1", "a")));
    evs.push(open("dep", &[("type", "root")]));
    evs.push(open("dependent", &[("idx", "2")]));
    evs.push(text("b"));
    evs.push(close("dependent"));
    evs.push(close("dep"));
    evs.push(close("collapsed-ccprocessed-dependencies"));
    evs.push(close("sentence"));
    evs.push(open("mention", &[("representative", "true")]));
    evs.extend(leaf("head", "1"));
    evs.push(close("mention"));
    evs.push(open("mention", &[]));
    evs.push(close("mention"));
    let rows = convert_events(&evs);
    assert_eq!(rows.len(), 6);
    assert_eq!(cells(&rows[0]).join(","), "1,1,a,a,,,DT,O");
    assert_eq!(cells(&rows[1]).join(","), "1,2,b,,,,,");
    assert_eq!(cells(&rows[2]).join(","), "1,det,b,2,a,1");
    assert_eq!(cells(&rows[3]).join(","), "1,root,,,b,2");
    assert_eq!(cells(&rows[4]).join(","), "true,,,,1");
    assert_eq!(cells(&rows[5]).join(","), "false,,,,");
}

#[test]
fn token_rows_pair_sentence_and_token_ids() {
    let mut evs = Vec::new();
    for sid in ["1", "2"] {
        evs.push(open("sentence", &[("id", sid)]));
        evs.push(open("tokens", &[]));
        for tid in ["1", "2", "3"] {
            evs.extend(token_events(tid, &[("word", "w")]));
        }
        evs.push(close("tokens"));
        evs.push(close("sentence"));
    }
    let rows = convert_events(&evs);
    assert_eq!(rows.len(), 6);
    let pairs: Vec<(String, String)> = rows
        .iter()
        .map(|r| match r {
            Row::Token(t) => (t.sentence_id.clone(), t.token_id.clone()),
            other => panic!("expected a token row, got {:?}", other),
        })
        .collect();
    let expected: Vec<(String, String)> = [("1", "1"), ("1", "2"), ("1", "3"), ("2", "1"), ("2", "2"), ("2", "3")]
        .iter()
        .map(|(a, b)| (s(a), s(b)))
        .collect();
    assert_eq!(pairs, expected);
}

#[test]
fn sentence_close_clears_sentence_id() {
    let mut evs = vec![open("sentence", &[("id", "5")]), close("sentence")];
    evs.extend(token_events("9", &[]));
    let rows = convert_events(&evs);
    assert_eq!(
        rows,
        vec![Row::Token(TokenRecord { token_id: s("9"), ..TokenRecord::default() })]
    );
}

#[test]
fn token_without_id_keeps_empty_ids() {
    let mut evs = vec![open("sentence", &[("id", "5")]), open("token", &[])];
    evs.extend(leaf("word", "x"));
    evs.push(close("token"));
    let rows = convert_events(&evs);
    assert_eq!(
        rows,
        vec![Row::Token(TokenRecord { word: s("x"), ..TokenRecord::default() })]
    );
}

#[test]
fn governor_text_outside_block_is_dropped() {
    let mut ctx = ParseContext::new();
    assert_eq!(ctx.handle_event(&open("governor", &[("idx", "4")])), None);
    assert_eq!(ctx.handle_event(&text("ran")), None);
    assert_eq!(ctx.handle_event(&close("governor")), None);
    assert_eq!(ctx.governor_idx, "");
    assert_eq!(ctx.dependency, DependencyRecord::default());
}

#[test]
fn text_outside_elements_and_unknown_tags_is_dropped() {
    let mut ctx = ParseContext::new();
    assert!(!ctx.wants_text());
    assert_eq!(ctx.handle_event(&text("stray")), None);
    assert_eq!(ctx.handle_event(&open("unknown", &[])), None);
    assert!(ctx.wants_text());
    assert_eq!(ctx.handle_event(&text("ignored")), None);
    assert_eq!(ctx.handle_event(&close("unknown")), None);
    assert_eq!(ctx.handle_event(&XmlEvent::EndOfDocument), None);
    assert!(ctx.tag_stack.is_empty());
    assert_eq!(ctx.token, TokenRecord::default());
    assert_eq!(ctx.mention, MentionRecord::default());
}

#[test]
fn later_text_overwrites_earlier() {
    let evs = vec![
        open("token", &[("id", "1")]),
        open("word", &[]),
        text("first"),
        text("second"),
        close("word"),
        close("token"),
    ];
    let rows = convert_events(&evs);
    assert_eq!(cells(&rows[0])[2], "second");
}

#[test]
fn unbalanced_close_on_empty_stack() {
    let mut ctx = ParseContext::new();
    assert_eq!(ctx.handle_event(&close("token")), Some(Row::Token(TokenRecord::default())));
    assert!(ctx.tag_stack.is_empty());
}

#[test]
fn attribute_lookup() {
    let attrs = vec![
        Attribute { key: s("type"), value: s("a") },
        Attribute { key: s("idx"), value: s("1") },
        Attribute { key: s("idx"), value: s("2") },
    ];
    assert_eq!(attribute_value(&attrs, "idx"), Some(s("1")));
    assert_eq!(attribute_value(&attrs, "type"), Some(s("a")));
    assert_eq!(attribute_value(&attrs, "id"), None);
    assert_eq!(attribute_value(&Vec::new(), "id"), None);
}

#[test]
fn tag_classification() {
    assert_eq!(classify(&s("sentence")), TagKind::Sentence);
    assert_eq!(classify(&s("collapsed-ccprocessed-dependencies")), TagKind::DependencyBlock);
    assert_eq!(classify(&s("basic-dependencies")), TagKind::Other);
    assert_eq!(classify(&s("CharacterOffsetBegin")), TagKind::OffsetBegin);
    assert_eq!(classify(&s("pos")), TagKind::Other);
    assert_eq!(classify(&s("head")), TagKind::Head);
    assert_eq!(classify(&s("")), TagKind::Other);
}

#[test]
fn empty_document_yields_no_rows() {
    assert!(convert_events(&Vec::new()).is_empty());
    assert!(convert_events(&vec![XmlEvent::EndOfDocument]).is_empty());
}

#[test]
fn dep_without_type_keeps_sentence_id() {
    let mut evs = vec![
        open("sentence", &[("id", "3")]),
        open("collapsed-ccprocessed-dependencies", &[]),
    ];
    evs.extend(dep_events("nsubj", ("2", "ran"), ("1", "dog")));
    evs.push(open("dep", &[]));
    evs.push(open("governor", &[("idx", "2")]));
    evs.push(text("ran"));
    evs.push(close("governor"));
    evs.push(close("dep"));
    evs.push(close("collapsed-ccprocessed-dependencies"));
    evs.push(close("sentence"));
    let rows = convert_events(&evs);
    assert_eq!(rows.len(), 2);
    assert_eq!(cells(&rows[0]).join(","), "3,nsubj,ran,2,dog,1");
    assert_eq!(cells(&rows[1]).join(","), "3,,ran,2,,");
}

#[test]
fn consecutive_deps_share_no_fields() {
    let mut evs = vec![
        open("sentence", &[("id", "7")]),
        open("collapsed-ccprocessed-dependencies", &[]),
    ];
    evs.extend(dep_events("amod", ("4", "cat"), ("3", "big")));
    // governor without idx, no dependent child
    evs.push(open("dep", &[("type", "root")]));
    evs.push(open("governor", &[]));
    evs.push(text("ROOT"));
    evs.push(close("governor"));
    evs.push(close("dep"));
    evs.push(close("collapsed-ccprocessed-dependencies"));
    evs.push(close("sentence"));
    let rows = convert_events(&evs);
    assert_eq!(rows.len(), 2);
    assert_eq!(cells(&rows[0]).join(","), "7,amod,cat,4,big,3");
    assert_eq!(cells(&rows[1]).join(","), "7,root,ROOT,,,");
}

#[test]
fn text_before_record_open_does_not_leak() {
    let mut evs = vec![open("sentence", &[("id", "1")])];
    evs.extend(leaf("word", "stray"));
    evs.extend(leaf("start", "9"));
    evs.extend(token_events("1", &[("lemma", "x")]));
    evs.push(open("mention", &[]));
    evs.extend(leaf("head", "2"));
    evs.push(close("mention"));
    evs.push(close("sentence"));
    let rows = convert_events(&evs);
    assert_eq!(rows.len(), 2);
    assert_eq!(cells(&rows[0]).join(","), "1,1,,x,,,,");
    assert_eq!(cells(&rows[1]).join(","), "false,,,,2");
}

#[test]
fn dep_in_another_block_changes_no_table() {
    let mut plain = vec![open("sentence", &[("id", "3")])];
    plain.extend(token_events("1", &[("word", "dog")]));
    plain.push(open("collapsed-ccprocessed-dependencies", &[]));
    plain.extend(dep_events("nsubj", ("2", "ran"), ("1", "dog")));
    plain.push(close("collapsed-ccprocessed-dependencies"));
    let mut with_foreign = plain.clone();
    for evs in [&mut plain, &mut with_foreign] {
        evs.push(open("basic-dependencies", &[]));
    }
    with_foreign.extend(dep_events("nsubj", ("2", "ran"), ("1", "dog")));
    for evs in [&mut plain, &mut with_foreign] {
        evs.push(close("basic-dependencies"));
        evs.push(close("sentence"));
    }
    let rows = convert_events(&with_foreign);
    assert_eq!(rows, convert_events(&plain));
    assert_eq!(rows.len(), 2);
}

#[test]
fn balance_tracks_open_elements() {
    let mut ctx = ParseContext::new();
    assert!(ctx.is_balanced());
    ctx.handle_event(&open("root", &[]));
    ctx.handle_event(&open("sentence", &[("id", "1")]));
    assert!(!ctx.is_balanced());
    ctx.handle_event(&close("sentence"));
    assert!(!ctx.is_balanced());
    ctx.handle_event(&close("root"));
    assert!(ctx.is_balanced());
}
