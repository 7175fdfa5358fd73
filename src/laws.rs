//! Properties of the accumulator, proved over its spec-level state machine.
use vstd::prelude::*;
use crate::event::{find_attr, EventV};
use crate::machine::{
    attr_or_empty,     initial_context, on_open, option_seq, project, representative_flag, run, step, ContextV,
};
use crate::record::{
    empty_dependency, empty_mention, empty_token, DependencyRowV, MentionRowV, RowV, TokenRowV,
};
use crate::tag::{kind_of, TagKind};

verus! {

/// Number of token rows among `rows`.
pub open spec fn token_row_count(rows: Seq<RowV>) -> nat
    decreases rows.len(),
{
    if rows.len() == 0 {
        0
    } else {
        token_row_count(rows.drop_last()) + if rows.last() is Token { 1nat } else { 0nat }
    }
}

/// Number of dependency rows among `rows`.
pub open spec fn dependency_row_count(rows: Seq<RowV>) -> nat
    decreases rows.len(),
{
    if rows.len() == 0 {
        0
    } else {
        dependency_row_count(rows.drop_last()) + if rows.last() is Dependency { 1nat } else { 0nat }
    }
}

/// Whether `e` closes an element of kind `k`.
pub open spec fn closes(e: EventV, k: TagKind) -> bool {
    match e {
        EventV::Closed { name } => kind_of(name) == k,
        _ => false,
    }
}

/// Whether `e` opens an element of kind `k`.
pub open spec fn opens(e: EventV, k: TagKind) -> bool {
    match e {
        EventV::Opened { name, .. } => kind_of(name) == k,
        _ => false,
    }
}

/// Number of events that close an element of kind `k`.
pub open spec fn close_count(events: Seq<EventV>, k: TagKind) -> nat
    decreases events.len(),
{
    if events.len() == 0 {
        0
    } else {
        close_count(events.drop_last(), k) + if closes(events.last(), k) { 1nat } else { 0nat }
    }
}

/// Whether, after `events`, the designated dependency block is open: the last
/// event that opens or closes it opens it.
pub open spec fn inside_dependency_block(events: Seq<EventV>) -> bool
    decreases events.len(),
{
    if events.len() == 0 {
        false
    } else if opens(events.last(), TagKind::DependencyBlock) {
        true
    } else if closes(events.last(), TagKind::DependencyBlock) {
        false
    } else {
        inside_dependency_block(events.drop_last())
    }
}

proof fn lemma_count_append(rows: Seq<RowV>, r: Option<RowV>)
    ensures
        token_row_count(rows + option_seq(r)) == token_row_count(rows) + match r {
            Some(RowV::Token(_)) => 1nat,
            _ => 0nat,
        },
        dependency_row_count(rows + option_seq(r)) == dependency_row_count(rows) + match r {
            Some(RowV::Dependency(_)) => 1nat,
            _ => 0nat,
        },
{
    if let Some(x) = r {
        assert((rows + seq![x]).drop_last() =~= rows);
    } else {
        assert(rows + Seq::<RowV>::empty() =~= rows);
    }
}

/// Every closing `token` element emits exactly one token row and nothing else
/// does: from any context, the token rows number the `token` closes.
pub proof fn lemma_token_rows_match_token_closes(c: ContextV, events: Seq<EventV>)
    ensures
        token_row_count(run(c, events).1) == close_count(events, TagKind::Token),
    decreases events.len(),
{
    if events.len() > 0 {
        lemma_token_rows_match_token_closes(c, events.drop_last());
        let (c1, rows) = run(c, events.drop_last());
        lemma_count_append(rows, step(c1, events.last()).1);
    }
}

/// The flag for the designated dependency block holds exactly while that
/// block is open.
pub proof fn lemma_block_flag(events: Seq<EventV>)
    ensures
        run(initial_context(), events).0.in_dependency_block == inside_dependency_block(events),
    decreases events.len(),
{
    if events.len() > 0 {
        lemma_block_flag(events.drop_last());
    }
}

/// A dependency row is emitted by a closing `dep` inside the designated block,
/// and by no other event: a `dep` anywhere else yields no row.
pub proof fn lemma_dependency_rows_only_in_block(events: Seq<EventV>, e: EventV)
    ensures
        dependency_row_count(project(events.push(e))) == dependency_row_count(project(events))
            + if closes(e, TagKind::Dep) && inside_dependency_block(events) { 1nat } else { 0nat },
{
    lemma_block_flag(events);
    assert(events.push(e).drop_last() =~= events);
    let (c1, rows) = run(initial_context(), events);
    lemma_count_append(rows, step(c1, e).1);
}

/// After a row is emitted, the buffer of its kind is empty again (and, for a
/// dependency edge, both index slots), so the next record of that kind starts
/// with no value left over.
pub proof fn lemma_buffer_reset_on_emit(c: ContextV, e: EventV)
    ensures
        step(c, e).1 matches Some(RowV::Token(_)) ==> step(c, e).0.token == empty_token(),
        step(c, e).1 matches Some(RowV::Dependency(_)) ==> {
            &&& step(c, e).0.dependency == empty_dependency()
            &&& step(c, e).0.governor_idx.len() == 0
            &&& step(c, e).0.dependent_idx.len() == 0
        },
        step(c, e).1 matches Some(RowV::Mention(_)) ==> step(c, e).0.mention == empty_mention(),
{
}

/// Between its open and close, events that neither open nor close a `token`
/// leave the token's sentence id and token id alone and emit no token row.
proof fn lemma_token_body(c: ContextV, body: Seq<EventV>)
    requires
        forall|i: int|
            0 <= i < body.len() ==> !opens(#[trigger] body[i], TagKind::Token) && !closes(
                body[i],
                TagKind::Token,
            ),
    ensures
        run(c, body).0.token.sentence_id == c.token.sentence_id,
        run(c, body).0.token.token_id == c.token.token_id,
        token_row_count(run(c, body).1) == 0,
    decreases body.len(),
{
    if body.len() > 0 {
        let rest = body.drop_last();
        assert forall|i: int| 0 <= i < rest.len() implies !opens(#[trigger] rest[i], TagKind::Token)
            && !closes(rest[i], TagKind::Token) by {
            assert(rest[i] == body[i]);
        }
        lemma_token_body(c, rest);
        let (c1, rows) = run(c, rest);
        assert(!opens(body[body.len() - 1], TagKind::Token));
        lemma_count_append(rows, step(c1, body.last()).1);
    }
}

/// A `token` element with an `id` attribute, in a context whose sentence id is
/// `c.sentence_id`, yields exactly one token row, and that row pairs this
/// sentence id with the token's own id.
pub proof fn lemma_token_row_pairing(
    c: ContextV,
    name: Seq<char>,
    attrs: Seq<(Seq<char>, Seq<char>)>,
    body: Seq<EventV>,
    close_name: Seq<char>,
)
    requires
        kind_of(name) == TagKind::Token,
        kind_of(close_name) == TagKind::Token,
        find_attr(attrs, "id"@) is Some,
        forall|i: int|
            0 <= i < body.len() ==> !opens(#[trigger] body[i], TagKind::Token) && !closes(
                body[i],
                TagKind::Token,
            ),
    ensures
        ({
            let events = seq![EventV::Opened { name: name, attributes: attrs }] + body + seq![
                EventV::Closed { name: close_name },
            ];
            let rows = run(c, events).1;
            &&& token_row_count(rows) == 1
            &&& rows.last() matches RowV::Token(t) && t.sentence_id == c.sentence_id
                && t.token_id == find_attr(attrs, "id"@)->Some_0
        }),
{
    let first = seq![EventV::Opened { name: name, attributes: attrs }];
    let events = first + body + seq![EventV::Closed { name: close_name }];
    let c1 = on_open(c, name, attrs);
    assert(first.drop_last() =~= Seq::<EventV>::empty());
    assert(run(c, first.drop_last()) == (c, Seq::<RowV>::empty()));
    assert(Seq::<RowV>::empty() + Seq::<RowV>::empty() =~= Seq::<RowV>::empty());
    assert(run(c, first) == (c1, Seq::<RowV>::empty()));
    lemma_run_concat(c, first, body);
    lemma_token_body(c1, body);
    assert(events.drop_last() =~= first + body);
    let (c2, rows) = run(c, first + body);
    lemma_count_append(rows, step(c2, events.last()).1);
}

/// Running two event sequences one after the other is running their concatenation.
pub proof fn lemma_run_concat(c: ContextV, a: Seq<EventV>, b: Seq<EventV>)
    ensures
        run(c, a + b) == (run(run(c, a).0, b).0, run(c, a).1 + run(run(c, a).0, b).1),
    decreases b.len(),
{
    if b.len() == 0 {
        assert(a + b =~= a);
        assert(run(c, a).1 + Seq::<RowV>::empty() =~= run(c, a).1);
    } else {
        lemma_run_concat(c, a, b.drop_last());
        assert((a + b).drop_last() =~= a + b.drop_last());
        let mid = run(c, a);
        let tail = run(mid.0, b.drop_last());
        let r = step(tail.0, b.last());
        assert(mid.1 + tail.1 + option_seq(r.1) =~= mid.1 + (tail.1 + option_seq(r.1)));
    }
}

/// A `mention` records `"true"` as its representative flag exactly when its
/// first `representative` attribute is `"true"`; absent or any other value
/// gives `"false"`.
pub proof fn lemma_representative_flag(
    c: ContextV,
    name: Seq<char>,
    attrs: Seq<(Seq<char>, Seq<char>)>,
)
    requires
        kind_of(name) == TagKind::Mention,
    ensures
        on_open(c, name, attrs).mention.is_representative == representative_flag(attrs),
        find_attr(attrs, "representative"@) is None ==> on_open(c, name, attrs).mention.is_representative
            == "false"@,
        find_attr(attrs, "representative"@) == Some("true"@) ==> on_open(
            c,
            name,
            attrs,
        ).mention.is_representative == "true"@,
{
}

/// Between its open and close, events that neither open nor close a `mention`
/// leave the mention's representative flag alone.
proof fn lemma_mention_body(c: ContextV, body: Seq<EventV>)
    requires
        forall|i: int|
            0 <= i < body.len() ==> !opens(#[trigger] body[i], TagKind::Mention) && !closes(
                body[i],
                TagKind::Mention,
            ),
    ensures
        run(c, body).0.mention.is_representative == c.mention.is_representative,
    decreases body.len(),
{
    if body.len() > 0 {
        let rest = body.drop_last();
        assert forall|i: int| 0 <= i < rest.len() implies !opens(
            #[trigger] rest[i],
            TagKind::Mention,
        ) && !closes(rest[i], TagKind::Mention) by {
            assert(rest[i] == body[i]);
        }
        lemma_mention_body(c, rest);
        assert(!opens(body[body.len() - 1], TagKind::Mention));
    }
}

/// The row of a `mention` element carries the flag read from its opening tag:
/// `"true"` exactly when its `representative` attribute is `"true"`.
pub proof fn lemma_mention_row_flag(
    c: ContextV,
    name: Seq<char>,
    attrs: Seq<(Seq<char>, Seq<char>)>,
    body: Seq<EventV>,
    close_name: Seq<char>,
)
    requires
        kind_of(name) == TagKind::Mention,
        kind_of(close_name) == TagKind::Mention,
        forall|i: int|
            0 <= i < body.len() ==> !opens(#[trigger] body[i], TagKind::Mention) && !closes(
                body[i],
                TagKind::Mention,
            ),
    ensures
        ({
            let events = seq![EventV::Opened { name: name, attributes: attrs }] + body + seq![
                EventV::Closed { name: close_name },
            ];
            run(c, events).1.last() matches RowV::Mention(m) && m.is_representative
                == representative_flag(attrs)
        }),
{
    let first = seq![EventV::Opened { name: name, attributes: attrs }];
    let events = first + body + seq![EventV::Closed { name: close_name }];
    let c1 = on_open(c, name, attrs);
    assert(first.drop_last() =~= Seq::<EventV>::empty());
    assert(run(c, first.drop_last()) == (c, Seq::<RowV>::empty()));
    assert(Seq::<RowV>::empty() + Seq::<RowV>::empty() =~= Seq::<RowV>::empty());
    assert(run(c, first) == (c1, Seq::<RowV>::empty()));
    lemma_run_concat(c, first, body);
    lemma_mention_body(c1, body);
    assert(events.drop_last() =~= first + body);
}

/// A complete `dep` element: the edge, its governor and its dependent, each
/// with attributes and text.
pub open spec fn dep_element(
    dep_name: Seq<char>,
    dep_attrs: Seq<(Seq<char>, Seq<char>)>,
    gov_name: Seq<char>,
    gov_attrs: Seq<(Seq<char>, Seq<char>)>,
    gov_text: Seq<char>,
    dnt_name: Seq<char>,
    dnt_attrs: Seq<(Seq<char>, Seq<char>)>,
    dnt_text: Seq<char>,
) -> Seq<EventV> {
    seq![
        EventV::Opened { name: dep_name, attributes: dep_attrs },
        EventV::Opened { name: gov_name, attributes: gov_attrs },
        EventV::Text { content: gov_text },
        EventV::Closed { name: gov_name },
        EventV::Opened { name: dnt_name, attributes: dnt_attrs },
        EventV::Text { content: dnt_text },
        EventV::Closed { name: dnt_name },
        EventV::Closed { name: dep_name },
    ]
}

proof fn lemma_run_push(c: ContextV, events: Seq<EventV>, e: EventV)
    ensures
        run(c, events.push(e)) == (
            step(run(c, events).0, e).0,
            run(c, events).1 + option_seq(step(run(c, events).0, e).1),
        ),
{
    assert(events.push(e).drop_last() =~= events);
}

/// Outside the designated block, a whole `dep` element changes nothing: the
/// context comes back as it was and no row is emitted.
pub proof fn lemma_foreign_dep_is_inert(
    c: ContextV,
    dep_name: Seq<char>,
    dep_attrs: Seq<(Seq<char>, Seq<char>)>,
    gov_name: Seq<char>,
    gov_attrs: Seq<(Seq<char>, Seq<char>)>,
    gov_text: Seq<char>,
    dnt_name: Seq<char>,
    dnt_attrs: Seq<(Seq<char>, Seq<char>)>,
    dnt_text: Seq<char>,
)
    requires
        !c.in_dependency_block,
        kind_of(dep_name) == TagKind::Dep,
        kind_of(gov_name) == TagKind::Governor,
        kind_of(dnt_name) == TagKind::Dependent,
    ensures
        run(
            c,
            dep_element(dep_name, dep_attrs, gov_name, gov_attrs, gov_text, dnt_name, dnt_attrs, dnt_text),
        ) == (c, Seq::<RowV>::empty()),
{
    let e = dep_element(dep_name, dep_attrs, gov_name, gov_attrs, gov_text, dnt_name, dnt_attrs, dnt_text);
    let s = c.tag_stack;
    let c1 = ContextV { tag_stack: s.push(dep_name), ..c };
    let c2 = ContextV { tag_stack: s.push(dep_name).push(gov_name), ..c };
    let c3 = ContextV { tag_stack: s.push(dep_name).push(dnt_name), ..c };
    assert(s.push(dep_name).push(gov_name).drop_last() =~= s.push(dep_name));
    assert(s.push(dep_name).push(dnt_name).drop_last() =~= s.push(dep_name));
    assert(s.push(dep_name).drop_last() =~= s);
    let none = Seq::<RowV>::empty();
    assert(none + none =~= none);
    assert(e.take(0).len() == 0);
    assert(run(c, e.take(0)) == (c, none));
    assert(e.take(1) =~= e.take(0).push(e[0]));
    lemma_run_push(c, e.take(0), e[0]);
    assert(run(c, e.take(1)) == (c1, none));
    assert(e.take(2) =~= e.take(1).push(e[1]));
    lemma_run_push(c, e.take(1), e[1]);
    assert(run(c, e.take(2)) == (c2, none));
    assert(e.take(3) =~= e.take(2).push(e[2]));
    lemma_run_push(c, e.take(2), e[2]);
    assert(run(c, e.take(3)) == (c2, none));
    assert(e.take(4) =~= e.take(3).push(e[3]));
    lemma_run_push(c, e.take(3), e[3]);
    assert(run(c, e.take(4)) == (c1, none));
    assert(e.take(5) =~= e.take(4).push(e[4]));
    lemma_run_push(c, e.take(4), e[4]);
    assert(run(c, e.take(5)) == (c3, none));
    assert(e.take(6) =~= e.take(5).push(e[5]));
    lemma_run_push(c, e.take(5), e[5]);
    assert(run(c, e.take(6)) == (c3, none));
    assert(e.take(7) =~= e.take(6).push(e[6]));
    lemma_run_push(c, e.take(6), e[6]);
    assert(run(c, e.take(7)) == (c1, none));
    assert(e.take(8) =~= e.take(7).push(e[7]));
    lemma_run_push(c, e.take(7), e[7]);
    assert(run(c, e.take(8)) == (c, none));
    assert(e.take(8) =~= e);
}

/// Adding a `dep` element at any point of a document where the designated
/// block is not open (inside another dependency block, say) leaves every
/// emitted row, of every table, as it was.
pub proof fn lemma_foreign_dep_adds_no_row(
    before: Seq<EventV>,
    after: Seq<EventV>,
    dep_name: Seq<char>,
    dep_attrs: Seq<(Seq<char>, Seq<char>)>,
    gov_name: Seq<char>,
    gov_attrs: Seq<(Seq<char>, Seq<char>)>,
    gov_text: Seq<char>,
    dnt_name: Seq<char>,
    dnt_attrs: Seq<(Seq<char>, Seq<char>)>,
    dnt_text: Seq<char>,
)
    requires
        !inside_dependency_block(before),
        kind_of(dep_name) == TagKind::Dep,
        kind_of(gov_name) == TagKind::Governor,
        kind_of(dnt_name) == TagKind::Dependent,
    ensures
        run(
            initial_context(),
            before + dep_element(
                dep_name,
                dep_attrs,
                gov_name,
                gov_attrs,
                gov_text,
                dnt_name,
                dnt_attrs,
                dnt_text,
            ) + after,
        ) == run(initial_context(), before + after),
{
    let e = dep_element(dep_name, dep_attrs, gov_name, gov_attrs, gov_text, dnt_name, dnt_attrs, dnt_text);
    lemma_block_flag(before);
    let (ca, rows_a) = run(initial_context(), before);
    lemma_foreign_dep_is_inert(ca, dep_name, dep_attrs, gov_name, gov_attrs, gov_text, dnt_name, dnt_attrs, dnt_text);
    lemma_run_concat(initial_context(), before, e);
    assert(rows_a + Seq::<RowV>::empty() =~= rows_a);
    lemma_run_concat(initial_context(), before + e, after);
    lemma_run_concat(initial_context(), before, after);
}

/// The row of a `dep` element in sentence `sid`, from its own attributes and
/// texts; a missing attribute gives the empty string.
pub open spec fn dep_row(
    sid: Seq<char>,
    dep_attrs: Seq<(Seq<char>, Seq<char>)>,
    gov_attrs: Seq<(Seq<char>, Seq<char>)>,
    gov_text: Seq<char>,
    dnt_attrs: Seq<(Seq<char>, Seq<char>)>,
    dnt_text: Seq<char>,
) -> RowV {
    RowV::Dependency(
        DependencyRowV {
            sentence_id: sid,
            relation_type: attr_or_empty(dep_attrs, "type"@),
            governor_word: gov_text,
            governor_index: attr_or_empty(gov_attrs, "idx"@),
            dependent_word: dnt_text,
            dependent_index: attr_or_empty(dnt_attrs, "idx"@),
        },
    )
}

/// Inside the designated block, with both index slots empty (as they are at the
/// start and after every emitted edge), a whole `dep` element yields exactly one
/// row, built from this element alone: the context's sentence id, its own
/// attributes and texts, and the empty string for each attribute it lacks.
pub proof fn lemma_dep_row_from_own_fields(
    c: ContextV,
    dep_name: Seq<char>,
    dep_attrs: Seq<(Seq<char>, Seq<char>)>,
    gov_name: Seq<char>,
    gov_attrs: Seq<(Seq<char>, Seq<char>)>,
    gov_text: Seq<char>,
    dnt_name: Seq<char>,
    dnt_attrs: Seq<(Seq<char>, Seq<char>)>,
    dnt_text: Seq<char>,
)
    requires
        c.in_dependency_block,
        c.governor_idx.len() == 0,
        c.dependent_idx.len() == 0,
        kind_of(dep_name) == TagKind::Dep,
        kind_of(gov_name) == TagKind::Governor,
        kind_of(dnt_name) == TagKind::Dependent,
    ensures
        run(
            c,
            dep_element(dep_name, dep_attrs, gov_name, gov_attrs, gov_text, dnt_name, dnt_attrs, dnt_text),
        ).0.in_dependency_block,
        run(
            c,
            dep_element(dep_name, dep_attrs, gov_name, gov_attrs, gov_text, dnt_name, dnt_attrs, dnt_text),
        ).0.governor_idx.len() == 0,
        run(
            c,
            dep_element(dep_name, dep_attrs, gov_name, gov_attrs, gov_text, dnt_name, dnt_attrs, dnt_text),
        ).0.dependent_idx.len() == 0,
        run(
            c,
            dep_element(dep_name, dep_attrs, gov_name, gov_attrs, gov_text, dnt_name, dnt_attrs, dnt_text),
        ).0.sentence_id == c.sentence_id,
        run(
            c,
            dep_element(dep_name, dep_attrs, gov_name, gov_attrs, gov_text, dnt_name, dnt_attrs, dnt_text),
        ).1 == seq![dep_row(c.sentence_id, dep_attrs, gov_attrs, gov_text, dnt_attrs, dnt_text)],
{
    let e = dep_element(dep_name, dep_attrs, gov_name, gov_attrs, gov_text, dnt_name, dnt_attrs, dnt_text);
    let none = Seq::<RowV>::empty();
    assert(none + none =~= none);
    assert(c.governor_idx =~= Seq::<char>::empty());
    assert(c.dependent_idx =~= Seq::<char>::empty());
    assert(c.tag_stack.push(dep_name).push(gov_name).drop_last() =~= c.tag_stack.push(dep_name));
    assert(c.tag_stack.push(dep_name).push(dnt_name).drop_last() =~= c.tag_stack.push(dep_name));
    assert(e.take(0).len() == 0);
    assert(run(c, e.take(0)) == (c, none));
    assert(e.take(1) =~= e.take(0).push(e[0]));
    lemma_run_push(c, e.take(0), e[0]);
    assert(e.take(2) =~= e.take(1).push(e[1]));
    lemma_run_push(c, e.take(1), e[1]);
    assert(e.take(3) =~= e.take(2).push(e[2]));
    lemma_run_push(c, e.take(2), e[2]);
    assert(e.take(4) =~= e.take(3).push(e[3]));
    lemma_run_push(c, e.take(3), e[3]);
    assert(e.take(5) =~= e.take(4).push(e[4]));
    lemma_run_push(c, e.take(4), e[4]);
    assert(e.take(6) =~= e.take(5).push(e[5]));
    lemma_run_push(c, e.take(5), e[5]);
    assert(e.take(7) =~= e.take(6).push(e[6]));
    lemma_run_push(c, e.take(6), e[6]);
    assert(run(c, e.take(7)).1 == none);
    assert(e.take(8) =~= e.take(7).push(e[7]));
    lemma_run_push(c, e.take(7), e[7]);
    assert(e.take(8) =~= e);
    assert(none + seq![step(run(c, e.take(7)).0, e[7]).1->Some_0] =~= seq![
        step(run(c, e.take(7)).0, e[7]).1->Some_0,
    ]);
}

/// Two consecutive `dep` elements of the designated block: the second row
/// holds only the second element's values (the empty string where it lacks an
/// attribute), never a value of the first, and both carry the sentence id.
pub proof fn lemma_consecutive_deps_share_nothing(
    c: ContextV,
    first: Seq<EventV>,
    second: Seq<EventV>,
    names: (Seq<char>, Seq<char>, Seq<char>),
    a1: (Seq<(Seq<char>, Seq<char>)>, Seq<(Seq<char>, Seq<char>)>, Seq<(Seq<char>, Seq<char>)>),
    t1: (Seq<char>, Seq<char>),
    a2: (Seq<(Seq<char>, Seq<char>)>, Seq<(Seq<char>, Seq<char>)>, Seq<(Seq<char>, Seq<char>)>),
    t2: (Seq<char>, Seq<char>),
)
    requires
        c.in_dependency_block,
        c.governor_idx.len() == 0,
        c.dependent_idx.len() == 0,
        kind_of(names.0) == TagKind::Dep,
        kind_of(names.1) == TagKind::Governor,
        kind_of(names.2) == TagKind::Dependent,
        first == dep_element(names.0, a1.0, names.1, a1.1, t1.0, names.2, a1.2, t1.1),
        second == dep_element(names.0, a2.0, names.1, a2.1, t2.0, names.2, a2.2, t2.1),
    ensures
        run(c, first + second).1 == seq![
            dep_row(c.sentence_id, a1.0, a1.1, t1.0, a1.2, t1.1),
            dep_row(c.sentence_id, a2.0, a2.1, t2.0, a2.2, t2.1),
        ],
{
    lemma_dep_row_from_own_fields(c, names.0, a1.0, names.1, a1.1, t1.0, names.2, a1.2, t1.1);
    let c1 = run(c, first).0;
    lemma_dep_row_from_own_fields(c1, names.0, a2.0, names.1, a2.1, t2.0, names.2, a2.2, t2.1);
    lemma_run_concat(c, first, second);
    assert(run(c, first + second).1 =~= seq![
        dep_row(c.sentence_id, a1.0, a1.1, t1.0, a1.2, t1.1),
        dep_row(c.sentence_id, a2.0, a2.1, t2.0, a2.2, t2.1),
    ]);
}

/// The sentence id in force after `events`: that of the last `sentence` opened
/// with an `id`, or empty once a `sentence` has closed since.
pub open spec fn current_sentence(events: Seq<EventV>) -> Seq<char>
    decreases events.len(),
{
    if events.len() == 0 {
        Seq::empty()
    } else {
        match events.last() {
            EventV::Opened { name, attributes } => if kind_of(name) == TagKind::Sentence
                && find_attr(attributes, "id"@) is Some {
                find_attr(attributes, "id"@)->Some_0
            } else {
                current_sentence(events.drop_last())
            },
            EventV::Closed { name } => if kind_of(name) == TagKind::Sentence {
                Seq::empty()
            } else {
                current_sentence(events.drop_last())
            },
            _ => current_sentence(events.drop_last()),
        }
    }
}

/// The (sentence id, token id) pair of the token open after `events`: taken
/// when the last `token` with an `id` opened; empty once a `token` has closed since.
pub open spec fn open_token_ids(events: Seq<EventV>) -> (Seq<char>, Seq<char>)
    decreases events.len(),
{
    if events.len() == 0 {
        (Seq::empty(), Seq::empty())
    } else {
        match events.last() {
            EventV::Opened { name, attributes } => if kind_of(name) == TagKind::Token
                && find_attr(attributes, "id"@) is Some {
                (current_sentence(events.drop_last()), find_attr(attributes, "id"@)->Some_0)
            } else {
                open_token_ids(events.drop_last())
            },
            EventV::Closed { name } => if kind_of(name) == TagKind::Token {
                (Seq::empty(), Seq::empty())
            } else {
                open_token_ids(events.drop_last())
            },
            _ => open_token_ids(events.drop_last()),
        }
    }
}

/// The representative flag of the mention open after `events`: set when the
/// last `mention` opened; empty once a `mention` has closed since.
pub open spec fn open_mention_flag(events: Seq<EventV>) -> Seq<char>
    decreases events.len(),
{
    if events.len() == 0 {
        Seq::empty()
    } else {
        match events.last() {
            EventV::Opened { name, attributes } => if kind_of(name) == TagKind::Mention {
                representative_flag(attributes)
            } else {
                open_mention_flag(events.drop_last())
            },
            EventV::Closed { name } => if kind_of(name) == TagKind::Mention {
                Seq::empty()
            } else {
                open_mention_flag(events.drop_last())
            },
            _ => open_mention_flag(events.drop_last()),
        }
    }
}

/// Over a whole document, the context's sentence id, token ids and mention
/// flag are those that the events so far put in force.
pub proof fn lemma_ids_in_force(events: Seq<EventV>)
    ensures
        run(initial_context(), events).0.sentence_id == current_sentence(events),
        (run(initial_context(), events).0.token.sentence_id, run(
            initial_context(),
            events,
        ).0.token.token_id) == open_token_ids(events),
        run(initial_context(), events).0.mention.is_representative == open_mention_flag(events),
    decreases events.len(),
{
    if events.len() > 0 {
        lemma_ids_in_force(events.drop_last());
    }
}

/// Every token row of a document pairs the sentence id in force when its
/// token opened with that token's own `id`; every mention row carries the
/// flag read from its own `representative` attribute.
pub proof fn lemma_rows_carry_their_ids(events: Seq<EventV>, e: EventV)
    ensures
        closes(e, TagKind::Token) ==> project(events.push(e)) == project(events).push(
            RowV::Token(run(initial_context(), events).0.token),
        ) && run(initial_context(), events).0.token.sentence_id == open_token_ids(events).0
            && run(initial_context(), events).0.token.token_id == open_token_ids(events).1,
        closes(e, TagKind::Mention) ==> project(events.push(e)) == project(events).push(
            RowV::Mention(run(initial_context(), events).0.mention),
        ) && run(initial_context(), events).0.mention.is_representative == open_mention_flag(
            events,
        ),
{
    lemma_ids_in_force(events);
    lemma_run_push(initial_context(), events, e);
    let rows = run(initial_context(), events).1;
    let c = run(initial_context(), events).0;
    assert(rows + seq![RowV::Token(c.token)] =~= rows.push(RowV::Token(c.token)));
    assert(rows + seq![RowV::Mention(c.mention)] =~= rows.push(RowV::Mention(c.mention)));
}

/// Whether `e`, arriving after `events`, is text for a field of kind `k`: the
/// innermost open element is of that kind.
pub open spec fn text_for(events: Seq<EventV>, e: EventV, k: TagKind) -> bool {
    let stack = run(initial_context(), events).0.tag_stack;
    e is Text && stack.len() > 0 && kind_of(stack.last()) == k
}

/// The token field that text inside an element of kind `k` fills.
pub open spec fn token_field(t: TokenRowV, k: TagKind) -> Seq<char> {
    match k {
        TagKind::Word => t.word,
        TagKind::Lemma => t.lemma,
        TagKind::OffsetBegin => t.char_offset_begin,
        TagKind::OffsetEnd => t.char_offset_end,
        TagKind::PartOfSpeech => t.part_of_speech,
        _ => t.named_entity_tag,
    }
}

/// The mention field that text inside an element of kind `k` fills.
pub open spec fn mention_field(m: MentionRowV, k: TagKind) -> Seq<char> {
    match k {
        TagKind::Sentence => m.sentence_id,
        TagKind::Start => m.start,
        TagKind::End => m.end,
        _ => m.head,
    }
}

/// Whether text of kind `k` arrived since the current token record began (a
/// `token` with an `id` opened) or the last one was emitted (a `token` closed).
pub open spec fn token_field_written(events: Seq<EventV>, k: TagKind) -> bool
    decreases events.len(),
{
    if events.len() == 0 {
        false
    } else {
        let e = events.last();
        let rest = events.drop_last();
        if closes(e, TagKind::Token) {
            false
        } else if e matches EventV::Opened { name, attributes } && kind_of(name) == TagKind::Token
            && find_attr(attributes, "id"@) is Some {
            false
        } else if text_for(rest, e, k) {
            true
        } else {
            token_field_written(rest, k)
        }
    }
}

/// Whether text of kind `k` arrived since the current mention opened or the
/// last one was emitted.
pub open spec fn mention_field_written(events: Seq<EventV>, k: TagKind) -> bool
    decreases events.len(),
{
    if events.len() == 0 {
        false
    } else {
        let e = events.last();
        let rest = events.drop_last();
        if closes(e, TagKind::Mention) || opens(e, TagKind::Mention) {
            false
        } else if text_for(rest, e, k) {
            true
        } else {
            mention_field_written(rest, k)
        }
    }
}

pub open spec fn is_token_field(k: TagKind) -> bool {
    k == TagKind::Word || k == TagKind::Lemma || k == TagKind::OffsetBegin || k
        == TagKind::OffsetEnd || k == TagKind::PartOfSpeech || k == TagKind::NamedEntity
}

pub open spec fn is_mention_field(k: TagKind) -> bool {
    k == TagKind::Sentence || k == TagKind::Start || k == TagKind::End || k == TagKind::Head
}

/// Over a whole document, a token or mention field holds the empty string
/// unless its text arrived after the record began: a record that lacks a field
/// never shows a value of an earlier record.
pub proof fn lemma_missing_field_is_empty(events: Seq<EventV>, k: TagKind)
    ensures
        is_token_field(k) && !token_field_written(events, k) ==> token_field(
            run(initial_context(), events).0.token,
            k,
        ).len() == 0,
        is_mention_field(k) && !mention_field_written(events, k) ==> mention_field(
            run(initial_context(), events).0.mention,
            k,
        ).len() == 0,
    decreases events.len(),
{
    if events.len() > 0 {
        lemma_missing_field_is_empty(events.drop_last(), k);
    }
}

} // verus!
