use vstd::prelude::*;

use crate::document::Category;
use crate::document::bucket;
use crate::document::index_lookup;
use crate::document::spec_implements_list;
use crate::document::spec_is_tmi;
use crate::markdown::spec_anchor_tag;
use crate::markdown::spec_item_md;
use crate::markdown::spec_process_docs;
use crate::model::DocV;
use crate::model::GenericArgsV;
use crate::model::ItemKindV;
use crate::model::ItemV;
use crate::model::TypeExprV;
use crate::render::spec_render_args;
use crate::render::spec_render_type;
use crate::text::contains_seq;
use crate::text::insert_sorted;
use crate::text::lex_lt;
use crate::text::lex_lt_from;
use crate::text::lower_of;
use crate::text::match_at;
use crate::text::sort_dedup;
use crate::text::spec_replace;
use crate::text::spec_replace_scan;

verus! {

// ---------------------------------------------------------------------------
// Classification stability: the buckets are a function of the index
// value alone, so re-running classification yields the same buckets in
// the same order.
// ---------------------------------------------------------------------------

/// Two classification passes over the same index give the same bucket
/// for every category.
pub proof fn lemma_classification_stable(
    index: Seq<(Seq<char>, ItemV)>,
    c: Category,
    b1: Seq<(Seq<char>, ItemV)>,
    b2: Seq<(Seq<char>, ItemV)>,
)
    requires
        b1 == bucket(index, c),
        b2 == bucket(index, c),
    ensures
        b1 == b2,
{
}

// ---------------------------------------------------------------------------
// Renderer totality: `spec_render_type` is a total function of the
// grammar, so the executable renderer returns a text for every value.
// The edge cases pin the two fixed shapes down.
// ---------------------------------------------------------------------------

/// An empty tuple renders as `()`, and an empty angle-bracketed
/// argument list emits no angle brackets at all.
pub proof fn lemma_renderer_totality_edges()
    ensures
        spec_render_type(TypeExprV::Tuple { elems: Seq::empty() }) == "()"@,
        spec_render_args(
            GenericArgsV::AngleBracketed { args: Seq::empty(), bindings: Seq::empty() },
        ) == Seq::<char>::empty(),
{
}

// ---------------------------------------------------------------------------
// Deduplication idempotence: the "Implements" list of a struct or enum
// holds no name twice, however many duplicate impl entries feed it.
// ---------------------------------------------------------------------------

pub open spec fn strictly_sorted(s: Seq<Seq<char>>) -> bool {
    forall|i: int, j: int| 0 <= i < j < s.len() ==> lex_lt(s[i], s[j])
}

proof fn lemma_lex_irrefl(a: Seq<char>, i: int)
    ensures
        !lex_lt_from(a, a, i),
    decreases a.len() - i,
{
    if i < a.len() {
        lemma_lex_irrefl(a, i + 1);
    }
}

proof fn lemma_lex_trans(a: Seq<char>, b: Seq<char>, c: Seq<char>, i: int)
    requires
        lex_lt_from(a, b, i),
        lex_lt_from(b, c, i),
    ensures
        lex_lt_from(a, c, i),
    decreases a.len() - i,
{
    if i >= a.len() {
    } else if a[i] != b[i] {
    } else if b[i] != c[i] {
    } else {
        lemma_lex_trans(a, b, c, i + 1);
    }
}

proof fn lemma_lex_total(a: Seq<char>, b: Seq<char>, i: int)
    requires
        0 <= i <= a.len(),
        i <= b.len(),
    ensures
        lex_lt_from(a, b, i) || lex_lt_from(b, a, i) || a.subrange(i, a.len() as int)
            =~= b.subrange(i, b.len() as int),
    decreases a.len() - i,
{
    if i >= a.len() && i >= b.len() {
        assert(a.subrange(i, a.len() as int) =~= b.subrange(i, b.len() as int));
    } else if i >= a.len() {
        assert(lex_lt_from(a, b, i));
    } else if i >= b.len() {
        assert(lex_lt_from(b, a, i));
    } else if a[i] != b[i] {
    } else {
        lemma_lex_total(a, b, i + 1);
        if !lex_lt_from(a, b, i) && !lex_lt_from(b, a, i) {
            assert(a.subrange(i + 1, a.len() as int) =~= b.subrange(i + 1, b.len() as int));
            assert(a.subrange(i, a.len() as int) =~= seq![a[i]] + a.subrange(i + 1, a.len() as int));
            assert(b.subrange(i, b.len() as int) =~= seq![b[i]] + b.subrange(i + 1, b.len() as int));
            assert(a.subrange(i, a.len() as int) =~= b.subrange(i, b.len() as int));
        }
    }
}

/// For distinct sequences one of the two strict orders holds.
proof fn lemma_lex_connected(a: Seq<char>, b: Seq<char>)
    requires
        a != b,
    ensures
        lex_lt(a, b) || lex_lt(b, a),
{
    lemma_lex_total(a, b, 0);
    if !lex_lt(a, b) && !lex_lt(b, a) {
        assert(a.subrange(0, a.len() as int) =~= a);
        assert(b.subrange(0, b.len() as int) =~= b);
        assert(a =~= b);
    }
}

/// Every element of an insertion result is the inserted name or one of
/// the old elements.
proof fn lemma_insert_elements(x: Seq<char>, s: Seq<Seq<char>>, k: int)
    requires
        0 <= k < insert_sorted(x, s).len(),
    ensures
        insert_sorted(x, s)[k] == x || exists|m: int|
            0 <= m < s.len() && s[m] == insert_sorted(x, s)[k],
    decreases s.len(),
{
    if s.len() == 0 {
    } else if x == s[0] {
        assert(s[k] == insert_sorted(x, s)[k]);
    } else if lex_lt(x, s[0]) {
        if k > 0 {
            assert(s[k - 1] == insert_sorted(x, s)[k]);
        }
    } else {
        if k == 0 {
            assert(s[0] == insert_sorted(x, s)[0]);
        } else {
            let rest = s.subrange(1, s.len() as int);
            lemma_insert_elements(x, rest, k - 1);
            if insert_sorted(x, rest)[k - 1] != x {
                let m = choose|m: int|
                    0 <= m < rest.len() && rest[m] == insert_sorted(x, rest)[k - 1];
                assert(s[m + 1] == insert_sorted(x, s)[k]);
            }
        }
    }
}

proof fn lemma_insert_sorted_sorted(x: Seq<char>, s: Seq<Seq<char>>)
    requires
        strictly_sorted(s),
    ensures
        strictly_sorted(insert_sorted(x, s)),
    decreases s.len(),
{
    let r = insert_sorted(x, s);
    if s.len() == 0 {
    } else if x == s[0] {
    } else if lex_lt(x, s[0]) {
        assert forall|i: int, j: int| 0 <= i < j < r.len() implies lex_lt(r[i], r[j]) by {
            if i == 0 {
                if j == 1 {
                } else {
                    assert(lex_lt(s[0], s[j - 1]));
                    lemma_lex_trans(x, s[0], s[j - 1], 0);
                }
            }
        }
    } else {
        let rest = s.subrange(1, s.len() as int);
        assert(strictly_sorted(rest));
        lemma_insert_sorted_sorted(x, rest);
        lemma_lex_connected(x, s[0]);
        assert(lex_lt(s[0], x));
        assert forall|i: int, j: int| 0 <= i < j < r.len() implies lex_lt(r[i], r[j]) by {
            if i == 0 {
                lemma_insert_elements(x, rest, j - 1);
                if insert_sorted(x, rest)[j - 1] == x {
                } else {
                    let m = choose|m: int|
                        0 <= m < rest.len() && rest[m] == insert_sorted(x, rest)[j - 1];
                    assert(lex_lt(s[0], s[m + 1]));
                }
            } else {
                assert(insert_sorted(x, rest)[i - 1] == r[i]);
                assert(insert_sorted(x, rest)[j - 1] == r[j]);
            }
        }
    }
}

proof fn lemma_sort_dedup_sorted(s: Seq<Seq<char>>)
    ensures
        strictly_sorted(sort_dedup(s)),
    decreases s.len(),
{
    if s.len() > 0 {
        lemma_sort_dedup_sorted(s.subrange(1, s.len() as int));
        lemma_insert_sorted_sorted(s[0], sort_dedup(s.subrange(1, s.len() as int)));
    }
}

/// The "Implements" list of a struct or enum item holds no duplicate
/// trait names, whatever duplicate impl entries stand in the index.
pub proof fn lemma_implements_no_duplicates(
    index: Seq<(Seq<char>, ItemV)>,
    ids: Seq<Seq<char>>,
    i: int,
    j: int,
)
    requires
        0 <= i < j < spec_implements_list(index, ids).len(),
    ensures
        spec_implements_list(index, ids)[i] != spec_implements_list(index, ids)[j],
{
    let l = spec_implements_list(index, ids);
    lemma_sort_dedup_sorted(crate::document::spec_collect_traits(index, ids, 0));
    assert(lex_lt(l[i], l[j]));
    if l[i] == l[j] {
        lemma_lex_irrefl(l[i], 0);
    }
}

// ---------------------------------------------------------------------------
// Skip consistency: an item flagged as a trait-method implementation
// renders nothing, so it appears in no section of the output, and in
// particular never as an independent top-level function.
// ---------------------------------------------------------------------------

pub proof fn lemma_skip_consistency(d: DocV, item: ItemV)
    requires
        spec_is_tmi(d, item),
    ensures
        spec_item_md(d, item) == Seq::<char>::empty(),
{
    assert(item.kind matches Some(ItemKindV::Function { .. }));
    assert(item.name is Some);
}

// ---------------------------------------------------------------------------
// Cross-reference rewrite: a documentation text that holds a known link
// key, whose target resolves to a named struct item, is rewritten to
// hold the Markdown link with the `struct` anchor tag.
// ---------------------------------------------------------------------------

proof fn lemma_match_at_shift(c: char, x: Seq<char>, p: Seq<char>, m: int)
    requires
        match_at(x, p, m),
    ensures
        match_at(seq![c] + x, p, m + 1),
{
    assert((seq![c] + x).subrange(m + 1, m + 1 + p.len()) =~= x.subrange(m, m + p.len()));
}

proof fn lemma_replace_scan_contains(s: Seq<char>, pat: Seq<char>, to: Seq<char>)
    requires
        pat.len() > 0,
        contains_seq(s, pat),
    ensures
        contains_seq(spec_replace_scan(s, pat, to), to),
    decreases s.len(),
{
    let k = choose|k: int| match_at(s, pat, k);
    assert(s.len() > 0);
    if match_at(s, pat, 0) {
        let r = spec_replace_scan(s, pat, to);
        assert(r.subrange(0, to.len() as int) =~= to);
        assert(match_at(r, to, 0));
    } else {
        assert(k > 0);
        let tail = s.subrange(1, s.len() as int);
        assert(tail.subrange(k - 1, k - 1 + pat.len()) =~= s.subrange(k, k + pat.len()));
        assert(match_at(tail, pat, k - 1));
        lemma_replace_scan_contains(tail, pat, to);
        let m = choose|m: int| match_at(spec_replace_scan(tail, pat, to), to, m);
        lemma_match_at_shift(s[0], spec_replace_scan(tail, pat, to), to, m);
        assert(spec_replace_scan(s, pat, to) == seq![s[0]] + spec_replace_scan(tail, pat, to));
    }
}

/// Replacing a non-empty pattern that occurs in a text leaves at least
/// one occurrence of the replacement in the result.
pub proof fn lemma_replace_contains(s: Seq<char>, pat: Seq<char>, to: Seq<char>)
    requires
        pat.len() > 0,
        contains_seq(s, pat),
    ensures
        contains_seq(spec_replace(s, pat, to), to),
{
    lemma_replace_scan_contains(s, pat, to);
}

/// A documentation text holding a known link key, whose sole link
/// target resolves to a named struct item, is rewritten to hold the
/// Markdown link anchored with the `struct` tag.
pub proof fn lemma_cross_reference_rewrite(
    d: DocV,
    item: ItemV,
    docs: Seq<char>,
    text: Seq<char>,
    target: Seq<char>,
    tn: Seq<char>,
)
    requires
        item.links =~= seq![(text, target)],
        text.len() > 0,
        contains_seq(docs, text),
        index_lookup(d.index, target) matches Some(it) && it.name == Some(tn) && it.kind matches Some(
            ItemKindV::Struct { .. },
        ),
    ensures
        contains_seq(
            spec_process_docs(d, item, docs),
            "["@ + text + "](#"@ + lower_of(tn) + "-struct)"@,
        ),
{
    let it = index_lookup(d.index, target)->0;
    let repl = "["@ + text + "](#"@ + lower_of(tn) + "-"@ + spec_anchor_tag(it) + ")"@;
    reveal_with_fuel(crate::markdown::spec_process_links, 3);
    assert(item.links.len() == 1);
    assert(item.links[0] == (text, target));
    assert(crate::markdown::spec_apply_link(d.index, docs, text, target) == spec_replace(
        docs,
        text,
        repl,
    ));
    assert(crate::markdown::spec_process_links(d.index, item.links, 1, spec_replace(
        docs,
        text,
        repl,
    )) == spec_replace(docs, text, repl));
    assert(spec_process_docs(d, item, docs) == spec_replace(docs, text, repl));
    lemma_replace_contains(docs, text, repl);
    reveal_strlit("-");
    reveal_strlit("struct");
    reveal_strlit(")");
    reveal_strlit("-struct)");
    assert(spec_anchor_tag(it) == "struct"@);
    assert("-"@ + "struct"@ + ")"@ =~= "-struct)"@);
    assert(repl =~= "["@ + text + "](#"@ + lower_of(tn) + "-struct)"@);
}

} // verus!
