use vstd::prelude::*;
use vstd::string::StringExecFns;

use crate::model::DocV;
use crate::model::ItemKind;
use crate::model::ItemKindV;
use crate::model::ItemV;
use crate::model::RustDoc;
use crate::model::RustDocItem;
use crate::model::lemma_view_index_index;
use crate::model::lemma_view_strings_index;
use crate::model::view_index;
use crate::model::view_item;
use crate::model::view_strings;
use crate::text::spec_starts_with;
use crate::text::sort_dedup;
use crate::text::sort_dedup_strings;
use crate::text::str_eq;
use crate::text::str_starts_with;

verus! {

// ---------------------------------------------------------------------------
// Index lookups.
// ---------------------------------------------------------------------------

/// Resolves an identifier in the index, first match wins; entries are
/// unique in a well-formed index.
pub open spec fn index_lookup(index: Seq<(Seq<char>, ItemV)>, key: Seq<char>) -> Option<ItemV>
    decreases index.len(),
{
    if index.len() == 0 {
        None
    } else if index[0].0 == key {
        Some(index[0].1)
    } else {
        index_lookup(index.subrange(1, index.len() as int), key)
    }
}

proof fn lemma_index_lookup_skip(index: Seq<(Seq<char>, ItemV)>, key: Seq<char>, i: int)
    requires
        0 <= i <= index.len(),
        forall|k: int| 0 <= k < i ==> index[k].0 != key,
    ensures
        index_lookup(index, key) == index_lookup(index.subrange(i, index.len() as int), key),
    decreases i,
{
    if i == 0 {
        assert(index.subrange(0, index.len() as int) =~= index);
    } else {
        assert(index[0].0 != key);
        lemma_index_lookup_skip(index.subrange(1, index.len() as int), key, i - 1);
        assert(index.subrange(1, index.len() as int).subrange(i - 1, index.len() - 1)
            =~= index.subrange(i, index.len() as int));
    }
}

/// Looks an item up by identifier.
#[verifier::loop_isolation(false)]
pub fn index_get<'a>(index: &'a Vec<(String, RustDocItem)>, key: &str) -> (r: Option<
    &'a RustDocItem,
>)
    ensures
        match r {
            Some(it) => index_lookup(view_index(index@), key@) == Some(it.deep_view()),
            None => index_lookup(view_index(index@), key@) is None,
        },
{
    let ghost g = view_index(index@);
    proof {
        lemma_view_index_index(index@);
    }
    let n = index.len();
    let mut i: usize = 0;
    while i < n
        invariant
            n == index@.len(),
            g == view_index(index@),
            g.len() == n,
            forall|k: int| 0 <= k < n ==> g[k] == (index@[k].0@, view_item(index@[k].1)),
            0 <= i <= n,
            forall|k: int| 0 <= k < i ==> g[k].0 != key@,
        decreases n - i,
    {
        if str_eq(index[i].0.as_str(), key) {
            proof {
                lemma_index_lookup_skip(g, key@, i as int);
                assert(g.subrange(i as int, n as int)[0] == g[i as int]);
                assert(index_lookup(g.subrange(i as int, n as int), key@) == Some(g[i as int].1));
            }
            return Some(&index[i].1);
        }
        i += 1;
    }
    proof {
        lemma_index_lookup_skip(g, key@, n as int);
        assert(g.subrange(n as int, n as int).len() == 0);
    }
    None
}

// ---------------------------------------------------------------------------
// Classification.
//
// Items of the primary crate, recognized by the `0:` origin prefix of
// their identifiers, fall into one bucket each; an item with neither a
// name nor an impl payload is discarded before classification. With the
// kind decided once at decoding time, the classification priority —
// function before enum before trait before named impl before struct
// before enum variant — is the match on the kind payload.
// ---------------------------------------------------------------------------

/// The display category of an item.
#[derive(Clone, Copy, PartialEq, Eq, Structural, Debug)]
pub enum Category {
    Functions,
    Structs,
    Enums,
    Traits,
    Impls,
    EnumVariants,
    Others,
}

/// Whether an index entry takes part in the rendered document.
pub open spec fn included(e: (Seq<char>, ItemV)) -> bool {
    spec_starts_with(e.0, "0:"@) && (e.1.name is Some || e.1.kind matches Some(
        ItemKindV::Impl { .. },
    ))
}

/// The category an item falls into.
pub open spec fn cat_of(item: ItemV) -> Category {
    match item.kind {
        Some(ItemKindV::Function { .. }) => Category::Functions,
        Some(ItemKindV::Enum { .. }) => Category::Enums,
        Some(ItemKindV::Trait { .. }) => Category::Traits,
        Some(ItemKindV::Impl { .. }) => if item.name is Some {
            Category::Impls
        } else {
            Category::Others
        },
        Some(ItemKindV::Struct { .. }) => Category::Structs,
        Some(ItemKindV::Variant { .. }) => Category::EnumVariants,
        None => Category::Others,
    }
}

pub open spec fn in_cat(e: (Seq<char>, ItemV), c: Category) -> bool {
    included(e) && cat_of(e.1) == c
}

/// The ordered bucket of one category: the included entries of the
/// index that fall into it, in index order.
pub open spec fn bucket(index: Seq<(Seq<char>, ItemV)>, c: Category) -> Seq<(Seq<char>, ItemV)> {
    index.filter(|e: (Seq<char>, ItemV)| in_cat(e, c))
}

/// Decides membership of one entry in one category.
pub fn cat_matches(id: &String, item: &RustDocItem, c: Category) -> (r: bool)
    ensures
        r == in_cat((id@, item.deep_view()), c),
{
    let inc = str_starts_with(id.as_str(), "0:") && (item.name.is_some() || matches!(
        &item.kind,
        Some(ItemKind::Impl { .. })
    ));
    if !inc {
        return false;
    }
    let cat = match &item.kind {
        Some(ItemKind::Function { .. }) => Category::Functions,
        Some(ItemKind::Enum { .. }) => Category::Enums,
        Some(ItemKind::Trait { .. }) => Category::Traits,
        Some(ItemKind::Impl { .. }) => if item.name.is_some() {
            Category::Impls
        } else {
            Category::Others
        },
        Some(ItemKind::Struct { .. }) => Category::Structs,
        Some(ItemKind::Variant { .. }) => Category::EnumVariants,
        None => Category::Others,
    };
    cat == c
}

// ---------------------------------------------------------------------------
// The trait-method-implementation heuristic.
//
// An item is skipped when it looks like the implementation of a trait
// method that the trait impl block already shows. Two detection paths,
// both kept: the identifier of an item with the same name stands in the
// member list of some impl that carries a trait reference; or a trait
// declares a method with the same name and the same parameter count.
// Both are approximations of the original behaviour and are preserved
// as such.
// ---------------------------------------------------------------------------

pub open spec fn name_is(it: ItemV, n: Seq<char>) -> bool {
    it.name matches Some(m) && m == n
}

/// Whether the item is an impl with a trait reference that lists `id`
/// among its members.
pub open spec fn impl_lists_id(it: ItemV, id: Seq<char>) -> bool {
    &&& it.kind matches Some(ItemKindV::Impl { trait_ref, items, .. })
    &&& trait_ref is Some
    &&& items.contains(id)
}

pub open spec fn spec_tmi_a(index: Seq<(Seq<char>, ItemV)>, n: Seq<char>) -> bool {
    exists|i: int, k: int|
        #![trigger index[i], index[k]]
        0 <= i < index.len() && 0 <= k < index.len() && name_is(index[i].1, n) && impl_lists_id(
            index[k].1,
            index[i].0,
        )
}

pub open spec fn is_trait_kind(it: ItemV) -> bool {
    it.kind matches Some(ItemKindV::Trait { .. })
}

pub open spec fn trait_items_of(it: ItemV) -> Seq<Seq<char>> {
    match it.kind {
        Some(ItemKindV::Trait { items, .. }) => items,
        _ => Seq::empty(),
    }
}

/// Whether method `mi` of the given trait-item list resolves to a named
/// function whose name and parameter count match.
pub open spec fn trait_method_matches(
    index: Seq<(Seq<char>, ItemV)>,
    tis: Seq<Seq<char>>,
    mi: int,
    n: Seq<char>,
    arity: int,
) -> bool {
    &&& 0 <= mi < tis.len()
    &&& index_lookup(index, tis[mi]) matches Some(m)
    &&& name_is(m, n)
    &&& m.kind matches Some(ItemKindV::Function { decl })
    &&& decl.inputs.len() == arity
}

pub open spec fn spec_tmi_b(index: Seq<(Seq<char>, ItemV)>, n: Seq<char>, arity: int) -> bool {
    exists|k: int, mi: int|
        #![trigger index[k], trait_method_matches(index, trait_items_of(index[k].1), mi, n, arity)]
        0 <= k < index.len() && is_trait_kind(index[k].1) && trait_method_matches(
            index,
            trait_items_of(index[k].1),
            mi,
            n,
            arity,
        )
}

/// The skip heuristic: the item is a named function and one of the two
/// detection paths fires.
pub open spec fn spec_is_tmi(d: DocV, item: ItemV) -> bool {
    match (item.kind, item.name) {
        (Some(ItemKindV::Function { decl }), Some(n)) => spec_tmi_a(d.index, n) || spec_tmi_b(
            d.index,
            n,
            decl.inputs.len() as int,
        ),
        _ => false,
    }
}

#[verifier::loop_isolation(false)]
fn contains_string(v: &Vec<String>, s: &String) -> (r: bool)
    ensures
        r == view_strings(v@).contains(s@),
{
    proof {
        lemma_view_strings_index(v@);
    }
    let n = v.len();
    let mut i: usize = 0;
    while i < n
        invariant
            n == v@.len(),
            0 <= i <= n,
            forall|k: int| 0 <= k < i ==> view_strings(v@)[k] != s@,
        decreases n - i,
    {
        if str_eq(v[i].as_str(), s.as_str()) {
            proof {
                assert(view_strings(v@)[i as int] == s@);
            }
            return true;
        }
        i += 1;
    }
    proof {
        assert forall|k: int| 0 <= k < view_strings(v@).len() implies view_strings(v@)[k] != s@ by {
        }
    }
    false
}

fn opt_name_matches(a: &Option<String>, n: &String) -> (r: bool)
    ensures
        r == (crate::model::view_opt_str(*a) matches Some(m) && m == n@),
{
    match a {
        Some(s) => str_eq(s.as_str(), n.as_str()),
        None => false,
    }
}

/// Decides the skip heuristic for one item against the whole index.
#[verifier::loop_isolation(false)]
#[verifier::rlimit(100)]
pub fn is_trait_method_implementation(doc: &RustDoc, item: &RustDocItem) -> (r: bool)
    ensures
        r == spec_is_tmi(doc.deep_view(), item.deep_view()),
{
    let arity: usize = match &item.kind {
        Some(ItemKind::Function { decl }) => decl.inputs.len(),
        _ => {
            return false;
        },
    };
    let name: &String = match &item.name {
        Some(n) => n,
        None => {
            return false;
        },
    };
    proof {
        crate::model::lemma_view_inputs_index(item.kind->Some_0->Function_decl.inputs@);
    }
    let ghost g = view_index(doc.index@);
    proof {
        lemma_view_index_index(doc.index@);
    }
    let n_idx = doc.index.len();

    // first path: the identifier of an item with this name stands in the
    // member list of an impl with a trait reference
    let mut i: usize = 0;
    while i < n_idx
        invariant
            n_idx == doc.index@.len(),
            g == view_index(doc.index@),
            g.len() == n_idx,
            forall|k: int| 0 <= k < n_idx ==> g[k] == (doc.index@[k].0@, view_item(doc.index@[k].1)),
            0 <= i <= n_idx,
            forall|ii: int, kk: int|
                #![trigger g[ii], g[kk]]
                0 <= ii < i && 0 <= kk < n_idx ==> !(name_is(g[ii].1, name@) && impl_lists_id(
                    g[kk].1,
                    g[ii].0,
                )),
        decreases n_idx - i,
    {
        if opt_name_matches(&doc.index[i].1.name, name) {
            let mut k: usize = 0;
            while k < n_idx
                invariant
                    0 <= k <= n_idx,
                    name_is(g[i as int].1, name@),
                    forall|kk: int| 0 <= kk < k ==> !impl_lists_id(g[kk].1, g[i as int].0),
                decreases n_idx - k,
            {
                let entry = &doc.index[k].1;
                match &entry.kind {
                    Some(ItemKind::Impl { trait_ref, items, .. }) => {
                        if trait_ref.is_some() {
                            if contains_string(items, &doc.index[i].0) {
                                proof {
                                    lemma_view_strings_index(items@);
                                    assert(impl_lists_id(g[k as int].1, g[i as int].0));
                                    assert(spec_tmi_a(g, name@));
                                }
                                return true;
                            }
                        }
                    },
                    _ => {},
                }
                proof {
                    assert(!impl_lists_id(g[k as int].1, g[i as int].0)) by {
                        if impl_lists_id(g[k as int].1, g[i as int].0) {
                            lemma_view_strings_index(
                                doc.index@[k as int].1.kind->Some_0->Impl_items@,
                            );
                        }
                    }
                }
                k += 1;
            }
        }
        i += 1;
    }

    // second path: a trait declares a method with this name and the same
    // parameter count
    let mut k: usize = 0;
    while k < n_idx
        invariant
            0 <= k <= n_idx,
            forall|kk: int, mi: int|
                #![trigger g[kk], trait_method_matches(g, trait_items_of(g[kk].1), mi, name@, arity as int)]
                0 <= kk < k ==> !(is_trait_kind(g[kk].1) && trait_method_matches(
                    g,
                    trait_items_of(g[kk].1),
                    mi,
                    name@,
                    arity as int,
                )),
        decreases n_idx - k,
    {
        match &doc.index[k].1.kind {
            Some(ItemKind::Trait { items, .. }) => {
                let ghost tis = trait_items_of(g[k as int].1);
                proof {
                    lemma_view_strings_index(items@);
                    assert(tis =~= view_strings(items@));
                }
                let n_m = items.len();
                let mut mi: usize = 0;
                while mi < n_m
                    invariant
                        n_m == items@.len(),
                        tis == trait_items_of(g[k as int].1),
                        tis.len() == n_m,
                        forall|x: int| 0 <= x < n_m ==> tis[x] == items@[x]@,
                        is_trait_kind(g[k as int].1),
                        0 <= mi <= n_m,
                        forall|x: int|
                            0 <= x < mi ==> !trait_method_matches(g, tis, x, name@, arity as int),
                    decreases n_m - mi,
                {
                    match index_get(&doc.index, items[mi].as_str()) {
                        Some(m) => {
                            let m_arity_ok: bool = match &m.kind {
                                Some(ItemKind::Function { decl }) => decl.inputs.len() == arity,
                                _ => false,
                            };
                            if m_arity_ok && opt_name_matches(&m.name, name) {
                                proof {
                                    crate::model::lemma_view_inputs_index(
                                        m.kind->Some_0->Function_decl.inputs@,
                                    );
                                    assert(trait_method_matches(
                                        g,
                                        tis,
                                        mi as int,
                                        name@,
                                        arity as int,
                                    ));
                                    assert(spec_tmi_b(g, name@, arity as int));
                                }
                                return true;
                            }
                            proof {
                                crate::model::lemma_view_inputs_index(
                                    m.kind->Some_0->Function_decl.inputs@,
                                );
                                assert(!trait_method_matches(g, tis, mi as int, name@, arity as int));
                            }
                        },
                        None => {
                            proof {
                                assert(!trait_method_matches(g, tis, mi as int, name@, arity as int));
                            }
                        },
                    }
                    mi += 1;
                }
                proof {
                    assert forall|mi2: int|
                        !(is_trait_kind(g[k as int].1) && trait_method_matches(
                            g,
                            trait_items_of(g[k as int].1),
                            mi2,
                            name@,
                            arity as int,
                        )) by {
                        if 0 <= mi2 < tis.len() {
                            assert(!trait_method_matches(g, tis, mi2, name@, arity as int));
                        }
                    }
                }
            },
            _ => {
                proof {
                    assert forall|mi2: int|
                        !(is_trait_kind(g[k as int].1) && trait_method_matches(
                            g,
                            trait_items_of(g[k as int].1),
                            mi2,
                            name@,
                            arity as int,
                        )) by {}
                }
            },
        }
        k += 1;
    }
    proof {
        assert(!spec_tmi_a(g, name@));
        assert(!spec_tmi_b(g, name@, arity as int));
    }
    false
}

impl RustDocItem {
    /// The reason this item is left out of the rendered output, or
    /// nothing when it is printed: the one reason is the heuristic that
    /// flags it as the implementation of a trait method that its trait
    /// impl block already shows.
    pub fn skip(&self, doc: &RustDoc) -> (r: Option<&'static str>)
        ensures
            r is Some <==> spec_is_tmi(doc.deep_view(), self.deep_view()),
            (r matches Some(s) ==> s@
                == "trait method implementation (already shown in parent trait impl)"@),
    {
        if is_trait_method_implementation(doc, self) {
            Some("trait method implementation (already shown in parent trait impl)")
        } else {
            None
        }
    }
}

// ---------------------------------------------------------------------------
// Trait aggregation for struct and enum items.
// ---------------------------------------------------------------------------

/// The namespace text that the origin prefix of an identifier adds
/// before an aggregated trait name.
pub open spec fn origin_prefix(id: Seq<char>) -> Seq<char> {
    if spec_starts_with(id, "b:"@) {
        "std::"@
    } else if spec_starts_with(id, "a:"@) {
        "alloc::"@
    } else {
        Seq::empty()
    }
}

/// The prefixed names of the traits that the listed impls implement, in
/// list order; unresolved identifiers and impls without a trait
/// reference contribute nothing.
pub open spec fn spec_collect_traits(
    index: Seq<(Seq<char>, ItemV)>,
    ids: Seq<Seq<char>>,
    i: int,
) -> Seq<Seq<char>>
    decreases ids.len() - i,
{
    if i < 0 || i >= ids.len() {
        Seq::empty()
    } else {
        (match index_lookup(index, ids[i]) {
            Some(it) => match it.kind {
                Some(ItemKindV::Impl { trait_ref: Some(tr), .. }) => seq![
                    origin_prefix(ids[i]) + tr.name,
                ],
                _ => Seq::empty(),
            },
            None => Seq::empty(),
        }) + spec_collect_traits(index, ids, i + 1)
    }
}

/// The final "Implements" list of a struct or enum: collected trait
/// names, sorted with duplicates removed.
pub open spec fn spec_implements_list(
    index: Seq<(Seq<char>, ItemV)>,
    ids: Seq<Seq<char>>,
) -> Seq<Seq<char>> {
    sort_dedup(spec_collect_traits(index, ids, 0))
}

#[verifier::loop_isolation(false)]
fn collect_traits(index: &Vec<(String, RustDocItem)>, ids: &Vec<String>, i: usize) -> (r: Vec<
    String,
>)
    requires
        i <= ids@.len(),
    ensures
        view_strings(r@) == spec_collect_traits(view_index(index@), view_strings(ids@), i as int),
    decreases ids@.len() - i,
{
    let ghost gix = view_index(index@);
    let ghost gids = view_strings(ids@);
    proof {
        lemma_view_strings_index(ids@);
    }
    if i == ids.len() {
        let r: Vec<String> = Vec::new();
        proof {
            assert(view_strings(r@) =~= Seq::<Seq<char>>::empty());
        }
        r
    } else {
        let addition: Option<String> = match index_get(index, ids[i].as_str()) {
            Some(it) => match &it.kind {
                Some(ItemKind::Impl { trait_ref: Some(tr), .. }) => {
                    let mut t = if str_starts_with(ids[i].as_str(), "b:") {
                        String::from_str("std::")
                    } else if str_starts_with(ids[i].as_str(), "a:") {
                        String::from_str("alloc::")
                    } else {
                        String::new()
                    };
                    t.append(tr.name.as_str());
                    proof {
                        assert(t@ =~= origin_prefix(gids[i as int]) + tr.name@);
                    }
                    Some(t)
                },
                _ => None,
            },
            None => None,
        };
        let mut rest = collect_traits(index, ids, i + 1);
        match addition {
            Some(t) => {
                let ghost prev = rest@;
                rest.insert(0, t);
                proof {
                    lemma_view_strings_index(prev);
                    lemma_view_strings_index(rest@);
                    assert(view_strings(rest@) =~= seq![rest@[0]@] + view_strings(prev));
                }
                rest
            },
            None => {
                proof {
                    assert(view_strings(rest@) =~= Seq::<Seq<char>>::empty() + view_strings(
                        rest@,
                    ));
                }
                rest
            },
        }
    }
}

/// Builds the sorted, deduplicated "Implements" list for the given impl
/// identifiers.
pub fn implements_list(index: &Vec<(String, RustDocItem)>, ids: &Vec<String>) -> (r: Vec<String>)
    ensures
        view_strings(r@) == spec_implements_list(view_index(index@), view_strings(ids@)),
{
    let collected = collect_traits(index, ids, 0);
    sort_dedup_strings(collected)
}

} // verus!
