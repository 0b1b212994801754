use vstd::prelude::*;

use crate::decode::SchemaErrKind;
use crate::decode::SchemaError;
use crate::decode::SchemaErrV;
use crate::decode::mk_err;
use crate::decode::serr;
use crate::decode::spec_decode_generics_field;
use crate::decode::spec_decode_path;
use crate::decode::spec_decode_type;
use crate::decode::spec_field_bool_default;
use crate::decode::spec_field_opt_str;
use crate::decode::spec_field_req_bool;
use crate::decode::spec_field_req_str;
use crate::decode::spec_field_str_list;
use crate::decode::decode_generics_field;
use crate::decode::decode_path;
use crate::decode::decode_type;
use crate::decode::field_bool_default;
use crate::decode::field_opt_str;
use crate::decode::field_req_bool;
use crate::decode::field_req_str;
use crate::decode::field_str_list;
use crate::json::JsonV;
use crate::json::JsonValue;
use crate::json::jv_get;
use crate::json::lemma_view_json_entries_index;
use crate::json::lemma_view_json_seq_index;
use crate::json::view_json_entries;
use crate::json::view_json_seq;
use crate::model::FnDecl;
use crate::model::FnDeclV;
use crate::model::ItemKind;
use crate::model::ItemKindV;
use crate::model::ItemV;
use crate::model::RustDoc;
use crate::model::RustDocItem;
use crate::model::StructShape;
use crate::model::TraitBoundInfo;
use crate::model::TraitBoundInfoV;
use crate::model::TupleFieldInfo;
use crate::model::TupleFieldV;
use crate::model::TypeExpr;
use crate::model::VariantShape;
use crate::model::DocV;
use crate::model::lemma_view_bound_infos_index;
use crate::model::lemma_view_index_index;
use crate::model::lemma_view_inputs_index;
use crate::model::lemma_view_links_index;
use crate::model::lemma_view_tuple_fields_index;
use crate::model::view_bound_info;
use crate::model::view_bound_infos;
use crate::model::view_index;
use crate::model::view_inputs;
use crate::model::view_item;
use crate::model::view_links;
use crate::model::view_opt_str;
use crate::model::view_tuple_field;
use crate::model::view_tuple_fields;
use crate::model::view_type;

verus! {

// ---------------------------------------------------------------------------
// Item payloads. Every key present among the six kind keys is validated,
// in the order function, enum, impl, struct, trait, variant; the kind
// the item gets is then committed in the declaration order of the
// `ItemKind` variants, the classification priority of the synthesis
// pass: function, enum, trait, impl, struct, variant.
// ---------------------------------------------------------------------------

/// One `[name, type]` input pair of a function declaration.
pub open spec fn spec_decode_input_items(elems: Seq<JsonV>, i: int) -> Result<
    Seq<(Seq<char>, crate::model::TypeExprV)>,
    SchemaErrV,
>
    decreases elems.len() - i,
{
    if i < 0 || i >= elems.len() {
        Ok(Seq::empty())
    } else {
        match elems[i] {
            JsonV::Arr(pair) => {
                if pair.len() != 2 {
                    Err(serr(SchemaErrKind::FnInput, elems[i]))
                } else {
                    match pair[0] {
                        JsonV::Str(pname) => match spec_decode_type(pair[1]) {
                            Ok(t) => match spec_decode_input_items(elems, i + 1) {
                                Ok(rest) => Ok(seq![(pname, t)] + rest),
                                Err(e) => Err(e),
                            },
                            Err(e) => Err(e),
                        },
                        v => Err(serr(SchemaErrKind::FnInput, v)),
                    }
                }
            },
            v => Err(serr(SchemaErrKind::FnInput, v)),
        }
    }
}

/// The `function` payload: a declaration with named inputs, optional
/// output, and the C-variadic marker.
pub open spec fn spec_decode_fn_details(fv: JsonV) -> Result<FnDeclV, SchemaErrV> {
    if !(fv is Obj) {
        Err(serr(SchemaErrKind::Function, fv))
    } else {
        match jv_get(fv, "decl"@) {
            Option::None => Err(serr(SchemaErrKind::Function, fv)),
            Option::Some(dv) => {
                if !(dv is Obj) {
                    Err(serr(SchemaErrKind::Function, dv))
                } else {
                    match jv_get(dv, "inputs"@) {
                        Option::None => Err(serr(SchemaErrKind::Function, dv)),
                        Option::Some(JsonV::Arr(elems)) => match spec_decode_input_items(elems, 0) {
                            Err(e) => Err(e),
                            Ok(inputs) => match jv_get(dv, "output"@) {
                                Option::None => spec_decode_fn_tail(dv, inputs, None),
                                Option::Some(JsonV::Null) => spec_decode_fn_tail(dv, inputs, None),
                                Option::Some(ov) => match spec_decode_type(ov) {
                                    Ok(t) => spec_decode_fn_tail(dv, inputs, Some(t)),
                                    Err(e) => Err(e),
                                },
                            },
                        },
                        Option::Some(v) => Err(serr(SchemaErrKind::Function, v)),
                    }
                }
            },
        }
    }
}

pub open spec fn spec_decode_fn_tail(
    dv: JsonV,
    inputs: Seq<(Seq<char>, crate::model::TypeExprV)>,
    output: Option<crate::model::TypeExprV>,
) -> Result<FnDeclV, SchemaErrV> {
    match spec_field_req_bool(dv, "c_variadic"@) {
        Err(v) => Err(serr(SchemaErrKind::Function, v)),
        Ok(cv) => Ok(FnDeclV { inputs, output, c_variadic: cv }),
    }
}

/// The `enum` payload.
pub open spec fn spec_decode_enum_details(ev: JsonV) -> Result<ItemKindV, SchemaErrV> {
    if !(ev is Obj) {
        Err(serr(SchemaErrKind::EnumPayload, ev))
    } else {
        match spec_field_str_list(ev, "variants"@, true) {
            Err(v) => Err(serr(SchemaErrKind::EnumPayload, v)),
            Ok(variants) => match spec_field_str_list(ev, "impls"@, true) {
                Err(v) => Err(serr(SchemaErrKind::EnumPayload, v)),
                Ok(impls) => match spec_decode_generics_field(ev) {
                    Err(e) => Err(e),
                    Ok(generics) => Ok(ItemKindV::Enum { variants, impls, generics }),
                },
            },
        }
    }
}

/// One inline tuple-field slot of a tuple struct.
pub open spec fn spec_tuple_field_of(v: JsonV) -> TupleFieldV {
    match v {
        JsonV::Null => TupleFieldV::Null,
        JsonV::Obj(_) => match jv_get(v, "name"@) {
            Option::Some(JsonV::Str(n)) => TupleFieldV::Named { name: n },
            _ => TupleFieldV::Other,
        },
        _ => TupleFieldV::Other,
    }
}

pub open spec fn spec_tuple_fields_of(elems: Seq<JsonV>, i: int) -> Seq<TupleFieldV>
    decreases elems.len() - i,
{
    if i < 0 || i >= elems.len() {
        Seq::empty()
    } else {
        seq![spec_tuple_field_of(elems[i])] + spec_tuple_fields_of(elems, i + 1)
    }
}

/// The shape tag of a struct: a string is the unit shape, an object
/// with a `tuple` array is tuple-shaped, any other object is unknown,
/// anything else is refused.
pub open spec fn spec_decode_struct_kind(v: JsonV) -> Result<
    Option<crate::model::StructShapeV>,
    SchemaErrV,
> {
    match v {
        JsonV::Str(_) => Ok(Some(crate::model::StructShapeV::Unit)),
        JsonV::Obj(_) => match jv_get(v, "tuple"@) {
            Option::Some(JsonV::Arr(elems)) => Ok(
                Some(
                    crate::model::StructShapeV::TupleFields {
                        elems: spec_tuple_fields_of(elems, 0),
                    },
                ),
            ),
            _ => Ok(Some(crate::model::StructShapeV::Unknown)),
        },
        _ => Err(serr(SchemaErrKind::StructKind, v)),
    }
}

/// The `struct` payload.
pub open spec fn spec_decode_struct_details(sv: JsonV) -> Result<ItemKindV, SchemaErrV> {
    if !(sv is Obj) {
        Err(serr(SchemaErrKind::StructPayload, sv))
    } else {
        match spec_field_str_list(sv, "fields"@, false) {
            Err(v) => Err(serr(SchemaErrKind::StructPayload, v)),
            Ok(fields) => match spec_field_str_list(sv, "impls"@, false) {
                Err(v) => Err(serr(SchemaErrKind::StructPayload, v)),
                Ok(impls) => match spec_decode_generics_field(sv) {
                    Err(e) => Err(e),
                    Ok(generics) => match jv_get(sv, "kind"@) {
                        Option::None => Ok(
                            ItemKindV::Struct { fields, impls, generics, shape: None },
                        ),
                        Option::Some(JsonV::Null) => Ok(
                            ItemKindV::Struct { fields, impls, generics, shape: None },
                        ),
                        Option::Some(kv) => match spec_decode_struct_kind(kv) {
                            Ok(shape) => Ok(ItemKindV::Struct { fields, impls, generics, shape }),
                            Err(e) => Err(e),
                        },
                    },
                },
            },
        }
    }
}

/// One super-trait bound entry of a trait declaration.
pub open spec fn spec_decode_bound_info(v: JsonV) -> Result<TraitBoundInfoV, SchemaErrV> {
    if !(v is Obj) {
        Err(serr(SchemaErrKind::TraitPayload, v))
    } else {
        match jv_get(v, "trait_bound"@) {
            Option::None => spec_decode_bound_info_tail(v, None),
            Option::Some(JsonV::Null) => spec_decode_bound_info_tail(v, None),
            Option::Some(tv) => match crate::decode::spec_decode_trait_bound(tv) {
                Ok(tb) => spec_decode_bound_info_tail(v, Some(tb)),
                Err(e) => Err(e),
            },
        }
    }
}

pub open spec fn spec_decode_bound_info_tail(
    v: JsonV,
    tb: Option<crate::model::TraitBoundV>,
) -> Result<TraitBoundInfoV, SchemaErrV> {
    match spec_field_opt_str(v, "outlives"@) {
        Err(bad) => Err(serr(SchemaErrKind::TraitPayload, bad)),
        Ok(o) => Ok(TraitBoundInfoV { trait_bound: tb, outlives: o }),
    }
}

pub open spec fn spec_decode_bound_info_items(elems: Seq<JsonV>, i: int) -> Result<
    Seq<TraitBoundInfoV>,
    SchemaErrV,
>
    decreases elems.len() - i,
{
    if i < 0 || i >= elems.len() {
        Ok(Seq::empty())
    } else {
        match spec_decode_bound_info(elems[i]) {
            Ok(b) => match spec_decode_bound_info_items(elems, i + 1) {
                Ok(rest) => Ok(seq![b] + rest),
                Err(e) => Err(e),
            },
            Err(e) => Err(e),
        }
    }
}

/// The `trait` payload.
pub open spec fn spec_decode_trait_details(tv: JsonV) -> Result<ItemKindV, SchemaErrV> {
    if !(tv is Obj) {
        Err(serr(SchemaErrKind::TraitPayload, tv))
    } else {
        match jv_get(tv, "bounds"@) {
            Option::None => Err(serr(SchemaErrKind::TraitPayload, tv)),
            Option::Some(JsonV::Arr(elems)) => match spec_decode_bound_info_items(elems, 0) {
                Err(e) => Err(e),
                Ok(bounds) => match spec_decode_generics_field(tv) {
                    Err(e) => Err(e),
                    Ok(generics) => match spec_field_bool_default(tv, "is_unsafe"@) {
                        Err(v) => Err(serr(SchemaErrKind::TraitPayload, v)),
                        Ok(is_unsafe) => match spec_field_str_list(tv, "items"@, false) {
                            Err(v) => Err(serr(SchemaErrKind::TraitPayload, v)),
                            Ok(items) => Ok(
                                ItemKindV::Trait { bounds, generics, is_unsafe, items },
                            ),
                        },
                    },
                },
            },
            Option::Some(v) => Err(serr(SchemaErrKind::TraitPayload, v)),
        }
    }
}

/// The `impl` payload.
pub open spec fn spec_decode_impl_details(iv: JsonV) -> Result<ItemKindV, SchemaErrV> {
    if !(iv is Obj) {
        Err(serr(SchemaErrKind::ImplPayload, iv))
    } else {
        match jv_get(iv, "trait"@) {
            Option::Some(JsonV::Null) => spec_decode_impl_tail(iv, None),
            Option::None => spec_decode_impl_tail(iv, None),
            Option::Some(tv) => match spec_decode_path(tv) {
                Ok(p) => spec_decode_impl_tail(iv, Some(p)),
                Err(e) => Err(e),
            },
        }
    }
}

pub open spec fn spec_decode_impl_tail(iv: JsonV, tr: Option<crate::model::PathV>) -> Result<
    ItemKindV,
    SchemaErrV,
> {
    match jv_get(iv, "for"@) {
        Option::Some(JsonV::Null) => spec_decode_impl_tail2(iv, tr, None),
        Option::None => spec_decode_impl_tail2(iv, tr, None),
        Option::Some(fv) => match spec_decode_type(fv) {
            Ok(t) => spec_decode_impl_tail2(iv, tr, Some(t)),
            Err(e) => Err(e),
        },
    }
}

pub open spec fn spec_decode_impl_tail2(
    iv: JsonV,
    tr: Option<crate::model::PathV>,
    ft: Option<crate::model::TypeExprV>,
) -> Result<ItemKindV, SchemaErrV> {
    match spec_field_str_list(iv, "items"@, true) {
        Err(v) => Err(serr(SchemaErrKind::ImplPayload, v)),
        Ok(items) => match spec_field_req_bool(iv, "is_unsafe"@) {
            Err(v) => Err(serr(SchemaErrKind::ImplPayload, v)),
            Ok(is_unsafe) => match jv_get(iv, "blanket_impl"@) {
                Option::None => spec_decode_impl_tail3(iv, tr, ft, items, is_unsafe, None),
                Option::Some(JsonV::Null) => spec_decode_impl_tail3(
                    iv,
                    tr,
                    ft,
                    items,
                    is_unsafe,
                    None,
                ),
                Option::Some(bv) => {
                    if !(bv is Obj) {
                        Err(serr(SchemaErrKind::ImplPayload, bv))
                    } else {
                        match spec_field_req_str(bv, "generic"@) {
                            Err(v) => Err(serr(SchemaErrKind::ImplPayload, v)),
                            Ok(g) => spec_decode_impl_tail3(iv, tr, ft, items, is_unsafe, Some(g)),
                        }
                    }
                },
            },
        },
    }
}

pub open spec fn spec_decode_impl_tail3(
    iv: JsonV,
    tr: Option<crate::model::PathV>,
    ft: Option<crate::model::TypeExprV>,
    items: Seq<Seq<char>>,
    is_unsafe: bool,
    blanket: Option<Seq<char>>,
) -> Result<ItemKindV, SchemaErrV> {
    match spec_decode_generics_field(iv) {
        Err(e) => Err(e),
        Ok(generics) => Ok(
            ItemKindV::Impl { trait_ref: tr, for_type: ft, items, is_unsafe, blanket, generics },
        ),
    }
}

/// The discriminant text of an enum variant: the `expr` of a
/// discriminant object, or a direct string; anything else carries no
/// text.
pub open spec fn spec_discriminant_of(vv: JsonV) -> Option<Seq<char>> {
    match jv_get(vv, "discriminant"@) {
        Option::Some(dv) => match dv {
            JsonV::Str(s) => Some(s),
            JsonV::Obj(_) => match jv_get(dv, "expr"@) {
                Option::Some(JsonV::Str(e)) => Some(e),
                _ => None,
            },
            _ => None,
        },
        Option::None => None,
    }
}

/// The shape of an enum variant, read from its `kind` value: a `tuple`
/// array, a `struct` array, or the `kind` string `plain`, in that
/// order; everything else is the unrenderable shape.
pub open spec fn spec_variant_shape_of(kv: JsonV) -> VariantShape {
    match kv {
        JsonV::Obj(_) => match jv_get(kv, "tuple"@) {
            Option::Some(tv) => match tv {
                JsonV::Arr(elems) => VariantShape::TupleShaped { arity: elems.len() as usize },
                _ => VariantShape::Other,
            },
            Option::None => match jv_get(kv, "struct"@) {
                Option::Some(sv) => match sv {
                    JsonV::Arr(elems) => VariantShape::StructShaped {
                        n_fields: elems.len() as usize,
                    },
                    _ => VariantShape::Other,
                },
                Option::None => match jv_get(kv, "kind"@) {
                    Option::Some(JsonV::Str(ks)) => if ks == "plain"@ {
                        VariantShape::Plain
                    } else {
                        VariantShape::Other
                    },
                    _ => VariantShape::Other,
                },
            },
        },
        _ => VariantShape::Other,
    }
}

/// The `variant` payload; it requires a `kind` value of any shape.
pub open spec fn spec_decode_variant_details(vv: JsonV) -> Result<ItemKindV, SchemaErrV> {
    if !(vv is Obj) {
        Err(serr(SchemaErrKind::Item, vv))
    } else {
        match jv_get(vv, "kind"@) {
            Option::None => Err(serr(SchemaErrKind::Item, vv)),
            Option::Some(kv) => Ok(
                ItemKindV::Variant {
                    discriminant: spec_discriminant_of(vv),
                    shape: spec_variant_shape_of(kv),
                },
            ),
        }
    }
}

/// The kind of an item, decided once from its `inner` object. Every
/// present key among the six is validated; the committed variant is the
/// first present key in the declaration order of `ItemKind`: function,
/// enum, trait, impl, struct, variant.
pub open spec fn spec_decode_kind(inner: JsonV) -> Result<Option<ItemKindV>, SchemaErrV> {
    let f = jv_get(inner, "function"@);
    let e = jv_get(inner, "enum"@);
    let im = jv_get(inner, "impl"@);
    let st = jv_get(inner, "struct"@);
    let tr = jv_get(inner, "trait"@);
    let va = jv_get(inner, "variant"@);
    match spec_opt_payload_fn(f) {
        Err(er) => Err(er),
        Ok(fd) => match spec_opt_payload(e, |x: JsonV| spec_decode_enum_details(x)) {
            Err(er) => Err(er),
            Ok(ed) => match spec_opt_payload(im, |x: JsonV| spec_decode_impl_details(x)) {
                Err(er) => Err(er),
                Ok(id) => match spec_opt_payload(st, |x: JsonV| spec_decode_struct_details(x)) {
                    Err(er) => Err(er),
                    Ok(sd) => match spec_opt_payload(tr, |x: JsonV| spec_decode_trait_details(x)) {
                        Err(er) => Err(er),
                        Ok(td) => match spec_opt_payload(
                            va,
                            |x: JsonV| spec_decode_variant_details(x),
                        ) {
                            Err(er) => Err(er),
                            Ok(vd) => Ok(
                                if fd is Some {
                                    Some(ItemKindV::Function { decl: fd->0 })
                                } else if ed is Some {
                                    Some(ed->0)
                                } else if td is Some {
                                    Some(td->0)
                                } else if id is Some {
                                    Some(id->0)
                                } else if sd is Some {
                                    Some(sd->0)
                                } else if vd is Some {
                                    Some(vd->0)
                                } else {
                                    None
                                },
                            ),
                        },
                    },
                },
            },
        },
    }
}

/// An optional payload: absent or null decodes to nothing.
pub open spec fn spec_opt_payload(
    v: Option<JsonV>,
    dec: spec_fn(JsonV) -> Result<ItemKindV, SchemaErrV>,
) -> Result<Option<ItemKindV>, SchemaErrV> {
    match v {
        Option::None => Ok(None),
        Option::Some(JsonV::Null) => Ok(None),
        Option::Some(x) => match dec(x) {
            Ok(k) => Ok(Some(k)),
            Err(e) => Err(e),
        },
    }
}

pub open spec fn spec_opt_payload_fn(v: Option<JsonV>) -> Result<Option<FnDeclV>, SchemaErrV> {
    match v {
        Option::None => Ok(None),
        Option::Some(JsonV::Null) => Ok(None),
        Option::Some(x) => match spec_decode_fn_details(x) {
            Ok(k) => Ok(Some(k)),
            Err(e) => Err(e),
        },
    }
}

/// The cross-reference map of an item: the entries of the `links`
/// object whose values are strings, in entry order.
pub open spec fn spec_links_of(entries: Seq<(Seq<char>, JsonV)>, i: int) -> Seq<
    (Seq<char>, Seq<char>),
>
    decreases entries.len() - i,
{
    if i < 0 || i >= entries.len() {
        Seq::empty()
    } else {
        (match entries[i].1 {
            JsonV::Str(v) => seq![(entries[i].0, v)],
            _ => Seq::empty(),
        }) + spec_links_of(entries, i + 1)
    }
}

/// One item of the index.
pub open spec fn spec_decode_item(j: JsonV) -> Result<ItemV, SchemaErrV> {
    if !(j is Obj) {
        Err(serr(SchemaErrKind::Item, j))
    } else {
        match spec_field_opt_str(j, "docs"@) {
            Err(v) => Err(serr(SchemaErrKind::Item, v)),
            Ok(docs) => match spec_field_opt_str(j, "visibility"@) {
                Err(v) => Err(serr(SchemaErrKind::Item, v)),
                Ok(visibility) => match spec_field_opt_str(j, "name"@) {
                    Err(v) => Err(serr(SchemaErrKind::Item, v)),
                    Ok(name) => match spec_decode_inner_field(j) {
                        Err(e) => Err(e),
                        Ok(kind) => match spec_decode_links_field(j) {
                            Err(e) => Err(e),
                            Ok(links) => Ok(ItemV { docs, visibility, name, kind, links }),
                        },
                    },
                },
            },
        }
    }
}

pub open spec fn spec_decode_inner_field(j: JsonV) -> Result<Option<ItemKindV>, SchemaErrV> {
    match jv_get(j, "inner"@) {
        Option::None => Ok(None),
        Option::Some(JsonV::Null) => Ok(None),
        Option::Some(iv) => {
            if iv is Obj {
                spec_decode_kind(iv)
            } else {
                Err(serr(SchemaErrKind::Item, iv))
            }
        },
    }
}

pub open spec fn spec_decode_links_field(j: JsonV) -> Result<
    Seq<(Seq<char>, Seq<char>)>,
    SchemaErrV,
> {
    match jv_get(j, "links"@) {
        Option::None => Ok(Seq::empty()),
        Option::Some(JsonV::Obj(entries)) => Ok(spec_links_of(entries, 0)),
        Option::Some(v) => Err(serr(SchemaErrKind::Links, v)),
    }
}

/// The entries of the index, each decoded as an item; a failure names
/// the identifier of the item it stood in.
pub open spec fn spec_decode_index_items(entries: Seq<(Seq<char>, JsonV)>, i: int) -> Result<
    Seq<(Seq<char>, ItemV)>,
    SchemaErrV,
>
    decreases entries.len() - i,
{
    if i < 0 || i >= entries.len() {
        Ok(Seq::empty())
    } else {
        match spec_decode_item(entries[i].1) {
            Ok(it) => match spec_decode_index_items(entries, i + 1) {
                Ok(rest) => Ok(seq![(entries[i].0, it)] + rest),
                Err(e) => Err(e),
            },
            Err(e) => Err(
                SchemaErrV { kind: e.kind, offending: e.offending, item_id: Some(entries[i].0) },
            ),
        }
    }
}

/// The whole document: required root, crate version, private-items
/// marker, and the item index.
pub open spec fn spec_decode_doc(j: JsonV) -> Result<DocV, SchemaErrV> {
    if !(j is Obj) {
        Err(serr(SchemaErrKind::Document, j))
    } else {
        match spec_field_req_str(j, "root"@) {
            Err(v) => Err(serr(SchemaErrKind::Document, v)),
            Ok(root) => match spec_field_req_str(j, "crate_version"@) {
                Err(v) => Err(serr(SchemaErrKind::Document, v)),
                Ok(cv) => match spec_field_req_bool(j, "includes_private"@) {
                    Err(v) => Err(serr(SchemaErrKind::Document, v)),
                    Ok(ip) => match jv_get(j, "index"@) {
                        Option::None => Err(serr(SchemaErrKind::Document, j)),
                        Option::Some(JsonV::Obj(entries)) => match spec_decode_index_items(
                            entries,
                            0,
                        ) {
                            Ok(index) => Ok(
                                DocV { root, crate_version: cv, includes_private: ip, index },
                            ),
                            Err(e) => Err(e),
                        },
                        Option::Some(v) => Err(serr(SchemaErrKind::Document, v)),
                    },
                },
            },
        }
    }
}


// ---------------------------------------------------------------------------
// Executable decoders.
// ---------------------------------------------------------------------------

#[verifier::loop_isolation(false)]
fn decode_input_items(elems: &Vec<JsonValue>, i: usize) -> (r: Result<
    Vec<(String, TypeExpr)>,
    SchemaError,
>)
    requires
        i <= elems@.len(),
    ensures
        match r {
            Ok(o) => spec_decode_input_items(view_json_seq(elems@), i as int) == Ok::<
                Seq<(Seq<char>, crate::model::TypeExprV)>,
                SchemaErrV,
            >(view_inputs(o@)),
            Err(e) => spec_decode_input_items(view_json_seq(elems@), i as int) == Err::<
                Seq<(Seq<char>, crate::model::TypeExprV)>,
                SchemaErrV,
            >(e.deep_view()),
        },
    decreases elems@.len() - i,
{
    proof {
        lemma_view_json_seq_index(elems@);
    }
    if i == elems.len() {
        let empty: Vec<(String, TypeExpr)> = Vec::new();
        proof {
            assert(view_inputs(empty@) =~= Seq::<(Seq<char>, crate::model::TypeExprV)>::empty());
        }
        Ok(empty)
    } else {
        match &elems[i] {
            JsonValue::Arr(pair) => {
                proof {
                    lemma_view_json_seq_index(pair@);
                }
                if pair.len() != 2 {
                    Err(mk_err(SchemaErrKind::FnInput, &elems[i]))
                } else {
                    match &pair[0] {
                        JsonValue::Str(pname) => match decode_type(&pair[1]) {
                            Ok(t) => match decode_input_items(elems, i + 1) {
                                Ok(mut rest) => {
                                    let ghost prev = rest@;
                                    rest.insert(0, (pname.clone(), t));
                                    proof {
                                        lemma_view_inputs_index(prev);
                                        lemma_view_inputs_index(rest@);
                                        assert(view_inputs(rest@) =~= seq![
                                            (rest@[0].0@, view_type(rest@[0].1)),
                                        ] + view_inputs(prev));
                                    }
                                    Ok(rest)
                                },
                                Err(e) => Err(e),
                            },
                            Err(e) => Err(e),
                        },
                        other => Err(mk_err(SchemaErrKind::FnInput, other)),
                    }
                }
            },
            other => Err(mk_err(SchemaErrKind::FnInput, other)),
        }
    }
}

fn decode_fn_details(fv: &JsonValue) -> (r: Result<FnDecl, SchemaError>)
    ensures
        match r {
            Ok(d) => spec_decode_fn_details(fv.deep_view()) == Ok::<FnDeclV, SchemaErrV>(
                d.deep_view(),
            ),
            Err(e) => spec_decode_fn_details(fv.deep_view()) == Err::<FnDeclV, SchemaErrV>(
                e.deep_view(),
            ),
        },
{
    if fv.as_obj().is_none() {
        return Err(mk_err(SchemaErrKind::Function, fv));
    }
    let dv = match fv.get("decl") {
        Option::None => {
            return Err(mk_err(SchemaErrKind::Function, fv));
        },
        Option::Some(d) => d,
    };
    if dv.as_obj().is_none() {
        return Err(mk_err(SchemaErrKind::Function, dv));
    }
    let inputs = match dv.get("inputs") {
        Option::None => {
            return Err(mk_err(SchemaErrKind::Function, dv));
        },
        Option::Some(v) => match v {
            JsonValue::Arr(elems) => match decode_input_items(elems, 0) {
                Ok(ins) => ins,
                Err(e) => {
                    return Err(e);
                },
            },
            _ => {
                return Err(mk_err(SchemaErrKind::Function, v));
            },
        },
    };
    let output: Option<TypeExpr> = match dv.get("output") {
        Option::None => None,
        Option::Some(ov) => match ov {
            JsonValue::Null => None,
            _ => match decode_type(ov) {
                Ok(t) => Some(t),
                Err(e) => {
                    return Err(e);
                },
            },
        },
    };
    match field_req_bool(dv, "c_variadic") {
        Err(v) => Err(mk_err(SchemaErrKind::Function, v)),
        Ok(cv) => Ok(FnDecl { inputs, output, c_variadic: cv }),
    }
}

fn decode_enum_details(ev: &JsonValue) -> (r: Result<ItemKind, SchemaError>)
    ensures
        match r {
            Ok(k) => spec_decode_enum_details(ev.deep_view()) == Ok::<ItemKindV, SchemaErrV>(
                k.deep_view(),
            ),
            Err(e) => spec_decode_enum_details(ev.deep_view()) == Err::<ItemKindV, SchemaErrV>(
                e.deep_view(),
            ),
        },
{
    if ev.as_obj().is_none() {
        return Err(mk_err(SchemaErrKind::EnumPayload, ev));
    }
    let variants = match field_str_list(ev, "variants", true) {
        Ok(v) => v,
        Err(bad) => {
            return Err(mk_err(SchemaErrKind::EnumPayload, bad));
        },
    };
    let impls = match field_str_list(ev, "impls", true) {
        Ok(v) => v,
        Err(bad) => {
            return Err(mk_err(SchemaErrKind::EnumPayload, bad));
        },
    };
    match decode_generics_field(ev) {
        Err(e) => Err(e),
        Ok(generics) => Ok(ItemKind::Enum { variants, impls, generics }),
    }
}

fn decode_tuple_field(v: &JsonValue) -> (r: TupleFieldInfo)
    ensures
        view_tuple_field(r) == spec_tuple_field_of(v.deep_view()),
{
    match v {
        JsonValue::Null => TupleFieldInfo::Null,
        JsonValue::Obj(_) => match v.get("name") {
            Option::Some(nv) => match nv {
                JsonValue::Str(n) => TupleFieldInfo::Named { name: n.clone() },
                _ => TupleFieldInfo::Other,
            },
            Option::None => TupleFieldInfo::Other,
        },
        _ => TupleFieldInfo::Other,
    }
}

#[verifier::loop_isolation(false)]
fn decode_tuple_fields(elems: &Vec<JsonValue>, i: usize) -> (r: Vec<TupleFieldInfo>)
    requires
        i <= elems@.len(),
    ensures
        view_tuple_fields(r@) == spec_tuple_fields_of(view_json_seq(elems@), i as int),
    decreases elems@.len() - i,
{
    proof {
        lemma_view_json_seq_index(elems@);
    }
    if i == elems.len() {
        let empty: Vec<TupleFieldInfo> = Vec::new();
        proof {
            assert(view_tuple_fields(empty@) =~= Seq::<TupleFieldV>::empty());
        }
        empty
    } else {
        let f = decode_tuple_field(&elems[i]);
        let mut rest = decode_tuple_fields(elems, i + 1);
        let ghost prev = rest@;
        rest.insert(0, f);
        proof {
            lemma_view_tuple_fields_index(prev);
            lemma_view_tuple_fields_index(rest@);
            assert(view_tuple_fields(rest@) =~= seq![view_tuple_field(rest@[0])]
                + view_tuple_fields(prev));
        }
        rest
    }
}

fn decode_struct_kind(v: &JsonValue) -> (r: Result<Option<StructShape>, SchemaError>)
    ensures
        match r {
            Ok(o) => spec_decode_struct_kind(v.deep_view()) == Ok::<
                Option<crate::model::StructShapeV>,
                SchemaErrV,
            >(crate::model::view_opt_shape(o)),
            Err(e) => spec_decode_struct_kind(v.deep_view()) == Err::<
                Option<crate::model::StructShapeV>,
                SchemaErrV,
            >(e.deep_view()),
        },
{
    match v {
        JsonValue::Str(_) => Ok(Some(StructShape::Unit)),
        JsonValue::Obj(_) => match v.get("tuple") {
            Option::Some(tv) => match tv {
                JsonValue::Arr(elems) => {
                    let fs = decode_tuple_fields(elems, 0);
                    Ok(Some(StructShape::TupleFields { elems: fs }))
                },
                _ => Ok(Some(StructShape::Unknown)),
            },
            Option::None => Ok(Some(StructShape::Unknown)),
        },
        _ => Err(mk_err(SchemaErrKind::StructKind, v)),
    }
}

fn decode_struct_details(sv: &JsonValue) -> (r: Result<ItemKind, SchemaError>)
    ensures
        match r {
            Ok(k) => spec_decode_struct_details(sv.deep_view()) == Ok::<ItemKindV, SchemaErrV>(
                k.deep_view(),
            ),
            Err(e) => spec_decode_struct_details(sv.deep_view()) == Err::<ItemKindV, SchemaErrV>(
                e.deep_view(),
            ),
        },
{
    if sv.as_obj().is_none() {
        return Err(mk_err(SchemaErrKind::StructPayload, sv));
    }
    let fields = match field_str_list(sv, "fields", false) {
        Ok(v) => v,
        Err(bad) => {
            return Err(mk_err(SchemaErrKind::StructPayload, bad));
        },
    };
    let impls = match field_str_list(sv, "impls", false) {
        Ok(v) => v,
        Err(bad) => {
            return Err(mk_err(SchemaErrKind::StructPayload, bad));
        },
    };
    let generics = match decode_generics_field(sv) {
        Ok(g) => g,
        Err(e) => {
            return Err(e);
        },
    };
    match sv.get("kind") {
        Option::None => Ok(ItemKind::Struct { fields, impls, generics, shape: None }),
        Option::Some(kv) => match kv {
            JsonValue::Null => Ok(ItemKind::Struct { fields, impls, generics, shape: None }),
            _ => match decode_struct_kind(kv) {
                Ok(shape) => Ok(ItemKind::Struct { fields, impls, generics, shape }),
                Err(e) => Err(e),
            },
        },
    }
}

fn decode_bound_info(v: &JsonValue) -> (r: Result<TraitBoundInfo, SchemaError>)
    ensures
        match r {
            Ok(b) => spec_decode_bound_info(v.deep_view()) == Ok::<TraitBoundInfoV, SchemaErrV>(
                view_bound_info(b),
            ),
            Err(e) => spec_decode_bound_info(v.deep_view()) == Err::<TraitBoundInfoV, SchemaErrV>(
                e.deep_view(),
            ),
        },
{
    if v.as_obj().is_none() {
        return Err(mk_err(SchemaErrKind::TraitPayload, v));
    }
    let tb = match v.get("trait_bound") {
        Option::None => None,
        Option::Some(tv) => match tv {
            JsonValue::Null => None,
            _ => match crate::decode::decode_trait_bound(tv) {
                Ok(b) => Some(b),
                Err(e) => {
                    return Err(e);
                },
            },
        },
    };
    match field_opt_str(v, "outlives") {
        Err(bad) => Err(mk_err(SchemaErrKind::TraitPayload, bad)),
        Ok(o) => Ok(TraitBoundInfo { trait_bound: tb, outlives: o }),
    }
}

#[verifier::loop_isolation(false)]
fn decode_bound_info_items(elems: &Vec<JsonValue>, i: usize) -> (r: Result<
    Vec<TraitBoundInfo>,
    SchemaError,
>)
    requires
        i <= elems@.len(),
    ensures
        match r {
            Ok(o) => spec_decode_bound_info_items(view_json_seq(elems@), i as int) == Ok::<
                Seq<TraitBoundInfoV>,
                SchemaErrV,
            >(view_bound_infos(o@)),
            Err(e) => spec_decode_bound_info_items(view_json_seq(elems@), i as int) == Err::<
                Seq<TraitBoundInfoV>,
                SchemaErrV,
            >(e.deep_view()),
        },
    decreases elems@.len() - i,
{
    proof {
        lemma_view_json_seq_index(elems@);
    }
    if i == elems.len() {
        let empty: Vec<TraitBoundInfo> = Vec::new();
        proof {
            assert(view_bound_infos(empty@) =~= Seq::<TraitBoundInfoV>::empty());
        }
        Ok(empty)
    } else {
        match decode_bound_info(&elems[i]) {
            Err(e) => Err(e),
            Ok(b) => match decode_bound_info_items(elems, i + 1) {
                Err(e) => Err(e),
                Ok(mut rest) => {
                    let ghost prev = rest@;
                    rest.insert(0, b);
                    proof {
                        lemma_view_bound_infos_index(prev);
                        lemma_view_bound_infos_index(rest@);
                        assert(view_bound_infos(rest@) =~= seq![view_bound_info(rest@[0])]
                            + view_bound_infos(prev));
                    }
                    Ok(rest)
                },
            },
        }
    }
}

fn decode_trait_details(tv: &JsonValue) -> (r: Result<ItemKind, SchemaError>)
    ensures
        match r {
            Ok(k) => spec_decode_trait_details(tv.deep_view()) == Ok::<ItemKindV, SchemaErrV>(
                k.deep_view(),
            ),
            Err(e) => spec_decode_trait_details(tv.deep_view()) == Err::<ItemKindV, SchemaErrV>(
                e.deep_view(),
            ),
        },
{
    if tv.as_obj().is_none() {
        return Err(mk_err(SchemaErrKind::TraitPayload, tv));
    }
    let bounds = match tv.get("bounds") {
        Option::None => {
            return Err(mk_err(SchemaErrKind::TraitPayload, tv));
        },
        Option::Some(v) => match v {
            JsonValue::Arr(elems) => match decode_bound_info_items(elems, 0) {
                Ok(bs) => bs,
                Err(e) => {
                    return Err(e);
                },
            },
            _ => {
                return Err(mk_err(SchemaErrKind::TraitPayload, v));
            },
        },
    };
    let generics = match decode_generics_field(tv) {
        Ok(g) => g,
        Err(e) => {
            return Err(e);
        },
    };
    let is_unsafe = match field_bool_default(tv, "is_unsafe") {
        Ok(b) => b,
        Err(bad) => {
            return Err(mk_err(SchemaErrKind::TraitPayload, bad));
        },
    };
    match field_str_list(tv, "items", false) {
        Err(bad) => Err(mk_err(SchemaErrKind::TraitPayload, bad)),
        Ok(items) => Ok(ItemKind::Trait { bounds, generics, is_unsafe, items }),
    }
}

#[verifier::rlimit(100)]
fn decode_impl_details(iv: &JsonValue) -> (r: Result<ItemKind, SchemaError>)
    ensures
        match r {
            Ok(k) => spec_decode_impl_details(iv.deep_view()) == Ok::<ItemKindV, SchemaErrV>(
                k.deep_view(),
            ),
            Err(e) => spec_decode_impl_details(iv.deep_view()) == Err::<ItemKindV, SchemaErrV>(
                e.deep_view(),
            ),
        },
{
    if iv.as_obj().is_none() {
        return Err(mk_err(SchemaErrKind::ImplPayload, iv));
    }
    let tr = match iv.get("trait") {
        Option::None => None,
        Option::Some(tv) => match tv {
            JsonValue::Null => None,
            _ => match decode_path(tv) {
                Ok(p) => Some(p),
                Err(e) => {
                    return Err(e);
                },
            },
        },
    };
    let ft: Option<TypeExpr> = match iv.get("for") {
        Option::None => None,
        Option::Some(fv) => match fv {
            JsonValue::Null => None,
            _ => match decode_type(fv) {
                Ok(t) => Some(t),
                Err(e) => {
                    return Err(e);
                },
            },
        },
    };
    let items = match field_str_list(iv, "items", true) {
        Ok(v) => v,
        Err(bad) => {
            return Err(mk_err(SchemaErrKind::ImplPayload, bad));
        },
    };
    let is_unsafe = match field_req_bool(iv, "is_unsafe") {
        Ok(b) => b,
        Err(bad) => {
            return Err(mk_err(SchemaErrKind::ImplPayload, bad));
        },
    };
    let blanket: Option<String> = match iv.get("blanket_impl") {
        Option::None => None,
        Option::Some(bv) => match bv {
            JsonValue::Null => None,
            _ => {
                if bv.as_obj().is_none() {
                    return Err(mk_err(SchemaErrKind::ImplPayload, bv));
                }
                match field_req_str(bv, "generic") {
                    Ok(g) => Some(g),
                    Err(bad) => {
                        return Err(mk_err(SchemaErrKind::ImplPayload, bad));
                    },
                }
            },
        },
    };
    match decode_generics_field(iv) {
        Err(e) => Err(e),
        Ok(generics) => Ok(
            ItemKind::Impl { trait_ref: tr, for_type: ft, items, is_unsafe, blanket, generics },
        ),
    }
}

fn decode_variant_details(vv: &JsonValue) -> (r: Result<ItemKind, SchemaError>)
    ensures
        match r {
            Ok(k) => spec_decode_variant_details(vv.deep_view()) == Ok::<ItemKindV, SchemaErrV>(
                k.deep_view(),
            ),
            Err(e) => spec_decode_variant_details(vv.deep_view()) == Err::<ItemKindV, SchemaErrV>(
                e.deep_view(),
            ),
        },
{
    if vv.as_obj().is_none() {
        return Err(mk_err(SchemaErrKind::Item, vv));
    }
    let kv = match vv.get("kind") {
        Option::None => {
            return Err(mk_err(SchemaErrKind::Item, vv));
        },
        Option::Some(k) => k,
    };
    let discriminant: Option<String> = match vv.get("discriminant") {
        Option::Some(dv) => match dv {
            JsonValue::Str(s) => Some(s.clone()),
            JsonValue::Obj(_) => match dv.get("expr") {
                Option::Some(ev) => match ev {
                    JsonValue::Str(e) => Some(e.clone()),
                    _ => None,
                },
                Option::None => None,
            },
            _ => None,
        },
        Option::None => None,
    };
    let shape: VariantShape = match kv {
        JsonValue::Obj(_) => match kv.get("tuple") {
            Option::Some(tv) => match tv {
                JsonValue::Arr(elems) => {
                    proof {
                        lemma_view_json_seq_index(elems@);
                    }
                    VariantShape::TupleShaped { arity: elems.len() }
                },
                _ => VariantShape::Other,
            },
            Option::None => match kv.get("struct") {
                Option::Some(sv) => match sv {
                    JsonValue::Arr(elems) => {
                        proof {
                            lemma_view_json_seq_index(elems@);
                        }
                        VariantShape::StructShaped { n_fields: elems.len() }
                    },
                    _ => VariantShape::Other,
                },
                Option::None => match kv.get("kind") {
                    Option::Some(ks) => match ks {
                        JsonValue::Str(k) => {
                            if crate::text::str_eq(k.as_str(), "plain") {
                                VariantShape::Plain
                            } else {
                                VariantShape::Other
                            }
                        },
                        _ => VariantShape::Other,
                    },
                    Option::None => VariantShape::Other,
                },
            },
        },
        _ => VariantShape::Other,
    };
    proof {
        assert(view_opt_str(discriminant) == spec_discriminant_of(vv.deep_view()));
        assert(shape == spec_variant_shape_of(kv.deep_view()));
    }
    Ok(ItemKind::Variant { discriminant, shape })
}

/// Decodes the kind of an item from its `inner` object.
#[verifier::rlimit(100)]
fn decode_kind(inner: &JsonValue) -> (r: Result<Option<ItemKind>, SchemaError>)
    ensures
        match r {
            Ok(k) => spec_decode_kind(inner.deep_view()) == Ok::<Option<ItemKindV>, SchemaErrV>(
                match k {
                    Option::Some(kk) => Some(kk.deep_view()),
                    Option::None => None,
                },
            ),
            Err(e) => spec_decode_kind(inner.deep_view()) == Err::<Option<ItemKindV>, SchemaErrV>(
                e.deep_view(),
            ),
        },
{
    let fd: Option<FnDecl> = match inner.get("function") {
        Option::None => None,
        Option::Some(x) => match x {
            JsonValue::Null => None,
            _ => match decode_fn_details(x) {
                Ok(d) => Some(d),
                Err(e) => {
                    return Err(e);
                },
            },
        },
    };
    let ed: Option<ItemKind> = match inner.get("enum") {
        Option::None => None,
        Option::Some(x) => match x {
            JsonValue::Null => None,
            _ => match decode_enum_details(x) {
                Ok(d) => Some(d),
                Err(e) => {
                    return Err(e);
                },
            },
        },
    };
    let id: Option<ItemKind> = match inner.get("impl") {
        Option::None => None,
        Option::Some(x) => match x {
            JsonValue::Null => None,
            _ => match decode_impl_details(x) {
                Ok(d) => Some(d),
                Err(e) => {
                    return Err(e);
                },
            },
        },
    };
    let sd: Option<ItemKind> = match inner.get("struct") {
        Option::None => None,
        Option::Some(x) => match x {
            JsonValue::Null => None,
            _ => match decode_struct_details(x) {
                Ok(d) => Some(d),
                Err(e) => {
                    return Err(e);
                },
            },
        },
    };
    let td: Option<ItemKind> = match inner.get("trait") {
        Option::None => None,
        Option::Some(x) => match x {
            JsonValue::Null => None,
            _ => match decode_trait_details(x) {
                Ok(d) => Some(d),
                Err(e) => {
                    return Err(e);
                },
            },
        },
    };
    let vd: Option<ItemKind> = match inner.get("variant") {
        Option::None => None,
        Option::Some(x) => match x {
            JsonValue::Null => None,
            _ => match decode_variant_details(x) {
                Ok(d) => Some(d),
                Err(e) => {
                    return Err(e);
                },
            },
        },
    };
    if let Option::Some(d) = fd {
        Ok(Some(ItemKind::Function { decl: d }))
    } else if let Option::Some(k) = ed {
        Ok(Some(k))
    } else if let Option::Some(k) = td {
        Ok(Some(k))
    } else if let Option::Some(k) = id {
        Ok(Some(k))
    } else if let Option::Some(k) = sd {
        Ok(Some(k))
    } else if let Option::Some(k) = vd {
        Ok(Some(k))
    } else {
        Ok(None)
    }
}

#[verifier::loop_isolation(false)]
fn decode_links(entries: &Vec<(String, JsonValue)>, i: usize) -> (r: Vec<(String, String)>)
    requires
        i <= entries@.len(),
    ensures
        view_links(r@) == spec_links_of(view_json_entries(entries@), i as int),
    decreases entries@.len() - i,
{
    proof {
        lemma_view_json_entries_index(entries@);
    }
    if i == entries.len() {
        let empty: Vec<(String, String)> = Vec::new();
        proof {
            assert(view_links(empty@) =~= Seq::<(Seq<char>, Seq<char>)>::empty());
        }
        empty
    } else {
        let mut rest = decode_links(entries, i + 1);
        match &entries[i].1 {
            JsonValue::Str(v) => {
                let ghost prev = rest@;
                rest.insert(0, (entries[i].0.clone(), v.clone()));
                proof {
                    lemma_view_links_index(prev);
                    lemma_view_links_index(rest@);
                    assert(view_links(rest@) =~= seq![(rest@[0].0@, rest@[0].1@)] + view_links(
                        prev,
                    ));
                }
                rest
            },
            _ => {
                proof {
                    assert(view_links(rest@) =~= Seq::<(Seq<char>, Seq<char>)>::empty()
                        + view_links(rest@));
                }
                rest
            },
        }
    }
}

/// Decodes one item of the index.
#[verifier::rlimit(100)]
pub fn decode_item(j: &JsonValue) -> (r: Result<RustDocItem, SchemaError>)
    ensures
        match r {
            Ok(it) => spec_decode_item(j.deep_view()) == Ok::<ItemV, SchemaErrV>(it.deep_view()),
            Err(e) => spec_decode_item(j.deep_view()) == Err::<ItemV, SchemaErrV>(e.deep_view()),
        },
{
    if j.as_obj().is_none() {
        return Err(mk_err(SchemaErrKind::Item, j));
    }
    let docs = match field_opt_str(j, "docs") {
        Ok(o) => o,
        Err(bad) => {
            return Err(mk_err(SchemaErrKind::Item, bad));
        },
    };
    let visibility = match field_opt_str(j, "visibility") {
        Ok(o) => o,
        Err(bad) => {
            return Err(mk_err(SchemaErrKind::Item, bad));
        },
    };
    let name = match field_opt_str(j, "name") {
        Ok(o) => o,
        Err(bad) => {
            return Err(mk_err(SchemaErrKind::Item, bad));
        },
    };
    let kind: Option<ItemKind> = match j.get("inner") {
        Option::None => None,
        Option::Some(iv) => match iv {
            JsonValue::Null => None,
            _ => {
                if iv.as_obj().is_none() {
                    return Err(mk_err(SchemaErrKind::Item, iv));
                }
                match decode_kind(iv) {
                    Ok(k) => k,
                    Err(e) => {
                        return Err(e);
                    },
                }
            },
        },
    };
    let links: Vec<(String, String)> = match j.get("links") {
        Option::None => Vec::new(),
        Option::Some(lv) => match lv {
            JsonValue::Obj(entries) => decode_links(entries, 0),
            _ => {
                return Err(mk_err(SchemaErrKind::Links, lv));
            },
        },
    };
    let it = RustDocItem { docs, visibility, name, kind, links };
    proof {
        assert(view_links(it.links@) == spec_decode_links_field(j.deep_view())->Ok_0);
        assert(it.deep_view() =~~= spec_decode_item(j.deep_view())->Ok_0);
    }
    Ok(it)
}

#[verifier::loop_isolation(false)]
fn decode_index_items(entries: &Vec<(String, JsonValue)>, i: usize) -> (r: Result<
    Vec<(String, RustDocItem)>,
    SchemaError,
>)
    requires
        i <= entries@.len(),
    ensures
        match r {
            Ok(o) => spec_decode_index_items(view_json_entries(entries@), i as int) == Ok::<
                Seq<(Seq<char>, ItemV)>,
                SchemaErrV,
            >(view_index(o@)),
            Err(e) => spec_decode_index_items(view_json_entries(entries@), i as int) == Err::<
                Seq<(Seq<char>, ItemV)>,
                SchemaErrV,
            >(e.deep_view()),
        },
    decreases entries@.len() - i,
{
    proof {
        lemma_view_json_entries_index(entries@);
    }
    if i == entries.len() {
        let empty: Vec<(String, RustDocItem)> = Vec::new();
        proof {
            assert(view_index(empty@) =~= Seq::<(Seq<char>, ItemV)>::empty());
        }
        Ok(empty)
    } else {
        match decode_item(&entries[i].1) {
            Err(e) => {
                let enriched = SchemaError {
                    kind: e.kind,
                    offending: e.offending,
                    item_id: Some(entries[i].0.clone()),
                };
                Err(enriched)
            },
            Ok(it) => match decode_index_items(entries, i + 1) {
                Err(e) => Err(e),
                Ok(mut rest) => {
                    let ghost prev = rest@;
                    rest.insert(0, (entries[i].0.clone(), it));
                    proof {
                        lemma_view_index_index(prev);
                        lemma_view_index_index(rest@);
                        assert(view_index(rest@) =~= seq![(rest@[0].0@, view_item(rest@[0].1))]
                            + view_index(prev));
                    }
                    Ok(rest)
                },
            },
        }
    }
}

/// Decodes a whole documentation index from its JSON document.
pub fn decode_doc(j: &JsonValue) -> (r: Result<RustDoc, SchemaError>)
    ensures
        match r {
            Ok(d) => spec_decode_doc(j.deep_view()) == Ok::<DocV, SchemaErrV>(d.deep_view()),
            Err(e) => spec_decode_doc(j.deep_view()) == Err::<DocV, SchemaErrV>(e.deep_view()),
        },
{
    if j.as_obj().is_none() {
        return Err(mk_err(SchemaErrKind::Document, j));
    }
    let root = match field_req_str(j, "root") {
        Ok(s) => s,
        Err(bad) => {
            return Err(mk_err(SchemaErrKind::Document, bad));
        },
    };
    let cv = match field_req_str(j, "crate_version") {
        Ok(s) => s,
        Err(bad) => {
            return Err(mk_err(SchemaErrKind::Document, bad));
        },
    };
    let ip = match field_req_bool(j, "includes_private") {
        Ok(b) => b,
        Err(bad) => {
            return Err(mk_err(SchemaErrKind::Document, bad));
        },
    };
    match j.get("index") {
        Option::None => Err(mk_err(SchemaErrKind::Document, j)),
        Option::Some(xv) => match xv {
            JsonValue::Obj(entries) => match decode_index_items(entries, 0) {
                Ok(index) => Ok(
                    RustDoc { root, crate_version: cv, includes_private: ip, index },
                ),
                Err(e) => Err(e),
            },
            _ => Err(mk_err(SchemaErrKind::Document, xv)),
        },
    }
}

} // verus!
