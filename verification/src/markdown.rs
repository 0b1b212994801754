use vstd::prelude::*;
use vstd::string::StringExecFns;

use crate::document::Category;
use crate::document::in_cat;
use crate::document::index_lookup;
use crate::document::spec_implements_list;
use crate::document::spec_is_tmi;
use crate::model::DocV;
use crate::model::FnDeclV;
use crate::model::GenericsV;
use crate::model::GenericParamV;
use crate::model::ItemKindV;
use crate::model::ItemV;
use crate::model::StructShapeV;
use crate::model::TraitBoundInfoV;
use crate::model::TupleFieldV;
use crate::model::TypeExprV;
use crate::model::VariantShape;
use crate::render::spec_render_opt_args;
use crate::render::spec_render_type;
use crate::text::lower_of;
use crate::text::spec_find_char;
use crate::text::spec_replace;
use crate::text::spec_starts_with;
use crate::document::index_get;
use crate::model::FnDecl;
use crate::model::Generics;
use crate::model::GenericParam;
use crate::model::ItemKind;
use crate::model::RustDoc;
use crate::model::RustDocItem;
use crate::model::TypeExpr;
use crate::model::lemma_view_inputs_index;
use crate::model::lemma_view_links_index;
use crate::model::lemma_view_params_index;
use crate::model::lemma_view_strings_index;
use crate::model::view_index;
use crate::model::view_inputs;
use crate::model::view_links;
use crate::model::view_opt_generics;
use crate::model::view_opt_str;
use crate::model::view_params;
use crate::model::view_strings;
use crate::model::view_type;
use crate::render::append_type;
use crate::text::find_char_from;
use crate::text::lowercase;
use crate::text::push_char;
use crate::text::replace_all;
use crate::text::str_eq;
use crate::text::str_starts_with;
use crate::document::cat_matches;
use crate::document::implements_list;
use crate::document::is_trait_method_implementation;
use crate::model::StructShape;
use crate::model::TraitBoundInfo;
use crate::model::TupleFieldInfo;
use crate::model::lemma_view_bound_infos_index;
use crate::model::lemma_view_index_index;
use crate::model::lemma_view_tuple_fields_index;
use crate::model::view_bound_infos;
use crate::model::view_opt_shape;
use crate::model::view_tuple_field;
use crate::model::view_tuple_fields;
use crate::render::append_opt_args;

verus! {

// ---------------------------------------------------------------------------
// Documentation text.
// ---------------------------------------------------------------------------

/// Each line of `s`, with a trailing carriage return stripped, prefixed
/// and terminated by a newline; the empty text yields nothing.
pub open spec fn spec_doc_lines(s: Seq<char>, prefix: Seq<char>) -> Seq<char>
    decreases s.len(),
{
    if s.len() == 0 {
        Seq::empty()
    } else {
        let j = spec_find_char(s, '\n', 0);
        let line = s.subrange(0, j);
        let line2 = if line.len() > 0 && line[line.len() - 1] == '\r' {
            line.subrange(0, line.len() - 1)
        } else {
            line
        };
        proof {
            crate::text::lemma_find_char_range(s, '\n', 0);
        }
        prefix + line2 + "\n"@ + (if j < s.len() {
            spec_doc_lines(s.subrange(j + 1, s.len() as int), prefix)
        } else {
            Seq::empty()
        })
    }
}

/// The anchor tag that the kind of a link target contributes.
pub open spec fn spec_anchor_tag(it: ItemV) -> Seq<char> {
    match it.kind {
        Some(ItemKindV::Function { .. }) => "function"@,
        Some(ItemKindV::Struct { .. }) => "struct"@,
        Some(ItemKindV::Enum { .. }) => "enum"@,
        Some(ItemKindV::Trait { .. }) => "trait"@,
        _ => "item"@,
    }
}

/// One cross-reference rewrite: when the target identifier resolves to a
/// named item, every occurrence of the link text becomes a Markdown link
/// anchored at the lowercased target name and its kind tag; otherwise
/// the text is left untouched.
pub open spec fn spec_apply_link(
    index: Seq<(Seq<char>, ItemV)>,
    acc: Seq<char>,
    text: Seq<char>,
    target: Seq<char>,
) -> Seq<char> {
    match index_lookup(index, target) {
        Some(it) => match it.name {
            Some(tn) => spec_replace(
                acc,
                text,
                "["@ + text + "](#"@ + lower_of(tn) + "-"@ + spec_anchor_tag(it) + ")"@,
            ),
            None => acc,
        },
        None => acc,
    }
}

pub open spec fn spec_process_links(
    index: Seq<(Seq<char>, ItemV)>,
    links: Seq<(Seq<char>, Seq<char>)>,
    i: int,
    acc: Seq<char>,
) -> Seq<char>
    decreases links.len() - i,
{
    if i < 0 || i >= links.len() {
        acc
    } else {
        spec_process_links(index, links, i + 1, spec_apply_link(index, acc, links[i].0, links[i].1))
    }
}

/// The documentation of an item with every known cross-reference key
/// rewritten into a Markdown link, in link order.
pub open spec fn spec_process_docs(d: DocV, item: ItemV, docs: Seq<char>) -> Seq<char> {
    if item.links.len() == 0 {
        docs
    } else {
        spec_process_links(d.index, item.links, 0, docs)
    }
}

// ---------------------------------------------------------------------------
// Signatures.
// ---------------------------------------------------------------------------

pub open spec fn spec_fn_inputs(inputs: Seq<(Seq<char>, TypeExprV)>, i: int) -> Seq<char>
    decreases inputs.len() - i,
{
    if i < 0 || i >= inputs.len() {
        Seq::empty()
    } else {
        (if i > 0 {
            ", "@
        } else {
            Seq::empty()
        }) + inputs[i].0 + ": "@ + spec_render_type(inputs[i].1) + spec_fn_inputs(inputs, i + 1)
    }
}

pub open spec fn spec_ret_part(output: Option<TypeExprV>) -> Seq<char> {
    match output {
        Some(t) => " -> "@ + spec_render_type(t),
        None => Seq::empty(),
    }
}

/// The fenced signature block of a free function.
pub open spec fn spec_fn_decl_block(name: Seq<char>, decl: FnDeclV) -> Seq<char> {
    "```rust\npub fn "@ + name + "("@ + spec_fn_inputs(decl.inputs, 0) + ")"@ + spec_ret_part(
        decl.output,
    ) + " { ... }\n```\n"@
}

/// One indented method signature inside a trait or impl block.
pub open spec fn spec_method_sig(name: Seq<char>, decl: FnDeclV) -> Seq<char> {
    "    fn "@ + name + "("@ + spec_fn_inputs(decl.inputs, 0) + ")"@ + spec_ret_part(decl.output)
        + " { ... }\n"@
}

// ---------------------------------------------------------------------------
// Generics renderings.
// ---------------------------------------------------------------------------

pub open spec fn spec_has_named_param(params: Seq<GenericParamV>, i: int) -> bool
    decreases params.len() - i,
{
    if i < 0 || i >= params.len() {
        false
    } else if params[i].name is Some {
        true
    } else {
        spec_has_named_param(params, i + 1)
    }
}

pub open spec fn spec_named_params(params: Seq<GenericParamV>, i: int, first: bool) -> Seq<char>
    decreases params.len() - i,
{
    if i < 0 || i >= params.len() {
        Seq::empty()
    } else {
        match params[i].name {
            Some(n) => (if first {
                Seq::empty()
            } else {
                ", "@
            }) + n + spec_named_params(params, i + 1, false),
            None => spec_named_params(params, i + 1, first),
        }
    }
}

/// The generics suffix of a struct heading: the named parameters joined
/// in angle brackets, or nothing when no parameter has a name.
pub open spec fn spec_generics_str(g: Option<GenericsV>) -> Seq<char> {
    match g {
        Some(gs) => if spec_has_named_param(gs.params, 0) {
            "<"@ + spec_named_params(gs.params, 0, true) + ">"@
        } else {
            Seq::empty()
        },
        None => Seq::empty(),
    }
}

/// Whether a generics list carries at least one parameter.
pub open spec fn spec_generics_nonempty(g: Option<GenericsV>) -> bool {
    match g {
        Some(gs) => gs.params.len() > 0,
        None => false,
    }
}

/// The generics text of an impl heading: every slot contributes its
/// separator, a nameless parameter contributes empty text.
pub open spec fn spec_impl_params(params: Seq<GenericParamV>, i: int) -> Seq<char>
    decreases params.len() - i,
{
    if i < 0 || i >= params.len() {
        Seq::empty()
    } else {
        (if i > 0 {
            ", "@
        } else {
            Seq::empty()
        }) + (match params[i].name {
            Some(n) => n,
            None => Seq::empty(),
        }) + spec_impl_params(params, i + 1)
    }
}

/// The first of a few known lifetime names among the generic
/// parameters, `'a` when none fits.
pub open spec fn spec_extract_lifetime_param(g: Option<GenericsV>) -> Seq<char> {
    match g {
        Some(gs) => if gs.params.len() > 0 {
            match gs.params[0].name {
                Some(n) => if n == "'a"@ || n == "'b"@ || n == "'c"@ || n == "'d"@ || n
                    == "'static"@ {
                    n
                } else {
                    "'a"@
                },
                None => "'a"@,
            }
        } else {
            "'a"@
        },
        None => "'a"@,
    }
}

/// The position of the first `<'` in `s`, or -1.
pub open spec fn spec_find_lt_apos(s: Seq<char>, i: int) -> int
    decreases s.len() - i,
{
    if i < 0 || i + 2 > s.len() {
        -1
    } else if s[i] == '<' && s[i + 1] == '\'' {
        i
    } else {
        spec_find_lt_apos(s, i + 1)
    }
}

/// The position of the first `,` or `>` at or after `i`, or -1.
pub open spec fn spec_find_comma_gt(s: Seq<char>, i: int) -> int
    decreases s.len() - i,
{
    if i < 0 || i >= s.len() {
        -1
    } else if s[i] == ',' || s[i] == '>' {
        i
    } else {
        spec_find_comma_gt(s, i + 1)
    }
}

/// The first lifetime of a rendered generics string: the text between
/// the first `<'` (after the `<`) and the `,` or `>` that follows it.
pub open spec fn spec_extract_first_lifetime(s: Seq<char>) -> Option<Seq<char>> {
    let i = spec_find_lt_apos(s, 0);
    if i < 0 {
        None
    } else {
        let j = spec_find_comma_gt(s, i + 1);
        if j < 0 {
            None
        } else {
            Some(s.subrange(i + 1, j))
        }
    }
}

// ---------------------------------------------------------------------------
// Enum bodies.
// ---------------------------------------------------------------------------

pub open spec fn spec_enum_variants(
    index: Seq<(Seq<char>, ItemV)>,
    ids: Seq<Seq<char>>,
    i: int,
) -> Seq<char>
    decreases ids.len() - i,
{
    if i < 0 || i >= ids.len() {
        Seq::empty()
    } else {
        (match index_lookup(index, ids[i]) {
            Some(v) => (match v.docs {
                Some(dc) => spec_doc_lines(dc, "    /// "@),
                None => Seq::empty(),
            }) + (match v.name {
                Some(n) => "    "@ + n + ",\n"@,
                None => Seq::empty(),
            }),
            None => Seq::empty(),
        }) + spec_enum_variants(index, ids, i + 1)
    }
}

pub open spec fn spec_enum_block(
    index: Seq<(Seq<char>, ItemV)>,
    name: Seq<char>,
    variants: Seq<Seq<char>>,
    generics: Option<GenericsV>,
) -> Seq<char> {
    "```rust\n"@ + "pub enum "@ + name + (if spec_generics_nonempty(generics) {
        "<...>"@
    } else {
        Seq::empty()
    }) + " {\n"@ + spec_enum_variants(index, variants, 0) + "}\n"@ + "```\n"@ + "\n"@
}

// ---------------------------------------------------------------------------
// Enum-variant bodies. A plain variant with a renderable discriminant
// shows it as `Name = expr,` inside its code fence.
// ---------------------------------------------------------------------------

pub open spec fn spec_placeholders(n: int) -> Seq<char>
    decreases n,
{
    if n <= 0 {
        Seq::empty()
    } else if n == 1 {
        "/* field type */"@
    } else {
        spec_placeholders(n - 1) + ", /* field type */"@
    }
}

/// The body line of an enum variant.
pub open spec fn spec_variant_lines(
    name: Seq<char>,
    shape: VariantShape,
    discriminant: Option<Seq<char>>,
) -> Seq<char> {
    match shape {
        VariantShape::TupleShaped { arity } => if arity == 0 {
            name + "(),\n"@
        } else {
            name + "("@ + spec_placeholders(arity as int) + "),\n"@
        },
        VariantShape::StructShaped { n_fields } => if n_fields == 0 {
            name + " {},\n"@
        } else {
            name + " {\n"@ + "    // fields...\n"@ + name + "},\n"@
        },
        VariantShape::Plain => match discriminant {
            Some(e) => name + " = "@ + e + ",\n"@,
            None => name + ",\n"@,
        },
        VariantShape::Other => name + ",\n"@,
    }
}

// ---------------------------------------------------------------------------
// Struct bodies.
// ---------------------------------------------------------------------------

pub open spec fn spec_vis_is_public(vis: Option<Seq<char>>) -> bool {
    vis matches Some(v) && v == "public"@
}

pub open spec fn spec_tuple_from_ids(
    index: Seq<(Seq<char>, ItemV)>,
    ids: Seq<Seq<char>>,
    i: int,
    first: bool,
) -> Seq<char>
    decreases ids.len() - i,
{
    if i < 0 || i >= ids.len() {
        Seq::empty()
    } else {
        match index_lookup(index, ids[i]) {
            Some(f) => (if first {
                Seq::empty()
            } else {
                ", "@
            }) + (if spec_vis_is_public(f.visibility) {
                "pub "@
            } else {
                Seq::empty()
            }) + "/* field type */"@ + spec_tuple_from_ids(index, ids, i + 1, false),
            None => spec_tuple_from_ids(index, ids, i + 1, first),
        }
    }
}

pub open spec fn spec_tuple_elem(
    f: TupleFieldV,
    item_name: Seq<char>,
    generics: Option<GenericsV>,
    gstr: Seq<char>,
) -> Seq<char> {
    match f {
        TupleFieldV::Null => if item_name == "HexDisplay"@ {
            "&"@ + spec_extract_lifetime_param(generics) + " [u8]"@
        } else if gstr.contains('\'') {
            "&"@ + (match spec_extract_first_lifetime(gstr) {
                Some(lt) => lt,
                None => "'a"@,
            }) + " [u8]"@
        } else {
            "/* type */"@
        },
        TupleFieldV::Named { name } => name,
        TupleFieldV::Other => "/* field type */"@,
    }
}

pub open spec fn spec_tuple_from_elems(
    elems: Seq<TupleFieldV>,
    i: int,
    item_name: Seq<char>,
    generics: Option<GenericsV>,
    gstr: Seq<char>,
) -> Seq<char>
    decreases elems.len() - i,
{
    if i < 0 || i >= elems.len() {
        Seq::empty()
    } else {
        (if i > 0 {
            ", "@
        } else {
            Seq::empty()
        }) + spec_tuple_elem(elems[i], item_name, generics, gstr) + spec_tuple_from_elems(
            elems,
            i + 1,
            item_name,
            generics,
            gstr,
        )
    }
}

pub open spec fn spec_struct_fields(
    index: Seq<(Seq<char>, ItemV)>,
    ids: Seq<Seq<char>>,
    i: int,
) -> Seq<char>
    decreases ids.len() - i,
{
    if i < 0 || i >= ids.len() {
        Seq::empty()
    } else {
        (match index_lookup(index, ids[i]) {
            Some(f) => (match f.docs {
                Some(dc) => spec_doc_lines(dc, "    /// "@),
                None => Seq::empty(),
            }) + (match f.name {
                Some(n) => "    "@ + (if spec_vis_is_public(f.visibility) {
                    "pub "@
                } else {
                    Seq::empty()
                }) + n + ": /* field type */,\n"@,
                None => Seq::empty(),
            }),
            None => Seq::empty(),
        }) + spec_struct_fields(index, ids, i + 1)
    }
}

pub open spec fn spec_struct_block(
    index: Seq<(Seq<char>, ItemV)>,
    name: Seq<char>,
    fields: Seq<Seq<char>>,
    generics: Option<GenericsV>,
    shape: Option<StructShapeV>,
) -> Seq<char> {
    let gstr = spec_generics_str(generics);
    "```rust\n"@ + (match shape {
        Some(StructShapeV::TupleFields { elems }) => "pub struct "@ + name + gstr + "("@ + (if fields.len() > 0 {
            spec_tuple_from_ids(index, fields, 0, true)
        } else {
            spec_tuple_from_elems(elems, 0, name, generics, gstr)
        }) + ");\n"@,
        Some(StructShapeV::Unit) => "pub struct "@ + name + gstr + ";\n"@,
        Some(StructShapeV::Unknown) => "pub struct "@ + name + gstr
            + "(); // Unknown struct kind\n"@,
        None => "pub struct "@ + name + gstr + " {\n"@ + spec_struct_fields(index, fields, 0)
            + "}\n"@,
    }) + "```\n"@ + "\n"@
}

// ---------------------------------------------------------------------------
// Trait bodies.
// ---------------------------------------------------------------------------

pub open spec fn spec_bound_infos_str(bounds: Seq<TraitBoundInfoV>, i: int) -> Seq<char>
    decreases bounds.len() - i,
{
    if i < 0 || i >= bounds.len() {
        Seq::empty()
    } else {
        (if i > 0 {
            " + "@
        } else {
            Seq::empty()
        }) + (match bounds[i].trait_bound {
            Some(tb) => tb.trait_path.name,
            None => match bounds[i].outlives {
                Some(o) => o,
                None => Seq::empty(),
            },
        }) + spec_bound_infos_str(bounds, i + 1)
    }
}

pub open spec fn spec_trait_sigs(
    index: Seq<(Seq<char>, ItemV)>,
    ids: Seq<Seq<char>>,
    i: int,
) -> Seq<char>
    decreases ids.len() - i,
{
    if i < 0 || i >= ids.len() {
        Seq::empty()
    } else {
        (match index_lookup(index, ids[i]) {
            Some(m) => match m.name {
                Some(mn) => (match m.docs {
                    Some(dc) => spec_doc_lines(dc, "    /// "@),
                    None => Seq::empty(),
                }) + (match m.kind {
                    Some(ItemKindV::Function { decl }) => spec_method_sig(mn, decl),
                    _ => Seq::empty(),
                }),
                None => Seq::empty(),
            },
            None => Seq::empty(),
        }) + spec_trait_sigs(index, ids, i + 1)
    }
}

/// The detailed listing of one trait method.
pub open spec fn spec_trait_method_one(trait_name: Seq<char>, m: ItemV) -> Seq<char> {
    match m.name {
        Some(mn) => "#### `"@ + trait_name + "::"@ + mn + "`\n"@ + (match m.docs {
            Some(dc) => "\n"@ + dc + "\n"@ + "\n"@,
            None => Seq::empty(),
        }) + (match m.kind {
            Some(ItemKindV::Function { decl }) => spec_fn_decl_block(mn, decl) + "\n"@,
            _ => Seq::empty(),
        }),
        None => Seq::empty(),
    }
}

pub open spec fn spec_trait_method_details(
    index: Seq<(Seq<char>, ItemV)>,
    trait_name: Seq<char>,
    ids: Seq<Seq<char>>,
    i: int,
) -> Seq<char>
    decreases ids.len() - i,
{
    if i < 0 || i >= ids.len() {
        Seq::empty()
    } else {
        (match index_lookup(index, ids[i]) {
            Some(m) => spec_trait_method_one(trait_name, m),
            None => Seq::empty(),
        }) + spec_trait_method_details(index, trait_name, ids, i + 1)
    }
}

/// The opening of a trait declaration block, up to its brace.
pub open spec fn spec_trait_header(
    name: Seq<char>,
    bounds: Seq<TraitBoundInfoV>,
    generics: Option<GenericsV>,
    is_unsafe: bool,
) -> Seq<char> {
    "```rust\n"@ + "pub "@ + (if is_unsafe {
        "unsafe "@
    } else {
        Seq::empty()
    }) + "trait "@ + name + (if spec_generics_nonempty(generics) {
        "<...>"@
    } else {
        Seq::empty()
    }) + (if bounds.len() > 0 {
        ": "@ + spec_bound_infos_str(bounds, 0)
    } else {
        Seq::empty()
    }) + " {\n"@
}

pub open spec fn spec_trait_block(
    index: Seq<(Seq<char>, ItemV)>,
    name: Seq<char>,
    bounds: Seq<TraitBoundInfoV>,
    generics: Option<GenericsV>,
    is_unsafe: bool,
    ids: Seq<Seq<char>>,
) -> Seq<char> {
    spec_trait_header(name, bounds, generics, is_unsafe) + spec_trait_sigs(index, ids, 0) + "}\n"@
        + "```\n"@ + "\n"@ + "**Methods:**\n"@ + "\n"@ + spec_trait_method_details(
        index,
        name,
        ids,
        0,
    )
}

// ---------------------------------------------------------------------------
// Impl bodies.
// ---------------------------------------------------------------------------

pub open spec fn spec_for_type_name(t: TypeExprV) -> Seq<char> {
    match t {
        TypeExprV::ResolvedPath { path } => path.name + spec_render_opt_args(path.args),
        TypeExprV::Array { inner, len } => "["@ + (match *inner {
            TypeExprV::Primitive { name } => name,
            _ => "/* type */"@,
        }) + "; "@ + len + "]"@,
        _ => "/* Unknown */"@,
    }
}

pub open spec fn spec_impl_methods(
    index: Seq<(Seq<char>, ItemV)>,
    ids: Seq<Seq<char>>,
    i: int,
) -> Seq<char>
    decreases ids.len() - i,
{
    if i < 0 || i >= ids.len() {
        Seq::empty()
    } else {
        (match index_lookup(index, ids[i]) {
            Some(m) => match m.name {
                Some(mn) => match m.kind {
                    Some(ItemKindV::Function { decl }) => spec_method_sig(mn, decl),
                    _ => Seq::empty(),
                },
                None => Seq::empty(),
            },
            None => Seq::empty(),
        }) + spec_impl_methods(index, ids, i + 1)
    }
}

/// The standalone block of a trait implementation: heading naming trait
/// and implementing type, then the impl header and its member method
/// signatures in a code fence. An impl without a trait reference or
/// without a `for` type renders nothing.
pub open spec fn spec_impl_details(d: DocV, item: ItemV) -> Seq<char> {
    match item.kind {
        Some(
            ItemKindV::Impl { trait_ref: Some(tr), for_type: Some(ft), items, generics, .. },
        ) => {
            let tn = tr.name;
            let targs = spec_render_opt_args(tr.args);
            let ftn = spec_for_type_name(ft);
            let gpart = match generics {
                Some(gs) => if gs.params.len() > 0 {
                    "<"@ + spec_impl_params(gs.params, 0) + ">"@
                } else {
                    Seq::empty()
                },
                None => Seq::empty(),
            };
            spec_impl_heading(tn, ftn) + spec_impl_open(gpart, tn, targs, ftn)
                + spec_impl_methods(d.index, items, 0) + "}\n"@ + "```\n"@ + "\n"@
        },
        _ => Seq::empty(),
    }
}

/// The heading of a trait-implementation block.
pub open spec fn spec_impl_heading(tn: Seq<char>, ftn: Seq<char>) -> Seq<char> {
    "### Implementation of `"@ + tn + "` for `"@ + ftn + "`\n"@ + "\n"@ + "```rust\n"@
}

/// The opening line of the impl code block.
pub open spec fn spec_impl_open(
    gpart: Seq<char>,
    tn: Seq<char>,
    targs: Seq<char>,
    ftn: Seq<char>,
) -> Seq<char> {
    "impl"@ + gpart + " "@ + tn + targs + " for "@ + ftn + " {\n"@
}

// ---------------------------------------------------------------------------
// The "Implements" lists.
// ---------------------------------------------------------------------------

/// Whether an aggregated trait name counts as manually implemented: a
/// well-known trait name, or one outside the standard-library
/// namespaces.
pub open spec fn spec_is_manual(t: Seq<char>) -> bool {
    ||| t == "Debug"@
    ||| t == "Display"@
    ||| t == "Clone"@
    ||| t == "PartialEq"@
    ||| t == "Eq"@
    ||| t == "PartialOrd"@
    ||| t == "Ord"@
    ||| t == "Hash"@
    ||| !(spec_starts_with(t, "std::"@) || spec_starts_with(t, "alloc::"@))
}

pub open spec fn spec_bullets(list: Seq<Seq<char>>, i: int, manual: bool) -> Seq<char>
    decreases list.len() - i,
{
    if i < 0 || i >= list.len() {
        Seq::empty()
    } else {
        (if spec_is_manual(list[i]) == manual {
            "- `"@ + list[i] + "`\n"@
        } else {
            Seq::empty()
        }) + spec_bullets(list, i + 1, manual)
    }
}

pub open spec fn spec_has_split(list: Seq<Seq<char>>, i: int, manual: bool) -> bool
    decreases list.len() - i,
{
    if i < 0 || i >= list.len() {
        false
    } else if spec_is_manual(list[i]) == manual {
        true
    } else {
        spec_has_split(list, i + 1, manual)
    }
}

/// The "Implements" block: the sorted, deduplicated trait names, split
/// into manually implemented and auto-implemented parts.
pub open spec fn spec_implements_block(list: Seq<Seq<char>>) -> Seq<char> {
    if list.len() == 0 {
        Seq::empty()
    } else {
        (if spec_has_split(list, 0, true) {
            "**Implements:**\n"@ + spec_bullets(list, 0, true) + "\n"@
        } else {
            Seq::empty()
        }) + (if spec_has_split(list, 0, false) {
            "**Auto-implemented traits:**\n"@ + spec_bullets(list, 0, false) + "\n"@
        } else {
            Seq::empty()
        })
    }
}

/// The trait names aggregated for an item: present only for enum and
/// struct payloads, from their impl lists.
pub open spec fn spec_item_traits(d: DocV, item: ItemV) -> Seq<Seq<char>> {
    match item.kind {
        Some(ItemKindV::Enum { impls, .. }) => spec_implements_list(d.index, impls),
        Some(ItemKindV::Struct { impls, .. }) => spec_implements_list(d.index, impls),
        _ => Seq::empty(),
    }
}

// ---------------------------------------------------------------------------
// Whole items.
// ---------------------------------------------------------------------------

/// The heading of a named item: enum variants get a deeper, quoted
/// heading; everything else a visibility-prefixed level-three heading.
pub open spec fn spec_item_heading(item: ItemV, name: Seq<char>) -> Seq<char> {
    if item.kind matches Some(ItemKindV::Variant { .. }) {
        "#### `"@ + name + "`\n"@ + "\n"@
    } else {
        "### "@ + (if spec_vis_is_public(item.visibility) {
            "pub "@
        } else {
            Seq::empty()
        }) + name + "\n"@ + "\n"@
    }
}

/// The processed documentation paragraph of an item, when it has any.
pub open spec fn spec_item_docs(d: DocV, item: ItemV) -> Seq<char> {
    let dc = match item.docs {
        Some(x) => x,
        None => Seq::empty(),
    };
    if dc.len() > 0 {
        spec_process_docs(d, item, dc) + "\n"@ + "\n"@
    } else {
        Seq::empty()
    }
}

/// The kind-specific body of a named item, after heading and
/// documentation.
pub open spec fn spec_item_kind_body(d: DocV, item: ItemV, name: Seq<char>, k: ItemKindV) -> Seq<
    char,
> {
    match k {
        ItemKindV::Function { decl } => spec_fn_decl_block(name, decl) + "\n"@,
        ItemKindV::Variant { discriminant, shape } => "```rust\n"@ + spec_variant_lines(
            name,
            shape,
            discriminant,
        ) + "```\n"@ + "\n"@,
        ItemKindV::Enum { variants, generics, .. } => spec_enum_block(
            d.index,
            name,
            variants,
            generics,
        ),
        ItemKindV::Struct { fields, generics, shape, .. } => spec_struct_block(
            d.index,
            name,
            fields,
            generics,
            shape,
        ),
        ItemKindV::Trait { bounds, generics, is_unsafe, items } => spec_trait_block(
            d.index,
            name,
            bounds,
            generics,
            is_unsafe,
            items,
        ),
        ItemKindV::Impl { .. } => Seq::empty(),
    }
}

/// The full rendering of one named, unskipped item.
pub open spec fn spec_item_body(d: DocV, item: ItemV, name: Seq<char>) -> Seq<char> {
    spec_item_heading(item, name) + spec_item_docs(d, item) + (match item.kind {
        None => "\n"@,
        Some(k) => spec_item_kind_body(d, item, name, k) + spec_implements_block(
            spec_item_traits(d, item),
        ) + spec_impl_details(d, item) + "\n"@,
    })
}

/// The rendering of one index entry: an unnamed impl renders its
/// standalone block; any other unnamed item renders nothing; a named
/// item is skipped when the trait-method heuristic fires, and rendered
/// in full otherwise.
pub open spec fn spec_item_md(d: DocV, item: ItemV) -> Seq<char> {
    if item.kind matches Some(ItemKindV::Impl { .. }) && item.name is None {
        spec_impl_details(d, item)
    } else {
        match item.name {
            None => Seq::empty(),
            Some(name) => if spec_is_tmi(d, item) {
                Seq::empty()
            } else {
                spec_item_body(d, item, name)
            },
        }
    }
}

// ---------------------------------------------------------------------------
// The whole document.
// ---------------------------------------------------------------------------

/// The characters of `s` after its last `/`; the whole text when there
/// is none.
pub open spec fn spec_after_last_slash(s: Seq<char>) -> Seq<char>
    decreases s.len(),
{
    if s.len() == 0 {
        s
    } else if s[s.len() - 1] == '/' {
        Seq::empty()
    } else {
        spec_after_last_slash(s.subrange(0, s.len() - 1)) + seq![s[s.len() - 1]]
    }
}

pub open spec fn spec_cat_items_md(d: DocV, c: Category, i: int) -> Seq<char>
    decreases d.index.len() - i,
{
    if i < 0 || i >= d.index.len() {
        Seq::empty()
    } else {
        (if in_cat(d.index[i], c) {
            spec_item_md(d, d.index[i].1)
        } else {
            Seq::empty()
        }) + spec_cat_items_md(d, c, i + 1)
    }
}

pub open spec fn spec_cat_nonempty(d: DocV, c: Category) -> bool {
    exists|i: int| 0 <= i < d.index.len() && in_cat(#[trigger] d.index[i], c)
}

/// One section: nothing when its bucket is empty, else the section
/// heading followed by the renderings of its items in index order.
pub open spec fn spec_section(d: DocV, c: Category, heading: Seq<char>) -> Seq<char> {
    if spec_cat_nonempty(d, c) {
        heading + spec_cat_items_md(d, c, 0)
    } else {
        Seq::empty()
    }
}

/// The whole Markdown document: the title line with crate name and
/// version, then one section per non-empty category, in the fixed
/// order.
pub open spec fn spec_render_doc(d: DocV) -> Seq<char> {
    "# "@ + spec_after_last_slash(d.root) + " v"@ + d.crate_version + "\n"@ + "\n"@ + spec_section(
        d,
        Category::Functions,
        "## Functions\n\n"@,
    ) + spec_section(d, Category::Structs, "## Structs\n\n"@) + spec_section(
        d,
        Category::Enums,
        "## Enums\n\n"@,
    ) + spec_section(d, Category::Traits, "## Traits\n\n"@) + spec_section(
        d,
        Category::Impls,
        "## Implementations\n\n"@,
    ) + spec_section(d, Category::EnumVariants, "## Enum Variants\n\n"@) + spec_section(
        d,
        Category::Others,
        "## Other Items\n\n"@,
    )
}


// ---------------------------------------------------------------------------
// Executable emission.
// ---------------------------------------------------------------------------

/// Appends each line of `docs` under the given prefix.
pub fn append_doc_lines(out: &mut String, docs: &str, prefix: &str)
    ensures
        final(out)@ == old(out)@ + spec_doc_lines(docs@, prefix@),
    decreases docs@.len(),
{
    let n = docs.unicode_len();
    if n == 0 {
        proof {
            assert(old(out)@ + spec_doc_lines(docs@, prefix@) =~= old(out)@);
        }
        return ;
    }
    let j = find_char_from(docs, n, '\n', 0);
    let line_end = if j > 0 && docs.get_char(j - 1) == '\r' {
        j - 1
    } else {
        j
    };
    out.append(prefix);
    let line = docs.substring_char(0, line_end);
    out.append(line);
    push_char(out, '\n');
    proof {
        reveal_strlit("\n");
        let gl = docs@.subrange(0, j as int);
        if j > 0 && docs@[j - 1] == '\r' {
            assert(gl.subrange(0, gl.len() - 1) =~= docs@.subrange(0, j - 1));
        }
    }
    if j < n {
        let rest = docs.substring_char(j + 1, n);
        proof {
            assert(rest@ =~= docs@.subrange(j + 1, n as int));
        }
        append_doc_lines(out, rest, prefix);
    }
    proof {
        assert(out@ =~= old(out)@ + spec_doc_lines(docs@, prefix@));
    }
}

/// Rewrites every known cross-reference key of the item inside its
/// documentation text into a Markdown link.
#[verifier::loop_isolation(false)]
pub fn process_documentation(doc: &RustDoc, item: &RustDocItem, docs: &str) -> (r: String)
    ensures
        r@ == spec_process_docs(doc.deep_view(), item.deep_view(), docs@),
{
    let ghost d = doc.deep_view();
    let ghost itv = item.deep_view();
    proof {
        lemma_view_links_index(item.links@);
        assert(d.index == view_index(doc.index@));
        assert(itv.links == view_links(item.links@));
    }
    if item.links.len() == 0 {
        return String::from_str(docs);
    }
    let mut acc = String::from_str(docs);
    let n = item.links.len();
    let mut i: usize = 0;
    while i < n
        invariant
            n == item.links@.len(),
            itv.links.len() == n,
            0 <= i <= n,
            spec_process_links(d.index, itv.links, i as int, acc@) == spec_process_links(
                d.index,
                itv.links,
                0,
                docs@,
            ),
        decreases n - i,
    {
        let text = &item.links[i].0;
        let target = &item.links[i].1;
        let ghost prev = acc@;
        match index_get(&doc.index, target.as_str()) {
            Some(t_item) => {
                match &t_item.name {
                    Some(tn) => {
                        let mut repl = String::from_str("[");
                        repl.append(text.as_str());
                        repl.append("](#");
                        let low = lowercase(tn.as_str());
                        repl.append(low.as_str());
                        repl.append("-");
                        let tag: &str = match &t_item.kind {
                            Some(ItemKind::Function { .. }) => "function",
                            Some(ItemKind::Struct { .. }) => "struct",
                            Some(ItemKind::Enum { .. }) => "enum",
                            Some(ItemKind::Trait { .. }) => "trait",
                            _ => "item",
                        };
                        repl.append(tag);
                        repl.append(")");
                        proof {
                            assert(repl@ =~= "["@ + text@ + "](#"@ + lower_of(tn@) + "-"@
                                + spec_anchor_tag(t_item.deep_view()) + ")"@);
                        }
                        let new_acc = replace_all(acc.as_str(), text.as_str(), repl.as_str());
                        acc = new_acc;
                        proof {
                            assert(acc@ == spec_apply_link(
                                d.index,
                                prev,
                                itv.links[i as int].0,
                                itv.links[i as int].1,
                            ));
                        }
                    },
                    None => {
                        proof {
                            assert(prev == spec_apply_link(
                                d.index,
                                prev,
                                itv.links[i as int].0,
                                itv.links[i as int].1,
                            ));
                        }
                    },
                }
            },
            None => {
                proof {
                    assert(prev == spec_apply_link(
                        d.index,
                        prev,
                        itv.links[i as int].0,
                        itv.links[i as int].1,
                    ));
                }
            },
        }
        i += 1;
    }
    acc
}

#[verifier::loop_isolation(false)]
fn append_fn_inputs(out: &mut String, inputs: &Vec<(String, TypeExpr)>, i: usize)
    requires
        i <= inputs@.len(),
    ensures
        final(out)@ == old(out)@ + spec_fn_inputs(view_inputs(inputs@), i as int),
    decreases inputs@.len() - i,
{
    proof {
        lemma_view_inputs_index(inputs@);
    }
    if i == inputs.len() {
        proof {
            assert(old(out)@ + spec_fn_inputs(view_inputs(inputs@), i as int) =~= old(out)@);
        }
    } else {
        if i > 0 {
            out.append(", ");
        }
        out.append(inputs[i].0.as_str());
        out.append(": ");
        append_type(out, &inputs[i].1);
        append_fn_inputs(out, inputs, i + 1);
        proof {
            assert(out@ =~= old(out)@ + spec_fn_inputs(view_inputs(inputs@), i as int));
        }
    }
}

fn append_ret(out: &mut String, output: &Option<TypeExpr>)
    ensures
        final(out)@ == old(out)@ + spec_ret_part(
            match *output {
                Some(t) => Some(view_type(t)),
                None => None,
            },
        ),
{
    match output {
        Some(t) => {
            out.append(" -> ");
            append_type(out, t);
            proof {
                assert(out@ =~= old(out)@ + " -> "@ + spec_render_type(view_type(*t)));
            }
        },
        None => {},
    }
}

/// Appends the fenced signature block of a function.
pub fn append_fn_decl_block(out: &mut String, name: &str, decl: &FnDecl)
    ensures
        final(out)@ == old(out)@ + spec_fn_decl_block(name@, decl.deep_view()),
{
    out.append("```rust\npub fn ");
    out.append(name);
    out.append("(");
    append_fn_inputs(out, &decl.inputs, 0);
    out.append(")");
    append_ret(out, &decl.output);
    out.append(" { ... }\n```\n");
    proof {
        assert(out@ =~= old(out)@ + spec_fn_decl_block(name@, decl.deep_view()));
    }
}

fn append_method_sig(out: &mut String, name: &str, decl: &FnDecl)
    ensures
        final(out)@ == old(out)@ + spec_method_sig(name@, decl.deep_view()),
{
    out.append("    fn ");
    out.append(name);
    out.append("(");
    append_fn_inputs(out, &decl.inputs, 0);
    out.append(")");
    append_ret(out, &decl.output);
    out.append(" { ... }\n");
    proof {
        assert(out@ =~= old(out)@ + spec_method_sig(name@, decl.deep_view()));
    }
}

#[verifier::loop_isolation(false)]
fn has_named_param(params: &Vec<GenericParam>, i: usize) -> (r: bool)
    requires
        i <= params@.len(),
    ensures
        r == spec_has_named_param(view_params(params@), i as int),
    decreases params@.len() - i,
{
    proof {
        lemma_view_params_index(params@);
    }
    if i == params.len() {
        false
    } else if params[i].name.is_some() {
        true
    } else {
        has_named_param(params, i + 1)
    }
}

#[verifier::loop_isolation(false)]
fn append_named_params(out: &mut String, params: &Vec<GenericParam>, i: usize, first: bool)
    requires
        i <= params@.len(),
    ensures
        final(out)@ == old(out)@ + spec_named_params(view_params(params@), i as int, first),
    decreases params@.len() - i,
{
    proof {
        lemma_view_params_index(params@);
    }
    if i == params.len() {
        proof {
            assert(old(out)@ + spec_named_params(view_params(params@), i as int, first) =~= old(
                out,
            )@);
        }
    } else {
        match &params[i].name {
            Some(n) => {
                if !first {
                    out.append(", ");
                }
                out.append(n.as_str());
                append_named_params(out, params, i + 1, false);
            },
            None => {
                append_named_params(out, params, i + 1, first);
            },
        }
        proof {
            assert(out@ =~= old(out)@ + spec_named_params(view_params(params@), i as int, first));
        }
    }
}

/// Builds the generics suffix of a struct heading.
fn generics_str(g: &Option<Generics>) -> (r: String)
    ensures
        r@ == spec_generics_str(view_opt_generics(*g)),
{
    let mut out = String::new();
    match g {
        Some(gs) => {
            if has_named_param(&gs.params, 0) {
                out.append("<");
                append_named_params(&mut out, &gs.params, 0, true);
                out.append(">");
                proof {
                    assert(out@ =~= spec_generics_str(view_opt_generics(*g)));
                }
            }
        },
        None => {},
    }
    out
}

fn generics_nonempty(g: &Option<Generics>) -> (r: bool)
    ensures
        r == spec_generics_nonempty(view_opt_generics(*g)),
{
    match g {
        Some(gs) => {
            proof {
                lemma_view_params_index(gs.params@);
            }
            gs.params.len() > 0
        },
        None => false,
    }
}

#[verifier::loop_isolation(false)]
fn append_impl_params(out: &mut String, params: &Vec<GenericParam>, i: usize)
    requires
        i <= params@.len(),
    ensures
        final(out)@ == old(out)@ + spec_impl_params(view_params(params@), i as int),
    decreases params@.len() - i,
{
    proof {
        lemma_view_params_index(params@);
    }
    if i == params.len() {
        proof {
            assert(old(out)@ + spec_impl_params(view_params(params@), i as int) =~= old(out)@);
        }
    } else {
        if i > 0 {
            out.append(", ");
        }
        match &params[i].name {
            Some(n) => {
                out.append(n.as_str());
            },
            None => {},
        }
        append_impl_params(out, params, i + 1);
        proof {
            assert(out@ =~= old(out)@ + spec_impl_params(view_params(params@), i as int));
        }
    }
}

/// The first of a few known lifetime names among the parameters of the
/// struct, with `'a` standing in when none can be read.
pub fn extract_lifetime_param(g: &Option<Generics>) -> (r: &'static str)
    ensures
        r@ == spec_extract_lifetime_param(view_opt_generics(*g)),
{
    proof {
        reveal_strlit("'a");
    }
    match g {
        Some(gs) => {
            proof {
                lemma_view_params_index(gs.params@);
            }
            if gs.params.len() > 0 {
                match &gs.params[0].name {
                    Some(n) => {
                        if str_eq(n.as_str(), "'a") {
                            "'a"
                        } else if str_eq(n.as_str(), "'b") {
                            "'b"
                        } else if str_eq(n.as_str(), "'c") {
                            "'c"
                        } else if str_eq(n.as_str(), "'d") {
                            "'d"
                        } else if str_eq(n.as_str(), "'static") {
                            "'static"
                        } else {
                            "'a"
                        }
                    },
                    None => "'a",
                }
            } else {
                "'a"
            }
        },
        None => "'a",
    }
}

fn find_lt_apos(s: &str, s_len: usize, i: usize) -> (r: Option<usize>)
    requires
        s_len == s@.len(),
        i <= s_len,
    ensures
        match r {
            Some(p) => spec_find_lt_apos(s@, i as int) == p as int && p + 2 <= s_len,
            None => spec_find_lt_apos(s@, i as int) == -1,
        },
    decreases s_len - i,
{
    if s_len < 2 || i > s_len - 2 {
        None
    } else if s.get_char(i) == '<' && s.get_char(i + 1) == '\'' {
        Some(i)
    } else {
        find_lt_apos(s, s_len, i + 1)
    }
}

fn find_comma_gt(s: &str, s_len: usize, i: usize) -> (r: Option<usize>)
    requires
        s_len == s@.len(),
        i <= s_len,
    ensures
        match r {
            Some(p) => spec_find_comma_gt(s@, i as int) == p as int && p < s_len && i <= p,
            None => spec_find_comma_gt(s@, i as int) == -1,
        },
    decreases s_len - i,
{
    if i >= s_len {
        None
    } else {
        let c = s.get_char(i);
        if c == ',' || c == '>' {
            Some(i)
        } else {
            find_comma_gt(s, s_len, i + 1)
        }
    }
}

fn str_contains_char(s: &str, c: char) -> (r: bool)
    ensures
        r == s@.contains(c),
{
    let n = s.unicode_len();
    let mut i: usize = 0;
    while i < n
        invariant
            n == s@.len(),
            0 <= i <= n,
            forall|k: int| 0 <= k < i ==> s@[k] != c,
        decreases n - i,
    {
        if s.get_char(i) == c {
            proof {
                assert(s@[i as int] == c);
            }
            return true;
        }
        i += 1;
    }
    proof {
        assert(forall|k: int| 0 <= k < s@.len() ==> s@[k] != c);
    }
    false
}

#[verifier::loop_isolation(false)]
fn append_enum_variants(
    out: &mut String,
    index: &Vec<(String, RustDocItem)>,
    ids: &Vec<String>,
    i: usize,
)
    requires
        i <= ids@.len(),
    ensures
        final(out)@ == old(out)@ + spec_enum_variants(
            view_index(index@),
            view_strings(ids@),
            i as int,
        ),
    decreases ids@.len() - i,
{
    proof {
        lemma_view_strings_index(ids@);
    }
    if i == ids.len() {
        proof {
            assert(old(out)@ + spec_enum_variants(view_index(index@), view_strings(ids@), i as int)
                =~= old(out)@);
        }
    } else {
        match index_get(index, ids[i].as_str()) {
            Some(v) => {
                match &v.docs {
                    Some(dc) => {
                        append_doc_lines(out, dc.as_str(), "    /// ");
                    },
                    None => {},
                }
                match &v.name {
                    Some(n) => {
                        out.append("    ");
                        out.append(n.as_str());
                        out.append(",\n");
                    },
                    None => {},
                }
            },
            None => {},
        }
        append_enum_variants(out, index, ids, i + 1);
        proof {
            assert(out@ =~= old(out)@ + spec_enum_variants(
                view_index(index@),
                view_strings(ids@),
                i as int,
            ));
        }
    }
}

fn append_enum_block(
    out: &mut String,
    index: &Vec<(String, RustDocItem)>,
    name: &str,
    variants: &Vec<String>,
    generics: &Option<Generics>,
)
    ensures
        final(out)@ == old(out)@ + spec_enum_block(
            view_index(index@),
            name@,
            view_strings(variants@),
            view_opt_generics(*generics),
        ),
{
    out.append("```rust\n");
    out.append("pub enum ");
    out.append(name);
    if generics_nonempty(generics) {
        out.append("<...>");
    }
    out.append(" {\n");
    append_enum_variants(out, index, variants, 0);
    out.append("}\n");
    out.append("```\n");
    out.append("\n");
    proof {
        assert(out@ =~= old(out)@ + spec_enum_block(
            view_index(index@),
            name@,
            view_strings(variants@),
            view_opt_generics(*generics),
        ));
    }
}

#[verifier::loop_isolation(false)]
fn append_placeholders(out: &mut String, n: usize)
    requires
        n >= 1,
    ensures
        final(out)@ == old(out)@ + spec_placeholders(n as int),
    decreases n,
{
    if n == 1 {
        out.append("/* field type */");
    } else {
        append_placeholders(out, n - 1);
        out.append(", /* field type */");
    }
    proof {
        assert(out@ =~= old(out)@ + spec_placeholders(n as int));
    }
}

/// Appends the body line of an enum variant.
fn append_variant_lines(
    out: &mut String,
    name: &str,
    shape: &VariantShape,
    discriminant: &Option<String>,
)
    ensures
        final(out)@ == old(out)@ + spec_variant_lines(name@, *shape, view_opt_str(*discriminant)),
{
    match shape {
        VariantShape::TupleShaped { arity } => {
            if *arity == 0 {
                out.append(name);
                out.append("(),\n");
            } else {
                out.append(name);
                out.append("(");
                append_placeholders(out, *arity);
                out.append("),\n");
            }
            proof {
                assert(out@ =~= old(out)@ + spec_variant_lines(
                    name@,
                    *shape,
                    view_opt_str(*discriminant),
                ));
            }
        },
        VariantShape::StructShaped { n_fields } => {
            if *n_fields == 0 {
                out.append(name);
                out.append(" {},\n");
            } else {
                out.append(name);
                out.append(" {\n");
                out.append("    // fields...\n");
                out.append(name);
                out.append("},\n");
            }
            proof {
                assert(out@ =~= old(out)@ + spec_variant_lines(
                    name@,
                    *shape,
                    view_opt_str(*discriminant),
                ));
            }
        },
        VariantShape::Plain => {
            match discriminant {
                Some(e) => {
                    out.append(name);
                    out.append(" = ");
                    out.append(e.as_str());
                    out.append(",\n");
                },
                None => {
                    out.append(name);
                    out.append(",\n");
                },
            }
            proof {
                assert(out@ =~= old(out)@ + spec_variant_lines(
                    name@,
                    *shape,
                    view_opt_str(*discriminant),
                ));
            }
        },
        VariantShape::Other => {
            out.append(name);
            out.append(",\n");
            proof {
                assert(out@ =~= old(out)@ + spec_variant_lines(
                    name@,
                    *shape,
                    view_opt_str(*discriminant),
                ));
            }
        },
    }
}


/// The first lifetime name inside a rendered generics string such as
/// `<'a, T>`: the text between the `<'` and the first `,` or `>` after
/// it.
pub fn extract_first_lifetime(generics_str: &str) -> (r: Option<&str>)
    ensures
        match r {
            Some(sub) => spec_extract_first_lifetime(generics_str@) == Some(sub@),
            None => spec_extract_first_lifetime(generics_str@) is None,
        },
{
    let n = generics_str.unicode_len();
    match find_lt_apos(generics_str, n, 0) {
        None => None,
        Some(i) => match find_comma_gt(generics_str, n, i + 1) {
            None => None,
            Some(j) => Some(generics_str.substring_char(i + 1, j)),
        },
    }
}

#[verifier::loop_isolation(false)]
fn append_tuple_from_ids(
    out: &mut String,
    index: &Vec<(String, RustDocItem)>,
    ids: &Vec<String>,
    i: usize,
    first: bool,
)
    requires
        i <= ids@.len(),
    ensures
        final(out)@ == old(out)@ + spec_tuple_from_ids(
            view_index(index@),
            view_strings(ids@),
            i as int,
            first,
        ),
    decreases ids@.len() - i,
{
    proof {
        lemma_view_strings_index(ids@);
    }
    if i == ids.len() {
        proof {
            assert(old(out)@ + spec_tuple_from_ids(
                view_index(index@),
                view_strings(ids@),
                i as int,
                first,
            ) =~= old(out)@);
        }
    } else {
        match index_get(index, ids[i].as_str()) {
            Some(f) => {
                if !first {
                    out.append(", ");
                }
                if is_public(&f.visibility) {
                    out.append("pub ");
                }
                out.append("/* field type */");
                append_tuple_from_ids(out, index, ids, i + 1, false);
            },
            None => {
                append_tuple_from_ids(out, index, ids, i + 1, first);
            },
        }
        proof {
            assert(out@ =~= old(out)@ + spec_tuple_from_ids(
                view_index(index@),
                view_strings(ids@),
                i as int,
                first,
            ));
        }
    }
}

fn is_public(vis: &Option<String>) -> (r: bool)
    ensures
        r == spec_vis_is_public(view_opt_str(*vis)),
{
    match vis {
        Some(v) => str_eq(v.as_str(), "public"),
        None => false,
    }
}

fn append_tuple_elem(
    out: &mut String,
    f: &TupleFieldInfo,
    item_name: &str,
    generics: &Option<Generics>,
    gstr: &str,
)
    ensures
        final(out)@ == old(out)@ + spec_tuple_elem(
            view_tuple_field(*f),
            item_name@,
            view_opt_generics(*generics),
            gstr@,
        ),
{
    match f {
        TupleFieldInfo::Null => {
            if str_eq(item_name, "HexDisplay") {
                out.append("&");
                out.append(extract_lifetime_param(generics));
                out.append(" [u8]");
            } else if str_contains_char(gstr, '\'') {
                out.append("&");
                match extract_first_lifetime(gstr) {
                    Some(lt) => {
                        out.append(lt);
                    },
                    None => {
                        out.append("'a");
                    },
                }
                out.append(" [u8]");
            } else {
                out.append("/* type */");
            }
            proof {
                assert(out@ =~= old(out)@ + spec_tuple_elem(
                    view_tuple_field(*f),
                    item_name@,
                    view_opt_generics(*generics),
                    gstr@,
                ));
            }
        },
        TupleFieldInfo::Named { name } => {
            out.append(name.as_str());
        },
        TupleFieldInfo::Other => {
            out.append("/* field type */");
        },
    }
}

#[verifier::loop_isolation(false)]
fn append_tuple_from_elems(
    out: &mut String,
    elems: &Vec<TupleFieldInfo>,
    i: usize,
    item_name: &str,
    generics: &Option<Generics>,
    gstr: &str,
)
    requires
        i <= elems@.len(),
    ensures
        final(out)@ == old(out)@ + spec_tuple_from_elems(
            view_tuple_fields(elems@),
            i as int,
            item_name@,
            view_opt_generics(*generics),
            gstr@,
        ),
    decreases elems@.len() - i,
{
    proof {
        lemma_view_tuple_fields_index(elems@);
    }
    if i == elems.len() {
        proof {
            assert(old(out)@ + spec_tuple_from_elems(
                view_tuple_fields(elems@),
                i as int,
                item_name@,
                view_opt_generics(*generics),
                gstr@,
            ) =~= old(out)@);
        }
    } else {
        if i > 0 {
            out.append(", ");
        }
        append_tuple_elem(out, &elems[i], item_name, generics, gstr);
        append_tuple_from_elems(out, elems, i + 1, item_name, generics, gstr);
        proof {
            assert(out@ =~= old(out)@ + spec_tuple_from_elems(
                view_tuple_fields(elems@),
                i as int,
                item_name@,
                view_opt_generics(*generics),
                gstr@,
            ));
        }
    }
}

#[verifier::loop_isolation(false)]
fn append_struct_fields(
    out: &mut String,
    index: &Vec<(String, RustDocItem)>,
    ids: &Vec<String>,
    i: usize,
)
    requires
        i <= ids@.len(),
    ensures
        final(out)@ == old(out)@ + spec_struct_fields(
            view_index(index@),
            view_strings(ids@),
            i as int,
        ),
    decreases ids@.len() - i,
{
    proof {
        lemma_view_strings_index(ids@);
    }
    if i == ids.len() {
        proof {
            assert(old(out)@ + spec_struct_fields(view_index(index@), view_strings(ids@), i as int)
                =~= old(out)@);
        }
    } else {
        match index_get(index, ids[i].as_str()) {
            Some(f) => {
                match &f.docs {
                    Some(dc) => {
                        append_doc_lines(out, dc.as_str(), "    /// ");
                    },
                    None => {},
                }
                match &f.name {
                    Some(n) => {
                        out.append("    ");
                        if is_public(&f.visibility) {
                            out.append("pub ");
                        }
                        out.append(n.as_str());
                        out.append(": /* field type */,\n");
                    },
                    None => {},
                }
            },
            None => {},
        }
        append_struct_fields(out, index, ids, i + 1);
        proof {
            assert(out@ =~= old(out)@ + spec_struct_fields(
                view_index(index@),
                view_strings(ids@),
                i as int,
            ));
        }
    }
}

#[verifier::rlimit(100)]
fn append_struct_block(
    out: &mut String,
    index: &Vec<(String, RustDocItem)>,
    name: &str,
    fields: &Vec<String>,
    generics: &Option<Generics>,
    shape: &Option<StructShape>,
)
    ensures
        final(out)@ == old(out)@ + spec_struct_block(
            view_index(index@),
            name@,
            view_strings(fields@),
            view_opt_generics(*generics),
            view_opt_shape(*shape),
        ),
{
    proof {
        lemma_view_strings_index(fields@);
    }
    let gstr = generics_str(generics);
    out.append("```rust\n");
    match shape {
        Some(StructShape::TupleFields { elems }) => {
            out.append("pub struct ");
            out.append(name);
            out.append(gstr.as_str());
            out.append("(");
            if fields.len() > 0 {
                append_tuple_from_ids(out, index, fields, 0, true);
            } else {
                append_tuple_from_elems(out, elems, 0, name, generics, gstr.as_str());
            }
            out.append(");\n");
        },
        Some(StructShape::Unit) => {
            out.append("pub struct ");
            out.append(name);
            out.append(gstr.as_str());
            out.append(";\n");
        },
        Some(StructShape::Unknown) => {
            out.append("pub struct ");
            out.append(name);
            out.append(gstr.as_str());
            out.append("(); // Unknown struct kind\n");
        },
        None => {
            out.append("pub struct ");
            out.append(name);
            out.append(gstr.as_str());
            out.append(" {\n");
            append_struct_fields(out, index, fields, 0);
            out.append("}\n");
        },
    }
    out.append("```\n");
    out.append("\n");
    proof {
        assert(out@ =~= old(out)@ + spec_struct_block(
            view_index(index@),
            name@,
            view_strings(fields@),
            view_opt_generics(*generics),
            view_opt_shape(*shape),
        ));
    }
}

#[verifier::loop_isolation(false)]
fn append_bound_infos(out: &mut String, bounds: &Vec<TraitBoundInfo>, i: usize)
    requires
        i <= bounds@.len(),
    ensures
        final(out)@ == old(out)@ + spec_bound_infos_str(view_bound_infos(bounds@), i as int),
    decreases bounds@.len() - i,
{
    proof {
        lemma_view_bound_infos_index(bounds@);
    }
    if i == bounds.len() {
        proof {
            assert(old(out)@ + spec_bound_infos_str(view_bound_infos(bounds@), i as int) =~= old(
                out,
            )@);
        }
    } else {
        if i > 0 {
            out.append(" + ");
        }
        match &bounds[i].trait_bound {
            Some(tb) => {
                out.append(tb.trait_path.name.as_str());
            },
            None => {
                match &bounds[i].outlives {
                    Some(o) => {
                        out.append(o.as_str());
                    },
                    None => {},
                }
            },
        }
        append_bound_infos(out, bounds, i + 1);
        proof {
            assert(out@ =~= old(out)@ + spec_bound_infos_str(
                view_bound_infos(bounds@),
                i as int,
            ));
        }
    }
}

#[verifier::loop_isolation(false)]
fn append_trait_sigs(
    out: &mut String,
    index: &Vec<(String, RustDocItem)>,
    ids: &Vec<String>,
    i: usize,
)
    requires
        i <= ids@.len(),
    ensures
        final(out)@ == old(out)@ + spec_trait_sigs(view_index(index@), view_strings(ids@), i as int),
    decreases ids@.len() - i,
{
    proof {
        lemma_view_strings_index(ids@);
    }
    if i == ids.len() {
        proof {
            assert(old(out)@ + spec_trait_sigs(view_index(index@), view_strings(ids@), i as int)
                =~= old(out)@);
        }
    } else {
        match index_get(index, ids[i].as_str()) {
            Some(m) => {
                match &m.name {
                    Some(mn) => {
                        match &m.docs {
                            Some(dc) => {
                                append_doc_lines(out, dc.as_str(), "    /// ");
                            },
                            None => {},
                        }
                        match &m.kind {
                            Some(ItemKind::Function { decl }) => {
                                append_method_sig(out, mn.as_str(), decl);
                            },
                            _ => {},
                        }
                    },
                    None => {},
                }
            },
            None => {},
        }
        append_trait_sigs(out, index, ids, i + 1);
        proof {
            assert(out@ =~= old(out)@ + spec_trait_sigs(
                view_index(index@),
                view_strings(ids@),
                i as int,
            ));
        }
    }
}

fn append_trait_method_one(out: &mut String, trait_name: &str, m: &RustDocItem)
    ensures
        final(out)@ == old(out)@ + spec_trait_method_one(trait_name@, m.deep_view()),
{
    match &m.name {
        Some(mn) => {
            out.append("#### `");
            out.append(trait_name);
            out.append("::");
            out.append(mn.as_str());
            out.append("`\n");
            match &m.docs {
                Some(dc) => {
                    out.append("\n");
                    out.append(dc.as_str());
                    out.append("\n");
                    out.append("\n");
                },
                None => {},
            }
            match &m.kind {
                Some(ItemKind::Function { decl }) => {
                    append_fn_decl_block(out, mn.as_str(), decl);
                    out.append("\n");
                },
                _ => {},
            }
            proof {
                assert(out@ =~= old(out)@ + spec_trait_method_one(trait_name@, m.deep_view()));
            }
        },
        None => {},
    }
}

#[verifier::loop_isolation(false)]
fn append_trait_method_details(
    out: &mut String,
    index: &Vec<(String, RustDocItem)>,
    trait_name: &str,
    ids: &Vec<String>,
    i: usize,
)
    requires
        i <= ids@.len(),
    ensures
        final(out)@ == old(out)@ + spec_trait_method_details(
            view_index(index@),
            trait_name@,
            view_strings(ids@),
            i as int,
        ),
    decreases ids@.len() - i,
{
    proof {
        lemma_view_strings_index(ids@);
    }
    if i == ids.len() {
        proof {
            assert(old(out)@ + spec_trait_method_details(
                view_index(index@),
                trait_name@,
                view_strings(ids@),
                i as int,
            ) =~= old(out)@);
        }
    } else {
        match index_get(index, ids[i].as_str()) {
            Some(m) => {
                append_trait_method_one(out, trait_name, m);
            },
            None => {},
        }
        append_trait_method_details(out, index, trait_name, ids, i + 1);
        proof {
            assert(out@ =~= old(out)@ + spec_trait_method_details(
                view_index(index@),
                trait_name@,
                view_strings(ids@),
                i as int,
            ));
        }
    }
}

#[verifier::rlimit(100)]
#[verifier::spinoff_prover]
fn append_trait_block(
    out: &mut String,
    index: &Vec<(String, RustDocItem)>,
    name: &str,
    bounds: &Vec<TraitBoundInfo>,
    generics: &Option<Generics>,
    is_unsafe: bool,
    ids: &Vec<String>,
)
    ensures
        final(out)@ == old(out)@ + spec_trait_block(
            view_index(index@),
            name@,
            view_bound_infos(bounds@),
            view_opt_generics(*generics),
            is_unsafe,
            view_strings(ids@),
        ),
{
    proof {
        lemma_view_bound_infos_index(bounds@);
    }
    out.append("```rust\n");
    out.append("pub ");
    if is_unsafe {
        out.append("unsafe ");
    }
    out.append("trait ");
    out.append(name);
    if generics_nonempty(generics) {
        out.append("<...>");
    }
    if bounds.len() > 0 {
        out.append(": ");
        append_bound_infos(out, bounds, 0);
    }
    out.append(" {\n");
    proof {
        assert(out@ =~= old(out)@ + spec_trait_header(
            name@,
            view_bound_infos(bounds@),
            view_opt_generics(*generics),
            is_unsafe,
        ));
    }
    append_trait_sigs(out, index, ids, 0);
    out.append("}\n");
    out.append("```\n");
    out.append("\n");
    out.append("**Methods:**\n");
    out.append("\n");
    append_trait_method_details(out, index, name, ids, 0);
    proof {
        assert(out@ =~= old(out)@ + spec_trait_block(
            view_index(index@),
            name@,
            view_bound_infos(bounds@),
            view_opt_generics(*generics),
            is_unsafe,
            view_strings(ids@),
        ));
    }
}

fn append_for_type_name(out: &mut String, t: &TypeExpr)
    ensures
        final(out)@ == old(out)@ + spec_for_type_name(view_type(*t)),
{
    match t {
        TypeExpr::ResolvedPath { path } => {
            out.append(path.name.as_str());
            append_opt_args(out, &path.args);
            proof {
                assert(out@ =~= old(out)@ + spec_for_type_name(view_type(*t)));
            }
        },
        TypeExpr::Array { inner, len } => {
            out.append("[");
            match &**inner {
                TypeExpr::Primitive { name } => {
                    out.append(name.as_str());
                },
                _ => {
                    out.append("/* type */");
                },
            }
            out.append("; ");
            out.append(len.as_str());
            out.append("]");
            proof {
                reveal_with_fuel(view_type, 2);
                assert(out@ =~= old(out)@ + spec_for_type_name(view_type(*t)));
            }
        },
        _ => {
            out.append("/* Unknown */");
            proof {
                assert(out@ =~= old(out)@ + spec_for_type_name(view_type(*t)));
            }
        },
    }
}

#[verifier::loop_isolation(false)]
fn append_impl_methods(
    out: &mut String,
    index: &Vec<(String, RustDocItem)>,
    ids: &Vec<String>,
    i: usize,
)
    requires
        i <= ids@.len(),
    ensures
        final(out)@ == old(out)@ + spec_impl_methods(
            view_index(index@),
            view_strings(ids@),
            i as int,
        ),
    decreases ids@.len() - i,
{
    proof {
        lemma_view_strings_index(ids@);
    }
    if i == ids.len() {
        proof {
            assert(old(out)@ + spec_impl_methods(view_index(index@), view_strings(ids@), i as int)
                =~= old(out)@);
        }
    } else {
        match index_get(index, ids[i].as_str()) {
            Some(m) => {
                match &m.name {
                    Some(mn) => {
                        match &m.kind {
                            Some(ItemKind::Function { decl }) => {
                                append_method_sig(out, mn.as_str(), decl);
                            },
                            _ => {},
                        }
                    },
                    None => {},
                }
            },
            None => {},
        }
        append_impl_methods(out, index, ids, i + 1);
        proof {
            assert(out@ =~= old(out)@ + spec_impl_methods(
                view_index(index@),
                view_strings(ids@),
                i as int,
            ));
        }
    }
}

/// Appends the standalone block of a trait implementation; an impl
/// without a trait reference or `for` type appends nothing.
#[verifier::rlimit(100)]
#[verifier::spinoff_prover]
pub fn append_impl_details(out: &mut String, doc: &RustDoc, item: &RustDocItem)
    ensures
        final(out)@ == old(out)@ + spec_impl_details(doc.deep_view(), item.deep_view()),
{
    match &item.kind {
        Some(ItemKind::Impl { trait_ref: Some(tr), for_type: Some(ft), items, generics, .. }) => {
            let mut ftn = String::new();
            append_for_type_name(&mut ftn, ft);
            out.append("### Implementation of `");
            out.append(tr.name.as_str());
            out.append("` for `");
            out.append(ftn.as_str());
            out.append("`\n");
            out.append("\n");
            out.append("```rust\n");
            proof {
                assert(out@ =~= old(out)@ + spec_impl_heading(
                    tr.name@,
                    spec_for_type_name(view_type(*ft)),
                ));
            }
            let ghost after_heading = out@;
            out.append("impl");
            let ghost gpart_start = out@;
            match generics {
                Some(gs) => {
                    proof {
                        lemma_view_params_index(gs.params@);
                    }
                    if gs.params.len() > 0 {
                        out.append("<");
                        append_impl_params(out, &gs.params, 0);
                        out.append(">");
                    }
                },
                None => {},
            }
            let ghost gpart_end = out@;
            out.append(" ");
            out.append(tr.name.as_str());
            append_opt_args(out, &tr.args);
            out.append(" for ");
            out.append(ftn.as_str());
            out.append(" {\n");
            proof {
                assert(out@ =~= after_heading + spec_impl_open(
                    gpart_end.subrange(gpart_start.len() as int, gpart_end.len() as int),
                    tr.name@,
                    spec_render_opt_args(crate::model::view_opt_args(tr.args)),
                    spec_for_type_name(view_type(*ft)),
                ));
            }
            let ghost after_open = out@;
            append_impl_methods(out, &doc.index, items, 0);
            out.append("}\n");
            out.append("```\n");
            out.append("\n");
            proof {
                assert(out@ =~= old(out)@ + spec_impl_details(doc.deep_view(), item.deep_view()));
            }
        },
        _ => {
            proof {
                assert(old(out)@ + spec_impl_details(doc.deep_view(), item.deep_view()) =~= old(
                    out,
                )@);
            }
        },
    }
}

fn is_manual_trait(t: &String) -> (r: bool)
    ensures
        r == spec_is_manual(t@),
{
    str_eq(t.as_str(), "Debug") || str_eq(t.as_str(), "Display") || str_eq(t.as_str(), "Clone")
        || str_eq(t.as_str(), "PartialEq") || str_eq(t.as_str(), "Eq") || str_eq(
        t.as_str(),
        "PartialOrd",
    ) || str_eq(t.as_str(), "Ord") || str_eq(t.as_str(), "Hash") || !(str_starts_with(
        t.as_str(),
        "std::",
    ) || str_starts_with(t.as_str(), "alloc::"))
}

#[verifier::loop_isolation(false)]
fn has_split(list: &Vec<String>, i: usize, manual: bool) -> (r: bool)
    requires
        i <= list@.len(),
    ensures
        r == spec_has_split(view_strings(list@), i as int, manual),
    decreases list@.len() - i,
{
    proof {
        lemma_view_strings_index(list@);
    }
    if i == list.len() {
        false
    } else if is_manual_trait(&list[i]) == manual {
        true
    } else {
        has_split(list, i + 1, manual)
    }
}

#[verifier::loop_isolation(false)]
fn append_bullets(out: &mut String, list: &Vec<String>, i: usize, manual: bool)
    requires
        i <= list@.len(),
    ensures
        final(out)@ == old(out)@ + spec_bullets(view_strings(list@), i as int, manual),
    decreases list@.len() - i,
{
    proof {
        lemma_view_strings_index(list@);
    }
    if i == list.len() {
        proof {
            assert(old(out)@ + spec_bullets(view_strings(list@), i as int, manual) =~= old(out)@);
        }
    } else {
        if is_manual_trait(&list[i]) == manual {
            out.append("- `");
            out.append(list[i].as_str());
            out.append("`\n");
        }
        append_bullets(out, list, i + 1, manual);
        proof {
            assert(out@ =~= old(out)@ + spec_bullets(view_strings(list@), i as int, manual));
        }
    }
}

fn append_implements_block(out: &mut String, list: &Vec<String>)
    ensures
        final(out)@ == old(out)@ + spec_implements_block(view_strings(list@)),
{
    proof {
        lemma_view_strings_index(list@);
    }
    if list.len() == 0 {
        return ;
    }
    if has_split(list, 0, true) {
        out.append("**Implements:**\n");
        append_bullets(out, list, 0, true);
        out.append("\n");
    }
    if has_split(list, 0, false) {
        out.append("**Auto-implemented traits:**\n");
        append_bullets(out, list, 0, false);
        out.append("\n");
    }
    proof {
        assert(out@ =~= old(out)@ + spec_implements_block(view_strings(list@)));
    }
}

fn append_item_head(out: &mut String, doc: &RustDoc, item: &RustDocItem, name: &String)
    requires
        item.name == Some(*name),
    ensures
        final(out)@ == old(out)@ + spec_item_heading(item.deep_view(), name@) + spec_item_docs(
            doc.deep_view(),
            item.deep_view(),
        ),
{
    let ghost d = doc.deep_view();
    let ghost itv = item.deep_view();
    if matches!(&item.kind, Some(ItemKind::Variant { .. })) {
        out.append("#### `");
        out.append(name.as_str());
        out.append("`\n");
        out.append("\n");
    } else {
        out.append("### ");
        if is_public(&item.visibility) {
            out.append("pub ");
        }
        out.append(name.as_str());
        out.append("\n");
        out.append("\n");
    }
    proof {
        assert(out@ =~= old(out)@ + spec_item_heading(itv, name@));
    }
    let ghost after_heading = out@;
    match &item.docs {
        Some(dc) => {
            if dc.as_str().unicode_len() > 0 {
                let processed = process_documentation(doc, item, dc.as_str());
                out.append(processed.as_str());
                out.append("\n");
                out.append("\n");
            }
        },
        None => {},
    }
    proof {
        assert(out@ =~= after_heading + spec_item_docs(d, itv));
    }
}

#[verifier::rlimit(100)]
fn append_item_kind_body(out: &mut String, doc: &RustDoc, item: &RustDocItem, name: &String)
    requires
        item.name == Some(*name),
        item.kind is Some,
    ensures
        final(out)@ == old(out)@ + spec_item_kind_body(
            doc.deep_view(),
            item.deep_view(),
            name@,
            item.deep_view().kind->0,
        ),
{
    let ghost d = doc.deep_view();
    let ghost itv = item.deep_view();
    match &item.kind {
        None => {
            proof {
                assert(false);
            }
        },
        Some(k) => {
            match k {
                ItemKind::Function { decl } => {
                    append_fn_decl_block(out, name.as_str(), decl);
                    out.append("\n");
                },
                ItemKind::Variant { discriminant, shape } => {
                    out.append("```rust\n");
                    append_variant_lines(out, name.as_str(), shape, discriminant);
                    out.append("```\n");
                    out.append("\n");
                },
                ItemKind::Enum { variants, generics, .. } => {
                    append_enum_block(out, &doc.index, name.as_str(), variants, generics);
                },
                ItemKind::Struct { fields, generics, shape, .. } => {
                    append_struct_block(out, &doc.index, name.as_str(), fields, generics, shape);
                },
                ItemKind::Trait { bounds, generics, is_unsafe, items } => {
                    append_trait_block(
                        out,
                        &doc.index,
                        name.as_str(),
                        bounds,
                        generics,
                        *is_unsafe,
                        items,
                    );
                },
                ItemKind::Impl { .. } => {},
            }
            proof {
                assert(out@ =~= old(out)@ + spec_item_kind_body(d, itv, name@, itv.kind->0));
            }
        },
    }
}

fn append_item_trailer(out: &mut String, doc: &RustDoc, item: &RustDocItem)
    ensures
        final(out)@ == old(out)@ + spec_implements_block(
            spec_item_traits(doc.deep_view(), item.deep_view()),
        ) + spec_impl_details(doc.deep_view(), item.deep_view()) + "\n"@,
{
    let ghost d = doc.deep_view();
    let ghost itv = item.deep_view();
    let traits_list: Vec<String> = match &item.kind {
        Some(ItemKind::Enum { impls, .. }) => implements_list(&doc.index, impls),
        Some(ItemKind::Struct { impls, .. }) => implements_list(&doc.index, impls),
        _ => Vec::new(),
    };
    proof {
        if !(itv.kind matches Some(ItemKindV::Enum { .. }) || itv.kind matches Some(
            ItemKindV::Struct { .. },
        )) {
            assert(view_strings(traits_list@) =~= Seq::<Seq<char>>::empty());
        }
        assert(view_strings(traits_list@) == spec_item_traits(d, itv));
    }
    append_implements_block(out, &traits_list);
    append_impl_details(out, doc, item);
    out.append("\n");
    proof {
        assert(out@ =~= old(out)@ + spec_implements_block(spec_item_traits(d, itv))
            + spec_impl_details(d, itv) + "\n"@);
    }
}

/// Appends the full rendering of one index entry.
#[verifier::rlimit(100)]
pub fn append_item_md(out: &mut String, doc: &RustDoc, item: &RustDocItem)
    ensures
        final(out)@ == old(out)@ + spec_item_md(doc.deep_view(), item.deep_view()),
{
    let ghost d = doc.deep_view();
    let ghost itv = item.deep_view();
    if matches!(&item.kind, Some(ItemKind::Impl { .. })) && item.name.is_none() {
        append_impl_details(out, doc, item);
        return ;
    }
    let name: &String = match &item.name {
        Some(n) => n,
        None => {
            proof {
                assert(old(out)@ + spec_item_md(d, itv) =~= old(out)@);
            }
            return ;
        },
    };
    if is_trait_method_implementation(doc, item) {
        proof {
            assert(old(out)@ + spec_item_md(d, itv) =~= old(out)@);
        }
        return ;
    }
    append_item_head(out, doc, item, name);
    let ghost after_head = out@;
    match &item.kind {
        None => {
            out.append("\n");
            proof {
                assert(out@ =~= old(out)@ + spec_item_body(d, itv, name@));
            }
        },
        Some(_) => {
            append_item_kind_body(out, doc, item, name);
            append_item_trailer(out, doc, item);
            proof {
                assert(out@ =~= old(out)@ + spec_item_body(d, itv, name@));
            }
        },
    }
}

/// The characters of a path after its last slash.
#[verifier::loop_isolation(false)]
pub fn after_last_slash<'a>(s: &'a str) -> (r: &'a str)
    ensures
        r@ == spec_after_last_slash(s@),
{
    let n = s.unicode_len();
    let mut i: usize = n;
    while i > 0
        invariant
            n == s@.len(),
            0 <= i <= n,
            forall|k: int| i <= k < n ==> s@[k] != '/',
        decreases i,
    {
        if s.get_char(i - 1) == '/' {
            let r = s.substring_char(i, n);
            proof {
                lemma_after_last_slash(s@, i as int);
            }
            return r;
        }
        i -= 1;
    }
    let r = s.substring_char(0, n);
    proof {
        lemma_after_last_slash(s@, 0);
        assert(r@ =~= s@);
    }
    r
}

/// After position `i`, when no slash stands at or after `i` and the
/// character before `i` (if any) is a slash, the tail after the last
/// slash is the suffix from `i`.
proof fn lemma_after_last_slash(s: Seq<char>, i: int)
    requires
        0 <= i <= s.len(),
        forall|k: int| i <= k < s.len() ==> s[k] != '/',
        i > 0 ==> s[i - 1] == '/',
    ensures
        spec_after_last_slash(s) == s.subrange(i, s.len() as int),
    decreases s.len(),
{
    if s.len() == 0 {
        assert(s.subrange(0, 0) =~= s);
    } else if i == s.len() {
        assert(s[s.len() - 1] == '/');
        assert(s.subrange(i, s.len() as int) =~= Seq::<char>::empty());
    } else {
        assert(s[s.len() - 1] != '/');
        let fore = s.subrange(0, s.len() - 1);
        lemma_after_last_slash(fore, i);
        assert(fore.subrange(i, fore.len() as int) =~= s.subrange(i, s.len() - 1));
        assert(s.subrange(i, s.len() as int) =~= s.subrange(i, s.len() - 1) + seq![
            s[s.len() - 1],
        ]);
    }
}

#[verifier::loop_isolation(false)]
fn cat_nonempty(doc: &RustDoc, c: Category) -> (r: bool)
    ensures
        r == spec_cat_nonempty(doc.deep_view(), c),
{
    let ghost d = doc.deep_view();
    proof {
        lemma_view_index_index(doc.index@);
    }
    let n = doc.index.len();
    let mut i: usize = 0;
    while i < n
        invariant
            n == doc.index@.len(),
            d.index.len() == n,
            0 <= i <= n,
            forall|k: int| 0 <= k < i ==> !in_cat(#[trigger] d.index[k], c),
        decreases n - i,
    {
        if cat_matches(&doc.index[i].0, &doc.index[i].1, c) {
            proof {
                assert(in_cat(d.index[i as int], c));
            }
            return true;
        }
        i += 1;
    }
    false
}

#[verifier::loop_isolation(false)]
fn append_cat_items(out: &mut String, doc: &RustDoc, c: Category)
    ensures
        final(out)@ == old(out)@ + spec_cat_items_md(doc.deep_view(), c, 0),
{
    let ghost d = doc.deep_view();
    proof {
        lemma_view_index_index(doc.index@);
    }
    let n = doc.index.len();
    let mut i: usize = 0;
    while i < n
        invariant
            n == doc.index@.len(),
            d.index.len() == n,
            0 <= i <= n,
            out@ + spec_cat_items_md(d, c, i as int) == old(out)@ + spec_cat_items_md(d, c, 0),
        decreases n - i,
    {
        let ghost prev = out@;
        if cat_matches(&doc.index[i].0, &doc.index[i].1, c) {
            append_item_md(out, doc, &doc.index[i].1);
            proof {
                assert(out@ =~= prev + spec_item_md(d, d.index[i as int].1));
            }
        }
        proof {
            assert(out@ + spec_cat_items_md(d, c, i + 1) =~= prev + spec_cat_items_md(
                d,
                c,
                i as int,
            ));
        }
        i += 1;
    }
    proof {
        assert(out@ =~= old(out)@ + spec_cat_items_md(d, c, 0));
    }
}

fn append_section(out: &mut String, doc: &RustDoc, c: Category, heading: &str)
    ensures
        final(out)@ == old(out)@ + spec_section(doc.deep_view(), c, heading@),
{
    if cat_nonempty(doc, c) {
        out.append(heading);
        append_cat_items(out, doc, c);
        proof {
            assert(out@ =~= old(out)@ + spec_section(doc.deep_view(), c, heading@));
        }
    }
}

impl RustDoc {
    /// Renders the whole index as a Markdown document: the title line,
    /// then one section per non-empty category in the fixed order.
    pub fn to_markdown(&self) -> (r: String)
        ensures
            r@ == spec_render_doc(self.deep_view()),
    {
        let mut out = String::new();
        out.append("# ");
        out.append(after_last_slash(self.root.as_str()));
        out.append(" v");
        out.append(self.crate_version.as_str());
        out.append("\n");
        out.append("\n");
        append_section(&mut out, self, Category::Functions, "## Functions\n\n");
        append_section(&mut out, self, Category::Structs, "## Structs\n\n");
        append_section(&mut out, self, Category::Enums, "## Enums\n\n");
        append_section(&mut out, self, Category::Traits, "## Traits\n\n");
        append_section(&mut out, self, Category::Impls, "## Implementations\n\n");
        append_section(&mut out, self, Category::EnumVariants, "## Enum Variants\n\n");
        append_section(&mut out, self, Category::Others, "## Other Items\n\n");
        proof {
            assert(out@ =~= spec_render_doc(self.deep_view()));
        }
        out
    }
}

} // verus!
