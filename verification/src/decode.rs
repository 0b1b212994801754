use vstd::prelude::*;
use vstd::string::StringExecFns;

use crate::json::JsonV;
use crate::json::JsonValue;
use crate::json::clone_json;
use crate::json::jv_get;
use crate::json::lemma_jv_get_smaller;
use crate::json::lemma_view_json_seq_index;
use crate::json::view_json_seq;
use crate::model::GenericArgsV;
use crate::model::GenericArgV;
use crate::model::GenericParamV;
use crate::model::GenericsV;
use crate::model::PathV;
use crate::model::TraitBoundV;
use crate::model::TypeBindingV;
use crate::model::TypeExprV;
use crate::model::Generics;
use crate::model::GenericArg;
use crate::model::GenericArgs;
use crate::model::GenericParam;
use crate::model::Path;
use crate::model::TraitBound;
use crate::model::TypeBinding;
use crate::model::TypeExpr;
use crate::model::lemma_view_arg_seq_index;
use crate::model::lemma_view_bindings_index;
use crate::model::lemma_view_bounds_index;
use crate::model::lemma_view_params_index;
use crate::model::lemma_view_strings_index;
use crate::model::lemma_view_types_index;
use crate::model::view_arg;
use crate::model::view_arg_seq;
use crate::model::view_binding;
use crate::model::view_bindings;
use crate::model::view_bound;
use crate::model::view_bounds;
use crate::model::view_opt_args;
use crate::model::view_opt_generics;
use crate::model::view_opt_str;
use crate::model::view_params;
use crate::model::view_opt_path;
use crate::model::view_path;
use crate::model::view_strings;
use crate::model::view_type;
use crate::model::view_types;

verus! {

// ---------------------------------------------------------------------------
// Schema errors.
//
// A sub-document that matches no known shape is fatal for the whole
// document: the index is recursively linked, and skipping one node could
// leave dangling references elsewhere. The error names the grammar
// production that failed and carries the offending sub-document.
// ---------------------------------------------------------------------------

/// The grammar production that a sub-document failed to match.
#[derive(Clone, Copy, PartialEq, Eq, Structural, Debug)]
pub enum SchemaErrKind {
    Document,
    Item,
    Links,
    Function,
    FnInput,
    EnumPayload,
    StructPayload,
    StructKind,
    TraitPayload,
    TraitBound,
    ImplPayload,
    Generics,
    GenericParam,
    TypeShape,
    GenericArgs,
    GenericArg,
    Binding,
    PathShape,
}

/// A failed match of a sub-document against the schema.
#[derive(Debug)]
pub struct SchemaError {
    pub kind: SchemaErrKind,
    pub offending: JsonValue,
    pub item_id: Option<String>,
}

#[verifier::ext_equal]
pub struct SchemaErrV {
    pub kind: SchemaErrKind,
    pub offending: JsonV,
    pub item_id: Option<Seq<char>>,
}

impl DeepView for SchemaError {
    type V = SchemaErrV;

    open spec fn deep_view(&self) -> SchemaErrV {
        SchemaErrV {
            kind: self.kind,
            offending: self.offending.deep_view(),
            item_id: view_opt_str(self.item_id),
        }
    }
}

/// Shorthand for an error value, before an item identifier is attached.
pub open spec fn serr(kind: SchemaErrKind, offending: JsonV) -> SchemaErrV {
    SchemaErrV { kind, offending, item_id: None }
}

pub fn mk_err(kind: SchemaErrKind, offending: &JsonValue) -> (r: SchemaError)
    ensures
        r.deep_view() == serr(kind, offending.deep_view()),
{
    SchemaError { kind, offending: clone_json(offending), item_id: None }
}

// ---------------------------------------------------------------------------
// Field helpers. A failed helper hands back the offending sub-document;
// the caller wraps it with the production it was decoding.
// ---------------------------------------------------------------------------

/// An optional string field: absent or null is `None`.
pub open spec fn spec_field_opt_str(j: JsonV, key: Seq<char>) -> Result<Option<Seq<char>>, JsonV> {
    match jv_get(j, key) {
        Option::None => Ok(None),
        Option::Some(JsonV::Null) => Ok(None),
        Option::Some(JsonV::Str(s)) => Ok(Some(s)),
        Option::Some(v) => Err(v),
    }
}

/// A required string field; a missing one blames the whole object.
pub open spec fn spec_field_req_str(j: JsonV, key: Seq<char>) -> Result<Seq<char>, JsonV> {
    match jv_get(j, key) {
        Option::None => Err(j),
        Option::Some(JsonV::Str(s)) => Ok(s),
        Option::Some(v) => Err(v),
    }
}

/// A required boolean field; a missing one blames the whole object.
pub open spec fn spec_field_req_bool(j: JsonV, key: Seq<char>) -> Result<bool, JsonV> {
    match jv_get(j, key) {
        Option::None => Err(j),
        Option::Some(JsonV::Bool(b)) => Ok(b),
        Option::Some(v) => Err(v),
    }
}

/// An optional boolean field, false when absent.
pub open spec fn spec_field_bool_default(j: JsonV, key: Seq<char>) -> Result<bool, JsonV> {
    match jv_get(j, key) {
        Option::None => Ok(false),
        Option::Some(JsonV::Bool(b)) => Ok(b),
        Option::Some(v) => Err(v),
    }
}

/// Elements of an array that must all be strings.
pub open spec fn spec_str_items(elems: Seq<JsonV>, i: int) -> Result<Seq<Seq<char>>, JsonV>
    decreases elems.len() - i,
{
    if i < 0 || i >= elems.len() {
        Ok(Seq::empty())
    } else {
        match elems[i] {
            JsonV::Str(s) => match spec_str_items(elems, i + 1) {
                Ok(rest) => Ok(seq![s] + rest),
                Err(v) => Err(v),
            },
            v => Err(v),
        }
    }
}

/// A field holding an array of identifier strings. When the field may be
/// absent, absence yields the empty list; null or any other non-array
/// shape is refused either way.
pub open spec fn spec_field_str_list(j: JsonV, key: Seq<char>, required: bool) -> Result<
    Seq<Seq<char>>,
    JsonV,
> {
    match jv_get(j, key) {
        Option::None => if required {
            Err(j)
        } else {
            Ok(Seq::empty())
        },
        Option::Some(JsonV::Arr(elems)) => spec_str_items(elems, 0),
        Option::Some(v) => Err(v),
    }
}

// ---------------------------------------------------------------------------
// The type-expression grammar, decoded from JSON.
//
// The wire shapes overlap, so each candidate variant is tried in the
// fixed order in which `TypeExpr` declares them: primitive, generic,
// resolved path, borrowed reference, slice, array, raw pointer,
// `impl Trait`, `dyn Trait`, qualified path, tuple, and the empty object
// as the self type. The first variant whose key is present wins; a
// present key with a malformed payload is a schema error; an object with
// no known key, or a non-object, is the explicit unrecognized state.
// ---------------------------------------------------------------------------

pub open spec fn spec_decode_type(j: JsonV) -> Result<TypeExprV, SchemaErrV>
    decreases j, 40int,
{
    if !(j is Obj) {
        Ok(TypeExprV::Unrecognized)
    } else if jv_get(j, "primitive"@) is Some {
        match jv_get(j, "primitive"@)->0 {
            JsonV::Str(s) => Ok(TypeExprV::Primitive { name: s }),
            v => Err(serr(SchemaErrKind::TypeShape, v)),
        }
    } else if jv_get(j, "generic"@) is Some {
        match jv_get(j, "generic"@)->0 {
            JsonV::Str(s) => Ok(TypeExprV::Generic { name: s }),
            v => Err(serr(SchemaErrKind::TypeShape, v)),
        }
    } else if jv_get(j, "resolved_path"@) is Some {
        proof {
            lemma_jv_get_smaller(j, "resolved_path"@);
        }
        match spec_decode_path(jv_get(j, "resolved_path"@)->0) {
            Ok(p) => Ok(TypeExprV::ResolvedPath { path: p }),
            Err(e) => Err(e),
        }
    } else if jv_get(j, "borrowed_ref"@) is Some {
        proof {
            lemma_jv_get_smaller(j, "borrowed_ref"@);
        }
        spec_decode_borrowed(jv_get(j, "borrowed_ref"@)->0)
    } else if jv_get(j, "slice"@) is Some {
        proof {
            lemma_jv_get_smaller(j, "slice"@);
        }
        match spec_decode_type(jv_get(j, "slice"@)->0) {
            Ok(t) => Ok(TypeExprV::Slice { inner: Box::new(t) }),
            Err(e) => Err(e),
        }
    } else if jv_get(j, "array"@) is Some {
        proof {
            lemma_jv_get_smaller(j, "array"@);
        }
        spec_decode_array(jv_get(j, "array"@)->0)
    } else if jv_get(j, "raw_pointer"@) is Some {
        proof {
            lemma_jv_get_smaller(j, "raw_pointer"@);
        }
        spec_decode_raw_pointer(jv_get(j, "raw_pointer"@)->0)
    } else if jv_get(j, "impl_trait"@) is Some {
        match jv_get(j, "impl_trait"@)->0 {
            JsonV::Arr(elems) => {
                proof {
                    lemma_jv_get_smaller(j, "impl_trait"@);
                }
                match spec_decode_impl_bound_items(elems, 0) {
                    Ok(bounds) => Ok(TypeExprV::ImplTrait { bounds }),
                    Err(e) => Err(e),
                }
            },
            v => Err(serr(SchemaErrKind::TypeShape, v)),
        }
    } else if jv_get(j, "dyn_trait"@) is Some {
        proof {
            lemma_jv_get_smaller(j, "dyn_trait"@);
        }
        spec_decode_dyn(jv_get(j, "dyn_trait"@)->0)
    } else if jv_get(j, "qualified_path"@) is Some {
        proof {
            lemma_jv_get_smaller(j, "qualified_path"@);
        }
        spec_decode_qualified(jv_get(j, "qualified_path"@)->0)
    } else if jv_get(j, "tuple"@) is Some {
        match jv_get(j, "tuple"@)->0 {
            JsonV::Arr(elems) => {
                proof {
                    lemma_jv_get_smaller(j, "tuple"@);
                }
                match spec_decode_type_items(elems, 0) {
                    Ok(ts) => Ok(TypeExprV::Tuple { elems: ts }),
                    Err(e) => Err(e),
                }
            },
            v => Err(serr(SchemaErrKind::TypeShape, v)),
        }
    } else if j->Obj_0.len() == 0 {
        Ok(TypeExprV::SelfType)
    } else {
        Ok(TypeExprV::Unrecognized)
    }
}

pub open spec fn spec_decode_type_items(elems: Seq<JsonV>, i: int) -> Result<
    Seq<TypeExprV>,
    SchemaErrV,
>
    decreases elems, elems.len() - i,
{
    if i < 0 || i >= elems.len() {
        Ok(Seq::empty())
    } else {
        match spec_decode_type(elems[i]) {
            Ok(t) => match spec_decode_type_items(elems, i + 1) {
                Ok(rest) => Ok(seq![t] + rest),
                Err(e) => Err(e),
            },
            Err(e) => Err(e),
        }
    }
}

pub open spec fn spec_decode_borrowed(b: JsonV) -> Result<TypeExprV, SchemaErrV>
    decreases b, 39int,
{
    if !(b is Obj) {
        Err(serr(SchemaErrKind::TypeShape, b))
    } else {
        match spec_field_opt_str(b, "lifetime"@) {
            Err(v) => Err(serr(SchemaErrKind::TypeShape, v)),
            Ok(lt) => match spec_field_req_bool(b, "mutable"@) {
                Err(v) => Err(serr(SchemaErrKind::TypeShape, v)),
                Ok(m) => match jv_get(b, "type"@) {
                    Option::None => Err(serr(SchemaErrKind::TypeShape, b)),
                    Option::Some(tv) => {
                        proof {
                            lemma_jv_get_smaller(b, "type"@);
                        }
                        match spec_decode_type(tv) {
                            Ok(t) => Ok(
                                TypeExprV::BorrowedRef {
                                    lifetime: lt,
                                    mutable: m,
                                    inner: Box::new(t),
                                },
                            ),
                            Err(e) => Err(e),
                        }
                    },
                },
            },
        }
    }
}

pub open spec fn spec_decode_array(a: JsonV) -> Result<TypeExprV, SchemaErrV>
    decreases a, 39int,
{
    if !(a is Obj) {
        Err(serr(SchemaErrKind::TypeShape, a))
    } else {
        match spec_field_req_str(a, "len"@) {
            Err(v) => Err(serr(SchemaErrKind::TypeShape, v)),
            Ok(len) => match jv_get(a, "type"@) {
                Option::None => Err(serr(SchemaErrKind::TypeShape, a)),
                Option::Some(tv) => {
                    proof {
                        lemma_jv_get_smaller(a, "type"@);
                    }
                    match spec_decode_type(tv) {
                        Ok(t) => Ok(TypeExprV::Array { inner: Box::new(t), len }),
                        Err(e) => Err(e),
                    }
                },
            },
        }
    }
}

pub open spec fn spec_decode_raw_pointer(p: JsonV) -> Result<TypeExprV, SchemaErrV>
    decreases p, 39int,
{
    if !(p is Obj) {
        Err(serr(SchemaErrKind::TypeShape, p))
    } else {
        match spec_field_req_bool(p, "mutable"@) {
            Err(v) => Err(serr(SchemaErrKind::TypeShape, v)),
            Ok(m) => match jv_get(p, "type"@) {
                Option::None => Err(serr(SchemaErrKind::TypeShape, p)),
                Option::Some(tv) => {
                    proof {
                        lemma_jv_get_smaller(p, "type"@);
                    }
                    match spec_decode_type(tv) {
                        Ok(t) => Ok(TypeExprV::RawPointer { mutable: m, inner: Box::new(t) }),
                        Err(e) => Err(e),
                    }
                },
            },
        }
    }
}

pub open spec fn spec_decode_dyn(d: JsonV) -> Result<TypeExprV, SchemaErrV>
    decreases d, 39int,
{
    if !(d is Obj) {
        Err(serr(SchemaErrKind::TypeShape, d))
    } else {
        match spec_field_opt_str(d, "lifetime"@) {
            Err(v) => Err(serr(SchemaErrKind::TypeShape, v)),
            Ok(lt) => match jv_get(d, "traits"@) {
                Option::None => Err(serr(SchemaErrKind::TypeShape, d)),
                Option::Some(JsonV::Arr(elems)) => {
                    proof {
                        lemma_jv_get_smaller(d, "traits"@);
                    }
                    match spec_decode_bound_items(elems, 0) {
                        Ok(bounds) => Ok(TypeExprV::DynTrait { lifetime: lt, bounds }),
                        Err(e) => Err(e),
                    }
                },
                Option::Some(v) => Err(serr(SchemaErrKind::TypeShape, v)),
            },
        }
    }
}

pub open spec fn spec_decode_qualified(q: JsonV) -> Result<TypeExprV, SchemaErrV>
    decreases q, 39int,
{
    if !(q is Obj) {
        Err(serr(SchemaErrKind::TypeShape, q))
    } else {
        match spec_field_req_str(q, "name"@) {
            Err(v) => Err(serr(SchemaErrKind::TypeShape, v)),
            Ok(name) => match spec_decode_args_field(q) {
                Err(e) => Err(e),
                Ok(args) => match jv_get(q, "self_type"@) {
                    Option::None => Err(serr(SchemaErrKind::TypeShape, q)),
                    Option::Some(sv) => {
                        proof {
                            lemma_jv_get_smaller(q, "self_type"@);
                        }
                        match spec_decode_type(sv) {
                            Err(e) => Err(e),
                            Ok(st) => match jv_get(q, "trait"@) {
                                Option::None => Ok(
                                    TypeExprV::QualifiedPath {
                                        name,
                                        args,
                                        self_type: Box::new(st),
                                        trait_path: None,
                                    },
                                ),
                                Option::Some(JsonV::Null) => Ok(
                                    TypeExprV::QualifiedPath {
                                        name,
                                        args,
                                        self_type: Box::new(st),
                                        trait_path: None,
                                    },
                                ),
                                Option::Some(tv) => {
                                    proof {
                                        lemma_jv_get_smaller(q, "trait"@);
                                    }
                                    match spec_decode_path(tv) {
                                        Ok(p) => Ok(
                                            TypeExprV::QualifiedPath {
                                                name,
                                                args,
                                                self_type: Box::new(st),
                                                trait_path: Some(p),
                                            },
                                        ),
                                        Err(e) => Err(e),
                                    }
                                },
                            },
                        }
                    },
                },
            },
        }
    }
}

/// A resolved path: required name, optional target identifier, optional
/// generic arguments.
pub open spec fn spec_decode_path(p: JsonV) -> Result<PathV, SchemaErrV>
    decreases p, 38int,
{
    if !(p is Obj) {
        Err(serr(SchemaErrKind::PathShape, p))
    } else {
        match spec_field_req_str(p, "name"@) {
            Err(v) => Err(serr(SchemaErrKind::PathShape, v)),
            Ok(name) => match spec_field_opt_str(p, "id"@) {
                Err(v) => Err(serr(SchemaErrKind::PathShape, v)),
                Ok(id) => match spec_decode_args_field(p) {
                    Err(e) => Err(e),
                    Ok(args) => Ok(PathV { name, id, args }),
                },
            },
        }
    }
}

/// The optional `args` field of a path-like object.
pub open spec fn spec_decode_args_field(parent: JsonV) -> Result<
    Option<GenericArgsV>,
    SchemaErrV,
>
    decreases parent, 30int,
{
    match jv_get(parent, "args"@) {
        Option::None => Ok(None),
        Option::Some(JsonV::Null) => Ok(None),
        Option::Some(av) => {
            proof {
                lemma_jv_get_smaller(parent, "args"@);
            }
            match spec_decode_args(av) {
                Ok(a) => Ok(Some(a)),
                Err(e) => Err(e),
            }
        },
    }
}

/// Generic arguments: an object carrying either `angle_bracketed` or
/// `parenthesized`, tried in that order.
pub open spec fn spec_decode_args(a: JsonV) -> Result<GenericArgsV, SchemaErrV>
    decreases a, 36int,
{
    if !(a is Obj) {
        Err(serr(SchemaErrKind::GenericArgs, a))
    } else if jv_get(a, "angle_bracketed"@) is Some {
        proof {
            lemma_jv_get_smaller(a, "angle_bracketed"@);
        }
        spec_decode_angle(jv_get(a, "angle_bracketed"@)->0)
    } else if jv_get(a, "parenthesized"@) is Some {
        proof {
            lemma_jv_get_smaller(a, "parenthesized"@);
        }
        spec_decode_parenthesized(jv_get(a, "parenthesized"@)->0)
    } else {
        Err(serr(SchemaErrKind::GenericArgs, a))
    }
}

pub open spec fn spec_decode_angle(a: JsonV) -> Result<GenericArgsV, SchemaErrV>
    decreases a, 35int,
{
    if !(a is Obj) {
        Err(serr(SchemaErrKind::GenericArgs, a))
    } else {
        match jv_get(a, "args"@) {
            Option::None => Err(serr(SchemaErrKind::GenericArgs, a)),
            Option::Some(JsonV::Arr(elems)) => {
                proof {
                    lemma_jv_get_smaller(a, "args"@);
                }
                match spec_decode_garg_items(elems, 0) {
                    Err(e) => Err(e),
                    Ok(args) => match jv_get(a, "bindings"@) {
                        Option::None => Ok(
                            GenericArgsV::AngleBracketed { args, bindings: Seq::empty() },
                        ),
                        Option::Some(JsonV::Arr(belems)) => {
                            proof {
                                lemma_jv_get_smaller(a, "bindings"@);
                            }
                            match spec_decode_binding_items(belems, 0) {
                                Ok(bindings) => Ok(GenericArgsV::AngleBracketed { args, bindings }),
                                Err(e) => Err(e),
                            }
                        },
                        Option::Some(v) => Err(serr(SchemaErrKind::GenericArgs, v)),
                    },
                }
            },
            Option::Some(v) => Err(serr(SchemaErrKind::GenericArgs, v)),
        }
    }
}

pub open spec fn spec_decode_parenthesized(p: JsonV) -> Result<GenericArgsV, SchemaErrV>
    decreases p, 35int,
{
    if !(p is Obj) {
        Err(serr(SchemaErrKind::GenericArgs, p))
    } else {
        match jv_get(p, "inputs"@) {
            Option::None => Err(serr(SchemaErrKind::GenericArgs, p)),
            Option::Some(JsonV::Arr(elems)) => {
                proof {
                    lemma_jv_get_smaller(p, "inputs"@);
                }
                match spec_decode_type_items(elems, 0) {
                    Err(e) => Err(e),
                    Ok(inputs) => match jv_get(p, "output"@) {
                        Option::None => Ok(GenericArgsV::Parenthesized { inputs, output: None }),
                        Option::Some(JsonV::Null) => Ok(
                            GenericArgsV::Parenthesized { inputs, output: None },
                        ),
                        Option::Some(ov) => {
                            proof {
                                lemma_jv_get_smaller(p, "output"@);
                            }
                            match spec_decode_type(ov) {
                                Ok(t) => Ok(
                                    GenericArgsV::Parenthesized {
                                        inputs,
                                        output: Some(Box::new(t)),
                                    },
                                ),
                                Err(e) => Err(e),
                            }
                        },
                    },
                }
            },
            Option::Some(v) => Err(serr(SchemaErrKind::GenericArgs, v)),
        }
    }
}

pub open spec fn spec_decode_garg_items(elems: Seq<JsonV>, i: int) -> Result<
    Seq<GenericArgV>,
    SchemaErrV,
>
    decreases elems, elems.len() - i,
{
    if i < 0 || i >= elems.len() {
        Ok(Seq::empty())
    } else {
        match spec_decode_garg(elems[i]) {
            Ok(g) => match spec_decode_garg_items(elems, i + 1) {
                Ok(rest) => Ok(seq![g] + rest),
                Err(e) => Err(e),
            },
            Err(e) => Err(e),
        }
    }
}

/// One generic argument: a `type`, a `lifetime`, or a `const`, tried in
/// that order.
pub open spec fn spec_decode_garg(g: JsonV) -> Result<GenericArgV, SchemaErrV>
    decreases g, 34int,
{
    if !(g is Obj) {
        Err(serr(SchemaErrKind::GenericArg, g))
    } else if jv_get(g, "type"@) is Some {
        proof {
            lemma_jv_get_smaller(g, "type"@);
        }
        match spec_decode_arg_type(jv_get(g, "type"@)->0) {
            Ok(t) => Ok(GenericArgV::Type { expr: t }),
            Err(e) => Err(e),
        }
    } else if jv_get(g, "lifetime"@) is Some {
        match jv_get(g, "lifetime"@)->0 {
            JsonV::Str(s) => Ok(GenericArgV::Lifetime { name: s }),
            v => Err(serr(SchemaErrKind::GenericArg, v)),
        }
    } else if jv_get(g, "const"@) is Some {
        match jv_get(g, "const"@)->0 {
            JsonV::Obj(centries) => {
                let cv = jv_get(g, "const"@)->0;
                match spec_field_req_str(cv, "expr"@) {
                    Err(v) => Err(serr(SchemaErrKind::GenericArg, v)),
                    Ok(expr) => match spec_field_bool_default(cv, "is_literal"@) {
                        Err(v) => Err(serr(SchemaErrKind::GenericArg, v)),
                        Ok(_lit) => Ok(GenericArgV::Const { expr }),
                    },
                }
            },
            v => Err(serr(SchemaErrKind::GenericArg, v)),
        }
    } else {
        Err(serr(SchemaErrKind::GenericArg, g))
    }
}

/// A generic argument standing in type position: a restricted set of
/// shapes, committed in the order generic, primitive, slice, tuple,
/// resolved path; each present key is validated first, whichever wins.
pub open spec fn spec_decode_arg_type(t: JsonV) -> Result<TypeExprV, SchemaErrV>
    decreases t, 33int,
{
    if !(t is Obj) {
        Err(serr(SchemaErrKind::TypeShape, t))
    } else {
        match spec_field_opt_str(t, "primitive"@) {
            Err(v) => Err(serr(SchemaErrKind::TypeShape, v)),
            Ok(prim) => match spec_decode_arg_slice(t) {
                Err(e) => Err(e),
                Ok(slice_prim) => match spec_decode_arg_tuple(t) {
                    Err(e) => Err(e),
                    Ok(tuple_elems) => match spec_decode_arg_path(t) {
                        Err(e) => Err(e),
                        Ok(rp) => match spec_field_opt_str(t, "generic"@) {
                            Err(v) => Err(serr(SchemaErrKind::TypeShape, v)),
                            Ok(generic) => Ok(
                                if generic is Some {
                                    TypeExprV::Generic { name: generic->0 }
                                } else if prim is Some {
                                    TypeExprV::Primitive { name: prim->0 }
                                } else if slice_prim is Some {
                                    TypeExprV::Slice {
                                        inner: Box::new(
                                            TypeExprV::Primitive { name: slice_prim->0 },
                                        ),
                                    }
                                } else if tuple_elems is Some {
                                    TypeExprV::Tuple { elems: tuple_elems->0 }
                                } else if rp is Some {
                                    TypeExprV::ResolvedPath { path: rp->0 }
                                } else {
                                    TypeExprV::Unrecognized
                                },
                            ),
                        },
                    },
                },
            },
        }
    }
}

/// The `slice` field of a type-position argument: an object holding the
/// primitive element name.
pub open spec fn spec_decode_arg_slice(t: JsonV) -> Result<Option<Seq<char>>, SchemaErrV> {
    match jv_get(t, "slice"@) {
        Option::None => Ok(None),
        Option::Some(JsonV::Null) => Ok(None),
        Option::Some(sv) => match sv {
            JsonV::Obj(_) => match spec_field_req_str(sv, "primitive"@) {
                Ok(prim) => Ok(Some(prim)),
                Err(v) => Err(serr(SchemaErrKind::TypeShape, v)),
            },
            _ => Err(serr(SchemaErrKind::TypeShape, sv)),
        },
    }
}

pub open spec fn spec_decode_arg_tuple(t: JsonV) -> Result<Option<Seq<TypeExprV>>, SchemaErrV>
    decreases t, 32int,
{
    match jv_get(t, "tuple"@) {
        Option::None => Ok(None),
        Option::Some(JsonV::Null) => Ok(None),
        Option::Some(JsonV::Arr(elems)) => {
            proof {
                lemma_jv_get_smaller(t, "tuple"@);
            }
            match spec_decode_type_items(elems, 0) {
                Ok(ts) => Ok(Some(ts)),
                Err(e) => Err(e),
            }
        },
        Option::Some(v) => Err(serr(SchemaErrKind::TypeShape, v)),
    }
}

pub open spec fn spec_decode_arg_path(t: JsonV) -> Result<Option<PathV>, SchemaErrV>
    decreases t, 32int,
{
    match jv_get(t, "resolved_path"@) {
        Option::None => Ok(None),
        Option::Some(JsonV::Null) => Ok(None),
        Option::Some(pv) => {
            proof {
                lemma_jv_get_smaller(t, "resolved_path"@);
            }
            match spec_decode_path(pv) {
                Ok(p) => Ok(Some(p)),
                Err(e) => Err(e),
            }
        },
    }
}

pub open spec fn spec_decode_bound_items(elems: Seq<JsonV>, i: int) -> Result<
    Seq<TraitBoundV>,
    SchemaErrV,
>
    decreases elems, elems.len() - i,
{
    if i < 0 || i >= elems.len() {
        Ok(Seq::empty())
    } else {
        match spec_decode_trait_bound(elems[i]) {
            Ok(b) => match spec_decode_bound_items(elems, i + 1) {
                Ok(rest) => Ok(seq![b] + rest),
                Err(e) => Err(e),
            },
            Err(e) => Err(e),
        }
    }
}

/// The elements of an `impl_trait` list each wrap one trait bound under
/// a required `trait_bound` key.
pub open spec fn spec_decode_impl_bound_items(elems: Seq<JsonV>, i: int) -> Result<
    Seq<TraitBoundV>,
    SchemaErrV,
>
    decreases elems, elems.len() - i,
{
    if i < 0 || i >= elems.len() {
        Ok(Seq::empty())
    } else {
        match jv_get(elems[i], "trait_bound"@) {
            Option::None => Err(serr(SchemaErrKind::TraitBound, elems[i])),
            Option::Some(bv) => {
                proof {
                    lemma_jv_get_smaller(elems[i], "trait_bound"@);
                }
                match spec_decode_trait_bound(bv) {
                    Ok(b) => match spec_decode_impl_bound_items(elems, i + 1) {
                        Ok(rest) => Ok(seq![b] + rest),
                        Err(e) => Err(e),
                    },
                    Err(e) => Err(e),
                }
            },
        }
    }
}

/// One trait bound: required generic parameters, optional modifier, and
/// the trait path itself; only the path is kept.
pub open spec fn spec_decode_trait_bound(b: JsonV) -> Result<TraitBoundV, SchemaErrV>
    decreases b, 31int,
{
    if !(b is Obj) {
        Err(serr(SchemaErrKind::TraitBound, b))
    } else {
        match jv_get(b, "generic_params"@) {
            Option::None => Err(serr(SchemaErrKind::TraitBound, b)),
            Option::Some(JsonV::Arr(pelems)) => {
                proof {
                    lemma_jv_get_smaller(b, "generic_params"@);
                }
                match spec_decode_param_items(pelems, 0) {
                    Err(e) => Err(e),
                    Ok(_params) => match spec_field_opt_str(b, "modifier"@) {
                        Err(v) => Err(serr(SchemaErrKind::TraitBound, v)),
                        Ok(_m) => match jv_get(b, "trait"@) {
                            Option::None => Err(serr(SchemaErrKind::TraitBound, b)),
                            Option::Some(tv) => {
                                proof {
                                    lemma_jv_get_smaller(b, "trait"@);
                                }
                                match spec_decode_path(tv) {
                                    Ok(p) => Ok(TraitBoundV { trait_path: p }),
                                    Err(e) => Err(e),
                                }
                            },
                        },
                    },
                }
            },
            Option::Some(v) => Err(serr(SchemaErrKind::TraitBound, v)),
        }
    }
}

pub open spec fn spec_decode_param_items(elems: Seq<JsonV>, i: int) -> Result<
    Seq<GenericParamV>,
    SchemaErrV,
>
    decreases elems.len() - i,
{
    if i < 0 || i >= elems.len() {
        Ok(Seq::empty())
    } else {
        match spec_decode_param(elems[i]) {
            Ok(p) => match spec_decode_param_items(elems, i + 1) {
                Ok(rest) => Ok(seq![p] + rest),
                Err(e) => Err(e),
            },
            Err(e) => Err(e),
        }
    }
}

/// One generic parameter; only its name is kept.
pub open spec fn spec_decode_param(p: JsonV) -> Result<GenericParamV, SchemaErrV> {
    if !(p is Obj) {
        Err(serr(SchemaErrKind::GenericParam, p))
    } else {
        match spec_field_opt_str(p, "name"@) {
            Err(v) => Err(serr(SchemaErrKind::GenericParam, v)),
            Ok(name) => Ok(GenericParamV { name }),
        }
    }
}

/// An optional `generics` field: required parameter list and required
/// `where_predicates` list, whose elements must be objects.
pub open spec fn spec_decode_generics_field(parent: JsonV) -> Result<
    Option<GenericsV>,
    SchemaErrV,
> {
    match jv_get(parent, "generics"@) {
        Option::None => Ok(None),
        Option::Some(JsonV::Null) => Ok(None),
        Option::Some(gv) => {
            if !(gv is Obj) {
                Err(serr(SchemaErrKind::Generics, gv))
            } else {
                match jv_get(gv, "params"@) {
                    Option::None => Err(serr(SchemaErrKind::Generics, gv)),
                    Option::Some(JsonV::Arr(pelems)) => {
                        match spec_decode_param_items(pelems, 0) {
                            Err(e) => Err(e),
                            Ok(params) => match jv_get(gv, "where_predicates"@) {
                                Option::None => Err(serr(SchemaErrKind::Generics, gv)),
                                Option::Some(JsonV::Arr(welems)) => {
                                    match spec_check_obj_items(welems, 0) {
                                        Ok(_u) => Ok(Some(GenericsV { params })),
                                        Err(v) => Err(serr(SchemaErrKind::Generics, v)),
                                    }
                                },
                                Option::Some(v) => Err(serr(SchemaErrKind::Generics, v)),
                            },
                        }
                    },
                    Option::Some(v) => Err(serr(SchemaErrKind::Generics, v)),
                }
            }
        },
    }
}

/// Checks that every element of a list is an object.
pub open spec fn spec_check_obj_items(elems: Seq<JsonV>, i: int) -> Result<(), JsonV>
    decreases elems.len() - i,
{
    if i < 0 || i >= elems.len() {
        Ok(())
    } else if elems[i] is Obj {
        spec_check_obj_items(elems, i + 1)
    } else {
        Err(elems[i])
    }
}

pub open spec fn spec_decode_binding_items(elems: Seq<JsonV>, i: int) -> Result<
    Seq<TypeBindingV>,
    SchemaErrV,
>
    decreases elems, elems.len() - i,
{
    if i < 0 || i >= elems.len() {
        Ok(Seq::empty())
    } else {
        match spec_decode_binding(elems[i]) {
            Ok(b) => match spec_decode_binding_items(elems, i + 1) {
                Ok(rest) => Ok(seq![b] + rest),
                Err(e) => Err(e),
            },
            Err(e) => Err(e),
        }
    }
}

/// One associated-type binding: required name, optional arguments, and a
/// required equality constraint holding the bound type.
pub open spec fn spec_decode_binding(b: JsonV) -> Result<TypeBindingV, SchemaErrV>
    decreases b, 31int,
{
    if !(b is Obj) {
        Err(serr(SchemaErrKind::Binding, b))
    } else {
        match spec_field_req_str(b, "name"@) {
            Err(v) => Err(serr(SchemaErrKind::Binding, v)),
            Ok(name) => match spec_decode_args_field(b) {
                Err(e) => Err(e),
                Ok(args) => match jv_get(b, "binding"@) {
                    Option::None => Err(serr(SchemaErrKind::Binding, b)),
                    Option::Some(kv) => {
                        if jv_get(kv, "equality"@) is Some {
                            let ev = jv_get(kv, "equality"@)->0;
                            match jv_get(ev, "type"@) {
                                Option::None => Err(serr(SchemaErrKind::Binding, ev)),
                                Option::Some(tv) => {
                                    proof {
                                        lemma_jv_get_smaller(b, "binding"@);
                                        lemma_jv_get_smaller(kv, "equality"@);
                                        lemma_jv_get_smaller(ev, "type"@);
                                    }
                                    match spec_decode_type(tv) {
                                        Ok(t) => Ok(TypeBindingV { name, args, term: t }),
                                        Err(e) => Err(e),
                                    }
                                },
                            }
                        } else {
                            Err(serr(SchemaErrKind::Binding, kv))
                        }
                    },
                },
            },
        }
    }
}


// ---------------------------------------------------------------------------
// Executable field helpers.
// ---------------------------------------------------------------------------

pub fn field_opt_str<'a>(j: &'a JsonValue, key: &str) -> (r: Result<Option<String>, &'a JsonValue>)
    ensures
        match r {
            Ok(o) => spec_field_opt_str(j.deep_view(), key@) == Ok::<Option<Seq<char>>, JsonV>(
                view_opt_str(o),
            ),
            Err(v) => spec_field_opt_str(j.deep_view(), key@) == Err::<Option<Seq<char>>, JsonV>(
                v.deep_view(),
            ),
        },
{
    match j.get(key) {
        Option::None => Ok(None),
        Option::Some(v) => match v {
            JsonValue::Null => Ok(None),
            JsonValue::Str(s) => Ok(Some(s.clone())),
            _ => Err(v),
        },
    }
}

pub fn field_req_str<'a>(j: &'a JsonValue, key: &str) -> (r: Result<String, &'a JsonValue>)
    ensures
        match r {
            Ok(s) => spec_field_req_str(j.deep_view(), key@) == Ok::<Seq<char>, JsonV>(s@),
            Err(v) => spec_field_req_str(j.deep_view(), key@) == Err::<Seq<char>, JsonV>(
                v.deep_view(),
            ),
        },
{
    match j.get(key) {
        Option::None => Err(j),
        Option::Some(v) => match v {
            JsonValue::Str(s) => Ok(s.clone()),
            _ => Err(v),
        },
    }
}

pub fn field_req_bool<'a>(j: &'a JsonValue, key: &str) -> (r: Result<bool, &'a JsonValue>)
    ensures
        match r {
            Ok(b) => spec_field_req_bool(j.deep_view(), key@) == Ok::<bool, JsonV>(b),
            Err(v) => spec_field_req_bool(j.deep_view(), key@) == Err::<bool, JsonV>(
                v.deep_view(),
            ),
        },
{
    match j.get(key) {
        Option::None => Err(j),
        Option::Some(v) => match v {
            JsonValue::Bool(b) => Ok(*b),
            _ => Err(v),
        },
    }
}

pub fn field_bool_default<'a>(j: &'a JsonValue, key: &str) -> (r: Result<bool, &'a JsonValue>)
    ensures
        match r {
            Ok(b) => spec_field_bool_default(j.deep_view(), key@) == Ok::<bool, JsonV>(b),
            Err(v) => spec_field_bool_default(j.deep_view(), key@) == Err::<bool, JsonV>(
                v.deep_view(),
            ),
        },
{
    match j.get(key) {
        Option::None => Ok(false),
        Option::Some(v) => match v {
            JsonValue::Bool(b) => Ok(*b),
            _ => Err(v),
        },
    }
}

#[verifier::loop_isolation(false)]
fn str_items<'a>(elems: &'a Vec<JsonValue>, i: usize) -> (r: Result<Vec<String>, &'a JsonValue>)
    requires
        i <= elems@.len(),
    ensures
        match r {
            Ok(o) => spec_str_items(view_json_seq(elems@), i as int) == Ok::<
                Seq<Seq<char>>,
                JsonV,
            >(view_strings(o@)),
            Err(v) => spec_str_items(view_json_seq(elems@), i as int) == Err::<
                Seq<Seq<char>>,
                JsonV,
            >(v.deep_view()),
        },
    decreases elems@.len() - i,
{
    proof {
        lemma_view_json_seq_index(elems@);
    }
    if i == elems.len() {
        let empty: Vec<String> = Vec::new();
        proof {
            assert(view_strings(empty@) =~= Seq::<Seq<char>>::empty());
        }
        Ok(empty)
    } else {
        match &elems[i] {
            JsonValue::Str(s) => match str_items(elems, i + 1) {
                Ok(mut rest) => {
                    let ghost prev = rest@;
                    rest.insert(0, s.clone());
                    proof {
                        lemma_view_strings_index(prev);
                        lemma_view_strings_index(rest@);
                        assert(view_strings(rest@) =~= seq![s@] + view_strings(prev));
                    }
                    Ok(rest)
                },
                Err(v) => Err(v),
            },
            other => Err(other),
        }
    }
}

pub fn field_str_list<'a>(j: &'a JsonValue, key: &str, required: bool) -> (r: Result<
    Vec<String>,
    &'a JsonValue,
>)
    ensures
        match r {
            Ok(o) => spec_field_str_list(j.deep_view(), key@, required) == Ok::<
                Seq<Seq<char>>,
                JsonV,
            >(view_strings(o@)),
            Err(v) => spec_field_str_list(j.deep_view(), key@, required) == Err::<
                Seq<Seq<char>>,
                JsonV,
            >(v.deep_view()),
        },
{
    match j.get(key) {
        Option::None => {
            if required {
                Err(j)
            } else {
                let empty: Vec<String> = Vec::new();
                proof {
                    assert(view_strings(empty@) =~= Seq::<Seq<char>>::empty());
                }
                Ok(empty)
            }
        },
        Option::Some(v) => match v {
            JsonValue::Arr(elems) => str_items(elems, 0),
            _ => Err(v),
        },
    }
}

// ---------------------------------------------------------------------------
// Executable decoder for the type-expression grammar.
// ---------------------------------------------------------------------------

pub fn decode_type(j: &JsonValue) -> (r: Result<TypeExpr, SchemaError>)
    ensures
        match r {
            Ok(t) => spec_decode_type(j.deep_view()) == Ok::<TypeExprV, SchemaErrV>(t.deep_view()),
            Err(e) => spec_decode_type(j.deep_view()) == Err::<TypeExprV, SchemaErrV>(
                e.deep_view(),
            ),
        },
    decreases *j, 40int,
{
    let obj = match j.as_obj() {
        Option::Some(entries) => entries,
        Option::None => {
            return Ok(TypeExpr::Unrecognized);
        },
    };
    if let Option::Some(v) = j.get("primitive") {
        return match v {
            JsonValue::Str(s) => Ok(TypeExpr::Primitive { name: s.clone() }),
            _ => Err(mk_err(SchemaErrKind::TypeShape, v)),
        };
    }
    if let Option::Some(v) = j.get("generic") {
        return match v {
            JsonValue::Str(s) => Ok(TypeExpr::Generic { name: s.clone() }),
            _ => Err(mk_err(SchemaErrKind::TypeShape, v)),
        };
    }
    if let Option::Some(v) = j.get("resolved_path") {
        return match decode_path(v) {
            Ok(p) => Ok(TypeExpr::ResolvedPath { path: p }),
            Err(e) => Err(e),
        };
    }
    if let Option::Some(v) = j.get("borrowed_ref") {
        return decode_borrowed(v);
    }
    if let Option::Some(v) = j.get("slice") {
        return match decode_type(v) {
            Ok(t) => Ok(TypeExpr::Slice { inner: Box::new(t) }),
            Err(e) => Err(e),
        };
    }
    if let Option::Some(v) = j.get("array") {
        return decode_array(v);
    }
    if let Option::Some(v) = j.get("raw_pointer") {
        return decode_raw_pointer(v);
    }
    if let Option::Some(v) = j.get("impl_trait") {
        return match v {
            JsonValue::Arr(elems) => {
                proof {
                    assert(decreases_to!(*v => (*v)->Arr_0));
                }
                match decode_impl_bound_items(elems, 0) {
                    Ok(bounds) => Ok(TypeExpr::ImplTrait { bounds }),
                    Err(e) => Err(e),
                }
            },
            _ => Err(mk_err(SchemaErrKind::TypeShape, v)),
        };
    }
    if let Option::Some(v) = j.get("dyn_trait") {
        return decode_dyn(v);
    }
    if let Option::Some(v) = j.get("qualified_path") {
        return decode_qualified(v);
    }
    if let Option::Some(v) = j.get("tuple") {
        return match v {
            JsonValue::Arr(elems) => {
                proof {
                    assert(decreases_to!(*v => (*v)->Arr_0));
                }
                match decode_type_items(elems, 0) {
                    Ok(ts) => Ok(TypeExpr::Tuple { elems: ts }),
                    Err(e) => Err(e),
                }
            },
            _ => Err(mk_err(SchemaErrKind::TypeShape, v)),
        };
    }
    if obj.len() == 0 {
        Ok(TypeExpr::SelfType)
    } else {
        Ok(TypeExpr::Unrecognized)
    }
}

#[verifier::loop_isolation(false)]
pub fn decode_type_items(elems: &Vec<JsonValue>, i: usize) -> (r: Result<Vec<TypeExpr>, SchemaError>)
    requires
        i <= elems@.len(),
    ensures
        match r {
            Ok(ts) => spec_decode_type_items(view_json_seq(elems@), i as int) == Ok::<
                Seq<TypeExprV>,
                SchemaErrV,
            >(view_types(ts@)),
            Err(e) => spec_decode_type_items(view_json_seq(elems@), i as int) == Err::<
                Seq<TypeExprV>,
                SchemaErrV,
            >(e.deep_view()),
        },
    decreases *elems, elems@.len() - i,
{
    proof {
        lemma_view_json_seq_index(elems@);
    }
    if i == elems.len() {
        let empty: Vec<TypeExpr> = Vec::new();
        proof {
            assert(view_types(empty@) =~= Seq::<TypeExprV>::empty());
        }
        Ok(empty)
    } else {
        proof {
            assert(decreases_to!(*elems => (*elems)@));
            assert(decreases_to!((*elems)@ => (*elems)@[i as int]));
            assert(decreases_to!(*elems => elems@[i as int]));
        }
        match decode_type(&elems[i]) {
            Err(e) => Err(e),
            Ok(t) => match decode_type_items(elems, i + 1) {
                Err(e) => Err(e),
                Ok(mut rest) => {
                    let ghost prev = rest@;
                    rest.insert(0, t);
                    proof {
                        lemma_view_types_index(prev);
                        lemma_view_types_index(rest@);
                        assert(view_types(rest@) =~= seq![view_type(rest@[0])] + view_types(prev));
                    }
                    Ok(rest)
                },
            },
        }
    }
}

fn decode_borrowed(b: &JsonValue) -> (r: Result<TypeExpr, SchemaError>)
    ensures
        match r {
            Ok(t) => spec_decode_borrowed(b.deep_view()) == Ok::<TypeExprV, SchemaErrV>(
                t.deep_view(),
            ),
            Err(e) => spec_decode_borrowed(b.deep_view()) == Err::<TypeExprV, SchemaErrV>(
                e.deep_view(),
            ),
        },
    decreases *b, 39int,
{
    if b.as_obj().is_none() {
        return Err(mk_err(SchemaErrKind::TypeShape, b));
    }
    let lt = match field_opt_str(b, "lifetime") {
        Ok(o) => o,
        Err(v) => {
            return Err(mk_err(SchemaErrKind::TypeShape, v));
        },
    };
    let m = match field_req_bool(b, "mutable") {
        Ok(x) => x,
        Err(v) => {
            return Err(mk_err(SchemaErrKind::TypeShape, v));
        },
    };
    match b.get("type") {
        Option::None => Err(mk_err(SchemaErrKind::TypeShape, b)),
        Option::Some(tv) => match decode_type(tv) {
            Ok(t) => Ok(TypeExpr::BorrowedRef { lifetime: lt, mutable: m, inner: Box::new(t) }),
            Err(e) => Err(e),
        },
    }
}

fn decode_array(a: &JsonValue) -> (r: Result<TypeExpr, SchemaError>)
    ensures
        match r {
            Ok(t) => spec_decode_array(a.deep_view()) == Ok::<TypeExprV, SchemaErrV>(
                t.deep_view(),
            ),
            Err(e) => spec_decode_array(a.deep_view()) == Err::<TypeExprV, SchemaErrV>(
                e.deep_view(),
            ),
        },
    decreases *a, 39int,
{
    if a.as_obj().is_none() {
        return Err(mk_err(SchemaErrKind::TypeShape, a));
    }
    let len = match field_req_str(a, "len") {
        Ok(s) => s,
        Err(v) => {
            return Err(mk_err(SchemaErrKind::TypeShape, v));
        },
    };
    match a.get("type") {
        Option::None => Err(mk_err(SchemaErrKind::TypeShape, a)),
        Option::Some(tv) => match decode_type(tv) {
            Ok(t) => Ok(TypeExpr::Array { inner: Box::new(t), len }),
            Err(e) => Err(e),
        },
    }
}

fn decode_raw_pointer(p: &JsonValue) -> (r: Result<TypeExpr, SchemaError>)
    ensures
        match r {
            Ok(t) => spec_decode_raw_pointer(p.deep_view()) == Ok::<TypeExprV, SchemaErrV>(
                t.deep_view(),
            ),
            Err(e) => spec_decode_raw_pointer(p.deep_view()) == Err::<TypeExprV, SchemaErrV>(
                e.deep_view(),
            ),
        },
    decreases *p, 39int,
{
    if p.as_obj().is_none() {
        return Err(mk_err(SchemaErrKind::TypeShape, p));
    }
    let m = match field_req_bool(p, "mutable") {
        Ok(x) => x,
        Err(v) => {
            return Err(mk_err(SchemaErrKind::TypeShape, v));
        },
    };
    match p.get("type") {
        Option::None => Err(mk_err(SchemaErrKind::TypeShape, p)),
        Option::Some(tv) => match decode_type(tv) {
            Ok(t) => Ok(TypeExpr::RawPointer { mutable: m, inner: Box::new(t) }),
            Err(e) => Err(e),
        },
    }
}

fn decode_dyn(d: &JsonValue) -> (r: Result<TypeExpr, SchemaError>)
    ensures
        match r {
            Ok(t) => spec_decode_dyn(d.deep_view()) == Ok::<TypeExprV, SchemaErrV>(t.deep_view()),
            Err(e) => spec_decode_dyn(d.deep_view()) == Err::<TypeExprV, SchemaErrV>(
                e.deep_view(),
            ),
        },
    decreases *d, 39int,
{
    if d.as_obj().is_none() {
        return Err(mk_err(SchemaErrKind::TypeShape, d));
    }
    let lt = match field_opt_str(d, "lifetime") {
        Ok(o) => o,
        Err(v) => {
            return Err(mk_err(SchemaErrKind::TypeShape, v));
        },
    };
    match d.get("traits") {
        Option::None => Err(mk_err(SchemaErrKind::TypeShape, d)),
        Option::Some(v) => match v {
            JsonValue::Arr(elems) => {
                proof {
                    assert(decreases_to!(*v => (*v)->Arr_0));
                }
                match decode_bound_items(elems, 0) {
                    Ok(bounds) => Ok(TypeExpr::DynTrait { lifetime: lt, bounds }),
                    Err(e) => Err(e),
                }
            },
            _ => Err(mk_err(SchemaErrKind::TypeShape, v)),
        },
    }
}

#[verifier::rlimit(100)]
fn decode_qualified(q: &JsonValue) -> (r: Result<TypeExpr, SchemaError>)
    ensures
        match r {
            Ok(t) => spec_decode_qualified(q.deep_view()) == Ok::<TypeExprV, SchemaErrV>(
                t.deep_view(),
            ),
            Err(e) => spec_decode_qualified(q.deep_view()) == Err::<TypeExprV, SchemaErrV>(
                e.deep_view(),
            ),
        },
    decreases *q, 39int,
{
    if q.as_obj().is_none() {
        return Err(mk_err(SchemaErrKind::TypeShape, q));
    }
    let name = match field_req_str(q, "name") {
        Ok(s) => s,
        Err(v) => {
            return Err(mk_err(SchemaErrKind::TypeShape, v));
        },
    };
    let args = match decode_args_field(q) {
        Ok(a) => a,
        Err(e) => {
            return Err(e);
        },
    };
    let st = match q.get("self_type") {
        Option::None => {
            return Err(mk_err(SchemaErrKind::TypeShape, q));
        },
        Option::Some(sv) => match decode_type(sv) {
            Ok(t) => t,
            Err(e) => {
                return Err(e);
            },
        },
    };
    let tp: Option<Path> = match q.get("trait") {
        Option::None => None,
        Option::Some(tv) => match tv {
            JsonValue::Null => None,
            _ => match decode_path(tv) {
                Ok(p) => Some(p),
                Err(e) => {
                    return Err(e);
                },
            },
        },
    };
    let res = TypeExpr::QualifiedPath { name, args, self_type: Box::new(st), trait_path: tp };
    proof {
        assert(res.deep_view() matches TypeExprV::QualifiedPath {
            name: n2,
            args: a2,
            self_type: s2,
            trait_path: t2,
        } && n2 == name@ && a2 == view_opt_args(args) && *s2 == st.deep_view() && t2
            == view_opt_path(tp));
    }
    Ok(res)
}

pub fn decode_path(p: &JsonValue) -> (r: Result<Path, SchemaError>)
    ensures
        match r {
            Ok(x) => spec_decode_path(p.deep_view()) == Ok::<PathV, SchemaErrV>(x.deep_view()),
            Err(e) => spec_decode_path(p.deep_view()) == Err::<PathV, SchemaErrV>(e.deep_view()),
        },
    decreases *p, 38int,
{
    if p.as_obj().is_none() {
        return Err(mk_err(SchemaErrKind::PathShape, p));
    }
    let name = match field_req_str(p, "name") {
        Ok(s) => s,
        Err(v) => {
            return Err(mk_err(SchemaErrKind::PathShape, v));
        },
    };
    let id = match field_opt_str(p, "id") {
        Ok(o) => o,
        Err(v) => {
            return Err(mk_err(SchemaErrKind::PathShape, v));
        },
    };
    match decode_args_field(p) {
        Ok(args) => Ok(Path { name, id, args }),
        Err(e) => Err(e),
    }
}

fn decode_args_field(parent: &JsonValue) -> (r: Result<Option<GenericArgs>, SchemaError>)
    ensures
        match r {
            Ok(a) => spec_decode_args_field(parent.deep_view()) == Ok::<
                Option<GenericArgsV>,
                SchemaErrV,
            >(view_opt_args(a)),
            Err(e) => spec_decode_args_field(parent.deep_view()) == Err::<
                Option<GenericArgsV>,
                SchemaErrV,
            >(e.deep_view()),
        },
    decreases *parent, 30int,
{
    match parent.get("args") {
        Option::None => Ok(None),
        Option::Some(av) => match av {
            JsonValue::Null => Ok(None),
            _ => match decode_args(av) {
                Ok(a) => Ok(Some(a)),
                Err(e) => Err(e),
            },
        },
    }
}

fn decode_args(a: &JsonValue) -> (r: Result<GenericArgs, SchemaError>)
    ensures
        match r {
            Ok(x) => spec_decode_args(a.deep_view()) == Ok::<GenericArgsV, SchemaErrV>(
                x.deep_view(),
            ),
            Err(e) => spec_decode_args(a.deep_view()) == Err::<GenericArgsV, SchemaErrV>(
                e.deep_view(),
            ),
        },
    decreases *a, 36int,
{
    if a.as_obj().is_none() {
        return Err(mk_err(SchemaErrKind::GenericArgs, a));
    }
    if let Option::Some(v) = a.get("angle_bracketed") {
        return decode_angle(v);
    }
    if let Option::Some(v) = a.get("parenthesized") {
        return decode_parenthesized(v);
    }
    Err(mk_err(SchemaErrKind::GenericArgs, a))
}

fn decode_angle(a: &JsonValue) -> (r: Result<GenericArgs, SchemaError>)
    ensures
        match r {
            Ok(x) => spec_decode_angle(a.deep_view()) == Ok::<GenericArgsV, SchemaErrV>(
                x.deep_view(),
            ),
            Err(e) => spec_decode_angle(a.deep_view()) == Err::<GenericArgsV, SchemaErrV>(
                e.deep_view(),
            ),
        },
    decreases *a, 35int,
{
    if a.as_obj().is_none() {
        return Err(mk_err(SchemaErrKind::GenericArgs, a));
    }
    let args = match a.get("args") {
        Option::None => {
            return Err(mk_err(SchemaErrKind::GenericArgs, a));
        },
        Option::Some(v) => match v {
            JsonValue::Arr(elems) => {
                proof {
                    assert(decreases_to!(*v => (*v)->Arr_0));
                }
                match decode_garg_items(elems, 0) {
                    Ok(gs) => gs,
                    Err(e) => {
                        return Err(e);
                    },
                }
            },
            _ => {
                return Err(mk_err(SchemaErrKind::GenericArgs, v));
            },
        },
    };
    match a.get("bindings") {
        Option::None => {
            let bindings: Vec<TypeBinding> = Vec::new();
            proof {
                assert(view_bindings(bindings@) =~= Seq::<TypeBindingV>::empty());
            }
            Ok(GenericArgs::AngleBracketed { args, bindings })
        },
        Option::Some(v) => match v {
            JsonValue::Arr(belems) => {
                proof {
                    assert(decreases_to!(*v => (*v)->Arr_0));
                }
                match decode_binding_items(belems, 0) {
                    Ok(bindings) => Ok(GenericArgs::AngleBracketed { args, bindings }),
                    Err(e) => Err(e),
                }
            },
            _ => Err(mk_err(SchemaErrKind::GenericArgs, v)),
        },
    }
}

fn decode_parenthesized(p: &JsonValue) -> (r: Result<GenericArgs, SchemaError>)
    ensures
        match r {
            Ok(x) => spec_decode_parenthesized(p.deep_view()) == Ok::<GenericArgsV, SchemaErrV>(
                x.deep_view(),
            ),
            Err(e) => spec_decode_parenthesized(p.deep_view()) == Err::<GenericArgsV, SchemaErrV>(
                e.deep_view(),
            ),
        },
    decreases *p, 35int,
{
    if p.as_obj().is_none() {
        return Err(mk_err(SchemaErrKind::GenericArgs, p));
    }
    let inputs = match p.get("inputs") {
        Option::None => {
            return Err(mk_err(SchemaErrKind::GenericArgs, p));
        },
        Option::Some(v) => match v {
            JsonValue::Arr(elems) => {
                proof {
                    assert(decreases_to!(*v => (*v)->Arr_0));
                }
                match decode_type_items(elems, 0) {
                    Ok(ts) => ts,
                    Err(e) => {
                        return Err(e);
                    },
                }
            },
            _ => {
                return Err(mk_err(SchemaErrKind::GenericArgs, v));
            },
        },
    };
    match p.get("output") {
        Option::None => Ok(GenericArgs::Parenthesized { inputs, output: None }),
        Option::Some(ov) => match ov {
            JsonValue::Null => Ok(GenericArgs::Parenthesized { inputs, output: None }),
            _ => match decode_type(ov) {
                Ok(t) => Ok(GenericArgs::Parenthesized { inputs, output: Some(Box::new(t)) }),
                Err(e) => Err(e),
            },
        },
    }
}

#[verifier::loop_isolation(false)]
fn decode_garg_items(elems: &Vec<JsonValue>, i: usize) -> (r: Result<Vec<GenericArg>, SchemaError>)
    requires
        i <= elems@.len(),
    ensures
        match r {
            Ok(gs) => spec_decode_garg_items(view_json_seq(elems@), i as int) == Ok::<
                Seq<GenericArgV>,
                SchemaErrV,
            >(view_arg_seq(gs@)),
            Err(e) => spec_decode_garg_items(view_json_seq(elems@), i as int) == Err::<
                Seq<GenericArgV>,
                SchemaErrV,
            >(e.deep_view()),
        },
    decreases *elems, elems@.len() - i,
{
    proof {
        lemma_view_json_seq_index(elems@);
    }
    if i == elems.len() {
        let empty: Vec<GenericArg> = Vec::new();
        proof {
            assert(view_arg_seq(empty@) =~= Seq::<GenericArgV>::empty());
        }
        Ok(empty)
    } else {
        proof {
            assert(decreases_to!(*elems => (*elems)@));
            assert(decreases_to!((*elems)@ => (*elems)@[i as int]));
            assert(decreases_to!(*elems => elems@[i as int]));
        }
        match decode_garg(&elems[i]) {
            Err(e) => Err(e),
            Ok(g) => match decode_garg_items(elems, i + 1) {
                Err(e) => Err(e),
                Ok(mut rest) => {
                    let ghost prev = rest@;
                    rest.insert(0, g);
                    proof {
                        lemma_view_arg_seq_index(prev);
                        lemma_view_arg_seq_index(rest@);
                        assert(view_arg_seq(rest@) =~= seq![view_arg(rest@[0])] + view_arg_seq(
                            prev,
                        ));
                    }
                    Ok(rest)
                },
            },
        }
    }
}

fn decode_garg(g: &JsonValue) -> (r: Result<GenericArg, SchemaError>)
    ensures
        match r {
            Ok(x) => spec_decode_garg(g.deep_view()) == Ok::<GenericArgV, SchemaErrV>(
                x.deep_view(),
            ),
            Err(e) => spec_decode_garg(g.deep_view()) == Err::<GenericArgV, SchemaErrV>(
                e.deep_view(),
            ),
        },
    decreases *g, 34int,
{
    if g.as_obj().is_none() {
        return Err(mk_err(SchemaErrKind::GenericArg, g));
    }
    if let Option::Some(v) = g.get("type") {
        return match decode_arg_type(v) {
            Ok(t) => Ok(GenericArg::Type { expr: t }),
            Err(e) => Err(e),
        };
    }
    if let Option::Some(v) = g.get("lifetime") {
        return match v {
            JsonValue::Str(s) => Ok(GenericArg::Lifetime { name: s.clone() }),
            _ => Err(mk_err(SchemaErrKind::GenericArg, v)),
        };
    }
    if let Option::Some(cv) = g.get("const") {
        return match cv {
            JsonValue::Obj(_) => {
                let expr = match field_req_str(cv, "expr") {
                    Ok(s) => s,
                    Err(v) => {
                        return Err(mk_err(SchemaErrKind::GenericArg, v));
                    },
                };
                match field_bool_default(cv, "is_literal") {
                    Ok(_) => Ok(GenericArg::Const { expr }),
                    Err(v) => Err(mk_err(SchemaErrKind::GenericArg, v)),
                }
            },
            _ => Err(mk_err(SchemaErrKind::GenericArg, cv)),
        };
    }
    Err(mk_err(SchemaErrKind::GenericArg, g))
}

#[verifier::rlimit(100)]
fn decode_arg_type(t: &JsonValue) -> (r: Result<TypeExpr, SchemaError>)
    ensures
        match r {
            Ok(x) => spec_decode_arg_type(t.deep_view()) == Ok::<TypeExprV, SchemaErrV>(
                x.deep_view(),
            ),
            Err(e) => spec_decode_arg_type(t.deep_view()) == Err::<TypeExprV, SchemaErrV>(
                e.deep_view(),
            ),
        },
    decreases *t, 33int,
{
    if t.as_obj().is_none() {
        return Err(mk_err(SchemaErrKind::TypeShape, t));
    }
    let prim = match field_opt_str(t, "primitive") {
        Ok(o) => o,
        Err(v) => {
            return Err(mk_err(SchemaErrKind::TypeShape, v));
        },
    };
    let slice_prim = match decode_arg_slice(t) {
        Ok(o) => o,
        Err(e) => {
            return Err(e);
        },
    };
    let tuple_elems = match decode_arg_tuple(t) {
        Ok(o) => o,
        Err(e) => {
            return Err(e);
        },
    };
    let rp = match decode_arg_path(t) {
        Ok(o) => o,
        Err(e) => {
            return Err(e);
        },
    };
    let generic = match field_opt_str(t, "generic") {
        Ok(o) => o,
        Err(v) => {
            return Err(mk_err(SchemaErrKind::TypeShape, v));
        },
    };
    proof {
        reveal_with_fuel(view_type, 3);
    }
    if let Option::Some(name) = generic {
        Ok(TypeExpr::Generic { name })
    } else if let Option::Some(name) = prim {
        Ok(TypeExpr::Primitive { name })
    } else if let Option::Some(name) = slice_prim {
        Ok(TypeExpr::Slice { inner: Box::new(TypeExpr::Primitive { name }) })
    } else if let Option::Some(elems) = tuple_elems {
        Ok(TypeExpr::Tuple { elems })
    } else if let Option::Some(path) = rp {
        Ok(TypeExpr::ResolvedPath { path })
    } else {
        Ok(TypeExpr::Unrecognized)
    }
}

fn decode_arg_slice(t: &JsonValue) -> (r: Result<Option<String>, SchemaError>)
    ensures
        match r {
            Ok(o) => spec_decode_arg_slice(t.deep_view()) == Ok::<Option<Seq<char>>, SchemaErrV>(
                view_opt_str(o),
            ),
            Err(e) => spec_decode_arg_slice(t.deep_view()) == Err::<Option<Seq<char>>, SchemaErrV>(
                e.deep_view(),
            ),
        },
{
    match t.get("slice") {
        Option::None => Ok(None),
        Option::Some(sv) => match sv {
            JsonValue::Null => Ok(None),
            JsonValue::Obj(_) => match field_req_str(sv, "primitive") {
                Ok(prim) => Ok(Some(prim)),
                Err(v) => Err(mk_err(SchemaErrKind::TypeShape, v)),
            },
            _ => Err(mk_err(SchemaErrKind::TypeShape, sv)),
        },
    }
}

#[verifier::rlimit(100)]
#[verifier::spinoff_prover]
fn decode_arg_tuple(t: &JsonValue) -> (r: Result<Option<Vec<TypeExpr>>, SchemaError>)
    ensures
        match r {
            Ok(o) => spec_decode_arg_tuple(t.deep_view()) == Ok::<
                Option<Seq<TypeExprV>>,
                SchemaErrV,
            >(match o {
                Option::Some(ts) => Some(view_types(ts@)),
                Option::None => None,
            }),
            Err(e) => spec_decode_arg_tuple(t.deep_view()) == Err::<
                Option<Seq<TypeExprV>>,
                SchemaErrV,
            >(e.deep_view()),
        },
    decreases *t, 32int,
{
    match t.get("tuple") {
        Option::None => Ok(None),
        Option::Some(v) => match v {
            JsonValue::Null => Ok(None),
            JsonValue::Arr(elems) => {
                proof {
                    assert(decreases_to!(*v => (*v)->Arr_0));
                }
                match decode_type_items(elems, 0) {
                    Ok(ts) => Ok(Some(ts)),
                    Err(e) => Err(e),
                }
            },
            _ => Err(mk_err(SchemaErrKind::TypeShape, v)),
        },
    }
}

fn decode_arg_path(t: &JsonValue) -> (r: Result<Option<Path>, SchemaError>)
    ensures
        match r {
            Ok(o) => spec_decode_arg_path(t.deep_view()) == Ok::<Option<PathV>, SchemaErrV>(
                match o {
                    Option::Some(p) => Some(view_path(p)),
                    Option::None => None,
                },
            ),
            Err(e) => spec_decode_arg_path(t.deep_view()) == Err::<Option<PathV>, SchemaErrV>(
                e.deep_view(),
            ),
        },
    decreases *t, 32int,
{
    match t.get("resolved_path") {
        Option::None => Ok(None),
        Option::Some(pv) => match pv {
            JsonValue::Null => Ok(None),
            _ => match decode_path(pv) {
                Ok(p) => Ok(Some(p)),
                Err(e) => Err(e),
            },
        },
    }
}

#[verifier::loop_isolation(false)]
fn decode_bound_items(elems: &Vec<JsonValue>, i: usize) -> (r: Result<Vec<TraitBound>, SchemaError>)
    requires
        i <= elems@.len(),
    ensures
        match r {
            Ok(bs) => spec_decode_bound_items(view_json_seq(elems@), i as int) == Ok::<
                Seq<TraitBoundV>,
                SchemaErrV,
            >(view_bounds(bs@)),
            Err(e) => spec_decode_bound_items(view_json_seq(elems@), i as int) == Err::<
                Seq<TraitBoundV>,
                SchemaErrV,
            >(e.deep_view()),
        },
    decreases *elems, elems@.len() - i,
{
    proof {
        lemma_view_json_seq_index(elems@);
    }
    if i == elems.len() {
        let empty: Vec<TraitBound> = Vec::new();
        proof {
            assert(view_bounds(empty@) =~= Seq::<TraitBoundV>::empty());
        }
        Ok(empty)
    } else {
        proof {
            assert(decreases_to!(*elems => (*elems)@));
            assert(decreases_to!((*elems)@ => (*elems)@[i as int]));
            assert(decreases_to!(*elems => elems@[i as int]));
        }
        match decode_trait_bound(&elems[i]) {
            Err(e) => Err(e),
            Ok(b) => match decode_bound_items(elems, i + 1) {
                Err(e) => Err(e),
                Ok(mut rest) => {
                    let ghost prev = rest@;
                    rest.insert(0, b);
                    proof {
                        lemma_view_bounds_index(prev);
                        lemma_view_bounds_index(rest@);
                        assert(view_bounds(rest@) =~= seq![view_bound(rest@[0])] + view_bounds(
                            prev,
                        ));
                    }
                    Ok(rest)
                },
            },
        }
    }
}

#[verifier::loop_isolation(false)]
fn decode_impl_bound_items(elems: &Vec<JsonValue>, i: usize) -> (r: Result<
    Vec<TraitBound>,
    SchemaError,
>)
    requires
        i <= elems@.len(),
    ensures
        match r {
            Ok(bs) => spec_decode_impl_bound_items(view_json_seq(elems@), i as int) == Ok::<
                Seq<TraitBoundV>,
                SchemaErrV,
            >(view_bounds(bs@)),
            Err(e) => spec_decode_impl_bound_items(view_json_seq(elems@), i as int) == Err::<
                Seq<TraitBoundV>,
                SchemaErrV,
            >(e.deep_view()),
        },
    decreases *elems, elems@.len() - i,
{
    proof {
        lemma_view_json_seq_index(elems@);
    }
    if i == elems.len() {
        let empty: Vec<TraitBound> = Vec::new();
        proof {
            assert(view_bounds(empty@) =~= Seq::<TraitBoundV>::empty());
        }
        Ok(empty)
    } else {
        proof {
            assert(decreases_to!(*elems => (*elems)@));
            assert(decreases_to!((*elems)@ => (*elems)@[i as int]));
            assert(decreases_to!(*elems => elems@[i as int]));
        }
        match elems[i].get("trait_bound") {
            Option::None => Err(mk_err(SchemaErrKind::TraitBound, &elems[i])),
            Option::Some(bv) => match decode_trait_bound(bv) {
                Err(e) => Err(e),
                Ok(b) => match decode_impl_bound_items(elems, i + 1) {
                    Err(e) => Err(e),
                    Ok(mut rest) => {
                        let ghost prev = rest@;
                        rest.insert(0, b);
                        proof {
                            lemma_view_bounds_index(prev);
                            lemma_view_bounds_index(rest@);
                            assert(view_bounds(rest@) =~= seq![view_bound(rest@[0])]
                                + view_bounds(prev));
                        }
                        Ok(rest)
                    },
                },
            },
        }
    }
}

pub fn decode_trait_bound(b: &JsonValue) -> (r: Result<TraitBound, SchemaError>)
    ensures
        match r {
            Ok(x) => spec_decode_trait_bound(b.deep_view()) == Ok::<TraitBoundV, SchemaErrV>(
                x.deep_view(),
            ),
            Err(e) => spec_decode_trait_bound(b.deep_view()) == Err::<TraitBoundV, SchemaErrV>(
                e.deep_view(),
            ),
        },
    decreases *b, 31int,
{
    if b.as_obj().is_none() {
        return Err(mk_err(SchemaErrKind::TraitBound, b));
    }
    match b.get("generic_params") {
        Option::None => {
            return Err(mk_err(SchemaErrKind::TraitBound, b));
        },
        Option::Some(v) => match v {
            JsonValue::Arr(pelems) => {
                match decode_param_items(pelems, 0) {
                    Ok(_) => {},
                    Err(e) => {
                        return Err(e);
                    },
                }
            },
            _ => {
                return Err(mk_err(SchemaErrKind::TraitBound, v));
            },
        },
    }
    match field_opt_str(b, "modifier") {
        Ok(_) => {},
        Err(v) => {
            return Err(mk_err(SchemaErrKind::TraitBound, v));
        },
    }
    match b.get("trait") {
        Option::None => Err(mk_err(SchemaErrKind::TraitBound, b)),
        Option::Some(tv) => match decode_path(tv) {
            Ok(p) => Ok(TraitBound { trait_path: p }),
            Err(e) => Err(e),
        },
    }
}

#[verifier::loop_isolation(false)]
pub fn decode_param_items(elems: &Vec<JsonValue>, i: usize) -> (r: Result<
    Vec<GenericParam>,
    SchemaError,
>)
    requires
        i <= elems@.len(),
    ensures
        match r {
            Ok(ps) => spec_decode_param_items(view_json_seq(elems@), i as int) == Ok::<
                Seq<GenericParamV>,
                SchemaErrV,
            >(view_params(ps@)),
            Err(e) => spec_decode_param_items(view_json_seq(elems@), i as int) == Err::<
                Seq<GenericParamV>,
                SchemaErrV,
            >(e.deep_view()),
        },
    decreases elems@.len() - i,
{
    proof {
        lemma_view_json_seq_index(elems@);
    }
    if i == elems.len() {
        let empty: Vec<GenericParam> = Vec::new();
        proof {
            assert(view_params(empty@) =~= Seq::<GenericParamV>::empty());
        }
        Ok(empty)
    } else {
        let p = &elems[i];
        if p.as_obj().is_none() {
            return Err(mk_err(SchemaErrKind::GenericParam, p));
        }
        match field_opt_str(p, "name") {
            Err(v) => Err(mk_err(SchemaErrKind::GenericParam, v)),
            Ok(name) => match decode_param_items(elems, i + 1) {
                Err(e) => Err(e),
                Ok(mut rest) => {
                    let ghost prev = rest@;
                    rest.insert(0, GenericParam { name });
                    proof {
                        lemma_view_params_index(prev);
                        lemma_view_params_index(rest@);
                        assert(view_params(rest@) =~= seq![
                            GenericParamV { name: view_opt_str(rest@[0].name) },
                        ] + view_params(prev));
                    }
                    Ok(rest)
                },
            },
        }
    }
}

/// The optional `generics` field of an item payload.
pub fn decode_generics_field(parent: &JsonValue) -> (r: Result<Option<Generics>, SchemaError>)
    ensures
        match r {
            Ok(g) => spec_decode_generics_field(parent.deep_view()) == Ok::<
                Option<GenericsV>,
                SchemaErrV,
            >(view_opt_generics(g)),
            Err(e) => spec_decode_generics_field(parent.deep_view()) == Err::<
                Option<GenericsV>,
                SchemaErrV,
            >(e.deep_view()),
        },
{
    match parent.get("generics") {
        Option::None => Ok(None),
        Option::Some(gv) => match gv {
            JsonValue::Null => Ok(None),
            _ => {
                if gv.as_obj().is_none() {
                    return Err(mk_err(SchemaErrKind::Generics, gv));
                }
                let params = match gv.get("params") {
                    Option::None => {
                        return Err(mk_err(SchemaErrKind::Generics, gv));
                    },
                    Option::Some(v) => match v {
                        JsonValue::Arr(pelems) => match decode_param_items(pelems, 0) {
                            Ok(ps) => ps,
                            Err(e) => {
                                return Err(e);
                            },
                        },
                        _ => {
                            return Err(mk_err(SchemaErrKind::Generics, v));
                        },
                    },
                };
                match gv.get("where_predicates") {
                    Option::None => Err(mk_err(SchemaErrKind::Generics, gv)),
                    Option::Some(v) => match v {
                        JsonValue::Arr(welems) => match check_obj_items(welems, 0) {
                            Ok(_) => Ok(Some(Generics { params })),
                            Err(bad) => Err(mk_err(SchemaErrKind::Generics, bad)),
                        },
                        _ => Err(mk_err(SchemaErrKind::Generics, v)),
                    },
                }
            },
        },
    }
}

#[verifier::loop_isolation(false)]
fn check_obj_items<'a>(elems: &'a Vec<JsonValue>, i: usize) -> (r: Result<(), &'a JsonValue>)
    requires
        i <= elems@.len(),
    ensures
        match r {
            Ok(u) => spec_check_obj_items(view_json_seq(elems@), i as int) == Ok::<(), JsonV>(()),
            Err(v) => spec_check_obj_items(view_json_seq(elems@), i as int) == Err::<(), JsonV>(
                v.deep_view(),
            ),
        },
    decreases elems@.len() - i,
{
    proof {
        lemma_view_json_seq_index(elems@);
    }
    if i == elems.len() {
        Ok(())
    } else if elems[i].as_obj().is_some() {
        check_obj_items(elems, i + 1)
    } else {
        Err(&elems[i])
    }
}

#[verifier::loop_isolation(false)]
fn decode_binding_items(elems: &Vec<JsonValue>, i: usize) -> (r: Result<
    Vec<TypeBinding>,
    SchemaError,
>)
    requires
        i <= elems@.len(),
    ensures
        match r {
            Ok(bs) => spec_decode_binding_items(view_json_seq(elems@), i as int) == Ok::<
                Seq<TypeBindingV>,
                SchemaErrV,
            >(view_bindings(bs@)),
            Err(e) => spec_decode_binding_items(view_json_seq(elems@), i as int) == Err::<
                Seq<TypeBindingV>,
                SchemaErrV,
            >(e.deep_view()),
        },
    decreases *elems, elems@.len() - i,
{
    proof {
        lemma_view_json_seq_index(elems@);
    }
    if i == elems.len() {
        let empty: Vec<TypeBinding> = Vec::new();
        proof {
            assert(view_bindings(empty@) =~= Seq::<TypeBindingV>::empty());
        }
        Ok(empty)
    } else {
        proof {
            assert(decreases_to!(*elems => (*elems)@));
            assert(decreases_to!((*elems)@ => (*elems)@[i as int]));
            assert(decreases_to!(*elems => elems@[i as int]));
        }
        match decode_binding(&elems[i]) {
            Err(e) => Err(e),
            Ok(b) => match decode_binding_items(elems, i + 1) {
                Err(e) => Err(e),
                Ok(mut rest) => {
                    let ghost prev = rest@;
                    rest.insert(0, b);
                    proof {
                        lemma_view_bindings_index(prev);
                        lemma_view_bindings_index(rest@);
                        assert(view_bindings(rest@) =~= seq![view_binding(rest@[0])]
                            + view_bindings(prev));
                    }
                    Ok(rest)
                },
            },
        }
    }
}

fn decode_binding(b: &JsonValue) -> (r: Result<TypeBinding, SchemaError>)
    ensures
        match r {
            Ok(x) => spec_decode_binding(b.deep_view()) == Ok::<TypeBindingV, SchemaErrV>(
                x.deep_view(),
            ),
            Err(e) => spec_decode_binding(b.deep_view()) == Err::<TypeBindingV, SchemaErrV>(
                e.deep_view(),
            ),
        },
    decreases *b, 31int,
{
    if b.as_obj().is_none() {
        return Err(mk_err(SchemaErrKind::Binding, b));
    }
    let name = match field_req_str(b, "name") {
        Ok(s) => s,
        Err(v) => {
            return Err(mk_err(SchemaErrKind::Binding, v));
        },
    };
    let args = match decode_args_field(b) {
        Ok(a) => a,
        Err(e) => {
            return Err(e);
        },
    };
    match b.get("binding") {
        Option::None => Err(mk_err(SchemaErrKind::Binding, b)),
        Option::Some(kv) => match kv.get("equality") {
            Option::None => Err(mk_err(SchemaErrKind::Binding, kv)),
            Option::Some(ev) => match ev.get("type") {
                Option::None => Err(mk_err(SchemaErrKind::Binding, ev)),
                Option::Some(tv) => match decode_type(tv) {
                    Ok(t) => Ok(TypeBinding { name, args, term: t }),
                    Err(e) => Err(e),
                },
            },
        },
    }
}


/// The fixed name of the grammar production a kind stands for.
pub open spec fn spec_kind_name(k: SchemaErrKind) -> Seq<char> {
    match k {
        SchemaErrKind::Document => "document"@,
        SchemaErrKind::Item => "item"@,
        SchemaErrKind::Links => "links"@,
        SchemaErrKind::Function => "function"@,
        SchemaErrKind::FnInput => "function input"@,
        SchemaErrKind::EnumPayload => "enum"@,
        SchemaErrKind::StructPayload => "struct"@,
        SchemaErrKind::StructKind => "struct kind"@,
        SchemaErrKind::TraitPayload => "trait"@,
        SchemaErrKind::TraitBound => "trait bound"@,
        SchemaErrKind::ImplPayload => "impl"@,
        SchemaErrKind::Generics => "generics"@,
        SchemaErrKind::GenericParam => "generic parameter"@,
        SchemaErrKind::TypeShape => "type"@,
        SchemaErrKind::GenericArgs => "generic arguments"@,
        SchemaErrKind::GenericArg => "generic argument"@,
        SchemaErrKind::Binding => "type binding"@,
        SchemaErrKind::PathShape => "path"@,
    }
}

/// The report of a schema error: the failing production, the item it
/// stood in once known, and the offending sub-document, pretty printed.
pub open spec fn spec_err_message(e: SchemaErrV) -> Seq<char> {
    "unrecognized "@ + spec_kind_name(e.kind) + " shape"@ + (match e.item_id {
        Some(id) => " in item `"@ + id + "`"@,
        None => Seq::empty(),
    }) + ":\n"@ + crate::json::pretty(e.offending, 0)
}

impl SchemaError {
    /// Renders the report of this error: what failed to match, where it
    /// stood, and the offending sub-document.
    #[verifier::rlimit(100)]
    pub fn message(&self) -> (r: String)
        ensures
            r@ == spec_err_message(self.deep_view()),
    {
        let mut out = String::new();
        out.append("unrecognized ");
        let kn: &'static str = match self.kind {
            SchemaErrKind::Document => "document",
            SchemaErrKind::Item => "item",
            SchemaErrKind::Links => "links",
            SchemaErrKind::Function => "function",
            SchemaErrKind::FnInput => "function input",
            SchemaErrKind::EnumPayload => "enum",
            SchemaErrKind::StructPayload => "struct",
            SchemaErrKind::StructKind => "struct kind",
            SchemaErrKind::TraitPayload => "trait",
            SchemaErrKind::TraitBound => "trait bound",
            SchemaErrKind::ImplPayload => "impl",
            SchemaErrKind::Generics => "generics",
            SchemaErrKind::GenericParam => "generic parameter",
            SchemaErrKind::TypeShape => "type",
            SchemaErrKind::GenericArgs => "generic arguments",
            SchemaErrKind::GenericArg => "generic argument",
            SchemaErrKind::Binding => "type binding",
            SchemaErrKind::PathShape => "path",
        };
        out.append(kn);
        out.append(" shape");
        match &self.item_id {
            Some(id) => {
                out.append(" in item `");
                out.append(id.as_str());
                out.append("`");
            },
            None => {},
        }
        out.append(":\n");
        let pretty_text = self.offending.to_pretty();
        out.append(pretty_text.as_str());
        proof {
            assert(out@ =~= spec_err_message(self.deep_view()));
        }
        out
    }
}

} // verus!
