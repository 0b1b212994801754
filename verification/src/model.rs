use vstd::prelude::*;

verus! {

// ---------------------------------------------------------------------------
// The type-expression grammar.
//
// One closed set of recursive variants stands for every documented type.
// The decoder commits to a variant once, trying the wire shapes in the
// order in which the variants are declared here; the renderer and the
// document synthesis never probe raw documents again.
// ---------------------------------------------------------------------------

/// A path to a named type or trait, with optional target identifier and
/// generic arguments.
#[derive(Debug)]
pub struct Path {
    pub name: String,
    pub id: Option<String>,
    pub args: Option<GenericArgs>,
}

/// One bound of an `impl Trait` or `dyn Trait` type.
#[derive(Debug)]
pub struct TraitBound {
    pub trait_path: Path,
}

/// An associated-type equality binding inside angle-bracketed arguments.
#[derive(Debug)]
pub struct TypeBinding {
    pub name: String,
    pub args: Option<GenericArgs>,
    pub term: TypeExpr,
}

/// One generic argument.
#[derive(Debug)]
pub enum GenericArg {
    Type { expr: TypeExpr },
    Lifetime { name: String },
    Const { expr: String },
}

/// The generic arguments attached to a path.
#[derive(Debug)]
pub enum GenericArgs {
    AngleBracketed { args: Vec<GenericArg>, bindings: Vec<TypeBinding> },
    Parenthesized { inputs: Vec<TypeExpr>, output: Option<Box<TypeExpr>> },
}

/// A documented type. The declaration order of the variants is the
/// precedence order in which the decoder tries the wire shapes.
#[derive(Debug)]
pub enum TypeExpr {
    Primitive { name: String },
    Generic { name: String },
    ResolvedPath { path: Path },
    BorrowedRef { lifetime: Option<String>, mutable: bool, inner: Box<TypeExpr> },
    Slice { inner: Box<TypeExpr> },
    Array { inner: Box<TypeExpr>, len: String },
    RawPointer { mutable: bool, inner: Box<TypeExpr> },
    ImplTrait { bounds: Vec<TraitBound> },
    DynTrait { lifetime: Option<String>, bounds: Vec<TraitBound> },
    QualifiedPath {
        name: String,
        args: Option<GenericArgs>,
        self_type: Box<TypeExpr>,
        trait_path: Option<Path>,
    },
    Tuple { elems: Vec<TypeExpr> },
    SelfType,
    /// A shape that matches no known variant; it renders as a fixed
    /// placeholder instead of failing the document.
    Unrecognized,
}

// ---------------------------------------------------------------------------
// The item model.
// ---------------------------------------------------------------------------

/// A generic parameter of a declaration; only its name is rendered.
#[derive(Debug)]
pub struct GenericParam {
    pub name: Option<String>,
}

/// The generic parameter list of a declaration.
#[derive(Debug)]
pub struct Generics {
    pub params: Vec<GenericParam>,
}

/// A function declaration: named parameters, optional return type, and
/// the C-variadic marker.
#[derive(Debug)]
pub struct FnDecl {
    pub inputs: Vec<(String, TypeExpr)>,
    pub output: Option<TypeExpr>,
    pub c_variadic: bool,
}

/// What one inline tuple-field slot of a tuple struct holds.
#[derive(Debug)]
pub enum TupleFieldInfo {
    Null,
    Named { name: String },
    Other,
}

/// The shape tag of a struct.
#[derive(Debug)]
pub enum StructShape {
    TupleFields { elems: Vec<TupleFieldInfo> },
    Unit,
    Unknown,
}

/// The shape tag of an enum variant.
#[derive(Debug)]
pub enum VariantShape {
    TupleShaped { arity: usize },
    StructShaped { n_fields: usize },
    Plain,
    Other,
}

/// One super-trait bound of a trait declaration.
#[derive(Debug)]
pub struct TraitBoundInfo {
    pub trait_bound: Option<TraitBound>,
    pub outlives: Option<String>,
}

/// The kind payload of an item. The declaration order of the variants is
/// the precedence order in which the decoder commits an ambiguous
/// payload, which is the classification priority of the synthesis pass:
/// function before enum before trait before impl before struct before
/// enum variant.
#[derive(Debug)]
pub enum ItemKind {
    Function { decl: FnDecl },
    Enum { variants: Vec<String>, impls: Vec<String>, generics: Option<Generics> },
    Trait {
        bounds: Vec<TraitBoundInfo>,
        generics: Option<Generics>,
        is_unsafe: bool,
        items: Vec<String>,
    },
    Impl {
        trait_ref: Option<Path>,
        for_type: Option<TypeExpr>,
        items: Vec<String>,
        is_unsafe: bool,
        blanket: Option<String>,
        generics: Option<Generics>,
    },
    Struct {
        fields: Vec<String>,
        impls: Vec<String>,
        generics: Option<Generics>,
        shape: Option<StructShape>,
    },
    Variant { discriminant: Option<String>, shape: VariantShape },
}

/// One entry of the index: a documented, possibly named, possibly typed
/// unit, together with its cross-reference map from link text to target
/// identifier.
#[derive(Debug)]
pub struct RustDocItem {
    pub docs: Option<String>,
    pub visibility: Option<String>,
    pub name: Option<String>,
    pub kind: Option<ItemKind>,
    pub links: Vec<(String, String)>,
}

/// The whole documentation index of a crate. Entries are kept in the
/// order in which the parser hands them over, which is sorted by
/// identifier, so every walk of the index is deterministic.
#[derive(Debug)]
pub struct RustDoc {
    pub root: String,
    pub crate_version: String,
    pub includes_private: bool,
    pub index: Vec<(String, RustDocItem)>,
}

// ---------------------------------------------------------------------------
// Ghost mirrors: the mathematical values of the model, over `Seq`.
// ---------------------------------------------------------------------------

#[verifier::ext_equal]
pub struct PathV {
    pub name: Seq<char>,
    pub id: Option<Seq<char>>,
    pub args: Option<GenericArgsV>,
}

#[verifier::ext_equal]
pub struct TraitBoundV {
    pub trait_path: PathV,
}

#[verifier::ext_equal]
pub struct TypeBindingV {
    pub name: Seq<char>,
    pub args: Option<GenericArgsV>,
    pub term: TypeExprV,
}

#[verifier::ext_equal]
pub enum GenericArgV {
    Type { expr: TypeExprV },
    Lifetime { name: Seq<char> },
    Const { expr: Seq<char> },
}

#[verifier::ext_equal]
pub enum GenericArgsV {
    AngleBracketed { args: Seq<GenericArgV>, bindings: Seq<TypeBindingV> },
    Parenthesized { inputs: Seq<TypeExprV>, output: Option<Box<TypeExprV>> },
}

#[verifier::ext_equal]
pub enum TypeExprV {
    Primitive { name: Seq<char> },
    Generic { name: Seq<char> },
    ResolvedPath { path: PathV },
    BorrowedRef { lifetime: Option<Seq<char>>, mutable: bool, inner: Box<TypeExprV> },
    Slice { inner: Box<TypeExprV> },
    Array { inner: Box<TypeExprV>, len: Seq<char> },
    RawPointer { mutable: bool, inner: Box<TypeExprV> },
    ImplTrait { bounds: Seq<TraitBoundV> },
    DynTrait { lifetime: Option<Seq<char>>, bounds: Seq<TraitBoundV> },
    QualifiedPath {
        name: Seq<char>,
        args: Option<GenericArgsV>,
        self_type: Box<TypeExprV>,
        trait_path: Option<PathV>,
    },
    Tuple { elems: Seq<TypeExprV> },
    SelfType,
    Unrecognized,
}

#[verifier::ext_equal]
pub struct GenericParamV {
    pub name: Option<Seq<char>>,
}

#[verifier::ext_equal]
pub struct GenericsV {
    pub params: Seq<GenericParamV>,
}

#[verifier::ext_equal]
pub struct FnDeclV {
    pub inputs: Seq<(Seq<char>, TypeExprV)>,
    pub output: Option<TypeExprV>,
    pub c_variadic: bool,
}

#[verifier::ext_equal]
pub enum TupleFieldV {
    Null,
    Named { name: Seq<char> },
    Other,
}

#[verifier::ext_equal]
pub enum StructShapeV {
    TupleFields { elems: Seq<TupleFieldV> },
    Unit,
    Unknown,
}

#[verifier::ext_equal]
pub struct TraitBoundInfoV {
    pub trait_bound: Option<TraitBoundV>,
    pub outlives: Option<Seq<char>>,
}

#[verifier::ext_equal]
pub enum ItemKindV {
    Function { decl: FnDeclV },
    Enum { variants: Seq<Seq<char>>, impls: Seq<Seq<char>>, generics: Option<GenericsV> },
    Trait {
        bounds: Seq<TraitBoundInfoV>,
        generics: Option<GenericsV>,
        is_unsafe: bool,
        items: Seq<Seq<char>>,
    },
    Impl {
        trait_ref: Option<PathV>,
        for_type: Option<TypeExprV>,
        items: Seq<Seq<char>>,
        is_unsafe: bool,
        blanket: Option<Seq<char>>,
        generics: Option<GenericsV>,
    },
    Struct {
        fields: Seq<Seq<char>>,
        impls: Seq<Seq<char>>,
        generics: Option<GenericsV>,
        shape: Option<StructShapeV>,
    },
    Variant { discriminant: Option<Seq<char>>, shape: VariantShape },
}

#[verifier::ext_equal]
pub struct ItemV {
    pub docs: Option<Seq<char>>,
    pub visibility: Option<Seq<char>>,
    pub name: Option<Seq<char>>,
    pub kind: Option<ItemKindV>,
    pub links: Seq<(Seq<char>, Seq<char>)>,
}

#[verifier::ext_equal]
pub struct DocV {
    pub root: Seq<char>,
    pub crate_version: Seq<char>,
    pub includes_private: bool,
    pub index: Seq<(Seq<char>, ItemV)>,
}

// ---------------------------------------------------------------------------
// Views from the model to its mirrors.
// ---------------------------------------------------------------------------

pub open spec fn view_opt_str(s: Option<String>) -> Option<Seq<char>> {
    match s {
        Some(x) => Some(x@),
        None => None,
    }
}

pub open spec fn view_strings(s: Seq<String>) -> Seq<Seq<char>>
    decreases s,
{
    if s.len() == 0 {
        Seq::empty()
    } else {
        seq![s[0]@] + view_strings(s.subrange(1, s.len() as int))
    }
}

pub broadcast proof fn lemma_view_strings_index(s: Seq<String>)
    ensures
        #[trigger] view_strings(s).len() == s.len(),
        forall|i: int| 0 <= i < s.len() ==> view_strings(s)[i] == s[i]@,
    decreases s,
{
    if s.len() > 0 {
        lemma_view_strings_index(s.subrange(1, s.len() as int));
    }
}

pub open spec fn view_type(t: TypeExpr) -> TypeExprV
    decreases t,
{
    match t {
        TypeExpr::Primitive { name } => TypeExprV::Primitive { name: name@ },
        TypeExpr::Generic { name } => TypeExprV::Generic { name: name@ },
        TypeExpr::ResolvedPath { path } => TypeExprV::ResolvedPath { path: view_path(path) },
        TypeExpr::BorrowedRef { lifetime, mutable, inner } => TypeExprV::BorrowedRef {
            lifetime: view_opt_str(lifetime),
            mutable,
            inner: Box::new(view_type(*inner)),
        },
        TypeExpr::Slice { inner } => TypeExprV::Slice { inner: Box::new(view_type(*inner)) },
        TypeExpr::Array { inner, len } => TypeExprV::Array {
            inner: Box::new(view_type(*inner)),
            len: len@,
        },
        TypeExpr::RawPointer { mutable, inner } => TypeExprV::RawPointer {
            mutable,
            inner: Box::new(view_type(*inner)),
        },
        TypeExpr::ImplTrait { bounds } => TypeExprV::ImplTrait {
            bounds: view_bounds(bounds@),
        },
        TypeExpr::DynTrait { lifetime, bounds } => TypeExprV::DynTrait {
            lifetime: view_opt_str(lifetime),
            bounds: view_bounds(bounds@),
        },
        TypeExpr::QualifiedPath { name, args, self_type, trait_path } => TypeExprV::QualifiedPath {
            name: name@,
            args: view_opt_args(args),
            self_type: Box::new(view_type(*self_type)),
            trait_path: view_opt_path(trait_path),
        },
        TypeExpr::Tuple { elems } => TypeExprV::Tuple { elems: view_types(elems@) },
        TypeExpr::SelfType => TypeExprV::SelfType,
        TypeExpr::Unrecognized => TypeExprV::Unrecognized,
    }
}

pub open spec fn view_types(s: Seq<TypeExpr>) -> Seq<TypeExprV>
    decreases s,
{
    if s.len() == 0 {
        Seq::empty()
    } else {
        seq![view_type(s[0])] + view_types(s.subrange(1, s.len() as int))
    }
}

pub open spec fn view_path(p: Path) -> PathV
    decreases p,
{
    PathV { name: p.name@, id: view_opt_str(p.id), args: view_opt_args(p.args) }
}

pub open spec fn view_opt_path(p: Option<Path>) -> Option<PathV>
    decreases p,
{
    match p {
        Some(x) => Some(view_path(x)),
        None => None,
    }
}

pub open spec fn view_opt_args(a: Option<GenericArgs>) -> Option<GenericArgsV>
    decreases a,
{
    match a {
        Some(x) => Some(view_args(x)),
        None => None,
    }
}

pub open spec fn view_args(a: GenericArgs) -> GenericArgsV
    decreases a,
{
    match a {
        GenericArgs::AngleBracketed { args, bindings } => GenericArgsV::AngleBracketed {
            args: view_arg_seq(args@),
            bindings: view_bindings(bindings@),
        },
        GenericArgs::Parenthesized { inputs, output } => GenericArgsV::Parenthesized {
            inputs: view_types(inputs@),
            output: match output {
                Some(t) => Some(Box::new(view_type(*t))),
                None => None,
            },
        },
    }
}

pub open spec fn view_arg_seq(s: Seq<GenericArg>) -> Seq<GenericArgV>
    decreases s,
{
    if s.len() == 0 {
        Seq::empty()
    } else {
        seq![view_arg(s[0])] + view_arg_seq(s.subrange(1, s.len() as int))
    }
}

pub open spec fn view_arg(g: GenericArg) -> GenericArgV
    decreases g,
{
    match g {
        GenericArg::Type { expr } => GenericArgV::Type { expr: view_type(expr) },
        GenericArg::Lifetime { name } => GenericArgV::Lifetime { name: name@ },
        GenericArg::Const { expr } => GenericArgV::Const { expr: expr@ },
    }
}

pub open spec fn view_bindings(s: Seq<TypeBinding>) -> Seq<TypeBindingV>
    decreases s,
{
    if s.len() == 0 {
        Seq::empty()
    } else {
        seq![view_binding(s[0])] + view_bindings(s.subrange(1, s.len() as int))
    }
}

pub open spec fn view_binding(b: TypeBinding) -> TypeBindingV
    decreases b,
{
    TypeBindingV { name: b.name@, args: view_opt_args(b.args), term: view_type(b.term) }
}

pub open spec fn view_bounds(s: Seq<TraitBound>) -> Seq<TraitBoundV>
    decreases s,
{
    if s.len() == 0 {
        Seq::empty()
    } else {
        seq![view_bound(s[0])] + view_bounds(s.subrange(1, s.len() as int))
    }
}

pub open spec fn view_bound(b: TraitBound) -> TraitBoundV
    decreases b,
{
    TraitBoundV { trait_path: view_path(b.trait_path) }
}

pub broadcast proof fn lemma_view_types_index(s: Seq<TypeExpr>)
    ensures
        #[trigger] view_types(s).len() == s.len(),
        forall|i: int| 0 <= i < s.len() ==> view_types(s)[i] == view_type(s[i]),
    decreases s,
{
    if s.len() > 0 {
        lemma_view_types_index(s.subrange(1, s.len() as int));
    }
}

pub broadcast proof fn lemma_view_arg_seq_index(s: Seq<GenericArg>)
    ensures
        #[trigger] view_arg_seq(s).len() == s.len(),
        forall|i: int| 0 <= i < s.len() ==> view_arg_seq(s)[i] == view_arg(s[i]),
    decreases s,
{
    if s.len() > 0 {
        lemma_view_arg_seq_index(s.subrange(1, s.len() as int));
    }
}

pub broadcast proof fn lemma_view_bindings_index(s: Seq<TypeBinding>)
    ensures
        #[trigger] view_bindings(s).len() == s.len(),
        forall|i: int| 0 <= i < s.len() ==> view_bindings(s)[i] == view_binding(s[i]),
    decreases s,
{
    if s.len() > 0 {
        lemma_view_bindings_index(s.subrange(1, s.len() as int));
    }
}

pub broadcast proof fn lemma_view_bounds_index(s: Seq<TraitBound>)
    ensures
        #[trigger] view_bounds(s).len() == s.len(),
        forall|i: int| 0 <= i < s.len() ==> view_bounds(s)[i] == view_bound(s[i]),
    decreases s,
{
    if s.len() > 0 {
        lemma_view_bounds_index(s.subrange(1, s.len() as int));
    }
}

pub open spec fn view_params(s: Seq<GenericParam>) -> Seq<GenericParamV>
    decreases s,
{
    if s.len() == 0 {
        Seq::empty()
    } else {
        seq![GenericParamV { name: view_opt_str(s[0].name) }] + view_params(
            s.subrange(1, s.len() as int),
        )
    }
}

pub broadcast proof fn lemma_view_params_index(s: Seq<GenericParam>)
    ensures
        #[trigger] view_params(s).len() == s.len(),
        forall|i: int|
            0 <= i < s.len() ==> view_params(s)[i] == (GenericParamV {
                name: view_opt_str(s[i].name),
            }),
    decreases s,
{
    if s.len() > 0 {
        lemma_view_params_index(s.subrange(1, s.len() as int));
    }
}

pub open spec fn view_opt_generics(g: Option<Generics>) -> Option<GenericsV> {
    match g {
        Some(x) => Some(GenericsV { params: view_params(x.params@) }),
        None => None,
    }
}

pub open spec fn view_inputs(s: Seq<(String, TypeExpr)>) -> Seq<(Seq<char>, TypeExprV)>
    decreases s,
{
    if s.len() == 0 {
        Seq::empty()
    } else {
        seq![(s[0].0@, view_type(s[0].1))] + view_inputs(s.subrange(1, s.len() as int))
    }
}

pub broadcast proof fn lemma_view_inputs_index(s: Seq<(String, TypeExpr)>)
    ensures
        #[trigger] view_inputs(s).len() == s.len(),
        forall|i: int| 0 <= i < s.len() ==> view_inputs(s)[i] == (s[i].0@, view_type(s[i].1)),
    decreases s,
{
    if s.len() > 0 {
        lemma_view_inputs_index(s.subrange(1, s.len() as int));
    }
}

pub open spec fn view_fn_decl(d: FnDecl) -> FnDeclV {
    FnDeclV {
        inputs: view_inputs(d.inputs@),
        output: match d.output {
            Some(t) => Some(view_type(t)),
            None => None,
        },
        c_variadic: d.c_variadic,
    }
}

pub open spec fn view_tuple_fields(s: Seq<TupleFieldInfo>) -> Seq<TupleFieldV>
    decreases s,
{
    if s.len() == 0 {
        Seq::empty()
    } else {
        seq![view_tuple_field(s[0])] + view_tuple_fields(s.subrange(1, s.len() as int))
    }
}

pub open spec fn view_tuple_field(f: TupleFieldInfo) -> TupleFieldV {
    match f {
        TupleFieldInfo::Null => TupleFieldV::Null,
        TupleFieldInfo::Named { name } => TupleFieldV::Named { name: name@ },
        TupleFieldInfo::Other => TupleFieldV::Other,
    }
}

pub broadcast proof fn lemma_view_tuple_fields_index(s: Seq<TupleFieldInfo>)
    ensures
        #[trigger] view_tuple_fields(s).len() == s.len(),
        forall|i: int| 0 <= i < s.len() ==> view_tuple_fields(s)[i] == view_tuple_field(s[i]),
    decreases s,
{
    if s.len() > 0 {
        lemma_view_tuple_fields_index(s.subrange(1, s.len() as int));
    }
}

pub open spec fn view_opt_shape(s: Option<StructShape>) -> Option<StructShapeV> {
    match s {
        Some(StructShape::TupleFields { elems }) => Some(
            StructShapeV::TupleFields { elems: view_tuple_fields(elems@) },
        ),
        Some(StructShape::Unit) => Some(StructShapeV::Unit),
        Some(StructShape::Unknown) => Some(StructShapeV::Unknown),
        None => None,
    }
}

pub open spec fn view_bound_infos(s: Seq<TraitBoundInfo>) -> Seq<TraitBoundInfoV>
    decreases s,
{
    if s.len() == 0 {
        Seq::empty()
    } else {
        seq![view_bound_info(s[0])] + view_bound_infos(s.subrange(1, s.len() as int))
    }
}

pub open spec fn view_bound_info(b: TraitBoundInfo) -> TraitBoundInfoV {
    TraitBoundInfoV {
        trait_bound: match b.trait_bound {
            Some(t) => Some(view_bound(t)),
            None => None,
        },
        outlives: view_opt_str(b.outlives),
    }
}

pub broadcast proof fn lemma_view_bound_infos_index(s: Seq<TraitBoundInfo>)
    ensures
        #[trigger] view_bound_infos(s).len() == s.len(),
        forall|i: int| 0 <= i < s.len() ==> view_bound_infos(s)[i] == view_bound_info(s[i]),
    decreases s,
{
    if s.len() > 0 {
        lemma_view_bound_infos_index(s.subrange(1, s.len() as int));
    }
}

pub open spec fn view_kind(k: ItemKind) -> ItemKindV {
    match k {
        ItemKind::Function { decl } => ItemKindV::Function { decl: view_fn_decl(decl) },
        ItemKind::Enum { variants, impls, generics } => ItemKindV::Enum {
            variants: view_strings(variants@),
            impls: view_strings(impls@),
            generics: view_opt_generics(generics),
        },
        ItemKind::Struct { fields, impls, generics, shape } => ItemKindV::Struct {
            fields: view_strings(fields@),
            impls: view_strings(impls@),
            generics: view_opt_generics(generics),
            shape: view_opt_shape(shape),
        },
        ItemKind::Trait { bounds, generics, is_unsafe, items } => ItemKindV::Trait {
            bounds: view_bound_infos(bounds@),
            generics: view_opt_generics(generics),
            is_unsafe,
            items: view_strings(items@),
        },
        ItemKind::Impl { trait_ref, for_type, items, is_unsafe, blanket, generics } => ItemKindV::Impl {
            trait_ref: view_opt_path(trait_ref),
            for_type: match for_type {
                Some(t) => Some(view_type(t)),
                None => None,
            },
            items: view_strings(items@),
            is_unsafe,
            blanket: view_opt_str(blanket),
            generics: view_opt_generics(generics),
        },
        ItemKind::Variant { discriminant, shape } => ItemKindV::Variant {
            discriminant: view_opt_str(discriminant),
            shape,
        },
    }
}

pub open spec fn view_links(s: Seq<(String, String)>) -> Seq<(Seq<char>, Seq<char>)>
    decreases s,
{
    if s.len() == 0 {
        Seq::empty()
    } else {
        seq![(s[0].0@, s[0].1@)] + view_links(s.subrange(1, s.len() as int))
    }
}

pub broadcast proof fn lemma_view_links_index(s: Seq<(String, String)>)
    ensures
        #[trigger] view_links(s).len() == s.len(),
        forall|i: int| 0 <= i < s.len() ==> view_links(s)[i] == (s[i].0@, s[i].1@),
    decreases s,
{
    if s.len() > 0 {
        lemma_view_links_index(s.subrange(1, s.len() as int));
    }
}

pub open spec fn view_item(it: RustDocItem) -> ItemV {
    ItemV {
        docs: view_opt_str(it.docs),
        visibility: view_opt_str(it.visibility),
        name: view_opt_str(it.name),
        kind: match it.kind {
            Some(k) => Some(view_kind(k)),
            None => None,
        },
        links: view_links(it.links@),
    }
}

pub open spec fn view_index(s: Seq<(String, RustDocItem)>) -> Seq<(Seq<char>, ItemV)>
    decreases s,
{
    if s.len() == 0 {
        Seq::empty()
    } else {
        seq![(s[0].0@, view_item(s[0].1))] + view_index(s.subrange(1, s.len() as int))
    }
}

pub broadcast proof fn lemma_view_index_index(s: Seq<(String, RustDocItem)>)
    ensures
        #[trigger] view_index(s).len() == s.len(),
        forall|i: int| 0 <= i < s.len() ==> view_index(s)[i] == (s[i].0@, view_item(s[i].1)),
    decreases s,
{
    if s.len() > 0 {
        lemma_view_index_index(s.subrange(1, s.len() as int));
    }
}

pub open spec fn view_doc(d: RustDoc) -> DocV {
    DocV {
        root: d.root@,
        crate_version: d.crate_version@,
        includes_private: d.includes_private,
        index: view_index(d.index@),
    }
}

impl DeepView for TypeExpr {
    type V = TypeExprV;

    open spec fn deep_view(&self) -> TypeExprV {
        view_type(*self)
    }
}

impl DeepView for GenericArgs {
    type V = GenericArgsV;

    open spec fn deep_view(&self) -> GenericArgsV {
        view_args(*self)
    }
}

impl DeepView for Path {
    type V = PathV;

    open spec fn deep_view(&self) -> PathV {
        view_path(*self)
    }
}

impl DeepView for GenericArg {
    type V = GenericArgV;

    open spec fn deep_view(&self) -> GenericArgV {
        view_arg(*self)
    }
}

impl DeepView for TraitBound {
    type V = TraitBoundV;

    open spec fn deep_view(&self) -> TraitBoundV {
        view_bound(*self)
    }
}

impl DeepView for TypeBinding {
    type V = TypeBindingV;

    open spec fn deep_view(&self) -> TypeBindingV {
        view_binding(*self)
    }
}

impl DeepView for FnDecl {
    type V = FnDeclV;

    open spec fn deep_view(&self) -> FnDeclV {
        view_fn_decl(*self)
    }
}

impl DeepView for ItemKind {
    type V = ItemKindV;

    open spec fn deep_view(&self) -> ItemKindV {
        view_kind(*self)
    }
}

impl DeepView for RustDocItem {
    type V = ItemV;

    open spec fn deep_view(&self) -> ItemV {
        view_item(*self)
    }
}

impl DeepView for RustDoc {
    type V = DocV;

    open spec fn deep_view(&self) -> DocV {
        view_doc(*self)
    }
}

} // verus!
