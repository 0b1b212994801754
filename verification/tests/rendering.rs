use rustdoc_md::RustDoc;
use rustdoc_md::RustDocItem;
use rustdoc_md::model::FnDecl;
use rustdoc_md::model::GenericParam;
use rustdoc_md::model::Generics;
use rustdoc_md::model::ItemKind;
use rustdoc_md::model::Path;
use rustdoc_md::model::StructShape;
use rustdoc_md::model::TraitBound;
use rustdoc_md::model::TypeExpr;
use rustdoc_md::model::VariantShape;
use rustdoc_md::render::render_type;

fn item(name: Option<&str>, vis: Option<&str>, kind: Option<ItemKind>) -> RustDocItem {
    RustDocItem {
        docs: None,
        visibility: vis.map(|v| v.to_string()),
        name: name.map(|n| n.to_string()),
        kind,
        links: Vec::new(),
    }
}

fn doc(index: Vec<(&str, RustDocItem)>) -> RustDoc {
    RustDoc {
        root: "src/test_crate".to_string(),
        crate_version: "0.1.0".to_string(),
        includes_private: true,
        index: index.into_iter().map(|(k, v)| (k.to_string(), v)).collect(),
    }
}

#[test]
fn function_signature_block() {
    let d = doc(vec![(
        "0:1",
        item(
            Some("encode"),
            Some("public"),
            Some(ItemKind::Function {
                decl: FnDecl {
                    inputs: Vec::new(),
                    output: Some(TypeExpr::Primitive { name: "String".to_string() }),
                    c_variadic: false,
                },
            }),
        ),
    )]);
    let md = d.to_markdown();
    assert_eq!(
        md,
        "# test_crate v0.1.0\n\n## Functions\n\n### pub encode\n\n```rust\npub fn encode() -> String { ... }\n```\n\n\n"
    );
}

#[test]
fn struct_named_fields() {
    let d = doc(vec![
        (
            "0:1",
            item(
                Some("Point"),
                Some("public"),
                Some(ItemKind::Struct {
                    fields: vec!["0:2".to_string(), "0:3".to_string()],
                    impls: Vec::new(),
                    generics: None,
                    shape: None,
                }),
            ),
        ),
        ("0:2", item(Some("x"), Some("public"), None)),
        ("0:3", item(Some("y"), None, None)),
    ]);
    let md = d.to_markdown();
    assert!(md.contains(
        "```rust\npub struct Point {\n    pub x: /* field type */,\n    y: /* field type */,\n}\n```\n"
    ));
    assert!(md.contains("### pub Point\n"));
}

#[test]
fn enum_variant_discriminant() {
    let plain = |n: &str| {
        item(
            Some(n),
            None,
            Some(ItemKind::Variant { discriminant: None, shape: VariantShape::Plain }),
        )
    };
    let d = doc(vec![
        (
            "0:1",
            item(
                Some("Letters"),
                Some("public"),
                Some(ItemKind::Enum {
                    variants: vec!["0:2".to_string(), "0:3".to_string(), "0:4".to_string()],
                    impls: Vec::new(),
                    generics: None,
                }),
            ),
        ),
        ("0:2", plain("A")),
        (
            "0:3",
            item(
                Some("B"),
                None,
                Some(ItemKind::Variant {
                    discriminant: Some("1".to_string()),
                    shape: VariantShape::Plain,
                }),
            ),
        ),
        ("0:4", plain("C")),
    ]);
    let md = d.to_markdown();
    // the enum body lists all three variants
    assert!(md.contains("pub enum Letters {\n    A,\n    B,\n    C,\n}\n"));
    // the discriminant-carrying variant renders its expression inside a
    // closed fence
    assert!(md.contains("#### `B`\n\n```rust\nB = 1,\n```\n"));
    // the other plain variants close their fences
    assert!(md.contains("#### `A`\n\n```rust\nA,\n```\n"));
}

#[test]
fn impl_block_heading() {
    let d = doc(vec![(
        "0:1",
        item(
            None,
            None,
            Some(ItemKind::Impl {
                trait_ref: Some(Path {
                    name: "Display".to_string(),
                    id: None,
                    args: None,
                }),
                for_type: Some(TypeExpr::ResolvedPath {
                    path: Path { name: "Foo".to_string(), id: None, args: None },
                }),
                items: Vec::new(),
                is_unsafe: false,
                blanket: None,
                generics: None,
            }),
        ),
    )]);
    let md = d.to_markdown();
    assert!(md.contains("### Implementation of `Display` for `Foo`\n"));
    assert!(md.contains("```rust\nimpl Display for Foo {\n}\n```\n"));
    // an unnamed impl lands in the catch-all section
    assert!(md.contains("## Other Items\n"));
}

#[test]
fn classification_is_stable() {
    let d = doc(vec![
        ("0:1", item(Some("alpha"), None, None)),
        (
            "0:2",
            item(
                Some("f"),
                Some("public"),
                Some(ItemKind::Function {
                    decl: FnDecl { inputs: Vec::new(), output: None, c_variadic: false },
                }),
            ),
        ),
    ]);
    let first = d.to_markdown();
    let second = d.to_markdown();
    assert_eq!(first, second);
}

#[test]
fn implements_list_sorted_and_deduplicated() {
    let mk_impl = |trait_name: &str| {
        item(
            None,
            None,
            Some(ItemKind::Impl {
                trait_ref: Some(Path { name: trait_name.to_string(), id: None, args: None }),
                for_type: None,
                items: Vec::new(),
                is_unsafe: false,
                blanket: None,
                generics: None,
            }),
        )
    };
    let d = doc(vec![
        (
            "0:1",
            item(
                Some("Thing"),
                Some("public"),
                Some(ItemKind::Struct {
                    fields: Vec::new(),
                    impls: vec![
                        "0:9".to_string(),
                        "0:8".to_string(),
                        "0:9".to_string(),
                        "0:9".to_string(),
                    ],
                    generics: None,
                    shape: Some(StructShape::Unit),
                }),
            ),
        ),
        ("0:8", mk_impl("Alpha")),
        ("0:9", mk_impl("Zeta")),
    ]);
    let md = d.to_markdown();
    let alpha = md.find("- `Alpha`").expect("Alpha listed");
    let zeta = md.find("- `Zeta`").expect("Zeta listed");
    assert!(alpha < zeta);
    assert_eq!(md.matches("- `Zeta`").count(), 1);
    assert!(md.contains("**Implements:**\n- `Alpha`\n- `Zeta`\n"));
}

#[test]
fn skipped_trait_method_not_listed_as_function() {
    // a named function whose identifier stands in the member list of an
    // impl that carries a trait reference
    let f = item(
        Some("fmt"),
        None,
        Some(ItemKind::Function {
            decl: FnDecl { inputs: Vec::new(), output: None, c_variadic: false },
        }),
    );
    let the_impl = item(
        None,
        None,
        Some(ItemKind::Impl {
            trait_ref: Some(Path { name: "Display".to_string(), id: None, args: None }),
            for_type: Some(TypeExpr::ResolvedPath {
                path: Path { name: "Foo".to_string(), id: None, args: None },
            }),
            items: vec!["0:1".to_string()],
            is_unsafe: false,
            blanket: None,
            generics: None,
        }),
    );
    let d = doc(vec![("0:1", f), ("0:2", the_impl)]);
    let skip = d.index[0].1.skip(&d);
    assert_eq!(
        skip,
        Some("trait method implementation (already shown in parent trait impl)")
    );
    let md = d.to_markdown();
    // the functions section opens (its bucket is non-empty) but the
    // skipped item contributes nothing under it
    assert!(md.contains("## Functions\n\n## Other Items\n"));
    assert!(!md.contains("### fmt"));
}

#[test]
fn renderer_handles_nested_shapes() {
    let inner = TypeExpr::BorrowedRef {
        lifetime: Some("'a".to_string()),
        mutable: true,
        inner: Box::new(TypeExpr::Slice {
            inner: Box::new(TypeExpr::Primitive { name: "u8".to_string() }),
        }),
    };
    assert_eq!(render_type(&inner), "&'a mut [u8]");
    let tup = TypeExpr::Tuple { elems: Vec::new() };
    assert_eq!(render_type(&tup), "()");
    let dynt = TypeExpr::DynTrait {
        lifetime: None,
        bounds: vec![
            TraitBound { trait_path: Path { name: "Read".to_string(), id: None, args: None } },
            TraitBound { trait_path: Path { name: "Send".to_string(), id: None, args: None } },
        ],
    };
    assert_eq!(render_type(&dynt), "dyn Read + Send");
    assert_eq!(render_type(&TypeExpr::Unrecognized), "/* unknown type */");
    let arr = TypeExpr::Array {
        inner: Box::new(TypeExpr::Primitive { name: "u8".to_string() }),
        len: "32".to_string(),
    };
    assert_eq!(render_type(&arr), "[u8; 32]");
    let raw = TypeExpr::RawPointer {
        mutable: false,
        inner: Box::new(TypeExpr::Generic { name: "T".to_string() }),
    };
    assert_eq!(render_type(&raw), "*const T");
}

#[test]
fn cross_reference_rewrite_uses_struct_tag() {
    let mut it = item(Some("user"), None, None);
    it.docs = Some("See Point for more.".to_string());
    it.links = vec![("Point".to_string(), "0:2".to_string())];
    let target = item(
        Some("Point"),
        Some("public"),
        Some(ItemKind::Struct {
            fields: Vec::new(),
            impls: Vec::new(),
            generics: None,
            shape: Some(StructShape::Unit),
        }),
    );
    let d = doc(vec![("0:1", it), ("0:2", target)]);
    let md = d.to_markdown();
    assert!(md.contains("See [Point](#point-struct) for more."));
}

#[test]
fn tuple_struct_with_lifetime_slot() {
    let d = doc(vec![(
        "0:1",
        item(
            Some("HexDisplay"),
            Some("public"),
            Some(ItemKind::Struct {
                fields: Vec::new(),
                impls: Vec::new(),
                generics: Some(Generics {
                    params: vec![GenericParam { name: Some("'a".to_string()) }],
                }),
                shape: Some(StructShape::TupleFields {
                    elems: vec![rustdoc_md::model::TupleFieldInfo::Null],
                }),
            }),
        ),
    )]);
    let md = d.to_markdown();
    assert!(md.contains("pub struct HexDisplay<'a>(&'a [u8]);\n"));
}

#[test]
fn extract_first_lifetime_examples() {
    assert_eq!(rustdoc_md::extract_first_lifetime("<'a, T>"), Some("'a"));
    assert_eq!(rustdoc_md::extract_first_lifetime("<'static>"), Some("'static"));
    assert_eq!(rustdoc_md::extract_first_lifetime("<T, U>"), None);
    assert_eq!(rustdoc_md::extract_first_lifetime(""), None);
}

#[test]
fn replace_all_examples() {
    assert_eq!(rustdoc_md::text::replace_all("aaa", "a", "b"), "bbb");
    assert_eq!(rustdoc_md::text::replace_all("abcabc", "bc", "X"), "aXaX");
    assert_eq!(rustdoc_md::text::replace_all("ab", "", "-"), "-a-b-");
    assert_eq!(rustdoc_md::text::replace_all("none", "xyz", "q"), "none");
}
