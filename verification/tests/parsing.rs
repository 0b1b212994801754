use rustdoc_md::SchemaErrKind;
use rustdoc_md::json::JsonValue;
use rustdoc_md::model::ItemKind;
use rustdoc_md::model::TypeExpr;
use rustdoc_md::parse_document;
use rustdoc_md::render_docs;

#[test]
fn parse_and_render_small_index() {
    let text = r#"{
        "root": "src/hexdoc",
        "crate_version": "2.3.4",
        "includes_private": false,
        "index": {
            "0:2": {
                "docs": "Encodes bytes.",
                "visibility": "public",
                "name": "encode",
                "inner": {
                    "function": {
                        "decl": {
                            "inputs": [["data", {"primitive": "u8"}]],
                            "output": {"primitive": "String"},
                            "c_variadic": false
                        }
                    }
                }
            }
        }
    }"#;
    let doc = parse_document(text).expect("document parses");
    assert_eq!(doc.root, "src/hexdoc");
    assert_eq!(doc.crate_version, "2.3.4");
    assert_eq!(doc.index.len(), 1);
    let md = render_docs(text).expect("document renders");
    assert!(md.starts_with("# hexdoc v2.3.4\n\n"));
    assert!(md.contains("## Functions\n"));
    assert!(md.contains("```rust\npub fn encode(data: u8) -> String { ... }\n```\n"));
}

#[test]
fn parse_rejects_non_json() {
    let err = parse_document("this is not json").unwrap_err();
    assert_eq!(err.kind, SchemaErrKind::Document);
    assert!(err.item_id.is_none());
}

#[test]
fn parse_reports_offending_item() {
    let text = r#"{
        "root": "x",
        "crate_version": "0",
        "includes_private": true,
        "index": {
            "0:7": {"name": 12}
        }
    }"#;
    let err = parse_document(text).unwrap_err();
    assert_eq!(err.kind, SchemaErrKind::Item);
    assert_eq!(err.item_id.as_deref(), Some("0:7"));
    let msg = err.message();
    assert!(msg.contains("in item `0:7`"));
    assert!(msg.contains("12"));
}

#[test]
fn parse_reports_bad_type_shape() {
    let text = r#"{
        "root": "x",
        "crate_version": "0",
        "includes_private": true,
        "index": {
            "0:1": {
                "name": "f",
                "inner": {
                    "function": {
                        "decl": {
                            "inputs": [["p", {"primitive": 5}]],
                            "output": null,
                            "c_variadic": false
                        }
                    }
                }
            }
        }
    }"#;
    let err = parse_document(text).unwrap_err();
    assert_eq!(err.kind, SchemaErrKind::TypeShape);
    assert_eq!(err.item_id.as_deref(), Some("0:1"));
}

#[test]
fn parse_reports_missing_document_fields() {
    let err = parse_document(r#"{"root": "x"}"#).unwrap_err();
    assert_eq!(err.kind, SchemaErrKind::Document);
    let err2 = parse_document("[1, 2]").unwrap_err();
    assert_eq!(err2.kind, SchemaErrKind::Document);
}

#[test]
fn type_precedence_first_key_wins() {
    // a shape carrying both a primitive and a generic key decodes as a
    // primitive: the variant order of the grammar decides
    let text = r#"{
        "root": "x",
        "crate_version": "0",
        "includes_private": true,
        "index": {
            "0:1": {
                "name": "f",
                "inner": {
                    "function": {
                        "decl": {
                            "inputs": [["p", {"primitive": "u8", "generic": "T"}]],
                            "output": {},
                            "c_variadic": false
                        }
                    }
                }
            }
        }
    }"#;
    let doc = parse_document(text).expect("parses");
    match &doc.index[0].1.kind {
        Some(ItemKind::Function { decl }) => {
            match &decl.inputs[0].1 {
                TypeExpr::Primitive { name } => assert_eq!(name, "u8"),
                other => panic!("expected a primitive, got {:?}", type_tag(other)),
            }
            // the empty object decodes as the self type
            match &decl.output {
                Some(TypeExpr::SelfType) => {},
                _ => panic!("expected the self type"),
            }
        },
        _ => panic!("expected a function"),
    }
}

fn type_tag(t: &TypeExpr) -> &'static str {
    match t {
        TypeExpr::Primitive { .. } => "primitive",
        TypeExpr::Generic { .. } => "generic",
        TypeExpr::ResolvedPath { .. } => "resolved path",
        TypeExpr::BorrowedRef { .. } => "borrowed ref",
        TypeExpr::Slice { .. } => "slice",
        TypeExpr::Array { .. } => "array",
        TypeExpr::RawPointer { .. } => "raw pointer",
        TypeExpr::ImplTrait { .. } => "impl trait",
        TypeExpr::DynTrait { .. } => "dyn trait",
        TypeExpr::QualifiedPath { .. } => "qualified path",
        TypeExpr::Tuple { .. } => "tuple",
        TypeExpr::SelfType => "self",
        TypeExpr::Unrecognized => "unrecognized",
    }
}

#[test]
fn unknown_shape_degrades_to_placeholder() {
    let text = r#"{
        "root": "x",
        "crate_version": "0",
        "includes_private": true,
        "index": {
            "0:1": {
                "name": "f",
                "visibility": "public",
                "inner": {
                    "function": {
                        "decl": {
                            "inputs": [["p", {"wild_new_shape": 1}]],
                            "output": null,
                            "c_variadic": false
                        }
                    }
                }
            }
        }
    }"#;
    let md = render_docs(text).expect("renders");
    assert!(md.contains("pub fn f(p: /* unknown type */) { ... }"));
}

#[test]
fn kind_precedence_trait_before_struct() {
    // an inner object carrying both a struct and a trait payload
    // becomes a trait: the classification priority decides
    let text = r#"{
        "root": "x",
        "crate_version": "0",
        "includes_private": true,
        "index": {
            "0:1": {
                "name": "Mixed",
                "inner": {
                    "struct": {"fields": [], "impls": [], "kind": "unit"},
                    "trait": {"bounds": [], "items": []}
                }
            }
        }
    }"#;
    let doc = parse_document(text).expect("parses");
    assert!(matches!(&doc.index[0].1.kind, Some(ItemKind::Trait { .. })));
    let md = doc.to_markdown();
    assert!(md.contains("## Traits\n"));
    assert!(md.contains("pub trait Mixed {\n}\n"));
    assert!(md.contains("**Methods:**\n"));
}

#[test]
fn pretty_printer_output() {
    let v = JsonValue::Obj(vec![
        ("a".to_string(), JsonValue::Bool(true)),
        (
            "b".to_string(),
            JsonValue::Arr(vec![JsonValue::Num("1".to_string()), JsonValue::Null]),
        ),
        ("c".to_string(), JsonValue::Str("x\"y".to_string())),
    ]);
    let expected = "{\n  \"a\": true,\n  \"b\": [\n    1,\n    null\n  ],\n  \"c\": \"x\\\"y\"\n}";
    assert_eq!(v.to_pretty(), expected);
}

#[test]
fn doc_links_rewritten_from_parsed_text() {
    let text = r#"{
        "root": "src/demo",
        "crate_version": "1.0.0",
        "includes_private": true,
        "index": {
            "0:1": {
                "docs": "Builds a Widget quickly.",
                "name": "build",
                "links": {"Widget": "0:2"},
                "inner": {
                    "function": {
                        "decl": {"inputs": [], "output": null, "c_variadic": false}
                    }
                }
            },
            "0:2": {
                "name": "Widget",
                "visibility": "public",
                "inner": {"struct": {"fields": [], "impls": [], "kind": "unit"}}
            }
        }
    }"#;
    let md = render_docs(text).expect("renders");
    assert!(md.contains("Builds a [Widget](#widget-struct) quickly."));
}
