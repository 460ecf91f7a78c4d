//! Tests of the type resolver and the comment formatter.

use thanix::bindgen::{make_comment, type_to_string};
use thanix::model::{Schema, SchemaData, SchemaKindNode, SchemaNode, TypeNode};

fn plain_data() -> SchemaData {
    SchemaData {
        nullable: false,
        description: None,
    }
}

fn item(kind: SchemaKindNode) -> SchemaNode {
    SchemaNode::Item(Box::new(Schema {
        schema_data: plain_data(),
        schema_kind: kind,
    }))
}

fn nullable_item(kind: SchemaKindNode) -> SchemaNode {
    SchemaNode::Item(Box::new(Schema {
        schema_data: SchemaData {
            nullable: true,
            description: None,
        },
        schema_kind: kind,
    }))
}

fn integer(minimum: Option<i64>, maximum: Option<i64>) -> SchemaKindNode {
    SchemaKindNode::TypeKind(TypeNode::IntegerNode { minimum, maximum })
}

#[test]
fn test_make_comment() {
    let input = Some("Test comment\nwith multiple lines.".to_string());
    let result = make_comment(input, 1);
    assert_eq!(result, "\t/// Test comment\n\t/// with multiple lines.\n");
}

#[test]
fn test_make_comment_empty() {
    let input = None;
    let result = make_comment(input, 1);
    assert_eq!(result, "");
}

#[test]
fn test_make_comment_blank_lines() {
    // Three newline-separated lines, the middle one empty, give exactly
    // three comment lines, each terminated on its own.
    let result = make_comment(Some("a\n\nb".to_string()), 0);
    assert_eq!(result, "/// a\n/// \n/// b\n");
    assert_eq!(result.matches('\n').count(), 3);
}

#[test]
fn test_make_comment_empty_text() {
    let result = make_comment(Some(String::new()), 0);
    assert_eq!(result, "/// \n");
}

#[test]
fn test_type_to_string() {
    let schema = item(SchemaKindNode::TypeKind(TypeNode::StringNode));
    assert_eq!(type_to_string(&schema), "String");
}

#[test]
fn test_type_to_string_integer() {
    let schema = item(integer(Some(0), None));
    assert_eq!(type_to_string(&schema), "i64");
}

#[test]
fn test_type_to_string_reference() {
    let schema = SchemaNode::Reference {
        reference: "#/components/schemas/User".to_string(),
    };
    assert_eq!(type_to_string(&schema), "User");
}

#[test]
fn test_resolve_deterministic() {
    let a = item(integer(Some(-3), Some(100)));
    let b = item(integer(Some(-3), Some(100)));
    assert_eq!(type_to_string(&a), type_to_string(&b));
}

#[test]
fn test_width_unsigned_boundaries() {
    assert_eq!(type_to_string(&item(integer(Some(0), Some(255)))), "u8");
    assert_eq!(type_to_string(&item(integer(Some(0), Some(256)))), "u16");
    assert_eq!(type_to_string(&item(integer(Some(0), Some(65535)))), "u16");
    assert_eq!(type_to_string(&item(integer(Some(0), Some(65536)))), "u32");
    assert_eq!(
        type_to_string(&item(integer(Some(0), Some(4294967295)))),
        "u32"
    );
    assert_eq!(
        type_to_string(&item(integer(Some(0), Some(4294967296)))),
        "u64"
    );
}

#[test]
fn test_width_signed_boundaries() {
    assert_eq!(type_to_string(&item(integer(Some(-1), Some(127)))), "i8");
    assert_eq!(type_to_string(&item(integer(Some(-1), Some(128)))), "i16");
    assert_eq!(
        type_to_string(&item(integer(Some(-1), Some(32768)))),
        "i32"
    );
    assert_eq!(
        type_to_string(&item(integer(Some(-1), Some(2147483648)))),
        "i64"
    );
}

#[test]
fn test_width_signed_when_minimum_absent() {
    // No declared minimum: default to signed widths.
    assert_eq!(type_to_string(&item(integer(None, Some(127)))), "i8");
    assert_eq!(type_to_string(&item(integer(None, Some(255)))), "i16");
    assert_eq!(type_to_string(&item(integer(None, Some(32767)))), "i16");
    assert_eq!(
        type_to_string(&item(integer(None, Some(2147483647)))),
        "i32"
    );
    assert_eq!(
        type_to_string(&item(integer(None, Some(2147483648)))),
        "i64"
    );
}

#[test]
fn test_width_default_without_maximum() {
    // No declared maximum: 64 bits wide whatever the minimum.
    assert_eq!(type_to_string(&item(integer(None, None))), "i64");
    assert_eq!(type_to_string(&item(integer(Some(-5), None))), "i64");
    assert_eq!(type_to_string(&item(integer(Some(7), None))), "i64");
}

#[test]
fn test_resolve_boolean_number_object_other() {
    assert_eq!(
        type_to_string(&item(SchemaKindNode::TypeKind(TypeNode::BooleanNode))),
        "bool"
    );
    assert_eq!(
        type_to_string(&item(SchemaKindNode::TypeKind(TypeNode::NumberNode))),
        "f64"
    );
    assert_eq!(
        type_to_string(&item(SchemaKindNode::TypeKind(TypeNode::ObjectNode {
            properties: Vec::new()
        }))),
        "Option<std::collections::HashMap<String, serde_json::Value>>"
    );
    assert_eq!(
        type_to_string(&item(SchemaKindNode::OtherKind)),
        "serde_json::Value"
    );
}

#[test]
fn test_resolve_array_nesting() {
    let ints = item(integer(None, None));
    let arr = item(SchemaKindNode::TypeKind(TypeNode::ArrayNode {
        items: Some(Box::new(ints)),
    }));
    assert_eq!(type_to_string(&arr), "Vec<i64>");
    let nested = item(SchemaKindNode::TypeKind(TypeNode::ArrayNode {
        items: Some(Box::new(arr)),
    }));
    assert_eq!(type_to_string(&nested), "Vec<Vec<i64>>");
}

#[test]
fn test_nullable_wraps_once() {
    let schema = nullable_item(SchemaKindNode::TypeKind(TypeNode::StringNode));
    assert_eq!(type_to_string(&schema), "Option<String>");
}

#[test]
fn test_nullable_never_wraps_twice() {
    // The allOf rule already yields an optional type; a nullable flag on
    // top of it must not wrap again.
    let first = item(SchemaKindNode::TypeKind(TypeNode::StringNode));
    let all_of = nullable_item(SchemaKindNode::AllOfKind {
        all_of: vec![first],
    });
    assert_eq!(type_to_string(&all_of), "Option<String>");
}

#[test]
fn test_nullable_object_not_rewrapped() {
    let schema = nullable_item(SchemaKindNode::TypeKind(TypeNode::ObjectNode {
        properties: Vec::new(),
    }));
    assert_eq!(
        type_to_string(&schema),
        "Option<std::collections::HashMap<String, serde_json::Value>>"
    );
}

#[test]
fn test_nullable_wraps_outer_container() {
    // A nullable array of nullable strings is itself optional: the inner
    // optional does not count as the outer wrapper.
    let inner = nullable_item(SchemaKindNode::TypeKind(TypeNode::StringNode));
    let arr = SchemaNode::Item(Box::new(Schema {
        schema_data: SchemaData {
            nullable: true,
            description: None,
        },
        schema_kind: SchemaKindNode::TypeKind(TypeNode::ArrayNode {
            items: Some(Box::new(inner)),
        }),
    }));
    assert_eq!(type_to_string(&arr), "Option<Vec<Option<String>>>");
}

#[test]
fn test_reference_with_trailing_content() {
    let schema = SchemaNode::Reference {
        reference: "#/components/schemas/Device".to_string(),
    };
    assert_eq!(type_to_string(&schema), "Device");
}
