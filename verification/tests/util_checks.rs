//! Tests of the unsanitary-name check, the text helpers and the
//! well-formedness deciders.

use thanix::model::{
    Operation, ParamLocation, Parameter, Schema, SchemaData, SchemaKindNode, SchemaNode, TypeNode,
    node_is_wf, operation_is_wf,
};
use thanix::text::{contains_sub, ends_with_sub, replace_all, str_eq};
use thanix::util::is_unsanitary;

#[test]
fn test_exact_match() {
    assert!(is_unsanitary("interface"));
}

#[test]
fn test_case_insensitive() {
    assert!(is_unsanitary("INTERFACE"));
    assert!(is_unsanitary("interface"));
}

#[test]
fn test_substring_match() {
    assert!(is_unsanitary("interface_type"));
    assert!(is_unsanitary("interface_name"));
}

#[test]
fn test_no_match() {
    assert!(!is_unsanitary("device"));
    assert!(!is_unsanitary(""));
    assert!(!is_unsanitary("other"));
}

#[test]
fn test_whitespace() {
    assert!(is_unsanitary(" interface "));
    assert!(is_unsanitary("\tinterface\n"));
}

#[test]
fn test_contains_sub() {
    assert!(contains_sub("abcdef", "cde"));
    assert!(contains_sub("abcdef", ""));
    assert!(!contains_sub("abcdef", "cdf"));
    assert!(!contains_sub("ab", "abc"));
}

#[test]
fn test_ends_with_sub() {
    assert!(ends_with_sub("WritableInterfaceRequest", "Request"));
    assert!(!ends_with_sub("RequestLog", "Request"));
    assert!(!ends_with_sub("Log", "Request"));
}

#[test]
fn test_str_eq() {
    assert!(str_eq("id", "id"));
    assert!(!str_eq("id", "idx"));
    assert!(!str_eq("id", "ID"));
}

#[test]
fn test_replace_all() {
    assert_eq!(replace_all("/api/user/profile", "/api/", ""), "user/profile");
    assert_eq!(replace_all("a/b/c", "/", "_"), "a_b_c");
    assert_eq!(replace_all("aaa", "aa", "b"), "ba");
    assert_eq!(replace_all("xyz", "q", "r"), "xyz");
}

#[test]
fn test_node_is_wf_rejects_bare_array() {
    let bare = SchemaNode::Item(Box::new(Schema {
        schema_data: SchemaData {
            nullable: false,
            description: None,
        },
        schema_kind: SchemaKindNode::TypeKind(TypeNode::ArrayNode { items: None }),
    }));
    assert!(!node_is_wf(&bare));
    let sound = SchemaNode::Item(Box::new(Schema {
        schema_data: SchemaData {
            nullable: false,
            description: None,
        },
        schema_kind: SchemaKindNode::TypeKind(TypeNode::StringNode),
    }));
    assert!(node_is_wf(&sound));
}

#[test]
fn test_node_is_wf_rejects_empty_all_of() {
    let empty = SchemaNode::Item(Box::new(Schema {
        schema_data: SchemaData {
            nullable: false,
            description: None,
        },
        schema_kind: SchemaKindNode::AllOfKind { all_of: Vec::new() },
    }));
    assert!(!node_is_wf(&empty));
}

#[test]
fn test_operation_is_wf_rejects_cookie() {
    let op = Operation {
        operation_id: None,
        description: None,
        parameters: vec![Parameter {
            location: ParamLocation::Cookie,
            name: "session".to_string(),
            description: None,
            schema: None,
        }],
        request_json: None,
        responses: Vec::new(),
    };
    assert!(!operation_is_wf(&op));
    let empty = Operation {
        operation_id: None,
        description: None,
        parameters: Vec::new(),
        request_json: None,
        responses: Vec::new(),
    };
    assert!(operation_is_wf(&empty));
}
