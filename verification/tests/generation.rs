//! Tests of struct emission, operation emission and the two buffers.

use thanix::bindgen::{generate_paths, generate_types};
use thanix::model::{
    Operation, ParamLocation, Parameter, PathItem, ResponseEntry, Schema, SchemaData,
    SchemaKindNode, SchemaNode, TypeNode,
};
use thanix::pathgen::{gen_fn, make_fn_name_from_path};
use thanix::{pathgen, structgen};

fn plain_data() -> SchemaData {
    SchemaData {
        nullable: false,
        description: None,
    }
}

fn schema_of(kind: SchemaKindNode) -> Schema {
    Schema {
        schema_data: plain_data(),
        schema_kind: kind,
    }
}

fn item(kind: SchemaKindNode) -> SchemaNode {
    SchemaNode::Item(Box::new(schema_of(kind)))
}

fn string_node() -> SchemaNode {
    item(SchemaKindNode::TypeKind(TypeNode::StringNode))
}

fn integer_node() -> SchemaNode {
    item(SchemaKindNode::TypeKind(TypeNode::IntegerNode {
        minimum: None,
        maximum: None,
    }))
}

fn empty_operation() -> Operation {
    Operation {
        operation_id: None,
        description: None,
        parameters: Vec::new(),
        request_json: None,
        responses: Vec::new(),
    }
}

fn empty_path_item() -> PathItem {
    PathItem {
        get: None,
        put: None,
        post: None,
        delete: None,
        options: None,
        head: None,
        patch: None,
        trace: None,
    }
}

const STRUCT_HEADER: &str = "#[derive(Serialize, Deserialize, Debug, Default, Clone)]\npub struct ";

#[test]
fn test_generate_with_non_object_schema() {
    let schema = schema_of(SchemaKindNode::TypeKind(TypeNode::StringNode)); // Not an object
    let result = structgen::generate("InvalidStruct", &schema, false);
    assert_eq!(result, None);
}

#[test]
fn test_generate_skips_scalar_kinds() {
    // Only object and array kinds produce a struct.
    for kind in [
        SchemaKindNode::TypeKind(TypeNode::StringNode),
        SchemaKindNode::TypeKind(TypeNode::NumberNode),
        SchemaKindNode::TypeKind(TypeNode::IntegerNode {
            minimum: None,
            maximum: None,
        }),
        SchemaKindNode::TypeKind(TypeNode::BooleanNode),
        SchemaKindNode::OtherKind,
    ] {
        assert_eq!(structgen::generate("Skipped", &schema_of(kind), false), None);
    }
}

#[test]
fn test_generate_object_struct() {
    let schema = schema_of(SchemaKindNode::TypeKind(TypeNode::ObjectNode {
        properties: vec![
            ("name".to_string(), string_node()),
            ("count".to_string(), integer_node()),
        ],
    }));
    let result = structgen::generate("Widget", &schema, false).unwrap();
    let expected = format!(
        "{}Widget {{\n\tpub name: String,\n\tpub count: i64,\n}}\n",
        STRUCT_HEADER
    );
    assert_eq!(result, expected);
}

#[test]
fn test_generate_array_struct() {
    let schema = schema_of(SchemaKindNode::TypeKind(TypeNode::ArrayNode {
        items: Some(Box::new(integer_node())),
    }));
    let result = structgen::generate("Numbers", &schema, false).unwrap();
    let expected = format!("{}Numbers(pub i64);\n", STRUCT_HEADER);
    assert_eq!(result, expected);
}

#[test]
fn test_generate_keyword_field_escaped() {
    // A property named like a reserved word is emitted behind a raw mark.
    let schema = schema_of(SchemaKindNode::TypeKind(TypeNode::ObjectNode {
        properties: vec![("type".to_string(), string_node())],
    }));
    let result = structgen::generate("Tagged", &schema, false).unwrap();
    assert!(result.contains("\tpub r#type: String,\n"));
}

#[test]
fn test_workaround_widening_excludes_id() {
    // The component name matches the unsanitary list: every field but `id`
    // whose type is not already optional is widened.
    let nullable_str = SchemaNode::Item(Box::new(Schema {
        schema_data: SchemaData {
            nullable: true,
            description: None,
        },
        schema_kind: SchemaKindNode::TypeKind(TypeNode::StringNode),
    }));
    let schema = schema_of(SchemaKindNode::TypeKind(TypeNode::ObjectNode {
        properties: vec![
            ("id".to_string(), integer_node()),
            ("name".to_string(), string_node()),
            ("label".to_string(), nullable_str),
        ],
    }));
    let result = structgen::generate("Interface", &schema, true).unwrap();
    assert!(result.contains("\tpub id: i64,\n"));
    assert!(result.contains("\tpub name: Option<String>,\n"));
    // Already optional: not wrapped a second time.
    assert!(result.contains("\tpub label: Option<String>,\n"));
    assert!(!result.contains("Option<Option<"));
}

#[test]
fn test_workaround_widens_container_of_optionals() {
    // A field whose type only holds an inner optional is still widened:
    // the field itself is not optional until it starts with the wrapper.
    let inner = SchemaNode::Item(Box::new(Schema {
        schema_data: SchemaData {
            nullable: true,
            description: None,
        },
        schema_kind: SchemaKindNode::TypeKind(TypeNode::StringNode),
    }));
    let schema = schema_of(SchemaKindNode::TypeKind(TypeNode::ObjectNode {
        properties: vec![(
            "tags".to_string(),
            item(SchemaKindNode::TypeKind(TypeNode::ArrayNode {
                items: Some(Box::new(inner)),
            })),
        )],
    }));
    let result = structgen::generate("Interface", &schema, true).unwrap();
    assert!(result.contains("\tpub tags: Option<Vec<Option<String>>>,\n"));
}

#[test]
fn test_workaround_spares_request_components() {
    let schema = schema_of(SchemaKindNode::TypeKind(TypeNode::ObjectNode {
        properties: vec![("name".to_string(), string_node())],
    }));
    let result = structgen::generate("InterfaceRequest", &schema, true).unwrap();
    assert!(result.contains("\tpub name: String,\n"));
}

#[test]
fn test_workaround_spares_unlisted_components() {
    let schema = schema_of(SchemaKindNode::TypeKind(TypeNode::ObjectNode {
        properties: vec![("name".to_string(), string_node())],
    }));
    let result = structgen::generate("Device", &schema, true).unwrap();
    assert!(result.contains("\tpub name: String,\n"));
}

#[test]
fn test_generate_no_op() {
    let path_item = empty_path_item();
    let result = pathgen::generate("/test", &path_item, false);
    assert_eq!(result, Some(String::new()));
}

#[test]
fn test_generate_multi_op() {
    let mut path_item = empty_path_item();
    path_item.get = Some(empty_operation());
    path_item.post = Some(empty_operation());

    let result = pathgen::generate("/test", &path_item, false);
    assert!(result.is_some());
    let output = result.unwrap();
    assert!(output.contains("get"));
    assert!(output.contains("post"));
}

#[test]
fn test_generate_all_op() {
    let mut path_item = empty_path_item();
    path_item.get = Some(empty_operation());
    path_item.put = Some(empty_operation());
    path_item.post = Some(empty_operation());
    path_item.delete = Some(empty_operation());
    path_item.options = Some(empty_operation());
    path_item.head = Some(empty_operation());
    path_item.patch = Some(empty_operation());
    path_item.trace = Some(empty_operation());

    let result = pathgen::generate("/test", &path_item, false);
    assert!(result.is_some());
    let output = result.unwrap();
    assert!(output.contains("get"));
    assert!(output.contains("put"));
    assert!(output.contains("post"));
    assert!(output.contains("delete"));
    assert!(output.contains("options"));
    assert!(output.contains("head"));
    assert!(output.contains("patch"));
    assert!(output.contains("trace"));
}

#[test]
fn test_gen_fn_basic() {
    let operation = empty_operation();
    let result = gen_fn("/test", "get", &operation, false);
    assert!(result.contains("pub fn"));
    assert!(result.contains("get"));
}

#[test]
fn test_make_fn_name_from_path() {
    let result = make_fn_name_from_path("/api/user/profile");
    assert_eq!(result, "user_profile");
}

#[test]
fn test_make_fn_name_strips_braces() {
    assert_eq!(make_fn_name_from_path("/api/widgets/{id}/"), "widgets_id_");
    assert_eq!(make_fn_name_from_path("/api/widgets/{id}"), "widgets_id");
}

#[test]
fn test_fallback_name_is_identifier() {
    // Without an operationId the fallback name drops the template braces
    // and collapses the doubled underscore a trailing separator leaves.
    let mut op = empty_operation();
    op.parameters.push(Parameter {
        location: ParamLocation::Path,
        name: "id".to_string(),
        description: None,
        schema: Some(integer_node()),
    });
    op.responses.push(ResponseEntry {
        status: "200".to_string(),
        json: Some(SchemaNode::Reference {
            reference: "#/components/schemas/Widget".to_string(),
        }),
    });
    let result = gen_fn("/api/widgets/{id}/", "get", &op, false);
    assert!(result.contains("pub fn widgets_id_get(state: &ThanixClient, id: i64)"));
    assert!(result.contains("-> Result<WidgetsIdGetResponse, Error>"));
    assert!(result.contains("pub enum WidgetsIdGetResponse"));
    assert!(result.contains("\tHttp200(Widget),\n"));
    assert!(result.contains("\tOther(Response)\n"));
}

#[test]
fn test_gen_fn_pascal_cases_names() {
    // The query struct and the response enum Pascal-case the function name.
    let mut op = empty_operation();
    op.operation_id = Some("dcim_devices_list".to_string());
    let result = gen_fn("/dcim/devices/", "get", &op, false);
    assert!(result.contains("pub enum DcimDevicesListResponse"));
    assert!(result.contains("pub fn dcim_devices_list(state: &ThanixClient)"));
}

#[test]
fn test_gen_fn_query_struct_only_when_needed() {
    let mut op = empty_operation();
    let no_query = gen_fn("/x/", "get", &op, false);
    assert!(!no_query.contains("Query"));

    op.parameters.push(Parameter {
        location: ParamLocation::Query,
        name: "limit".to_string(),
        description: None,
        schema: Some(integer_node()),
    });
    op.operation_id = Some("x_list".to_string());
    let with_query = gen_fn("/x/", "get", &op, false);
    assert!(with_query.contains("pub struct XListQuery {\n\tpub limit: Option<i64>,\n\n}\n"));
    assert!(with_query.contains("pub fn x_list(state: &ThanixClient, query: XListQuery)"));
    assert!(with_query.contains("serde_qs::to_string(&query)"));
}

#[test]
fn test_gen_fn_content_parameter_skipped() {
    let mut op = empty_operation();
    op.parameters.push(Parameter {
        location: ParamLocation::Query,
        name: "odd".to_string(),
        description: None,
        schema: None,
    });
    let result = gen_fn("/x/", "get", &op, false);
    // The one content-carried parameter is skipped: no query struct at all.
    assert!(!result.contains("Query"));
    assert!(!result.contains("odd"));
}

#[test]
fn test_gen_fn_header_and_path_parameters() {
    let mut op = empty_operation();
    op.operation_id = Some("probe".to_string());
    op.parameters.push(Parameter {
        location: ParamLocation::Path,
        name: "id".to_string(),
        description: None,
        schema: Some(integer_node()),
    });
    op.parameters.push(Parameter {
        location: ParamLocation::Header,
        name: "token".to_string(),
        description: None,
        schema: Some(string_node()),
    });
    let result = gen_fn("/probe/{id}/", "get", &op, false);
    assert!(result.contains("pub fn probe(state: &ThanixClient, id: i64, header_token: String)"));
    assert!(result.contains("\n.header(\"token\", header_token)"));
}

#[test]
fn test_gen_fn_request_body() {
    let mut op = empty_operation();
    op.operation_id = Some("make_widget".to_string());
    op.request_json = Some(SchemaNode::Reference {
        reference: "#/components/schemas/WidgetRequest".to_string(),
    });
    let result = gen_fn("/widgets/", "post", &op, false);
    assert!(result.contains(", body: WidgetRequest)"));
    assert!(result.contains("r#request = r#request.json(&body);"));
}

#[test]
fn test_gen_fn_debug_logging() {
    let op = empty_operation();
    let silent = gen_fn("/x/", "get", &op, false);
    assert!(!silent.contains("eprint"));
    let chatty = gen_fn("/x/", "get", &op, true);
    assert!(chatty.contains("eprint!(\"{:?} = \", &r#request);"));
    assert!(chatty.contains("eprintln!(\"= {:?}\", &r#response);"));
}

#[test]
fn test_gen_fn_response_variants() {
    let mut op = empty_operation();
    op.operation_id = Some("fetch".to_string());
    op.responses.push(ResponseEntry {
        status: "200".to_string(),
        json: Some(SchemaNode::Reference {
            reference: "#/components/schemas/Widget".to_string(),
        }),
    });
    op.responses.push(ResponseEntry {
        status: "204".to_string(),
        json: None,
    });
    let result = gen_fn("/widgets/", "get", &op, false);
    assert!(result.contains("\tHttp200(Widget),\n"));
    assert!(result.contains("\tHttp204,\n"));
    assert!(result.contains("\tOther(Response)\n"));
    assert!(result.contains("200 => { Ok(FetchResponse::Http200(r#response.json::<Widget>()?)) },"));
    // A status without a JSON body gets no dispatch arm of its own.
    assert!(!result.contains("Ok(FetchResponse::Http204"));
}

#[test]
fn test_end_to_end_widget() {
    // One component and one path, as a whole run would hand them over.
    let widget = Schema {
        schema_data: plain_data(),
        schema_kind: SchemaKindNode::TypeKind(TypeNode::ObjectNode {
            properties: vec![
                ("name".to_string(), string_node()),
                (
                    "count".to_string(),
                    SchemaNode::Item(Box::new(Schema {
                        schema_data: SchemaData {
                            nullable: true,
                            description: None,
                        },
                        schema_kind: SchemaKindNode::TypeKind(TypeNode::IntegerNode {
                            minimum: None,
                            maximum: None,
                        }),
                    })),
                ),
            ],
        }),
    };
    let types = generate_types(&vec![("Widget".to_string(), widget)], false);
    assert!(types.contains("pub struct Widget {\n"));
    assert!(types.contains("\tpub name: String,\n"));
    assert!(types.contains("\tpub count: Option<i64>,\n"));

    let mut op = empty_operation();
    op.operation_id = Some("widgets_id_get".to_string());
    op.parameters.push(Parameter {
        location: ParamLocation::Path,
        name: "id".to_string(),
        description: None,
        schema: Some(integer_node()),
    });
    op.responses.push(ResponseEntry {
        status: "200".to_string(),
        json: Some(SchemaNode::Reference {
            reference: "#/components/schemas/Widget".to_string(),
        }),
    });
    let mut path_item = empty_path_item();
    path_item.get = Some(op);
    let paths = generate_paths(&vec![("/widgets/{id}".to_string(), path_item)], false);
    assert!(paths.contains("pub fn widgets_id_get(state: &ThanixClient, id: i64)"));
    assert!(paths.contains("-> Result<WidgetsIdGetResponse, Error>"));
    assert!(paths.contains("pub enum WidgetsIdGetResponse"));
    assert!(paths.contains("\tHttp200(Widget),\n"));
    assert!(paths.contains("\tOther(Response)\n"));
}

#[test]
fn test_query_string_parameter_maps_to_string() {
    // A query parameter declared `string`, `format: date-time` is carried
    // as a plain string: the resolver maps every string format to String.
    let mut op = empty_operation();
    op.operation_id = Some("events_list".to_string());
    op.parameters.push(Parameter {
        location: ParamLocation::Query,
        name: "created".to_string(),
        description: None,
        schema: Some(string_node()),
    });
    let mut path_item = empty_path_item();
    path_item.get = Some(op);
    let paths = generate_paths(&vec![("/events/".to_string(), path_item)], false);
    assert!(paths.contains("\tpub created: Option<String>,\n"));
}

#[test]
fn test_generate_types_skips_unusable_components() {
    let components = vec![
        (
            "Plain".to_string(),
            schema_of(SchemaKindNode::TypeKind(TypeNode::StringNode)),
        ),
        (
            "Kept".to_string(),
            schema_of(SchemaKindNode::TypeKind(TypeNode::ObjectNode {
                properties: Vec::new(),
            })),
        ),
    ];
    let types = generate_types(&components, false);
    assert!(!types.contains("Plain"));
    assert!(types.contains("pub struct Kept {\n}\n"));
}
