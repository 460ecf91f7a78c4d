//! The plain object model of an OpenAPI v3 document, as far as generation
//! reads it.
//!
//! Every value is held as a plain Rust value (strings, integers, vectors),
//! so that the emitters can be verified over it. The caller parses the YAML
//! document with its own tools and converts the parsed form into this model.

use vstd::prelude::*;

verus! {

/// The shared data of a schema fragment: the nullable flag and the optional
/// description.
pub struct SchemaData {
    pub nullable: bool,
    pub description: Option<String>,
}

/// One schema fragment: either a reference to a named component, or an
/// inline item.
pub enum SchemaNode {
    /// A pointer string such as `#/components/schemas/Device`.
    Reference { reference: String },
    /// An inline schema.
    Item(Box<Schema>),
}

/// An inline schema: its shared data and its kind.
pub struct Schema {
    pub schema_data: SchemaData,
    pub schema_kind: SchemaKindNode,
}

/// The kind of an inline schema.
pub enum SchemaKindNode {
    /// A concrete `type:` declaration.
    TypeKind(TypeNode),
    /// An `allOf` composition; only the first member is consulted.
    AllOfKind { all_of: Vec<SchemaNode> },
    /// Any other kind (`oneOf`, `anyOf`, `not`, or none): treated as a
    /// dynamically typed JSON value.
    OtherKind,
}

/// A concrete `type:` declaration.
pub enum TypeNode {
    StringNode,
    NumberNode,
    IntegerNode { minimum: Option<i64>, maximum: Option<i64> },
    ObjectNode { properties: Vec<(String, SchemaNode)> },
    ArrayNode { items: Option<Box<SchemaNode>> },
    BooleanNode,
}

/// Whether a schema node is well formed: every array carries an `items`
/// declaration and every `allOf` list is non-empty. The emitters demand
/// this; a malformed shape would otherwise have to be reported by a panic,
/// as defaulting to a wrong element type would silently corrupt the output.
pub open spec fn wf_node(n: SchemaNode) -> bool
    decreases n,
{
    match n {
        SchemaNode::Reference { .. } => true,
        SchemaNode::Item(schema) => wf_kind(schema.schema_kind),
    }
}

/// Well-formedness of a schema kind; see [`wf_node`].
pub open spec fn wf_kind(k: SchemaKindNode) -> bool
    decreases k,
{
    match k {
        SchemaKindNode::TypeKind(t) => wf_type(t),
        SchemaKindNode::AllOfKind { all_of } => all_of@.len() > 0 && wf_node(all_of@[0]),
        SchemaKindNode::OtherKind => true,
    }
}

/// Well-formedness of a concrete type declaration; see [`wf_node`].
pub open spec fn wf_type(t: TypeNode) -> bool
    decreases t,
{
    match t {
        TypeNode::ArrayNode { items } => match items {
            Some(inner) => wf_node(*inner),
            None => false,
        },
        TypeNode::ObjectNode { properties } => forall|i: int|
            0 <= i < properties@.len() ==> wf_node(#[trigger] properties@[i].1),
        _ => true,
    }
}

} // verus!

verus! {

/// Where a request parameter is carried.
pub enum ParamLocation {
    Query,
    Header,
    Path,
    Cookie,
}

/// One declared parameter of an operation. A parameter whose value is
/// described by media-type content rather than a schema carries `None` and
/// is skipped by generation.
pub struct Parameter {
    pub location: ParamLocation,
    pub name: String,
    pub description: Option<String>,
    pub schema: Option<SchemaNode>,
}

/// One row of an operation's response table: the status-code string and
/// the schema of the `application/json` body, when one is declared.
pub struct ResponseEntry {
    pub status: String,
    pub json: Option<SchemaNode>,
}

/// One declared operation. `request_json` holds the schema of the
/// `application/json` request body, when one is declared.
pub struct Operation {
    pub operation_id: Option<String>,
    pub description: Option<String>,
    pub parameters: Vec<Parameter>,
    pub request_json: Option<SchemaNode>,
    pub responses: Vec<ResponseEntry>,
}

/// The operations a path declares, one slot per HTTP method.
pub struct PathItem {
    pub get: Option<Operation>,
    pub put: Option<Operation>,
    pub post: Option<Operation>,
    pub delete: Option<Operation>,
    pub options: Option<Operation>,
    pub head: Option<Operation>,
    pub patch: Option<Operation>,
    pub trace: Option<Operation>,
}

/// Whether a parameter's value schema, when present, is well formed.
pub open spec fn wf_parameter(p: Parameter) -> bool {
    match p.schema {
        Some(n) => wf_node(n),
        None => true,
    }
}

/// Whether an operation can be generated from: every parameter schema,
/// the request-body schema and every response schema are well formed, and
/// no parameter is cookie-carried. Cookie parameters are auth-relevant and
/// must not be dropped silently; the caller refuses such an operation
/// instead.
pub open spec fn wf_operation(op: Operation) -> bool {
    &&& forall|i: int|
        0 <= i < op.parameters@.len() ==> wf_parameter(#[trigger] op.parameters@[i])
    &&& forall|i: int|
        0 <= i < op.parameters@.len() ==> !(#[trigger] op.parameters@[i].location
            matches ParamLocation::Cookie)
    &&& match op.request_json {
        Some(n) => wf_node(n),
        None => true,
    }
    &&& forall|i: int|
        0 <= i < op.responses@.len() ==> match #[trigger] op.responses@[i].json {
            Some(n) => wf_node(n),
            None => true,
        }
}

/// Whether every operation of the path item is fit for generation.
pub open spec fn wf_path_item(item: PathItem) -> bool {
    &&& match item.get {
        Some(op) => wf_operation(op),
        None => true,
    }
    &&& match item.put {
        Some(op) => wf_operation(op),
        None => true,
    }
    &&& match item.post {
        Some(op) => wf_operation(op),
        None => true,
    }
    &&& match item.delete {
        Some(op) => wf_operation(op),
        None => true,
    }
    &&& match item.options {
        Some(op) => wf_operation(op),
        None => true,
    }
    &&& match item.head {
        Some(op) => wf_operation(op),
        None => true,
    }
    &&& match item.patch {
        Some(op) => wf_operation(op),
        None => true,
    }
    &&& match item.trace {
        Some(op) => wf_operation(op),
        None => true,
    }
}

/// Decides [`wf_node`], so that a caller can refuse a malformed schema
/// before asking for generation.
pub fn node_is_wf(n: &SchemaNode) -> (r: bool)
    ensures
        r == wf_node(*n),
    decreases *n,
{
    match n {
        SchemaNode::Reference { .. } => true,
        SchemaNode::Item(schema) => kind_is_wf(&schema.schema_kind),
    }
}

/// Decides [`wf_kind`]; see [`node_is_wf`].
pub fn kind_is_wf(k: &SchemaKindNode) -> (r: bool)
    ensures
        r == wf_kind(*k),
    decreases *k,
{
    match k {
        SchemaKindNode::TypeKind(t) => type_is_wf(t),
        SchemaKindNode::AllOfKind { all_of } => {
            if all_of.len() == 0 {
                false
            } else {
                node_is_wf(&all_of[0])
            }
        },
        SchemaKindNode::OtherKind => true,
    }
}

/// Decides [`wf_type`]; see [`node_is_wf`].
#[verifier::loop_isolation(false)]
pub fn type_is_wf(t: &TypeNode) -> (r: bool)
    ensures
        r == wf_type(*t),
    decreases *t,
{
    match t {
        TypeNode::ArrayNode { items } => match items {
            Some(inner) => node_is_wf(inner),
            None => false,
        },
        TypeNode::ObjectNode { properties } => {
            let mut i: usize = 0;
            while i < properties.len()
                invariant
                    i <= properties@.len(),
                    forall|j: int| 0 <= j < i ==> wf_node(#[trigger] properties@[j].1),
                decreases properties@.len() - i,
            {
                if !node_is_wf(&properties[i].1) {
                    return false;
                }
                i += 1;
            }
            true
        },
        _ => true,
    }
}

/// Decides [`wf_operation`], so that a caller can refuse a malformed or
/// cookie-carrying operation before asking for generation.
pub fn operation_is_wf(op: &Operation) -> (r: bool)
    ensures
        r == wf_operation(*op),
{
    let mut i: usize = 0;
    while i < op.parameters.len()
        invariant
            i <= op.parameters@.len(),
            forall|j: int| 0 <= j < i ==> wf_parameter(#[trigger] op.parameters@[j]),
            forall|j: int|
                0 <= j < i ==> !(#[trigger] op.parameters@[j].location
                    matches ParamLocation::Cookie),
        decreases op.parameters@.len() - i,
    {
        let p = &op.parameters[i];
        match &p.location {
            ParamLocation::Cookie => {
                return false;
            },
            _ => {},
        }
        match &p.schema {
            Some(n) => {
                if !node_is_wf(n) {
                    return false;
                }
            },
            None => {},
        }
        i += 1;
    }
    match &op.request_json {
        Some(n) => {
            if !node_is_wf(n) {
                return false;
            }
        },
        None => {},
    }
    let mut i: usize = 0;
    while i < op.responses.len()
        invariant
            i <= op.responses@.len(),
            forall|j: int|
                0 <= j < i ==> match #[trigger] op.responses@[j].json {
                    Some(n) => wf_node(n),
                    None => true,
                },
        decreases op.responses@.len() - i,
    {
        match &op.responses[i].json {
            Some(n) => {
                if !node_is_wf(n) {
                    return false;
                }
            },
            None => {},
        }
        i += 1;
    }
    true
}

/// Decides [`wf_path_item`]; see [`operation_is_wf`].
pub fn path_item_is_wf(item: &PathItem) -> (r: bool)
    ensures
        r == wf_path_item(*item),
{
    let mut ok = true;
    match &item.get {
        Some(op) => ok = ok && operation_is_wf(op),
        None => {},
    }
    match &item.put {
        Some(op) => ok = ok && operation_is_wf(op),
        None => {},
    }
    match &item.post {
        Some(op) => ok = ok && operation_is_wf(op),
        None => {},
    }
    match &item.delete {
        Some(op) => ok = ok && operation_is_wf(op),
        None => {},
    }
    match &item.options {
        Some(op) => ok = ok && operation_is_wf(op),
        None => {},
    }
    match &item.head {
        Some(op) => ok = ok && operation_is_wf(op),
        None => {},
    }
    match &item.patch {
        Some(op) => ok = ok && operation_is_wf(op),
        None => {},
    }
    match &item.trace {
        Some(op) => ok = ok && operation_is_wf(op),
        None => {},
    }
    ok
}

} // verus!
