//! Generate structs from API objects.

use crate::bindgen::{make_comment, spec_comment, spec_type_of, type_to_string};
use crate::idents::{safe_ident, safe_ident_of};
use crate::model::{Schema, SchemaKindNode, SchemaNode, TypeNode, wf_kind, wf_node};
use crate::text::{ends_with, ends_with_sub, has_sub, starts_with, starts_with_sub, str_eq};
use crate::util::spec_unsanitary;
use vstd::prelude::*;

verus! {

/// The fixed fragment that opens every emitted struct: the derive list and
/// the struct keyword, followed by the component name.
pub open spec fn spec_struct_header(name: Seq<char>) -> Seq<char> {
    "#[derive(Serialize, Deserialize, Debug, Default, Clone)]\npub struct "@ + name
}

/// Whether field widening applies to the component `name`: only in
/// workaround mode, only for names on the unsanitary list, and never for
/// outbound request-body components.
pub open spec fn spec_widen(name: Seq<char>, workaround_mode: bool) -> bool {
    workaround_mode && spec_unsanitary(name) && !ends_with(name, "Request"@)
}

/// The doc comment emitted for a property: present only when the property
/// is an inline item carrying a description.
pub open spec fn spec_prop_comment(prop: SchemaNode) -> Seq<char> {
    match prop {
        SchemaNode::Item(schema) => match schema.schema_data.description {
            Some(d) => spec_comment(d@, 1),
            None => Seq::<char>::empty(),
        },
        SchemaNode::Reference { .. } => Seq::<char>::empty(),
    }
}

/// The emitted type of one field: under widening, every field but `id`
/// whose type is not itself already optional — does not start with the
/// optional wrapper — is wrapped as optional.
pub open spec fn spec_field_type(widen: bool, prop_name: Seq<char>, t: Seq<char>) -> Seq<char> {
    if widen && prop_name != "id"@ && !starts_with(t, "Option<"@) {
        "Option<"@ + t + ">"@
    } else {
        t
    }
}

/// One emitted field declaration.
pub open spec fn spec_field(widen: bool, prop_name: Seq<char>, prop: SchemaNode) -> Seq<char> {
    spec_prop_comment(prop) + "\t"@ + "pub "@ + safe_ident_of(prop_name) + ": "@ + spec_field_type(
        widen,
        prop_name,
        spec_type_of(prop),
    ) + ",\n"@
}

/// The emitted field declarations of all properties, in declaration order.
pub open spec fn spec_fields(widen: bool, props: Seq<(String, SchemaNode)>) -> Seq<char>
    decreases props.len(),
{
    if props.len() == 0 {
        Seq::<char>::empty()
    } else {
        spec_fields(widen, props.drop_last()) + spec_field(
            widen,
            props.last().0@,
            props.last().1,
        )
    }
}

/// The full struct text for an object-shaped component.
pub open spec fn spec_struct_object(
    name: Seq<char>,
    widen: bool,
    props: Seq<(String, SchemaNode)>,
) -> Seq<char> {
    spec_struct_header(name) + " {\n"@ + spec_fields(widen, props) + "}\n"@
}

/// The full tuple-wrapper text for an array-shaped component.
pub open spec fn spec_struct_array(name: Seq<char>, items: SchemaNode) -> Seq<char> {
    spec_struct_header(name) + spec_prop_comment(items) + "(pub "@ + spec_type_of(items)
        + ");\n"@
}

/// Generate the struct to be used as an API request or response payload,
/// or `None` when the component's kind produces no struct.
///
/// A component whose kind is an object yields a struct with one field per
/// property; one whose kind is an array yields a tuple wrapper around the
/// element type; every other kind is skipped. In workaround mode the
/// fields of components on the unsanitary list are widened to optional —
/// see [`spec_field_type`] — so that response data that breaks the
/// declared schema still deserializes.
pub fn generate(name: &str, schema: &Schema, workaround_mode: bool) -> (r: Option<String>)
    requires
        wf_kind(schema.schema_kind),
    ensures
        r is Some <==> (schema.schema_kind matches SchemaKindNode::TypeKind(
            TypeNode::ObjectNode { .. },
        ) || schema.schema_kind matches SchemaKindNode::TypeKind(TypeNode::ArrayNode { .. })),
        (match schema.schema_kind {
            SchemaKindNode::TypeKind(TypeNode::ObjectNode { properties }) => r matches Some(text)
                && text@ == spec_struct_object(
                name@,
                spec_widen(name@, workaround_mode),
                properties@,
            ),
            SchemaKindNode::TypeKind(TypeNode::ArrayNode { items }) => items matches Some(inner)
                && r matches Some(text) && text@ == spec_struct_array(name@, *inner),
            _ => r is None,
        }),
{
    let typ = match &schema.schema_kind {
        SchemaKindNode::TypeKind(x) => x,
        _ => {
            return None;
        },
    };

    // Assemble struct string.
    let mut result = String::new();
    result.append("#[derive(Serialize, Deserialize, Debug, Default, Clone)]\npub struct ");
    result.append(name);
    proof {
        assert(result@ =~= spec_struct_header(name@));
    }

    // If not an object or an array, return None.
    match typ {
        TypeNode::ObjectNode { properties } => {
            result.append(" {\n");
            // The schema of the listed objects may be incorrect, so the
            // response cannot be relied on: under the workaround every
            // inbound field but `id` becomes nullable.
            let widen = workaround_mode && crate::util::is_unsanitary(name) && !ends_with_sub(
                name,
                "Request",
            );
            let mut i: usize = 0;
            proof {
                assert(properties@.take(0) =~= Seq::<(String, SchemaNode)>::empty());
                assert(result@ =~= spec_struct_header(name@) + " {\n"@ + spec_fields(
                    widen,
                    properties@.take(0),
                ));
            }
            // For every component property, assemble a field declaration.
            while i < properties.len()
                invariant
                    i <= properties@.len(),
                    widen == spec_widen(name@, workaround_mode),
                    forall|j: int| 0 <= j < properties@.len() ==> wf_node(
                        #[trigger] properties@[j].1,
                    ),
                    result@ == spec_struct_header(name@) + " {\n"@ + spec_fields(
                        widen,
                        properties@.take(i as int),
                    ),
                decreases properties@.len() - i,
            {
                let prop_name = &properties[i].0;
                let prop = &properties[i].1;
                let resolved = type_to_string(prop);

                // Assemble this field's declaration on its own.
                let mut field = String::new();
                // If the property has a description, prepend a doc string.
                match prop {
                    SchemaNode::Item(item) => {
                        match &item.schema_data.description {
                            Some(desc) => {
                                let comment = make_comment(Some(desc.clone()), 1);
                                field.append(comment.as_str());
                            },
                            None => {},
                        }
                    },
                    SchemaNode::Reference { .. } => {},
                }
                proof {
                    assert(field@ =~= spec_prop_comment(properties@[i as int].1));
                }
                field.append("\t");
                field.append("pub ");
                let safe = safe_ident(prop_name.as_str());
                field.append(safe.as_str());
                field.append(": ");
                if widen && !str_eq(prop_name.as_str(), "id") && !starts_with_sub(
                    resolved.as_str(),
                    "Option<",
                ) {
                    field.append("Option<");
                    field.append(resolved.as_str());
                    field.append(">");
                } else {
                    field.append(resolved.as_str());
                }
                field.append(",\n");
                proof {
                    assert(field@ =~= spec_field(
                        widen,
                        properties@[i as int].0@,
                        properties@[i as int].1,
                    ));
                }
                result.append(field.as_str());
                proof {
                    assert(properties@.take(i + 1).drop_last() =~= properties@.take(i as int));
                    assert(properties@.take(i + 1).last() == properties@[i as int]);
                    assert(result@ =~= spec_struct_header(name@) + " {\n"@ + spec_fields(
                        widen,
                        properties@.take(i + 1),
                    ));
                }
                i += 1;
            }
            result.append("}\n");
            proof {
                assert(properties@.take(properties@.len() as int) =~= properties@);
                assert(result@ =~= spec_struct_object(name@, widen, properties@));
            }
            Some(result)
        },
        TypeNode::ArrayNode { items } => {
            let inner = match items {
                Some(b) => b,
                None => {
                    proof {
                        assert(false);
                    }
                    return None;
                },
            };
            let resolved = type_to_string(inner);

            // If the element schema has a description, prepend a doc string.
            match &**inner {
                SchemaNode::Item(item) => {
                    match &item.schema_data.description {
                        Some(desc) => {
                            let comment = make_comment(Some(desc.clone()), 1);
                            result.append(comment.as_str());
                        },
                        None => {},
                    }
                },
                SchemaNode::Reference { .. } => {},
            }
            result.append("(pub ");
            result.append(resolved.as_str());
            result.append(");\n");
            proof {
                assert(result@ =~= spec_struct_array(name@, **inner));
            }
            Some(result)
        },
        _ => {
            None
        },
    }
}

/// Law: under widening, the field named `id` keeps its resolved type
/// unwrapped, while every other field whose type is not itself already
/// optional is wrapped as optional.
pub proof fn lemma_widening_excludes_id(prop_name: Seq<char>, t: Seq<char>)
    ensures
        prop_name == "id"@ ==> spec_field_type(true, prop_name, t) == t,
        prop_name != "id"@ && !starts_with(t, "Option<"@) ==> spec_field_type(true, prop_name, t)
            == "Option<"@ + t + ">"@,
        starts_with(t, "Option<"@) ==> spec_field_type(true, prop_name, t) == t,
{
}

} // verus!

verus! {

/// The fields text holds the declaration of each property.
proof fn lemma_fields_contain(widen: bool, props: Seq<(String, SchemaNode)>, i: int)
    requires
        0 <= i < props.len(),
    ensures
        has_sub(spec_fields(widen, props), spec_field(widen, props[i].0@, props[i].1)),
    decreases props.len(),
{
    let field = spec_field(widen, props[i].0@, props[i].1);
    if i == props.len() - 1 {
        crate::text::lemma_has_sub_suffix(spec_fields(widen, props.drop_last()), field);
    } else {
        assert(props.drop_last()[i] == props[i]);
        lemma_fields_contain(widen, props.drop_last(), i);
        crate::text::lemma_has_sub_concat_left(
            spec_fields(widen, props.drop_last()),
            spec_field(widen, props.last().0@, props.last().1),
            field,
        );
    }
}

/// Law: the struct text of an object component holds, for each property,
/// that property's whole field declaration — the property's name behind
/// the keyword escape, typed with the resolver's (possibly widened) type.
pub proof fn lemma_struct_contains_each_field(
    name: Seq<char>,
    widen: bool,
    props: Seq<(String, SchemaNode)>,
    i: int,
)
    requires
        0 <= i < props.len(),
    ensures
        has_sub(
            spec_struct_object(name, widen, props),
            spec_field(widen, props[i].0@, props[i].1),
        ),
{
    let field = spec_field(widen, props[i].0@, props[i].1);
    lemma_fields_contain(widen, props, i);
    crate::text::lemma_has_sub_concat_right(
        spec_struct_header(name) + " {\n"@,
        spec_fields(widen, props),
        field,
    );
    crate::text::lemma_has_sub_concat_left(
        spec_struct_header(name) + " {\n"@ + spec_fields(widen, props),
        "}\n"@,
        field,
    );
}

} // verus!
