//! Generate API request functions.

use crate::bindgen::{make_comment, spec_comment, spec_type_of, type_to_string};
use crate::idents::{pascal, pascal_of, safe_ident, safe_ident_of};
use crate::model::{Operation, ParamLocation, Parameter, PathItem, ResponseEntry, wf_operation,
    wf_path_item};
use crate::text::{has_sub, has_sub_at, lemma_has_sub_concat_left, lemma_has_sub_concat_right,
    replace_all, spec_replace};
use vstd::prelude::*;

verus! {

/// The fallback function name for a path: the API root prefix removed,
/// every path separator turned into an underscore, and the braces of path
/// templates dropped, so that the name is a plain identifier.
pub open spec fn spec_fn_name_from_path(input: Seq<char>) -> Seq<char> {
    spec_replace(
        spec_replace(spec_replace(spec_replace(input, "/api/"@, ""@), "/"@, "_"@), "{"@, ""@),
        "}"@,
        ""@,
    )
}

/// The name of the emitted function: the declared operationId when there
/// is one, else the path-derived fallback with the method token appended
/// and doubled underscores — left by a trailing separator — collapsed.
pub open spec fn spec_fn_name(op: Operation, name: Seq<char>, op_type: Seq<char>) -> Seq<char> {
    match op.operation_id {
        Some(id) => id@,
        None => spec_replace(spec_fn_name_from_path(name) + "_"@ + op_type, "__"@, "_"@),
    }
}

/// The doc comment for a parameter's description, when one is declared.
pub open spec fn spec_param_comment(p: Parameter) -> Seq<char> {
    match p.description {
        Some(d) => spec_comment(d@, 1),
        None => Seq::<char>::empty(),
    }
}

/// The query-struct field a query parameter contributes. Query fields are
/// emitted optional whatever the schema declares: query-string assembly
/// tolerates absent fields.
pub open spec fn spec_query_field(p: Parameter) -> Seq<char> {
    spec_param_comment(p) + "\tpub "@ + safe_ident_of(p.name@) + ": Option<"@ + spec_type_of(
        p.schema->0,
    ) + ">,\n"@
}

/// The query-struct fields of all schema-carrying query parameters, in
/// declaration order.
pub open spec fn spec_query_fields(params: Seq<Parameter>) -> Seq<char>
    decreases params.len(),
{
    if params.len() == 0 {
        Seq::<char>::empty()
    } else {
        spec_query_fields(params.drop_last()) + (
        if params.last().location matches ParamLocation::Query && params.last().schema is Some {
            spec_query_field(params.last())
        } else {
            Seq::<char>::empty()
        })
    }
}

/// How many schema-carrying query parameters there are.
pub open spec fn spec_query_count(params: Seq<Parameter>) -> nat
    decreases params.len(),
{
    if params.len() == 0 {
        0
    } else {
        spec_query_count(params.drop_last()) + (
        if params.last().location matches ParamLocation::Query && params.last().schema is Some {
            1nat
        } else {
            0nat
        })
    }
}

/// The argument a path parameter adds to the function signature.
pub open spec fn spec_path_arg(p: Parameter) -> Seq<char> {
    ", "@ + safe_ident_of(p.name@) + ": "@ + spec_type_of(p.schema->0)
}

/// The signature arguments of all schema-carrying path parameters.
pub open spec fn spec_path_args(params: Seq<Parameter>) -> Seq<char>
    decreases params.len(),
{
    if params.len() == 0 {
        Seq::<char>::empty()
    } else {
        spec_path_args(params.drop_last()) + (
        if params.last().location matches ParamLocation::Path && params.last().schema is Some {
            spec_path_arg(params.last())
        } else {
            Seq::<char>::empty()
        })
    }
}

/// The argument a header parameter adds to the function signature.
pub open spec fn spec_header_arg(p: Parameter) -> Seq<char> {
    ", header_"@ + p.name@ + ": "@ + spec_type_of(p.schema->0)
}

/// The signature arguments of all schema-carrying header parameters.
pub open spec fn spec_header_args(params: Seq<Parameter>) -> Seq<char>
    decreases params.len(),
{
    if params.len() == 0 {
        Seq::<char>::empty()
    } else {
        spec_header_args(params.drop_last()) + (
        if params.last().location matches ParamLocation::Header && params.last().schema is Some {
            spec_header_arg(params.last())
        } else {
            Seq::<char>::empty()
        })
    }
}

/// The call-chain fragment a header parameter adds to the request build.
pub open spec fn spec_header_call(p: Parameter) -> Seq<char> {
    "\n.header(\""@ + p.name@ + "\", header_"@ + p.name@ + ")"@
}

/// The call-chain fragments of all schema-carrying header parameters.
pub open spec fn spec_header_chain(params: Seq<Parameter>) -> Seq<char>
    decreases params.len(),
{
    if params.len() == 0 {
        Seq::<char>::empty()
    } else {
        spec_header_chain(params.drop_last()) + (
        if params.last().location matches ParamLocation::Header && params.last().schema is Some {
            spec_header_call(params.last())
        } else {
            Seq::<char>::empty()
        })
    }
}

/// The query-struct definition, emitted only when at least one query
/// parameter exists.
pub open spec fn spec_query_struct(qname: Seq<char>, params: Seq<Parameter>) -> Seq<char> {
    "#[derive(Serialize, Deserialize, Debug, Default, Clone)]\npub struct "@ + qname + " {\n"@
        + spec_query_fields(params) + "\n}\n"@
}

/// One variant of the response enum: named by the status code, carrying
/// the body type when an `application/json` body is declared.
pub open spec fn spec_response_variant(e: ResponseEntry) -> Seq<char> {
    "\t"@ + "Http"@ + e.status@ + (match e.json {
        Some(n) => "("@ + spec_type_of(n) + ")"@,
        None => Seq::<char>::empty(),
    }) + ",\n"@
}

/// The declared variants of the response enum, in declaration order.
pub open spec fn spec_response_variants(responses: Seq<ResponseEntry>) -> Seq<char>
    decreases responses.len(),
{
    if responses.len() == 0 {
        Seq::<char>::empty()
    } else {
        spec_response_variants(responses.drop_last()) + spec_response_variant(responses.last())
    }
}

/// The response-enum definition: one variant per declared status code and
/// the catch-all variant for every other code.
pub open spec fn spec_response_enum(rname: Seq<char>, responses: Seq<ResponseEntry>) -> Seq<char> {
    "#[derive(Debug)]\npub enum "@ + rname + " {\n"@ + spec_response_variants(responses)
        + "\tOther(Response)\n"@ + "}\n"@
}

/// The request type of the operation's `application/json` body, when one
/// is declared.
pub open spec fn spec_request_type(op: Operation) -> Option<Seq<char>> {
    match op.request_json {
        Some(n) => Some(spec_type_of(n)),
        None => None,
    }
}

/// The emitted function's doc comment.
pub open spec fn spec_op_comment(op: Operation) -> Seq<char> {
    match op.description {
        Some(d) => spec_comment(d@, 0),
        None => Seq::<char>::empty(),
    }
}

/// The emitted function's signature: the client handle first, then the
/// query argument when one exists, then the body argument when one exists,
/// then path arguments in declaration order, then header arguments.
pub open spec fn spec_fn_sig(
    fn_name: Seq<char>,
    qname: Seq<char>,
    rname: Seq<char>,
    need_query: bool,
    req: Option<Seq<char>>,
    params: Seq<Parameter>,
) -> Seq<char> {
    "pub fn "@ + fn_name + "(state: &ThanixClient"@ + (if need_query {
        ", query: "@ + qname
    } else {
        Seq::<char>::empty()
    }) + (match req {
        Some(t) => ", body: "@ + t,
        None => Seq::<char>::empty(),
    }) + spec_path_args(params) + spec_header_args(params) + ") -> "@ + "Result<"@ + rname
        + ", Error> {\n"@
}

/// The emitted function's request build: the URL, formatted from the base
/// URL and the path template with the query string appended when one
/// exists, and the authorization header.
pub open spec fn spec_fn_url(name: Seq<char>, op_type: Seq<char>, need_query: bool) -> Seq<char> {
    (if need_query {
        "\tlet qstring = serde_qs::to_string(&query).unwrap();\n"@
            + "\tlet qstring_clean = remove_square_braces(&qstring);\n"@
    } else {
        Seq::<char>::empty()
    }) + "\n\tlet mut r#request = state.client."@ + op_type + "(format!(\"{}"@ + name + (
    if need_query {
        "?{}"@
    } else {
        Seq::<char>::empty()
    }) + "\", state.base_url"@ + (if need_query {
        ", qstring_clean"@
    } else {
        Seq::<char>::empty()
    }) + "))\n"@ + "\t\t.header(\"Authorization\", format!(\"Token {}\", state.authentication_token));\n"@
}

/// The dispatch arm for one declared status code with a JSON body; a
/// status without one is answered by the catch-all arm alone.
pub open spec fn spec_match_arm(rname: Seq<char>, e: ResponseEntry) -> Seq<char> {
    match e.json {
        Some(n) => "\t\t"@ + e.status@ + " => { Ok("@ + rname + "::Http"@ + e.status@
            + "(r#response.json::<"@ + spec_type_of(n) + ">()?)) },\n"@,
        None => Seq::<char>::empty(),
    }
}

/// The dispatch arms of all declared status codes, in declaration order.
pub open spec fn spec_match_arms(rname: Seq<char>, responses: Seq<ResponseEntry>) -> Seq<char>
    decreases responses.len(),
{
    if responses.len() == 0 {
        Seq::<char>::empty()
    } else {
        spec_match_arms(rname, responses.drop_last()) + spec_match_arm(rname, responses.last())
    }
}

/// The emitted function's tail: body attachment, extra headers, optional
/// debug logging, the send, and the dispatch on the response status.
pub open spec fn spec_fn_dispatch_head(
    has_req: bool,
    params: Seq<Parameter>,
    debug: bool,
) -> Seq<char> {
    (if has_req {
        "\tr#request = r#request.json(&body);\n"@
    } else {
        Seq::<char>::empty()
    }) + spec_header_chain(params) + (if debug {
        "\teprint!(\"{:?} = \", &r#request);\n"@
    } else {
        Seq::<char>::empty()
    }) + "\tlet r#response = r#request.send()?;\n"@ + (if debug {
        "\teprintln!(\"= {:?}\", &r#response);\n"@
    } else {
        Seq::<char>::empty()
    }) + "\tmatch r#response.status().as_u16() {\n"@
}

/// The whole dispatch part; see [`spec_fn_dispatch_head`].
pub open spec fn spec_fn_dispatch(
    rname: Seq<char>,
    has_req: bool,
    params: Seq<Parameter>,
    responses: Seq<ResponseEntry>,
    debug: bool,
) -> Seq<char> {
    spec_fn_dispatch_head(has_req, params, debug) + spec_match_arms(rname, responses)
        + "\t\tr#other_status => { Ok("@ + rname + "::Other(r#response)) }\n\t}\n}\n"@
}

/// Everything one operation emits: the query struct when a query parameter
/// exists, the response enum, the doc comment, the signature, the request
/// build and the dispatch.
pub open spec fn spec_gen_fn(
    name: Seq<char>,
    op_type: Seq<char>,
    op: Operation,
    debug: bool,
) -> Seq<char> {
    let fn_name = spec_fn_name(op, name, op_type);
    let qname = pascal_of(fn_name) + "Query"@;
    let rname = pascal_of(fn_name) + "Response"@;
    let need_query = spec_query_count(op.parameters@) > 0;
    let req = spec_request_type(op);
    (if need_query {
        spec_query_struct(qname, op.parameters@)
    } else {
        Seq::<char>::empty()
    }) + spec_response_enum(rname, op.responses@) + spec_op_comment(op) + spec_fn_sig(
        fn_name,
        qname,
        rname,
        need_query,
        req,
        op.parameters@,
    ) + spec_fn_url(name, op_type, need_query) + spec_fn_dispatch(
        rname,
        req is Some,
        op.parameters@,
        op.responses@,
        debug,
    )
}

/// Everything one path item emits: the output of each declared method's
/// operation, in the fixed method order.
pub open spec fn spec_path_item_text(name: Seq<char>, item: PathItem, debug: bool) -> Seq<char> {
    (match item.get {
        Some(op) => spec_gen_fn(name, "get"@, op, debug),
        None => Seq::<char>::empty(),
    }) + (match item.put {
        Some(op) => spec_gen_fn(name, "put"@, op, debug),
        None => Seq::<char>::empty(),
    }) + (match item.post {
        Some(op) => spec_gen_fn(name, "post"@, op, debug),
        None => Seq::<char>::empty(),
    }) + (match item.delete {
        Some(op) => spec_gen_fn(name, "delete"@, op, debug),
        None => Seq::<char>::empty(),
    }) + (match item.options {
        Some(op) => spec_gen_fn(name, "options"@, op, debug),
        None => Seq::<char>::empty(),
    }) + (match item.head {
        Some(op) => spec_gen_fn(name, "head"@, op, debug),
        None => Seq::<char>::empty(),
    }) + (match item.patch {
        Some(op) => spec_gen_fn(name, "patch"@, op, debug),
        None => Seq::<char>::empty(),
    }) + (match item.trace {
        Some(op) => spec_gen_fn(name, "trace"@, op, debug),
        None => Seq::<char>::empty(),
    })
}

/// The fallback function name for a path; see [`spec_fn_name_from_path`].
pub fn make_fn_name_from_path(input: &str) -> (r: String)
    ensures
        r@ == spec_fn_name_from_path(input@),
{
    proof {
        reveal_strlit("/api/");
        reveal_strlit("/");
        reveal_strlit("{");
        reveal_strlit("}");
    }
    let stripped = replace_all(input, "/api/", "");
    let joined = replace_all(stripped.as_str(), "/", "_");
    let unbraced = replace_all(joined.as_str(), "{", "");
    replace_all(unbraced.as_str(), "}", "")
}

} // verus!

verus! {

/// Generate one request function for the operation `op`, reached at the
/// path `name` by the HTTP method `op_type`: its query struct when a query
/// parameter exists, its response enum, and the function itself; see
/// [`spec_gen_fn`]. Parameters without a schema are skipped; the operation
/// must carry no cookie parameter.
#[verifier::rlimit(50)]
pub fn gen_fn(name: &str, op_type: &str, op: &Operation, debug: bool) -> (r: String)
    requires
        wf_operation(*op),
    ensures
        r@ == spec_gen_fn(name@, op_type@, *op, debug),
{
    // Build function name.
    let fn_name: String = match &op.operation_id {
        Some(id) => id.clone(),
        None => {
            let mut f = make_fn_name_from_path(name);
            f.append("_");
            f.append(op_type);
            proof {
                reveal_strlit("__");
            }
            replace_all(f.as_str(), "__", "_")
        },
    };
    proof {
        assert(fn_name@ == spec_fn_name(*op, name@, op_type@));
    }

    // Assign all parameters to their respective slots.
    let ghost params = op.parameters@;
    let mut qfields = String::new();
    let mut has_query = false;
    let mut path_args = String::new();
    let mut hdr_args = String::new();
    let mut hdr_chain = String::new();
    let mut i: usize = 0;
    proof {
        assert(params.take(0) =~= Seq::<Parameter>::empty());
    }
    while i < op.parameters.len()
        invariant
            i <= params.len(),
            params == op.parameters@,
            wf_operation(*op),
            qfields@ == spec_query_fields(params.take(i as int)),
            has_query == (spec_query_count(params.take(i as int)) > 0),
            path_args@ == spec_path_args(params.take(i as int)),
            hdr_args@ == spec_header_args(params.take(i as int)),
            hdr_chain@ == spec_header_chain(params.take(i as int)),
        decreases params.len() - i,
    {
        let p = &op.parameters[i];
        proof {
            assert(params.take(i + 1).drop_last() =~= params.take(i as int));
            assert(params.take(i + 1).last() == params[i as int]);
        }
        match &p.location {
            // If we have a query, append as a field to the query struct.
            ParamLocation::Query => {
                match &p.schema {
                    Some(sch) => {
                        // Format as a struct field.
                        let mut field = String::new();
                        let comment = match &p.description {
                            Some(d) => make_comment(Some(d.clone()), 1),
                            None => String::new(),
                        };
                        field.append(comment.as_str());
                        proof {
                            assert(field@ =~= spec_param_comment(params[i as int]));
                        }
                        field.append("\tpub ");
                        let safe = safe_ident(p.name.as_str());
                        field.append(safe.as_str());
                        field.append(": Option<");
                        let resolved = type_to_string(sch);
                        field.append(resolved.as_str());
                        field.append(">,\n");
                        proof {
                            assert(field@ =~= spec_query_field(params[i as int]));
                        }
                        qfields.append(field.as_str());
                        has_query = true;
                    },
                    None => {},
                }
            },
            // If we have a header, append to the header params.
            ParamLocation::Header => {
                match &p.schema {
                    Some(sch) => {
                        let resolved = type_to_string(sch);
                        let mut arg = String::new();
                        arg.append(", header_");
                        arg.append(p.name.as_str());
                        arg.append(": ");
                        arg.append(resolved.as_str());
                        proof {
                            assert(arg@ =~= spec_header_arg(params[i as int]));
                        }
                        hdr_args.append(arg.as_str());
                        let mut call = String::new();
                        call.append("\n.header(\"");
                        call.append(p.name.as_str());
                        call.append("\", header_");
                        call.append(p.name.as_str());
                        call.append(")");
                        proof {
                            assert(call@ =~= spec_header_call(params[i as int]));
                        }
                        hdr_chain.append(call.as_str());
                    },
                    None => {},
                }
            },
            // If we have a path, append to the path params.
            ParamLocation::Path => {
                match &p.schema {
                    Some(sch) => {
                        let mut arg = String::new();
                        arg.append(", ");
                        let safe = safe_ident(p.name.as_str());
                        arg.append(safe.as_str());
                        arg.append(": ");
                        let resolved = type_to_string(sch);
                        arg.append(resolved.as_str());
                        proof {
                            assert(arg@ =~= spec_path_arg(params[i as int]));
                        }
                        path_args.append(arg.as_str());
                    },
                    None => {},
                }
            },
            // Excluded by the operation's well-formedness.
            ParamLocation::Cookie => {
                proof {
                    assert(false);
                }
            },
        }
        proof {
            assert(qfields@ =~= spec_query_fields(params.take(i + 1)));
            assert(path_args@ =~= spec_path_args(params.take(i + 1)));
            assert(hdr_args@ =~= spec_header_args(params.take(i + 1)));
            assert(hdr_chain@ =~= spec_header_chain(params.take(i + 1)));
        }
        i += 1;
    }
    proof {
        assert(params.take(params.len() as int) =~= params);
    }

    // Build the request body.
    let req: Option<String> = match &op.request_json {
        Some(n) => Some(type_to_string(n)),
        None => None,
    };
    proof {
        assert(match req {
            Some(t) => spec_request_type(*op) == Some(t@),
            None => spec_request_type(*op) is None,
        });
    }

    // Build the query struct for this function if we have at least one
    // parameter.
    let mut qname = pascal(fn_name.as_str());
    qname.append("Query");
    let mut qstruct = String::new();
    qstruct.append("#[derive(Serialize, Deserialize, Debug, Default, Clone)]\npub struct ");
    qstruct.append(qname.as_str());
    qstruct.append(" {\n");
    qstruct.append(qfields.as_str());
    qstruct.append("\n}\n");
    proof {
        assert(qstruct@ =~= spec_query_struct(qname@, params));
    }

    // Build the response enum.
    let ghost resps = op.responses@;
    let mut rname = pascal(fn_name.as_str());
    rname.append("Response");
    let mut enum_text = String::new();
    enum_text.append("#[derive(Debug)]\npub enum ");
    enum_text.append(rname.as_str());
    enum_text.append(" {\n");
    proof {
        assert(resps.take(0) =~= Seq::<ResponseEntry>::empty());
        assert(enum_text@ =~= "#[derive(Debug)]\npub enum "@ + rname@ + " {\n"@
            + spec_response_variants(resps.take(0)));
    }
    let mut i: usize = 0;
    while i < op.responses.len()
        invariant
            i <= resps.len(),
            resps == op.responses@,
            wf_operation(*op),
            enum_text@ == "#[derive(Debug)]\npub enum "@ + rname@ + " {\n"@
                + spec_response_variants(resps.take(i as int)),
        decreases resps.len() - i,
    {
        let e = &op.responses[i];
        let mut var_text = String::new();
        var_text.append("\t");
        var_text.append("Http");
        var_text.append(e.status.as_str());
        match &e.json {
            Some(n) => {
                var_text.append("(");
                let resolved = type_to_string(n);
                var_text.append(resolved.as_str());
                var_text.append(")");
            },
            None => {},
        }
        var_text.append(",\n");
        proof {
            assert(var_text@ =~= spec_response_variant(resps[i as int]));
        }
        enum_text.append(var_text.as_str());
        proof {
            assert(resps.take(i + 1).drop_last() =~= resps.take(i as int));
            assert(resps.take(i + 1).last() == resps[i as int]);
            assert(enum_text@ =~= "#[derive(Debug)]\npub enum "@ + rname@ + " {\n"@
                + spec_response_variants(resps.take(i + 1)));
        }
        i += 1;
    }
    enum_text.append("\tOther(Response)\n");
    enum_text.append("}\n");
    proof {
        assert(resps.take(resps.len() as int) =~= resps);
        assert(enum_text@ =~= spec_response_enum(rname@, resps));
    }

    // Build function description.
    let cmt = match &op.description {
        Some(d) => make_comment(Some(d.clone()), 0),
        None => String::new(),
    };
    proof {
        assert(cmt@ == spec_op_comment(*op));
    }

    // Build function declaration.
    let mut sig = String::new();
    sig.append("pub fn ");
    sig.append(fn_name.as_str());
    sig.append("(state: &ThanixClient");
    // Build the query arg.
    if has_query {
        sig.append(", query: ");
        sig.append(qname.as_str());
    }
    // Build the JSON arg.
    match &req {
        Some(t) => {
            sig.append(", body: ");
            sig.append(t.as_str());
        },
        None => {},
    }
    // Build the path args, then the header args.
    sig.append(path_args.as_str());
    sig.append(hdr_args.as_str());
    // Build the response type.
    sig.append(") -> ");
    sig.append("Result<");
    sig.append(rname.as_str());
    sig.append(", Error> {\n");
    proof {
        assert(sig@ =~= spec_fn_sig(
            fn_name@,
            qname@,
            rname@,
            has_query,
            spec_request_type(*op),
            params,
        ));
    }

    // Build the request URL and the authorization header.
    let mut url = String::new();
    if has_query {
        url.append("\tlet qstring = serde_qs::to_string(&query).unwrap();\n");
        url.append("\tlet qstring_clean = remove_square_braces(&qstring);\n");
    }
    url.append("\n\tlet mut r#request = state.client.");
    url.append(op_type);
    url.append("(format!(\"{}");
    url.append(name);
    if has_query {
        url.append("?{}");
    }
    url.append("\", state.base_url");
    if has_query {
        url.append(", qstring_clean");
    }
    url.append("))\n");
    url.append("\t\t.header(\"Authorization\", format!(\"Token {}\", state.authentication_token));\n");
    proof {
        assert(url@ =~= spec_fn_url(name@, op_type@, has_query));
    }

    // Attach the body and headers, send, and match the response code.
    let mut dispatch = String::new();
    match &req {
        Some(_) => dispatch.append("\tr#request = r#request.json(&body);\n"),
        None => {},
    }
    dispatch.append(hdr_chain.as_str());
    if debug {
        dispatch.append("\teprint!(\"{:?} = \", &r#request);\n");
    }
    dispatch.append("\tlet r#response = r#request.send()?;\n");
    if debug {
        dispatch.append("\teprintln!(\"= {:?}\", &r#response);\n");
    }
    dispatch.append("\tmatch r#response.status().as_u16() {\n");
    proof {
        assert(dispatch@ =~= spec_fn_dispatch_head(req is Some, params, debug));
    }
    let mut i: usize = 0;
    while i < op.responses.len()
        invariant
            i <= resps.len(),
            resps == op.responses@,
            wf_operation(*op),
            dispatch@ == spec_fn_dispatch_head(req is Some, params, debug) + spec_match_arms(
                rname@,
                resps.take(i as int),
            ),
        decreases resps.len() - i,
    {
        let e = &op.responses[i];
        proof {
            assert(resps.take(i + 1).drop_last() =~= resps.take(i as int));
            assert(resps.take(i + 1).last() == resps[i as int]);
        }
        match &e.json {
            Some(n) => {
                let mut arm = String::new();
                arm.append("\t\t");
                arm.append(e.status.as_str());
                arm.append(" => { Ok(");
                arm.append(rname.as_str());
                arm.append("::Http");
                arm.append(e.status.as_str());
                arm.append("(r#response.json::<");
                let resolved = type_to_string(n);
                arm.append(resolved.as_str());
                arm.append(">()?)) },\n");
                proof {
                    assert(arm@ =~= spec_match_arm(rname@, resps[i as int]));
                }
                dispatch.append(arm.as_str());
            },
            None => {},
        }
        proof {
            assert(dispatch@ =~= spec_fn_dispatch_head(req is Some, params, debug)
                + spec_match_arms(rname@, resps.take(i + 1)));
        }
        i += 1;
    }
    // Unknown response code.
    dispatch.append("\t\tr#other_status => { Ok(");
    dispatch.append(rname.as_str());
    dispatch.append("::Other(r#response)) }\n\t}\n}\n");
    proof {
        assert(resps.take(resps.len() as int) =~= resps);
        assert(dispatch@ =~= spec_fn_dispatch(rname@, req is Some, params, resps, debug));
    }

    // Assemble the whole output.
    let mut result = String::new();
    if has_query {
        result.append(qstruct.as_str());
    }
    result.append(enum_text.as_str());
    result.append(cmt.as_str());
    result.append(sig.as_str());
    result.append(url.as_str());
    result.append(dispatch.as_str());
    proof {
        assert(result@ =~= spec_gen_fn(name@, op_type@, *op, debug));
    }
    result
}

/// Generate the request functions of every method the path item declares,
/// in the fixed method order; see [`spec_path_item_text`].
pub fn generate(name: &str, path_item: &PathItem, debug: bool) -> (r: Option<String>)
    requires
        wf_path_item(*path_item),
    ensures
        r matches Some(text) && text@ == spec_path_item_text(name@, *path_item, debug),
{
    let mut result = String::new();

    if let Some(op) = &path_item.get {
        let t = gen_fn(name, "get", op, debug);
        result.append(t.as_str());
    }
    if let Some(op) = &path_item.put {
        let t = gen_fn(name, "put", op, debug);
        result.append(t.as_str());
    }
    if let Some(op) = &path_item.post {
        let t = gen_fn(name, "post", op, debug);
        result.append(t.as_str());
    }
    if let Some(op) = &path_item.delete {
        let t = gen_fn(name, "delete", op, debug);
        result.append(t.as_str());
    }
    if let Some(op) = &path_item.options {
        let t = gen_fn(name, "options", op, debug);
        result.append(t.as_str());
    }
    if let Some(op) = &path_item.head {
        let t = gen_fn(name, "head", op, debug);
        result.append(t.as_str());
    }
    if let Some(op) = &path_item.patch {
        let t = gen_fn(name, "patch", op, debug);
        result.append(t.as_str());
    }
    if let Some(op) = &path_item.trace {
        let t = gen_fn(name, "trace", op, debug);
        result.append(t.as_str());
    }

    proof {
        assert(result@ =~= spec_path_item_text(name@, *path_item, debug));
    }
    Some(result)
}

} // verus!

verus! {

/// The output of one operation holds its HTTP method token: the token is
/// spliced into the request build between two fixed fragments.
pub proof fn lemma_gen_fn_contains_method(
    name: Seq<char>,
    op_type: Seq<char>,
    op: Operation,
    debug: bool,
)
    ensures
        has_sub(spec_gen_fn(name, op_type, op, debug), op_type),
{
    let fn_name = spec_fn_name(op, name, op_type);
    let qname = pascal_of(fn_name) + "Query"@;
    let rname = pascal_of(fn_name) + "Response"@;
    let need_query = spec_query_count(op.parameters@) > 0;
    let req = spec_request_type(op);
    let qpart = if need_query {
        "\tlet qstring = serde_qs::to_string(&query).unwrap();\n"@
            + "\tlet qstring_clean = remove_square_braces(&qstring);\n"@
    } else {
        Seq::<char>::empty()
    };
    let head = qpart + "\n\tlet mut r#request = state.client."@;
    assert((head + op_type).subrange(head.len() as int, head.len() as int + op_type.len()) =~= op_type);
    assert(has_sub_at(head + op_type, op_type, head.len() as int));
    let a1 = head + op_type;
    lemma_has_sub_concat_left(a1, "(format!(\"{}"@, op_type);
    let a2 = a1 + "(format!(\"{}"@;
    lemma_has_sub_concat_left(a2, name, op_type);
    let a3 = a2 + name;
    let qmark = if need_query {
        "?{}"@
    } else {
        Seq::<char>::empty()
    };
    lemma_has_sub_concat_left(a3, qmark, op_type);
    let a4 = a3 + qmark;
    lemma_has_sub_concat_left(a4, "\", state.base_url"@, op_type);
    let a5 = a4 + "\", state.base_url"@;
    let qclean = if need_query {
        ", qstring_clean"@
    } else {
        Seq::<char>::empty()
    };
    lemma_has_sub_concat_left(a5, qclean, op_type);
    let a6 = a5 + qclean;
    lemma_has_sub_concat_left(a6, "))\n"@, op_type);
    let a7 = a6 + "))\n"@;
    lemma_has_sub_concat_left(
        a7,
        "\t\t.header(\"Authorization\", format!(\"Token {}\", state.authentication_token));\n"@,
        op_type,
    );
    assert(has_sub(spec_fn_url(name, op_type, need_query), op_type));
    let before = (if need_query {
        spec_query_struct(qname, op.parameters@)
    } else {
        Seq::<char>::empty()
    }) + spec_response_enum(rname, op.responses@) + spec_op_comment(op) + spec_fn_sig(
        fn_name,
        qname,
        rname,
        need_query,
        req,
        op.parameters@,
    );
    lemma_has_sub_concat_right(before, spec_fn_url(name, op_type, need_query), op_type);
    lemma_has_sub_concat_left(
        before + spec_fn_url(name, op_type, need_query),
        spec_fn_dispatch(rname, req is Some, op.parameters@, op.responses@, debug),
        op_type,
    );
}

/// Law: a path item with all eight methods populated emits one function
/// per method — the output is exactly the concatenation of the eight
/// operations' outputs, and each of the eight method tokens stands in it.
pub proof fn lemma_method_coverage(name: Seq<char>, item: PathItem, debug: bool)
    requires
        item.get is Some,
        item.put is Some,
        item.post is Some,
        item.delete is Some,
        item.options is Some,
        item.head is Some,
        item.patch is Some,
        item.trace is Some,
    ensures
        spec_path_item_text(name, item, debug) == spec_gen_fn(name, "get"@, item.get->0, debug)
            + spec_gen_fn(name, "put"@, item.put->0, debug) + spec_gen_fn(
            name,
            "post"@,
            item.post->0,
            debug,
        ) + spec_gen_fn(name, "delete"@, item.delete->0, debug) + spec_gen_fn(
            name,
            "options"@,
            item.options->0,
            debug,
        ) + spec_gen_fn(name, "head"@, item.head->0, debug) + spec_gen_fn(
            name,
            "patch"@,
            item.patch->0,
            debug,
        ) + spec_gen_fn(name, "trace"@, item.trace->0, debug),
        has_sub(spec_path_item_text(name, item, debug), "get"@),
        has_sub(spec_path_item_text(name, item, debug), "put"@),
        has_sub(spec_path_item_text(name, item, debug), "post"@),
        has_sub(spec_path_item_text(name, item, debug), "delete"@),
        has_sub(spec_path_item_text(name, item, debug), "options"@),
        has_sub(spec_path_item_text(name, item, debug), "head"@),
        has_sub(spec_path_item_text(name, item, debug), "patch"@),
        has_sub(spec_path_item_text(name, item, debug), "trace"@),
{
    let g1 = spec_gen_fn(name, "get"@, item.get->0, debug);
    let g2 = spec_gen_fn(name, "put"@, item.put->0, debug);
    let g3 = spec_gen_fn(name, "post"@, item.post->0, debug);
    let g4 = spec_gen_fn(name, "delete"@, item.delete->0, debug);
    let g5 = spec_gen_fn(name, "options"@, item.options->0, debug);
    let g6 = spec_gen_fn(name, "head"@, item.head->0, debug);
    let g7 = spec_gen_fn(name, "patch"@, item.patch->0, debug);
    let g8 = spec_gen_fn(name, "trace"@, item.trace->0, debug);
    lemma_gen_fn_contains_method(name, "get"@, item.get->0, debug);
    lemma_gen_fn_contains_method(name, "put"@, item.put->0, debug);
    lemma_gen_fn_contains_method(name, "post"@, item.post->0, debug);
    lemma_gen_fn_contains_method(name, "delete"@, item.delete->0, debug);
    lemma_gen_fn_contains_method(name, "options"@, item.options->0, debug);
    lemma_gen_fn_contains_method(name, "head"@, item.head->0, debug);
    lemma_gen_fn_contains_method(name, "patch"@, item.patch->0, debug);
    lemma_gen_fn_contains_method(name, "trace"@, item.trace->0, debug);
    let p2 = g1 + g2;
    let p3 = p2 + g3;
    let p4 = p3 + g4;
    let p5 = p4 + g5;
    let p6 = p5 + g6;
    let p7 = p6 + g7;
    let p8 = p7 + g8;
    // Embed each method's occurrence into the whole.
    lemma_has_sub_concat_left(g1, g2, "get"@);
    lemma_has_sub_concat_left(p2, g3, "get"@);
    lemma_has_sub_concat_left(p3, g4, "get"@);
    lemma_has_sub_concat_left(p4, g5, "get"@);
    lemma_has_sub_concat_left(p5, g6, "get"@);
    lemma_has_sub_concat_left(p6, g7, "get"@);
    lemma_has_sub_concat_left(p7, g8, "get"@);
    lemma_has_sub_concat_right(g1, g2, "put"@);
    lemma_has_sub_concat_left(p2, g3, "put"@);
    lemma_has_sub_concat_left(p3, g4, "put"@);
    lemma_has_sub_concat_left(p4, g5, "put"@);
    lemma_has_sub_concat_left(p5, g6, "put"@);
    lemma_has_sub_concat_left(p6, g7, "put"@);
    lemma_has_sub_concat_left(p7, g8, "put"@);
    lemma_has_sub_concat_right(p2, g3, "post"@);
    lemma_has_sub_concat_left(p3, g4, "post"@);
    lemma_has_sub_concat_left(p4, g5, "post"@);
    lemma_has_sub_concat_left(p5, g6, "post"@);
    lemma_has_sub_concat_left(p6, g7, "post"@);
    lemma_has_sub_concat_left(p7, g8, "post"@);
    lemma_has_sub_concat_right(p3, g4, "delete"@);
    lemma_has_sub_concat_left(p4, g5, "delete"@);
    lemma_has_sub_concat_left(p5, g6, "delete"@);
    lemma_has_sub_concat_left(p6, g7, "delete"@);
    lemma_has_sub_concat_left(p7, g8, "delete"@);
    lemma_has_sub_concat_right(p4, g5, "options"@);
    lemma_has_sub_concat_left(p5, g6, "options"@);
    lemma_has_sub_concat_left(p6, g7, "options"@);
    lemma_has_sub_concat_left(p7, g8, "options"@);
    lemma_has_sub_concat_right(p5, g6, "head"@);
    lemma_has_sub_concat_left(p6, g7, "head"@);
    lemma_has_sub_concat_left(p7, g8, "head"@);
    lemma_has_sub_concat_right(p6, g7, "patch"@);
    lemma_has_sub_concat_left(p7, g8, "patch"@);
    lemma_has_sub_concat_right(p7, g8, "trace"@);
}

} // verus!

verus! {

/// The variants text holds the variant of each declared response.
proof fn lemma_variants_contain(responses: Seq<ResponseEntry>, i: int)
    requires
        0 <= i < responses.len(),
    ensures
        has_sub(spec_response_variants(responses), spec_response_variant(responses[i])),
    decreases responses.len(),
{
    let v = spec_response_variant(responses[i]);
    if i == responses.len() - 1 {
        crate::text::lemma_has_sub_suffix(
            spec_response_variants(responses.drop_last()),
            v,
        );
    } else {
        assert(responses.drop_last()[i] == responses[i]);
        lemma_variants_contain(responses.drop_last(), i);
        lemma_has_sub_concat_left(
            spec_response_variants(responses.drop_last()),
            spec_response_variant(responses.last()),
            v,
        );
    }
}

/// The path-argument text holds the argument of each schema-carrying path
/// parameter.
proof fn lemma_path_args_contain(params: Seq<Parameter>, i: int)
    requires
        0 <= i < params.len(),
        params[i].location matches ParamLocation::Path,
        params[i].schema is Some,
    ensures
        has_sub(spec_path_args(params), spec_path_arg(params[i])),
    decreases params.len(),
{
    let p = spec_path_arg(params[i]);
    let tail = if params.last().location matches ParamLocation::Path && params.last().schema
        is Some {
        spec_path_arg(params.last())
    } else {
        Seq::<char>::empty()
    };
    if i == params.len() - 1 {
        crate::text::lemma_has_sub_suffix(spec_path_args(params.drop_last()), p);
    } else {
        assert(params.drop_last()[i] == params[i]);
        lemma_path_args_contain(params.drop_last(), i);
        lemma_has_sub_concat_left(spec_path_args(params.drop_last()), tail, p);
    }
}

/// An occurrence in the signature part is an occurrence in the whole
/// emitted text.
proof fn lemma_gen_fn_from_sig(name: Seq<char>, op_type: Seq<char>, op: Operation, debug: bool, p: Seq<char>)
    requires
        has_sub(
            spec_fn_sig(
                spec_fn_name(op, name, op_type),
                pascal_of(spec_fn_name(op, name, op_type)) + "Query"@,
                pascal_of(spec_fn_name(op, name, op_type)) + "Response"@,
                spec_query_count(op.parameters@) > 0,
                spec_request_type(op),
                op.parameters@,
            ),
            p,
        ),
    ensures
        has_sub(spec_gen_fn(name, op_type, op, debug), p),
{
    let fn_name = spec_fn_name(op, name, op_type);
    let qname = pascal_of(fn_name) + "Query"@;
    let rname = pascal_of(fn_name) + "Response"@;
    let need_query = spec_query_count(op.parameters@) > 0;
    let req = spec_request_type(op);
    let head = (if need_query {
        spec_query_struct(qname, op.parameters@)
    } else {
        Seq::<char>::empty()
    }) + spec_response_enum(rname, op.responses@) + spec_op_comment(op);
    let sig = spec_fn_sig(fn_name, qname, rname, need_query, req, op.parameters@);
    lemma_has_sub_concat_right(head, sig, p);
    lemma_has_sub_concat_left(head + sig, spec_fn_url(name, op_type, need_query), p);
    lemma_has_sub_concat_left(
        head + sig + spec_fn_url(name, op_type, need_query),
        spec_fn_dispatch(rname, req is Some, op.parameters@, op.responses@, debug),
        p,
    );
}

/// Law: the output of one operation holds its function header — `pub fn`,
/// the function's name, and the client-handle argument.
pub proof fn lemma_gen_fn_contains_header(
    name: Seq<char>,
    op_type: Seq<char>,
    op: Operation,
    debug: bool,
)
    ensures
        has_sub(
            spec_gen_fn(name, op_type, op, debug),
            "pub fn "@ + spec_fn_name(op, name, op_type) + "(state: &ThanixClient"@,
        ),
{
    let fn_name = spec_fn_name(op, name, op_type);
    let qname = pascal_of(fn_name) + "Query"@;
    let rname = pascal_of(fn_name) + "Response"@;
    let need_query = spec_query_count(op.parameters@) > 0;
    let req = spec_request_type(op);
    let p = "pub fn "@ + fn_name + "(state: &ThanixClient"@;
    let a1 = p + (if need_query {
        ", query: "@ + qname
    } else {
        Seq::<char>::empty()
    });
    assert(a1.subrange(0, p.len() as int) =~= p);
    assert(has_sub_at(a1, p, 0));
    let a2 = a1 + (match req {
        Some(t) => ", body: "@ + t,
        None => Seq::<char>::empty(),
    });
    lemma_has_sub_concat_left(a1, a2.subrange(a1.len() as int, a2.len() as int), p);
    assert(a2 =~= a1 + a2.subrange(a1.len() as int, a2.len() as int));
    let a3 = a2 + spec_path_args(op.parameters@);
    lemma_has_sub_concat_left(a2, spec_path_args(op.parameters@), p);
    let a4 = a3 + spec_header_args(op.parameters@);
    lemma_has_sub_concat_left(a3, spec_header_args(op.parameters@), p);
    let a5 = a4 + ") -> "@;
    lemma_has_sub_concat_left(a4, ") -> "@, p);
    let a6 = a5 + "Result<"@;
    lemma_has_sub_concat_left(a5, "Result<"@, p);
    let a7 = a6 + rname;
    lemma_has_sub_concat_left(a6, rname, p);
    lemma_has_sub_concat_left(a7, ", Error> {\n"@, p);
    lemma_gen_fn_from_sig(name, op_type, op, debug, p);
}

/// Law: the output of one operation holds, for each schema-carrying path
/// parameter, that parameter's typed argument.
pub proof fn lemma_gen_fn_contains_path_arg(
    name: Seq<char>,
    op_type: Seq<char>,
    op: Operation,
    debug: bool,
    i: int,
)
    requires
        0 <= i < op.parameters@.len(),
        op.parameters@[i].location matches ParamLocation::Path,
        op.parameters@[i].schema is Some,
    ensures
        has_sub(spec_gen_fn(name, op_type, op, debug), spec_path_arg(op.parameters@[i])),
{
    let fn_name = spec_fn_name(op, name, op_type);
    let qname = pascal_of(fn_name) + "Query"@;
    let rname = pascal_of(fn_name) + "Response"@;
    let need_query = spec_query_count(op.parameters@) > 0;
    let req = spec_request_type(op);
    let p = spec_path_arg(op.parameters@[i]);
    lemma_path_args_contain(op.parameters@, i);
    let a2 = "pub fn "@ + fn_name + "(state: &ThanixClient"@ + (if need_query {
        ", query: "@ + qname
    } else {
        Seq::<char>::empty()
    }) + (match req {
        Some(t) => ", body: "@ + t,
        None => Seq::<char>::empty(),
    });
    lemma_has_sub_concat_right(a2, spec_path_args(op.parameters@), p);
    let a3 = a2 + spec_path_args(op.parameters@);
    lemma_has_sub_concat_left(a3, spec_header_args(op.parameters@), p);
    let a4 = a3 + spec_header_args(op.parameters@);
    lemma_has_sub_concat_left(a4, ") -> "@, p);
    let a5 = a4 + ") -> "@;
    lemma_has_sub_concat_left(a5, "Result<"@, p);
    let a6 = a5 + "Result<"@;
    lemma_has_sub_concat_left(a6, rname, p);
    lemma_has_sub_concat_left(a6 + rname, ", Error> {\n"@, p);
    lemma_gen_fn_from_sig(name, op_type, op, debug, p);
}

/// Law: the output of one operation holds, for each declared response,
/// that response's enum variant.
pub proof fn lemma_gen_fn_contains_variant(
    name: Seq<char>,
    op_type: Seq<char>,
    op: Operation,
    debug: bool,
    i: int,
)
    requires
        0 <= i < op.responses@.len(),
    ensures
        has_sub(spec_gen_fn(name, op_type, op, debug), spec_response_variant(op.responses@[i])),
{
    let fn_name = spec_fn_name(op, name, op_type);
    let qname = pascal_of(fn_name) + "Query"@;
    let rname = pascal_of(fn_name) + "Response"@;
    let need_query = spec_query_count(op.parameters@) > 0;
    let req = spec_request_type(op);
    let p = spec_response_variant(op.responses@[i]);
    lemma_variants_contain(op.responses@, i);
    let e1 = "#[derive(Debug)]\npub enum "@ + rname + " {\n"@;
    lemma_has_sub_concat_right(e1, spec_response_variants(op.responses@), p);
    let e2 = e1 + spec_response_variants(op.responses@);
    lemma_has_sub_concat_left(e2, "\tOther(Response)\n"@, p);
    lemma_has_sub_concat_left(e2 + "\tOther(Response)\n"@, "}\n"@, p);
    let q = if need_query {
        spec_query_struct(qname, op.parameters@)
    } else {
        Seq::<char>::empty()
    };
    lemma_has_sub_concat_right(q, spec_response_enum(rname, op.responses@), p);
    let g1 = q + spec_response_enum(rname, op.responses@);
    lemma_has_sub_concat_left(g1, spec_op_comment(op), p);
    let g2 = g1 + spec_op_comment(op);
    lemma_has_sub_concat_left(
        g2,
        spec_fn_sig(fn_name, qname, rname, need_query, req, op.parameters@),
        p,
    );
    let g3 = g2 + spec_fn_sig(fn_name, qname, rname, need_query, req, op.parameters@);
    lemma_has_sub_concat_left(g3, spec_fn_url(name, op_type, need_query), p);
    lemma_has_sub_concat_left(
        g3 + spec_fn_url(name, op_type, need_query),
        spec_fn_dispatch(rname, req is Some, op.parameters@, op.responses@, debug),
        p,
    );
}

} // verus!
