//! Doc-comment formatting and the type resolver: from a schema node to a
//! Rust type expression.

use crate::text::{has_sub_at, replace_all, spec_replace, starts_with, starts_with_sub};
use vstd::prelude::*;

verus! {

/// The character index of the first newline in `s`, or `s.len()` when `s`
/// holds none.
pub open spec fn first_nl(s: Seq<char>) -> nat
    decreases s.len(),
{
    if s.len() == 0 {
        0
    } else if s[0] == '\n' {
        0
    } else {
        1 + first_nl(s.skip(1))
    }
}

/// `indent` tab characters.
pub open spec fn spec_tabs(indent: nat) -> Seq<char>
    decreases indent,
{
    if indent == 0 {
        Seq::<char>::empty()
    } else {
        spec_tabs((indent - 1) as nat) + "\t"@
    }
}

/// The doc-comment block for `text` at depth `indent`: every
/// newline-separated line of `text` prefixed with the indentation and the
/// comment marker, and terminated by its own newline.
pub open spec fn spec_comment(text: Seq<char>, indent: nat) -> Seq<char>
    decreases text.len(),
{
    let k = first_nl(text);
    if k >= text.len() {
        spec_tabs(indent) + "/// "@ + text + "\n"@
    } else {
        spec_tabs(indent) + "/// "@ + text.take(k as int) + "\n"@ + spec_comment(
            text.skip(k as int + 1),
            indent,
        )
    }
}

/// A sequence without the sought character has no first-newline position
/// inside it.
proof fn lemma_first_nl_none(s: Seq<char>)
    requires
        forall|i: int| 0 <= i < s.len() ==> s[i] != '\n',
    ensures
        first_nl(s) >= s.len(),
    decreases s.len(),
{
    if s.len() > 0 {
        assert(forall|i: int| 0 <= i < s.skip(1).len() ==> s.skip(1)[i] != '\n');
        lemma_first_nl_none(s.skip(1));
    }
}

/// The first newline of a sequence whose first newline is known.
proof fn lemma_first_nl_at(s: Seq<char>, k: int)
    requires
        0 <= k < s.len(),
        s[k] == '\n',
        forall|i: int| 0 <= i < k ==> s[i] != '\n',
    ensures
        first_nl(s) == k,
    decreases s.len(),
{
    if k > 0 {
        assert(forall|i: int| 0 <= i < k - 1 ==> s.skip(1)[i] != '\n');
        lemma_first_nl_at(s.skip(1), k - 1);
    }
}

/// `indent` tab characters, as a string.
fn make_tabs(indent: usize) -> (r: String)
    ensures
        r@ == spec_tabs(indent as nat),
{
    let mut r = String::new();
    let mut i: usize = 0;
    while i < indent
        invariant
            i <= indent,
            r@ == spec_tabs(i as nat),
        decreases indent - i,
    {
        r.append("\t");
        i += 1;
    }
    r
}

/// Makes a doc comment out of a given string: each line of the input
/// becomes one comment line at depth `indent`; an absent input yields the
/// empty string.
pub fn make_comment(input: Option<String>, indent: usize) -> (r: String)
    ensures
        (match input {
            Some(x) => r@ == spec_comment(x@, indent as nat),
            None => r@ == Seq::<char>::empty(),
        }),
{
    let x = match input {
        Some(x) => x,
        None => {
            return String::new();
        },
    };
    let s = x.as_str();
    let n = s.unicode_len();
    let tabs = make_tabs(indent);
    let mut r = String::new();
    let mut j: usize = 0;
    proof {
        assert(s@.skip(0) =~= s@);
        assert(r@ + spec_comment(s@, indent as nat) =~= spec_comment(s@, indent as nat));
    }
    loop
        invariant
            j <= n,
            n == s@.len(),
            s@ == x@,
            input == Some(x),
            tabs@ == spec_tabs(indent as nat),
            spec_comment(s@, indent as nat) == r@ + spec_comment(s@.skip(j as int), indent as nat),
        decreases n - j,
    {
        let ghost t = s@.skip(j as int);
        // Find the end of the current line.
        let mut k: usize = j;
        while k < n && s.get_char(k) != '\n'
            invariant
                j <= k <= n,
                n == s@.len(),
                forall|l: int| j <= l < k ==> s@[l] != '\n',
            decreases n - k,
        {
            k += 1;
        }
        proof {
            assert(forall|l: int| 0 <= l < k - j ==> t[l] != '\n');
            if k < n {
                assert(t[k - j] == '\n');
                lemma_first_nl_at(t, k - j);
            } else {
                lemma_first_nl_none(t);
            }
        }
        let line = s.substring_char(j, k);
        r.append(tabs.as_str());
        r.append("/// ");
        r.append(line);
        r.append("\n");
        if k < n {
            proof {
                assert(t.take((k - j) as int) =~= s@.subrange(j as int, k as int));
                assert(t.skip(k - j + 1) =~= s@.skip(k + 1));
                assert(r@ + spec_comment(s@.skip(k + 1), indent as nat) =~= spec_comment(
                    s@,
                    indent as nat,
                ));
            }
            j = k + 1;
        } else {
            proof {
                assert(t =~= s@.subrange(j as int, k as int));
                assert(r@ =~= spec_comment(s@, indent as nat));
            }
            return r;
        }
    }
}

/// How many times `c` stands in `s`.
pub open spec fn count_char(s: Seq<char>, c: char) -> nat
    decreases s.len(),
{
    if s.len() == 0 {
        0
    } else {
        (if s[0] == c {
            1nat
        } else {
            0nat
        }) + count_char(s.skip(1), c)
    }
}

/// How many newline-separated lines `text` holds; the empty text holds
/// one (empty) line.
pub open spec fn spec_line_count(text: Seq<char>) -> nat
    decreases text.len(),
{
    let k = first_nl(text);
    if k >= text.len() {
        1
    } else {
        1 + spec_line_count(text.skip(k as int + 1))
    }
}

/// Counting a character distributes over concatenation.
proof fn lemma_count_char_concat(a: Seq<char>, b: Seq<char>, c: char)
    ensures
        count_char(a + b, c) == count_char(a, c) + count_char(b, c),
    decreases a.len(),
{
    if a.len() == 0 {
        assert(a + b =~= b);
    } else {
        assert((a + b).skip(1) =~= a.skip(1) + b);
        lemma_count_char_concat(a.skip(1), b, c);
    }
}

/// A sequence without `c` counts zero occurrences of it.
proof fn lemma_count_char_zero(s: Seq<char>, c: char)
    requires
        forall|i: int| 0 <= i < s.len() ==> s[i] != c,
    ensures
        count_char(s, c) == 0,
    decreases s.len(),
{
    if s.len() > 0 {
        assert(forall|i: int| 0 <= i < s.skip(1).len() ==> s.skip(1)[i] != c);
        lemma_count_char_zero(s.skip(1), c);
    }
}

/// The indentation holds no newline.
proof fn lemma_tabs_no_nl(indent: nat)
    ensures
        count_char(spec_tabs(indent), '\n') == 0,
    decreases indent,
{
    if indent == 0 {
    } else {
        lemma_tabs_no_nl((indent - 1) as nat);
        reveal_strlit("\t");
        lemma_count_char_zero("\t"@, '\n');
        lemma_count_char_concat(spec_tabs((indent - 1) as nat), "\t"@, '\n');
    }
}

/// Characters before the first newline are no newlines, and the first
/// newline, when inside, is one.
proof fn lemma_first_nl_shape(s: Seq<char>)
    ensures
        first_nl(s) <= s.len(),
        forall|i: int| 0 <= i < first_nl(s) ==> s[i] != '\n',
        first_nl(s) < s.len() ==> s[first_nl(s) as int] == '\n',
    decreases s.len(),
{
    if s.len() > 0 && s[0] != '\n' {
        lemma_first_nl_shape(s.skip(1));
        assert forall|i: int| 0 <= i < first_nl(s) implies s[i] != '\n' by {
            if i > 0 {
                assert(s[i] == s.skip(1)[i - 1]);
            }
        }
    }
}

/// Law: the comment block for a text of `k` newline-separated lines holds
/// exactly `k` comment lines, each terminated by its own newline.
pub proof fn lemma_comment_line_count(text: Seq<char>, indent: nat)
    ensures
        count_char(spec_comment(text, indent), '\n') == spec_line_count(text),
        spec_line_count(text) == count_char(text, '\n') + 1,
    decreases text.len(),
{
    reveal_strlit("/// ");
    reveal_strlit("\n");
    let k = first_nl(text);
    lemma_first_nl_shape(text);
    lemma_tabs_no_nl(indent);
    lemma_count_char_zero("/// "@, '\n');
    assert("\n"@[0] == '\n');
    assert(count_char("\n"@, '\n') == 1) by {
        assert("\n"@.skip(1).len() == 0);
        lemma_count_char_zero("\n"@.skip(1), '\n');
    }
    if k >= text.len() {
        // One line: tabs + marker + text + newline.
        lemma_count_char_zero(text, '\n');
        lemma_count_char_concat(spec_tabs(indent), "/// "@, '\n');
        lemma_count_char_concat(spec_tabs(indent) + "/// "@, text, '\n');
        lemma_count_char_concat(spec_tabs(indent) + "/// "@ + text, "\n"@, '\n');
    } else {
        let line = text.take(k as int);
        let rest = text.skip(k as int + 1);
        assert(forall|i: int| 0 <= i < line.len() ==> line[i] != '\n');
        lemma_count_char_zero(line, '\n');
        lemma_count_char_concat(spec_tabs(indent), "/// "@, '\n');
        lemma_count_char_concat(spec_tabs(indent) + "/// "@, line, '\n');
        lemma_count_char_concat(spec_tabs(indent) + "/// "@ + line, "\n"@, '\n');
        lemma_comment_line_count(rest, indent);
        lemma_count_char_concat(spec_tabs(indent) + "/// "@ + line + "\n"@, spec_comment(
            rest,
            indent,
        ), '\n');
        // The input itself splits at the first newline.
        assert(text =~= line + "\n"@ + rest) by {
            assert(text[k as int] == '\n');
        }
        lemma_count_char_concat(line, "\n"@, '\n');
        lemma_count_char_concat(line + "\n"@, rest, '\n');
    }
}

} // verus!

use crate::model::{SchemaKindNode, SchemaNode, TypeNode, wf_kind, wf_node};

verus! {

/// The Rust integer type for declared bounds: signed when the minimum is
/// declared negative or not declared at all, unsigned only for a declared
/// non-negative minimum; of the smallest width in {8, 16, 32, 64} bits
/// whose maximum representable value reaches the declared maximum; 64 bits
/// wide when no maximum is declared.
pub open spec fn spec_int_type(minimum: Option<i64>, maximum: Option<i64>) -> Seq<char> {
    let signed = match minimum {
        Some(x) => x < 0,
        None => true,
    };
    match maximum {
        Some(x) => if signed {
            if x <= 127 {
                "i8"@
            } else if x <= 32767 {
                "i16"@
            } else if x <= 2147483647 {
                "i32"@
            } else {
                "i64"@
            }
        } else {
            if x <= 255 {
                "u8"@
            } else if x <= 65535 {
                "u16"@
            } else if x <= 4294967295 {
                "u32"@
            } else {
                "u64"@
            }
        },
        None => "i64"@,
    }
}

/// `base` wrapped as optional when `nullable` asks for it and `base` is
/// not itself already optional — that is, unless it starts with the
/// optional wrapper; wrapping never happens twice.
pub open spec fn spec_wrap_nullable(base: Seq<char>, nullable: bool) -> Seq<char> {
    if nullable && !starts_with(base, "Option<"@) {
        "Option<"@ + base + ">"@
    } else {
        base
    }
}

/// The type expression for a schema node: the stripped component name for
/// a reference, and the resolved base type of an item, wrapped as optional
/// when the item is nullable.
pub open spec fn spec_type_of(n: SchemaNode) -> Seq<char>
    decreases n,
{
    match n {
        SchemaNode::Reference { reference } => spec_replace(
            reference@,
            "#/components/schemas/"@,
            ""@,
        ),
        SchemaNode::Item(schema) => spec_wrap_nullable(
            spec_base_type(schema.schema_kind),
            schema.schema_data.nullable,
        ),
    }
}

/// The unwrapped type expression for a schema kind.
pub open spec fn spec_base_type(k: SchemaKindNode) -> Seq<char>
    decreases k,
{
    match k {
        SchemaKindNode::TypeKind(t) => match t {
            TypeNode::StringNode => "String"@,
            TypeNode::NumberNode => "f64"@,
            TypeNode::IntegerNode { minimum, maximum } => spec_int_type(minimum, maximum),
            TypeNode::ObjectNode { .. } => (
            "Option<std::collections::HashMap<String, serde_json::Value>>"@),
            TypeNode::BooleanNode => "bool"@,
            TypeNode::ArrayNode { items } => match items {
                Some(inner) => "Vec<"@ + spec_type_of(*inner) + ">"@,
                None => Seq::<char>::empty(),
            },
        },
        SchemaKindNode::AllOfKind { all_of } => if all_of@.len() > 0 {
            "Option<"@ + spec_type_of(all_of@[0]) + ">"@
        } else {
            Seq::<char>::empty()
        },
        SchemaKindNode::OtherKind => "serde_json::Value"@,
    }
}

/// The resolved base type, wrapped in `Option<` and `>`.
fn wrap_option(base: String) -> (r: String)
    ensures
        r@ == "Option<"@ + base@ + ">"@,
{
    let mut r = String::new();
    r.append("Option<");
    r.append(base.as_str());
    r.append(">");
    proof {
        assert(Seq::<char>::empty() + "Option<"@ =~= "Option<"@);
    }
    r
}

/// The type expression for a schema node; see [`spec_type_of`]. The result
/// is a function of the node alone. A reference pointer that does not
/// start with the fixed component prefix is not an error: it passes
/// through, with every embedded occurrence of the prefix removed.
pub fn type_to_string(ty: &SchemaNode) -> (r: String)
    requires
        wf_node(*ty),
    ensures
        r@ == spec_type_of(*ty),
    decreases *ty,
{
    match ty {
        // If the node is a reference, just extract the component name.
        SchemaNode::Reference { reference } => {
            proof {
                reveal_strlit("#/components/schemas/");
            }
            replace_all(reference.as_str(), "#/components/schemas/", "")
        },
        SchemaNode::Item(schema) => {
            let base = base_type_to_string(&schema.schema_kind);
            // A nullable node is treated as optional, wrapped exactly once:
            // a base type that is itself already optional stays as it is.
            if schema.schema_data.nullable && !starts_with_sub(base.as_str(), "Option<") {
                wrap_option(base)
            } else {
                base
            }
        },
    }
}

/// The unwrapped type expression for a schema kind; see
/// [`spec_base_type`].
pub fn base_type_to_string(k: &SchemaKindNode) -> (r: String)
    requires
        wf_kind(*k),
    ensures
        r@ == spec_base_type(*k),
    decreases *k,
{
    match k {
        SchemaKindNode::TypeKind(t) => match t {
            TypeNode::StringNode => String::from_str("String"),
            TypeNode::NumberNode => String::from_str("f64"),
            TypeNode::IntegerNode { minimum, maximum } => {
                let signed = match minimum {
                    Some(x) => *x < 0,
                    None => true,
                };
                let name = match maximum {
                    Some(x) => if signed {
                        if *x <= 127 {
                            "i8"
                        } else if *x <= 32767 {
                            "i16"
                        } else if *x <= 2147483647 {
                            "i32"
                        } else {
                            "i64"
                        }
                    } else {
                        if *x <= 255 {
                            "u8"
                        } else if *x <= 65535 {
                            "u16"
                        } else if *x <= 4294967295 {
                            "u32"
                        } else {
                            "u64"
                        }
                    },
                    None => "i64",
                };
                String::from_str(name)
            },
            // A free-form JSON object; there is no concrete shape to name.
            TypeNode::ObjectNode { .. } => String::from_str(
                "Option<std::collections::HashMap<String, serde_json::Value>>",
            ),
            TypeNode::BooleanNode => String::from_str("bool"),
            TypeNode::ArrayNode { items } => {
                let inner = match items {
                    Some(inner) => type_to_string(inner),
                    None => {
                        proof {
                            assert(false);
                        }
                        String::new()
                    },
                };
                let mut r = String::new();
                r.append("Vec<");
                r.append(inner.as_str());
                r.append(">");
                proof {
                    assert(Seq::<char>::empty() + "Vec<"@ =~= "Vec<"@);
                }
                r
            },
        },
        SchemaKindNode::AllOfKind { all_of } => {
            // Only the first member of the composition is consulted.
            let first = type_to_string(&all_of[0]);
            wrap_option(first)
        },
        SchemaKindNode::OtherKind => String::from_str("serde_json::Value"),
    }
}

} // verus!

verus! {

/// Law: type resolution is deterministic — the resolved text is a function
/// of the schema node alone, so equal nodes resolve to equal text.
pub proof fn lemma_resolve_deterministic(a: SchemaNode, b: SchemaNode)
    requires
        a == b,
    ensures
        spec_type_of(a) == spec_type_of(b),
{
}

/// Law: a nullable node's type is wrapped as optional exactly once, never
/// twice — the result always starts with the optional wrapper, and
/// wrapping a type that is already optional changes nothing.
pub proof fn lemma_nullable_wrap_idempotent(base: Seq<char>)
    ensures
        starts_with(spec_wrap_nullable(base, true), "Option<"@),
        spec_wrap_nullable(spec_wrap_nullable(base, true), true) == spec_wrap_nullable(base, true),
{
    reveal_strlit("Option<");
    let w = spec_wrap_nullable(base, true);
    if !starts_with(base, "Option<"@) {
        assert(w.subrange(0, 7) =~= "Option<"@);
    }
}

/// Whether `x` holds no path separator.
pub open spec fn no_slash(x: Seq<char>) -> bool {
    forall|i: int| 0 <= i < x.len() ==> x[i] != '/'
}

/// Law: resolving a reference whose pointer is the fixed component prefix
/// followed by a name `x` without `/` yields exactly `x`.
pub proof fn lemma_reference_round_trip(n: SchemaNode, x: Seq<char>)
    requires
        n matches SchemaNode::Reference { reference } && reference@ == "#/components/schemas/"@
            + x,
        no_slash(x),
    ensures
        spec_type_of(n) == x,
{
    reveal_strlit("#/components/schemas/");
    reveal_strlit("");
    let pat = "#/components/schemas/"@;
    assert(pat[1] == '/');
    assert forall|i: int| !has_sub_at(x, pat, i) by {
        if has_sub_at(x, pat, i) {
            assert(x.subrange(i, i + pat.len())[1] == x[i + 1]);
            assert(x[i + 1] == '/');
        }
    }
    crate::text::lemma_replace_prefix(x, pat, ""@);
    assert(""@ + x =~= x);
}

} // verus!

use crate::model::{PathItem, Schema, wf_path_item};
use crate::structgen::{spec_struct_array, spec_struct_object, spec_widen};
use vstd::prelude::*;

verus! {

/// The struct text one component contributes to the types buffer; a
/// component whose kind produces no struct contributes nothing.
pub open spec fn spec_component_text(
    name: Seq<char>,
    schema: Schema,
    workaround_mode: bool,
) -> Seq<char> {
    match schema.schema_kind {
        SchemaKindNode::TypeKind(TypeNode::ObjectNode { properties }) => spec_struct_object(
            name,
            spec_widen(name, workaround_mode),
            properties@,
        ),
        SchemaKindNode::TypeKind(TypeNode::ArrayNode { items }) => match items {
            Some(inner) => spec_struct_array(name, *inner),
            None => Seq::<char>::empty(),
        },
        _ => Seq::<char>::empty(),
    }
}

/// The whole types buffer: every component's struct text, in the order the
/// components are given.
pub open spec fn spec_types_text(
    components: Seq<(String, Schema)>,
    workaround_mode: bool,
) -> Seq<char>
    decreases components.len(),
{
    if components.len() == 0 {
        Seq::<char>::empty()
    } else {
        spec_types_text(components.drop_last(), workaround_mode) + spec_component_text(
            components.last().0@,
            components.last().1,
            workaround_mode,
        )
    }
}

/// The whole paths buffer: every path's request functions, in the order
/// the paths are given.
pub open spec fn spec_paths_text(
    paths: Seq<(String, PathItem)>,
    debug: bool,
) -> Seq<char>
    decreases paths.len(),
{
    if paths.len() == 0 {
        Seq::<char>::empty()
    } else {
        spec_paths_text(paths.drop_last(), debug) + crate::pathgen::spec_path_item_text(
            paths.last().0@,
            paths.last().1,
            debug,
        )
    }
}

/// Generate the types buffer: for every component, in the given order, the
/// struct the component yields; components whose kind produces no struct
/// are skipped.
pub fn generate_types(components: &Vec<(String, Schema)>, workaround_mode: bool) -> (r: String)
    requires
        forall|i: int|
            0 <= i < components@.len() ==> wf_kind(#[trigger] components@[i].1.schema_kind),
    ensures
        r@ == spec_types_text(components@, workaround_mode),
{
    let mut result = String::new();
    let mut i: usize = 0;
    proof {
        assert(components@.take(0) =~= Seq::<(String, Schema)>::empty());
    }
    while i < components.len()
        invariant
            i <= components@.len(),
            forall|j: int|
                0 <= j < components@.len() ==> wf_kind(#[trigger] components@[j].1.schema_kind),
            result@ == spec_types_text(components@.take(i as int), workaround_mode),
        decreases components@.len() - i,
    {
        let name = &components[i].0;
        let schema = &components[i].1;
        // Generate the struct and add it to the buffer; a component of any
        // other kind is skipped.
        match crate::structgen::generate(name.as_str(), schema, workaround_mode) {
            Some(structure) => result.append(structure.as_str()),
            None => {},
        }
        proof {
            assert(components@.take(i + 1).drop_last() =~= components@.take(i as int));
            assert(components@.take(i + 1).last() == components@[i as int]);
            assert(result@ =~= spec_types_text(components@.take(i + 1), workaround_mode));
        }
        i += 1;
    }
    proof {
        assert(components@.take(components@.len() as int) =~= components@);
    }
    result
}

/// Generate the paths buffer: for every path, in the given order, the
/// request functions of its declared operations.
pub fn generate_paths(paths: &Vec<(String, PathItem)>, debug: bool) -> (r: String)
    requires
        forall|i: int| 0 <= i < paths@.len() ==> wf_path_item(#[trigger] paths@[i].1),
    ensures
        r@ == spec_paths_text(paths@, debug),
{
    let mut result = String::new();
    let mut i: usize = 0;
    proof {
        assert(paths@.take(0) =~= Seq::<(String, PathItem)>::empty());
    }
    while i < paths.len()
        invariant
            i <= paths@.len(),
            forall|j: int| 0 <= j < paths@.len() ==> wf_path_item(#[trigger] paths@[j].1),
            result@ == spec_paths_text(paths@.take(i as int), debug),
        decreases paths@.len() - i,
    {
        let name = &paths[i].0;
        let item = &paths[i].1;
        match crate::pathgen::generate(name.as_str(), item, debug) {
            Some(text) => result.append(text.as_str()),
            None => {},
        }
        proof {
            assert(paths@.take(i + 1).drop_last() =~= paths@.take(i as int));
            assert(paths@.take(i + 1).last() == paths@[i as int]);
            assert(result@ =~= spec_paths_text(paths@.take(i + 1), debug));
        }
        i += 1;
    }
    proof {
        assert(paths@.take(paths@.len() as int) =~= paths@);
    }
    result
}

} // verus!

verus! {

/// Law: with no declared maximum the resolver picks the 64-bit width,
/// whatever the declared minimum says about signedness.
pub proof fn lemma_width_default(minimum: Option<i64>)
    ensures
        spec_int_type(minimum, None) == "i64"@,
{
}

} // verus!
