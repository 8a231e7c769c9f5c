//! Pruning and rendering of a rule tree: dead items are dropped, proven
//! conditions are left out, and what remains is written as indented text.

use crate::endpoint_rules::{
    Endpoint, EndpointAuthScheme, EndpointRule, EndpointRuleCondition, EndpointRuleConditionFn,
    EndpointRuleExpr, EndpointRuleItem, EndpointRuleSet,
};
use crate::eval::{derefs, scan_conditions, EndpointRuleEvaluation};
use crate::filter::EndpointRulesFilter;
use crate::text::{bool_str, bool_text, debug_quoted, decimal_str, push_decimal, quoted};
use crate::value::Val;
use indexmap::IndexMap;
use vstd::prelude::*;
use vstd::string::*;

verus! {

broadcast use vstd::std_specs::vec::axiom_vec_index_decreases,
    vstd::std_specs::vec::axiom_vec_decreases_to_view,
    vstd::seq::axiom_seq_index_decreases,
    vstd::seq::axiom_seq_subrange_decreases;

/// The text of an expression.
pub open spec fn expr_str(e: EndpointRuleExpr) -> Seq<char>
    decreases e,
{
    match e {
        EndpointRuleExpr::Boolean(b) => bool_str(b),
        EndpointRuleExpr::String(s) => debug_quoted(s@),
        EndpointRuleExpr::Condition(c) => condition_str(*c),
        EndpointRuleExpr::Reference { name } => "$"@ + name@,
    }
}

/// The text of a condition's binding, if it has one.
pub open spec fn binding_str(assign: Option<String>) -> Seq<char> {
    match assign {
        Some(a) => "let "@ + a@ + " = "@,
        None => Seq::empty(),
    }
}

/// The text of a condition: its binding, if any, and its function.
pub open spec fn condition_str(c: EndpointRuleCondition) -> Seq<char>
    decreases c,
{
    binding_str(c.assign) + function_str(c.function)
}

/// The text of a function application.
pub open spec fn function_str(f: EndpointRuleConditionFn) -> Seq<char>
    decreases f,
{
    match f {
        EndpointRuleConditionFn::Not(e) => "not "@ + expr_str(e),
        EndpointRuleConditionFn::BooleanEquals(l, r) => "boolean_equals("@ + expr_str(l) + ", "@
            + expr_str(r) + ")"@,
        EndpointRuleConditionFn::StringEquals(l, r) => "string_equals("@ + expr_str(l) + ", "@
            + expr_str(r) + ")"@,
        EndpointRuleConditionFn::GetAttr(e, name) => "("@ + expr_str(e) + ")."@ + name@,
        EndpointRuleConditionFn::IsSet(e) => "is_set("@ + expr_str(e) + ")"@,
        EndpointRuleConditionFn::ParseURL(e) => "parse_url("@ + expr_str(e) + ")"@,
        EndpointRuleConditionFn::IsValidHostLabel(e, b) => "is_valid_host_label("@ + expr_str(e)
            + ", "@ + bool_str(b) + ")"@,
        EndpointRuleConditionFn::Substring(e, start, end, from_end) => "substring("@ + expr_str(e)
            + ", "@ + decimal_str(start as nat) + ", "@ + decimal_str(end as nat) + ", "@
            + bool_str(from_end) + ")"@,
        EndpointRuleConditionFn::UriEncode(e) => "uri_encode("@ + expr_str(e) + ")"@,
        EndpointRuleConditionFn::AwsPartition(e) => "aws_partition("@ + expr_str(e) + ")"@,
        EndpointRuleConditionFn::AwsParseArn(e) => "aws_parse_arn("@ + expr_str(e) + ")"@,
        EndpointRuleConditionFn::AwsIsVirtualHostableS3Bucket(e, b) =>
            "aws_is_virtual_hostable_s3_bucket("@ + expr_str(e) + ", "@ + bool_str(b) + ")"@,
    }
}

/// What an endpoint's header map holds, in insertion order: each header name
/// with its list of values.
pub uninterp spec fn header_entries(m: IndexMap<String, Vec<String>>) -> Seq<(Seq<char>, Seq<Seq<char>>)>;

/// The views of a list of strings.
pub open spec fn views(v: Seq<String>) -> Seq<Seq<char>> {
    v.map_values(|s: String| s@)
}

/// Relies on `IndexMap::len`: the number of entries in the map.
#[verifier::external_body]
fn header_count(m: &IndexMap<String, Vec<String>>) -> (r: usize)
    ensures
        r == header_entries(*m).len(),
{
    m.len()
}

/// Relies on `IndexMap::get_index`: the entry at a position in insertion
/// order, or `None` past the end.
#[verifier::external_body]
fn header_at(m: &IndexMap<String, Vec<String>>, i: usize) -> (r: Option<(&String, &Vec<String>)>)
    ensures
        i < header_entries(*m).len() ==> r is Some && r.unwrap().0@ == header_entries(*m)[i as int].0
            && views(r.unwrap().1@) == header_entries(*m)[i as int].1,
        i >= header_entries(*m).len() ==> r is None,
{
    m.get_index(i)
}

/// Strings joined by `, `.
pub open spec fn join_str(s: Seq<Seq<char>>) -> Seq<char>
    decreases s.len(),
{
    if s.len() == 0 {
        Seq::empty()
    } else if s.len() == 1 {
        s[0]
    } else {
        join_str(s.drop_last()) + ", "@ + s.last()
    }
}

/// The text of an auth scheme: its kind, signing name, region or region
/// set, and double-encoding flag.
pub open spec fn auth_scheme_body_str(a: EndpointAuthScheme) -> Seq<char> {
    match a {
        EndpointAuthScheme::Sigv4 { signing_name, signing_region, disable_double_encoding } =>
            "sigv4("@ + signing_name@ + ", "@ + signing_region@ + ", "@ + bool_str(
            disable_double_encoding,
        ) + ")"@,
        EndpointAuthScheme::Sigv4a { signing_name, signing_region_set, disable_double_encoding } =>
            "sigv4a("@ + signing_name@ + ", ["@ + join_str(views(signing_region_set@)) + "], "@
            + bool_str(disable_double_encoding) + ")"@,
        EndpointAuthScheme::Sigv4S3Express {
            signing_name,
            signing_region,
            disable_double_encoding,
        } => "sigv4-s3express("@ + signing_name@ + ", "@ + signing_region@ + ", "@ + bool_str(
            disable_double_encoding,
        ) + ")"@,
    }
}

/// The line of an auth scheme.
pub open spec fn auth_scheme_str(indent: Seq<char>, a: EndpointAuthScheme) -> Seq<char> {
    indent + "    "@ + auth_scheme_body_str(a) + "\n"@
}

/// The lines of a list of auth schemes.
pub open spec fn auth_schemes_str(indent: Seq<char>, s: Seq<EndpointAuthScheme>) -> Seq<char>
    decreases s.len(),
{
    if s.len() == 0 {
        Seq::empty()
    } else {
        auth_schemes_str(indent, s.drop_last()) + auth_scheme_str(indent, s.last())
    }
}

/// One line per value of a header.
pub open spec fn header_values_str(indent: Seq<char>, name: Seq<char>, values: Seq<Seq<char>>) -> Seq<
    char,
>
    decreases values.len(),
{
    if values.len() == 0 {
        Seq::empty()
    } else {
        header_values_str(indent, name, values.drop_last()) + indent + "    "@ + name + ": "@
            + values.last() + "\n"@
    }
}

/// The lines of all headers.
pub open spec fn headers_str(indent: Seq<char>, entries: Seq<(Seq<char>, Seq<Seq<char>>)>) -> Seq<
    char,
>
    decreases entries.len(),
{
    if entries.len() == 0 {
        Seq::empty()
    } else {
        headers_str(indent, entries.drop_last()) + header_values_str(
            indent,
            entries.last().0,
            entries.last().1,
        )
    }
}

/// The backend line, if there is a backend.
pub open spec fn backend_str(indent: Seq<char>, backend: Option<String>) -> Seq<char> {
    match backend {
        Some(b) => indent + "  backend: "@ + b@ + "\n"@,
        None => Seq::empty(),
    }
}

/// The auth scheme block, if there are auth schemes.
pub open spec fn auth_block_str(indent: Seq<char>, s: Seq<EndpointAuthScheme>) -> Seq<char> {
    if s.len() == 0 {
        Seq::empty()
    } else {
        indent + "  auth_schemes: [\n"@ + auth_schemes_str(indent, s) + indent + "  ]\n"@
    }
}

/// The header block, if there are headers.
pub open spec fn headers_block_str(indent: Seq<char>, entries: Seq<(Seq<char>, Seq<Seq<char>>)>) -> Seq<
    char,
> {
    if entries.len() == 0 {
        Seq::empty()
    } else {
        indent + "  headers: {\n"@ + headers_str(indent, entries) + indent + "  }\n"@
    }
}

/// The text of an endpoint outcome: its URL, then a block of the
/// properties and headers that are present.
pub open spec fn endpoint_str(indent: Seq<char>, ep: Endpoint) -> Seq<char> {
    let entries = header_entries(ep.headers);
    "endpoint: "@ + expr_str(ep.url) + if ep.properties.backend is Some
        || ep.properties.auth_schemes.len() > 0 || entries.len() > 0 {
        " {\n"@ + backend_str(indent, ep.properties.backend) + auth_block_str(
            indent,
            ep.properties.auth_schemes@,
        ) + headers_block_str(indent, entries) + indent + "}"@
    } else {
        Seq::empty()
    }
}

/// The unresolved conditions of an item, joined by `and` on continuation
/// lines.
pub open spec fn conditions_str(indent: Seq<char>, un: Seq<EndpointRuleCondition>) -> Seq<char>
    decreases un.len(),
{
    if un.len() == 0 {
        Seq::empty()
    } else if un.len() == 1 {
        "if "@ + condition_str(un[0])
    } else {
        conditions_str(indent, un.drop_last()) + " and\n"@ + indent + "   "@ + condition_str(
            un.last(),
        )
    }
}

/// The guard of an item: `else` when nothing is left unresolved.
pub open spec fn guard_str(indent: Seq<char>, un: Seq<EndpointRuleCondition>) -> Seq<char> {
    if un.len() == 0 {
        "else"@
    } else {
        conditions_str(indent, un)
    }
}

/// The text of a live item, given its unresolved conditions and the scope of
/// its nested rules.
pub open spec fn live_item_str(
    indent: Seq<char>,
    item: EndpointRuleItem,
    un: Seq<EndpointRuleCondition>,
    scope: Map<Seq<char>, Val>,
    no_arn_bucket: bool,
) -> Seq<char>
    decreases item, 1int,
{
    indent + guard_str(indent, un) + " => "@ + match item.rule {
        EndpointRule::Error { error } => "error: "@ + error@,
        EndpointRule::Tree { rules } => "{\n"@ + items_str(
            indent + "    "@,
            rules@,
            scope,
            no_arn_bucket,
        ) + indent + "}"@,
        EndpointRule::Endpoint { endpoint } => endpoint_str(indent, endpoint),
    } + "\n"@
}

/// The text of an item under bindings `env`: nothing when it is dead.
pub open spec fn item_str(
    indent: Seq<char>,
    item: EndpointRuleItem,
    env: Map<Seq<char>, Val>,
    no_arn_bucket: bool,
) -> Seq<char>
    decreases item, 2int,
{
    let (dead, un, scope) = scan_conditions(env, no_arn_bucket, item.conditions@);
    if dead {
        Seq::empty()
    } else {
        live_item_str(indent, item, un, scope, no_arn_bucket)
    }
}

/// The text of a list of sibling items, each evaluated under the same `env`.
pub open spec fn items_str(
    indent: Seq<char>,
    items: Seq<EndpointRuleItem>,
    env: Map<Seq<char>, Val>,
    no_arn_bucket: bool,
) -> Seq<char>
    decreases items, 0int,
{
    if items.len() == 0 {
        Seq::empty()
    } else {
        items_str(indent, items.drop_last(), env, no_arn_bucket) + item_str(
            indent,
            items.last(),
            env,
            no_arn_bucket,
        )
    }
}

/// Appends the text of an expression.
pub fn print_expr(out: &mut String, expr: &EndpointRuleExpr)
    ensures
        final(out)@ == old(out)@ + expr_str(*expr),
    decreases expr, 0int,
{
    let ghost start = out@;
    match expr {
        EndpointRuleExpr::Boolean(s) => out.append(bool_text(*s)),
        EndpointRuleExpr::String(s) => {
            let q = quoted(s);
            out.append(q.as_str());
        },
        EndpointRuleExpr::Condition(cond) => print_condition(out, cond),
        EndpointRuleExpr::Reference { name } => {
            out.append("$");
            out.append(name.as_str());
            proof {
                assert(out@ =~= start + expr_str(*expr));
            }
        },
    }
}

/// Appends `name(arg)`.
fn print_call1(out: &mut String, name: &str, e: &EndpointRuleExpr)
    ensures
        final(out)@ == old(out)@ + (name@ + expr_str(*e) + ")"@),
    decreases e, 1int,
{
    let ghost start = out@;
    out.append(name);
    print_expr(out, e);
    out.append(")");
    proof {
        assert(out@ =~= start + (name@ + expr_str(*e) + ")"@));
    }
}

/// Appends `name(arg, flag)`.
fn print_call_flag(out: &mut String, name: &str, e: &EndpointRuleExpr, flag: bool)
    ensures
        final(out)@ == old(out)@ + (name@ + expr_str(*e) + ", "@ + bool_str(flag) + ")"@),
    decreases e, 1int,
{
    let ghost start = out@;
    out.append(name);
    print_expr(out, e);
    out.append(", ");
    out.append(bool_text(flag));
    out.append(")");
    proof {
        assert(out@ =~= start + (name@ + expr_str(*e) + ", "@ + bool_str(flag) + ")"@));
    }
}

/// Appends the text of a condition.
pub fn print_condition(out: &mut String, condition: &EndpointRuleCondition)
    ensures
        final(out)@ == old(out)@ + condition_str(*condition),
    decreases condition, 0int,
{
    let ghost start = out@;
    if let Some(assign) = &condition.assign {
        out.append("let ");
        out.append(assign.as_str());
        out.append(" = ");
    }
    proof {
        assert(out@ =~= start + binding_str(condition.assign));
    }
    print_function(out, &condition.function);
    proof {
        assert(out@ =~= start + condition_str(*condition));
    }
}

/// Appends the text of a function application.
fn print_function(out: &mut String, function: &EndpointRuleConditionFn)
    ensures
        final(out)@ == old(out)@ + function_str(*function),
    decreases function, 0int,
{
    let ghost start = out@;
    match function {
        EndpointRuleConditionFn::Not(e) => {
            out.append("not ");
            print_expr(out, e);
            proof {
                assert(out@ =~= start + function_str(*function));
            }
        },
        EndpointRuleConditionFn::BooleanEquals(l, r) => {
            out.append("boolean_equals(");
            print_expr(out, l);
            out.append(", ");
            print_expr(out, r);
            out.append(")");
            proof {
                assert(out@ =~= start + function_str(*function));
            }
        },
        EndpointRuleConditionFn::StringEquals(l, r) => {
            out.append("string_equals(");
            print_expr(out, l);
            out.append(", ");
            print_expr(out, r);
            out.append(")");
            proof {
                assert(out@ =~= start + function_str(*function));
            }
        },
        EndpointRuleConditionFn::GetAttr(e, name) => {
            out.append("(");
            print_expr(out, e);
            out.append(").");
            out.append(name.as_str());
            proof {
                assert(out@ =~= start + function_str(*function));
            }
        },
        EndpointRuleConditionFn::IsSet(e) => print_call1(out, "is_set(", e),
        EndpointRuleConditionFn::ParseURL(e) => print_call1(out, "parse_url(", e),
        EndpointRuleConditionFn::IsValidHostLabel(expr, allow_underscores) => {
            print_call_flag(out, "is_valid_host_label(", expr, *allow_underscores)
        },
        EndpointRuleConditionFn::Substring(expr, start_index, end_index, from_end) => {
            out.append("substring(");
            print_expr(out, expr);
            out.append(", ");
            push_decimal(out, *start_index);
            out.append(", ");
            push_decimal(out, *end_index);
            out.append(", ");
            out.append(bool_text(*from_end));
            out.append(")");
            proof {
                assert(out@ =~= start + function_str(*function));
            }
        },
        EndpointRuleConditionFn::UriEncode(expr) => print_call1(out, "uri_encode(", expr),
        EndpointRuleConditionFn::AwsPartition(expr) => print_call1(out, "aws_partition(", expr),
        EndpointRuleConditionFn::AwsParseArn(expr) => print_call1(out, "aws_parse_arn(", expr),
        EndpointRuleConditionFn::AwsIsVirtualHostableS3Bucket(expr, flag) => {
            print_call_flag(out, "aws_is_virtual_hostable_s3_bucket(", expr, *flag)
        },
    }
}

/// Appends strings joined by `, `.
fn print_joined(out: &mut String, items: &Vec<String>)
    ensures
        final(out)@ == old(out)@ + join_str(views(items@)),
{
    let ghost start = out@;
    let ghost v = views(items@);
    let n = items.len();
    let mut i: usize = 0;
    proof {
        assert(v.subrange(0, 0) =~= Seq::<Seq<char>>::empty());
    }
    while i < n
        invariant
            n == items.len(),
            v == views(items@),
            i <= n,
            out@ == start + join_str(v.subrange(0, i as int)),
        decreases n - i,
    {
        let ghost before = out@;
        if i > 0 {
            out.append(", ");
        }
        out.append(items[i].as_str());
        proof {
            let s = v.subrange(0, i + 1);
            assert(s.drop_last() =~= v.subrange(0, i as int));
            assert(s.last() == items@[i as int]@);
            if i == 0 {
                assert(out@ =~= start + join_str(s));
            } else {
                assert(out@ =~= start + join_str(s));
            }
        }
        i += 1;
    }
    proof {
        assert(v.subrange(0, n as int) =~= v);
    }
}

/// Appends the line of an auth scheme.
fn print_auth_scheme(out: &mut String, indent: &str, scheme: &EndpointAuthScheme)
    ensures
        final(out)@ == old(out)@ + auth_scheme_str(indent@, *scheme),
{
    let ghost start = out@;
    out.append(indent);
    out.append("    ");
    print_auth_scheme_body(out, scheme);
    out.append("\n");
    proof {
        assert(out@ =~= start + auth_scheme_str(indent@, *scheme));
    }
}

/// Appends the text of an auth scheme.
fn print_auth_scheme_body(out: &mut String, scheme: &EndpointAuthScheme)
    ensures
        final(out)@ == old(out)@ + auth_scheme_body_str(*scheme),
{
    let ghost start = out@;
    match scheme {
        EndpointAuthScheme::Sigv4 { signing_name, signing_region, disable_double_encoding } => {
            out.append("sigv4(");
            out.append(signing_name.as_str());
            out.append(", ");
            out.append(signing_region.as_str());
            out.append(", ");
            out.append(bool_text(*disable_double_encoding));
            out.append(")");
            proof {
                assert(out@ =~= start + auth_scheme_body_str(*scheme));
            }
        },
        EndpointAuthScheme::Sigv4a { signing_name, signing_region_set, disable_double_encoding } => {
            out.append("sigv4a(");
            out.append(signing_name.as_str());
            out.append(", [");
            print_joined(out, signing_region_set);
            out.append("], ");
            out.append(bool_text(*disable_double_encoding));
            out.append(")");
            proof {
                assert(out@ =~= start + auth_scheme_body_str(*scheme));
            }
        },
        EndpointAuthScheme::Sigv4S3Express {
            signing_name,
            signing_region,
            disable_double_encoding,
        } => {
            out.append("sigv4-s3express(");
            out.append(signing_name.as_str());
            out.append(", ");
            out.append(signing_region.as_str());
            out.append(", ");
            out.append(bool_text(*disable_double_encoding));
            out.append(")");
            proof {
                assert(out@ =~= start + auth_scheme_body_str(*scheme));
            }
        },
    }
}

/// Appends the auth scheme block, if there are auth schemes.
fn print_auth_block(out: &mut String, indent: &str, schemes: &Vec<EndpointAuthScheme>)
    ensures
        final(out)@ == old(out)@ + auth_block_str(indent@, schemes@),
{
    let ghost start = out@;
    let n = schemes.len();
    if n == 0 {
        proof {
            assert(out@ =~= start + auth_block_str(indent@, schemes@));
        }
        return;
    }
    out.append(indent);
    out.append("  auth_schemes: [\n");
    let ghost head = out@;
    let mut i: usize = 0;
    proof {
        assert(schemes@.subrange(0, 0) =~= Seq::<EndpointAuthScheme>::empty());
        assert(out@ =~= head + auth_schemes_str(indent@, schemes@.subrange(0, 0)));
    }
    while i < n
        invariant
            n == schemes.len(),
            i <= n,
            out@ == head + auth_schemes_str(indent@, schemes@.subrange(0, i as int)),
        decreases n - i,
    {
        print_auth_scheme(out, indent, &schemes[i]);
        proof {
            let s = schemes@.subrange(0, i + 1);
            assert(s.drop_last() =~= schemes@.subrange(0, i as int));
            assert(s.last() == schemes@[i as int]);
            assert(out@ =~= head + auth_schemes_str(indent@, s));
        }
        i += 1;
    }
    out.append(indent);
    out.append("  ]\n");
    proof {
        assert(schemes@.subrange(0, n as int) =~= schemes@);
        assert(out@ =~= start + auth_block_str(indent@, schemes@));
    }
}

/// Appends one line per value of a header.
fn print_header_values(out: &mut String, indent: &str, name: &String, values: &Vec<String>)
    ensures
        final(out)@ == old(out)@ + header_values_str(indent@, name@, views(values@)),
{
    let ghost start = out@;
    let ghost v = views(values@);
    let n = values.len();
    let mut i: usize = 0;
    proof {
        assert(v.subrange(0, 0) =~= Seq::<Seq<char>>::empty());
        assert(out@ =~= start + header_values_str(indent@, name@, v.subrange(0, 0)));
    }
    while i < n
        invariant
            n == values.len(),
            v == views(values@),
            i <= n,
            out@ == start + header_values_str(indent@, name@, v.subrange(0, i as int)),
        decreases n - i,
    {
        out.append(indent);
        out.append("    ");
        out.append(name.as_str());
        out.append(": ");
        out.append(values[i].as_str());
        out.append("\n");
        proof {
            let s = v.subrange(0, i + 1);
            assert(s.drop_last() =~= v.subrange(0, i as int));
            assert(s.last() == values@[i as int]@);
            assert(out@ =~= start + header_values_str(indent@, name@, s));
        }
        i += 1;
    }
    proof {
        assert(v.subrange(0, n as int) =~= v);
    }
}

/// Appends the header block, if there are headers.
fn print_headers_block(out: &mut String, indent: &str, headers: &IndexMap<String, Vec<String>>)
    ensures
        final(out)@ == old(out)@ + headers_block_str(indent@, header_entries(*headers)),
{
    let ghost start = out@;
    let ghost entries = header_entries(*headers);
    let n = header_count(headers);
    if n == 0 {
        proof {
            assert(out@ =~= start + headers_block_str(indent@, entries));
        }
        return;
    }
    out.append(indent);
    out.append("  headers: {\n");
    let ghost head = out@;
    let mut i: usize = 0;
    proof {
        assert(entries.subrange(0, 0) =~= Seq::<(Seq<char>, Seq<Seq<char>>)>::empty());
        assert(out@ =~= head + headers_str(indent@, entries.subrange(0, 0)));
    }
    while i < n
        invariant
            n == entries.len(),
            entries == header_entries(*headers),
            i <= n,
            out@ == head + headers_str(indent@, entries.subrange(0, i as int)),
        decreases n - i,
    {
        match header_at(headers, i) {
            Some((name, values)) => {
                print_header_values(out, indent, name, values);
            },
            None => {},
        }
        proof {
            let s = entries.subrange(0, i + 1);
            assert(s.drop_last() =~= entries.subrange(0, i as int));
            assert(s.last() == entries[i as int]);
            assert(out@ =~= head + headers_str(indent@, s));
        }
        i += 1;
    }
    out.append(indent);
    out.append("  }\n");
    proof {
        assert(entries.subrange(0, n as int) =~= entries);
        assert(out@ =~= start + headers_block_str(indent@, entries));
    }
}

/// Appends the text of an endpoint outcome.
fn print_endpoint(out: &mut String, indent: &str, endpoint: &Endpoint)
    ensures
        final(out)@ == old(out)@ + endpoint_str(indent@, *endpoint),
{
    let ghost start = out@;
    out.append("endpoint: ");
    print_expr(out, &endpoint.url);
    let ghost head = out@;
    let n_headers = header_count(&endpoint.headers);
    if endpoint.properties.backend.is_some() || endpoint.properties.auth_schemes.len() > 0
        || n_headers > 0 {
        out.append(" {\n");
        if let Some(backend) = &endpoint.properties.backend {
            out.append(indent);
            out.append("  backend: ");
            out.append(backend.as_str());
            out.append("\n");
        }
        proof {
            assert(out@ =~= head + " {\n"@ + backend_str(indent@, endpoint.properties.backend));
        }
        print_auth_block(out, indent, &endpoint.properties.auth_schemes);
        print_headers_block(out, indent, &endpoint.headers);
        out.append(indent);
        out.append("}");
    }
    proof {
        assert(out@ =~= start + endpoint_str(indent@, *endpoint));
    }
}

/// Appends the guard of an item: its unresolved conditions, or `else`.
fn print_guard(out: &mut String, indent: &str, un: &Vec<&EndpointRuleCondition>)
    ensures
        final(out)@ == old(out)@ + guard_str(indent@, derefs(un@)),
{
    let ghost start = out@;
    let ghost c = derefs(un@);
    let n = un.len();
    if n == 0 {
        out.append("else");
        return;
    }
    let mut i: usize = 0;
    proof {
        assert(c.subrange(0, 0) =~= Seq::<EndpointRuleCondition>::empty());
    }
    while i < n
        invariant
            n == un.len(),
            c == derefs(un@),
            i <= n,
            out@ == start + conditions_str(indent@, c.subrange(0, i as int)),
        decreases n - i,
    {
        if i == 0 {
            out.append("if ");
        } else {
            out.append(" and\n");
            out.append(indent);
            out.append("   ");
        }
        print_condition(out, un[i]);
        proof {
            let s = c.subrange(0, i + 1);
            assert(s.drop_last() =~= c.subrange(0, i as int));
            assert(s.last() == c[i as int]);
            assert(out@ =~= start + conditions_str(indent@, s));
        }
        i += 1;
    }
    proof {
        assert(c.subrange(0, n as int) =~= c);
    }
}

/// Appends the text of a live item from its evaluation.
pub fn print_rule_item(
    out: &mut String,
    indent: &str,
    item: &EndpointRuleItem,
    evaluation: &EndpointRuleEvaluation,
)
    ensures
        final(out)@ == old(out)@ + live_item_str(
            indent@,
            *item,
            derefs(evaluation.unknown_conditions@),
            evaluation.child_filter.model(),
            evaluation.child_filter.no_arn_bucket,
        ),
    decreases item,
{
    let ghost start = out@;
    out.append(indent);
    print_guard(out, indent, &evaluation.unknown_conditions);
    out.append(" => ");
    match &item.rule {
        EndpointRule::Error { error } => {
            out.append("error: ");
            out.append(error.as_str());
        },
        EndpointRule::Tree { rules } => {
            out.append("{\n");
            let mut inner = indent.to_owned();
            inner.append("    ");
            filtered_rules(out, inner.as_str(), rules, &evaluation.child_filter);
            out.append(indent);
            out.append("}");
        },
        EndpointRule::Endpoint { endpoint } => {
            print_endpoint(out, indent, endpoint);
        },
    }
    out.append("\n");
    proof {
        assert(out@ =~= start + live_item_str(
            indent@,
            *item,
            derefs(evaluation.unknown_conditions@),
            evaluation.child_filter.model(),
            evaluation.child_filter.no_arn_bucket,
        ));
    }
}

/// Appends the text of the items that are not dead, each evaluated in
/// `filter`, at indentation `indent`.
pub fn filtered_rules(
    out: &mut String,
    indent: &str,
    rules: &Vec<EndpointRuleItem>,
    filter: &EndpointRulesFilter,
)
    ensures
        final(out)@ == old(out)@ + items_str(indent@, rules@, filter.model(), filter.no_arn_bucket),
    decreases rules,
{
    let ghost start = out@;
    let ghost env = filter.model();
    let n = rules.len();
    let mut i: usize = 0;
    proof {
        assert(rules@.subrange(0, 0) =~= Seq::<EndpointRuleItem>::empty());
    }
    while i < n
        invariant
            n == rules.len(),
            env == filter.model(),
            i <= n,
            out@ == start + items_str(indent@, rules@.subrange(0, i as int), env, filter.no_arn_bucket),
        decreases n - i,
    {
        let rule = &rules[i];
        let evaluation = filter.evaluate_rule(rule);
        if !evaluation.always_false {
            print_rule_item(out, indent, rule, &evaluation);
        }
        proof {
            let s = rules@.subrange(0, i + 1);
            let sc = scan_conditions(env, filter.no_arn_bucket, rule.conditions@);
            assert(sc.0 == evaluation.always_false);
            if evaluation.always_false {
                assert(item_str(indent@, *rule, env, filter.no_arn_bucket) =~= Seq::<char>::empty());
            } else {
                assert(item_str(indent@, *rule, env, filter.no_arn_bucket) == live_item_str(
                    indent@,
                    *rule,
                    derefs(evaluation.unknown_conditions@),
                    evaluation.child_filter.model(),
                    evaluation.child_filter.no_arn_bucket,
                ));
            }
            assert(s.drop_last() =~= rules@.subrange(0, i as int));
            assert(s.last() == rules@[i as int]);
            assert(out@ =~= start + items_str(indent@, s, env, filter.no_arn_bucket));
        }
        i += 1;
    }
    proof {
        assert(rules@.subrange(0, n as int) =~= rules@);
    }
}

/// The rendered text of a rule set under an initial environment: its live
/// items at an indentation of two spaces, nested trees four spaces deeper
/// per level.
pub open spec fn dump_str(rule_set: EndpointRuleSet, filter: EndpointRulesFilter) -> Seq<char> {
    items_str("  "@, rule_set.rules@, filter.model(), filter.no_arn_bucket)
}

/// Renders a rule set, pruned under the given initial environment.
pub fn dump_endpoint_rules(rule_set: &EndpointRuleSet, filter: &EndpointRulesFilter) -> (r: String)
    ensures
        r@ == dump_str(*rule_set, *filter),
{
    let mut out = String::new();
    filtered_rules(&mut out, "  ", &rule_set.rules, filter);
    proof {
        assert(out@ =~= dump_str(*rule_set, *filter));
    }
    out
}

} // verus!
