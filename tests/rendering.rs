use indexmap::IndexMap;
use laws::endpoint_rules::{
    Endpoint, EndpointAuthScheme, EndpointPropertyMap, EndpointRule, EndpointRuleCondition,
    EndpointRuleConditionFn, EndpointRuleExpr, EndpointRuleItem, EndpointRuleSet,
};
use laws::filter::EndpointRulesFilter;
use laws::render::dump_endpoint_rules;

fn reference(name: &str) -> EndpointRuleExpr {
    EndpointRuleExpr::Reference { name: name.to_string() }
}

fn text(s: &str) -> EndpointRuleExpr {
    EndpointRuleExpr::String(s.to_string())
}

fn cond(function: EndpointRuleConditionFn) -> EndpointRuleCondition {
    EndpointRuleCondition { assign: None, function }
}

fn assign(name: &str, function: EndpointRuleConditionFn) -> EndpointRuleCondition {
    EndpointRuleCondition { assign: Some(name.to_string()), function }
}

fn nested(function: EndpointRuleConditionFn) -> EndpointRuleExpr {
    EndpointRuleExpr::Condition(Box::new(cond(function)))
}

fn endpoint_item(conditions: Vec<EndpointRuleCondition>, url: EndpointRuleExpr) -> EndpointRuleItem {
    EndpointRuleItem {
        conditions,
        rule: EndpointRule::Endpoint {
            endpoint: Endpoint {
                url,
                properties: EndpointPropertyMap { backend: None, auth_schemes: vec![] },
                headers: IndexMap::new(),
            },
        },
    }
}

fn error_item(conditions: Vec<EndpointRuleCondition>, message: &str) -> EndpointRuleItem {
    EndpointRuleItem { conditions, rule: EndpointRule::Error { error: message.to_string() } }
}

fn tree_item(conditions: Vec<EndpointRuleCondition>, rules: Vec<EndpointRuleItem>) -> EndpointRuleItem {
    EndpointRuleItem { conditions, rule: EndpointRule::Tree { rules } }
}

fn rule_set(rules: Vec<EndpointRuleItem>) -> EndpointRuleSet {
    EndpointRuleSet { parameters: IndexMap::new(), rules }
}

fn region_rule_set() -> EndpointRuleSet {
    rule_set(vec![endpoint_item(
        vec![cond(EndpointRuleConditionFn::IsSet(reference("Region")))],
        reference("Region"),
    )])
}

fn arn_rule_set() -> EndpointRuleSet {
    rule_set(vec![endpoint_item(
        vec![
            assign("arn", EndpointRuleConditionFn::AwsParseArn(reference("Bucket"))),
            cond(EndpointRuleConditionFn::StringEquals(
                nested(EndpointRuleConditionFn::GetAttr(reference("arn"), "resourceId[0]".to_string())),
                text(""),
            )),
        ],
        reference("Bucket"),
    )])
}

#[test]
fn scenario_empty_preset() {
    let out = dump_endpoint_rules(&region_rule_set(), &EndpointRulesFilter::default());
    assert_eq!(out, "  if is_set($Region) => endpoint: $Region\n");
}

#[test]
fn scenario_minimal_preset() {
    let out = dump_endpoint_rules(&region_rule_set(), &EndpointRulesFilter::minimal());
    assert_eq!(out, "  else => endpoint: $Region\n");
}

#[test]
fn scenario_arn_pruning() {
    let minimal = dump_endpoint_rules(&arn_rule_set(), &EndpointRulesFilter::minimal());
    assert_eq!(minimal, "  else => endpoint: $Bucket\n");
    let empty = dump_endpoint_rules(&arn_rule_set(), &EndpointRulesFilter::default());
    assert_eq!(empty, "  if string_equals(($arn).resourceId[0], \"\") => endpoint: $Bucket\n");
}

#[test]
fn rendering_is_idempotent() {
    let rs = arn_rule_set();
    let f = EndpointRulesFilter::default();
    assert_eq!(dump_endpoint_rules(&rs, &f), dump_endpoint_rules(&rs, &f));
    let m = EndpointRulesFilter::minimal();
    assert_eq!(dump_endpoint_rules(&rs, &m), dump_endpoint_rules(&rs, &m));
}

#[test]
fn dead_branch_is_erased_with_its_subtree() {
    let rs = rule_set(vec![
        tree_item(
            vec![cond(EndpointRuleConditionFn::BooleanEquals(
                reference("UseFIPS"),
                EndpointRuleExpr::Boolean(true),
            ))],
            vec![error_item(vec![], "fips")],
        ),
        error_item(vec![], "fallback"),
    ]);
    let minimal = dump_endpoint_rules(&rs, &EndpointRulesFilter::minimal());
    assert_eq!(minimal, "  else => error: fallback\n");
    let empty = dump_endpoint_rules(&rs, &EndpointRulesFilter::default());
    assert_eq!(
        empty,
        "  if boolean_equals($UseFIPS, true) => {\n      else => error: fips\n  }\n  else => error: fallback\n"
    );
}

#[test]
fn tautology_is_left_out() {
    let rs = rule_set(vec![error_item(
        vec![
            cond(EndpointRuleConditionFn::IsSet(reference("Bucket"))),
            cond(EndpointRuleConditionFn::IsSet(reference("Key"))),
        ],
        "x",
    )]);
    let out = dump_endpoint_rules(&rs, &EndpointRulesFilter::minimal());
    assert_eq!(out, "  if is_set($Key) => error: x\n");
}

#[test]
fn assignment_does_not_reach_siblings() {
    let rs = rule_set(vec![
        tree_item(
            vec![assign("arn", EndpointRuleConditionFn::AwsParseArn(reference("Bucket")))],
            vec![error_item(vec![cond(EndpointRuleConditionFn::IsSet(reference("arn")))], "child")],
        ),
        error_item(vec![cond(EndpointRuleConditionFn::IsSet(reference("arn")))], "sibling"),
    ]);
    let out = dump_endpoint_rules(&rs, &EndpointRulesFilter::minimal());
    assert_eq!(
        out,
        "  else => {\n      else => error: child\n  }\n  if is_set($arn) => error: sibling\n"
    );
}

#[test]
fn several_conditions_join_with_and() {
    let rs = rule_set(vec![error_item(
        vec![
            cond(EndpointRuleConditionFn::IsSet(reference("A"))),
            cond(EndpointRuleConditionFn::Not(nested(EndpointRuleConditionFn::IsSet(reference("B"))))),
            cond(EndpointRuleConditionFn::IsValidHostLabel(reference("C"), true)),
        ],
        "e",
    )]);
    let out = dump_endpoint_rules(&rs, &EndpointRulesFilter::default());
    assert_eq!(
        out,
        "  if is_set($A) and\n     not is_set($B) and\n     is_valid_host_label($C, true) => error: e\n"
    );
}

#[test]
fn function_texts() {
    let rs = rule_set(vec![error_item(
        vec![
            cond(EndpointRuleConditionFn::Substring(reference("S"), 10, 125, false)),
            cond(EndpointRuleConditionFn::ParseURL(reference("Endpoint"))),
            cond(EndpointRuleConditionFn::UriEncode(reference("Bucket"))),
            assign("p", EndpointRuleConditionFn::AwsPartition(reference("Region"))),
            cond(EndpointRuleConditionFn::AwsIsVirtualHostableS3Bucket(reference("Bucket"), false)),
            cond(EndpointRuleConditionFn::StringEquals(
                nested(EndpointRuleConditionFn::GetAttr(reference("p"), "name".to_string())),
                text("aws\"cn"),
            )),
            cond(EndpointRuleConditionFn::AwsParseArn(reference("Key"))),
        ],
        "e",
    )]);
    let out = dump_endpoint_rules(&rs, &EndpointRulesFilter::default());
    assert_eq!(
        out,
        "  if substring($S, 10, 125, false) and\n     parse_url($Endpoint) and\n     uri_encode($Bucket) and\n     aws_is_virtual_hostable_s3_bucket($Bucket, false) and\n     string_equals(($p).name, \"aws\\\"cn\") and\n     aws_parse_arn($Key) => error: e\n"
    );
}

#[test]
fn nested_assignment_text() {
    let inner = EndpointRuleExpr::Condition(Box::new(assign(
        "x",
        EndpointRuleConditionFn::IsSet(reference("A")),
    )));
    let rs = rule_set(vec![error_item(
        vec![cond(EndpointRuleConditionFn::BooleanEquals(inner, EndpointRuleExpr::Boolean(false)))],
        "e",
    )]);
    let out = dump_endpoint_rules(&rs, &EndpointRulesFilter::default());
    assert_eq!(out, "  if boolean_equals(let x = is_set($A), false) => error: e\n");
}

#[test]
fn endpoint_properties_block() {
    let mut headers = IndexMap::new();
    headers.insert("x-amz-a".to_string(), vec!["1".to_string(), "2".to_string()]);
    headers.insert("x-amz-b".to_string(), vec!["3".to_string()]);
    let item = EndpointRuleItem {
        conditions: vec![],
        rule: EndpointRule::Endpoint {
            endpoint: Endpoint {
                url: text("https://x"),
                properties: EndpointPropertyMap {
                    backend: Some("S3".to_string()),
                    auth_schemes: vec![
                        EndpointAuthScheme::Sigv4 {
                            signing_name: "s3".to_string(),
                            signing_region: "us-east-1".to_string(),
                            disable_double_encoding: false,
                        },
                        EndpointAuthScheme::Sigv4a {
                            signing_name: "s3".to_string(),
                            signing_region_set: vec!["*".to_string(), "us-west-2".to_string()],
                            disable_double_encoding: true,
                        },
                        EndpointAuthScheme::Sigv4S3Express {
                            signing_name: "s3express".to_string(),
                            signing_region: "eu-west-1".to_string(),
                            disable_double_encoding: true,
                        },
                    ],
                },
                headers,
            },
        },
    };
    let out = dump_endpoint_rules(&rule_set(vec![item]), &EndpointRulesFilter::default());
    assert_eq!(
        out,
        "  else => endpoint: \"https://x\" {\n    backend: S3\n    auth_schemes: [\n      sigv4(s3, us-east-1, false)\n      sigv4a(s3, [*, us-west-2], true)\n      sigv4-s3express(s3express, eu-west-1, true)\n    ]\n    headers: {\n      x-amz-a: 1\n      x-amz-a: 2\n      x-amz-b: 3\n    }\n  }\n"
    );
}

#[test]
fn endpoint_headers_only() {
    let mut headers = IndexMap::new();
    headers.insert("h".to_string(), vec!["v".to_string()]);
    let item = EndpointRuleItem {
        conditions: vec![],
        rule: EndpointRule::Endpoint {
            endpoint: Endpoint {
                url: reference("Endpoint"),
                properties: EndpointPropertyMap { backend: None, auth_schemes: vec![] },
                headers,
            },
        },
    };
    let out = dump_endpoint_rules(&rule_set(vec![item]), &EndpointRulesFilter::default());
    assert_eq!(out, "  else => endpoint: $Endpoint {\n    headers: {\n      h: v\n    }\n  }\n");
}

#[test]
fn empty_rule_set_renders_nothing() {
    assert_eq!(dump_endpoint_rules(&rule_set(vec![]), &EndpointRulesFilter::minimal()), "");
}

#[test]
fn deep_nesting_indents_by_four() {
    let rs = rule_set(vec![tree_item(
        vec![],
        vec![tree_item(vec![], vec![error_item(vec![], "deep")])],
    )]);
    let out = dump_endpoint_rules(&rs, &EndpointRulesFilter::default());
    assert_eq!(
        out,
        "  else => {\n      else => {\n          else => error: deep\n      }\n  }\n"
    );
}
