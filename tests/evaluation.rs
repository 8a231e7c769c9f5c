use laws::endpoint_rules::{
    Endpoint, EndpointPropertyMap, EndpointRule, EndpointRuleCondition, EndpointRuleConditionFn,
    EndpointRuleExpr, EndpointRuleItem,
};
use laws::eval::substring;
use laws::filter::EndpointRulesFilter;
use laws::value::{Bindings, EndpointRuleValue};

fn reference(name: &str) -> EndpointRuleExpr {
    EndpointRuleExpr::Reference { name: name.to_string() }
}

fn text(s: &str) -> EndpointRuleExpr {
    EndpointRuleExpr::String(s.to_string())
}

fn cond(function: EndpointRuleConditionFn) -> EndpointRuleCondition {
    EndpointRuleCondition { assign: None, function }
}

fn assign(name: &str, function: EndpointRuleConditionFn) -> EndpointRuleCondition {
    EndpointRuleCondition { assign: Some(name.to_string()), function }
}

fn nested(function: EndpointRuleConditionFn) -> EndpointRuleExpr {
    EndpointRuleExpr::Condition(Box::new(cond(function)))
}

fn endpoint_item(conditions: Vec<EndpointRuleCondition>) -> EndpointRuleItem {
    EndpointRuleItem {
        conditions,
        rule: EndpointRule::Endpoint {
            endpoint: Endpoint {
                url: reference("Region"),
                properties: EndpointPropertyMap { backend: None, auth_schemes: vec![] },
                headers: indexmap::IndexMap::new(),
            },
        },
    }
}

fn bool_of(v: &EndpointRuleValue) -> Option<bool> {
    match v {
        EndpointRuleValue::ConstBool(b) => Some(*b),
        _ => None,
    }
}

fn string_of(v: &EndpointRuleValue) -> Option<String> {
    match v {
        EndpointRuleValue::ConstString(s) => Some(s.clone()),
        _ => None,
    }
}

#[test]
fn is_set_lattice() {
    assert!(matches!(EndpointRuleValue::ConstNull.is_set(), EndpointRuleValue::ConstBool(true)));
    assert!(matches!(EndpointRuleValue::ConstUnset.is_set(), EndpointRuleValue::ConstBool(false)));
    assert!(matches!(EndpointRuleValue::Unknown.is_set(), EndpointRuleValue::Unknown));
    assert!(matches!(EndpointRuleValue::Invalid.is_set(), EndpointRuleValue::Invalid));
    assert!(matches!(EndpointRuleValue::Required.is_set(), EndpointRuleValue::ConstBool(true)));
    assert!(matches!(
        EndpointRuleValue::ConstBool(false).is_set(),
        EndpointRuleValue::ConstBool(true)
    ));
    assert!(matches!(
        EndpointRuleValue::ConstString(String::new()).is_set(),
        EndpointRuleValue::ConstBool(true)
    ));
    assert!(matches!(
        EndpointRuleValue::ConstObject(Bindings::new()).is_set(),
        EndpointRuleValue::ConstBool(true)
    ));
}

#[test]
fn substring_laws() {
    let abc = "abc".to_string();
    assert_eq!(string_of(&substring(&abc, 0, 2, false)), Some("ab".to_string()));
    assert!(matches!(substring(&abc, 1, 4, false), EndpointRuleValue::ConstNull));
    assert!(matches!(substring(&abc, 2, 1, false), EndpointRuleValue::Invalid));
    assert!(matches!(substring(&"日本".to_string(), 0, 1, false), EndpointRuleValue::ConstNull));
}

#[test]
fn substring_from_end() {
    let s = "abcdef".to_string();
    assert_eq!(string_of(&substring(&s, 0, 2, true)), Some("ef".to_string()));
    assert_eq!(string_of(&substring(&s, 1, 3, true)), Some("de".to_string()));
    assert!(matches!(substring(&s, 0, 7, true), EndpointRuleValue::ConstNull));
    assert_eq!(string_of(&substring(&s, 0, 6, true)), Some("abcdef".to_string()));
    assert_eq!(string_of(&substring(&s, 3, 3, false)), Some(String::new()));
    assert!(matches!(substring(&s, 7, 7, false), EndpointRuleValue::ConstNull));
}

#[test]
fn bindings_latest_wins() {
    let mut b = Bindings::new();
    assert!(b.get(&"x".to_string()).is_none());
    b.insert("x".to_string(), EndpointRuleValue::ConstBool(true));
    b.insert("y".to_string(), EndpointRuleValue::Required);
    b.insert("x".to_string(), EndpointRuleValue::ConstBool(false));
    assert_eq!(bool_of(b.get(&"x".to_string()).unwrap()), Some(false));
    assert!(matches!(b.get(&"y".to_string()), Some(EndpointRuleValue::Required)));
    let c = b.deep_clone();
    assert_eq!(bool_of(c.get(&"x".to_string()).unwrap()), Some(false));
}

#[test]
fn minimal_preset_bindings() {
    let f = EndpointRulesFilter::minimal();
    assert!(f.no_arn_bucket);
    assert!(matches!(f.expr_const(&reference("Region")), EndpointRuleValue::Required));
    assert!(matches!(f.expr_const(&reference("Bucket")), EndpointRuleValue::Required));
    assert!(matches!(f.expr_const(&reference("Endpoint")), EndpointRuleValue::ConstUnset));
    for name in ["UseFIPS", "UseDualStack", "Accelerate", "ForcePathStyle", "UseArnRegion", "UseGlobalEndpoint"] {
        assert_eq!(bool_of(&f.expr_const(&reference(name))), Some(false));
    }
    assert!(matches!(f.expr_const(&reference("Other")), EndpointRuleValue::Unknown));
    let d = EndpointRulesFilter::default();
    assert!(!d.no_arn_bucket);
    assert!(matches!(d.expr_const(&reference("Region")), EndpointRuleValue::Unknown));
}

#[test]
fn literals_and_not() {
    let f = EndpointRulesFilter::default();
    assert_eq!(bool_of(&f.expr_const(&EndpointRuleExpr::Boolean(true))), Some(true));
    assert_eq!(string_of(&f.expr_const(&text("a{b}"))), Some("a{b}".to_string()));
    let not_true = cond(EndpointRuleConditionFn::Not(EndpointRuleExpr::Boolean(true)));
    assert_eq!(bool_of(&f.condition_const(&not_true)), Some(false));
    let not_string = cond(EndpointRuleConditionFn::Not(text("x")));
    assert!(matches!(f.condition_const(&not_string), EndpointRuleValue::Invalid));
    let not_unknown = cond(EndpointRuleConditionFn::Not(reference("Nope")));
    assert!(matches!(f.condition_const(&not_unknown), EndpointRuleValue::Unknown));
}

#[test]
fn equality_functions() {
    let f = EndpointRulesFilter::minimal();
    let fips = cond(EndpointRuleConditionFn::BooleanEquals(
        reference("UseFIPS"),
        EndpointRuleExpr::Boolean(false),
    ));
    assert_eq!(bool_of(&f.condition_const(&fips)), Some(true));
    assert!(f.exclude_condition(&fips));
    let mixed = cond(EndpointRuleConditionFn::BooleanEquals(text("a"), EndpointRuleExpr::Boolean(false)));
    assert!(matches!(f.condition_const(&mixed), EndpointRuleValue::Invalid));
    assert!(!f.exclude_condition(&mixed));
    let unknown = cond(EndpointRuleConditionFn::StringEquals(reference("Nope"), EndpointRuleExpr::Boolean(false)));
    assert!(matches!(f.condition_const(&unknown), EndpointRuleValue::Unknown));
    let same = cond(EndpointRuleConditionFn::StringEquals(text("a"), text("a")));
    assert_eq!(bool_of(&f.condition_const(&same)), Some(true));
    let differ = cond(EndpointRuleConditionFn::StringEquals(text("a"), text("b")));
    assert_eq!(bool_of(&f.condition_const(&differ)), Some(false));
    let required = cond(EndpointRuleConditionFn::StringEquals(reference("Region"), text("b")));
    assert!(matches!(f.condition_const(&required), EndpointRuleValue::Invalid));
}

#[test]
fn parse_arn_and_get_attr() {
    let minimal = EndpointRulesFilter::minimal();
    let empty = EndpointRulesFilter::default();
    let parse = cond(EndpointRuleConditionFn::AwsParseArn(reference("Bucket")));
    assert!(matches!(empty.condition_const(&parse), EndpointRuleValue::Unknown));
    let parsed = minimal.condition_const(&parse);
    match &parsed {
        EndpointRuleValue::ConstObject(b) => {
            assert_eq!(string_of(b.get(&"resourceId[0]".to_string()).unwrap()), Some(String::new()));
        }
        _ => panic!("expected an object"),
    }
    let other = cond(EndpointRuleConditionFn::AwsParseArn(reference("Key")));
    assert!(matches!(minimal.condition_const(&other), EndpointRuleValue::Unknown));
    let attr = cond(EndpointRuleConditionFn::GetAttr(
        nested(EndpointRuleConditionFn::AwsParseArn(reference("Bucket"))),
        "resourceId[0]".to_string(),
    ));
    assert_eq!(string_of(&minimal.condition_const(&attr)), Some(String::new()));
    let missing = cond(EndpointRuleConditionFn::GetAttr(
        nested(EndpointRuleConditionFn::AwsParseArn(reference("Bucket"))),
        "region".to_string(),
    ));
    assert!(matches!(minimal.condition_const(&missing), EndpointRuleValue::Unknown));
    let on_string = cond(EndpointRuleConditionFn::GetAttr(text("x"), "a".to_string()));
    assert!(matches!(minimal.condition_const(&on_string), EndpointRuleValue::Invalid));
}

#[test]
fn unmodelled_functions_are_unknown() {
    let f = EndpointRulesFilter::minimal();
    let fns = vec![
        EndpointRuleConditionFn::ParseURL(text("https://x")),
        EndpointRuleConditionFn::UriEncode(text("a b")),
        EndpointRuleConditionFn::AwsPartition(reference("Region")),
        EndpointRuleConditionFn::IsValidHostLabel(text("abc"), false),
        EndpointRuleConditionFn::AwsIsVirtualHostableS3Bucket(reference("Bucket"), false),
    ];
    for function in fns {
        assert!(matches!(f.condition_const(&cond(function)), EndpointRuleValue::Unknown));
    }
}

#[test]
fn evaluate_rule_drops_true_and_keeps_unknown() {
    let f = EndpointRulesFilter::minimal();
    let item = endpoint_item(vec![
        cond(EndpointRuleConditionFn::IsSet(reference("Region"))),
        cond(EndpointRuleConditionFn::IsSet(reference("Key"))),
        cond(EndpointRuleConditionFn::StringEquals(text("a"), EndpointRuleExpr::Boolean(true))),
    ]);
    let e = f.evaluate_rule(&item);
    assert!(!e.always_false);
    assert_eq!(e.unknown_conditions.len(), 2);
    assert!(std::ptr::eq(e.unknown_conditions[0], &item.conditions[1]));
    assert!(std::ptr::eq(e.unknown_conditions[1], &item.conditions[2]));
}

#[test]
fn evaluate_rule_false_kills_item() {
    let f = EndpointRulesFilter::minimal();
    let item = endpoint_item(vec![
        cond(EndpointRuleConditionFn::IsSet(reference("Key"))),
        cond(EndpointRuleConditionFn::BooleanEquals(reference("UseFIPS"), EndpointRuleExpr::Boolean(true))),
        cond(EndpointRuleConditionFn::IsSet(reference("Other"))),
    ]);
    let e = f.evaluate_rule(&item);
    assert!(e.always_false);
}

#[test]
fn assign_scopes_later_conditions_and_children() {
    let f = EndpointRulesFilter::minimal();
    let item = endpoint_item(vec![
        assign("arn", EndpointRuleConditionFn::AwsParseArn(reference("Bucket"))),
        cond(EndpointRuleConditionFn::StringEquals(
            nested(EndpointRuleConditionFn::GetAttr(reference("arn"), "resourceId[0]".to_string())),
            text(""),
        )),
    ]);
    let e = f.evaluate_rule(&item);
    assert!(!e.always_false);
    assert!(e.unknown_conditions.is_empty());
    assert!(matches!(e.child_filter.expr_const(&reference("arn")), EndpointRuleValue::ConstObject(_)));
    // the parent environment is untouched
    assert!(matches!(f.expr_const(&reference("arn")), EndpointRuleValue::Unknown));
    let empty = EndpointRulesFilter::default();
    let e2 = empty.evaluate_rule(&item);
    assert!(!e2.always_false);
    assert_eq!(e2.unknown_conditions.len(), 1);
    assert!(std::ptr::eq(e2.unknown_conditions[0], &item.conditions[1]));
}

#[test]
fn substring_at_largest_bounds() {
    let s = "abc".to_string();
    assert!(matches!(substring(&s, 0, usize::MAX, true), EndpointRuleValue::ConstNull));
    assert!(matches!(substring(&s, 0, usize::MAX, false), EndpointRuleValue::ConstNull));
    assert!(matches!(substring(&s, usize::MAX, usize::MAX, false), EndpointRuleValue::ConstNull));
    assert!(matches!(substring(&s, usize::MAX, 0, false), EndpointRuleValue::Invalid));
    assert_eq!(string_of(&substring(&s, 3, 3, true)), Some(String::new()));
}
