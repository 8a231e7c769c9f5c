//! Partial evaluation of conditions and rule items under an environment.
//!
//! An operator applied to ill-typed operands yields `Invalid`. In a guard,
//! `Invalid` is treated as `Unknown`: the condition is kept as unresolved,
//! so an unusual rule set is still rendered in full rather than rejected.

use crate::endpoint_rules::{
    EndpointRuleCondition, EndpointRuleConditionFn, EndpointRuleExpr, EndpointRuleItem,
};
use crate::filter::EndpointRulesFilter;
use crate::value::{is_set_spec, Bindings, EndpointRuleValue, Val};
use vstd::prelude::*;
use vstd::string::*;
use vstd::utf8::is_ascii_chars;

verus! {

/// The attribute that a parsed ARN is known to hold under the preset that
/// rules ARNs out.
pub open spec fn arn_resource_attr() -> Seq<char> {
    "resourceId[0]"@
}

/// `substring(s, start, end, from_end)` over ASCII strings.
pub open spec fn substring_spec(s: Seq<char>, start: usize, end: usize, from_end: bool) -> Val {
    if !is_ascii_chars(s) {
        Val::ConstNull
    } else if end < start {
        Val::Invalid
    } else {
        let lo: int = if from_end {
            s.len() - end
        } else {
            start as int
        };
        let hi: int = lo + (end - start);
        if lo < 0 || hi > s.len() {
            Val::ConstNull
        } else {
            Val::ConstString(s.subrange(lo, hi))
        }
    }
}

/// The value of an expression under bindings `env`.
pub open spec fn expr_spec(env: Map<Seq<char>, Val>, no_arn_bucket: bool, e: EndpointRuleExpr) -> Val
    decreases e,
{
    match e {
        EndpointRuleExpr::Boolean(b) => Val::ConstBool(b),
        EndpointRuleExpr::String(s) => Val::ConstString(s@),
        EndpointRuleExpr::Condition(c) => condition_spec(env, no_arn_bucket, *c),
        EndpointRuleExpr::Reference { name } => if env.contains_key(name@) {
            env[name@]
        } else {
            Val::Unknown
        },
    }
}

/// The value of a condition's function under bindings `env`.
pub open spec fn condition_spec(
    env: Map<Seq<char>, Val>,
    no_arn_bucket: bool,
    c: EndpointRuleCondition,
) -> Val
    decreases c,
{
    match c.function {
        EndpointRuleConditionFn::Not(e) => match expr_spec(env, no_arn_bucket, e) {
            Val::Unknown => Val::Unknown,
            Val::ConstBool(b) => Val::ConstBool(!b),
            _ => Val::Invalid,
        },
        EndpointRuleConditionFn::BooleanEquals(l, r) => {
            let lv = expr_spec(env, no_arn_bucket, l);
            let rv = expr_spec(env, no_arn_bucket, r);
            if lv is Unknown || rv is Unknown {
                Val::Unknown
            } else if lv is ConstBool && rv is ConstBool {
                Val::ConstBool(lv->ConstBool_0 == rv->ConstBool_0)
            } else {
                Val::Invalid
            }
        },
        EndpointRuleConditionFn::StringEquals(l, r) => {
            let lv = expr_spec(env, no_arn_bucket, l);
            let rv = expr_spec(env, no_arn_bucket, r);
            if lv is Unknown || rv is Unknown {
                Val::Unknown
            } else if lv is ConstString && rv is ConstString {
                Val::ConstBool(lv->ConstString_0 == rv->ConstString_0)
            } else {
                Val::Invalid
            }
        },
        EndpointRuleConditionFn::IsSet(e) => is_set_spec(expr_spec(env, no_arn_bucket, e)),
        EndpointRuleConditionFn::Substring(e, start, end, from_end) => match expr_spec(
            env,
            no_arn_bucket,
            e,
        ) {
            Val::Unknown => Val::Unknown,
            Val::ConstString(s) => substring_spec(s, start, end, from_end),
            _ => Val::Invalid,
        },
        EndpointRuleConditionFn::GetAttr(e, name) => match expr_spec(env, no_arn_bucket, e) {
            Val::Unknown => Val::Unknown,
            Val::ConstObject(m) => if m.contains_key(name@) {
                m[name@]
            } else {
                Val::Unknown
            },
            _ => Val::Invalid,
        },
        EndpointRuleConditionFn::AwsParseArn(e) => if no_arn_bucket && (e matches EndpointRuleExpr::Reference { name } && name@ == "Bucket"@) {
            Val::ConstObject(Map::empty().insert(arn_resource_attr(), Val::ConstString(Seq::empty())))
        } else {
            Val::Unknown
        },
        EndpointRuleConditionFn::ParseURL(..)
        | EndpointRuleConditionFn::IsValidHostLabel(..)
        | EndpointRuleConditionFn::UriEncode(..)
        | EndpointRuleConditionFn::AwsPartition(..)
        | EndpointRuleConditionFn::AwsIsVirtualHostableS3Bucket(..) => Val::Unknown,
    }
}

/// The state after the first `n` conditions of an item: whether the item is
/// dead, the conditions left unresolved, and the scope built so far.
pub open spec fn scan_conditions(
    env: Map<Seq<char>, Val>,
    no_arn_bucket: bool,
    conds: Seq<EndpointRuleCondition>,
) -> (bool, Seq<EndpointRuleCondition>, Map<Seq<char>, Val>)
    decreases conds.len(),
{
    if conds.len() == 0 {
        (false, Seq::empty(), env)
    } else {
        let (dead, unresolved, scope) = scan_conditions(env, no_arn_bucket, conds.drop_last());
        let c = conds.last();
        let v = condition_spec(scope, no_arn_bucket, c);
        if dead {
            (dead, unresolved, scope)
        } else if c.assign is Some {
            (false, unresolved, scope.insert(c.assign->0@, v))
        } else if v == Val::ConstBool(true) {
            (false, unresolved, scope)
        } else if v == Val::ConstBool(false) {
            (true, unresolved, scope)
        } else {
            (false, unresolved.push(c), scope)
        }
    }
}

/// The conditions that a list of references points to.
pub open spec fn derefs(s: Seq<&EndpointRuleCondition>) -> Seq<EndpointRuleCondition> {
    s.map_values(|c: &EndpointRuleCondition| *c)
}

/// What evaluating a rule item found.
#[derive(Debug)]
pub struct EndpointRuleEvaluation<'rule> {
    /// Some condition is proven false: the item can never apply.
    pub always_false: bool,
    /// The conditions that could not be decided, in declared order.
    pub unknown_conditions: Vec<&'rule EndpointRuleCondition>,
    /// The scope for the item's nested rules.
    pub child_filter: EndpointRulesFilter,
}

impl EndpointRulesFilter {
    /// The value of an expression in this environment.
    pub fn expr_const(&self, expr: &EndpointRuleExpr) -> (r: EndpointRuleValue)
        ensures
            r.model() == expr_spec(self.model(), self.no_arn_bucket, *expr),
        decreases expr,
    {
        match expr {
            EndpointRuleExpr::Boolean(s) => EndpointRuleValue::ConstBool(*s),
            EndpointRuleExpr::String(s) => EndpointRuleValue::ConstString(s.clone()),
            EndpointRuleExpr::Condition(cond) => self.condition_const(cond),
            EndpointRuleExpr::Reference { name } => match self.values.get(name) {
                Some(v) => v.deep_clone(),
                None => EndpointRuleValue::Unknown,
            },
        }
    }

    /// The value of a condition's function in this environment.
    pub fn condition_const(&self, condition: &EndpointRuleCondition) -> (r: EndpointRuleValue)
        ensures
            r.model() == condition_spec(self.model(), self.no_arn_bucket, *condition),
        decreases condition,
    {
        match &condition.function {
            EndpointRuleConditionFn::Not(e) => match self.expr_const(e) {
                EndpointRuleValue::Unknown => EndpointRuleValue::Unknown,
                EndpointRuleValue::ConstBool(value) => EndpointRuleValue::ConstBool(!value),
                _ => EndpointRuleValue::Invalid,
            },
            EndpointRuleConditionFn::BooleanEquals(l, r) => {
                let lv = self.expr_const(l);
                let rv = self.expr_const(r);
                match (lv, rv) {
                    (EndpointRuleValue::Unknown, _) => EndpointRuleValue::Unknown,
                    (_, EndpointRuleValue::Unknown) => EndpointRuleValue::Unknown,
                    (EndpointRuleValue::ConstBool(l), EndpointRuleValue::ConstBool(r)) => {
                        EndpointRuleValue::ConstBool(l == r)
                    },
                    _ => EndpointRuleValue::Invalid,
                }
            },
            EndpointRuleConditionFn::StringEquals(l, r) => {
                let lv = self.expr_const(l);
                let rv = self.expr_const(r);
                match (lv, rv) {
                    (EndpointRuleValue::Unknown, _) => EndpointRuleValue::Unknown,
                    (_, EndpointRuleValue::Unknown) => EndpointRuleValue::Unknown,
                    (EndpointRuleValue::ConstString(l), EndpointRuleValue::ConstString(r)) => {
                        EndpointRuleValue::ConstBool(l == r)
                    },
                    _ => EndpointRuleValue::Invalid,
                }
            },
            EndpointRuleConditionFn::IsSet(e) => self.expr_const(e).is_set(),
            EndpointRuleConditionFn::Substring(expr, start, end, from_end) => {
                match self.expr_const(expr) {
                    EndpointRuleValue::Unknown => EndpointRuleValue::Unknown,
                    EndpointRuleValue::ConstString(value) => substring(&value, *start, *end, *from_end),
                    _ => EndpointRuleValue::Invalid,
                }
            },
            EndpointRuleConditionFn::AwsParseArn(e) => {
                if !self.no_arn_bucket {
                    return EndpointRuleValue::Unknown;
                }
                match e {
                    EndpointRuleExpr::Reference { name } => {
                        if *name == String::from_str("Bucket") {
                            let mut map = Bindings::new();
                            map.insert(
                                String::from_str("resourceId[0]"),
                                EndpointRuleValue::ConstString(String::new()),
                            );
                            EndpointRuleValue::ConstObject(map)
                        } else {
                            EndpointRuleValue::Unknown
                        }
                    },
                    _ => EndpointRuleValue::Unknown,
                }
            },
            EndpointRuleConditionFn::GetAttr(e, name) => match self.expr_const(e) {
                EndpointRuleValue::Unknown => EndpointRuleValue::Unknown,
                EndpointRuleValue::ConstObject(map) => match map.get(name) {
                    Some(v) => v.deep_clone(),
                    None => EndpointRuleValue::Unknown,
                },
                _ => EndpointRuleValue::Invalid,
            },
            EndpointRuleConditionFn::ParseURL(..)
            | EndpointRuleConditionFn::IsValidHostLabel(..)
            | EndpointRuleConditionFn::UriEncode(..)
            | EndpointRuleConditionFn::AwsPartition(..)
            | EndpointRuleConditionFn::AwsIsVirtualHostableS3Bucket(..) => {
                EndpointRuleValue::Unknown
            },
        }
    }
}

impl EndpointRulesFilter {
    /// Evaluates a rule item's conditions left to right in a scope that each
    /// `assign` extends: an assigning condition only binds its name, a
    /// condition proven true is dropped, one proven false makes the item dead
    /// (and ends the scan), and any other is kept as unresolved.
    pub fn evaluate_rule<'rule>(&self, rule: &'rule EndpointRuleItem) -> (r: EndpointRuleEvaluation<'rule>)
        ensures
            r.always_false == scan_conditions(self.model(), self.no_arn_bucket, rule.conditions@).0,
            derefs(r.unknown_conditions@) == scan_conditions(self.model(), self.no_arn_bucket, rule.conditions@).1,
            r.child_filter.model() == scan_conditions(self.model(), self.no_arn_bucket, rule.conditions@).2,
            r.child_filter.no_arn_bucket == self.no_arn_bucket,
    {
        let mut result = EndpointRuleEvaluation {
            always_false: false,
            unknown_conditions: Vec::new(),
            child_filter: self.deep_clone(),
        };
        let ghost env = self.model();
        let ghost conds = rule.conditions@;
        proof {
            assert(derefs(result.unknown_conditions@) =~= Seq::<EndpointRuleCondition>::empty());
            assert(conds.subrange(0, 0) =~= Seq::<EndpointRuleCondition>::empty());
        }
        let n = rule.conditions.len();
        let mut i: usize = 0;
        while i < n && !result.always_false
            invariant
                n == conds.len(),
                conds == rule.conditions@,
                i <= n,
                result.child_filter.no_arn_bucket == self.no_arn_bucket,
                scan_conditions(env, self.no_arn_bucket, conds.subrange(0, i as int)) == (
                    result.always_false,
                    derefs(result.unknown_conditions@),
                    result.child_filter.model(),
                ),
            decreases n - i,
        {
            let condition = &rule.conditions[i];
            proof {
                assert(conds.subrange(0, i + 1).drop_last() =~= conds.subrange(0, i as int));
                assert(conds.subrange(0, i + 1).last() == conds[i as int]);
            }
            let value = result.child_filter.condition_const(condition);
            match &condition.assign {
                Some(name) => {
                    result.child_filter.values.insert(name.clone(), value);
                },
                None => match value {
                    EndpointRuleValue::ConstBool(true) => {},
                    EndpointRuleValue::ConstBool(false) => {
                        result.always_false = true;
                    },
                    _ => {
                        let ghost before = result.unknown_conditions@;
                        result.unknown_conditions.push(condition);
                        proof {
                            assert(derefs(result.unknown_conditions@) =~= derefs(before).push(
                                *condition,
                            ));
                        }
                    },
                },
            }
            i += 1;
        }
        proof {
            if result.always_false {
                crate::laws::lemma_scan_dead_stable(env, self.no_arn_bucket, conds, i as int);
            } else {
                assert(conds.subrange(0, n as int) =~= conds);
            }
        }
        result
    }

    /// Whether a condition is proven true, so that it can be left out.
    pub fn exclude_condition(&self, condition: &EndpointRuleCondition) -> (r: bool)
        ensures
            r == (condition_spec(self.model(), self.no_arn_bucket, *condition) == Val::ConstBool(true)),
    {
        matches!(self.condition_const(condition), EndpointRuleValue::ConstBool(true))
    }
}

/// `substring(value, start, end, from_end)`: the window of `end - start`
/// characters that starts at `start`, or at `end` characters before the end of
/// the string when `from_end` holds; null for a non-ASCII string or a window
/// that does not fit, invalid when `end < start`.
pub fn substring(value: &String, start: usize, end: usize, from_end: bool) -> (r: EndpointRuleValue)
    ensures
        r.model() == substring_spec(value@, start, end, from_end),
{
    if !value.is_ascii() {
        return EndpointRuleValue::ConstNull;
    }
    if end < start {
        return EndpointRuleValue::Invalid;
    }
    let n = value.as_str().unicode_len();
    let len = end - start;
    if from_end && n < end {
        return EndpointRuleValue::ConstNull;
    }
    let lo = if from_end { n - end } else { start };
    if lo > n || n - lo < len {
        EndpointRuleValue::ConstNull
    } else {
        let hi = lo + len;
        EndpointRuleValue::ConstString(value.as_str().substring_ascii(lo, hi).to_owned())
    }
}

} // verus!
