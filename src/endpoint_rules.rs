//! The rule language: a rule set is an ordered list of rule items, each a list
//! of conditions guarding an error, an endpoint, or a nested list of items.

use indexmap::IndexMap;
use vstd::prelude::*;

verus! {

/// A rule set: its parameters and its top-level rule items.
#[derive(Debug)]
pub struct EndpointRuleSet {
    pub parameters: IndexMap<String, EndpointRuleSetParam>,
    pub rules: Vec<EndpointRuleItem>,
}

/// A declared parameter of a rule set.
#[derive(Debug)]
pub struct EndpointRuleSetParam {
    pub built_in: Option<EndpointRuleSetParamBuiltIn>,
    pub required: bool,
    pub default: Option<serde_json::Value>,
    pub documentation: String,
    pub type_: EndpointRuleSetParamType,
}

/// The built-in setting that a parameter is bound to.
#[derive(Debug, Clone, Copy, PartialEq, Eq, Structural)]
pub enum EndpointRuleSetParamBuiltIn {
    Region,
    UseDualStack,
    UseFIPS,
    S3Accelerate,
    S3DisableMultiRegionAccessPoints,
    S3ForcePathStyle,
    S3UseArnRegion,
    S3UseGlobalEndpoint,
    S3ControlUseArnRegion,
    StsUseGlobalEndpoint,
    SdkEndpoint,
}

/// The declared type of a parameter.
#[derive(Debug, Clone, Copy, PartialEq, Eq, Structural)]
pub enum EndpointRuleSetParamType {
    Boolean,
    String,
}

/// One node of the rule tree: a guard and an outcome.
#[derive(Debug)]
pub struct EndpointRuleItem {
    pub conditions: Vec<EndpointRuleCondition>,
    pub rule: EndpointRule,
}

/// A built-in function application, optionally binding its result to a name.
#[derive(Debug)]
pub struct EndpointRuleCondition {
    pub assign: Option<String>,
    pub function: EndpointRuleConditionFn,
}

/// The built-in functions of the rule language, with their arguments.
#[derive(Debug)]
pub enum EndpointRuleConditionFn {
    Not(EndpointRuleExpr),
    BooleanEquals(EndpointRuleExpr, EndpointRuleExpr),
    StringEquals(EndpointRuleExpr, EndpointRuleExpr),
    GetAttr(EndpointRuleExpr, String),
    IsSet(EndpointRuleExpr),
    ParseURL(EndpointRuleExpr),
    IsValidHostLabel(EndpointRuleExpr, bool),
    /// The operand, the start and end of the window, and whether the window
    /// is counted from the end of the string.
    Substring(EndpointRuleExpr, usize, usize, bool),
    UriEncode(EndpointRuleExpr),
    AwsPartition(EndpointRuleExpr),
    AwsParseArn(EndpointRuleExpr),
    AwsIsVirtualHostableS3Bucket(EndpointRuleExpr, bool),
}

/// An argument expression.
#[derive(Debug)]
pub enum EndpointRuleExpr {
    Condition(Box<EndpointRuleCondition>),
    Reference { name: String },
    /// A string literal; `{name}` placeholders in it are not interpreted.
    String(String),
    Boolean(bool),
}

/// The outcome of a rule item.
#[derive(Debug)]
pub enum EndpointRule {
    Tree { rules: Vec<EndpointRuleItem> },
    Error { error: String },
    Endpoint { endpoint: Endpoint },
}

/// An endpoint outcome.
#[derive(Debug)]
pub struct Endpoint {
    pub url: EndpointRuleExpr,
    pub properties: EndpointPropertyMap,
    pub headers: IndexMap<String, Vec<String>>,
}

/// The properties of an endpoint outcome.
#[derive(Debug)]
pub struct EndpointPropertyMap {
    pub backend: Option<String>,
    pub auth_schemes: Vec<EndpointAuthScheme>,
}

/// A signing scheme of an endpoint.
#[derive(Debug)]
pub enum EndpointAuthScheme {
    Sigv4 { signing_name: String, signing_region: String, disable_double_encoding: bool },
    Sigv4a {
        signing_name: String,
        signing_region_set: Vec<String>,
        disable_double_encoding: bool,
    },
    Sigv4S3Express { signing_name: String, signing_region: String, disable_double_encoding: bool },
}

} // verus!
