//! The binding environment in which rule items are evaluated.

use crate::value::{Bindings, EndpointRuleValue, Val};
use vstd::prelude::*;

verus! {

/// A binding environment: known values of names, and whether a reference to
/// the `Bucket` parameter is known not to hold an ARN.
#[derive(Debug)]
pub struct EndpointRulesFilter {
    pub values: Bindings,
    pub no_arn_bucket: bool,
}

/// The bindings of the preset for a typical storage-bucket request.
pub open spec fn minimal_values() -> Map<Seq<char>, Val> {
    Map::empty().insert("Region"@, Val::Required).insert("Bucket"@, Val::Required).insert(
        "UseFIPS"@,
        Val::ConstBool(false),
    ).insert("UseDualStack"@, Val::ConstBool(false)).insert(
        "Accelerate"@,
        Val::ConstBool(false),
    ).insert("ForcePathStyle"@, Val::ConstBool(false)).insert(
        "UseArnRegion"@,
        Val::ConstBool(false),
    ).insert("UseGlobalEndpoint"@, Val::ConstBool(false)).insert("Endpoint"@, Val::ConstUnset)
}

impl EndpointRulesFilter {
    pub open spec fn model(&self) -> Map<Seq<char>, Val> {
        self.values.model()
    }

    /// The minimal preset: a typical storage-bucket request, where `Region`
    /// and `Bucket` are supplied, the feature flags are off, no custom
    /// endpoint is set, and the bucket is not an ARN.
    pub fn minimal() -> (r: EndpointRulesFilter)
        ensures
            r.model() == minimal_values(),
            r.no_arn_bucket,
    {
        let mut values = Bindings::new();
        values.insert(String::from_str("Region"), EndpointRuleValue::Required);
        values.insert(String::from_str("Bucket"), EndpointRuleValue::Required);
        values.insert(String::from_str("UseFIPS"), EndpointRuleValue::ConstBool(false));
        values.insert(String::from_str("UseDualStack"), EndpointRuleValue::ConstBool(false));
        values.insert(String::from_str("Accelerate"), EndpointRuleValue::ConstBool(false));
        values.insert(String::from_str("ForcePathStyle"), EndpointRuleValue::ConstBool(false));
        values.insert(String::from_str("UseArnRegion"), EndpointRuleValue::ConstBool(false));
        values.insert(String::from_str("UseGlobalEndpoint"), EndpointRuleValue::ConstBool(false));
        values.insert(String::from_str("Endpoint"), EndpointRuleValue::ConstUnset);
        let no_arn_bucket = true;
        EndpointRulesFilter { values, no_arn_bucket }
    }

    /// A copy of this environment, to be extended for a child scope.
    pub fn deep_clone(&self) -> (r: EndpointRulesFilter)
        ensures
            r.model() == self.model(),
            r.no_arn_bucket == self.no_arn_bucket,
    {
        EndpointRulesFilter { values: self.values.deep_clone(), no_arn_bucket: self.no_arn_bucket }
    }
}

impl Default for EndpointRulesFilter {
    /// The empty preset: no bindings, and no assumption on `Bucket`.
    fn default() -> (r: EndpointRulesFilter)
        ensures
            r.model() == Map::<Seq<char>, Val>::empty(),
            !r.no_arn_bucket,
    {
        EndpointRulesFilter { values: Bindings::new(), no_arn_bucket: false }
    }
}

} // verus!
