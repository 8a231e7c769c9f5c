//! Types of outside crates that the library's data carries.

use vstd::prelude::*;

verus! {

/// `indexmap::IndexMap`, an insertion-ordered hash map, held opaquely.
#[verifier::external_type_specification]
#[verifier::external_body]
#[verifier::reject_recursive_types(K)]
#[verifier::reject_recursive_types(V)]
#[verifier::reject_recursive_types(S)]
pub struct ExIndexMap<K, V, S>(indexmap::IndexMap<K, V, S>);

/// `serde_json::Value`, an arbitrary JSON document, held opaquely.
#[verifier::external_type_specification]
#[verifier::external_body]
pub struct ExJsonValue(serde_json::Value);

} // verus!
