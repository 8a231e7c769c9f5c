//! Smithy traits: the metadata attached to shapes, members and services.

use crate::endpoint_rules::EndpointRuleSet;
use crate::shape_id::ShapeId;
use indexmap::IndexMap;
use vstd::prelude::*;

verus! {

#[derive(Debug)]
pub struct ArnReferenceTrait {
    pub resource: Option<String>,
    pub service: Option<String>,
    pub type_: Option<String>,
}

#[derive(Debug)]
pub enum DataTrait {
    Account,
    Tagging,
}

#[derive(Debug)]
pub enum ErrorTrait {
    Client,
    Server,
}

#[derive(Debug)]
pub struct ClientEndpointDiscoveryTrait {
    pub operation: String,
    pub error: String,
}

#[derive(Debug)]
pub struct ControlPlaneTrait {}

#[derive(Debug)]
pub struct DataPlaneTrait {}

#[derive(Debug)]
pub struct ServiceInfoTrait {
    pub sdk_id: String,
    pub arn_namespace: Option<String>,
    pub cloud_formation_name: Option<String>,
    pub cloud_trail_event_source: Option<String>,
    pub endpoint_prefix: Option<String>,
}

#[derive(Debug)]
pub struct TagEnabledTrait {}

#[derive(Debug)]
pub struct Sigv4Trait {
    pub name: String,
}

#[derive(Debug)]
pub struct IamConditionKeyDef {
    pub type_: String,
    pub documentation: String,
    pub external_documentation: Option<String>,
}

#[derive(Debug)]
pub struct AwsJson1_0Trait {}

#[derive(Debug)]
pub struct AwsJson1_1Trait {
    pub http: Vec<HttpVersion>,
    pub event_stream_http: Vec<HttpVersion>,
}

#[derive(Debug)]
pub enum HttpVersion {
    Http1_1,
    H2,
}

#[derive(Debug)]
pub struct AwsQueryTrait {}

#[derive(Debug)]
pub struct AwsQueryCompatibleTrait {}

#[derive(Debug)]
pub struct AwsQueryErrorTrait {
    pub code: String,
    pub http_response_code: u32,
}

#[derive(Debug)]
pub struct Ec2QueryTrait {}

#[derive(Debug)]
pub struct RestJson1Trait {
    pub http: Vec<HttpVersion>,
    pub event_stream_http: Vec<HttpVersion>,
}

#[derive(Debug)]
pub struct RestXmlTrait {
    pub no_error_wrapping: bool,
}

#[derive(Debug)]
pub struct DeprecatedTrait {
    pub message: Option<String>,
    pub since: Option<String>,
}

#[derive(Debug)]
pub struct CorsTrait {
    pub additional_allowed_headers: Vec<String>,
    pub additional_exposed_headers: Vec<String>,
    pub max_age: Option<u32>,
    pub origin: Option<String>,
}

#[derive(Debug)]
pub struct HttpBearerAuthTrait {}

#[derive(Debug)]
pub struct UnstableTrait {}

#[derive(Debug)]
pub struct XmlAttributeTrait {}

#[derive(Debug)]
pub struct XmlNamespaceTrait {
    pub uri: String,
    pub prefix: Option<String>,
}

#[derive(Debug)]
pub enum EndpointRuleSetTrait {
    V1_0(EndpointRuleSet),
}

#[derive(Debug)]
pub struct EndpointTestsTrait {
}

#[derive(Debug)]
pub struct ClientContextParamDef {
    pub documentation: String,
    pub type_: String,
}

#[derive(Debug)]
pub struct ClientDiscoveredEndpointTrait {
    pub required: Option<bool>,
}

#[derive(Debug)]
pub struct HttpChecksumTrait {
    pub request_algorithm_member: Option<String>,
    pub request_checksum_required: Option<bool>,
    pub request_validation_mode_member: Option<String>,
    pub response_algorithms: Option<Vec<String>>,
}

#[derive(Debug)]
pub struct EndpointTrait {
    pub host_prefix: String,
}

#[derive(Debug)]
pub struct OptionalAuthTrait {}

#[derive(Debug)]
pub struct HttpTrait {
    pub uri: String,
    pub method: String,
    pub code: Option<u32>,
}

#[derive(Debug)]
pub struct HttpChecksumRequiredTrait {}

#[derive(Debug)]
pub struct IdempotentTrait {}

#[derive(Debug)]
pub struct ReadonlyTrait {}

#[derive(Debug)]
pub struct PaginatedTrait {
    pub input_token: Option<String>,
    pub output_token: Option<String>,
    pub page_size: Option<String>,
    pub items: Option<String>,
    pub max_results: Option<String>,
}

#[derive(Debug)]
pub struct WaitableTrait {
}

#[derive(Debug)]
pub struct UnsignedPayloadTrait {}

#[derive(Debug)]
pub struct S3UnwrappedXmlOutputTrait {}

#[derive(Debug)]
pub struct StaticParam {
    pub value: serde_json::Value,
}

#[derive(Debug)]
pub struct Example {
    pub title: String,
    pub documentation: Option<String>,
    pub input: Option<serde_json::Value>,
    pub output: Option<serde_json::Value>,
}

#[derive(Debug)]
pub struct ArnTrait {
    pub template: String,
    pub absolute: bool,
    pub no_account: bool,
    pub no_region: bool,
}

#[derive(Debug)]
pub struct TaggableTrait {
    pub property: String,
}

#[derive(Debug)]
pub struct CloudformationResourceTrait {
    pub name: Option<String>,
    pub additional_schemas: Vec<String>,
}

#[derive(Debug)]
pub struct IamDisableConditionKeyInferenceTrait {}

#[derive(Debug)]
pub struct IamResourceTrait {
    pub name: String,
}

#[derive(Debug)]
pub struct NoReplaceTrait {}

#[derive(Debug)]
pub struct CloudformationAdditionalIdentifierTrait {}

#[derive(Debug)]
pub struct CloudformationExcludePropertyTrait {}

#[derive(Debug)]
pub enum CloudformationMutabilityTrait {
    CreateAndRead,
    Full,
    Read,
    Write,
}

#[derive(Debug)]
pub struct AddedDefaultTrait {}

#[derive(Debug)]
pub struct ClientOptionalTrait {}

#[derive(Debug)]
pub struct InputTrait {}

#[derive(Debug)]
pub struct OutputTrait {}

#[derive(Debug)]
pub struct RetryableTrait {
    pub throttling: bool,
}

#[derive(Debug)]
pub struct EventPayloadTrait {}

#[derive(Debug)]
pub struct HostLabelTrait {}

#[derive(Debug)]
pub struct HttpLabelTrait {}

#[derive(Debug)]
pub struct HttpQueryParamsTrait {}

#[derive(Debug)]
pub struct HttpResponseCodeTrait {}

#[derive(Debug)]
pub struct IdempotencyTokenTrait {}

#[derive(Debug)]
pub struct RequiresLengthTrait {}

#[derive(Debug)]
pub struct SensitiveTrait {}

#[derive(Debug)]
pub struct PropertyTrait {
    pub name: String,
}

#[derive(Debug)]
pub struct RangeTrait {
    pub min: Option<serde_json::Value>,
    pub max: Option<serde_json::Value>,
}

#[derive(Debug)]
pub struct RecommendedTrait {}

#[derive(Debug)]
pub struct LengthTrait {
    pub min: Option<u32>,
    pub max: Option<u32>,
}

#[derive(Debug)]
pub struct NestedPropertiesTrait {}

#[derive(Debug)]
pub struct NotPropertyTrait {}

#[derive(Debug)]
pub struct HttpPayloadTrait {}

#[derive(Debug)]
pub struct RequiredTrait {}

#[derive(Debug)]
pub struct XmlFlattenedTrait {}

#[derive(Debug)]
pub enum TimestampFormatTrait {
    EpochSeconds,
    DateTime,
    HttpDate,
}

#[derive(Debug)]
pub struct ContextParamTrait {
    pub name: String,
}

#[derive(Debug)]
pub struct Reference {
    pub resource: ShapeId,
    pub ids: IndexMap<String, String>,
}

#[derive(Debug)]
pub struct UniqueItemsTrait {}

#[derive(Debug)]
pub struct SparseTrait {}

#[derive(Debug)]
pub struct StreamingTrait {}

} // verus!
