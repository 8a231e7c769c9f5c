//! Smithy shapes and the traits that each kind of shape may carry.

use crate::model::ShapeRef;
use crate::shape_id::ShapeId;
use crate::traits::{
    AddedDefaultTrait,
    SparseTrait,
    StreamingTrait,
    UniqueItemsTrait,
    ArnReferenceTrait,
    ArnTrait,
    AwsJson1_0Trait,
    AwsJson1_1Trait,
    AwsQueryCompatibleTrait,
    AwsQueryErrorTrait,
    AwsQueryTrait,
    ClientContextParamDef,
    ClientDiscoveredEndpointTrait,
    ClientEndpointDiscoveryTrait,
    ClientOptionalTrait,
    CloudformationAdditionalIdentifierTrait,
    CloudformationExcludePropertyTrait,
    CloudformationMutabilityTrait,
    CloudformationResourceTrait,
    ContextParamTrait,
    ControlPlaneTrait,
    CorsTrait,
    DataPlaneTrait,
    DataTrait,
    DeprecatedTrait,
    Ec2QueryTrait,
    EndpointRuleSetTrait,
    EndpointTestsTrait,
    EndpointTrait,
    ErrorTrait,
    EventPayloadTrait,
    Example,
    HostLabelTrait,
    HttpBearerAuthTrait,
    HttpChecksumRequiredTrait,
    HttpChecksumTrait,
    HttpLabelTrait,
    HttpPayloadTrait,
    HttpQueryParamsTrait,
    HttpResponseCodeTrait,
    HttpTrait,
    IamConditionKeyDef,
    IamDisableConditionKeyInferenceTrait,
    IamResourceTrait,
    IdempotencyTokenTrait,
    IdempotentTrait,
    InputTrait,
    LengthTrait,
    NestedPropertiesTrait,
    NoReplaceTrait,
    NotPropertyTrait,
    OptionalAuthTrait,
    OutputTrait,
    PaginatedTrait,
    PropertyTrait,
    RangeTrait,
    ReadonlyTrait,
    RecommendedTrait,
    Reference,
    RequiredTrait,
    RequiresLengthTrait,
    RestJson1Trait,
    RestXmlTrait,
    RetryableTrait,
    S3UnwrappedXmlOutputTrait,
    SensitiveTrait,
    ServiceInfoTrait,
    Sigv4Trait,
    StaticParam,
    TagEnabledTrait,
    TaggableTrait,
    TimestampFormatTrait,
    UnsignedPayloadTrait,
    UnstableTrait,
    WaitableTrait,
    XmlAttributeTrait,
    XmlFlattenedTrait,
    XmlNamespaceTrait,
};
use indexmap::IndexMap;
use vstd::prelude::*;

verus! {

#[derive(Debug)]
pub struct BooleanShape {
    pub traits: BooleanTraits,
}

#[derive(Debug, Default)]
pub struct BooleanTraits {
    pub default: Option<bool>,
    pub documentation: Option<String>,
    pub sensitive: Option<SensitiveTrait>,
}

#[derive(Debug)]
pub struct IntegerShape {
    pub traits: IntegerTraits,
}

#[derive(Debug, Default)]
pub struct IntegerTraits {
    pub default: Option<i32>,
    pub deprecated: Option<DeprecatedTrait>,
    pub documentation: Option<String>,
    pub range: Option<RangeTrait>,
    pub sensitive: Option<SensitiveTrait>,
}

#[derive(Debug)]
pub struct LongShape {
    pub traits: LongTraits,
}

#[derive(Debug, Default)]
pub struct LongTraits {
    pub default: Option<i64>,
    pub documentation: Option<String>,
    pub range: Option<RangeTrait>,
    pub sensitive: Option<SensitiveTrait>,
}

#[derive(Debug)]
pub struct ServiceShape {
    pub version: String,
    pub operations: Vec<ShapeRef>,
    pub resources: Vec<ShapeRef>,
    pub errors: Vec<ShapeRef>,
    pub traits: ServiceTraits,
}

#[derive(Debug)]
pub struct StringShape {
    pub traits: StringTraits,
}

#[derive(Debug, Default)]
pub struct StringTraits {
    pub arn_reference: Option<ArnReferenceTrait>,
    pub data: Option<DataTrait>,

    pub deprecated: Option<DeprecatedTrait>,
    pub documentation: Option<String>,
    pub external_documentation: Option<IndexMap<String, String>>,
    pub enum_: Option<Vec<StringEnumItem>>,
    pub length: Option<LengthTrait>,
    pub media_type: Option<String>,
    pub pattern: Option<String>,
    pub sensitive: Option<SensitiveTrait>,
}

#[derive(Debug)]
pub struct BlobShape {
    pub traits: BlobTraits,
}

#[derive(Debug, Default)]
pub struct BlobTraits {
    pub documentation: Option<String>,
    pub length: Option<LengthTrait>,
    pub media_type: Option<String>,
    pub requires_length: Option<RequiresLengthTrait>,
    pub sensitive: Option<SensitiveTrait>,
    pub streaming: Option<StreamingTrait>,
}

#[derive(Debug)]
pub struct TimestampShape {
    pub traits: TimestampTraits,
}

#[derive(Debug, Default)]
pub struct TimestampTraits {
    pub documentation: Option<String>,
    pub timestamp_format: Option<TimestampFormatTrait>,
    pub sensitive: Option<SensitiveTrait>,
}

#[derive(Debug)]
pub struct DocumentShape {
    pub traits: DocumentTraits,
}

#[derive(Debug, Default)]
pub struct DocumentTraits {
    pub documentation: Option<String>,
}

#[derive(Debug)]
pub struct StringEnumItem {
    pub value: String,
    pub name: Option<String>,
    pub documentation: Option<String>,
}

#[derive(Debug)]
pub struct ServiceTraits {
    pub client_endpoint_discovery: Option<ClientEndpointDiscoveryTrait>,
    pub control_plane: Option<ControlPlaneTrait>,
    pub data_plane: Option<DataPlaneTrait>,
    pub service: ServiceInfoTrait,
    pub tag_enabled: Option<TagEnabledTrait>,

    pub auth_sigv4: Option<Sigv4Trait>,

    pub iam_define_condition_keys: IndexMap<String, IamConditionKeyDef>,
    pub iam_supported_principal_types: Vec<String>,

    pub protocols_aws_json_1_0: Option<AwsJson1_0Trait>,
    pub protocols_aws_json_1_1: Option<AwsJson1_1Trait>,
    pub protocols_aws_query: Option<AwsQueryTrait>,
    pub protocols_aws_query_compatible: Option<AwsQueryCompatibleTrait>,
    pub protocols_aws_query_error: Option<AwsQueryErrorTrait>,
    pub protocols_ec2_query: Option<Ec2QueryTrait>,
    pub protocols_rest_json_1: Option<RestJson1Trait>,
    pub protocols_rest_xml: Option<RestXmlTrait>,

    pub deprecated: Option<DeprecatedTrait>,
    pub cors: Option<CorsTrait>,
    pub documentation: Option<String>,
    pub external_documentation: Option<IndexMap<String, String>>,
    pub http_bearer_auth: Option<HttpBearerAuthTrait>,
    pub paginated: Option<PaginatedTrait>,
    pub suppress: Vec<String>,
    pub title: String,
    pub unstable: Option<UnstableTrait>,
    pub xml_namespace: Option<XmlNamespaceTrait>,

    pub client_context_params: Option<IndexMap<String, ClientContextParamDef>>,
    pub endpoint_rule_set: EndpointRuleSetTrait,
    pub endpoint_tests: EndpointTestsTrait,
}

#[derive(Debug)]
pub struct OperationShape {
    pub input: ShapeRef,
    pub output: ShapeRef,
    pub errors: Vec<ShapeRef>,
    pub traits: OperationTraits,
}

#[derive(Debug)]
pub struct OperationTraits {
    pub auth_unsigned_payload: Option<UnsignedPayloadTrait>,

    pub customizations_s3_unwrapped_xml_output: Option<S3UnwrappedXmlOutputTrait>,

    pub control_plane: Option<ControlPlaneTrait>,
    pub data_plane: Option<DataPlaneTrait>,

    pub client_discovered_endpoint: Option<ClientDiscoveredEndpointTrait>,

    pub iam_action_name: Option<String>,
    pub iam_action_permission_description: Option<String>,
    pub iam_condition_keys: Vec<String>,
    pub iam_required_actions: Vec<String>,

    pub http_checksum: Option<HttpChecksumTrait>,

    pub auth: Vec<String>,
    pub deprecated: Option<DeprecatedTrait>,
    pub documentation: Option<String>,
    pub external_documentation: Option<IndexMap<String, String>>,
    pub endpoint: Option<EndpointTrait>,
    pub examples: Vec<Example>,
    pub optional_auth: Option<OptionalAuthTrait>,
    pub http: Option<HttpTrait>,
    pub http_checksum_required: Option<HttpChecksumRequiredTrait>,
    pub idempotent: Option<IdempotentTrait>,
    pub readonly: Option<ReadonlyTrait>,
    pub suppress: Vec<String>,
    pub tags: Vec<String>,
    pub paginated: Option<PaginatedTrait>,

    pub static_context_params: Option<IndexMap<String, StaticParam>>,

    pub waitable: Option<WaitableTrait>,
}

#[derive(Debug)]
pub struct ResourceShape {
    pub identifiers: Option<IndexMap<String, ShapeRef>>,
    pub put: Option<ShapeRef>,
    pub create: Option<ShapeRef>,
    pub read: Option<ShapeRef>,
    pub update: Option<ShapeRef>,
    pub delete: Option<ShapeRef>,
    pub list: Option<ShapeRef>,
    pub collection_operations: Vec<ShapeRef>,
    pub operations: Vec<ShapeRef>,
    pub resources: Vec<ShapeRef>,
    pub properties: IndexMap<String, ShapeRef>,
    pub traits: ResourceTraits,
}

#[derive(Debug, Default)]
pub struct ResourceTraits {
    pub arn: Option<ArnTrait>,
    pub control_plane: Option<ControlPlaneTrait>,
    pub data_plane: Option<DataPlaneTrait>,
    pub taggable: Option<TaggableTrait>,

    pub cloudformation_cfn_resource: Option<CloudformationResourceTrait>,

    pub iam_condition_keys: Vec<String>,
    pub iam_disable_condition_key_inference: Option<IamDisableConditionKeyInferenceTrait>,
    pub iam_resource: Option<IamResourceTrait>,

    pub documentation: Option<String>,
    pub external_documentation: Option<IndexMap<String, String>>,
    pub suppress: Vec<String>,
    pub no_replace: Option<NoReplaceTrait>,
    pub unstable: Option<UnstableTrait>,
}

#[derive(Debug)]
pub struct StructureShape {
    pub members: IndexMap<String, Member>,
    pub traits: StructureTraits,
}

#[derive(Debug, Default)]
pub struct StructureTraits {
    pub protocols_aws_query_error: Option<AwsQueryErrorTrait>,

    pub data: Option<DataTrait>,

    pub deprecated: Option<DeprecatedTrait>,
    pub documentation: Option<String>,
    pub external_documentation: Option<IndexMap<String, String>>,
    pub error: Option<ErrorTrait>,
    pub input: Option<InputTrait>,
    pub output: Option<OutputTrait>,
    pub http_error: Option<u32>,
    pub retryable: Option<RetryableTrait>,
    pub references: Vec<Reference>,
    pub sensitive: Option<SensitiveTrait>,
    pub xml_name: Option<String>,
}

#[derive(Debug)]
pub struct Member {
    pub target: ShapeId,
    pub traits: MemberTraits,
}

#[derive(Debug, Default)]
pub struct MemberTraits {
    pub cloudformation_cfn_additional_identifier: Option<CloudformationAdditionalIdentifierTrait>,
    pub cloudformation_exclude_property: Option<CloudformationExcludePropertyTrait>,
    pub cloudformation_mutability: Option<CloudformationMutabilityTrait>,

    pub ec2_query_name: Option<String>,

    pub added_default: Option<AddedDefaultTrait>,
    pub client_optional: Option<ClientOptionalTrait>,
    pub default: Option<serde_json::Value>,
    pub deprecated: Option<DeprecatedTrait>,
    pub documentation: Option<String>,
    pub external_documentation: Option<IndexMap<String, String>>,
    pub event_payload: Option<EventPayloadTrait>,
    pub host_label: Option<HostLabelTrait>,
    pub http_label: Option<HttpLabelTrait>,
    pub http_header: Option<String>,
    pub http_prefix_headers: Option<String>,
    pub http_payload: Option<HttpPayloadTrait>,
    pub http_query: Option<String>,
    pub http_query_params: Option<HttpQueryParamsTrait>,
    pub http_response_code: Option<HttpResponseCodeTrait>,
    pub idempotency_token: Option<IdempotencyTokenTrait>,
    pub json_name: Option<String>,
    pub length: Option<LengthTrait>,
    pub nested_properties: Option<NestedPropertiesTrait>,
    pub not_property: Option<NotPropertyTrait>,
    pub pattern: Option<String>,
    pub property: Option<PropertyTrait>,
    pub range: Option<RangeTrait>,
    pub recommended: Option<RecommendedTrait>,
    pub resource_identifier: Option<String>,
    pub required: Option<RequiredTrait>,
    pub suppress: Vec<String>,
    pub tags: Vec<String>,
    pub timestamp_format: Option<TimestampFormatTrait>,
    pub unstable: Option<UnstableTrait>,
    pub xml_attribute: Option<XmlAttributeTrait>,
    pub xml_namespace: Option<XmlNamespaceTrait>,
    pub xml_name: Option<String>,
    pub xml_flattened: Option<XmlFlattenedTrait>,

    pub context_param: Option<ContextParamTrait>,
}

#[derive(Debug)]
pub struct ListShape {
    pub member: ListMember,
    pub traits: ListTraits,
}

#[derive(Debug, Default)]
pub struct ListTraits {
    pub deprecated: Option<DeprecatedTrait>,
    pub documentation: Option<String>,
    pub external_documentation: Option<IndexMap<String, String>>,
    pub length: Option<LengthTrait>,
    pub sensitive: Option<SensitiveTrait>,
    pub sparse: Option<SparseTrait>,
    pub unique_items: Option<UniqueItemsTrait>,
}

#[derive(Debug)]
pub struct ListMember {
    pub target: ShapeId,
    pub traits: ListMemberTraits,
}

#[derive(Debug, Default)]
pub struct ListMemberTraits {
    pub documentation: Option<String>,
    pub length: Option<LengthTrait>,
    pub tags: Vec<String>,
    pub xml_name: Option<String>,
}

#[derive(Debug)]
pub struct MapShape {
    pub key: MapShapeRef,
    pub value: MapShapeRef,
    pub traits: MapTraits,
}

#[derive(Debug, Default)]
pub struct MapTraits {
    pub documentation: Option<String>,
    pub length: Option<LengthTrait>,
    pub sensitive: Option<SensitiveTrait>,
    pub sparse: Option<SparseTrait>,
}

#[derive(Debug)]
pub struct MapShapeRef {
    pub target: ShapeId,
    pub traits: MapShapeTraits,
}

#[derive(Debug, Default)]
pub struct MapShapeTraits {
    pub documentation: Option<String>,
    pub length: Option<LengthTrait>,
    pub pattern: Option<String>,
    pub tags: Vec<String>,
    pub xml_name: Option<String>,
}

#[derive(Debug)]
pub struct UnionShape {
    pub members: IndexMap<String, UnionMember>,
    pub traits: UnionTraits,
}

#[derive(Debug, Default)]
pub struct UnionTraits {
    pub documentation: Option<String>,
    pub sensitive: Option<SensitiveTrait>,
    pub streaming: Option<StreamingTrait>,
}

#[derive(Debug)]
pub struct UnionMember {
    pub target: ShapeId,
    pub traits: UnionMemberTraits,
}

#[derive(Debug, Default)]
pub struct UnionMemberTraits {
    pub documentation: Option<String>,
    pub length: Option<LengthTrait>,
    pub range: Option<RangeTrait>,
    pub tags: Vec<String>,
}

#[derive(Debug)]
pub struct EnumShape {
    pub members: IndexMap<String, EnumMember>,
    pub traits: EnumTraits,
}

#[derive(Debug, Default)]
pub struct EnumTraits {
    pub default: Option<String>,
    pub deprecated: Option<DeprecatedTrait>,
    pub documentation: Option<String>,
    pub sensitive: Option<SensitiveTrait>,
    pub length: Option<LengthTrait>,
    pub pattern: Option<String>,
}

#[derive(Debug)]
pub struct EnumMember {
    pub target: ShapeId,
    pub traits: EnumMemberTraits,
}

#[derive(Debug, Default)]
pub struct EnumMemberTraits {
    pub enum_value: String,
}

} // verus!
