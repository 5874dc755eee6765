//! The report as a JSON document: the adapter's identity and its limits under
//! their field names, and notes where there are any.

use vstd::prelude::*;
use crate::adapter::{AdapterIdentity, AdapterLimits, Identity};
use crate::error::ReportError;
use crate::text::{char_or_space, glimpse};

verus! {

/// A JSON document as contracts see it. The members of an object stand in
/// the order in which they are written.
pub enum Json {
    /// The null value.
    Null,
    /// True or false.
    Bool(bool),
    /// A whole number.
    Integer(int),
    /// A floating-point number, by the bits that hold it.
    Float(u64),
    /// A string.
    Text(Seq<char>),
    /// A list of documents.
    Array(Seq<Json>),
    /// Members, each a name and a document.
    Object(Seq<(Seq<char>, Json)>),
}

/// `serde_json::Value`: a JSON document in memory. Verus sees nothing inside
/// it.
#[verifier::external_type_specification]
#[verifier::external_body]
pub struct ExValue(serde_json::Value);

/// `serde_json::Map`: the members of an object that is being built. Verus
/// sees nothing inside it.
#[verifier::external_type_specification]
#[verifier::external_body]
#[verifier::reject_recursive_types(K)]
#[verifier::reject_recursive_types(V)]
pub struct ExMap<K, V>(serde_json::Map<K, V>);

/// `serde_json::Error`: why a document could not be written. Verus sees
/// nothing inside it.
#[verifier::external_type_specification]
#[verifier::external_body]
pub struct ExError(serde_json::Error);

/// The document that a value holds.
pub uninterp spec fn document_of(value: serde_json::Value) -> Json;

/// The members that a map holds, in the order in which it hands them out.
pub uninterp spec fn members_of(map: serde_json::Map<String, serde_json::Value>) -> Seq<
    (Seq<char>, Json),
>;

/// What `serde_json::to_string_pretty` makes of a document: the indented text
/// that it writes or, where it fails, the words of its error.
pub uninterp spec fn pretty_outcome(document: Json) -> Result<Seq<char>, Seq<char>>;

/// The words in which an error says what went wrong.
pub uninterp spec fn failure_text(error: serde_json::Error) -> Seq<char>;

/// The outcome of writing a document as contracts see it: the text, or the
/// words of the error.
pub open spec fn outcome_view(outcome: Result<String, serde_json::Error>) -> Result<
    Seq<char>,
    Seq<char>,
> {
    match outcome {
        Ok(text) => Ok(text@),
        Err(error) => Err(failure_text(error)),
    }
}

/// The result of rendering as contracts see it: the text, or the words of
/// the failure.
pub open spec fn result_view(result: Result<String, ReportError>) -> Result<Seq<char>, Seq<char>> {
    match result {
        Ok(text) => Ok(text@),
        Err(error) => Err(error.words()),
    }
}

/// True where no member of `members` is called `name`.
pub open spec fn lacks(members: Seq<(Seq<char>, Json)>, name: Seq<char>) -> bool {
    forall|i: int| 0 <= i < members.len() ==> (#[trigger] members[i]).0 != name
}

/// `Value::from` for an unsigned number: the value holds that number.
#[verifier::external_body]
fn number_value(n: u64) -> (value: serde_json::Value)
    ensures
        document_of(value) == Json::Integer(n as int),
{
    serde_json::Value::from(n)
}

/// `Value::from` for a string slice: the value holds that text.
#[verifier::external_body]
fn text_value(text: &str) -> (value: serde_json::Value)
    ensures
        document_of(value) == Json::Text(text@),
{
    serde_json::Value::from(text)
}

/// `Value::from` for a map: the value is the object of the map's members.
#[verifier::external_body]
fn object_value(map: serde_json::Map<String, serde_json::Value>) -> (value: serde_json::Value)
    ensures
        document_of(value) == Json::Object(members_of(map)),
{
    serde_json::Value::from(map)
}

/// `Map::new`: a map without members.
#[verifier::external_body]
fn new_map() -> (map: serde_json::Map<String, serde_json::Value>)
    ensures
        members_of(map) == Seq::<(Seq<char>, Json)>::empty(),
{
    serde_json::Map::new()
}

/// `Map::insert` of a name that the map does not hold yet: the new member
/// comes after those that are there. This is so of the map that keeps its
/// members in the order in which they were inserted, which serde_json has
/// under its feature `preserve_order`; the crate turns that feature on, and
/// its tests on the order of the members fail without it.
#[verifier::external_body]
fn insert_member(
    map: &mut serde_json::Map<String, serde_json::Value>,
    name: &str,
    value: serde_json::Value,
)
    requires
        lacks(members_of(*old(map)), name@),
    ensures
        members_of(*final(map)) == members_of(*old(map)).push((name@, document_of(value))),
{
    map.insert(name.to_string(), value);
}

/// `serde_json::to_string_pretty` of a value. What comes back, the text or
/// the error, depends on nothing but the document that the value holds: it
/// is the outcome named for that document.
#[verifier::external_body]
fn to_pretty(value: &serde_json::Value) -> (outcome: Result<String, serde_json::Error>)
    ensures
        outcome_view(outcome) == pretty_outcome(document_of(*value)),
{
    serde_json::to_string_pretty(value)
}

/// `Display` of a serialisation error: what went wrong, in its words.
#[verifier::external_body]
fn error_text(error: &serde_json::Error) -> (text: String)
    ensures
        text@ == failure_text(*error),
{
    error.to_string()
}

/// The member `name` with a number for its value.
pub open spec fn number_member(name: Seq<char>, n: u64) -> (Seq<char>, Json) {
    (name, Json::Integer(n as int))
}

/// The member `name` with a text for its value.
pub open spec fn text_member(name: Seq<char>, text: Seq<char>) -> (Seq<char>, Json) {
    (name, Json::Text(text))
}

/// The adapter's identity as an object: each field under its own name, in
/// the order of the fields, the vendor and the device by their codes and the
/// backend by its name.
pub open spec fn identity_document(info: Identity) -> Json {
    Json::Object(
        seq![
            text_member("name"@, info.name),
            number_member("vendor"@, info.vendor as u64),
            number_member("device"@, info.device as u64),
            text_member("driver"@, info.driver),
            text_member("driver_info"@, info.driver_info),
            text_member("backend"@, info.backend.label()),
        ],
    )
}

/// The limits as an object: each field as a number under its own name in
/// camel case, in the order of the fields.
pub open spec fn limits_document(limits: AdapterLimits) -> Json {
    Json::Object(
        seq![
            number_member("maxTextureDimension1D"@, limits.max_texture_dimension_1d as u64),
            number_member("maxTextureDimension2D"@, limits.max_texture_dimension_2d as u64),
            number_member("maxTextureDimension3D"@, limits.max_texture_dimension_3d as u64),
            number_member("maxTextureArrayLayers"@, limits.max_texture_array_layers as u64),
            number_member("maxBindGroups"@, limits.max_bind_groups as u64),
            number_member("maxBindingsPerBindGroup"@, limits.max_bindings_per_bind_group as u64),
            number_member(
                "maxDynamicUniformBuffersPerPipelineLayout"@,
                limits.max_dynamic_uniform_buffers_per_pipeline_layout as u64,
            ),
            number_member(
                "maxDynamicStorageBuffersPerPipelineLayout"@,
                limits.max_dynamic_storage_buffers_per_pipeline_layout as u64,
            ),
            number_member(
                "maxSampledTexturesPerShaderStage"@,
                limits.max_sampled_textures_per_shader_stage as u64,
            ),
            number_member(
                "maxSamplersPerShaderStage"@,
                limits.max_samplers_per_shader_stage as u64,
            ),
            number_member(
                "maxStorageBuffersPerShaderStage"@,
                limits.max_storage_buffers_per_shader_stage as u64,
            ),
            number_member(
                "maxStorageTexturesPerShaderStage"@,
                limits.max_storage_textures_per_shader_stage as u64,
            ),
            number_member(
                "maxUniformBuffersPerShaderStage"@,
                limits.max_uniform_buffers_per_shader_stage as u64,
            ),
            number_member(
                "maxBindingArrayElementsPerShaderStage"@,
                limits.max_binding_array_elements_per_shader_stage as u64,
            ),
            number_member(
                "maxBindingArraySamplerElementsPerShaderStage"@,
                limits.max_binding_array_sampler_elements_per_shader_stage as u64,
            ),
            number_member(
                "maxUniformBufferBindingSize"@,
                limits.max_uniform_buffer_binding_size as u64,
            ),
            number_member(
                "maxStorageBufferBindingSize"@,
                limits.max_storage_buffer_binding_size as u64,
            ),
            number_member("maxVertexBuffers"@, limits.max_vertex_buffers as u64),
            number_member("maxBufferSize"@, limits.max_buffer_size),
            number_member("maxVertexAttributes"@, limits.max_vertex_attributes as u64),
            number_member(
                "maxVertexBufferArrayStride"@,
                limits.max_vertex_buffer_array_stride as u64,
            ),
            number_member(
                "minUniformBufferOffsetAlignment"@,
                limits.min_uniform_buffer_offset_alignment as u64,
            ),
            number_member(
                "minStorageBufferOffsetAlignment"@,
                limits.min_storage_buffer_offset_alignment as u64,
            ),
            number_member(
                "maxInterStageShaderComponents"@,
                limits.max_inter_stage_shader_components as u64,
            ),
            number_member("maxColorAttachments"@, limits.max_color_attachments as u64),
            number_member(
                "maxColorAttachmentBytesPerSample"@,
                limits.max_color_attachment_bytes_per_sample as u64,
            ),
            number_member(
                "maxComputeWorkgroupStorageSize"@,
                limits.max_compute_workgroup_storage_size as u64,
            ),
            number_member(
                "maxComputeInvocationsPerWorkgroup"@,
                limits.max_compute_invocations_per_workgroup as u64,
            ),
            number_member("maxComputeWorkgroupSizeX"@, limits.max_compute_workgroup_size_x as u64),
            number_member("maxComputeWorkgroupSizeY"@, limits.max_compute_workgroup_size_y as u64),
            number_member("maxComputeWorkgroupSizeZ"@, limits.max_compute_workgroup_size_z as u64),
            number_member(
                "maxComputeWorkgroupsPerDimension"@,
                limits.max_compute_workgroups_per_dimension as u64,
            ),
            number_member("minSubgroupSize"@, limits.min_subgroup_size as u64),
            number_member("maxSubgroupSize"@, limits.max_subgroup_size as u64),
            number_member("maxPushConstantSize"@, limits.max_push_constant_size as u64),
            number_member("maxNonSamplerBindings"@, limits.max_non_sampler_bindings as u64),
        ],
    )
}

/// The members that say something of the notes: none without notes, and one
/// called `notes` with them.
pub open spec fn notes_members(notes: Option<Seq<char>>) -> Seq<(Seq<char>, Json)> {
    match notes {
        Some(text) => seq![text_member("notes"@, text)],
        None => Seq::empty(),
    }
}

/// The whole report as an object: `adapter_info`, `limits`, and `notes`
/// where there are any.
pub open spec fn report_document(
    info: Identity,
    limits: AdapterLimits,
    notes: Option<Seq<char>>,
) -> Json {
    Json::Object(
        seq![("adapter_info"@, identity_document(info)), ("limits"@, limits_document(limits))]
            + notes_members(notes),
    )
}

/// The notes as contracts see them.
pub open spec fn notes_view(notes: Option<&str>) -> Option<Seq<char>> {
    match notes {
        Some(text) => Some(text@),
        None => None,
    }
}

/// What tells the names of the members of one object apart: their lengths
/// and the characters at five places.
spec fn name_glimpse(name: Seq<char>) -> (nat, char, char, char, char, char) {
    let (len, at_4, at_10, at_19, at_23) = glimpse(name, 4, 10, 19, 23);
    (len, char_or_space(name, 1), at_4, at_10, at_19, at_23)
}

/// The glimpse of each name that the report uses. No two names of one object
/// have the same.
spec fn names_told_apart() -> bool {
    &&& name_glimpse("adapter_info"@) == (12nat, 'd', 't', 'f', ' ', ' ')
    &&& name_glimpse("limits"@) == (6nat, 'i', 't', ' ', ' ', ' ')
    &&& name_glimpse("notes"@) == (5nat, 'o', 's', ' ', ' ', ' ')
    &&& name_glimpse("name"@) == (4nat, 'a', ' ', ' ', ' ', ' ')
    &&& name_glimpse("vendor"@) == (6nat, 'e', 'o', ' ', ' ', ' ')
    &&& name_glimpse("device"@) == (6nat, 'e', 'c', ' ', ' ', ' ')
    &&& name_glimpse("driver"@) == (6nat, 'r', 'e', ' ', ' ', ' ')
    &&& name_glimpse("driver_info"@) == (11nat, 'r', 'e', 'o', ' ', ' ')
    &&& name_glimpse("backend"@) == (7nat, 'a', 'e', ' ', ' ', ' ')
    &&& name_glimpse("maxTextureDimension1D"@) == (21nat, 'a', 'e', 'D', '1', ' ')
    &&& name_glimpse("maxTextureDimension2D"@) == (21nat, 'a', 'e', 'D', '2', ' ')
    &&& name_glimpse("maxTextureDimension3D"@) == (21nat, 'a', 'e', 'D', '3', ' ')
    &&& name_glimpse("maxTextureArrayLayers"@) == (21nat, 'a', 'e', 'A', 'r', ' ')
    &&& name_glimpse("maxBindGroups"@) == (13nat, 'a', 'i', 'u', ' ', ' ')
    &&& name_glimpse("maxBindingsPerBindGroup"@) == (23nat, 'a', 'i', 's', 'r', ' ')
    &&& name_glimpse("maxDynamicUniformBuffersPerPipelineLayout"@)
        == (41nat, 'a', 'y', 'U', 'f', 's')
    &&& name_glimpse("maxDynamicStorageBuffersPerPipelineLayout"@)
        == (41nat, 'a', 'y', 'S', 'f', 's')
    &&& name_glimpse("maxSampledTexturesPerShaderStage"@) == (32nat, 'a', 'a', 'T', 'e', 'a')
    &&& name_glimpse("maxSamplersPerShaderStage"@) == (25nat, 'a', 'a', 's', 'r', 'g')
    &&& name_glimpse("maxStorageBuffersPerShaderStage"@) == (31nat, 'a', 't', 'B', 'r', 'd')
    &&& name_glimpse("maxStorageTexturesPerShaderStage"@) == (32nat, 'a', 't', 'T', 'e', 'a')
    &&& name_glimpse("maxUniformBuffersPerShaderStage"@) == (31nat, 'a', 'n', 'B', 'r', 'd')
    &&& name_glimpse("maxBindingArrayElementsPerShaderStage"@) == (37nat, 'a', 'i', 'A', 'e', 'P')
    &&& name_glimpse("maxBindingArraySamplerElementsPerShaderStage"@)
        == (44nat, 'a', 'i', 'A', 'l', 'l')
    &&& name_glimpse("maxUniformBufferBindingSize"@) == (27nat, 'a', 'n', 'B', 'd', 'S')
    &&& name_glimpse("maxStorageBufferBindingSize"@) == (27nat, 'a', 't', 'B', 'd', 'S')
    &&& name_glimpse("maxVertexBuffers"@) == (16nat, 'a', 'e', 'u', ' ', ' ')
    &&& name_glimpse("maxBufferSize"@) == (13nat, 'a', 'u', 'i', ' ', ' ')
    &&& name_glimpse("maxVertexAttributes"@) == (19nat, 'a', 'e', 't', ' ', ' ')
    &&& name_glimpse("maxVertexBufferArrayStride"@) == (26nat, 'a', 'e', 'u', 'y', 'i')
    &&& name_glimpse("minUniformBufferOffsetAlignment"@) == (31nat, 'i', 'n', 'B', 's', 'l')
    &&& name_glimpse("minStorageBufferOffsetAlignment"@) == (31nat, 'i', 't', 'B', 's', 'l')
    &&& name_glimpse("maxInterStageShaderComponents"@) == (29nat, 'a', 'n', 'a', 'C', 'o')
    &&& name_glimpse("maxColorAttachments"@) == (19nat, 'a', 'o', 't', ' ', ' ')
    &&& name_glimpse("maxColorAttachmentBytesPerSample"@) == (32nat, 'a', 'o', 't', 'y', 'P')
    &&& name_glimpse("maxComputeWorkgroupStorageSize"@) == (30nat, 'a', 'o', 'W', 'S', 'a')
    &&& name_glimpse("maxComputeInvocationsPerWorkgroup"@) == (33nat, 'a', 'o', 'I', 'n', 'r')
    &&& name_glimpse("maxComputeWorkgroupSizeX"@) == (24nat, 'a', 'o', 'W', 'S', 'X')
    &&& name_glimpse("maxComputeWorkgroupSizeY"@) == (24nat, 'a', 'o', 'W', 'S', 'Y')
    &&& name_glimpse("maxComputeWorkgroupSizeZ"@) == (24nat, 'a', 'o', 'W', 'S', 'Z')
    &&& name_glimpse("maxComputeWorkgroupsPerDimension"@) == (32nat, 'a', 'o', 'W', 's', 'D')
    &&& name_glimpse("minSubgroupSize"@) == (15nat, 'i', 'u', 'p', ' ', ' ')
    &&& name_glimpse("maxSubgroupSize"@) == (15nat, 'a', 'u', 'p', ' ', ' ')
    &&& name_glimpse("maxPushConstantSize"@) == (19nat, 'a', 'u', 's', ' ', ' ')
    &&& name_glimpse("maxNonSamplerBindings"@) == (21nat, 'a', 'o', 'l', 'g', ' ')
}

/// The names have the glimpses listed.
proof fn lemma_names_told_apart()
    ensures
        names_told_apart(),
{
    reveal_strlit("adapter_info");
    reveal_strlit("limits");
    reveal_strlit("notes");
    reveal_strlit("name");
    reveal_strlit("vendor");
    reveal_strlit("device");
    reveal_strlit("driver");
    reveal_strlit("driver_info");
    reveal_strlit("backend");
    reveal_strlit("maxTextureDimension1D");
    reveal_strlit("maxTextureDimension2D");
    reveal_strlit("maxTextureDimension3D");
    reveal_strlit("maxTextureArrayLayers");
    reveal_strlit("maxBindGroups");
    reveal_strlit("maxBindingsPerBindGroup");
    reveal_strlit("maxDynamicUniformBuffersPerPipelineLayout");
    reveal_strlit("maxDynamicStorageBuffersPerPipelineLayout");
    reveal_strlit("maxSampledTexturesPerShaderStage");
    reveal_strlit("maxSamplersPerShaderStage");
    reveal_strlit("maxStorageBuffersPerShaderStage");
    reveal_strlit("maxStorageTexturesPerShaderStage");
    reveal_strlit("maxUniformBuffersPerShaderStage");
    reveal_strlit("maxBindingArrayElementsPerShaderStage");
    reveal_strlit("maxBindingArraySamplerElementsPerShaderStage");
    reveal_strlit("maxUniformBufferBindingSize");
    reveal_strlit("maxStorageBufferBindingSize");
    reveal_strlit("maxVertexBuffers");
    reveal_strlit("maxBufferSize");
    reveal_strlit("maxVertexAttributes");
    reveal_strlit("maxVertexBufferArrayStride");
    reveal_strlit("minUniformBufferOffsetAlignment");
    reveal_strlit("minStorageBufferOffsetAlignment");
    reveal_strlit("maxInterStageShaderComponents");
    reveal_strlit("maxColorAttachments");
    reveal_strlit("maxColorAttachmentBytesPerSample");
    reveal_strlit("maxComputeWorkgroupStorageSize");
    reveal_strlit("maxComputeInvocationsPerWorkgroup");
    reveal_strlit("maxComputeWorkgroupSizeX");
    reveal_strlit("maxComputeWorkgroupSizeY");
    reveal_strlit("maxComputeWorkgroupSizeZ");
    reveal_strlit("maxComputeWorkgroupsPerDimension");
    reveal_strlit("minSubgroupSize");
    reveal_strlit("maxSubgroupSize");
    reveal_strlit("maxPushConstantSize");
    reveal_strlit("maxNonSamplerBindings");
}

/// True where no two of the members have one name.
pub open spec fn names_differ(members: Seq<(Seq<char>, Json)>) -> bool {
    forall|i: int, j: int| 0 <= i < j < members.len() ==> members[i].0 != members[j].0
}

/// The members of an object, and none of anything else.
pub open spec fn members_in(document: Json) -> Seq<(Seq<char>, Json)> {
    match document {
        Json::Object(members) => members,
        _ => Seq::empty(),
    }
}

/// Notes are a member of the report only where they are given: without
/// notes the report has the two members `adapter_info` and `limits` and none
/// called `notes`; with notes it has those two and, last, `notes` with the
/// text that was given.
pub proof fn law_notes_only_where_given(
    info: Identity,
    limits: AdapterLimits,
    notes: Option<Seq<char>>,
)
    ensures
        members_in(report_document(info, limits, notes)).len() == (if notes is Some {
            3int
        } else {
            2int
        }),
        members_in(report_document(info, limits, notes))[0] == (
            "adapter_info"@,
            identity_document(info),
        ),
        members_in(report_document(info, limits, notes))[1] == ("limits"@, limits_document(limits)),
        notes is None ==> lacks(members_in(report_document(info, limits, notes)), "notes"@),
        notes matches Some(text) ==> members_in(report_document(info, limits, notes))[2] == (
            "notes"@,
            Json::Text(text),
        ),
{
    lemma_names_told_apart();
}

/// Every field stands in the document once: no two members of the report
/// have one name, nor two of the identity, nor two of the limits.
pub proof fn law_each_member_once(info: Identity, limits: AdapterLimits, notes: Option<Seq<char>>)
    ensures
        names_differ(members_in(report_document(info, limits, notes))),
        names_differ(members_in(identity_document(info))),
        names_differ(members_in(limits_document(limits))),
        members_in(identity_document(info)).len() == 6,
        members_in(limits_document(limits)).len() == 36,
{
    lemma_names_told_apart();
}

/// Adds the member `name` with the number `n`.
fn put_number(map: &mut serde_json::Map<String, serde_json::Value>, name: &str, n: u64)
    requires
        lacks(members_of(*old(map)), name@),
    ensures
        members_of(*final(map)) == members_of(*old(map)).push(number_member(name@, n)),
        forall|other: Seq<char>|
            other != name@ && lacks(members_of(*old(map)), other) ==> #[trigger] lacks(
                members_of(*final(map)),
                other,
            ),
{
    insert_member(map, name, number_value(n));
}

/// Adds the member `name` with the text `text`.
fn put_text(map: &mut serde_json::Map<String, serde_json::Value>, name: &str, text: &str)
    requires
        lacks(members_of(*old(map)), name@),
    ensures
        members_of(*final(map)) == members_of(*old(map)).push(text_member(name@, text@)),
        forall|other: Seq<char>|
            other != name@ && lacks(members_of(*old(map)), other) ==> #[trigger] lacks(
                members_of(*final(map)),
                other,
            ),
{
    insert_member(map, name, text_value(text));
}

/// The adapter's identity as a JSON value.
pub fn identity_value(info: &AdapterIdentity) -> (value: serde_json::Value)
    ensures
        document_of(value) == identity_document(info@),
{
    proof {
        lemma_names_told_apart();
    }
    let mut map = new_map();
    put_text(&mut map, "name", info.name.as_str());
    put_number(&mut map, "vendor", info.vendor as u64);
    put_number(&mut map, "device", info.device as u64);
    put_text(&mut map, "driver", info.driver.as_str());
    put_text(&mut map, "driver_info", info.driver_info.as_str());
    put_text(&mut map, "backend", info.backend.name());
    assert(Json::Object(members_of(map)) == identity_document(info@)) by {
        assert(members_of(map) =~= identity_document(info@)->Object_0);
    }
    object_value(map)
}

/// The limits as a JSON value.
pub fn limits_value(limits: &AdapterLimits) -> (value: serde_json::Value)
    ensures
        document_of(value) == limits_document(*limits),
{
    proof {
        lemma_names_told_apart();
    }
    let mut map = new_map();
    put_number(&mut map, "maxTextureDimension1D", limits.max_texture_dimension_1d as u64);
    put_number(&mut map, "maxTextureDimension2D", limits.max_texture_dimension_2d as u64);
    put_number(&mut map, "maxTextureDimension3D", limits.max_texture_dimension_3d as u64);
    put_number(&mut map, "maxTextureArrayLayers", limits.max_texture_array_layers as u64);
    put_number(&mut map, "maxBindGroups", limits.max_bind_groups as u64);
    put_number(&mut map, "maxBindingsPerBindGroup", limits.max_bindings_per_bind_group as u64);
    put_number(
        &mut map,
        "maxDynamicUniformBuffersPerPipelineLayout",
        limits.max_dynamic_uniform_buffers_per_pipeline_layout as u64,
    );
    put_number(
        &mut map,
        "maxDynamicStorageBuffersPerPipelineLayout",
        limits.max_dynamic_storage_buffers_per_pipeline_layout as u64,
    );
    put_number(
        &mut map,
        "maxSampledTexturesPerShaderStage",
        limits.max_sampled_textures_per_shader_stage as u64,
    );
    put_number(&mut map, "maxSamplersPerShaderStage", limits.max_samplers_per_shader_stage as u64);
    put_number(
        &mut map,
        "maxStorageBuffersPerShaderStage",
        limits.max_storage_buffers_per_shader_stage as u64,
    );
    put_number(
        &mut map,
        "maxStorageTexturesPerShaderStage",
        limits.max_storage_textures_per_shader_stage as u64,
    );
    put_number(
        &mut map,
        "maxUniformBuffersPerShaderStage",
        limits.max_uniform_buffers_per_shader_stage as u64,
    );
    put_number(
        &mut map,
        "maxBindingArrayElementsPerShaderStage",
        limits.max_binding_array_elements_per_shader_stage as u64,
    );
    put_number(
        &mut map,
        "maxBindingArraySamplerElementsPerShaderStage",
        limits.max_binding_array_sampler_elements_per_shader_stage as u64,
    );
    put_number(
        &mut map,
        "maxUniformBufferBindingSize",
        limits.max_uniform_buffer_binding_size as u64,
    );
    put_number(
        &mut map,
        "maxStorageBufferBindingSize",
        limits.max_storage_buffer_binding_size as u64,
    );
    put_number(&mut map, "maxVertexBuffers", limits.max_vertex_buffers as u64);
    put_number(&mut map, "maxBufferSize", limits.max_buffer_size);
    put_number(&mut map, "maxVertexAttributes", limits.max_vertex_attributes as u64);
    put_number(
        &mut map,
        "maxVertexBufferArrayStride",
        limits.max_vertex_buffer_array_stride as u64,
    );
    put_number(
        &mut map,
        "minUniformBufferOffsetAlignment",
        limits.min_uniform_buffer_offset_alignment as u64,
    );
    put_number(
        &mut map,
        "minStorageBufferOffsetAlignment",
        limits.min_storage_buffer_offset_alignment as u64,
    );
    put_number(
        &mut map,
        "maxInterStageShaderComponents",
        limits.max_inter_stage_shader_components as u64,
    );
    put_number(&mut map, "maxColorAttachments", limits.max_color_attachments as u64);
    put_number(
        &mut map,
        "maxColorAttachmentBytesPerSample",
        limits.max_color_attachment_bytes_per_sample as u64,
    );
    put_number(
        &mut map,
        "maxComputeWorkgroupStorageSize",
        limits.max_compute_workgroup_storage_size as u64,
    );
    put_number(
        &mut map,
        "maxComputeInvocationsPerWorkgroup",
        limits.max_compute_invocations_per_workgroup as u64,
    );
    put_number(&mut map, "maxComputeWorkgroupSizeX", limits.max_compute_workgroup_size_x as u64);
    put_number(&mut map, "maxComputeWorkgroupSizeY", limits.max_compute_workgroup_size_y as u64);
    put_number(&mut map, "maxComputeWorkgroupSizeZ", limits.max_compute_workgroup_size_z as u64);
    put_number(
        &mut map,
        "maxComputeWorkgroupsPerDimension",
        limits.max_compute_workgroups_per_dimension as u64,
    );
    put_number(&mut map, "minSubgroupSize", limits.min_subgroup_size as u64);
    put_number(&mut map, "maxSubgroupSize", limits.max_subgroup_size as u64);
    put_number(&mut map, "maxPushConstantSize", limits.max_push_constant_size as u64);
    put_number(&mut map, "maxNonSamplerBindings", limits.max_non_sampler_bindings as u64);
    assert(Json::Object(members_of(map)) == limits_document(*limits)) by {
        assert(members_of(map) =~= limits_document(*limits)->Object_0);
    }
    object_value(map)
}

/// The whole report as a JSON value.
pub fn report_value(info: &AdapterIdentity, limits: &AdapterLimits, notes: Option<&str>) -> (value:
    serde_json::Value)
    ensures
        document_of(value) == report_document(info@, *limits, notes_view(notes)),
{
    proof {
        lemma_names_told_apart();
    }
    let mut map = new_map();
    insert_member(&mut map, "adapter_info", identity_value(info));
    assert(lacks(members_of(map), "limits"@)) by {
        assert(members_of(map)[0].0 == "adapter_info"@);
    }
    insert_member(&mut map, "limits", limits_value(limits));
    match notes {
        Some(text) => {
            assert(lacks(members_of(map), "notes"@)) by {
                assert(members_of(map)[0].0 == "adapter_info"@);
                assert(members_of(map)[1].0 == "limits"@);
            }
            put_text(&mut map, "notes", text);
        },
        None => {},
    }
    assert(Json::Object(members_of(map)) == report_document(info@, *limits, notes_view(notes))) by {
        assert(members_of(map) =~= report_document(
            info@,
            *limits,
            notes_view(notes),
        )->Object_0);
    }
    object_value(map)
}

/// What the outcome of writing a document means for the caller: the text
/// where there is one, and else a serialisation failure in the words of the
/// error.
pub fn written(outcome: Result<String, serde_json::Error>) -> (result: Result<String, ReportError>)
    ensures
        outcome matches Ok(text) ==> result == Ok::<String, ReportError>(text),
        outcome matches Err(error) ==> result matches Err(ReportError::Serialization(message))
            && message@ == failure_text(error),
{
    match outcome {
        Ok(text) => Ok(text),
        Err(error) => Err(ReportError::Serialization(error_text(&error))),
    }
}

/// Renders the report as indented JSON. The identity and the limits stand
/// under `adapter_info` and `limits` as they are, the vendor by its code;
/// `notes` is a member only where notes are given. The result is what
/// serde_json makes of that document: its text, or a serialisation failure
/// in the words of its error.
pub fn render_json(info: &AdapterIdentity, limits: &AdapterLimits, notes: Option<&str>) -> (result:
    Result<String, ReportError>)
    ensures
        result_view(result) == pretty_outcome(report_document(info@, *limits, notes_view(notes))),
{
    let value = report_value(info, limits, notes);
    written(to_pretty(&value))
}

} // verus!
