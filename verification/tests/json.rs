use adapter_report::adapter::{AdapterIdentity, AdapterLimits, Backend};
use adapter_report::error::ReportError;
use adapter_report::json::{identity_value, limits_value, render_json, report_value, written};

fn mock_identity() -> AdapterIdentity {
    AdapterIdentity {
        name: String::from("Mock GPU"),
        backend: Backend::Vulkan,
        vendor: 0x1002,
        device: 0x1,
        driver: String::from("mock"),
        driver_info: String::from("v1"),
    }
}

fn mock_limits() -> AdapterLimits {
    AdapterLimits {
        max_texture_dimension_1d: 8192,
        max_texture_dimension_2d: 8192,
        max_texture_dimension_3d: 2048,
        max_texture_array_layers: 256,
        max_bind_groups: 4,
        max_bindings_per_bind_group: 1000,
        max_dynamic_uniform_buffers_per_pipeline_layout: 8,
        max_dynamic_storage_buffers_per_pipeline_layout: 4,
        max_sampled_textures_per_shader_stage: 16,
        max_samplers_per_shader_stage: 16,
        max_storage_buffers_per_shader_stage: 8,
        max_storage_textures_per_shader_stage: 4,
        max_uniform_buffers_per_shader_stage: 12,
        max_binding_array_elements_per_shader_stage: 0,
        max_binding_array_sampler_elements_per_shader_stage: 0,
        max_uniform_buffer_binding_size: 65536,
        max_storage_buffer_binding_size: 134217728,
        max_vertex_buffers: 8,
        max_buffer_size: 268435456,
        max_vertex_attributes: 16,
        max_vertex_buffer_array_stride: 2048,
        min_uniform_buffer_offset_alignment: 256,
        min_storage_buffer_offset_alignment: 256,
        max_inter_stage_shader_components: 60,
        max_color_attachments: 8,
        max_color_attachment_bytes_per_sample: 32,
        max_compute_workgroup_storage_size: 16384,
        max_compute_invocations_per_workgroup: 256,
        max_compute_workgroup_size_x: 256,
        max_compute_workgroup_size_y: 256,
        max_compute_workgroup_size_z: 64,
        max_compute_workgroups_per_dimension: 65535,
        min_subgroup_size: 0,
        max_subgroup_size: 0,
        max_push_constant_size: 128,
        max_non_sampler_bindings: 1000000,
    }
}


fn expected_json() -> String {
    [
        "{\n",
        "  \"adapter_info\": {\n",
        "    \"name\": \"Mock GPU\",\n",
        "    \"vendor\": 4098,\n",
        "    \"device\": 1,\n",
        "    \"driver\": \"mock\",\n",
        "    \"driver_info\": \"v1\",\n",
        "    \"backend\": \"Vulkan\"\n",
        "  },\n",
        "  \"limits\": {\n",
        "    \"maxTextureDimension1D\": 8192,\n",
        "    \"maxTextureDimension2D\": 8192,\n",
        "    \"maxTextureDimension3D\": 2048,\n",
        "    \"maxTextureArrayLayers\": 256,\n",
        "    \"maxBindGroups\": 4,\n",
        "    \"maxBindingsPerBindGroup\": 1000,\n",
        "    \"maxDynamicUniformBuffersPerPipelineLayout\": 8,\n",
        "    \"maxDynamicStorageBuffersPerPipelineLayout\": 4,\n",
        "    \"maxSampledTexturesPerShaderStage\": 16,\n",
        "    \"maxSamplersPerShaderStage\": 16,\n",
        "    \"maxStorageBuffersPerShaderStage\": 8,\n",
        "    \"maxStorageTexturesPerShaderStage\": 4,\n",
        "    \"maxUniformBuffersPerShaderStage\": 12,\n",
        "    \"maxBindingArrayElementsPerShaderStage\": 0,\n",
        "    \"maxBindingArraySamplerElementsPerShaderStage\": 0,\n",
        "    \"maxUniformBufferBindingSize\": 65536,\n",
        "    \"maxStorageBufferBindingSize\": 134217728,\n",
        "    \"maxVertexBuffers\": 8,\n",
        "    \"maxBufferSize\": 268435456,\n",
        "    \"maxVertexAttributes\": 16,\n",
        "    \"maxVertexBufferArrayStride\": 2048,\n",
        "    \"minUniformBufferOffsetAlignment\": 256,\n",
        "    \"minStorageBufferOffsetAlignment\": 256,\n",
        "    \"maxInterStageShaderComponents\": 60,\n",
        "    \"maxColorAttachments\": 8,\n",
        "    \"maxColorAttachmentBytesPerSample\": 32,\n",
        "    \"maxComputeWorkgroupStorageSize\": 16384,\n",
        "    \"maxComputeInvocationsPerWorkgroup\": 256,\n",
        "    \"maxComputeWorkgroupSizeX\": 256,\n",
        "    \"maxComputeWorkgroupSizeY\": 256,\n",
        "    \"maxComputeWorkgroupSizeZ\": 64,\n",
        "    \"maxComputeWorkgroupsPerDimension\": 65535,\n",
        "    \"minSubgroupSize\": 0,\n",
        "    \"maxSubgroupSize\": 0,\n",
        "    \"maxPushConstantSize\": 128,\n",
        "    \"maxNonSamplerBindings\": 1000000\n",
        "  }\n",
        "}",
    ]
    .concat()
}

fn expected_json_with_notes() -> String {
    [
        "{\n",
        "  \"adapter_info\": {\n",
        "    \"name\": \"Mock GPU\",\n",
        "    \"vendor\": 4098,\n",
        "    \"device\": 1,\n",
        "    \"driver\": \"mock\",\n",
        "    \"driver_info\": \"v1\",\n",
        "    \"backend\": \"Vulkan\"\n",
        "  },\n",
        "  \"limits\": {\n",
        "    \"maxTextureDimension1D\": 8192,\n",
        "    \"maxTextureDimension2D\": 8192,\n",
        "    \"maxTextureDimension3D\": 2048,\n",
        "    \"maxTextureArrayLayers\": 256,\n",
        "    \"maxBindGroups\": 4,\n",
        "    \"maxBindingsPerBindGroup\": 1000,\n",
        "    \"maxDynamicUniformBuffersPerPipelineLayout\": 8,\n",
        "    \"maxDynamicStorageBuffersPerPipelineLayout\": 4,\n",
        "    \"maxSampledTexturesPerShaderStage\": 16,\n",
        "    \"maxSamplersPerShaderStage\": 16,\n",
        "    \"maxStorageBuffersPerShaderStage\": 8,\n",
        "    \"maxStorageTexturesPerShaderStage\": 4,\n",
        "    \"maxUniformBuffersPerShaderStage\": 12,\n",
        "    \"maxBindingArrayElementsPerShaderStage\": 0,\n",
        "    \"maxBindingArraySamplerElementsPerShaderStage\": 0,\n",
        "    \"maxUniformBufferBindingSize\": 65536,\n",
        "    \"maxStorageBufferBindingSize\": 134217728,\n",
        "    \"maxVertexBuffers\": 8,\n",
        "    \"maxBufferSize\": 268435456,\n",
        "    \"maxVertexAttributes\": 16,\n",
        "    \"maxVertexBufferArrayStride\": 2048,\n",
        "    \"minUniformBufferOffsetAlignment\": 256,\n",
        "    \"minStorageBufferOffsetAlignment\": 256,\n",
        "    \"maxInterStageShaderComponents\": 60,\n",
        "    \"maxColorAttachments\": 8,\n",
        "    \"maxColorAttachmentBytesPerSample\": 32,\n",
        "    \"maxComputeWorkgroupStorageSize\": 16384,\n",
        "    \"maxComputeInvocationsPerWorkgroup\": 256,\n",
        "    \"maxComputeWorkgroupSizeX\": 256,\n",
        "    \"maxComputeWorkgroupSizeY\": 256,\n",
        "    \"maxComputeWorkgroupSizeZ\": 64,\n",
        "    \"maxComputeWorkgroupsPerDimension\": 65535,\n",
        "    \"minSubgroupSize\": 0,\n",
        "    \"maxSubgroupSize\": 0,\n",
        "    \"maxPushConstantSize\": 128,\n",
        "    \"maxNonSamplerBindings\": 1000000\n",
        "  },\n",
        "  \"notes\": \"seen on the bench\"\n",
        "}",
    ]
    .concat()
}

#[test]
fn json_of_the_mock_adapter() {
    let text = render_json(&mock_identity(), &mock_limits(), None).unwrap();
    assert_eq!(text, expected_json());
}

#[test]
fn json_with_notes() {
    let text = render_json(&mock_identity(), &mock_limits(), Some("seen on the bench")).unwrap();
    assert_eq!(text, expected_json_with_notes());
}

#[test]
fn json_leaves_absent_notes_out() {
    let text = render_json(&mock_identity(), &mock_limits(), None).unwrap();
    assert!(!text.contains("notes"));
    assert!(!text.contains("null"));
    let value: serde_json::Value = serde_json::from_str(&text).unwrap();
    let top = value.as_object().unwrap();
    let names: Vec<&str> = top.keys().map(|name| name.as_str()).collect();
    assert_eq!(names, vec!["adapter_info", "limits"]);
}

#[test]
fn json_keeps_empty_notes() {
    let value = report_value(&mock_identity(), &mock_limits(), Some(""));
    assert_eq!(value["notes"], serde_json::Value::from(""));
    let top = value.as_object().unwrap();
    let names: Vec<&str> = top.keys().map(|name| name.as_str()).collect();
    assert_eq!(names, vec!["adapter_info", "limits", "notes"]);
}

#[test]
fn json_round_trips() {
    for notes in [None, Some("measured twice")] {
        let text = render_json(&mock_identity(), &mock_limits(), notes).unwrap();
        let value: serde_json::Value = serde_json::from_str(&text).unwrap();
        assert_eq!(serde_json::to_string_pretty(&value).unwrap(), text);
        assert_eq!(value, report_value(&mock_identity(), &mock_limits(), notes));
    }
}

#[test]
fn json_gives_the_vendor_by_its_code() {
    let text = render_json(&mock_identity(), &mock_limits(), None).unwrap();
    assert!(text.contains("\"vendor\": 4098"));
    assert!(!text.contains("AMD"));
    let compact = serde_json::to_string(&report_value(&mock_identity(), &mock_limits(), None))
        .unwrap();
    assert!(compact.contains("\"vendor\":4098"));
}

#[test]
fn json_identity_has_its_six_fields_in_order() {
    let value = identity_value(&mock_identity());
    let object = value.as_object().unwrap();
    let names: Vec<&str> = object.keys().map(|name| name.as_str()).collect();
    assert_eq!(names, vec!["name", "vendor", "device", "driver", "driver_info", "backend"]);
    assert_eq!(value["name"], serde_json::Value::from("Mock GPU"));
    assert_eq!(value["backend"], serde_json::Value::from("Vulkan"));
    assert_eq!(value["vendor"], serde_json::Value::from(4098u64));
    assert_eq!(value["device"], serde_json::Value::from(1u64));
    assert_eq!(value["driver"], serde_json::Value::from("mock"));
    assert_eq!(value["driver_info"], serde_json::Value::from("v1"));
}

#[test]
fn json_limits_have_each_field_once_as_a_number() {
    let value = limits_value(&mock_limits());
    let object = value.as_object().unwrap();
    assert_eq!(object.len(), 36);
    let names: Vec<&str> = object.keys().map(|name| name.as_str()).collect();
    assert_eq!(
        names,
        vec![
            "maxTextureDimension1D",
            "maxTextureDimension2D",
            "maxTextureDimension3D",
            "maxTextureArrayLayers",
            "maxBindGroups",
            "maxBindingsPerBindGroup",
            "maxDynamicUniformBuffersPerPipelineLayout",
            "maxDynamicStorageBuffersPerPipelineLayout",
            "maxSampledTexturesPerShaderStage",
            "maxSamplersPerShaderStage",
            "maxStorageBuffersPerShaderStage",
            "maxStorageTexturesPerShaderStage",
            "maxUniformBuffersPerShaderStage",
            "maxBindingArrayElementsPerShaderStage",
            "maxBindingArraySamplerElementsPerShaderStage",
            "maxUniformBufferBindingSize",
            "maxStorageBufferBindingSize",
            "maxVertexBuffers",
            "maxBufferSize",
            "maxVertexAttributes",
            "maxVertexBufferArrayStride",
            "minUniformBufferOffsetAlignment",
            "minStorageBufferOffsetAlignment",
            "maxInterStageShaderComponents",
            "maxColorAttachments",
            "maxColorAttachmentBytesPerSample",
            "maxComputeWorkgroupStorageSize",
            "maxComputeInvocationsPerWorkgroup",
            "maxComputeWorkgroupSizeX",
            "maxComputeWorkgroupSizeY",
            "maxComputeWorkgroupSizeZ",
            "maxComputeWorkgroupsPerDimension",
            "minSubgroupSize",
            "maxSubgroupSize",
            "maxPushConstantSize",
            "maxNonSamplerBindings",
        ]
    );
    assert_eq!(value["maxTextureDimension2D"], serde_json::Value::from(8192u64));
    assert_eq!(value["maxUniformBufferBindingSize"], serde_json::Value::from(65536u64));
    assert_eq!(value["maxComputeWorkgroupSizeZ"], serde_json::Value::from(64u64));
    assert_eq!(value["maxInterStageShaderComponents"], serde_json::Value::from(60u64));
    assert_eq!(value["maxBufferSize"], serde_json::Value::from(268435456u64));
    assert_eq!(value["maxNonSamplerBindings"], serde_json::Value::from(1000000u64));
}

#[test]
fn json_limits_tell_the_fields_apart() {
    let mut limits = AdapterLimits::default();
    limits.max_texture_dimension_3d = 3;
    limits.max_compute_workgroup_size_y = 7;
    limits.max_push_constant_size = u32::MAX;
    limits.max_buffer_size = u64::MAX;
    limits.min_subgroup_size = 4;
    limits.max_subgroup_size = 64;
    let value = limits_value(&limits);
    assert_eq!(value["maxTextureDimension3D"], serde_json::Value::from(3u64));
    assert_eq!(value["maxTextureDimension2D"], serde_json::Value::from(0u64));
    assert_eq!(value["maxComputeWorkgroupSizeY"], serde_json::Value::from(7u64));
    assert_eq!(value["maxComputeWorkgroupSizeX"], serde_json::Value::from(0u64));
    assert_eq!(value["maxPushConstantSize"], serde_json::Value::from(4294967295u64));
    assert_eq!(value["maxBufferSize"], serde_json::Value::from(u64::MAX));
    assert_eq!(value["minSubgroupSize"], serde_json::Value::from(4u64));
    assert_eq!(value["maxSubgroupSize"], serde_json::Value::from(64u64));
}

#[test]
fn json_escapes_what_the_adapter_says_of_itself() {
    let mut info = mock_identity();
    info.name = String::from("Quote \" and \\ and\nnewline");
    let text = render_json(&info, &mock_limits(), None).unwrap();
    assert!(text.contains("\"name\": \"Quote \\\" and \\\\ and\\nnewline\""));
    let value: serde_json::Value = serde_json::from_str(&text).unwrap();
    assert_eq!(value["adapter_info"]["name"], serde_json::Value::from(info.name.as_str()));
}

#[test]
fn a_written_text_is_passed_on() {
    let outcome: Result<String, serde_json::Error> = Ok(String::from("{}"));
    match written(outcome) {
        Ok(text) => assert_eq!(text, "{}"),
        Err(_) => panic!("a text was written"),
    }
}

#[test]
fn a_failure_to_write_is_a_serialization_error() {
    let failure = serde_json::from_str::<serde_json::Value>("{").unwrap_err();
    let message = failure.to_string();
    let outcome: Result<String, serde_json::Error> = Err(failure);
    match written(outcome) {
        Ok(_) => panic!("nothing was written"),
        Err(ReportError::Serialization(text)) => assert_eq!(text, message),
    }
}

#[test]
fn json_is_the_same_each_time() {
    for notes in [None, Some("once more")] {
        let first = render_json(&mock_identity(), &mock_limits(), notes);
        let second = render_json(&mock_identity(), &mock_limits(), notes);
        match (first, second) {
            (Ok(one), Ok(other)) => assert_eq!(one, other),
            _ => panic!("the document can be written"),
        }
    }
}
