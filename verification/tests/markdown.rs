use adapter_report::adapter::{AdapterIdentity, AdapterLimits, Backend};
use adapter_report::markdown::render_markdown;

fn mock_identity() -> AdapterIdentity {
    AdapterIdentity {
        name: String::from("Mock GPU"),
        backend: Backend::Vulkan,
        vendor: 0x1002,
        device: 0x1,
        driver: String::from("mock"),
        driver_info: String::from("v1"),
    }
}

fn mock_limits() -> AdapterLimits {
    AdapterLimits {
        max_texture_dimension_1d: 8192,
        max_texture_dimension_2d: 8192,
        max_texture_dimension_3d: 2048,
        max_texture_array_layers: 256,
        max_bind_groups: 4,
        max_bindings_per_bind_group: 1000,
        max_dynamic_uniform_buffers_per_pipeline_layout: 8,
        max_dynamic_storage_buffers_per_pipeline_layout: 4,
        max_sampled_textures_per_shader_stage: 16,
        max_samplers_per_shader_stage: 16,
        max_storage_buffers_per_shader_stage: 8,
        max_storage_textures_per_shader_stage: 4,
        max_uniform_buffers_per_shader_stage: 12,
        max_binding_array_elements_per_shader_stage: 0,
        max_binding_array_sampler_elements_per_shader_stage: 0,
        max_uniform_buffer_binding_size: 65536,
        max_storage_buffer_binding_size: 134217728,
        max_vertex_buffers: 8,
        max_buffer_size: 268435456,
        max_vertex_attributes: 16,
        max_vertex_buffer_array_stride: 2048,
        min_uniform_buffer_offset_alignment: 256,
        min_storage_buffer_offset_alignment: 256,
        max_inter_stage_shader_components: 60,
        max_color_attachments: 8,
        max_color_attachment_bytes_per_sample: 32,
        max_compute_workgroup_storage_size: 16384,
        max_compute_invocations_per_workgroup: 256,
        max_compute_workgroup_size_x: 256,
        max_compute_workgroup_size_y: 256,
        max_compute_workgroup_size_z: 64,
        max_compute_workgroups_per_dimension: 65535,
        min_subgroup_size: 0,
        max_subgroup_size: 0,
        max_push_constant_size: 128,
        max_non_sampler_bindings: 1000000,
    }
}


fn expected_markdown() -> String {
    [
        "## WGPU Adapter Information\n",
        "\n",
        "| Key | Value |\n",
        "|-----|-------|\n",
        "| Name | `Mock GPU` |\n",
        "| Backend | `Vulkan` |\n",
        "| Vendor | `AMD` |\n",
        "| Device ID | `1` |\n",
        "| Driver | `mock` |\n",
        "| Driver Info | `v1` |\n",
        "## WGPU Device Limits\n",
        "\n",
        "### Texture Limits\n",
        "\n",
        "| Key | Value |\n",
        "|-----|-------|\n",
        "| Max 1D Texture Size | `8192` |\n",
        "| Max 2D Texture Size | `8192` |\n",
        "| Max 3D Texture Size | `2048` |\n",
        "| Max Array Layers | `256` |\n",
        "\n",
        "### Binding Limits\n",
        "\n",
        "| Key | Value |\n",
        "|-----|-------|\n",
        "| Max Bind Groups | `4` |\n",
        "| Max Bindings/Group | `1000` |\n",
        "| Max Dynamic Uniform Buffers | `8` |\n",
        "| Max Dynamic Storage Buffers | `4` |\n",
        "\n",
        "### Resource Limits\n",
        "\n",
        "| Key | Value |\n",
        "|-----|-------|\n",
        "| Max Sampled Textures | `16` |\n",
        "| Max Samplers | `16` |\n",
        "| Max Storage Buffers | `8` |\n",
        "| Max Storage Textures | `4` |\n",
        "| Max Uniform Buffers | `12` |\n",
        "\n",
        "### Buffer Limits\n",
        "\n",
        "| Key | Value |\n",
        "|-----|-------|\n",
        "| Max Uniform Buffer Size | `64.0 KB` |\n",
        "| Max Storage Buffer Size | `128.0 MB` |\n",
        "| Min Uniform Alignment | `256 bytes` |\n",
        "| Min Storage Alignment | `256 bytes` |\n",
        "\n",
        "### Vertex Limits\n",
        "\n",
        "| Key | Value |\n",
        "|-----|-------|\n",
        "| Max Vertex Buffers | `8` |\n",
        "| Max Vertex Attributes | `16` |\n",
        "| Max Vertex Stride | `2048 bytes` |\n",
        "\n",
        "### Compute Limits\n",
        "\n",
        "| Key | Value |\n",
        "|-----|-------|\n",
        "| Max Workgroup Size X | `256` |\n",
        "| Max Workgroup Size Y | `256` |\n",
        "| Max Workgroup Size Z | `64` |\n",
        "| Max Workgroup Invocations | `256` |\n",
        "| Max Workgroup Storage | `16.0 KB` |\n",
        "| Max Workgroups/Dimension | `65535` |\n",
        "\n",
        "### Miscellaneous Limits\n",
        "\n",
        "| Key | Value |\n",
        "|-----|-------|\n",
        "| Max Push Constant Size | `128 bytes` |\n",
        "| Max Inter-Stage Components | `60` |\n",
        "\n",
    ]
    .concat()
}

#[test]
fn markdown_of_the_mock_adapter() {
    assert_eq!(render_markdown(&mock_identity(), &mock_limits()), expected_markdown());
}

#[test]
fn markdown_is_the_same_each_time() {
    let first = render_markdown(&mock_identity(), &mock_limits());
    let second = render_markdown(&mock_identity(), &mock_limits());
    assert_eq!(first, second);
}

#[test]
fn markdown_gives_the_push_constants_in_plain_bytes() {
    let mut limits = mock_limits();
    limits.max_push_constant_size = 2048;
    let text = render_markdown(&mock_identity(), &limits);
    assert!(text.contains("| Max Push Constant Size | `2048 bytes` |\n"));
    assert!(!text.contains("2.0 KB"));
}

#[test]
fn markdown_wraps_every_value_in_code_marks() {
    let text = render_markdown(&mock_identity(), &mock_limits());
    let mut rows = 0;
    for line in text.lines() {
        if line.starts_with("| ") && line != "| Key | Value |" {
            assert!(line.contains(" | `"), "{line}");
            assert!(line.ends_with("` |"), "{line}");
            rows += 1;
        }
    }
    assert_eq!(rows, 34);
}

#[test]
fn markdown_shows_each_key_once() {
    let keys = [
        "Name",
        "Backend",
        "Vendor",
        "Device ID",
        "Driver",
        "Driver Info",
        "Max 1D Texture Size",
        "Max 2D Texture Size",
        "Max 3D Texture Size",
        "Max Array Layers",
        "Max Bind Groups",
        "Max Bindings/Group",
        "Max Dynamic Uniform Buffers",
        "Max Dynamic Storage Buffers",
        "Max Sampled Textures",
        "Max Samplers",
        "Max Storage Buffers",
        "Max Storage Textures",
        "Max Uniform Buffers",
        "Max Uniform Buffer Size",
        "Max Storage Buffer Size",
        "Min Uniform Alignment",
        "Min Storage Alignment",
        "Max Vertex Buffers",
        "Max Vertex Attributes",
        "Max Vertex Stride",
        "Max Workgroup Size X",
        "Max Workgroup Size Y",
        "Max Workgroup Size Z",
        "Max Workgroup Invocations",
        "Max Workgroup Storage",
        "Max Workgroups/Dimension",
        "Max Push Constant Size",
        "Max Inter-Stage Components",
    ];
    let text = render_markdown(&mock_identity(), &mock_limits());
    for key in keys {
        let opening = format!("| {key} | `");
        assert_eq!(text.matches(opening.as_str()).count(), 1, "{key}");
    }
}

#[test]
fn markdown_has_a_heading_for_each_group_of_limits() {
    let text = render_markdown(&mock_identity(), &mock_limits());
    let headings: Vec<&str> = text.lines().filter(|line| line.starts_with("### ")).collect();
    assert_eq!(
        headings,
        vec![
            "### Texture Limits",
            "### Binding Limits",
            "### Resource Limits",
            "### Buffer Limits",
            "### Vertex Limits",
            "### Compute Limits",
            "### Miscellaneous Limits",
        ]
    );
    assert!(text.starts_with("## WGPU Adapter Information\n\n| Key | Value |\n|-----|-------|\n"));
    assert!(text.contains("| Driver Info | `v1` |\n## WGPU Device Limits\n\n### Texture Limits\n"));
    assert!(text.ends_with("| Max Inter-Stage Components | `60` |\n\n"));
}

#[test]
fn markdown_names_the_vendor() {
    let mut info = mock_identity();
    info.vendor = 0xFFFF;
    let text = render_markdown(&info, &mock_limits());
    assert!(text.contains("| Vendor | `Unknown (0xFFFF)` |\n"));
}
