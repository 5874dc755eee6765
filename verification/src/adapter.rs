//! What is known of an adapter: who it is, and what it can hold.

use vstd::prelude::*;

verus! {

/// The graphics interface through which an adapter is driven.
#[derive(Clone, Copy, Debug, PartialEq, Eq, Structural)]
pub enum Backend {
    /// A stand-in that renders nothing.
    Noop,
    /// Vulkan.
    Vulkan,
    /// Metal.
    Metal,
    /// Direct3D 12.
    Dx12,
    /// OpenGL and OpenGL ES.
    Gl,
    /// WebGPU as a browser offers it.
    BrowserWebGpu,
}

impl Backend {
    /// The name under which reports show the backend.
    pub open spec fn label(self) -> Seq<char> {
        match self {
            Backend::Noop => "Noop"@,
            Backend::Vulkan => "Vulkan"@,
            Backend::Metal => "Metal"@,
            Backend::Dx12 => "Dx12"@,
            Backend::Gl => "Gl"@,
            Backend::BrowserWebGpu => "BrowserWebGpu"@,
        }
    }

    /// The name under which reports show the backend.
    pub fn name(&self) -> (name: &'static str)
        ensures
            name@ == self.label(),
    {
        match self {
            Backend::Noop => "Noop",
            Backend::Vulkan => "Vulkan",
            Backend::Metal => "Metal",
            Backend::Dx12 => "Dx12",
            Backend::Gl => "Gl",
            Backend::BrowserWebGpu => "BrowserWebGpu",
        }
    }
}

/// Who an adapter is.
#[derive(Clone, Debug)]
pub struct AdapterIdentity {
    /// The adapter's name.
    pub name: String,
    /// The PCI code of its vendor.
    pub vendor: u32,
    /// The PCI code of the device.
    pub device: u32,
    /// The name of its driver.
    pub driver: String,
    /// What the driver says of itself.
    pub driver_info: String,
    /// The interface through which it is driven.
    pub backend: Backend,
}

/// An adapter's identity as contracts see it.
pub struct Identity {
    pub name: Seq<char>,
    pub vendor: u32,
    pub device: u32,
    pub driver: Seq<char>,
    pub driver_info: Seq<char>,
    pub backend: Backend,
}

impl View for AdapterIdentity {
    type V = Identity;

    open spec fn view(&self) -> Identity {
        Identity {
            name: self.name@,
            vendor: self.vendor,
            device: self.device,
            driver: self.driver@,
            driver_info: self.driver_info@,
            backend: self.backend,
        }
    }
}

/// The most that an adapter can hold of each resource.
#[derive(Clone, Copy, Debug, PartialEq, Eq, Default)]
pub struct AdapterLimits {
    /// Largest width of a one-dimensional texture.
    pub max_texture_dimension_1d: u32,
    /// Largest width and height of a two-dimensional texture.
    pub max_texture_dimension_2d: u32,
    /// Largest width, height and depth of a three-dimensional texture.
    pub max_texture_dimension_3d: u32,
    /// Most layers in a texture array.
    pub max_texture_array_layers: u32,
    /// Most bind groups in a pipeline layout.
    pub max_bind_groups: u32,
    /// Most bindings in one bind group.
    pub max_bindings_per_bind_group: u32,
    /// Most uniform buffers with dynamic offsets in a pipeline layout.
    pub max_dynamic_uniform_buffers_per_pipeline_layout: u32,
    /// Most storage buffers with dynamic offsets in a pipeline layout.
    pub max_dynamic_storage_buffers_per_pipeline_layout: u32,
    /// Most sampled textures that one shader stage can reach.
    pub max_sampled_textures_per_shader_stage: u32,
    /// Most samplers that one shader stage can reach.
    pub max_samplers_per_shader_stage: u32,
    /// Most storage buffers that one shader stage can reach.
    pub max_storage_buffers_per_shader_stage: u32,
    /// Most storage textures that one shader stage can reach.
    pub max_storage_textures_per_shader_stage: u32,
    /// Most uniform buffers that one shader stage can reach.
    pub max_uniform_buffers_per_shader_stage: u32,
    /// Most elements of binding arrays that one shader stage can reach.
    pub max_binding_array_elements_per_shader_stage: u32,
    /// Most samplers in binding arrays that one shader stage can reach.
    pub max_binding_array_sampler_elements_per_shader_stage: u32,
    /// Largest uniform buffer binding, in bytes.
    pub max_uniform_buffer_binding_size: u32,
    /// Largest storage buffer binding, in bytes.
    pub max_storage_buffer_binding_size: u32,
    /// Most vertex buffers in a render pipeline.
    pub max_vertex_buffers: u32,
    /// Largest buffer, in bytes.
    pub max_buffer_size: u64,
    /// Most vertex attributes in a render pipeline.
    pub max_vertex_attributes: u32,
    /// Largest stride of a vertex buffer, in bytes.
    pub max_vertex_buffer_array_stride: u32,
    /// Alignment that the offset of a uniform buffer binding must have, in bytes.
    pub min_uniform_buffer_offset_alignment: u32,
    /// Alignment that the offset of a storage buffer binding must have, in bytes.
    pub min_storage_buffer_offset_alignment: u32,
    /// Most components that pass from one shader stage to the next.
    pub max_inter_stage_shader_components: u32,
    /// Most colour attachments of a render pass.
    pub max_color_attachments: u32,
    /// Most bytes that the colour attachments of a render pass hold for one sample.
    pub max_color_attachment_bytes_per_sample: u32,
    /// Most workgroup memory that a compute shader can use, in bytes.
    pub max_compute_workgroup_storage_size: u32,
    /// Most invocations in one compute workgroup.
    pub max_compute_invocations_per_workgroup: u32,
    /// Largest first dimension of a compute workgroup.
    pub max_compute_workgroup_size_x: u32,
    /// Largest second dimension of a compute workgroup.
    pub max_compute_workgroup_size_y: u32,
    /// Largest third dimension of a compute workgroup.
    pub max_compute_workgroup_size_z: u32,
    /// Most workgroups that one dispatch can start in each dimension.
    pub max_compute_workgroups_per_dimension: u32,
    /// Smallest size of a subgroup.
    pub min_subgroup_size: u32,
    /// Largest size of a subgroup.
    pub max_subgroup_size: u32,
    /// Largest range of push constants, in bytes.
    pub max_push_constant_size: u32,
    /// Most bindings that are no samplers.
    pub max_non_sampler_bindings: u32,
}

} // verus!
