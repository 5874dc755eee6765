//! What a report shows: the sections, the keys under each, and the text of
//! each value.

use vstd::prelude::*;
use vstd::string::StringExecFns;
use crate::adapter::{AdapterIdentity, AdapterLimits, Identity};
use crate::size::{byte_size_text, PrettyFormat};
use crate::text::{decimal, glimpse, push_decimal};
use crate::vendor::{vendor_name, vendor_to_string};

verus! {

/// How the number of a limit is shown.
#[derive(Clone, Copy, Debug, PartialEq, Eq, Structural)]
pub enum Measure {
    /// As it is: `256`.
    Count,
    /// As a byte count in binary units: `64.0 KB`.
    Size,
    /// As a number of bytes: `256 bytes`.
    Bytes,
}

/// A key and the text of its value, as contracts see a row.
pub struct Entry {
    pub key: Seq<char>,
    pub value: Seq<char>,
}

/// A title and the entries under it, as contracts see a section.
pub struct Group {
    pub title: Seq<char>,
    pub entries: Seq<Entry>,
}

/// One row of a report.
#[derive(Clone, Debug)]
pub struct Row {
    /// What the row is about.
    pub key: String,
    /// The text of the value.
    pub value: String,
}

/// The rows under one title.
#[derive(Clone, Debug)]
pub struct Section {
    /// The title.
    pub title: String,
    /// The rows, in the order in which they are shown.
    pub rows: Vec<Row>,
}

impl View for Row {
    type V = Entry;

    open spec fn view(&self) -> Entry {
        Entry { key: self.key@, value: self.value@ }
    }
}

impl View for Section {
    type V = Group;

    open spec fn view(&self) -> Group {
        Group { title: self.title@, entries: self.rows@.map_values(|row: Row| row@) }
    }
}

/// The groups that a list of sections stands for.
pub open spec fn groups_of(sections: Seq<Section>) -> Seq<Group> {
    sections.map_values(|section: Section| section@)
}

/// The text of a limit's number under a measure.
pub open spec fn measured(n: u32, measure: Measure) -> Seq<char> {
    match measure {
        Measure::Count => decimal(n as nat),
        Measure::Size => byte_size_text(n as nat),
        Measure::Bytes => decimal(n as nat) + " bytes"@,
    }
}

/// The entry of a limit.
pub open spec fn limit_entry(key: Seq<char>, n: u32, measure: Measure) -> Entry {
    Entry { key, value: measured(n, measure) }
}

/// Who the adapter is: six entries, the vendor by name.
pub open spec fn identity_group(info: Identity) -> Group {
    Group {
        title: "Adapter Information"@,
        entries: seq![
            Entry { key: "Name"@, value: info.name },
            Entry { key: "Backend"@, value: info.backend.label() },
            Entry { key: "Vendor"@, value: vendor_name(info.vendor) },
            Entry { key: "Device ID"@, value: decimal(info.device as nat) },
            Entry { key: "Driver"@, value: info.driver },
            Entry { key: "Driver Info"@, value: info.driver_info },
        ],
    }
}

/// How large textures can be.
pub open spec fn texture_group(limits: AdapterLimits) -> Group {
    Group {
        title: "Texture Limits"@,
        entries: seq![
            limit_entry("Max 1D Texture Size"@, limits.max_texture_dimension_1d, Measure::Count),
            limit_entry("Max 2D Texture Size"@, limits.max_texture_dimension_2d, Measure::Count),
            limit_entry("Max 3D Texture Size"@, limits.max_texture_dimension_3d, Measure::Count),
            limit_entry("Max Array Layers"@, limits.max_texture_array_layers, Measure::Count),
        ],
    }
}

/// How much can be bound.
pub open spec fn binding_group(limits: AdapterLimits) -> Group {
    Group {
        title: "Binding Limits"@,
        entries: seq![
            limit_entry("Max Bind Groups"@, limits.max_bind_groups, Measure::Count),
            limit_entry("Max Bindings/Group"@, limits.max_bindings_per_bind_group, Measure::Count),
            limit_entry(
                "Max Dynamic Uniform Buffers"@,
                limits.max_dynamic_uniform_buffers_per_pipeline_layout,
                Measure::Count,
            ),
            limit_entry(
                "Max Dynamic Storage Buffers"@,
                limits.max_dynamic_storage_buffers_per_pipeline_layout,
                Measure::Count,
            ),
        ],
    }
}

/// How many resources one shader stage can reach.
pub open spec fn resource_group(limits: AdapterLimits) -> Group {
    Group {
        title: "Resource Limits"@,
        entries: seq![
            limit_entry(
                "Max Sampled Textures"@,
                limits.max_sampled_textures_per_shader_stage,
                Measure::Count,
            ),
            limit_entry("Max Samplers"@, limits.max_samplers_per_shader_stage, Measure::Count),
            limit_entry(
                "Max Storage Buffers"@,
                limits.max_storage_buffers_per_shader_stage,
                Measure::Count,
            ),
            limit_entry(
                "Max Storage Textures"@,
                limits.max_storage_textures_per_shader_stage,
                Measure::Count,
            ),
            limit_entry(
                "Max Uniform Buffers"@,
                limits.max_uniform_buffers_per_shader_stage,
                Measure::Count,
            ),
        ],
    }
}

/// How large buffer bindings can be, and how they must be aligned.
pub open spec fn buffer_group(limits: AdapterLimits) -> Group {
    Group {
        title: "Buffer Limits"@,
        entries: seq![
            limit_entry(
                "Max Uniform Buffer Size"@,
                limits.max_uniform_buffer_binding_size,
                Measure::Size,
            ),
            limit_entry(
                "Max Storage Buffer Size"@,
                limits.max_storage_buffer_binding_size,
                Measure::Size,
            ),
            limit_entry(
                "Min Uniform Alignment"@,
                limits.min_uniform_buffer_offset_alignment,
                Measure::Bytes,
            ),
            limit_entry(
                "Min Storage Alignment"@,
                limits.min_storage_buffer_offset_alignment,
                Measure::Bytes,
            ),
        ],
    }
}

/// How much vertex data a pipeline can take.
pub open spec fn vertex_group(limits: AdapterLimits) -> Group {
    Group {
        title: "Vertex Limits"@,
        entries: seq![
            limit_entry("Max Vertex Buffers"@, limits.max_vertex_buffers, Measure::Count),
            limit_entry("Max Vertex Attributes"@, limits.max_vertex_attributes, Measure::Count),
            limit_entry(
                "Max Vertex Stride"@,
                limits.max_vertex_buffer_array_stride,
                Measure::Bytes,
            ),
        ],
    }
}

/// How large compute work can be.
pub open spec fn compute_group(limits: AdapterLimits) -> Group {
    Group {
        title: "Compute Limits"@,
        entries: seq![
            limit_entry(
                "Max Workgroup Size X"@,
                limits.max_compute_workgroup_size_x,
                Measure::Count,
            ),
            limit_entry(
                "Max Workgroup Size Y"@,
                limits.max_compute_workgroup_size_y,
                Measure::Count,
            ),
            limit_entry(
                "Max Workgroup Size Z"@,
                limits.max_compute_workgroup_size_z,
                Measure::Count,
            ),
            limit_entry(
                "Max Workgroup Invocations"@,
                limits.max_compute_invocations_per_workgroup,
                Measure::Count,
            ),
            limit_entry(
                "Max Workgroup Storage"@,
                limits.max_compute_workgroup_storage_size,
                Measure::Size,
            ),
            limit_entry(
                "Max Workgroups/Dimension"@,
                limits.max_compute_workgroups_per_dimension,
                Measure::Count,
            ),
        ],
    }
}

/// The limits that fit under no other title. The size of the push constants
/// is shown under the measure that the caller names.
pub open spec fn miscellaneous_group(limits: AdapterLimits, push_constants: Measure) -> Group {
    Group {
        title: "Miscellaneous Limits"@,
        entries: seq![
            limit_entry("Max Push Constant Size"@, limits.max_push_constant_size, push_constants),
            limit_entry(
                "Max Inter-Stage Components"@,
                limits.max_inter_stage_shader_components,
                Measure::Count,
            ),
        ],
    }
}

/// The seven groups of limits, in the order in which reports show them.
pub open spec fn limit_groups(limits: AdapterLimits, push_constants: Measure) -> Seq<Group> {
    seq![
        texture_group(limits),
        binding_group(limits),
        resource_group(limits),
        buffer_group(limits),
        vertex_group(limits),
        compute_group(limits),
        miscellaneous_group(limits, push_constants),
    ]
}

/// The groups of a whole report: the adapter first, then its limits.
pub open spec fn report_groups(
    info: Identity,
    limits: AdapterLimits,
    push_constants: Measure,
) -> Seq<Group> {
    seq![identity_group(info)] + limit_groups(limits, push_constants)
}

/// The keys of a group, in order.
pub open spec fn group_keys(group: Group) -> Seq<Seq<char>> {
    group.entries.map_values(|entry: Entry| entry.key)
}

/// The keys of all the groups, in order.
pub open spec fn keys_of(groups: Seq<Group>) -> Seq<Seq<char>> {
    groups.map_values(|group: Group| group_keys(group)).flatten()
}

/// The keys that every report shows, in order.
pub open spec fn report_keys() -> Seq<Seq<char>> {
    seq![
        "Name"@,
        "Backend"@,
        "Vendor"@,
        "Device ID"@,
        "Driver"@,
        "Driver Info"@,
        "Max 1D Texture Size"@,
        "Max 2D Texture Size"@,
        "Max 3D Texture Size"@,
        "Max Array Layers"@,
        "Max Bind Groups"@,
        "Max Bindings/Group"@,
        "Max Dynamic Uniform Buffers"@,
        "Max Dynamic Storage Buffers"@,
        "Max Sampled Textures"@,
        "Max Samplers"@,
        "Max Storage Buffers"@,
        "Max Storage Textures"@,
        "Max Uniform Buffers"@,
        "Max Uniform Buffer Size"@,
        "Max Storage Buffer Size"@,
        "Min Uniform Alignment"@,
        "Min Storage Alignment"@,
        "Max Vertex Buffers"@,
        "Max Vertex Attributes"@,
        "Max Vertex Stride"@,
        "Max Workgroup Size X"@,
        "Max Workgroup Size Y"@,
        "Max Workgroup Size Z"@,
        "Max Workgroup Invocations"@,
        "Max Workgroup Storage"@,
        "Max Workgroups/Dimension"@,
        "Max Push Constant Size"@,
        "Max Inter-Stage Components"@,
    ]
}

/// What tells the keys apart: their lengths and the characters at four
/// places.
spec fn key_glimpse(key: Seq<char>) -> (nat, char, char, char, char) {
    glimpse(key, 4, 5, 12, 19)
}

/// The glimpse of each key. No two keys have the same.
spec fn keys_told_apart() -> bool {
    &&& key_glimpse("Name"@) == (4nat, ' ', ' ', ' ', ' ')
    &&& key_glimpse("Backend"@) == (7nat, 'e', 'n', ' ', ' ')
    &&& key_glimpse("Vendor"@) == (6nat, 'o', 'r', ' ', ' ')
    &&& key_glimpse("Device ID"@) == (9nat, 'c', 'e', ' ', ' ')
    &&& key_glimpse("Driver"@) == (6nat, 'e', 'r', ' ', ' ')
    &&& key_glimpse("Driver Info"@) == (11nat, 'e', 'r', ' ', ' ')
    &&& key_glimpse("Max 1D Texture Size"@) == (19nat, '1', 'D', 'r', ' ')
    &&& key_glimpse("Max 2D Texture Size"@) == (19nat, '2', 'D', 'r', ' ')
    &&& key_glimpse("Max 3D Texture Size"@) == (19nat, '3', 'D', 'r', ' ')
    &&& key_glimpse("Max Array Layers"@) == (16nat, 'A', 'r', 'y', ' ')
    &&& key_glimpse("Max Bind Groups"@) == (15nat, 'B', 'i', 'u', ' ')
    &&& key_glimpse("Max Bindings/Group"@) == (18nat, 'B', 'i', '/', ' ')
    &&& key_glimpse("Max Dynamic Uniform Buffers"@) == (27nat, 'D', 'y', 'U', ' ')
    &&& key_glimpse("Max Dynamic Storage Buffers"@) == (27nat, 'D', 'y', 'S', ' ')
    &&& key_glimpse("Max Sampled Textures"@) == (20nat, 'S', 'a', 'T', 's')
    &&& key_glimpse("Max Samplers"@) == (12nat, 'S', 'a', ' ', ' ')
    &&& key_glimpse("Max Storage Buffers"@) == (19nat, 'S', 't', 'B', ' ')
    &&& key_glimpse("Max Storage Textures"@) == (20nat, 'S', 't', 'T', 's')
    &&& key_glimpse("Max Uniform Buffers"@) == (19nat, 'U', 'n', 'B', ' ')
    &&& key_glimpse("Max Uniform Buffer Size"@) == (23nat, 'U', 'n', 'B', 'S')
    &&& key_glimpse("Max Storage Buffer Size"@) == (23nat, 'S', 't', 'B', 'S')
    &&& key_glimpse("Min Uniform Alignment"@) == (21nat, 'U', 'n', 'A', 'n')
    &&& key_glimpse("Min Storage Alignment"@) == (21nat, 'S', 't', 'A', 'n')
    &&& key_glimpse("Max Vertex Buffers"@) == (18nat, 'V', 'e', 'u', ' ')
    &&& key_glimpse("Max Vertex Attributes"@) == (21nat, 'V', 'e', 't', 'e')
    &&& key_glimpse("Max Vertex Stride"@) == (17nat, 'V', 'e', 't', ' ')
    &&& key_glimpse("Max Workgroup Size X"@) == (20nat, 'W', 'o', 'p', 'X')
    &&& key_glimpse("Max Workgroup Size Y"@) == (20nat, 'W', 'o', 'p', 'Y')
    &&& key_glimpse("Max Workgroup Size Z"@) == (20nat, 'W', 'o', 'p', 'Z')
    &&& key_glimpse("Max Workgroup Invocations"@) == (25nat, 'W', 'o', 'p', 'a')
    &&& key_glimpse("Max Workgroup Storage"@) == (21nat, 'W', 'o', 'p', 'g')
    &&& key_glimpse("Max Workgroups/Dimension"@) == (24nat, 'W', 'o', 'p', 'n')
    &&& key_glimpse("Max Push Constant Size"@) == (22nat, 'P', 'u', 's', 'i')
    &&& key_glimpse("Max Inter-Stage Components"@) == (26nat, 'I', 'n', 'a', 'p')
}

/// The keys have the glimpses listed.
proof fn lemma_keys_told_apart()
    ensures
        keys_told_apart(),
{
    reveal_strlit("Name");
    reveal_strlit("Backend");
    reveal_strlit("Vendor");
    reveal_strlit("Device ID");
    reveal_strlit("Driver");
    reveal_strlit("Driver Info");
    reveal_strlit("Max 1D Texture Size");
    reveal_strlit("Max 2D Texture Size");
    reveal_strlit("Max 3D Texture Size");
    reveal_strlit("Max Array Layers");
    reveal_strlit("Max Bind Groups");
    reveal_strlit("Max Bindings/Group");
    reveal_strlit("Max Dynamic Uniform Buffers");
    reveal_strlit("Max Dynamic Storage Buffers");
    reveal_strlit("Max Sampled Textures");
    reveal_strlit("Max Samplers");
    reveal_strlit("Max Storage Buffers");
    reveal_strlit("Max Storage Textures");
    reveal_strlit("Max Uniform Buffers");
    reveal_strlit("Max Uniform Buffer Size");
    reveal_strlit("Max Storage Buffer Size");
    reveal_strlit("Min Uniform Alignment");
    reveal_strlit("Min Storage Alignment");
    reveal_strlit("Max Vertex Buffers");
    reveal_strlit("Max Vertex Attributes");
    reveal_strlit("Max Vertex Stride");
    reveal_strlit("Max Workgroup Size X");
    reveal_strlit("Max Workgroup Size Y");
    reveal_strlit("Max Workgroup Size Z");
    reveal_strlit("Max Workgroup Invocations");
    reveal_strlit("Max Workgroup Storage");
    reveal_strlit("Max Workgroups/Dimension");
    reveal_strlit("Max Push Constant Size");
    reveal_strlit("Max Inter-Stage Components");
}

/// A report has one row for each of its keys and no other row, whatever the
/// adapter and whichever way the push constants are measured: the keys of
/// its rows are the thirty-four keys in their order, and no key stands twice
/// among them.
pub proof fn law_each_key_once(info: Identity, limits: AdapterLimits, push_constants: Measure)
    ensures
        keys_of(report_groups(info, limits, push_constants)) == report_keys(),
        forall|i: int, j: int|
            0 <= i < j < report_keys().len() ==> report_keys()[i] != report_keys()[j],
{
    lemma_keys_told_apart();
    let groups = report_groups(info, limits, push_constants);
    let parts = groups.map_values(|group: Group| group_keys(group));
    reveal_with_fuel(Seq::flatten, 10);
    assert(parts.flatten() =~= report_keys());
}

/// The text of a limit's number under a measure.
pub fn measure_text(n: u32, measure: Measure) -> (text: String)
    ensures
        text@ == measured(n, measure),
{
    match measure {
        Measure::Count => {
            let mut text = String::new();
            push_decimal(&mut text, n as u64);
            text
        },
        Measure::Size => n.pretty_format(),
        Measure::Bytes => {
            let mut text = String::new();
            push_decimal(&mut text, n as u64);
            text.append(" bytes");
            text
        },
    }
}

/// A row that shows `value` under `key`.
fn text_row(key: &str, value: String) -> (row: Row)
    ensures
        row@ == (Entry { key: key@, value: value@ }),
{
    Row { key: String::from_str(key), value }
}

/// The row of a limit.
fn limit_row(key: &str, n: u32, measure: Measure) -> (row: Row)
    ensures
        row@ == limit_entry(key@, n, measure),
{
    Row { key: String::from_str(key), value: measure_text(n, measure) }
}

/// The section that shows who the adapter is.
pub fn identity_section(info: &AdapterIdentity) -> (section: Section)
    ensures
        section@ == identity_group(info@),
{
    let mut device = String::new();
    push_decimal(&mut device, info.device as u64);
    let mut rows: Vec<Row> = Vec::new();
    rows.push(text_row("Name", info.name.clone()));
    rows.push(text_row("Backend", String::from_str(info.backend.name())));
    rows.push(text_row("Vendor", vendor_to_string(info.vendor)));
    rows.push(text_row("Device ID", device));
    rows.push(text_row("Driver", info.driver.clone()));
    rows.push(text_row("Driver Info", info.driver_info.clone()));
    let section = Section { title: String::from_str("Adapter Information"), rows };
    assert(section@.entries =~= identity_group(info@).entries);
    section
}

/// The section on textures.
pub fn texture_section(limits: &AdapterLimits) -> (section: Section)
    ensures
        section@ == texture_group(*limits),
{
    let mut rows: Vec<Row> = Vec::new();
    rows.push(limit_row("Max 1D Texture Size", limits.max_texture_dimension_1d, Measure::Count));
    rows.push(limit_row("Max 2D Texture Size", limits.max_texture_dimension_2d, Measure::Count));
    rows.push(limit_row("Max 3D Texture Size", limits.max_texture_dimension_3d, Measure::Count));
    rows.push(limit_row("Max Array Layers", limits.max_texture_array_layers, Measure::Count));
    let section = Section { title: String::from_str("Texture Limits"), rows };
    assert(section@.entries =~= texture_group(*limits).entries);
    section
}

/// The section on bindings.
pub fn binding_section(limits: &AdapterLimits) -> (section: Section)
    ensures
        section@ == binding_group(*limits),
{
    let mut rows: Vec<Row> = Vec::new();
    rows.push(limit_row(
        "Max Bind Groups",
        limits.max_bind_groups,
        Measure::Count,
    ));
    rows.push(limit_row(
        "Max Bindings/Group",
        limits.max_bindings_per_bind_group,
        Measure::Count,
    ));
    rows.push(limit_row(
        "Max Dynamic Uniform Buffers",
        limits.max_dynamic_uniform_buffers_per_pipeline_layout,
        Measure::Count,
    ));
    rows.push(limit_row(
        "Max Dynamic Storage Buffers",
        limits.max_dynamic_storage_buffers_per_pipeline_layout,
        Measure::Count,
    ));
    let section = Section { title: String::from_str("Binding Limits"), rows };
    assert(section@.entries =~= binding_group(*limits).entries);
    section
}

/// The section on the resources of a shader stage.
pub fn resource_section(limits: &AdapterLimits) -> (section: Section)
    ensures
        section@ == resource_group(*limits),
{
    let mut rows: Vec<Row> = Vec::new();
    rows.push(limit_row(
        "Max Sampled Textures",
        limits.max_sampled_textures_per_shader_stage,
        Measure::Count,
    ));
    rows.push(limit_row(
        "Max Samplers",
        limits.max_samplers_per_shader_stage,
        Measure::Count,
    ));
    rows.push(limit_row(
        "Max Storage Buffers",
        limits.max_storage_buffers_per_shader_stage,
        Measure::Count,
    ));
    rows.push(limit_row(
        "Max Storage Textures",
        limits.max_storage_textures_per_shader_stage,
        Measure::Count,
    ));
    rows.push(limit_row(
        "Max Uniform Buffers",
        limits.max_uniform_buffers_per_shader_stage,
        Measure::Count,
    ));
    let section = Section { title: String::from_str("Resource Limits"), rows };
    assert(section@.entries =~= resource_group(*limits).entries);
    section
}

/// The section on buffer bindings.
pub fn buffer_section(limits: &AdapterLimits) -> (section: Section)
    ensures
        section@ == buffer_group(*limits),
{
    let mut rows: Vec<Row> = Vec::new();
    rows.push(limit_row(
        "Max Uniform Buffer Size",
        limits.max_uniform_buffer_binding_size,
        Measure::Size,
    ));
    rows.push(limit_row(
        "Max Storage Buffer Size",
        limits.max_storage_buffer_binding_size,
        Measure::Size,
    ));
    rows.push(limit_row(
        "Min Uniform Alignment",
        limits.min_uniform_buffer_offset_alignment,
        Measure::Bytes,
    ));
    rows.push(limit_row(
        "Min Storage Alignment",
        limits.min_storage_buffer_offset_alignment,
        Measure::Bytes,
    ));
    let section = Section { title: String::from_str("Buffer Limits"), rows };
    assert(section@.entries =~= buffer_group(*limits).entries);
    section
}

/// The section on vertex data.
pub fn vertex_section(limits: &AdapterLimits) -> (section: Section)
    ensures
        section@ == vertex_group(*limits),
{
    let mut rows: Vec<Row> = Vec::new();
    rows.push(limit_row(
        "Max Vertex Buffers",
        limits.max_vertex_buffers,
        Measure::Count,
    ));
    rows.push(limit_row(
        "Max Vertex Attributes",
        limits.max_vertex_attributes,
        Measure::Count,
    ));
    rows.push(limit_row(
        "Max Vertex Stride",
        limits.max_vertex_buffer_array_stride,
        Measure::Bytes,
    ));
    let section = Section { title: String::from_str("Vertex Limits"), rows };
    assert(section@.entries =~= vertex_group(*limits).entries);
    section
}

/// The section on compute work.
pub fn compute_section(limits: &AdapterLimits) -> (section: Section)
    ensures
        section@ == compute_group(*limits),
{
    let mut rows: Vec<Row> = Vec::new();
    rows.push(limit_row(
        "Max Workgroup Size X",
        limits.max_compute_workgroup_size_x,
        Measure::Count,
    ));
    rows.push(limit_row(
        "Max Workgroup Size Y",
        limits.max_compute_workgroup_size_y,
        Measure::Count,
    ));
    rows.push(limit_row(
        "Max Workgroup Size Z",
        limits.max_compute_workgroup_size_z,
        Measure::Count,
    ));
    rows.push(limit_row(
        "Max Workgroup Invocations",
        limits.max_compute_invocations_per_workgroup,
        Measure::Count,
    ));
    rows.push(limit_row(
        "Max Workgroup Storage",
        limits.max_compute_workgroup_storage_size,
        Measure::Size,
    ));
    rows.push(limit_row(
        "Max Workgroups/Dimension",
        limits.max_compute_workgroups_per_dimension,
        Measure::Count,
    ));
    let section = Section { title: String::from_str("Compute Limits"), rows };
    assert(section@.entries =~= compute_group(*limits).entries);
    section
}

/// The section on the remaining limits, with the size of the push constants
/// under the measure that the caller names.
pub fn miscellaneous_section(limits: &AdapterLimits, push_constants: Measure) -> (section: Section)
    ensures
        section@ == miscellaneous_group(*limits, push_constants),
{
    let mut rows: Vec<Row> = Vec::new();
    rows.push(limit_row(
        "Max Push Constant Size",
        limits.max_push_constant_size,
        push_constants,
    ));
    rows.push(limit_row(
        "Max Inter-Stage Components",
        limits.max_inter_stage_shader_components,
        Measure::Count,
    ));
    let section = Section { title: String::from_str("Miscellaneous Limits"), rows };
    assert(section@.entries =~= miscellaneous_group(*limits, push_constants).entries);
    section
}

/// The seven sections on limits, in the order in which reports show them.
pub fn limit_sections(limits: &AdapterLimits, push_constants: Measure) -> (sections: Vec<Section>)
    ensures
        groups_of(sections@) == limit_groups(*limits, push_constants),
{
    let mut sections: Vec<Section> = Vec::new();
    sections.push(texture_section(limits));
    sections.push(binding_section(limits));
    sections.push(resource_section(limits));
    sections.push(buffer_section(limits));
    sections.push(vertex_section(limits));
    sections.push(compute_section(limits));
    sections.push(miscellaneous_section(limits, push_constants));
    assert(groups_of(sections@) =~= limit_groups(*limits, push_constants));
    sections
}

} // verus!
