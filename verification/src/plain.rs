//! Texts without escape characters. What the library itself writes into a
//! report holds none, so a styled table reads as the plain one wherever the
//! adapter's own words hold none either.

use vstd::prelude::*;
use crate::adapter::{AdapterLimits, Identity};
use crate::layout::{
    binding_group, buffer_group, compute_group, identity_group, measured, miscellaneous_group,
    report_groups, resource_group, texture_group, vertex_group, Measure,
};
use crate::size::{byte_size_text, tenths, GB, KB, MB, TB};
use crate::style::{has_escape, without_styles};
use crate::table::{
    entry_is_plain, group_cells, group_is_plain, is_styled_table, law_styles_leave_the_text,
    sheet_is_plain, sheet_styled_as, sheet_text, table_cells, table_groups, table_text, Sheet,
    KEY_WIDTH,
};
use crate::text::{
    decimal, lemma_decimal_is_digits, lemma_upper_hex_is_digits, pad_right, upper_hex,
};
use crate::vendor::vendor_name;

verus! {

/// True where neither the adapter's name nor what is said of its driver
/// holds an escape character.
pub open spec fn identity_is_plain(info: Identity) -> bool {
    !has_escape(info.name) && !has_escape(info.driver) && !has_escape(info.driver_info)
}

/// A number in decimal holds no escape character.
proof fn lemma_decimal_holds_no_escape(n: nat)
    ensures
        !has_escape(decimal(n)),
{
    lemma_decimal_is_digits(n);
}

/// A number in hexadecimal holds no escape character.
proof fn lemma_upper_hex_holds_no_escape(n: nat)
    ensures
        !has_escape(upper_hex(n)),
{
    lemma_upper_hex_is_digits(n);
}

/// Padding adds no escape character.
proof fn lemma_padding_holds_no_escape(text: Seq<char>, width: nat)
    requires
        !has_escape(text),
    ensures
        !has_escape(pad_right(text, width)),
{
}

/// The text of a byte count holds no escape character.
proof fn lemma_byte_size_holds_no_escape(n: nat)
    ensures
        !has_escape(byte_size_text(n)),
{
    reveal_strlit(" TB");
    reveal_strlit(" GB");
    reveal_strlit(" MB");
    reveal_strlit(" KB");
    reveal_strlit(" B");
    lemma_decimal_holds_no_escape(n);
    lemma_decimal_holds_no_escape(tenths(n, TB as nat) / 10);
    lemma_decimal_holds_no_escape(tenths(n, GB as nat) / 10);
    lemma_decimal_holds_no_escape(tenths(n, MB as nat) / 10);
    lemma_decimal_holds_no_escape(tenths(n, KB as nat) / 10);
}

/// The display name of a vendor holds no escape character.
proof fn lemma_vendor_name_holds_no_escape(vendor_id: u32)
    ensures
        !has_escape(vendor_name(vendor_id)),
{
    reveal_strlit("AMD");
    reveal_strlit("NVIDIA");
    reveal_strlit("Intel");
    reveal_strlit("ARM");
    reveal_strlit("Qualcomm");
    reveal_strlit("ImgTec");
    reveal_strlit("Unknown (0x");
    reveal_strlit(")");
    lemma_upper_hex_holds_no_escape(vendor_id as nat);
}

/// The text of a limit's number holds no escape character, whatever the
/// number and the measure.
proof fn lemma_measured_holds_no_escape()
    ensures
        forall|n: u32, measure: Measure| !has_escape(#[trigger] measured(n, measure)),
{
    assert forall|n: u32, measure: Measure| !has_escape(#[trigger] measured(n, measure)) by {
        reveal_strlit(" bytes");
        lemma_decimal_holds_no_escape(n as nat);
        lemma_byte_size_holds_no_escape(n as nat);
    }
}

/// Nothing that is said of the adapter holds an escape character, so long
/// as its name and what is said of its driver hold none.
proof fn lemma_identity_group_is_plain(info: Identity)
    requires
        identity_is_plain(info),
    ensures
        group_is_plain(identity_group(info)),
{
    reveal_strlit("Adapter Information");
    reveal_strlit("Name");
    reveal_strlit("Backend");
    reveal_strlit("Vendor");
    reveal_strlit("Device ID");
    reveal_strlit("Driver");
    reveal_strlit("Driver Info");
    reveal_strlit("Noop");
    reveal_strlit("Vulkan");
    reveal_strlit("Metal");
    reveal_strlit("Dx12");
    reveal_strlit("Gl");
    reveal_strlit("BrowserWebGpu");
    lemma_vendor_name_holds_no_escape(info.vendor);
    lemma_decimal_holds_no_escape(info.device as nat);
}

/// The group on textures holds no escape character.
proof fn lemma_texture_group_is_plain(limits: AdapterLimits)
    ensures
        group_is_plain(texture_group(limits)),
{
    reveal_strlit("Texture Limits");
    reveal_strlit("Max 1D Texture Size");
    reveal_strlit("Max 2D Texture Size");
    reveal_strlit("Max 3D Texture Size");
    reveal_strlit("Max Array Layers");
    lemma_measured_holds_no_escape();
}

/// The group on bindings holds no escape character.
proof fn lemma_binding_group_is_plain(limits: AdapterLimits)
    ensures
        group_is_plain(binding_group(limits)),
{
    reveal_strlit("Binding Limits");
    reveal_strlit("Max Bind Groups");
    reveal_strlit("Max Bindings/Group");
    reveal_strlit("Max Dynamic Uniform Buffers");
    reveal_strlit("Max Dynamic Storage Buffers");
    lemma_measured_holds_no_escape();
}

/// The group on the resources of a shader stage holds no escape character.
proof fn lemma_resource_group_is_plain(limits: AdapterLimits)
    ensures
        group_is_plain(resource_group(limits)),
{
    reveal_strlit("Resource Limits");
    reveal_strlit("Max Sampled Textures");
    reveal_strlit("Max Samplers");
    reveal_strlit("Max Storage Buffers");
    reveal_strlit("Max Storage Textures");
    reveal_strlit("Max Uniform Buffers");
    lemma_measured_holds_no_escape();
}

/// The group on buffer bindings holds no escape character.
proof fn lemma_buffer_group_is_plain(limits: AdapterLimits)
    ensures
        group_is_plain(buffer_group(limits)),
{
    reveal_strlit("Buffer Limits");
    reveal_strlit("Max Uniform Buffer Size");
    reveal_strlit("Max Storage Buffer Size");
    reveal_strlit("Min Uniform Alignment");
    reveal_strlit("Min Storage Alignment");
    lemma_measured_holds_no_escape();
}

/// The group on vertex data holds no escape character.
proof fn lemma_vertex_group_is_plain(limits: AdapterLimits)
    ensures
        group_is_plain(vertex_group(limits)),
{
    reveal_strlit("Vertex Limits");
    reveal_strlit("Max Vertex Buffers");
    reveal_strlit("Max Vertex Attributes");
    reveal_strlit("Max Vertex Stride");
    lemma_measured_holds_no_escape();
}

/// The group on compute work holds no escape character.
proof fn lemma_compute_group_is_plain(limits: AdapterLimits)
    ensures
        group_is_plain(compute_group(limits)),
{
    reveal_strlit("Compute Limits");
    reveal_strlit("Max Workgroup Size X");
    reveal_strlit("Max Workgroup Size Y");
    reveal_strlit("Max Workgroup Size Z");
    reveal_strlit("Max Workgroup Invocations");
    reveal_strlit("Max Workgroup Storage");
    reveal_strlit("Max Workgroups/Dimension");
    lemma_measured_holds_no_escape();
}

/// The group of the remaining limits holds no escape character.
proof fn lemma_miscellaneous_group_is_plain(limits: AdapterLimits, push_constants: Measure)
    ensures
        group_is_plain(miscellaneous_group(limits, push_constants)),
{
    reveal_strlit("Miscellaneous Limits");
    reveal_strlit("Max Push Constant Size");
    reveal_strlit("Max Inter-Stage Components");
    lemma_measured_holds_no_escape();
}

/// No group of a report holds an escape character, so long as the adapter's
/// name and what is said of its driver hold none.
proof fn lemma_report_groups_are_plain(
    info: Identity,
    limits: AdapterLimits,
    push_constants: Measure,
)
    requires
        identity_is_plain(info),
    ensures
        forall|i: int|
            0 <= i < report_groups(info, limits, push_constants).len() ==> group_is_plain(
                #[trigger] report_groups(info, limits, push_constants)[i],
            ),
{
    let groups = report_groups(info, limits, push_constants);
    assert(groups.len() == 8);
    assert(group_is_plain(groups[0])) by {
        assert(groups[0] == identity_group(info));
        lemma_identity_group_is_plain(info);
    }
    assert(group_is_plain(groups[1])) by {
        assert(groups[1] == texture_group(limits));
        lemma_texture_group_is_plain(limits);
    }
    assert(group_is_plain(groups[2])) by {
        assert(groups[2] == binding_group(limits));
        lemma_binding_group_is_plain(limits);
    }
    assert(group_is_plain(groups[3])) by {
        assert(groups[3] == resource_group(limits));
        lemma_resource_group_is_plain(limits);
    }
    assert(group_is_plain(groups[4])) by {
        assert(groups[4] == buffer_group(limits));
        lemma_buffer_group_is_plain(limits);
    }
    assert(group_is_plain(groups[5])) by {
        assert(groups[5] == vertex_group(limits));
        lemma_vertex_group_is_plain(limits);
    }
    assert(group_is_plain(groups[6])) by {
        assert(groups[6] == compute_group(limits));
        lemma_compute_group_is_plain(limits);
    }
    assert(group_is_plain(groups[7])) by {
        assert(groups[7] == miscellaneous_group(limits, push_constants));
        lemma_miscellaneous_group_is_plain(limits, push_constants);
    }
    assert forall|i: int| 0 <= i < groups.len() implies group_is_plain(#[trigger] groups[i]) by {
        assert(i == 0 || i == 1 || i == 2 || i == 3 || i == 4 || i == 5 || i == 6 || i == 7);
    }
}

/// The cells of the table on an adapter hold no escape character, so long
/// as the adapter's name and what is said of its driver hold none.
proof fn lemma_table_cells_are_plain(info: Identity, limits: AdapterLimits)
    requires
        identity_is_plain(info),
    ensures
        sheet_is_plain(table_cells(info, limits)),
{
    reveal_strlit("WGPU Adapter Info & Device Limits");
    reveal_strlit(":");
    lemma_report_groups_are_plain(info, limits, Measure::Size);
    let groups = table_groups(info, limits);
    let cells = table_cells(info, limits);
    assert forall|i: int| 0 <= i < cells.groups.len() implies group_is_plain(
        #[trigger] cells.groups[i],
    ) by {
        let group = groups[i];
        assert(cells.groups[i] == group_cells(group));
        assert(group_is_plain(group));
        assert forall|j: int| 0 <= j < group.entries.len() implies entry_is_plain(
            #[trigger] group_cells(group).entries[j],
        ) by {
            assert(entry_is_plain(group.entries[j]));
            lemma_padding_holds_no_escape(group.entries[j].key + ":"@, KEY_WIDTH as nat);
        }
    }
}

/// The table as a terminal is given it reads as the plain table once the
/// style codes are left out, so long as the adapter's name and what is said
/// of its driver hold no escape character.
pub proof fn law_styled_table_reads_as_plain(
    text: Seq<char>,
    info: Identity,
    limits: AdapterLimits,
)
    requires
        is_styled_table(text, info, limits),
        identity_is_plain(info),
    ensures
        without_styles(text) == table_text(info, limits),
{
    let shown = choose|shown: Sheet|
        sheet_styled_as(shown, table_cells(info, limits)) && text == #[trigger] sheet_text(shown);
    lemma_table_cells_are_plain(info, limits);
    law_styles_leave_the_text(shown, table_cells(info, limits));
}

} // verus!
