//! The report as markdown: a table on the adapter, then one table for each
//! group of limits.

use vstd::prelude::*;
use vstd::string::StringExecFns;
use crate::adapter::{AdapterIdentity, AdapterLimits, Identity};
use crate::layout::{
    groups_of, identity_group, identity_section, limit_groups, limit_sections, Entry, Group,
    Measure, Row, Section,
};

verus! {

/// The two lines that open every table: the column names and the rule under
/// them.
pub open spec fn table_head() -> Seq<char> {
    "| Key | Value |\n|-----|-------|\n"@
}

/// One line of a table: the key, and the value in code marks.
pub open spec fn markdown_row(entry: Entry) -> Seq<char> {
    "| "@ + entry.key + " | `"@ + entry.value + "` |\n"@
}

/// The lines of the entries, one after the other.
pub open spec fn markdown_rows(entries: Seq<Entry>) -> Seq<char> {
    entries.map_values(|entry: Entry| markdown_row(entry)).flatten()
}

/// A group of limits: a heading of the third level, the table, and an empty
/// line.
pub open spec fn markdown_group(group: Group) -> Seq<char> {
    "### "@ + group.title + "\n\n"@ + table_head() + markdown_rows(group.entries) + "\n"@
}

/// The groups, one after the other.
pub open spec fn markdown_groups(groups: Seq<Group>) -> Seq<char> {
    groups.map_values(|group: Group| markdown_group(group)).flatten()
}

/// The whole report. The entries on the adapter stand in one table under
/// their own heading, with no empty line after it; the groups of limits
/// follow under a second heading. Every value stands in code marks. The size
/// of the push constants is given in plain bytes here, where the aligned
/// table gives it in binary units.
pub open spec fn markdown_text(info: Identity, limits: AdapterLimits) -> Seq<char> {
    "## WGPU Adapter Information\n\n"@ + table_head() + markdown_rows(identity_group(info).entries)
        + "## WGPU Device Limits\n\n"@ + markdown_groups(limit_groups(limits, Measure::Bytes))
}

/// Appends the lines of `rows`.
fn push_rows(out: &mut String, rows: &Vec<Row>)
    ensures
        final(out)@ == old(out)@ + markdown_rows(rows@.map_values(|row: Row| row@)),
{
    let ghost entries = rows@.map_values(|row: Row| row@);
    let ghost lines = entries.map_values(|entry: Entry| markdown_row(entry));
    let mut i: usize = 0;
    assert(lines.take(0).flatten() =~= Seq::<char>::empty());
    while i < rows.len()
        invariant
            i <= rows.len(),
            entries == rows@.map_values(|row: Row| row@),
            lines == entries.map_values(|entry: Entry| markdown_row(entry)),
            out@ == old(out)@ + lines.take(i as int).flatten(),
        decreases rows.len() - i,
    {
        let row = &rows[i];
        out.append("| ");
        out.append(row.key.as_str());
        out.append(" | `");
        out.append(row.value.as_str());
        out.append("` |\n");
        proof {
            assert(lines.take(i + 1) =~= lines.take(i as int).push(lines[i as int]));
            lines.take(i as int).lemma_flatten_push(lines[i as int]);
            assert(lines[i as int] == markdown_row(rows[i as int]@));
            assert(out@ =~= old(out)@ + lines.take(i + 1).flatten());
        }
        i = i + 1;
    }
    assert(lines.take(i as int) =~= lines);
}

/// Appends the heading and the table of each section.
fn push_sections(out: &mut String, sections: &Vec<Section>)
    ensures
        final(out)@ == old(out)@ + markdown_groups(groups_of(sections@)),
{
    let ghost groups = groups_of(sections@);
    let ghost parts = groups.map_values(|group: Group| markdown_group(group));
    let mut i: usize = 0;
    assert(parts.take(0).flatten() =~= Seq::<char>::empty());
    while i < sections.len()
        invariant
            i <= sections.len(),
            groups == groups_of(sections@),
            parts == groups.map_values(|group: Group| markdown_group(group)),
            out@ == old(out)@ + parts.take(i as int).flatten(),
        decreases sections.len() - i,
    {
        let section = &sections[i];
        let ghost before = out@;
        out.append("### ");
        out.append(section.title.as_str());
        out.append("\n\n");
        out.append("| Key | Value |\n|-----|-------|\n");
        push_rows(out, &section.rows);
        out.append("\n");
        proof {
            assert(parts.take(i + 1) =~= parts.take(i as int).push(parts[i as int]));
            parts.take(i as int).lemma_flatten_push(parts[i as int]);
            assert(parts[i as int] == markdown_group(sections[i as int]@));
            assert(out@ =~= before + markdown_group(section@));
            assert(out@ =~= old(out)@ + parts.take(i + 1).flatten());
        }
        i = i + 1;
    }
    assert(parts.take(i as int) =~= parts);
}

/// Renders the report as markdown.
pub fn render_markdown(info: &AdapterIdentity, limits: &AdapterLimits) -> (text: String)
    ensures
        text@ == markdown_text(info@, *limits),
{
    let identity = identity_section(info);
    let sections = limit_sections(limits, Measure::Bytes);
    let mut text = String::from_str("## WGPU Adapter Information\n\n");
    text.append("| Key | Value |\n|-----|-------|\n");
    push_rows(&mut text, &identity.rows);
    text.append("## WGPU Device Limits\n\n");
    push_sections(&mut text, &sections);
    assert(text@ =~= markdown_text(info@, *limits));
    text
}

} // verus!
