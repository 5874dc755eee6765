//! The report as an aligned table for a terminal: a title, then eight
//! sections of keys and values, the values in one column.

use vstd::prelude::*;
use vstd::string::StringExecFns;
use crate::adapter::{AdapterIdentity, AdapterLimits, Identity};
use crate::layout::{
    groups_of, identity_section, limit_groups, limit_sections, report_groups, Entry, Group,
    Measure, Row, Section,
};
use crate::style::{
    emphasized, has_escape, lemma_plain_text_stays, lemma_styled_reads_as_plain, styled_as,
    without_styles, Emphasis, MAX_WIDTH,
};
use crate::text::{pad_right, push_padded};

verus! {

/// The width of the column of keys. Every key fits in it, colon included.
pub const KEY_WIDTH: usize = 30;

/// The line above the report.
pub open spec fn title_text() -> Seq<char> {
    "WGPU Adapter Info & Device Limits"@
}

/// The cells of a table as contracts see them: the title, and under the
/// title of each group the cells of its keys and values.
pub struct Sheet {
    pub title: Seq<char>,
    pub groups: Seq<Group>,
}

/// The cells of a table, ready to be written.
#[derive(Clone, Debug)]
pub struct Table {
    /// The line above the report.
    pub title: String,
    /// The sections, whose keys are cells of the key column.
    pub sections: Vec<Section>,
}

impl View for Table {
    type V = Sheet;

    open spec fn view(&self) -> Sheet {
        Sheet { title: self.title@, groups: groups_of(self.sections@) }
    }
}

/// The eight groups of a table: the adapter first, then its limits, with the
/// size of the push constants in binary units.
pub open spec fn table_groups(info: Identity, limits: AdapterLimits) -> Seq<Group> {
    report_groups(info, limits, Measure::Size)
}

/// The cell of a key: the key and a colon, padded to the width of the column.
pub open spec fn key_cell(key: Seq<char>) -> Seq<char> {
    pad_right(key + ":"@, KEY_WIDTH as nat)
}

/// The two cells of an entry.
pub open spec fn entry_cells(entry: Entry) -> Entry {
    Entry { key: key_cell(entry.key), value: entry.value }
}

/// The cells of a group.
pub open spec fn group_cells(group: Group) -> Group {
    Group {
        title: group.title,
        entries: group.entries.map_values(|entry: Entry| entry_cells(entry)),
    }
}

/// The cells of the table on an adapter, without any style.
pub open spec fn table_cells(info: Identity, limits: AdapterLimits) -> Sheet {
    Sheet {
        title: title_text(),
        groups: table_groups(info, limits).map_values(|group: Group| group_cells(group)),
    }
}

/// One line of a table: the cell of the key, a space, the cell of the value.
pub open spec fn sheet_row(cells: Entry) -> Seq<char> {
    cells.key + " "@ + cells.value + "\n"@
}

/// The lines of the rows, one after the other.
pub open spec fn sheet_rows(entries: Seq<Entry>) -> Seq<char> {
    entries.map_values(|cells: Entry| sheet_row(cells)).flatten()
}

/// A group: an empty line, the title, and the rows.
pub open spec fn sheet_group(group: Group) -> Seq<char> {
    "\n"@ + group.title + "\n"@ + sheet_rows(group.entries)
}

/// The groups, one after the other.
pub open spec fn sheet_groups(groups: Seq<Group>) -> Seq<char> {
    groups.map_values(|group: Group| sheet_group(group)).flatten()
}

/// The text of a table: the title on a line of its own, then the groups.
pub open spec fn sheet_text(sheet: Sheet) -> Seq<char> {
    sheet.title + "\n"@ + sheet_groups(sheet.groups)
}

/// The table on an adapter as plain text.
pub open spec fn table_text(info: Identity, limits: AdapterLimits) -> Seq<char> {
    sheet_text(table_cells(info, limits))
}

/// True where the two cells of `shown` are those of `plain`, each as a
/// terminal is given it.
pub open spec fn entry_styled_as(shown: Entry, plain: Entry) -> bool {
    styled_as(shown.key, plain.key) && styled_as(shown.value, plain.value)
}

/// True where `shown` is `plain` cell by cell, each cell as a terminal is
/// given it.
pub open spec fn group_styled_as(shown: Group, plain: Group) -> bool {
    &&& styled_as(shown.title, plain.title)
    &&& shown.entries.len() == plain.entries.len()
    &&& forall|i: int|
        0 <= i < plain.entries.len() ==> entry_styled_as(
            #[trigger] shown.entries[i],
            plain.entries[i],
        )
}

/// True where `shown` is `plain` cell by cell, each cell as a terminal is
/// given it.
pub open spec fn sheet_styled_as(shown: Sheet, plain: Sheet) -> bool {
    &&& styled_as(shown.title, plain.title)
    &&& shown.groups.len() == plain.groups.len()
    &&& forall|i: int|
        0 <= i < plain.groups.len() ==> group_styled_as(#[trigger] shown.groups[i], plain.groups[i])
}

/// True where `text` is the table on the adapter as a terminal is given it:
/// the text of the table's cells, each with or without its style.
pub open spec fn is_styled_table(text: Seq<char>, info: Identity, limits: AdapterLimits) -> bool {
    exists|shown: Sheet|
        sheet_styled_as(shown, table_cells(info, limits)) && text == #[trigger] sheet_text(shown)
}

/// True where neither cell of an entry holds an escape character.
pub open spec fn entry_is_plain(cells: Entry) -> bool {
    !has_escape(cells.key) && !has_escape(cells.value)
}

/// True where neither the title nor any cell of a group holds an escape
/// character.
pub open spec fn group_is_plain(group: Group) -> bool {
    &&& !has_escape(group.title)
    &&& forall|i: int| 0 <= i < group.entries.len() ==> entry_is_plain(#[trigger] group.entries[i])
}

/// True where no cell of a sheet holds an escape character.
pub open spec fn sheet_is_plain(sheet: Sheet) -> bool {
    &&& !has_escape(sheet.title)
    &&& forall|i: int| 0 <= i < sheet.groups.len() ==> group_is_plain(#[trigger] sheet.groups[i])
}

/// The rows of a group read as their plain cells.
proof fn lemma_rows_read_as_plain(shown: Seq<Entry>, plain: Seq<Entry>, rest: Seq<char>)
    requires
        shown.len() == plain.len(),
        forall|i: int| 0 <= i < plain.len() ==> entry_styled_as(#[trigger] shown[i], plain[i]),
        forall|i: int| 0 <= i < plain.len() ==> entry_is_plain(#[trigger] plain[i]),
    ensures
        without_styles(sheet_rows(shown) + rest) == sheet_rows(plain) + without_styles(rest),
    decreases plain.len(),
{
    let shown_lines = shown.map_values(|cells: Entry| sheet_row(cells));
    let plain_lines = plain.map_values(|cells: Entry| sheet_row(cells));
    if plain.len() == 0 {
        assert(sheet_rows(shown) + rest =~= rest);
        assert(sheet_rows(plain) + without_styles(rest) =~= without_styles(rest));
    } else {
        reveal_strlit(" ");
        reveal_strlit("\n");
        let shown_tail = shown.drop_first();
        let plain_tail = plain.drop_first();
        assert(shown_lines.drop_first() =~= shown_tail.map_values(|cells: Entry| sheet_row(cells)));
        assert(plain_lines.drop_first() =~= plain_tail.map_values(|cells: Entry| sheet_row(cells)));
        assert forall|i: int| 0 <= i < plain_tail.len() implies entry_styled_as(
            #[trigger] shown_tail[i],
            plain_tail[i],
        ) by {
            assert(shown_tail[i] == shown[i + 1]);
            assert(plain_tail[i] == plain[i + 1]);
        }
        assert forall|i: int| 0 <= i < plain_tail.len() implies entry_is_plain(
            #[trigger] plain_tail[i],
        ) by {
            assert(plain_tail[i] == plain[i + 1]);
        }
        let after_rows = sheet_rows(shown_tail) + rest;
        let after_value = "\n"@ + after_rows;
        let after_space = shown[0].value + after_value;
        let after_key = " "@ + after_space;
        assert(sheet_rows(shown) + rest =~= shown[0].key + after_key);
        assert(entry_styled_as(shown[0], plain[0]));
        assert(entry_is_plain(plain[0]));
        lemma_styled_reads_as_plain(shown[0].key, plain[0].key, after_key);
        lemma_plain_text_stays(" "@, after_space);
        lemma_styled_reads_as_plain(shown[0].value, plain[0].value, after_value);
        lemma_plain_text_stays("\n"@, after_rows);
        lemma_rows_read_as_plain(shown_tail, plain_tail, rest);
        assert(sheet_rows(plain) + without_styles(rest) =~= plain[0].key + (" "@ + (plain[0].value
            + ("\n"@ + (sheet_rows(plain_tail) + without_styles(rest))))));
    }
}

/// The groups of a sheet read as their plain cells.
proof fn lemma_groups_read_as_plain(shown: Seq<Group>, plain: Seq<Group>)
    requires
        shown.len() == plain.len(),
        forall|i: int| 0 <= i < plain.len() ==> group_styled_as(#[trigger] shown[i], plain[i]),
        forall|i: int| 0 <= i < plain.len() ==> group_is_plain(#[trigger] plain[i]),
    ensures
        without_styles(sheet_groups(shown)) == sheet_groups(plain),
    decreases plain.len(),
{
    let shown_parts = shown.map_values(|group: Group| sheet_group(group));
    let plain_parts = plain.map_values(|group: Group| sheet_group(group));
    if plain.len() == 0 {
        assert(sheet_groups(shown) =~= Seq::<char>::empty());
        assert(sheet_groups(plain) =~= Seq::<char>::empty());
    } else {
        reveal_strlit("\n");
        let shown_tail = shown.drop_first();
        let plain_tail = plain.drop_first();
        assert(shown_parts.drop_first() =~= shown_tail.map_values(
            |group: Group| sheet_group(group),
        ));
        assert(plain_parts.drop_first() =~= plain_tail.map_values(
            |group: Group| sheet_group(group),
        ));
        assert forall|i: int| 0 <= i < plain_tail.len() implies group_styled_as(
            #[trigger] shown_tail[i],
            plain_tail[i],
        ) by {
            assert(shown_tail[i] == shown[i + 1]);
            assert(plain_tail[i] == plain[i + 1]);
        }
        assert forall|i: int| 0 <= i < plain_tail.len() implies group_is_plain(
            #[trigger] plain_tail[i],
        ) by {
            assert(plain_tail[i] == plain[i + 1]);
        }
        assert(group_styled_as(shown[0], plain[0]));
        assert(group_is_plain(plain[0]));
        let after_rows = sheet_groups(shown_tail);
        let after_title = "\n"@ + (sheet_rows(shown[0].entries) + after_rows);
        let after_line = shown[0].title + after_title;
        assert(sheet_groups(shown) =~= "\n"@ + after_line);
        lemma_plain_text_stays("\n"@, after_line);
        lemma_styled_reads_as_plain(shown[0].title, plain[0].title, after_title);
        lemma_plain_text_stays("\n"@, sheet_rows(shown[0].entries) + after_rows);
        lemma_rows_read_as_plain(shown[0].entries, plain[0].entries, after_rows);
        lemma_groups_read_as_plain(shown_tail, plain_tail);
        assert(sheet_groups(plain) =~= "\n"@ + (plain[0].title + ("\n"@ + (sheet_rows(
            plain[0].entries,
        ) + sheet_groups(plain_tail)))));
    }
}

/// Styles change nothing of what a table says: a sheet whose cells are
/// those of a plain sheet, each as a terminal is given it, reads as the plain
/// sheet once the style codes are left out.
pub proof fn law_styles_leave_the_text(shown: Sheet, plain: Sheet)
    requires
        sheet_styled_as(shown, plain),
        sheet_is_plain(plain),
    ensures
        without_styles(sheet_text(shown)) == sheet_text(plain),
{
    reveal_strlit("\n");
    let after_title = "\n"@ + sheet_groups(shown.groups);
    assert(sheet_text(shown) =~= shown.title + after_title);
    lemma_styled_reads_as_plain(shown.title, plain.title, after_title);
    lemma_plain_text_stays("\n"@, sheet_groups(shown.groups));
    lemma_groups_read_as_plain(shown.groups, plain.groups);
    assert(sheet_text(plain) =~= plain.title + ("\n"@ + sheet_groups(plain.groups)));
}

/// The eight sections of a table.
pub fn table_sections(info: &AdapterIdentity, limits: &AdapterLimits) -> (sections: Vec<Section>)
    ensures
        groups_of(sections@) == table_groups(info@, *limits),
{
    let mut sections: Vec<Section> = Vec::new();
    sections.push(identity_section(info));
    let mut rest = limit_sections(limits, Measure::Size);
    let ghost limits_only = rest@;
    sections.append(&mut rest);
    assert(groups_of(sections@) =~= table_groups(info@, *limits)) by {
        assert(groups_of(limits_only) == limit_groups(*limits, Measure::Size));
        assert(sections@ =~= seq![sections@[0]] + limits_only);
    }
    sections
}

/// One cell: `text` padded to `width`, with its emphasis where `styled` asks
/// for it and the terminal takes it.
fn cell(text: &str, emphasis: Emphasis, width: usize, styled: bool) -> (shown: String)
    requires
        width <= MAX_WIDTH,
    ensures
        styled_as(shown@, pad_right(text@, width as nat)),
        !styled ==> shown@ == pad_right(text@, width as nat),
{
    if styled {
        emphasized(text, emphasis, width)
    } else {
        let mut shown = String::new();
        push_padded(&mut shown, text, width);
        shown
    }
}

/// The two cells of a row.
fn row_cells(row: &Row, styled: bool) -> (cells: Row)
    ensures
        entry_styled_as(cells@, entry_cells(row@)),
        !styled ==> cells@ == entry_cells(row@),
{
    let mut key = row.key.clone();
    key.append(":");
    Row {
        key: cell(key.as_str(), Emphasis::Key, KEY_WIDTH, styled),
        value: cell(row.value.as_str(), Emphasis::Value, 0, styled),
    }
}

/// The cells of a section.
fn section_cells(section: &Section, styled: bool) -> (cells: Section)
    ensures
        group_styled_as(cells@, group_cells(section@)),
        !styled ==> cells@ == group_cells(section@),
{
    let mut rows: Vec<Row> = Vec::new();
    let mut i: usize = 0;
    while i < section.rows.len()
        invariant
            i <= section.rows.len(),
            rows.len() == i,
            forall|j: int|
                0 <= j < i ==> entry_styled_as(
                    (#[trigger] rows[j])@,
                    entry_cells(section.rows[j]@),
                ),
            !styled ==> forall|j: int|
                0 <= j < i ==> (#[trigger] rows[j])@ == entry_cells(section.rows[j]@),
        decreases section.rows.len() - i,
    {
        rows.push(row_cells(&section.rows[i], styled));
        i = i + 1;
    }
    let cells = Section { title: cell(section.title.as_str(), Emphasis::Heading, 0, styled), rows };
    proof {
        if !styled {
            assert(cells@.entries =~= group_cells(section@).entries);
        }
    }
    cells
}

/// The cells of the table on an adapter. Where `styled` is set, each cell
/// has its emphasis, as far as the terminal takes it.
pub fn table_of(info: &AdapterIdentity, limits: &AdapterLimits, styled: bool) -> (table: Table)
    ensures
        sheet_styled_as(table@, table_cells(info@, *limits)),
        !styled ==> table@ == table_cells(info@, *limits),
{
    let plain = table_sections(info, limits);
    let mut sections: Vec<Section> = Vec::new();
    let mut i: usize = 0;
    while i < plain.len()
        invariant
            i <= plain.len(),
            sections.len() == i,
            forall|j: int|
                0 <= j < i ==> group_styled_as((#[trigger] sections[j])@, group_cells(plain[j]@)),
            !styled ==> forall|j: int|
                0 <= j < i ==> (#[trigger] sections[j])@ == group_cells(plain[j]@),
        decreases plain.len() - i,
    {
        sections.push(section_cells(&plain[i], styled));
        i = i + 1;
    }
    let table = Table {
        title: cell("WGPU Adapter Info & Device Limits", Emphasis::Title, 0, styled),
        sections,
    };
    proof {
        let wanted = table_cells(info@, *limits);
        assert(wanted.groups.len() == plain.len());
        assert forall|j: int| 0 <= j < wanted.groups.len() implies group_styled_as(
            #[trigger] table@.groups[j],
            wanted.groups[j],
        ) by {
            assert(table@.groups[j] == sections[j]@);
            assert(wanted.groups[j] == group_cells(plain[j]@));
        }
        if !styled {
            assert(table@.groups =~= wanted.groups);
        }
    }
    table
}

/// Appends the lines of `rows`.
fn push_rows(out: &mut String, rows: &Vec<Row>)
    ensures
        final(out)@ == old(out)@ + sheet_rows(rows@.map_values(|row: Row| row@)),
{
    let ghost entries = rows@.map_values(|row: Row| row@);
    let ghost lines = entries.map_values(|cells: Entry| sheet_row(cells));
    let mut i: usize = 0;
    assert(lines.take(0).flatten() =~= Seq::<char>::empty());
    while i < rows.len()
        invariant
            i <= rows.len(),
            entries == rows@.map_values(|row: Row| row@),
            lines == entries.map_values(|cells: Entry| sheet_row(cells)),
            out@ == old(out)@ + lines.take(i as int).flatten(),
        decreases rows.len() - i,
    {
        let row = &rows[i];
        out.append(row.key.as_str());
        out.append(" ");
        out.append(row.value.as_str());
        out.append("\n");
        proof {
            assert(lines.take(i + 1) =~= lines.take(i as int).push(lines[i as int]));
            lines.take(i as int).lemma_flatten_push(lines[i as int]);
            assert(lines[i as int] == sheet_row(rows[i as int]@));
            assert(out@ =~= old(out)@ + lines.take(i + 1).flatten());
        }
        i = i + 1;
    }
    assert(lines.take(i as int) =~= lines);
}

/// Writes a table out: the title, and after an empty line each the sections
/// with their rows.
pub fn write_table(table: &Table) -> (text: String)
    ensures
        text@ == sheet_text(table@),
{
    let mut text = table.title.clone();
    text.append("\n");
    let ghost head = text@;
    let ghost parts = table@.groups.map_values(|group: Group| sheet_group(group));
    let mut i: usize = 0;
    assert(parts.take(0).flatten() =~= Seq::<char>::empty());
    while i < table.sections.len()
        invariant
            i <= table.sections.len(),
            parts == table@.groups.map_values(|group: Group| sheet_group(group)),
            text@ == head + parts.take(i as int).flatten(),
        decreases table.sections.len() - i,
    {
        let section = &table.sections[i];
        let ghost before = text@;
        text.append("\n");
        text.append(section.title.as_str());
        text.append("\n");
        push_rows(&mut text, &section.rows);
        proof {
            assert(parts.take(i + 1) =~= parts.take(i as int).push(parts[i as int]));
            parts.take(i as int).lemma_flatten_push(parts[i as int]);
            assert(parts[i as int] == sheet_group(section@));
            assert(text@ =~= before + sheet_group(section@));
            assert(text@ =~= head + parts.take(i + 1).flatten());
        }
        i = i + 1;
    }
    assert(parts.take(i as int) =~= parts);
    text
}

/// Renders the report as a table in plain text.
pub fn render_table(info: &AdapterIdentity, limits: &AdapterLimits) -> (text: String)
    ensures
        text@ == table_text(info@, *limits),
{
    write_table(&table_of(info, limits, false))
}

/// Renders the report as a table for a terminal: the table of
/// [`render_table`], with the title, the headings, the keys and the values
/// each set apart by a style where the terminal shows styles.
pub fn render_table_styled(info: &AdapterIdentity, limits: &AdapterLimits) -> (text: String)
    ensures
        is_styled_table(text@, info@, *limits),
{
    let table = table_of(info, limits, true);
    let text = write_table(&table);
    assert(sheet_styled_as(table@, table_cells(info@, *limits)) && text@ == sheet_text(table@));
    text
}

} // verus!
