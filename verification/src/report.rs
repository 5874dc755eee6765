//! One report in the format that the caller chooses.

use vstd::prelude::*;
use crate::adapter::{AdapterIdentity, AdapterLimits, Identity};
use crate::error::ReportError;
use crate::json::{pretty_outcome, render_json, report_document, result_view};
use crate::markdown::{markdown_text, render_markdown};
use crate::plain::{identity_is_plain, law_styled_table_reads_as_plain};
use crate::style::without_styles;
use crate::table::{is_styled_table, render_table_styled, table_text};

verus! {

/// The formats in which a report can be had.
#[derive(Clone, Copy, Debug, PartialEq, Eq, Structural)]
pub enum OutputFormat {
    /// An aligned table for a terminal.
    Table,
    /// Indented JSON.
    Json,
    /// Markdown tables.
    Markdown,
}

impl Default for OutputFormat {
    /// The table.
    fn default() -> (format: OutputFormat)
        ensures
            format == OutputFormat::Table,
    {
        OutputFormat::Table
    }
}

/// True where `result` is what rendering the report in `format` may give:
/// the styled table; the markdown text; what serde_json makes of the JSON
/// document without notes, its text or a serialisation failure in the words
/// of its error.
pub open spec fn is_report(
    result: Result<String, ReportError>,
    format: OutputFormat,
    info: Identity,
    limits: AdapterLimits,
) -> bool {
    match format {
        OutputFormat::Table => result matches Ok(text) && is_styled_table(text@, info, limits),
        OutputFormat::Markdown => result matches Ok(text) && text@ == markdown_text(info, limits),
        OutputFormat::Json => result_view(result) == pretty_outcome(
            report_document(info, limits, None),
        ),
    }
}

/// Renders the report on an adapter in the format asked for.
pub fn render(format: OutputFormat, info: &AdapterIdentity, limits: &AdapterLimits) -> (result:
    Result<String, ReportError>)
    ensures
        is_report(result, format, info@, *limits),
{
    match format {
        OutputFormat::Table => Ok(render_table_styled(info, limits)),
        OutputFormat::Json => render_json(info, limits, None),
        OutputFormat::Markdown => Ok(render_markdown(info, limits)),
    }
}

/// A report says the same of the same records: adapters that read the same,
/// with the same limits, have one table, one markdown text and one JSON
/// document.
pub proof fn law_same_records_same_report(
    first: AdapterIdentity,
    second: AdapterIdentity,
    limits: AdapterLimits,
)
    requires
        first@ == second@,
    ensures
        table_text(first@, limits) == table_text(second@, limits),
        markdown_text(first@, limits) == markdown_text(second@, limits),
        report_document(first@, limits, None) == report_document(second@, limits, None),
{
}

/// Two tables on one adapter, each as a terminal is given it, read the same
/// once the style codes are left out, so long as the adapter's name and what
/// is said of its driver hold no escape character.
pub proof fn law_styled_tables_read_alike(
    first: Seq<char>,
    second: Seq<char>,
    info: Identity,
    limits: AdapterLimits,
)
    requires
        is_styled_table(first, info, limits),
        is_styled_table(second, info, limits),
        identity_is_plain(info),
    ensures
        without_styles(first) == without_styles(second),
{
    law_styled_table_reads_as_plain(first, info, limits);
    law_styled_table_reads_as_plain(second, info, limits);
}

} // verus!
