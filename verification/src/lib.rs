//! Reports on a graphics adapter: who made it, what it is called, and the
//! limits it works within, as an aligned table, as markdown or as JSON.
//!
//! The records that a report is made from are in [`adapter`]. [`layout`]
//! says which rows a report has and what stands in each; [`size`] and
//! [`vendor`] write byte counts and vendor codes as people read them, and
//! [`text`] writes numbers. [`table`], [`markdown`] and [`json`] render the
//! three formats, and [`report`] picks one of them. [`style`] sets the cells
//! of a table apart on terminals that show styles, and [`plain`] shows that
//! styles change nothing of what a table says.

pub mod adapter;
pub mod error;
pub mod json;
pub mod layout;
pub mod markdown;
pub mod plain;
pub mod report;
pub mod size;
pub mod style;
pub mod table;
pub mod text;
pub mod vendor;
