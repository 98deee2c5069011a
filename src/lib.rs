//! Strips the UTF-8 byte-order mark from files in place.
//!
//! The library holds the decisions: whether a file starts with a BOM, the
//! order of the filesystem steps of a safe rewrite and what follows each
//! outcome, where the staging and backup files go, and how the outcomes of a
//! run over many files add up. The filesystem work itself is done by the
//! caller, which reports back whether each step succeeded. `model` states,
//! over an abstract disk, what any sequence of step outcomes leaves behind.
mod bom;
pub mod model;
mod outcome;
mod params;
mod paths;
mod protocol;

pub use bom::{has_bom, starts_with_bom, utf8_bom, BOM_LEN, UTF8_BOM_0, UTF8_BOM_1, UTF8_BOM_2};
pub use outcome::{
    count_rewritten, last_failure, lemma_fails_iff_some_rewrite_failed,
    lemma_skipped_file_changes_nothing, outcome, outcome_of, overall, summarize, FileOutcome,
    Summary,
};
pub use params::Params;
pub use paths::{backup_differs, backup_path, parent_of, staging_dir, with_extension_of, BACKUP_EXTENSION};
pub use protocol::{next_action, transition, Action, Rewrite, RewriteError, Step};
