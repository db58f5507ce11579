//! Batch file renamer: anchors a match pattern, filters a directory listing
//! down to the regular files whose names match, and plans the renames by
//! substituting capture groups into a replacement template.

pub mod pattern;
pub mod rename;
pub mod scan;

pub use pattern::anchor_query;
pub use pattern::format_query;
pub use pattern::InvalidPatternError;
pub use pattern::Pattern;
pub use scan::get_matching_files;
pub use scan::resolve_target;
pub use scan::CandidateEntry;
pub use scan::EntryKind;
pub use rename::format_replace;
pub use rename::plan_renames;
pub use rename::RenamePlan;
pub use rename::RenameRun;
