//! A data-mapping layer for a single-file source-analysis session.
//!
//! An external analyzer reports diagnostics and completion suggestions in its
//! own raw shape: numeric severity codes, numeric completion-kind codes, and
//! position/text fields. This crate translates that raw output into a stable,
//! host-agnostic record shape and proves the translation total, deterministic,
//! and faithful to every field.

pub mod mapping;
pub mod records;

pub use mapping::map_completion_kind_to_str;
pub use mapping::map_severity_to_str;
pub use records::map_completions_to_records;
pub use records::map_diagnostics_to_records;
