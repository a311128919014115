//! A toy toolchain-table reader built around one idea: a unified error
//! value that wraps any failure cause of the loader — I/O, deserialization,
//! or domain validation — keeps that cause recoverable, and lets callers
//! attach layered human-readable context as the error propagates.

mod error;
mod id;
mod loader;
mod table;

pub use error::ErrorCause;
pub use error::UnifiedError;
pub use error::layered_view;
pub use error::lemma_context_layering;
pub use id::ToolchainError;
pub use id::ToolchainId;
pub use id::name_accepted;
pub use loader::load_failure_cause;
pub use loader::load_succeeds;
pub use loader::load_toolchains;
pub use loader::load_toolchains_from_str;
pub use loader::pair_views;
pub use loader::toml_table_of;
pub use loader::validate_entries;
pub use table::Toolchains;
pub use table::entry_views;
pub use table::lemma_map_of_dom;
pub use table::lemma_map_of_unique;
pub use table::map_of;
pub use table::unique_keys;
