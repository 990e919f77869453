//! A name-keyed resource store for a typing trainer's datasets: text corpora,
//! keyboard metric tables, and keyboard layout definitions.
//!
//! The store resolves human-readable names (such as "english" or "qwerty") to
//! files inside a per-user data directory and deserializes them on demand.
//! Directory scanning, file reads and network fetches are performed by the
//! embedding application; this crate holds the verified decision logic: how
//! directory listings become name-to-path catalogs, how a lookup miss is told
//! apart from a corrupt file, and how the optional first-run bootstrap walks a
//! remote file listing.

mod bootstrap;
mod catalog;
mod errors;
mod kind;
mod stem;
mod store;

pub use bootstrap::advance_spec;
pub use bootstrap::download_files;
pub use bootstrap::lemma_fetch_failure_skips;
pub use bootstrap::lemma_listing_failure_aborts;
pub use bootstrap::lemma_terminal_machine_accepts_nothing;
pub use bootstrap::lemma_write_failure_aborts;
pub use bootstrap::lemma_write_only_fetched_bytes;
pub use bootstrap::listing_url;
pub use bootstrap::listing_url_spec;
pub use bootstrap::next_kind;
pub use bootstrap::step;
pub use bootstrap::step_spec;
pub use bootstrap::Bootstrap;
pub use bootstrap::BootstrapAction;
pub use bootstrap::BootstrapEvent;
pub use bootstrap::Phase;
pub use bootstrap::RemoteEntry;
pub use bootstrap::REQUEST_TIMEOUT_SECS;
pub use catalog::catalog_of;
pub use catalog::lemma_absent_stem_never_inserted;
pub use catalog::lemma_empty_listing_yields_empty_catalog;
pub use catalog::Catalog;
pub use errors::Error;
pub use kind::DataKind;
pub use stem::last_dot;
pub use stem::stem_of;
pub use stem::stem_spec;
pub use store::json_decodes;
pub use store::lemma_never_listed_name_unknown_to_store;
pub use store::lemma_unknown_name_misses_every_catalog;
pub use store::msgpack_decodes;
pub use store::Data;
