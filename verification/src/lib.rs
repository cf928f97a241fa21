//! A local settings store. Named configuration entries are kept in memory
//! by a manager and persisted one file each, in a human-readable structured
//! text format, under the manager's base directory. Each entry carries a
//! header (name, modified flag, content digest, creation timestamp) beside
//! an optional schema-less payload.
//!
//! The manager itself does no file work: it computes every text that goes
//! to disk and interprets every text that comes back, so that adding,
//! saving and loading are specified exactly; a thin caller performs the
//! directory reads and writes.

mod clock;
pub mod codec;
pub mod digest;
pub mod entry;
pub mod manager;
pub mod toml_codec;
pub mod value;

pub use entry::Content;
pub use entry::Header;
pub use manager::SettingsError;
pub use manager::SettingsFile;
pub use manager::SettingsManager;
pub use manager::add_save_load_round_trip;
pub use manager::add_twice_keeps_first;
pub use manager::saved_text_reserializes;
pub use value::SettingsValue;
pub use value::ValModel;
pub use value::clone_value;
