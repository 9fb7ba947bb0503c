//! Backs up configuration files into one portable archive and reinstalls them.
//!
//! Every payload entry of an archive is named by a portable path: `home/<rel>` for a file
//! under the user's home directory, `config/<rel>` for one under the user's configuration
//! directory, and `<rel>` for an absolute path with its leading separator removed. This crate
//! holds the mapping between those names and local paths, the manifest model, and the
//! decisions taken while an archive is built, installed or removed.
pub mod archive;
pub mod error;
pub mod manager;
pub mod path;
pub mod script;
pub mod text;

pub use archive::{
    addition_for, archive_file_name, default_manifest_path, Addition, is_manifest_entry, removal_for, ConfigArchive, Occupant,
    Removal,
};
pub use error::{ConfigError, Field};
pub use manager::{Manager, ManagerCommand};
pub use script::{build_script, SCRIPT_ENTRY};
pub use path::{ArchiveEntry, ArchivePath, PathKind, PathSpecifier, SystemDirs, MANIFEST_ENTRY};
