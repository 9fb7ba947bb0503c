//! The errors that building, installing and removing an archive report.
use vstd::prelude::*;
use vstd::string::*;
use crate::path::PathKind;
use crate::text::{join_strings, join_words, texts};

verus! {

/// An optional manifest setting that an operation needs.
#[derive(Clone, Copy, Debug, PartialEq, Eq, Structural)]
pub enum Field {
    /// The package-manager section of the manifest.
    Manager,
    /// The arguments that make the package manager uninstall packages.
    UnInstallArgs,
    /// The arguments that make the package manager upgrade the system.
    UpgradeArgs,
}

impl Field {
    /// The field's name as the manifest writes it.
    pub open spec fn spec_name(self) -> Seq<char> {
        match self {
            Field::Manager => "manager"@,
            Field::UnInstallArgs => "un_install_args"@,
            Field::UpgradeArgs => "upgrade_args"@,
        }
    }

    /// The field's name as the manifest writes it.
    pub fn name(&self) -> (r: String)
        ensures
            r@ == self.spec_name(),
    {
        match self {
            Field::Manager => String::from_str("manager"),
            Field::UnInstallArgs => String::from_str("un_install_args"),
            Field::UpgradeArgs => String::from_str("upgrade_args"),
        }
    }
}

/// Everything that can go wrong while an archive is built, opened, installed or removed.
#[derive(Clone, Debug, PartialEq, Eq)]
pub enum ConfigError {
    /// Opening, reading, writing, copying or deleting a file failed; holds the cause.
    Io(String),
    /// The manifest's text does not parse; holds the cause.
    Deserialize(String),
    /// The archive holds no manifest entry.
    ManifestMissing,
    /// The root directory of this kind of path cannot be found on this host.
    DirNotFound(PathKind),
    /// The manifest lacks a setting that the operation needs.
    FieldNotFound(Field),
    /// The package manager (its name, then the arguments it ran with) reported failure.
    Manager(String, Vec<String>),
    /// An archive entry (its name) whose path leaves the root it belongs under.
    UnsafeEntry(String),
}

/// The display name of a kind of path in messages.
pub open spec fn kind_label(k: PathKind) -> Seq<char> {
    match k {
        PathKind::ABSOLUTE => "absolute"@,
        PathKind::HOME => "Home"@,
        PathKind::CONFIG => "Config"@,
    }
}

impl ConfigError {
    /// The message shown to a user for this error.
    pub open spec fn spec_message(&self) -> Seq<char> {
        match self {
            ConfigError::Io(e) => "An error occurred while handling file: "@ + e@,
            ConfigError::Deserialize(e) => "An error occurred while parsing file: "@ + e@,
            ConfigError::ManifestMissing => "The archive holds no '.rconf' manifest entry"@,
            ConfigError::DirNotFound(k) => "Could not determine system: "@ + kind_label(*k),
            ConfigError::FieldNotFound(f) => "No value specified for '"@ + f.spec_name()
                + "' which is required by this operation"@,
            ConfigError::Manager(name, args) => "The package manager '"@ + name@
                + "' failed with the arguments: "@ + join_words(texts(args@), " "@),
            ConfigError::UnsafeEntry(name) => "The archive entry '"@ + name@
                + "' leaves the directory it belongs under"@,
        }
    }

    /// The message shown to a user for this error.
    pub fn message(&self) -> (r: String)
        ensures
            r@ == self.spec_message(),
    {
        match self {
            ConfigError::Io(e) => String::from_str("An error occurred while handling file: ")
                .concat(e.as_str()),
            ConfigError::Deserialize(e) => String::from_str(
                "An error occurred while parsing file: ",
            ).concat(e.as_str()),
            ConfigError::ManifestMissing => String::from_str(
                "The archive holds no '.rconf' manifest entry",
            ),
            ConfigError::DirNotFound(k) => {
                let label = match k {
                    PathKind::ABSOLUTE => "absolute",
                    PathKind::HOME => "Home",
                    PathKind::CONFIG => "Config",
                };
                String::from_str("Could not determine system: ").concat(label)
            },
            ConfigError::FieldNotFound(f) => {
                let n = f.name();
                String::from_str("No value specified for '").concat(n.as_str()).concat(
                    "' which is required by this operation",
                )
            },
            ConfigError::Manager(name, args) => {
                let words = join_strings(args, " ");
                String::from_str("The package manager '").concat(name.as_str()).concat(
                    "' failed with the arguments: ",
                ).concat(words.as_str())
            },
            ConfigError::UnsafeEntry(name) => String::from_str("The archive entry '").concat(
                name.as_str(),
            ).concat("' leaves the directory it belongs under"),
        }
    }
}

} // verus!
