//! The manifest of a config archive and the decisions taken while an archive is built,
//! opened, installed and removed.
//!
//! An archive is read as a forward-only stream of named entries. The caller walks that stream
//! and performs the file work; the functions here decide, for each step, what is to be done.
use vstd::prelude::*;
use vstd::string::*;
use crate::error::{ConfigError, Field};
use crate::manager::{runs, Manager, ManagerCommand};
use crate::path::{
    classify, contained, manifest_name, manifest_text, resolve, ArchivePath, PathSpecifier, SystemDirs, SystemDirsView,
};
use crate::script::{script_name, script_text};
use crate::text::{copy_strings, mentions_parent, ends_with_text, join, join_path, same_text};

verus! {

/// The manifest stored in an archive: the selected paths and the package manager.
#[derive(Clone, Debug, PartialEq, Eq)]
pub struct ConfigArchive {
    /// The configuration files to back up and restore.
    pub paths: Option<PathSpecifier>,
    /// The package manager that installs the software the files belong to.
    pub manager: Option<Manager>,
}

/// The entry named `name` is a payload entry whose path would leave its root.
pub open spec fn escapes(name: Seq<char>) -> bool {
    &&& name != script_name()
    &&& classify(name) is Some
    &&& !contained(classify(name)->0)
}

/// Where the entry named `name`, unless it [`escapes`], belongs on a host with the
/// directories `dirs`: `None` for the manifest and script entries, which are skipped, else its
/// local path, or why that cannot be found.
pub open spec fn entry_target(name: Seq<char>, dirs: SystemDirsView) -> Result<
    Option<Seq<char>>,
    ConfigError,
> {
    if name == script_name() {
        Ok(None)
    } else {
        match classify(name) {
            None => Ok(None),
            Some(a) => match resolve(a, dirs) {
                Ok(l) => Ok(Some(l)),
                Err(e) => Err(e),
            },
        }
    }
}

/// A result that may hold a string, seen through its characters.
pub open spec fn opt_text_result(r: Result<Option<String>, ConfigError>) -> Result<
    Option<Seq<char>>,
    ConfigError,
> {
    match r {
        Ok(Some(s)) => Ok(Some(s@)),
        Ok(None) => Ok(None),
        Err(e) => Err(e),
    }
}

/// `e` reports that the manager `m` failed to install its packages.
pub open spec fn install_failure(m: Manager, e: ConfigError) -> bool {
    match e {
        ConfigError::Manager(name, args) => name == m.name && args@ == m.install_args@,
        _ => false,
    }
}

/// What occupies a destination on the file system.
#[derive(Clone, Copy, Debug, PartialEq, Eq, Structural)]
pub enum Occupant {
    File,
    Dir,
    Absent,
}

/// What removing a destination takes.
#[derive(Clone, Copy, Debug, PartialEq, Eq, Structural)]
pub enum Removal {
    /// Delete the file.
    RemoveFile,
    /// Delete the directory and everything in it.
    RemoveDirAll,
    /// Nothing: the destination is already gone.
    Nothing,
}

/// How a selected local path is copied into an archive.
#[derive(Clone, Copy, Debug, PartialEq, Eq, Structural)]
pub enum Addition {
    /// As one entry.
    AppendFile,
    /// As a directory entry with everything in it, keeping their relative layout.
    AppendDirAll,
}

/// How the selected path `local`, whose occupant is `o`, is copied into an archive: a file as
/// one entry, a directory with its contents.
///
/// Fails with an `Io` error naming `local` where nothing is there.
pub fn addition_for(o: Occupant, local: &str) -> (r: Result<Addition, ConfigError>)
    ensures
        match o {
            Occupant::File => r == Ok::<Addition, ConfigError>(Addition::AppendFile),
            Occupant::Dir => r == Ok::<Addition, ConfigError>(Addition::AppendDirAll),
            Occupant::Absent => r is Err && r->Err_0 is Io && r->Err_0->Io_0@ == local@
                + " does not exist"@,
        },
{
    match o {
        Occupant::File => Ok(Addition::AppendFile),
        Occupant::Dir => Ok(Addition::AppendDirAll),
        Occupant::Absent => Err(ConfigError::Io(String::from_str(local).concat(" does not exist"))),
    }
}

/// The removal that a destination with the occupant `o` takes.
pub open spec fn spec_removal(o: Occupant) -> Removal {
    match o {
        Occupant::File => Removal::RemoveFile,
        Occupant::Dir => Removal::RemoveDirAll,
        Occupant::Absent => Removal::Nothing,
    }
}

/// What occupies a destination once the removal `r` has been carried out on it.
pub open spec fn after_removal(o: Occupant, r: Removal) -> Occupant {
    match (o, r) {
        (Occupant::File, Removal::RemoveFile) => Occupant::Absent,
        (Occupant::Dir, Removal::RemoveDirAll) => Occupant::Absent,
        _ => o,
    }
}

/// The removal that a destination with the occupant `o` takes: a file is deleted, a directory
/// is deleted with its contents, and an absent destination needs nothing.
pub fn removal_for(o: Occupant) -> (r: Removal)
    ensures
        r == spec_removal(o),
{
    match o {
        Occupant::File => Removal::RemoveFile,
        Occupant::Dir => Removal::RemoveDirAll,
        Occupant::Absent => Removal::Nothing,
    }
}

/// Removing a destination leaves it absent; removing an absent destination takes nothing and
/// so cannot fail; hence removing the same destination twice in a row takes nothing the second
/// time.
pub proof fn lemma_removal_idempotent(o: Occupant)
    ensures
        after_removal(o, spec_removal(o)) == Occupant::Absent,
        spec_removal(Occupant::Absent) == Removal::Nothing,
        spec_removal(after_removal(o, spec_removal(o))) == Removal::Nothing,
        after_removal(Occupant::Absent, Removal::Nothing) == Occupant::Absent,
{
}

/// Whether an archive entry named `name` holds the manifest.
pub fn is_manifest_entry(name: &str) -> (r: bool)
    ensures
        r == (name@ == manifest_name()),
{
    same_text(name, manifest_text())
}

/// The name of the archive file for the title `title`: the title, with `.tar` added unless it
/// ends with it.
pub fn archive_file_name(title: &str) -> (r: String)
    ensures
        r@ == if title@.len() >= 4 && title@.subrange(title@.len() - 4, title@.len() as int)
            == ".tar"@ {
            title@
        } else {
            title@ + ".tar"@
        },
{
    proof {
        reveal_strlit(".tar");
    }
    if ends_with_text(title, ".tar") {
        String::from_str(title)
    } else {
        String::from_str(title).concat(".tar")
    }
}

/// Where the manifest is read from when none is named: `.rconf` in the configuration
/// directory, if that is known.
pub fn default_manifest_path(dirs: &SystemDirs) -> (r: Option<String>)
    ensures
        match dirs@.config {
            Some(c) => r is Some && r->0@ == join(c, manifest_name()),
            None => r is None,
        },
{
    match &dirs.config {
        Some(c) => Some(join_path(c.as_str(), manifest_text())),
        None => None,
    }
}

impl ConfigArchive {
    /// The text of the manifest that a scan of an archive found: fails with `ManifestMissing`
    /// where the scan found no manifest entry.
    pub fn manifest_from_scan(found: Option<String>) -> (r: Result<String, ConfigError>)
        ensures
            match found {
                Some(s) => r == Ok::<String, ConfigError>(s),
                None => r == Err::<String, ConfigError>(ConfigError::ManifestMissing),
            },
    {
        match found {
            Some(s) => Ok(s),
            None => Err(ConfigError::ManifestMissing),
        }
    }

    /// The destination of the entry named `name`, where an install pass unpacks it and an
    /// uninstall pass removes it, on a host whose home and configuration directories are
    /// `dirs`: `None` for the manifest and script entries, which both passes skip.
    ///
    /// Fails with `UnsafeEntry` where the entry's path has a `..` segment, which could leave
    /// its root, and else with `DirNotFound` where the root the entry belongs under is unknown.
    pub fn entry_destination(name: &str, dirs: &SystemDirs) -> (r: Result<
        Option<String>,
        ConfigError,
    >)
        ensures
            escapes(name@) ==> r is Err && r->Err_0 is UnsafeEntry && r->Err_0->UnsafeEntry_0@
                == name@,
            !escapes(name@) ==> opt_text_result(r) == entry_target(name@, dirs@),
    {
        if same_text(name, script_text()) {
            return Ok(None);
        }
        match ArchivePath::from_tar_path(name) {
            None => Ok(None),
            Some(p) => {
                if mentions_parent(p.path.as_str()) {
                    return Err(ConfigError::UnsafeEntry(String::from_str(name)));
                }
                match p.to_local_path_in(dirs) {
                    Ok(l) => Ok(Some(l)),
                    Err(e) => Err(e),
                }
            },
        }
    }

    /// The command to run before any entry is installed: the manager's install command, if a
    /// manager is configured.
    pub fn install_manager_command(&self) -> (r: Option<ManagerCommand>)
        ensures
            match self.manager {
                Some(m) => r is Some && runs(r->0, m.name, m.install_args@ + m.packages@),
                None => r is None,
            },
    {
        match &self.manager {
            Some(m) => Some(m.install_command()),
            None => None,
        }
    }

    /// Whether an install pass goes on once the manager's install command has reported
    /// `success`: it stops with a `Manager` error where a configured manager failed.
    pub fn check_install_status(&self, success: bool) -> (r: Result<(), ConfigError>)
        ensures
            match self.manager {
                Some(m) => if success {
                    r is Ok
                } else {
                    r is Err && install_failure(m, r->Err_0)
                },
                None => r is Ok,
            },
    {
        match &self.manager {
            Some(m) => if success {
                Ok(())
            } else {
                Err(ConfigError::Manager(m.name.clone(), copy_strings(&m.install_args)))
            },
            None => Ok(()),
        }
    }

    /// The command to run before any entry is removed: the manager's uninstall command, if a
    /// manager is configured.
    ///
    /// Fails with `FieldNotFound(UnInstallArgs)` where the manager cannot uninstall.
    pub fn uninstall_manager_command(&self) -> (r: Result<Option<ManagerCommand>, ConfigError>)
        ensures
            match self.manager {
                Some(m) => match m.un_install_args {
                    Some(a) => r is Ok && r->Ok_0 is Some && runs(
                        r->Ok_0->0,
                        m.name,
                        a@ + m.packages@,
                    ),
                    None => r == Err::<Option<ManagerCommand>, ConfigError>(
                        ConfigError::FieldNotFound(Field::UnInstallArgs),
                    ),
                },
                None => r is Ok && r->Ok_0 is None,
            },
    {
        match &self.manager {
            Some(m) => match m.un_install_command() {
                Ok(c) => Ok(Some(c)),
                Err(e) => Err(e),
            },
            None => Ok(None),
        }
    }

    /// The command that upgrades the system before an install.
    ///
    /// Fails with `FieldNotFound(Manager)` where no manager is configured, and with
    /// `FieldNotFound(UpgradeArgs)` where the manager cannot upgrade.
    pub fn upgrade_manager_command(&self) -> (r: Result<ManagerCommand, ConfigError>)
        ensures
            match self.manager {
                Some(m) => match m.upgrade_args {
                    Some(a) => r is Ok && runs(r->Ok_0, m.name, a@),
                    None => r == Err::<ManagerCommand, ConfigError>(
                        ConfigError::FieldNotFound(Field::UpgradeArgs),
                    ),
                },
                None => r == Err::<ManagerCommand, ConfigError>(
                    ConfigError::FieldNotFound(Field::Manager),
                ),
            },
    {
        match &self.manager {
            Some(m) => m.upgrade_command(),
            None => Err(ConfigError::FieldNotFound(Field::Manager)),
        }
    }
}

} // verus!
