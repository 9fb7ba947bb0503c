//! The package manager that installs the software a set of configuration files belongs to.
use vstd::prelude::*;
use vstd::string::*;
use crate::error::{ConfigError, Field};
use crate::text::copy_strings;

verus! {

/// Package-manager commands that install and uninstall packages and upgrade the system.
#[derive(Clone, Debug, PartialEq, Eq)]
pub struct Manager {
    /// The name of the package manager (pacman, yum, apt, etc).
    pub name: String,
    /// The packages to install or uninstall.
    pub packages: Vec<String>,
    /// The arguments that make the manager install packages.
    pub install_args: Vec<String>,
    /// The arguments that make the manager uninstall packages, if it can.
    pub un_install_args: Option<Vec<String>>,
    /// The arguments that make the manager upgrade the system, if it can.
    pub upgrade_args: Option<Vec<String>>,
}

/// A program to run and the arguments to run it with.
#[derive(Clone, Debug, PartialEq, Eq)]
pub struct ManagerCommand {
    pub program: String,
    pub args: Vec<String>,
}

/// `c` runs the program `p` with the arguments `a`.
pub open spec fn runs(c: ManagerCommand, p: String, a: Seq<String>) -> bool {
    c.program == p && c.args@ == a
}

impl Manager {
    /// The command that installs the packages: the install arguments, then the packages.
    pub fn install_command(&self) -> (r: ManagerCommand)
        ensures
            runs(r, self.name, self.install_args@ + self.packages@),
    {
        let mut args = copy_strings(&self.install_args);
        let mut more = copy_strings(&self.packages);
        args.append(&mut more);
        ManagerCommand { program: self.name.clone(), args }
    }

    /// The command that uninstalls the packages: the uninstall arguments, then the packages.
    ///
    /// Fails with `FieldNotFound(UnInstallArgs)` where the manager has no uninstall arguments.
    pub fn un_install_command(&self) -> (r: Result<ManagerCommand, ConfigError>)
        ensures
            match self.un_install_args {
                Some(a) => r is Ok && runs(r->Ok_0, self.name, a@ + self.packages@),
                None => r == Err::<ManagerCommand, _>(
                    ConfigError::FieldNotFound(Field::UnInstallArgs),
                ),
            },
    {
        match &self.un_install_args {
            Some(a) => {
                let mut args = copy_strings(a);
                let mut more = copy_strings(&self.packages);
                args.append(&mut more);
                Ok(ManagerCommand { program: self.name.clone(), args })
            },
            None => Err(ConfigError::FieldNotFound(Field::UnInstallArgs)),
        }
    }

    /// The command that upgrades the system: the upgrade arguments alone.
    ///
    /// Fails with `FieldNotFound(UpgradeArgs)` where the manager has no upgrade arguments.
    pub fn upgrade_command(&self) -> (r: Result<ManagerCommand, ConfigError>)
        ensures
            match self.upgrade_args {
                Some(a) => r is Ok && runs(r->Ok_0, self.name, a@),
                None => r == Err::<ManagerCommand, _>(
                    ConfigError::FieldNotFound(Field::UpgradeArgs),
                ),
            },
    {
        match &self.upgrade_args {
            Some(a) => Ok(ManagerCommand { program: self.name.clone(), args: copy_strings(a) }),
            None => Err(ConfigError::FieldNotFound(Field::UpgradeArgs)),
        }
    }
}

} // verus!
