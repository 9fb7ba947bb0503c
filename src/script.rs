//! The shell script stored beside the manifest, which installs an unpacked archive by hand.
use vstd::prelude::*;
use vstd::string::*;
use crate::archive::ConfigArchive;
use crate::manager::Manager;
use crate::path::PathSpecifier;
use crate::text::{join_strings, join_words, texts};

verus! {

/// The name of the archive entry that holds the script.
pub const SCRIPT_ENTRY: &'static str = "install.sh";

/// The name of the archive entry that holds the script, as characters.
pub open spec fn script_name() -> Seq<char> {
    seq!['i', 'n', 's', 't', 'a', 'l', 'l', '.', 's', 'h']
}

/// The script's entry name as text.
pub(crate) fn script_text() -> (r: &'static str)
    ensures
        r@ == script_name(),
{
    proof {
        reveal_strlit("install.sh");
    }
    SCRIPT_ENTRY
}

/// The first line of the script.
pub const SCRIPT_HEAD: &'static str = "#!/usr/bin/env bash\n";

/// Copies the entries under `home` into the home directory.
pub const SCRIPT_HOME: &'static str = "if [ -d home ];then
    find home -maxdepth 1 -exec cp --recursive --target-directory $HOME '{}' +
fi\n";

/// Copies the entries under `config` into the configuration directory.
pub const SCRIPT_CONFIG: &'static str = "if [ -d config ];then
    find config -maxdepth 1 -exec cp --recursive --target-directory $HOME/.config '{}' +
fi\n";

/// Copies the remaining top-level entries to the same place under the file system root.
pub const SCRIPT_ABSOLUTE: &'static str = "abs=($(find . -maxdepth 1 -not \\( -regex './install.sh' -or -regex '.' -or -regex './home.*' -or -regex './.rconf' -or -regex './config.*' \\)))
for file in \"${abs[@]}\"; do
    cp --recursive $file ${file:1}
done\n";

/// The text of a piece of the script that is present only when `present` holds.
pub open spec fn part_if(present: bool, text: Seq<char>) -> Seq<char> {
    if present {
        text
    } else {
        Seq::empty()
    }
}

/// The copy steps of the script for the selection `paths`: home, then config, then absolute,
/// each present where that kind of path is selected.
pub open spec fn spec_copies(paths: Option<PathSpecifier>) -> Seq<char> {
    match paths {
        Some(p) => part_if(p.home is Some, SCRIPT_HOME@) + part_if(p.config is Some, SCRIPT_CONFIG@)
            + part_if(p.absolute is Some, SCRIPT_ABSOLUTE@),
        None => Seq::empty(),
    }
}

/// The line of the script that runs the manager's install command, if there is a manager.
pub open spec fn spec_install_line(manager: Option<Manager>) -> Seq<char> {
    match manager {
        Some(m) => m.name@ + " "@ + join_words(texts(m.install_args@), " "@) + " "@ + join_words(
            texts(m.packages@),
            " "@,
        ),
        None => Seq::empty(),
    }
}

/// The install script for the manifest `cfg`: the copy steps for each kind of path the
/// manifest selects (home, then config, then absolute), then the manager's install command.
pub open spec fn spec_script(cfg: ConfigArchive) -> Seq<char> {
    SCRIPT_HEAD@ + spec_copies(cfg.paths) + spec_install_line(cfg.manager)
}

/// Generates the script that installs an unpacked archive of the manifest `cfg`.
pub fn build_script(cfg: &ConfigArchive) -> (r: String)
    ensures
        r@ == spec_script(*cfg),
{
    let mut script = String::from_str(SCRIPT_HEAD);
    let ghost head = script@;
    if let Some(specifier) = &cfg.paths {
        if specifier.home.is_some() {
            script.append(SCRIPT_HOME);
        }
        let ghost s1 = script@;
        assert(s1 == head + part_if(specifier.home is Some, SCRIPT_HOME@));
        if specifier.config.is_some() {
            script.append(SCRIPT_CONFIG);
        }
        let ghost s2 = script@;
        assert(s2 == s1 + part_if(specifier.config is Some, SCRIPT_CONFIG@));
        if specifier.absolute.is_some() {
            script.append(SCRIPT_ABSOLUTE);
        }
        assert(script@ == s2 + part_if(specifier.absolute is Some, SCRIPT_ABSOLUTE@));
        assert(script@ =~= head + spec_copies(cfg.paths));
    } else {
        assert(script@ =~= head + spec_copies(cfg.paths));
    }
    let ghost before = script@;
    if let Some(manager) = &cfg.manager {
        let args = join_strings(&manager.install_args, " ");
        let packages = join_strings(&manager.packages, " ");
        script.append(manager.name.as_str());
        script.append(" ");
        script.append(args.as_str());
        script.append(" ");
        script.append(packages.as_str());
        assert(script@ =~= before + spec_install_line(cfg.manager));
    } else {
        assert(script@ =~= before + spec_install_line(cfg.manager));
    }
    assert(script@ =~= spec_script(*cfg));
    script
}

} // verus!
