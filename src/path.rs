//! Kinds of configuration paths, the entries of an archive, and the user's selection of paths.
use vstd::prelude::*;
use vstd::string::*;
use crate::error::ConfigError;
use crate::text::{
    has_parent_segment, has_segment_prefix, join, join_path, same_text, sep, starts_with_segment, strip_segment,
    trim_seps, trimmed_from,
};

verus! {

/// The root a path is resolved against.
#[allow(non_camel_case_types)]
#[derive(Clone, Copy, Debug, PartialEq, Eq, Structural)]
pub enum PathKind {
    /// The file system root.
    ABSOLUTE,
    /// The user's home directory.
    HOME,
    /// The user's configuration directory.
    CONFIG,
}

/// The segment that opens the archive name of a path under the home directory.
pub open spec fn home_marker() -> Seq<char> {
    seq!['h', 'o', 'm', 'e']
}

/// The segment that opens the archive name of a path under the configuration directory.
pub open spec fn config_marker() -> Seq<char> {
    seq!['c', 'o', 'n', 'f', 'i', 'g']
}

/// The name of the archive entry that holds the manifest.
pub open spec fn manifest_name() -> Seq<char> {
    seq!['.', 'r', 'c', 'o', 'n', 'f']
}

/// The kind of a path written in a manifest or found in an archive: absolute when it starts
/// with a separator, else by its first segment.
pub open spec fn kind_of(p: Seq<char>) -> PathKind {
    if p.len() > 0 && p[0] == sep() {
        PathKind::ABSOLUTE
    } else if has_segment_prefix(p, home_marker()) {
        PathKind::HOME
    } else if has_segment_prefix(p, config_marker()) {
        PathKind::CONFIG
    } else {
        PathKind::ABSOLUTE
    }
}

/// The marker segment of a kind's archive names; empty for absolute paths.
pub open spec fn marker(k: PathKind) -> Seq<char> {
    match k {
        PathKind::ABSOLUTE => Seq::empty(),
        PathKind::HOME => home_marker(),
        PathKind::CONFIG => config_marker(),
    }
}

/// The home marker as text.
fn home_text() -> (r: &'static str)
    ensures
        r@ == home_marker(),
{
    proof {
        reveal_strlit("home");
    }
    "home"
}

/// The config marker as text.
fn config_text() -> (r: &'static str)
    ensures
        r@ == config_marker(),
{
    proof {
        reveal_strlit("config");
    }
    "config"
}

/// The name of the archive entry that holds the manifest.
pub const MANIFEST_ENTRY: &'static str = ".rconf";

/// The manifest's entry name as text.
pub(crate) fn manifest_text() -> (r: &'static str)
    ensures
        r@ == manifest_name(),
{
    proof {
        reveal_strlit(".rconf");
    }
    MANIFEST_ENTRY
}

impl<'a> From<&'a str> for PathKind {
    /// The kind of a path written in a manifest or found in an archive.
    fn from(path: &'a str) -> (r: PathKind) {
        if path.unicode_len() > 0 && path.get_char(0) == '/' {
            PathKind::ABSOLUTE
        } else if starts_with_segment(path, home_text()) {
            PathKind::HOME
        } else if starts_with_segment(path, config_text()) {
            PathKind::CONFIG
        } else {
            PathKind::ABSOLUTE
        }
    }
}

impl<'a> vstd::std_specs::convert::FromSpecImpl<&'a str> for PathKind {
    open spec fn obeys_from_spec() -> bool {
        true
    }

    open spec fn from_spec(path: &'a str) -> PathKind {
        kind_of(path@)
    }
}

/// One payload entry: a path and the root it belongs under.
#[derive(Clone, Debug, PartialEq, Eq)]
pub struct ArchivePath {
    /// The root the path is resolved against.
    pub kind: PathKind,
    /// The path below that root (an absolute path may keep its leading separator).
    pub path: String,
}

/// What an [`ArchivePath`] holds, as a kind and a sequence of characters.
pub struct ArchivePathView {
    pub kind: PathKind,
    pub path: Seq<char>,
}

impl View for ArchivePath {
    type V = ArchivePathView;

    open spec fn view(&self) -> ArchivePathView {
        ArchivePathView { kind: self.kind, path: self.path@ }
    }
}

/// The entry that an archive name stands for, or `None` for the manifest entry.
///
/// A name whose first segment is `home` or `config` belongs under that root, with the marker
/// and the separators after it removed; any other name is an absolute path, kept as it is.
pub open spec fn classify(name: Seq<char>) -> Option<ArchivePathView> {
    if name == manifest_name() {
        None
    } else if has_segment_prefix(name, home_marker()) {
        Some(ArchivePathView { kind: PathKind::HOME, path: strip_segment(name, home_marker()) })
    } else if has_segment_prefix(name, config_marker()) {
        Some(
            ArchivePathView { kind: PathKind::CONFIG, path: strip_segment(name, config_marker()) },
        )
    } else {
        Some(ArchivePathView { kind: PathKind::ABSOLUTE, path: name })
    }
}

/// The entry `a` stays under the root it belongs under: its path is relative to that root
/// (archive names lose their leading separators) and has no `..` segment that could step
/// out of it.
pub open spec fn contained(a: ArchivePathView) -> bool {
    !has_parent_segment(a.path)
}

/// The name inside an archive of the entry for `a`: an absolute path without its leading
/// separators, or the kind's marker, a separator and the path.
pub open spec fn tar_name(a: ArchivePathView) -> Seq<char> {
    match a.kind {
        PathKind::ABSOLUTE => trim_seps(a.path),
        _ => marker(a.kind) + seq![sep()] + a.path,
    }
}

/// Where the entry `a` lives on a host whose home and configuration directories are `dirs`;
/// `None` where the root it needs is unknown.
pub open spec fn local_of(a: ArchivePathView, dirs: SystemDirsView) -> Option<Seq<char>> {
    match a.kind {
        PathKind::ABSOLUTE => Some(seq![sep()] + trim_seps(a.path)),
        PathKind::HOME => match dirs.home {
            Some(h) => Some(join(h, a.path)),
            None => None,
        },
        PathKind::CONFIG => match dirs.config {
            Some(c) => Some(join(c, a.path)),
            None => None,
        },
    }
}

/// The result of resolving `a` against `dirs`: the local path, or the missing root's kind.
pub open spec fn resolve(a: ArchivePathView, dirs: SystemDirsView) -> Result<
    Seq<char>,
    ConfigError,
> {
    match local_of(a, dirs) {
        Some(l) => Ok(l),
        None => Err(ConfigError::DirNotFound(a.kind)),
    }
}

/// A result whose success value is a string, seen through its characters.
pub open spec fn text_result(r: Result<String, ConfigError>) -> Result<Seq<char>, ConfigError> {
    match r {
        Ok(s) => Ok(s@),
        Err(e) => Err(e),
    }
}

impl ArchivePath {
    /// The entry that a file's name inside a config archive stands for; `None` for the
    /// manifest entry, which is no payload.
    pub fn from_tar_path(path: &str) -> (r: Option<ArchivePath>)
        ensures
            match classify(path@) {
                None => r is None,
                Some(a) => r is Some && r->0@ == a,
            },
    {
        if same_text(path, manifest_text()) {
            None
        } else if starts_with_segment(path, home_text()) {
            Some(ArchivePath { kind: PathKind::HOME, path: trimmed_from(path, 4) })
        } else if starts_with_segment(path, config_text()) {
            Some(ArchivePath { kind: PathKind::CONFIG, path: trimmed_from(path, 6) })
        } else {
            Some(ArchivePath { kind: PathKind::ABSOLUTE, path: String::from_str(path) })
        }
    }

    /// The name of this entry inside a config archive.
    pub fn to_tar_path(&self) -> (r: String)
        ensures
            r@ == tar_name(self@),
    {
        match self.kind {
            PathKind::ABSOLUTE => {
                let r = trimmed_from(self.path.as_str(), 0);
                assert(self.path@.subrange(0, self.path@.len() as int) =~= self.path@);
                r
            },
            PathKind::HOME => {
                let r = String::from_str(home_text()).concat("/").concat(self.path.as_str());
                proof {
                    reveal_strlit("/");
                }
                r
            },
            PathKind::CONFIG => {
                let r = String::from_str(config_text()).concat("/").concat(self.path.as_str());
                proof {
                    reveal_strlit("/");
                }
                r
            },
        }
    }

    /// The local path of this entry on a host whose home and configuration directories are
    /// `dirs`.
    ///
    /// Fails with `DirNotFound` of the entry's kind where that root is unknown; an absolute
    /// entry never fails.
    pub fn to_local_path_in(&self, dirs: &SystemDirs) -> (r: Result<String, ConfigError>)
        ensures
            text_result(r) == resolve(self@, dirs@),
    {
        match self.kind {
            PathKind::ABSOLUTE => {
                let rest = trimmed_from(self.path.as_str(), 0);
                assert(self.path@.subrange(0, self.path@.len() as int) =~= self.path@);
                let r = String::from_str("/").concat(rest.as_str());
                proof {
                    reveal_strlit("/");
                    assert(r@ =~= seq![sep()] + trim_seps(self.path@));
                }
                Ok(r)
            },
            PathKind::HOME => match &dirs.home {
                Some(h) => Ok(join_path(h.as_str(), self.path.as_str())),
                None => Err(ConfigError::DirNotFound(PathKind::HOME)),
            },
            PathKind::CONFIG => match &dirs.config {
                Some(c) => Ok(join_path(c.as_str(), self.path.as_str())),
                None => Err(ConfigError::DirNotFound(PathKind::CONFIG)),
            },
        }
    }

    /// The local path of this entry on this host, with the home and configuration directories
    /// as the operating system reports them.
    ///
    /// Fails with `DirNotFound` of the entry's kind where that root cannot be found; an
    /// absolute entry never fails.
    pub fn to_local_path(&self) -> (r: Result<String, ConfigError>)
        ensures
            exists|d: SystemDirsView| text_result(r) == resolve(self@, d),
            self.kind == PathKind::ABSOLUTE ==> r is Ok && r->Ok_0@ == seq![sep()] + trim_seps(
                self.path@,
            ),
    {
        let dirs = SystemDirs::current();
        let r = self.to_local_path_in(&dirs);
        assert(text_result(r) == resolve(self@, dirs@));
        r
    }
}

/// The roots that home and configuration paths are resolved against on one host.
#[derive(Clone, Debug, PartialEq, Eq)]
pub struct SystemDirs {
    /// The user's home directory, if it is known.
    pub home: Option<String>,
    /// The user's configuration directory, if it is known.
    pub config: Option<String>,
}

/// What a [`SystemDirs`] holds, as sequences of characters.
pub struct SystemDirsView {
    pub home: Option<Seq<char>>,
    pub config: Option<Seq<char>>,
}

/// A string that may be absent, seen through its characters.
pub open spec fn opt_text(o: Option<String>) -> Option<Seq<char>> {
    match o {
        Some(s) => Some(s@),
        None => None,
    }
}

impl View for SystemDirs {
    type V = SystemDirsView;

    open spec fn view(&self) -> SystemDirsView {
        SystemDirsView { home: opt_text(self.home), config: opt_text(self.config) }
    }
}

/// Relies on `dirs::home_dir`: the user's home directory as this host reports it, if any;
/// one that is not valid UTF-8 counts as unknown.
#[verifier::external_body]
fn home_dir() -> (r: Option<String>) {
    match dirs::home_dir() {
        Some(p) => p.into_os_string().into_string().ok(),
        None => None,
    }
}

/// Relies on `dirs::config_dir`: the user's configuration directory as this host reports it,
/// if any; one that is not valid UTF-8 counts as unknown.
#[verifier::external_body]
fn config_dir() -> (r: Option<String>) {
    match dirs::config_dir() {
        Some(p) => p.into_os_string().into_string().ok(),
        None => None,
    }
}

impl SystemDirs {
    /// The home and configuration directories that this host reports.
    pub fn current() -> (r: SystemDirs) {
        SystemDirs { home: home_dir(), config: config_dir() }
    }
}

/// Classifying the archive name of an entry gives back that entry, kind and path, wherever
/// the path is relative (no leading separator); an absolute entry's path must besides not be
/// the manifest's name nor begin with the `home` or `config` segment, which would claim its
/// name for another kind.
pub proof fn lemma_archive_name_round_trip(a: ArchivePathView)
    requires
        a.path.len() == 0 || a.path[0] != sep(),
        a.kind == PathKind::ABSOLUTE ==> a.path != manifest_name() && !has_segment_prefix(
            a.path,
            home_marker(),
        ) && !has_segment_prefix(a.path, config_marker()),
    ensures
        classify(tar_name(a)) == Some(a),
{
    crate::text::lemma_trim_seps_none(a.path);
    match a.kind {
        PathKind::ABSOLUTE => {},
        PathKind::HOME => {
            let n = home_marker() + seq![sep()] + a.path;
            assert(n[0] != manifest_name()[0]);
            assert(n.subrange(0, 4) =~= home_marker());
            assert(n.subrange(4, n.len() as int) =~= seq![sep()] + a.path);
            assert((seq![sep()] + a.path).drop_first() =~= a.path);
        },
        PathKind::CONFIG => {
            let n = config_marker() + seq![sep()] + a.path;
            assert(n[0] != manifest_name()[0]);
            assert(n[0] != home_marker()[0]);
            assert(n.subrange(0, 6) =~= config_marker());
            assert(n.subrange(6, n.len() as int) =~= seq![sep()] + a.path);
            assert((seq![sep()] + a.path).drop_first() =~= a.path);
        },
    }
}

/// The manifest's entry name is never a payload entry.
pub proof fn lemma_manifest_name_skipped()
    ensures
        classify(manifest_name()) is None,
{
}

/// `home/x` is `x` under the home directory and `config/x` is `x` under the configuration
/// directory, for every relative `x`; any other name but the manifest's is an absolute path,
/// unchanged.
pub proof fn lemma_marker_precedence(x: Seq<char>, other: Seq<char>)
    requires
        x.len() == 0 || x[0] != sep(),
    ensures
        classify(home_marker() + seq![sep()] + x) == Some(
            ArchivePathView { kind: PathKind::HOME, path: x },
        ),
        classify(config_marker() + seq![sep()] + x) == Some(
            ArchivePathView { kind: PathKind::CONFIG, path: x },
        ),
        other != manifest_name() && !has_segment_prefix(other, home_marker())
            && !has_segment_prefix(other, config_marker()) ==> classify(other) == Some(
            ArchivePathView { kind: PathKind::ABSOLUTE, path: other },
        ),
{
    let h = home_marker() + seq![sep()] + x;
    let c = config_marker() + seq![sep()] + x;
    crate::text::lemma_trim_seps_none(x);
    assert(h[0] != manifest_name()[0]);
    assert(h.subrange(0, 4) =~= home_marker());
    assert(h.subrange(4, h.len() as int) =~= seq![sep()] + x);
    assert((seq![sep()] + x).drop_first() =~= x);
    assert(c[0] != manifest_name()[0]);
    assert(c[0] != home_marker()[0]);
    assert(c.subrange(0, 6) =~= config_marker());
    assert(c.subrange(6, c.len() as int) =~= seq![sep()] + x);
}

/// The configuration paths that a user selected, grouped by the root they belong under.
#[derive(Clone, Debug, PartialEq, Eq)]
pub struct PathSpecifier {
    /// Absolute paths.
    pub absolute: Option<Vec<String>>,
    /// Paths under the home directory.
    pub home: Option<Vec<String>>,
    /// Paths under the configuration directory.
    pub config: Option<Vec<String>>,
}

/// The strings of an optional list, as sequences of characters; empty where it is absent.
pub open spec fn listed(o: Option<Vec<String>>) -> Seq<Seq<char>> {
    match o {
        Some(v) => crate::text::texts(v@),
        None => Seq::empty(),
    }
}

/// The entries of the given kind made from the paths `ps`, in their order.
pub open spec fn entries_of(ps: Seq<Seq<char>>, kind: PathKind) -> Seq<ArchivePathView> {
    ps.map_values(|p: Seq<char>| ArchivePathView { kind, path: p })
}

/// What the entries of `v` hold.
pub open spec fn path_views(v: Seq<ArchivePath>) -> Seq<ArchivePathView> {
    v.map_values(|a: ArchivePath| a@)
}

impl PathSpecifier {
    /// The paths selected under the root of `kind`.
    pub open spec fn spec_listed(&self, kind: PathKind) -> Seq<Seq<char>> {
        match kind {
            PathKind::ABSOLUTE => listed(self.absolute),
            PathKind::HOME => listed(self.home),
            PathKind::CONFIG => listed(self.config),
        }
    }

    /// The entries of one kind, one per selected path, in the order the paths are listed.
    pub open spec fn spec_paths(&self, kind: PathKind) -> Seq<ArchivePathView> {
        entries_of(self.spec_listed(kind), kind)
    }

    /// All entries: the absolute ones, then those under home, then those under config.
    pub open spec fn spec_all_paths(&self) -> Seq<ArchivePathView> {
        self.spec_paths(PathKind::ABSOLUTE) + self.spec_paths(PathKind::HOME) + self.spec_paths(
            PathKind::CONFIG,
        )
    }

    /// The entries for the paths selected under the root of `kind`, in the order listed.
    pub fn get_archiveable_paths(&self, kind: PathKind) -> (r: Vec<ArchivePath>)
        ensures
            path_views(r@) == self.spec_paths(kind),
    {
        let list = match kind {
            PathKind::ABSOLUTE => &self.absolute,
            PathKind::HOME => &self.home,
            PathKind::CONFIG => &self.config,
        };
        let mut r: Vec<ArchivePath> = Vec::new();
        match list {
            None => {
                assert(path_views(r@) =~= self.spec_paths(kind));
            },
            Some(v) => {
                let ghost want = self.spec_paths(kind);
                let mut i: usize = 0;
                while i < v.len()
                    invariant
                        i <= v@.len(),
                        r@.len() == i,
                        want.len() == v@.len(),
                        want == entries_of(crate::text::texts(v@), kind),
                        path_views(r@) == want.subrange(0, i as int),
                    decreases v@.len() - i,
                {
                    let path = v[i].clone();
                    assert(want[i as int] == ArchivePathView { kind, path: v@[i as int]@ });
                    r.push(ArchivePath { kind, path });
                    proof {
                        assert(path_views(r@)[i as int] == want[i as int]);
                    }
                    i = i + 1;
                    assert(path_views(r@) =~= want.subrange(0, i as int));
                }
                assert(want.subrange(0, i as int) =~= want);
            },
        }
        r
    }

    /// All entries: the absolute ones, then those under home, then those under config.
    pub fn get_all_archiveable_paths(&self) -> (r: Vec<ArchivePath>)
        ensures
            path_views(r@) == self.spec_all_paths(),
    {
        let mut r = self.get_archiveable_paths(PathKind::ABSOLUTE);
        let mut h = self.get_archiveable_paths(PathKind::HOME);
        let mut c = self.get_archiveable_paths(PathKind::CONFIG);
        let ghost (r0, h0, c0) = (r@, h@, c@);
        r.append(&mut h);
        r.append(&mut c);
        assert(r@ == r0 + h0 + c0);
        assert(path_views(r@) =~= path_views(r0) + path_views(h0) + path_views(c0));
        r
    }

    /// The files to copy into an archive, each with its local path and its name in the
    /// archive, in the order of [`PathSpecifier::get_all_archiveable_paths`].
    ///
    /// Fails with `DirNotFound` of the first entry, in that order, whose root `dirs` lacks.
    pub fn archive_entries(&self, dirs: &SystemDirs) -> (r: Result<Vec<ArchiveEntry>, ConfigError>)
        ensures
            entries_planned(self.spec_all_paths(), dirs@, r),
    {
        let all = self.get_all_archiveable_paths();
        let ghost want = self.spec_all_paths();
        let mut out: Vec<ArchiveEntry> = Vec::new();
        let mut i: usize = 0;
        while i < all.len()
            invariant
                i <= all@.len(),
                want == self.spec_all_paths(),
                path_views(all@) == want,
                out@.len() == i,
                forall|j: int| 0 <= j < i ==> local_of(#[trigger] want[j], dirs@) is Some,
                forall|j: int|
                    0 <= j < i ==> (#[trigger] out@[j]).local@ == local_of(want[j], dirs@)->0
                        && out@[j].name@ == tar_name(want[j]),
            decreases all@.len() - i,
        {
            assert(all@[i as int]@ == want[i as int]);
            match all[i].to_local_path_in(dirs) {
                Ok(local) => {
                    let name = all[i].to_tar_path();
                    assert(local@ == local_of(want[i as int], dirs@)->0);
                    out.push(ArchiveEntry { local, name });
                    assert(out@[i as int].name@ == tar_name(want[i as int]));
                },
                Err(e) => {
                    assert(local_of(want[i as int], dirs@) is None);
                    assert(e == ConfigError::DirNotFound(want[i as int].kind));
                    assert(entries_planned(want, dirs@, Err(e))) by {
                        let k = i as int;
                        assert(0 <= k < want.len() && local_of(want[k], dirs@) is None && (
                        forall|j: int| 0 <= j < k ==> local_of(#[trigger] want[j], dirs@) is Some)
                            && e == ConfigError::DirNotFound(want[k].kind));
                    }
                    return Err(e);
                },
            }
            i = i + 1;
        }
        Ok(out)
    }
}

/// One file or directory to copy into an archive.
#[derive(Clone, Debug, PartialEq, Eq)]
pub struct ArchiveEntry {
    /// Where it lives on this host.
    pub local: String,
    /// The name it gets inside the archive.
    pub name: String,
}

/// `r` is the plan for copying the entries `all` on a host with the directories `dirs`:
/// on success one item per entry, with its local path and archive name; else the
/// `DirNotFound` error of the first entry that cannot be resolved.
pub open spec fn entries_planned(
    all: Seq<ArchivePathView>,
    dirs: SystemDirsView,
    r: Result<Vec<ArchiveEntry>, ConfigError>,
) -> bool {
    match r {
        Ok(v) => {
            &&& v@.len() == all.len()
            &&& forall|j: int| 0 <= j < all.len() ==> local_of(#[trigger] all[j], dirs) is Some
            &&& forall|j: int|
                0 <= j < all.len() ==> (#[trigger] v@[j]).local@ == local_of(all[j], dirs)->0
                    && v@[j].name@ == tar_name(all[j])
        },
        Err(e) => exists|k: int|
            0 <= k < all.len() && local_of(#[trigger] all[k], dirs) is None && (forall|j: int|
                0 <= j < k ==> local_of(#[trigger] all[j], dirs) is Some) && e
                == ConfigError::DirNotFound(all[k].kind),
    }
}

/// A selection with no path in any of its three lists gives no entry, and so an archive that
/// holds no payload, whatever the host's directories.
pub proof fn lemma_empty_specifier(s: PathSpecifier, dirs: SystemDirsView, r: Result<
    Vec<ArchiveEntry>,
    ConfigError,
>)
    requires
        s.spec_listed(PathKind::ABSOLUTE).len() == 0,
        s.spec_listed(PathKind::HOME).len() == 0,
        s.spec_listed(PathKind::CONFIG).len() == 0,
        entries_planned(s.spec_all_paths(), dirs, r),
    ensures
        s.spec_all_paths().len() == 0,
        r is Ok,
        r->Ok_0@.len() == 0,
{
}

} // verus!
