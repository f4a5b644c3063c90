//! Linking a mod loader's files into the game's install directory and moving
//! them back afterwards.
//!
//! The host inspects each managed entry, asks this module what to do with it,
//! and carries that out; the flag that records whether linking is active lives
//! in `ModLinkState`.

use vstd::prelude::*;
use crate::paths::{join_path, path_join, popped, containing_dir};

verus! {

/// How an entry of the mod loader is treated.
#[derive(Debug, Clone, Copy, PartialEq, Eq)]
pub enum EntryKind {
    /// Loader files and directories: linked in, links removed afterwards.
    Managed,
    /// The user's loader settings, written on first run: linked only once the
    /// loader side holds it.
    UserData,
    /// Output written during a session: never linked, always moved back.
    Log,
}

/// One managed entry: its name in both directories and how it is treated.
#[derive(Debug)]
pub struct ModEntry {
    pub name: String,
    pub kind: EntryKind,
}

/// The entries, in the order they are handled.
pub open spec fn entry_table() -> Seq<(Seq<char>, EntryKind)> {
    seq![
        ("Mods"@, EntryKind::Managed),
        ("ShaderCache"@, EntryKind::Managed),
        ("ShaderFixes"@, EntryKind::Managed),
        ("d3d11.dll"@, EntryKind::Managed),
        ("d3dcompiler_47.dll"@, EntryKind::Managed),
        ("d3dx.ini"@, EntryKind::Managed),
        ("d3dx_user.ini"@, EntryKind::UserData),
        ("d3d11_log.txt"@, EntryKind::Log),
    ]
}

fn entry(name: &str, kind: EntryKind) -> (r: ModEntry)
    ensures
        r.name@ == name@,
        r.kind == kind,
{
    ModEntry { name: String::from_str(name), kind }
}

/// The managed entries, as `entry_table` lists them.
pub fn mod_entries() -> (r: Vec<ModEntry>)
    ensures
        r.len() == entry_table().len(),
        forall|i: int|
            0 <= i < r.len() ==> r[i].name@ == entry_table()[i].0 && r[i].kind
                == entry_table()[i].1,
{
    vec![
        entry("Mods", EntryKind::Managed),
        entry("ShaderCache", EntryKind::Managed),
        entry("ShaderFixes", EntryKind::Managed),
        entry("d3d11.dll", EntryKind::Managed),
        entry("d3dcompiler_47.dll", EntryKind::Managed),
        entry("d3dx.ini", EntryKind::Managed),
        entry("d3dx_user.ini", EntryKind::UserData),
        entry("d3d11_log.txt", EntryKind::Log),
    ]
}

/// The suffix given to a loader-side entry that would otherwise be overwritten.
pub const BACKUP_SUFFIX: &'static str = ".bak";

/// Where one entry lives: in the install directory, in the loader directory,
/// and the loader-side name its backup takes.
#[derive(Debug)]
pub struct EntryPaths {
    pub kind: EntryKind,
    pub install: String,
    pub loader: String,
    pub backup: String,
}

/// The paths of the entry named `name` for the two directories.
pub open spec fn paths_match(p: EntryPaths, install_dir: Seq<char>, loader_dir: Seq<char>, name: Seq<char>, kind: EntryKind) -> bool {
    &&& p.kind == kind
    &&& p.install@ == path_join(install_dir, name)
    &&& p.loader@ == path_join(loader_dir, name)
    &&& p.backup@ == path_join(loader_dir, name + BACKUP_SUFFIX@)
}

/// The paths of every managed entry, in table order.
pub fn entry_paths(install_dir: &str, loader_dir: &str) -> (r: Vec<EntryPaths>)
    ensures
        r.len() == entry_table().len(),
        forall|i: int|
            0 <= i < r.len() ==> paths_match(
                #[trigger] r[i],
                install_dir@,
                loader_dir@,
                entry_table()[i].0,
                entry_table()[i].1,
            ),
{
    let entries = mod_entries();
    let mut r: Vec<EntryPaths> = Vec::new();
    let mut i: usize = 0;
    while i < entries.len()
        invariant
            i <= entries.len(),
            entries.len() == entry_table().len(),
            r.len() == i,
            forall|j: int|
                0 <= j < entries.len() ==> entries[j].name@ == entry_table()[j].0
                    && entries[j].kind == entry_table()[j].1,
            forall|j: int|
                0 <= j < i ==> paths_match(
                    #[trigger] r[j],
                    install_dir@,
                    loader_dir@,
                    entry_table()[j].0,
                    entry_table()[j].1,
                ),
        decreases entries.len() - i,
    {
        let name = entries[i].name.as_str();
        let mut backup_name = String::from_str(name);
        backup_name.append(BACKUP_SUFFIX);
        let p = EntryPaths {
            kind: entries[i].kind,
            install: join_path(install_dir, name),
            loader: join_path(loader_dir, name),
            backup: join_path(loader_dir, backup_name.as_str()),
        };
        r.push(p);
        i = i + 1;
    }
    r
}

/// The flag shared by the launcher's threads: `None` while unknown or cleared,
/// `Some(true)` while the loader is linked in.
#[derive(Debug)]
pub struct ModLinkState {
    pub flag: Option<bool>,
}

impl ModLinkState {
    /// The state at start-up: unknown.
    pub fn new() -> (r: ModLinkState)
        ensures
            r.flag is None,
    {
        ModLinkState { flag: None }
    }

    /// The state that replaces one left behind by a holder that panicked: its
    /// value is discarded and linking counts as inactive.
    pub fn recover_poisoned(stale: ModLinkState) -> (r: ModLinkState)
        ensures
            r.flag == recovered(stale.flag),
    {
        ModLinkState { flag: None }
    }

    /// Whether the loader is linked in.
    pub fn is_linked(&self) -> (r: bool)
        ensures
            r == (self.flag == Some(true)),
    {
        match self.flag {
            Some(b) => b,
            None => false,
        }
    }

    /// Records whether the loader is linked in.
    pub fn set_linked(&mut self, linked: bool)
        ensures
            final(self).flag == Some(linked),
    {
        self.flag = Some(linked);
    }

    /// Reads the flag and clears it.
    pub fn take(&mut self) -> (r: Option<bool>)
        ensures
            r == old(self).flag,
            final(self).flag is None,
    {
        let r = self.flag;
        self.flag = None;
        r
    }

    /// Clears the flag after a game session and says whether the loader must be
    /// unlinked, which is so exactly when it was linked.
    pub fn end_session(&mut self) -> (r: bool)
        ensures
            r == (old(self).flag == Some(true)),
            final(self).flag is None,
    {
        let was = self.take();
        match was {
            Some(b) => b,
            None => false,
        }
    }
}

/// The flag that recovery leaves, whatever the stale one held.
pub open spec fn recovered(stale: Option<bool>) -> Option<bool> {
    None
}

/// Which configured path is missing.
#[derive(Debug, Clone, Copy, PartialEq, Eq)]
pub enum MissingPath {
    Install,
    Loader,
}

/// The two directories to work in: those that hold the configured game
/// executable and loader executable.
#[derive(Debug)]
pub struct LinkDirs {
    pub install_dir: String,
    pub loader_dir: String,
}

pub open spec fn dirs_for(install_path: Option<String>, loader_path: Option<String>) -> Result<
    (Seq<char>, Seq<char>),
    MissingPath,
> {
    match (install_path, loader_path) {
        (None, _) => Err(MissingPath::Install),
        (Some(_), None) => Err(MissingPath::Loader),
        (Some(i), Some(l)) => Ok((popped(i@), popped(l@))),
    }
}

/// The directories of the configured game and loader executables.
pub fn resolve_dirs(install_path: &Option<String>, loader_path: &Option<String>) -> (r: Result<
    LinkDirs,
    MissingPath,
>)
    ensures
        match (r, dirs_for(*install_path, *loader_path)) {
            (Ok(d), Ok(v)) => d.install_dir@ == v.0 && d.loader_dir@ == v.1,
            (Err(e), Err(f)) => e == f,
            _ => false,
        },
{
    let install = match install_path {
        None => {
            return Err(MissingPath::Install);
        },
        Some(p) => p,
    };
    let loader = match loader_path {
        None => {
            return Err(MissingPath::Loader);
        },
        Some(p) => p,
    };
    Ok(
        LinkDirs {
            install_dir: containing_dir(install.as_str()),
            loader_dir: containing_dir(loader.as_str()),
        },
    )
}

/// How `link` begins.
#[derive(Debug)]
pub enum LinkStart {
    /// The loader is linked in already: nothing is touched.
    AlreadyLinked,
    /// A path is not configured: nothing is touched and the flag stays.
    Missing(MissingPath),
    /// Link the entries between these directories.
    Proceed(LinkDirs),
}

/// Decides how `link` begins: the flag is consulted first, then the
/// configuration.
pub fn start_link(state: &ModLinkState, install_path: &Option<String>, loader_path: &Option<String>) -> (r: LinkStart)
    ensures
        state.flag == Some(true) ==> r is AlreadyLinked,
        state.flag != Some(true) ==> match (r, dirs_for(*install_path, *loader_path)) {
            (LinkStart::Proceed(d), Ok(v)) => d.install_dir@ == v.0 && d.loader_dir@ == v.1,
            (LinkStart::Missing(e), Err(f)) => e == f,
            _ => false,
        },
{
    if state.is_linked() {
        return LinkStart::AlreadyLinked;
    }
    match resolve_dirs(install_path, loader_path) {
        Ok(d) => LinkStart::Proceed(d),
        Err(e) => LinkStart::Missing(e),
    }
}

/// Marks the end of a `link` that ran through its entries.
pub fn finish_link(state: &mut ModLinkState)
    ensures
        final(state).flag == Some(true),
{
    state.set_linked(true);
}

/// What stands at a path, as the host observes it without following links.
#[derive(Debug, Clone, Copy, PartialEq, Eq)]
pub enum Presence {
    Absent,
    Symlink,
    Real,
}

/// What the host observed of one entry before acting on it.
#[derive(Debug, Clone, Copy, PartialEq, Eq)]
pub struct EntryFacts {
    /// What stands at the install-side path.
    pub install: Presence,
    /// Whether anything stands at the loader-side path.
    pub loader_exists: bool,
}

/// What `link` does with one entry.
#[derive(Debug, Clone, Copy, PartialEq, Eq)]
pub enum LinkAction {
    /// Create a link at the install-side path that points to the loader side.
    CreateLink,
    /// Something stands at the install side already: never overwrite it.
    SkipExisting,
    /// The loader side does not hold the entry yet.
    SkipNoSource,
    /// The entry is not linked at all.
    Ignore,
}

/// What `unlink` does with one entry.
#[derive(Debug, Clone, Copy, PartialEq, Eq)]
pub enum UnlinkAction {
    /// Remove the link at the install side.
    RemoveLink,
    /// Move the install-side entry to the loader side.
    MoveBack,
    /// Rename the loader-side entry to its backup name, then move the
    /// install-side entry to the loader side.
    BackUpThenMoveBack,
    /// Nothing to do.
    Leave,
}

pub open spec fn link_action_spec(kind: EntryKind, f: EntryFacts) -> LinkAction {
    match kind {
        EntryKind::Log => LinkAction::Ignore,
        EntryKind::UserData if !f.loader_exists => LinkAction::SkipNoSource,
        _ => if f.install is Absent {
            LinkAction::CreateLink
        } else {
            LinkAction::SkipExisting
        },
    }
}

pub open spec fn unlink_action_spec(kind: EntryKind, f: EntryFacts) -> UnlinkAction {
    match f.install {
        Presence::Absent => UnlinkAction::Leave,
        Presence::Symlink => match kind {
            EntryKind::Log => UnlinkAction::MoveBack,
            _ => UnlinkAction::RemoveLink,
        },
        Presence::Real => match kind {
            EntryKind::Log => UnlinkAction::MoveBack,
            _ => if f.loader_exists {
                UnlinkAction::BackUpThenMoveBack
            } else {
                UnlinkAction::MoveBack
            },
        },
    }
}

/// Decides what `link` does with one entry.
pub fn link_action(kind: EntryKind, facts: EntryFacts) -> (r: LinkAction)
    ensures
        r == link_action_spec(kind, facts),
{
    match kind {
        EntryKind::Log => LinkAction::Ignore,
        EntryKind::UserData if !facts.loader_exists => LinkAction::SkipNoSource,
        _ => match facts.install {
            Presence::Absent => LinkAction::CreateLink,
            _ => LinkAction::SkipExisting,
        },
    }
}

/// Decides what `unlink` does with one entry.
pub fn unlink_action(kind: EntryKind, facts: EntryFacts) -> (r: UnlinkAction)
    ensures
        r == unlink_action_spec(kind, facts),
{
    match facts.install {
        Presence::Absent => UnlinkAction::Leave,
        Presence::Symlink => match kind {
            EntryKind::Log => UnlinkAction::MoveBack,
            _ => UnlinkAction::RemoveLink,
        },
        Presence::Real => match kind {
            EntryKind::Log => UnlinkAction::MoveBack,
            _ => if facts.loader_exists {
                UnlinkAction::BackUpThenMoveBack
            } else {
                UnlinkAction::MoveBack
            },
        },
    }
}

/// What stands at one path in the model of the two directories: nothing, a
/// link, or a file or directory whose contents are identified by a number.
pub enum Node {
    Absent,
    Link,
    Data(u64),
}

/// One entry in the model: its install-side path, its loader-side path, and
/// the loader-side backup name.
pub struct EntryModel {
    pub install: Node,
    pub loader: Node,
    pub backup: Node,
}

pub open spec fn presence_of(n: Node) -> Presence {
    match n {
        Node::Absent => Presence::Absent,
        Node::Link => Presence::Symlink,
        Node::Data(_) => Presence::Real,
    }
}

/// What the host observes of a modelled entry.
pub open spec fn facts_of(m: EntryModel) -> EntryFacts {
    EntryFacts { install: presence_of(m.install), loader_exists: !(m.loader is Absent) }
}

/// The effect of a link action on an entry.
pub open spec fn apply_link(a: LinkAction, m: EntryModel) -> EntryModel {
    match a {
        LinkAction::CreateLink => EntryModel { install: Node::Link, ..m },
        _ => m,
    }
}

/// The effect of an unlink action on an entry.
pub open spec fn apply_unlink(a: UnlinkAction, m: EntryModel) -> EntryModel {
    match a {
        UnlinkAction::RemoveLink => EntryModel { install: Node::Absent, ..m },
        UnlinkAction::MoveBack => EntryModel { install: Node::Absent, loader: m.install, ..m },
        UnlinkAction::BackUpThenMoveBack => EntryModel {
            install: Node::Absent,
            loader: m.install,
            backup: m.loader,
        },
        UnlinkAction::Leave => m,
    }
}

pub open spec fn link_entry(kind: EntryKind, m: EntryModel) -> EntryModel {
    apply_link(link_action_spec(kind, facts_of(m)), m)
}

pub open spec fn unlink_entry(kind: EntryKind, m: EntryModel) -> EntryModel {
    apply_unlink(unlink_action_spec(kind, facts_of(m)), m)
}

/// A whole `link` on the model: the flag and the entries, in table order,
/// after it.
pub open spec fn link_run(
    flag: Option<bool>,
    install_path: Option<String>,
    loader_path: Option<String>,
    ms: Seq<EntryModel>,
) -> (Option<bool>, Seq<EntryModel>) {
    if flag == Some(true) || dirs_for(install_path, loader_path) is Err {
        (flag, ms)
    } else {
        (Some(true), Seq::new(ms.len(), |i: int| link_entry(entry_table()[i].1, ms[i])))
    }
}

/// A whole `unlink` on the model: the entries after it.
pub open spec fn unlink_run(
    install_path: Option<String>,
    loader_path: Option<String>,
    ms: Seq<EntryModel>,
) -> Seq<EntryModel> {
    if dirs_for(install_path, loader_path) is Err {
        ms
    } else {
        Seq::new(ms.len(), |i: int| unlink_entry(entry_table()[i].1, ms[i]))
    }
}

/// Linking twice in a row does what linking once does: the second run finds
/// the flag set and touches nothing, and a run that went through leaves the
/// flag set.
pub proof fn lemma_link_idempotent(
    flag: Option<bool>,
    install_path: Option<String>,
    loader_path: Option<String>,
    ms: Seq<EntryModel>,
)
    ensures
        ({
            let once = link_run(flag, install_path, loader_path, ms);
            link_run(once.0, install_path, loader_path, once.1) == once
        }),
        dirs_for(install_path, loader_path) is Ok ==> link_run(flag, install_path, loader_path, ms).0
            == Some(true),
{
}

/// Linking an entry that was linked already changes nothing: what `link`
/// created it never overwrites.
pub proof fn lemma_link_entry_idempotent(kind: EntryKind, m: EntryModel)
    ensures
        link_entry(kind, link_entry(kind, m)) == link_entry(kind, m),
{
}

/// An entry whose install side was empty before `link` is as it was after
/// `link` and `unlink`.
pub proof fn lemma_entry_round_trip(kind: EntryKind, m: EntryModel)
    requires
        m.install is Absent,
    ensures
        unlink_entry(kind, link_entry(kind, m)) == m,
{
}

/// With both paths configured and nothing of the loader's in the install
/// directory, `link` followed by `unlink` restores every entry.
pub proof fn lemma_link_unlink_round_trip(
    flag: Option<bool>,
    install_path: Option<String>,
    loader_path: Option<String>,
    ms: Seq<EntryModel>,
)
    requires
        flag != Some(true),
        ms.len() == entry_table().len(),
        forall|i: int| 0 <= i < ms.len() ==> ms[i].install is Absent,
    ensures
        unlink_run(install_path, loader_path, link_run(flag, install_path, loader_path, ms).1) == ms,
{
    let linked = link_run(flag, install_path, loader_path, ms).1;
    if dirs_for(install_path, loader_path) is Ok {
        let back = unlink_run(install_path, loader_path, linked);
        assert forall|i: int| 0 <= i < ms.len() implies back[i] == ms[i] by {
            lemma_entry_round_trip(entry_table()[i].1, ms[i]);
        }
        assert(back =~= ms);
    }
}

/// When `unlink` moves a real install-side entry onto a loader-side one that
/// exists, the loader-side contents survive under the backup name and the
/// moved contents take the loader-side name.
pub proof fn lemma_unlink_keeps_conflicting_data(kind: EntryKind, m: EntryModel, moved: u64, existing: u64)
    requires
        kind != EntryKind::Log,
        m.install == Node::Data(moved),
        m.loader == Node::Data(existing),
    ensures
        unlink_entry(kind, m) == (EntryModel {
            install: Node::Absent,
            loader: Node::Data(moved),
            backup: Node::Data(existing),
        }),
{
}

/// After recovery from a poisoned lock the flag reads as not linked, so the
/// next `link` runs through its entries whenever both paths are configured.
pub proof fn lemma_link_after_recovery(
    stale: Option<bool>,
    install_path: Option<String>,
    loader_path: Option<String>,
    ms: Seq<EntryModel>,
)
    ensures
        recovered(stale) != Some(true),
        dirs_for(install_path, loader_path) is Ok ==> link_run(
            recovered(stale),
            install_path,
            loader_path,
            ms,
        ) == (Some(true), Seq::new(ms.len(), |i: int| link_entry(entry_table()[i].1, ms[i]))),
{
}

} // verus!
