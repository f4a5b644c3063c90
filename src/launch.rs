//! The launch orchestrator: classifies an executable, gates a game launch on
//! the launcher's readiness, keeps the single slot of the active game thread,
//! and builds the command for any other Windows executable.

use vstd::prelude::*;
use crate::command::{CommandSpec, CommandView, in_terminal_spec, terminal_args};
use crate::elevation::guess_user_terminal;
use crate::paths::{extension_of, file_name_of, parent_of, path_extension, path_file_name, path_parent};
use crate::runtime::{CompatRuntimeConfig, RuntimeError, build_runtime_command, runtime_command_for};
use crate::text::{contains_text, occurs_in, same_text, split_on, split_text};

verus! {

/// Which branch a launch request takes.
#[derive(Debug, Clone, Copy, PartialEq, Eq)]
pub enum LaunchKind {
    /// The game itself: launched after the readiness check, on its own thread.
    Game,
    /// The mod loader: its files are linked into the game instead of running it.
    ModLoader,
    /// Another Windows executable: run under the compatibility runtime.
    Runtime,
    /// A file type that cannot be run.
    Unsupported,
}

pub open spec fn is_game_name(name: Seq<char>) -> bool {
    name == "YuanShen.exe"@ || name == "GenshinImpact.exe"@
}

/// The branch for a path with file name `file_name` and extension `extension`,
/// in priority order: game, mod loader (by name, or by a `3dmigoto` marker
/// anywhere in the path), Windows executable, anything else.
pub open spec fn launch_kind(file_name: Option<Seq<char>>, path: Seq<char>, extension: Option<Seq<char>>) -> LaunchKind {
    if file_name matches Some(n) && is_game_name(n) {
        LaunchKind::Game
    } else if file_name == Some("3DMigoto Loader.exe"@) || occurs_in(path, "3dmigoto"@) {
        LaunchKind::ModLoader
    } else if extension == Some("exe"@) {
        LaunchKind::Runtime
    } else {
        LaunchKind::Unsupported
    }
}

/// The branch for a path, given its file name and extension.
pub fn classify_parts(file_name: &Option<String>, path: &str, extension: &Option<String>) -> (r: LaunchKind)
    ensures
        r == launch_kind(file_name.deep_view(), path@, extension.deep_view()),
{
    if let Some(n) = file_name {
        if same_text(n.as_str(), "YuanShen.exe") || same_text(n.as_str(), "GenshinImpact.exe") {
            return LaunchKind::Game;
        }
    }
    let named_loader = match file_name {
        Some(n) => same_text(n.as_str(), "3DMigoto Loader.exe"),
        None => false,
    };
    if named_loader || contains_text(path, "3dmigoto") {
        return LaunchKind::ModLoader;
    }
    match extension {
        Some(e) => if same_text(e.as_str(), "exe") {
            LaunchKind::Runtime
        } else {
            LaunchKind::Unsupported
        },
        None => LaunchKind::Unsupported,
    }
}

/// The branch a launch of `path` takes.
pub fn classify(path: &str) -> (r: LaunchKind)
    ensures
        r == launch_kind(path_file_name(path@), path@, path_extension(path@)),
{
    let name = file_name_of(path);
    let extension = extension_of(path);
    classify_parts(&name, path, &extension)
}

/// The launcher's readiness to start the game.
#[derive(Debug)]
pub enum Readiness {
    Ready,
    /// Game files must move first; `from` is where they are now.
    FolderMigrationRequired { from: String },
    RuntimeNotInstalled,
    PrefixMissing,
    GameNotInstalled,
    /// Any other state that keeps the game from starting.
    Other,
}

/// Why the game cannot start, for each state but `Ready`.
pub open spec fn refusal_reason(r: Readiness) -> Seq<char> {
    match r {
        Readiness::Ready => Seq::empty(),
        Readiness::FolderMigrationRequired { from } => "A folder migration is required ("@ + from@
            + " needs to be moved)"@,
        Readiness::RuntimeNotInstalled => "Wine is not installed"@,
        Readiness::PrefixMissing => "The Wine prefix does not exist"@,
        Readiness::GameNotInstalled => "The game is not installed"@,
        Readiness::Other => "The launcher is not ready to start the game"@,
    }
}

/// Admits a game launch when the launcher is ready, and otherwise says why not.
pub fn check_readiness(readiness: &Readiness) -> (r: Result<(), String>)
    ensures
        readiness is Ready <==> r is Ok,
        r matches Err(m) ==> m@ == refusal_reason(*readiness),
{
    match readiness {
        Readiness::Ready => Ok(()),
        Readiness::FolderMigrationRequired { from } => {
            let mut m = String::from_str("A folder migration is required (");
            m.append(from.as_str());
            m.append(" needs to be moved)");
            Err(m)
        },
        Readiness::RuntimeNotInstalled => Err(String::from_str("Wine is not installed")),
        Readiness::PrefixMissing => Err(String::from_str("The Wine prefix does not exist")),
        Readiness::GameNotInstalled => Err(String::from_str("The game is not installed")),
        Readiness::Other => Err(String::from_str("The launcher is not ready to start the game")),
    }
}

/// The slot that holds the one tracked game thread.
#[derive(Debug)]
pub struct LaunchSlot<H> {
    pub handle: Option<H>,
}

impl<H> LaunchSlot<H> {
    pub fn new() -> (r: LaunchSlot<H>)
        ensures
            r.handle is None,
    {
        LaunchSlot { handle: None }
    }

    /// Tracks `h`, handing back the handle it replaces.
    pub fn set_handle(&mut self, h: H) -> (r: Option<H>)
        ensures
            r == old(self).handle,
            final(self).handle == Some(h),
    {
        let r = self.handle.take();
        self.handle = Some(h);
        r
    }

    /// Hands out the tracked handle and empties the slot.
    pub fn take_handle(&mut self) -> (r: Option<H>)
        ensures
            r == old(self).handle,
            final(self).handle is None,
    {
        self.handle.take()
    }
}

/// Launches the game when the launcher is ready: `spawn` starts the game
/// thread and its handle takes the slot; the handle it replaces is handed back
/// untouched. Otherwise nothing is spawned, the slot stays as it was, and the
/// reason comes back.
pub fn launch_game<H, F: FnOnce() -> H>(slot: &mut LaunchSlot<H>, readiness: &Readiness, spawn: F) -> (r: Result<
    Option<H>,
    String,
>)
    requires
        spawn.requires(()),
    ensures
        readiness is Ready ==> r == Ok::<Option<H>, String>(old(slot).handle),
        readiness is Ready ==> (final(slot).handle matches Some(h) && spawn.ensures((), h)),
        !(readiness is Ready) ==> *final(slot) == *old(slot),
        !(readiness is Ready) ==> (r matches Err(m) && m@ == refusal_reason(*readiness)),
{
    match check_readiness(readiness) {
        Err(m) => Err(m),
        Ok(()) => {
            let h = spawn();
            Ok(slot.set_handle(h))
        },
    }
}

/// Why a launch command could not be built.
#[derive(Debug, Clone, Copy, PartialEq, Eq)]
pub enum LaunchError {
    Runtime(RuntimeError),
    /// The executable's path has no parent directory to run it from.
    NoParentDirectory,
}

/// The words of an optional space-separated argument string.
pub open spec fn arg_words(args: Option<Seq<char>>) -> Seq<Seq<char>> {
    match args {
        Some(a) => split_on(a, ' '),
        None => Seq::empty(),
    }
}

/// The command that runs the Windows executable `path` under the runtime with
/// the given arguments, from the executable's own directory.
pub open spec fn exe_command(config: CompatRuntimeConfig, path: Seq<char>, args: Option<Seq<char>>) -> Result<CommandView, LaunchError> {
    match runtime_command_for(config, path) {
        Err(e) => Err(LaunchError::Runtime(e)),
        Ok(v) => match path_parent(path) {
            None => Err(LaunchError::NoParentDirectory),
            Some(d) => Ok(CommandView { args: v.args + arg_words(args), current_dir: Some(d), ..v }),
        },
    }
}

/// The words of `args`, split at each space, or none.
pub fn split_args(args: &Option<String>) -> (r: Vec<String>)
    ensures
        r.deep_view() == arg_words(args.deep_view()),
{
    match args {
        Some(a) => split_text(a.as_str(), ' '),
        None => {
            let r: Vec<String> = Vec::new();
            assert(r.deep_view() =~= Seq::<Seq<char>>::empty());
            r
        },
    }
}

/// The command that runs the Windows executable `path` under the runtime.
pub fn exe_command_of(config: &CompatRuntimeConfig, path: &str, args: &Option<String>) -> (r: Result<
    CommandSpec,
    LaunchError,
>)
    ensures
        match (r, exe_command(*config, path@, args.deep_view())) {
            (Ok(c), Ok(v)) => c@ == v,
            (Err(e), Err(f)) => e == f,
            _ => false,
        },
{
    let mut cmd = match build_runtime_command(config, path) {
        Err(e) => {
            return Err(LaunchError::Runtime(e));
        },
        Ok(c) => c,
    };
    let dir = match parent_of(path) {
        None => {
            return Err(LaunchError::NoParentDirectory);
        },
        Some(d) => d,
    };
    let words = split_args(args);
    cmd.args(&words);
    cmd.set_current_dir(dir.as_str());
    Ok(cmd)
}

/// The executable's command wrapped in the terminal emulator `terminal`.
pub fn exe_launch_command_in(config: &CompatRuntimeConfig, path: &str, args: &Option<String>, terminal: &str) -> (r:
    Result<CommandSpec, LaunchError>)
    ensures
        match (r, exe_command(*config, path@, args.deep_view())) {
            (Ok(c), Ok(v)) => c@ == in_terminal_spec(v, terminal@, false),
            (Err(e), Err(f)) => e == f,
            _ => false,
        },
{
    match exe_command_of(config, path, args) {
        Ok(c) => Ok(c.in_terminal_of(terminal, false)),
        Err(e) => Err(e),
    }
}

/// The executable's command wrapped in the user's terminal emulator.
pub fn exe_launch_command(config: &CompatRuntimeConfig, path: &str, args: &Option<String>) -> (r: Result<
    CommandSpec,
    LaunchError,
>)
    ensures
        match (r, exe_command(*config, path@, args.deep_view())) {
            (Ok(c), Ok(v)) => c@.args == terminal_args(v, false),
            (Err(e), Err(f)) => e == f,
            _ => false,
        },
{
    let terminal = guess_user_terminal();
    exe_launch_command_in(config, path, args, terminal.as_str())
}

} // verus!
