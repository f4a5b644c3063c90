//! Host facts that decide how a command is wrapped: the user's terminal
//! emulator and whether this process already runs as root.

use vstd::prelude::*;
use crate::command::{CommandSpec, CommandView, in_terminal_spec, terminal_args};

verus! {

/// The terminal emulator used when none can be detected.
pub const FALLBACK_TERMINAL: &'static str = "xterm";

/// Relies on `term_detect::get_terminal`, which inspects the environment and
/// the desktop's settings; nothing is promised of what it finds.
#[verifier::external_body]
fn detected_terminal() -> (r: Option<String>) {
    term_detect::get_terminal().ok().map(|t| t.0)
}

/// The terminal to use given what detection found: the detected one, or the
/// fallback when detection failed.
pub fn terminal_or_default(detected: Option<String>) -> (r: String)
    ensures
        r@ == match detected {
            Some(t) => t@,
            None => FALLBACK_TERMINAL@,
        },
{
    match detected {
        Some(t) => t,
        None => String::from_str(FALLBACK_TERMINAL),
    }
}

/// The user's terminal emulator, or the fallback when none is found.
pub fn guess_user_terminal() -> (r: String) {
    terminal_or_default(detected_terminal())
}

impl CommandSpec {
    /// This command run inside the user's terminal emulator; the window closes
    /// when the command exits.
    pub fn in_terminal(&self) -> (r: CommandSpec)
        ensures
            r@.args == terminal_args(self@, false),
            r@.current_dir is None,
            r@.envs.len() == 0,
    {
        let terminal = guess_user_terminal();
        self.in_terminal_of(terminal.as_str(), false)
    }

    /// This command run inside the user's terminal emulator, whose window stays
    /// open after the command exits.
    pub fn in_terminal_noclose(&self) -> (r: CommandSpec)
        ensures
            r@.args == terminal_args(self@, true),
            r@.current_dir is None,
            r@.envs.len() == 0,
    {
        let terminal = guess_user_terminal();
        self.in_terminal_of(terminal.as_str(), true)
    }
}

/// Who this process runs as.
#[derive(Debug, Clone, Copy, PartialEq, Eq)]
pub enum Privilege {
    Root,
    User,
    /// Started set-uid root: root rights can be claimed but are not held.
    Suid,
}

/// Relies on `sudo::check`, which compares the real and effective user ids;
/// each of its variants is carried over as it is.
#[verifier::external_body]
fn current_privilege() -> (r: Privilege) {
    match sudo::check() {
        sudo::RunningAs::Root => Privilege::Root,
        sudo::RunningAs::User => Privilege::User,
        sudo::RunningAs::Suid => Privilege::Suid,
    }
}

/// Whether `p` means full root rights.
pub fn is_root(p: Privilege) -> (r: bool)
    ensures
        r == (p is Root),
{
    match p {
        Privilege::Root => true,
        _ => false,
    }
}

/// Whether this process runs as root.
pub fn is_elevated() -> (r: bool) {
    is_root(current_privilege())
}

} // verus!
