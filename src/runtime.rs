//! The compatibility-runtime adapter: turns the selected runtime build and the
//! environment overlay into a command that runs a Windows executable.

use vstd::prelude::*;
use crate::command::{CommandSpec, CommandView};

verus! {

/// A runtime binary ready to run, with the environment it needs (prefix,
/// loader, architecture), as the runtime's own configuration resolves it.
#[derive(Debug)]
pub struct Translator {
    pub binary: String,
    pub envs: Vec<(String, String)>,
}

/// The two kinds of runtime build: one whose binary translates directly, and a
/// layered one that wraps a base translator, which is what gets run.
#[derive(Debug)]
pub enum RuntimeBuild {
    Direct(Translator),
    Layered { base: Translator },
}

/// The runtime configuration as read from the launcher's settings.
#[derive(Debug)]
pub struct CompatRuntimeConfig {
    /// The identifier of the selected build, if any is selected.
    pub selected: Option<String>,
    /// The selected build, when it could be materialized.
    pub resolved: Option<RuntimeBuild>,
    /// Environment overrides that win over the runtime's own and inherited ones.
    pub overlay: Vec<(String, String)>,
}

#[derive(Debug, Clone, Copy, PartialEq, Eq)]
pub enum RuntimeError {
    /// No runtime build is selected.
    NotConfigured,
    /// A build is selected but cannot be turned into a binary.
    ResolutionFailed,
}

/// The translator that a build runs.
pub open spec fn runner(b: RuntimeBuild) -> Translator {
    match b {
        RuntimeBuild::Direct(t) => t,
        RuntimeBuild::Layered { base } => base,
    }
}

/// The command that runs `target` on translator `t` with `overlay` applied
/// after the translator's own environment.
pub open spec fn runtime_command(
    binary: Seq<char>,
    runtime_envs: Seq<(Seq<char>, Seq<char>)>,
    overlay: Seq<(Seq<char>, Seq<char>)>,
    target: Seq<char>,
) -> CommandView {
    CommandView {
        program: binary,
        args: seq![target],
        current_dir: None,
        envs: runtime_envs + overlay,
    }
}

/// What `build_runtime_command` gives for a configuration and a target.
pub open spec fn runtime_command_for(c: CompatRuntimeConfig, target: Seq<char>) -> Result<CommandView, RuntimeError> {
    if c.selected is None {
        Err(RuntimeError::NotConfigured)
    } else {
        match c.resolved {
            None => Err(RuntimeError::ResolutionFailed),
            Some(b) => Ok(
                runtime_command(
                    runner(b).binary@,
                    runner(b).envs.deep_view(),
                    c.overlay.deep_view(),
                    target,
                ),
            ),
        }
    }
}

/// The value that an environment list leaves for `key`: that of its last
/// entry for `key`, as successive overrides of a process environment do.
pub open spec fn env_value(envs: Seq<(Seq<char>, Seq<char>)>, key: Seq<char>) -> Option<Seq<char>>
    decreases envs.len(),
{
    if envs.len() == 0 {
        None
    } else if envs.last().0 == key {
        Some(envs.last().1)
    } else {
        env_value(envs.drop_last(), key)
    }
}

/// An overlay applied after a base environment wins on every key it sets; the
/// base decides the keys the overlay leaves alone.
pub proof fn lemma_overlay_wins(
    base: Seq<(Seq<char>, Seq<char>)>,
    overlay: Seq<(Seq<char>, Seq<char>)>,
    key: Seq<char>,
)
    ensures
        env_value(base + overlay, key) == match env_value(overlay, key) {
            Some(v) => Some(v),
            None => env_value(base, key),
        },
    decreases overlay.len(),
{
    if overlay.len() == 0 {
        assert(base + overlay =~= base);
    } else {
        assert((base + overlay).drop_last() =~= base + overlay.drop_last());
        assert((base + overlay).last() == overlay.last());
        lemma_overlay_wins(base, overlay.drop_last(), key);
    }
}

/// Builds the command that runs `target` under the configured runtime. It
/// runs nothing itself.
pub fn build_runtime_command(config: &CompatRuntimeConfig, target: &str) -> (r: Result<
    CommandSpec,
    RuntimeError,
>)
    ensures
        match (r, runtime_command_for(*config, target@)) {
            (Ok(c), Ok(v)) => c@ == v,
            (Err(e), Err(f)) => e == f,
            _ => false,
        },
{
    if config.selected.is_none() {
        return Err(RuntimeError::NotConfigured);
    }
    let t = match &config.resolved {
        None => {
            return Err(RuntimeError::ResolutionFailed);
        },
        Some(RuntimeBuild::Direct(t)) => t,
        Some(RuntimeBuild::Layered { base }) => base,
    };
    let mut cmd = CommandSpec::new(t.binary.as_str());
    cmd.arg(target);
    cmd.envs(&t.envs);
    cmd.envs(&config.overlay);
    assert(cmd@.args =~= seq![target@]);
    assert(cmd@.envs =~= t.envs.deep_view() + config.overlay.deep_view());
    Ok(cmd)
}

} // verus!
