//! The commands behind the launcher's front-end actions, built as values; the
//! host runs them and reports only success or failure.

use vstd::prelude::*;
use crate::command::{CommandSpec, CommandView, as_root_gui_spec, bare, in_terminal_spec, with_args};
use crate::paths::{containing_dir, file_name_of, join_path, path_file_name, path_join, path_starts_with, popped, starts_with_path};
use crate::runtime::{CompatRuntimeConfig, RuntimeError, build_runtime_command, runtime_command_for};

verus! {

/// The text handed to the system opener: the path, a space, and the
/// arguments (none when absent).
pub open spec fn invocation(path: Seq<char>, args: Option<Seq<char>>) -> Seq<char> {
    path + " "@ + match args {
        Some(a) => a,
        None => Seq::empty(),
    }
}

/// The text handed to the system opener to run `path` with `args`.
pub fn program_invocation(path: &str, args: &Option<String>) -> (r: String)
    ensures
        r@ == invocation(path@, args.deep_view()),
{
    let mut r = String::from_str(path);
    r.append(" ");
    match args {
        Some(a) => r.append(a.as_str()),
        None => {
            proof {
                reveal_strlit(" ");
            }
            assert(r@ =~= invocation(path@, args.deep_view()));
        },
    }
    r
}

/// The command `run_command` runs: `program` under the runtime with `args`,
/// from the program's directory when `relative` holds.
pub open spec fn program_command(
    config: CompatRuntimeConfig,
    program: Seq<char>,
    args: Seq<Seq<char>>,
    relative: bool,
) -> Result<CommandView, RuntimeError> {
    match runtime_command_for(config, program) {
        Err(e) => Err(e),
        Ok(v) => Ok(
            CommandView {
                args: v.args + args,
                current_dir: if relative {
                    Some(popped(program))
                } else {
                    v.current_dir
                },
                ..v
            },
        ),
    }
}

/// The command that runs `program` under the runtime inside the terminal
/// emulator `terminal`; `relative` (false when absent) runs it from the
/// program's directory.
pub fn program_command_in(
    config: &CompatRuntimeConfig,
    program: &str,
    args: &Vec<String>,
    relative: Option<bool>,
    terminal: &str,
) -> (r: Result<CommandSpec, RuntimeError>)
    ensures
        match (r, program_command(*config, program@, args.deep_view(), relative == Some(true))) {
            (Ok(c), Ok(v)) => c@ == in_terminal_spec(v, terminal@, false),
            (Err(e), Err(f)) => e == f,
            _ => false,
        },
{
    let mut cmd = match build_runtime_command(config, program) {
        Err(e) => {
            return Err(e);
        },
        Ok(c) => c,
    };
    let rel = match relative {
        Some(b) => b,
        None => false,
    };
    if rel {
        let dir = containing_dir(program);
        cmd.set_current_dir(dir.as_str());
    }
    cmd.args(args);
    Ok(cmd.in_terminal_of(terminal, false))
}

/// The shell line that runs a jar: with the `java` on the search path when
/// `java_path` is empty, else with `java_path`.
pub open spec fn jar_line(path: Seq<char>, java_path: Seq<char>) -> Seq<char> {
    if java_path.len() == 0 {
        "java -jar \""@ + path + "\""@
    } else {
        "\""@ + java_path + "\" -jar \""@ + path + "\""@
    }
}

/// The shell line that runs the jar at `path`.
pub fn jar_command_line(path: &str, java_path: &str) -> (r: String)
    ensures
        r@ == jar_line(path@, java_path@),
{
    if java_path.unicode_len() == 0 {
        let mut r = String::from_str("java -jar \"");
        r.append(path);
        r.append("\"");
        r
    } else {
        let mut r = String::from_str("\"");
        r.append(java_path);
        r.append("\" -jar \"");
        r.append(path);
        r.append("\"");
        r
    }
}

/// The command that runs the jar in the terminal emulator `terminal`, from
/// `execute_in`.
pub fn jar_command_in(path: &str, execute_in: &str, java_path: &str, terminal: &str) -> (r: CommandSpec)
    ensures
        r@ == (CommandView {
            current_dir: Some(execute_in@),
            ..with_args(terminal@, seq!["-e"@, jar_line(path@, java_path@)])
        }),
{
    let line = jar_command_line(path, java_path);
    let mut cmd = CommandSpec::new(terminal);
    cmd.arg("-e");
    cmd.arg(line.as_str());
    cmd.set_current_dir(execute_in);
    assert(cmd@.args =~= seq!["-e"@, jar_line(path@, java_path@)]);
    cmd
}

/// The Java binary that runs a jar: `java_path`, or `java` when it is empty.
pub open spec fn java_program(java_path: Seq<char>) -> Seq<char> {
    if java_path.len() == 0 {
        "java"@
    } else {
        java_path
    }
}

/// The jar run as root: Java is started through the graphical elevation
/// prompt, inside the terminal emulator `terminal`.
pub open spec fn jar_root_spec(path: Seq<char>, execute_in: Seq<char>, java_path: Seq<char>, terminal: Seq<char>) -> CommandView {
    let java = CommandView {
        current_dir: Some(execute_in),
        ..with_args(java_program(java_path), seq!["-jar"@, path])
    };
    in_terminal_spec(as_root_gui_spec(java), terminal, false)
}

/// The command that runs the jar as root in the terminal emulator `terminal`.
pub fn jar_root_command_in(path: &str, execute_in: &str, java_path: &str, terminal: &str) -> (r: CommandSpec)
    ensures
        r@ == jar_root_spec(path@, execute_in@, java_path@, terminal@),
{
    let mut java = if java_path.unicode_len() == 0 {
        CommandSpec::new("java")
    } else {
        CommandSpec::new(java_path)
    };
    java.arg("-jar");
    java.arg(path);
    java.set_current_dir(execute_in);
    assert(java@.args =~= seq!["-jar"@, path@]);
    java.as_root_gui().in_terminal_of(terminal, false)
}

/// The registry value that holds the cached game login.
pub const LOGIN_CACHE_VALUE: &'static str = "MIHOYOSDK_ADL_PROD_OVERSEA_h1158948810";

/// The registry key of the game `exec_name` under the current user.
pub open spec fn game_registry_key(exec_name: Seq<char>) -> Seq<char> {
    "HKCU\\Software\\miHoYo\\"@ + exec_name
}

/// The command that deletes the cached login of the game `exec_name` from the
/// runtime prefix's registry.
pub open spec fn registry_wipe_spec(config: CompatRuntimeConfig, exec_name: Seq<char>) -> Result<CommandView, RuntimeError> {
    match runtime_command_for(config, "reg"@) {
        Err(e) => Err(e),
        Ok(v) => Ok(
            CommandView {
                args: v.args + seq![
                    "DELETE"@,
                    game_registry_key(exec_name),
                    "/f"@,
                    "/v"@,
                    LOGIN_CACHE_VALUE@,
                ],
                ..v
            },
        ),
    }
}

/// The command that wipes the cached login of the game `exec_name`.
pub fn registry_wipe_command(config: &CompatRuntimeConfig, exec_name: &str) -> (r: Result<CommandSpec, RuntimeError>)
    ensures
        match (r, registry_wipe_spec(*config, exec_name@)) {
            (Ok(c), Ok(v)) => c@ == v,
            (Err(e), Err(f)) => e == f,
            _ => false,
        },
{
    let mut cmd = match build_runtime_command(config, "reg") {
        Err(e) => {
            return Err(e);
        },
        Ok(c) => c,
    };
    let mut key = String::from_str("HKCU\\Software\\miHoYo\\");
    key.append(exec_name);
    let ghost before = cmd@;
    cmd.arg("DELETE");
    cmd.arg(key.as_str());
    cmd.arg("/f");
    cmd.arg("/v");
    cmd.arg(LOGIN_CACHE_VALUE);
    assert(cmd@.args =~= before.args + seq![
        "DELETE"@,
        game_registry_key(exec_name@),
        "/f"@,
        "/v"@,
        LOGIN_CACHE_VALUE@,
    ]);
    Ok(cmd)
}

/// The capability that lets Java bind ports below 1024.
pub const BIND_CAPABILITY: &'static str = "CAP_NET_BIND_SERVICE=+eip";

/// The command that grants (`add`) or removes the bind capability on
/// `java_bin`, through the graphical elevation prompt.
pub open spec fn setcap_spec(java_bin: Seq<char>, add: bool) -> CommandView {
    as_root_gui_spec(
        with_args(
            "setcap"@,
            seq![
                if add {
                    BIND_CAPABILITY@
                } else {
                    "-r"@
                },
                java_bin,
            ],
        ),
    )
}

/// The command that grants or removes the bind capability on `java_bin`.
pub fn setcap_command(java_bin: &str, add: bool) -> (r: CommandSpec)
    ensures
        r@ == setcap_spec(java_bin@, add),
{
    let mut cmd = CommandSpec::new("setcap");
    if add {
        cmd.arg(BIND_CAPABILITY);
    } else {
        cmd.arg("-r");
    }
    cmd.arg(java_bin);
    assert(cmd@.args =~= seq![
        if add {
            BIND_CAPABILITY@
        } else {
            "-r"@
        },
        java_bin@,
    ]);
    cmd.as_root_gui()
}

/// Java is not on the search path.
#[derive(Debug, Clone, Copy, PartialEq, Eq)]
pub struct JavaNotFound;

/// Relies on `which::which`, which searches the directories of `PATH` for an
/// executable `java`; what it finds depends on the machine.
#[verifier::external_body]
fn java_on_path() -> (r: Option<String>) {
    which::which("java").ok().map(|p| p.to_string_lossy().into_owned())
}

/// The Java binary to use: `java_path` when given, else what the search
/// found.
pub fn choose_java(java_path: &str, found: Option<String>) -> (r: Result<String, JavaNotFound>)
    ensures
        java_path@.len() > 0 ==> (r matches Ok(p) && p@ == java_path@),
        java_path@.len() == 0 ==> match found {
            Some(f) => r matches Ok(p) && p@ == f@,
            None => r == Err::<String, JavaNotFound>(JavaNotFound),
        },
{
    if java_path.unicode_len() > 0 {
        return Ok(String::from_str(java_path));
    }
    match found {
        Some(f) => Ok(f),
        None => Err(JavaNotFound),
    }
}

/// The Java binary to use: `java_path` when given, else the `java` on the
/// search path, if there is one.
pub fn java_binary(java_path: &str) -> (r: Result<String, JavaNotFound>)
    ensures
        java_path@.len() > 0 ==> (r matches Ok(p) && p@ == java_path@),
{
    let found = if java_path.unicode_len() == 0 {
        java_on_path()
    } else {
        None
    };
    choose_java(java_path, found)
}

/// Where the launcher's files live given its executable's path: the
/// executable's directory, except that a binary installed under `/usr/bin`
/// keeps them in `/usr/lib/<binary name>`. `None` when the path names no file.
pub open spec fn install_location_spec(exe_path: Seq<char>) -> Option<Seq<char>> {
    match path_file_name(exe_path) {
        None => None,
        Some(bin) => {
            let dir = popped(exe_path);
            if path_starts_with(dir, "/usr/bin"@) {
                Some(path_join("/usr/lib"@, bin))
            } else {
                Some(dir)
            }
        },
    }
}

/// Where the launcher's files live, given its executable's path.
pub fn install_location_for(exe_path: &str) -> (r: Option<String>)
    ensures
        r.deep_view() == install_location_spec(exe_path@),
{
    let bin = match file_name_of(exe_path) {
        None => {
            return None;
        },
        Some(b) => b,
    };
    let dir = containing_dir(exe_path);
    if starts_with_path(dir.as_str(), "/usr/bin") {
        Some(join_path("/usr/lib", bin.as_str()))
    } else {
        Some(dir)
    }
}

/// The loader's settings file, beside the loader executable.
pub open spec fn loader_ini_spec(loader_path: Seq<char>) -> Seq<char> {
    path_join(popped(loader_path), "d3dx.ini"@)
}

/// The path of the loader's settings file for the loader at `loader_path`.
pub fn loader_ini_path(loader_path: &str) -> (r: String)
    ensures
        r@ == loader_ini_spec(loader_path@),
{
    let dir = containing_dir(loader_path);
    join_path(dir.as_str(), "d3dx.ini")
}

} // verus!
