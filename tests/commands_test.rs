use cultivation::command::CommandSpec;
use cultivation::commands::{
    choose_java, install_location_for, jar_command_in, jar_command_line, jar_root_command_in,
    java_binary, loader_ini_path, program_command_in, program_invocation, registry_wipe_command,
    setcap_command, JavaNotFound,
};
use cultivation::elevation::{is_root, terminal_or_default, Privilege};
use cultivation::execution::{judge_run, RunReport};
use cultivation::runtime::{
    build_runtime_command, CompatRuntimeConfig, RuntimeBuild, RuntimeError, Translator,
};
use cultivation::text::{contains_text, same_text, shell_quote, split_text};

fn s(x: &str) -> String {
    x.to_string()
}

fn pair(k: &str, v: &str) -> (String, String) {
    (s(k), s(v))
}

fn direct_config() -> CompatRuntimeConfig {
    CompatRuntimeConfig {
        selected: Some(s("wine-9")),
        resolved: Some(RuntimeBuild::Direct(Translator {
            binary: s("/runners/wine-9/bin/wine64"),
            envs: vec![pair("WINEPREFIX", "/pfx"), pair("DXVK_HUD", "0")],
        })),
        overlay: vec![pair("DXVK_HUD", "1")],
    }
}

#[test]
fn shell_quote_escapes_single_quotes() {
    assert_eq!(shell_quote("plain"), "'plain'");
    assert_eq!(shell_quote("it's"), "'it'\\''s'");
    assert_eq!(shell_quote(""), "''");
}

#[test]
fn text_comparison_and_search() {
    assert!(same_text("abc", "abc"));
    assert!(!same_text("abc", "abd"));
    assert!(!same_text("abc", "ab"));
    assert!(contains_text("/opt/3dmigoto/run.exe", "3dmigoto"));
    assert!(!contains_text("/opt/3DMigoto/run.exe", "3dmigoto"));
    assert!(contains_text("abc", ""));
    assert!(!contains_text("ab", "abc"));
}

#[test]
fn split_keeps_empty_pieces() {
    assert_eq!(split_text("-a  -b", ' '), vec![s("-a"), s(""), s("-b")]);
    assert_eq!(split_text("", ' '), vec![s("")]);
    assert_eq!(split_text("one", ' '), vec![s("one")]);
}

#[test]
fn command_line_quotes_every_part() {
    let mut c = CommandSpec::new("ls");
    c.arg("-l");
    c.arg("my dir");
    assert_eq!(c.command_line(), "'ls' '-l' 'my dir'");
    c.set_current_dir("/tmp/x");
    c.envs(&vec![pair("A", "1")]);
    assert_eq!(c.command_line(), "cd '/tmp/x' && env 'A=1' 'ls' '-l' 'my dir'");
    assert_eq!(c.bash_line(), r#"bash -c 'cd '\''/tmp/x'\'' && env '\''A=1'\'' '\''ls'\'' '\''-l'\'' '\''my dir'\'''"#);
}

#[test]
fn elevation_wrappers() {
    let mut c = CommandSpec::new("id");
    c.arg("-u");
    let root = c.as_root();
    assert_eq!(root.program, "sudo");
    assert_eq!(root.args, vec![s("--"), s("bash"), s("-c"), s("'id' '-u'")]);
    let gui = c.as_root_gui();
    assert_eq!(gui.program, "pkexec");
    assert_eq!(gui.args, vec![s("bash"), s("-c"), s("'id' '-u'")]);
}

#[test]
fn terminal_wrappers() {
    let c = CommandSpec::new("true");
    let t = c.in_terminal_of("kitty", false);
    assert_eq!(t.program, "kitty");
    assert_eq!(t.args, vec![s("-e"), s(r#"bash -c ''\''true'\'''"#)]);
    let kept = c.in_terminal_of("konsole", true);
    assert_eq!(kept.args[0], "--noclose");
    assert_eq!(kept.args.len(), 3);
    let guessed = c.in_terminal();
    assert_eq!(guessed.args, t.args);
    assert_eq!(c.in_terminal_noclose().args, kept.args);
}

#[test]
fn terminal_fallback() {
    assert_eq!(terminal_or_default(None), "xterm");
    assert_eq!(terminal_or_default(Some(s("alacritty"))), "alacritty");
}

#[test]
fn root_privilege() {
    assert!(is_root(Privilege::Root));
    assert!(!is_root(Privilege::User));
    assert!(!is_root(Privilege::Suid));
}

#[test]
fn runtime_command_overlay_comes_last() {
    let cmd = build_runtime_command(&direct_config(), "C:\\tool.exe").unwrap();
    assert_eq!(cmd.program, "/runners/wine-9/bin/wine64");
    assert_eq!(cmd.args, vec![s("C:\\tool.exe")]);
    assert_eq!(
        cmd.envs,
        vec![pair("WINEPREFIX", "/pfx"), pair("DXVK_HUD", "0"), pair("DXVK_HUD", "1")]
    );
    assert_eq!(cmd.current_dir, None);
}

#[test]
fn layered_runtime_runs_its_base() {
    let config = CompatRuntimeConfig {
        selected: Some(s("proton-9")),
        resolved: Some(RuntimeBuild::Layered {
            base: Translator { binary: s("/proton/files/bin/wine64"), envs: vec![] },
        }),
        overlay: vec![],
    };
    let cmd = build_runtime_command(&config, "game.exe").unwrap();
    assert_eq!(cmd.program, "/proton/files/bin/wine64");
}

#[test]
fn runtime_errors() {
    let none = CompatRuntimeConfig { selected: None, resolved: None, overlay: vec![] };
    assert_eq!(build_runtime_command(&none, "a.exe").unwrap_err(), RuntimeError::NotConfigured);
    let unresolved =
        CompatRuntimeConfig { selected: Some(s("gone")), resolved: None, overlay: vec![] };
    assert_eq!(
        build_runtime_command(&unresolved, "a.exe").unwrap_err(),
        RuntimeError::ResolutionFailed
    );
}

#[test]
fn program_invocation_text() {
    assert_eq!(program_invocation("C:\\a.exe", &None), "C:\\a.exe ");
    assert_eq!(program_invocation("C:\\a.exe", &Some(s("-x 1"))), "C:\\a.exe -x 1");
}

#[test]
fn run_command_relative_sets_directory() {
    let cmd =
        program_command_in(&direct_config(), "/tools/inj/inject.exe", &vec![s("-v")], Some(true), "xterm")
            .unwrap();
    assert_eq!(cmd.program, "xterm");
    assert_eq!(cmd.args[0], "-e");
    assert!(cmd.args[1].contains("cd "));
    assert!(cmd.args[1].contains("/tools/inj"));
    let plain =
        program_command_in(&direct_config(), "/tools/inj/inject.exe", &vec![], None, "xterm").unwrap();
    assert!(!plain.args[1].contains("cd "));
    let none = CompatRuntimeConfig { selected: None, resolved: None, overlay: vec![] };
    assert_eq!(
        program_command_in(&none, "x.exe", &vec![], None, "xterm").unwrap_err(),
        RuntimeError::NotConfigured
    );
}

#[test]
fn jar_lines() {
    assert_eq!(jar_command_line("/srv/gc.jar", ""), "java -jar \"/srv/gc.jar\"");
    assert_eq!(
        jar_command_line("/srv/gc.jar", "/jdk/bin/java"),
        "\"/jdk/bin/java\" -jar \"/srv/gc.jar\""
    );
    let cmd = jar_command_in("/srv/gc.jar", "/srv", "", "xterm");
    assert_eq!(cmd.program, "xterm");
    assert_eq!(cmd.args, vec![s("-e"), s("java -jar \"/srv/gc.jar\"")]);
    assert_eq!(cmd.current_dir, Some(s("/srv")));
}

#[test]
fn jar_as_root() {
    let cmd = jar_root_command_in("/srv/gc.jar", "/srv", "", "xterm");
    assert_eq!(cmd.program, "xterm");
    assert_eq!(cmd.args[0], "-e");
    assert_eq!(
        cmd.args[1],
        r#"bash -c ''\''pkexec'\'' '\''bash'\'' '\''-c'\'' '\''cd '\''\'\'''\''/srv'\''\'\'''\'' && '\''\'\'''\''java'\''\'\'''\'' '\''\'\'''\''-jar'\''\'\'''\'' '\''\'\'''\''/srv/gc.jar'\''\'\'''\'''\'''"#
    );
}

#[test]
fn registry_wipe() {
    let cmd = registry_wipe_command(&direct_config(), "GenshinImpact").unwrap();
    assert_eq!(
        cmd.args,
        vec![
            s("reg"),
            s("DELETE"),
            s("HKCU\\Software\\miHoYo\\GenshinImpact"),
            s("/f"),
            s("/v"),
            s("MIHOYOSDK_ADL_PROD_OVERSEA_h1158948810"),
        ]
    );
}

#[test]
fn setcap_commands() {
    let add = setcap_command("/jdk/bin/java", true);
    assert_eq!(add.program, "pkexec");
    assert_eq!(add.args[2], "'setcap' 'CAP_NET_BIND_SERVICE=+eip' '/jdk/bin/java'");
    let remove = setcap_command("/jdk/bin/java", false);
    assert_eq!(remove.args[2], "'setcap' '-r' '/jdk/bin/java'");
}

#[test]
fn java_choice() {
    assert_eq!(choose_java("/jdk/bin/java", None).unwrap(), "/jdk/bin/java");
    assert_eq!(choose_java("", Some(s("/usr/bin/java"))).unwrap(), "/usr/bin/java");
    assert_eq!(choose_java("", None).unwrap_err(), JavaNotFound);
    assert_eq!(java_binary("/jdk/bin/java").unwrap(), "/jdk/bin/java");
}

#[test]
fn install_locations() {
    assert_eq!(install_location_for("/usr/bin/cultivation"), Some(s("/usr/lib/cultivation")));
    assert_eq!(install_location_for("/opt/cult/cultivation"), Some(s("/opt/cult")));
    assert_eq!(install_location_for("/usr/binaries/cultivation"), Some(s("/usr/binaries")));
    assert_eq!(install_location_for("/"), None);
}

#[test]
fn loader_ini_beside_loader() {
    assert_eq!(loader_ini_path("/mods/3DMigoto Loader.exe"), "/mods/d3dx.ini");
}

#[test]
fn run_judgement() {
    assert!(judge_run("x", RunReport::Exited { success: true, status: s("exit status: 0") }).is_ok());
    let failed =
        judge_run("Failed to run", RunReport::Exited { success: false, status: s("exit status: 2") })
            .unwrap_err();
    assert_eq!(failed.message(), "Failed to run: exit status: 2");
    let spawn = judge_run("Failed to run", RunReport::SpawnFailed { error: s("not found") }).unwrap_err();
    assert_eq!(spawn.context, "Failed to run");
    assert_eq!(spawn.underlying, "not found");
}
