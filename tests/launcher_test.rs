use cultivation::launch::{
    check_readiness, classify, classify_parts, exe_command_of, exe_launch_command_in, launch_game,
    split_args, LaunchError, LaunchKind, LaunchSlot, Readiness,
};
use cultivation::loader_config::{set_loader_delay, set_loader_target};
use cultivation::modlink::{
    entry_paths, finish_link, link_action, mod_entries, resolve_dirs, start_link, unlink_action,
    EntryFacts, EntryKind, LinkAction, LinkStart, MissingPath, ModLinkState, Presence,
    UnlinkAction,
};
use cultivation::paths::containing_dir;
use cultivation::runtime::{CompatRuntimeConfig, RuntimeBuild, RuntimeError, Translator};
use cultivation::service::{
    to_linux_service_name, CallKind, PlatformReply, ServiceOp, ServicePhase, ServiceSession,
    ServiceStep,
};

fn s(x: &str) -> String {
    x.to_string()
}

fn config() -> CompatRuntimeConfig {
    CompatRuntimeConfig {
        selected: Some(s("wine-9")),
        resolved: Some(RuntimeBuild::Direct(Translator {
            binary: s("/runners/wine/bin/wine64"),
            envs: vec![(s("WINEPREFIX"), s("/pfx"))],
        })),
        overlay: vec![],
    }
}

fn facts(install: Presence, loader_exists: bool) -> EntryFacts {
    EntryFacts { install, loader_exists }
}

#[test]
fn classification_of_known_names() {
    assert_eq!(classify("/games/Genshin Impact/GenshinImpact.exe"), LaunchKind::Game);
    assert_eq!(classify("GenshinImpact.exe"), LaunchKind::Game);
    assert_eq!(classify("YuanShen.exe"), LaunchKind::Game);
    assert_eq!(classify("3DMigoto Loader.exe"), LaunchKind::ModLoader);
    assert_eq!(classify("foo.exe"), LaunchKind::Runtime);
    assert_eq!(classify("/home/me/3dmigoto/start"), LaunchKind::ModLoader);
    assert_eq!(classify("/home/me/notes.txt"), LaunchKind::Unsupported);
    assert_eq!(classify("/home/me/run"), LaunchKind::Unsupported);
}

#[test]
fn classification_from_parts() {
    assert_eq!(classify_parts(&Some(s("YuanShen.exe")), "x", &Some(s("exe"))), LaunchKind::Game);
    assert_eq!(classify_parts(&None, "a/3dmigoto", &None), LaunchKind::ModLoader);
    assert_eq!(classify_parts(&Some(s("a.EXE")), "a.EXE", &Some(s("EXE"))), LaunchKind::Unsupported);
}

#[test]
fn readiness_reasons() {
    assert!(check_readiness(&Readiness::Ready).is_ok());
    assert_eq!(check_readiness(&Readiness::PrefixMissing).unwrap_err(), "The Wine prefix does not exist");
    assert_eq!(check_readiness(&Readiness::RuntimeNotInstalled).unwrap_err(), "Wine is not installed");
    assert_eq!(check_readiness(&Readiness::GameNotInstalled).unwrap_err(), "The game is not installed");
    assert_eq!(
        check_readiness(&Readiness::FolderMigrationRequired { from: s("/old") }).unwrap_err(),
        "A folder migration is required (/old needs to be moved)"
    );
    assert!(check_readiness(&Readiness::Other).is_err());
}

#[test]
fn prefix_missing_spawns_nothing() {
    let mut slot: LaunchSlot<u32> = LaunchSlot::new();
    slot.set_handle(7);
    let mut spawned = false;
    let r = launch_game(&mut slot, &Readiness::PrefixMissing, || {
        spawned = true;
        9
    });
    assert!(r.is_err());
    assert!(!spawned);
    assert_eq!(slot.handle, Some(7));
}

#[test]
fn ready_launch_takes_the_slot() {
    let mut slot: LaunchSlot<u32> = LaunchSlot::new();
    slot.set_handle(7);
    let r = launch_game(&mut slot, &Readiness::Ready, || 9);
    assert_eq!(r.unwrap(), Some(7));
    assert_eq!(slot.handle, Some(9));
    assert_eq!(slot.take_handle(), Some(9));
    assert_eq!(slot.handle, None);
}

#[test]
fn exe_under_runtime() {
    let cmd = exe_command_of(&config(), "/tools/inj/foo.exe", &Some(s("-a -b"))).unwrap();
    assert_eq!(cmd.program, "/runners/wine/bin/wine64");
    assert_eq!(cmd.args, vec![s("/tools/inj/foo.exe"), s("-a"), s("-b")]);
    assert_eq!(cmd.current_dir, Some(s("/tools/inj")));
    let wrapped = exe_launch_command_in(&config(), "/tools/inj/foo.exe", &None, "xterm").unwrap();
    assert_eq!(wrapped.program, "xterm");
    assert_eq!(wrapped.args.len(), 2);
}

#[test]
fn exe_launch_errors() {
    let none = CompatRuntimeConfig { selected: None, resolved: None, overlay: vec![] };
    assert_eq!(
        exe_command_of(&none, "/a/foo.exe", &None).unwrap_err(),
        LaunchError::Runtime(RuntimeError::NotConfigured)
    );
    assert_eq!(exe_command_of(&config(), "", &None).unwrap_err(), LaunchError::NoParentDirectory);
}

#[test]
fn argument_words() {
    assert_eq!(split_args(&None), Vec::<String>::new());
    assert_eq!(split_args(&Some(s("a b"))), vec![s("a"), s("b")]);
}

#[test]
fn service_names() {
    assert_eq!(to_linux_service_name("MongoDB"), Some(s("mongod.service")));
    assert_eq!(to_linux_service_name("mongodb"), None);
    assert_eq!(to_linux_service_name("Grasscutter"), None);
}

fn expect_call(step: ServiceStep, kind: CallKind) {
    match step {
        ServiceStep::Call(c) => {
            assert_eq!(c.kind, kind);
            assert_eq!(c.unit, "mongod.service");
        }
        ServiceStep::Finish(b) => panic!("expected a call, got Finish({})", b),
    }
}

fn expect_finish(step: ServiceStep, value: bool) {
    match step {
        ServiceStep::Finish(b) => assert_eq!(b, value),
        ServiceStep::Call(c) => panic!("expected to finish, got a call {:?}", c.kind),
    }
}

#[test]
fn status_starts_a_stopped_service() {
    let mut session = ServiceSession::new(ServiceOp::Status, "MongoDB");
    expect_call(session.next(None), CallKind::Query);
    expect_call(session.next(Some(PlatformReply::Stopped)), CallKind::Start);
    expect_finish(session.next(Some(PlatformReply::Succeeded)), true);

    let mut failing = ServiceSession::new(ServiceOp::Status, "MongoDB");
    expect_call(failing.next(None), CallKind::Query);
    expect_call(failing.next(Some(PlatformReply::Stopped)), CallKind::Start);
    expect_finish(failing.next(Some(PlatformReply::Rejected)), false);
    assert_eq!(failing.phase, ServicePhase::Done(false));
}

#[test]
fn status_of_running_and_missing_services() {
    let mut running = ServiceSession::new(ServiceOp::Status, "MongoDB");
    expect_call(running.next(None), CallKind::Query);
    expect_finish(running.next(Some(PlatformReply::Running)), true);

    let mut missing = ServiceSession::new(ServiceOp::Status, "MongoDB");
    expect_call(missing.next(None), CallKind::Query);
    expect_finish(missing.next(Some(PlatformReply::NotFound)), false);

    let mut offline = ServiceSession::new(ServiceOp::Status, "MongoDB");
    expect_call(offline.next(None), CallKind::Query);
    expect_finish(offline.next(Some(PlatformReply::ConnectFailed)), false);
}

#[test]
fn unsupported_service_makes_no_call() {
    for op in [ServiceOp::Status, ServiceOp::Start, ServiceOp::Stop] {
        let mut session = ServiceSession::new(op, "Unknown");
        expect_finish(session.next(None), false);
    }
}

#[test]
fn start_and_stop() {
    let mut start = ServiceSession::new(ServiceOp::Start, "MongoDB");
    expect_call(start.next(None), CallKind::Start);
    expect_finish(start.next(Some(PlatformReply::Succeeded)), true);
    let mut stop = ServiceSession::new(ServiceOp::Stop, "MongoDB");
    expect_call(stop.next(None), CallKind::Stop);
    expect_finish(stop.next(Some(PlatformReply::Rejected)), false);
}

#[test]
fn managed_entry_table() {
    let entries = mod_entries();
    assert_eq!(entries.len(), 8);
    assert_eq!(entries[0].name, "Mods");
    assert_eq!(entries[6].name, "d3dx_user.ini");
    assert_eq!(entries[6].kind, EntryKind::UserData);
    assert_eq!(entries[7].kind, EntryKind::Log);
    let paths = entry_paths("/game", "/mods");
    assert_eq!(paths[5].install, "/game/d3dx.ini");
    assert_eq!(paths[5].loader, "/mods/d3dx.ini");
    assert_eq!(paths[5].backup, "/mods/d3dx.ini.bak");
}

#[test]
fn link_start_checks_flag_then_paths() {
    let mut state = ModLinkState::new();
    let game = Some(s("/game/GenshinImpact.exe"));
    let loader = Some(s("/mods/3DMigoto Loader.exe"));
    match start_link(&state, &game, &loader) {
        LinkStart::Proceed(d) => {
            assert_eq!(d.install_dir, "/game");
            assert_eq!(d.loader_dir, "/mods");
        }
        other => panic!("unexpected {:?}", other),
    }
    assert!(matches!(start_link(&state, &None, &loader), LinkStart::Missing(MissingPath::Install)));
    assert!(matches!(start_link(&state, &game, &None), LinkStart::Missing(MissingPath::Loader)));
    assert_eq!(state.flag, None);
    finish_link(&mut state);
    assert!(state.is_linked());
    assert!(matches!(start_link(&state, &game, &loader), LinkStart::AlreadyLinked));
    assert!(matches!(start_link(&state, &None, &None), LinkStart::AlreadyLinked));
}

#[test]
fn link_twice_is_a_no_op() {
    let mut state = ModLinkState::new();
    let game = Some(s("/game/GenshinImpact.exe"));
    let loader = Some(s("/mods/3DMigoto Loader.exe"));
    assert!(matches!(start_link(&state, &game, &loader), LinkStart::Proceed(_)));
    finish_link(&mut state);
    assert!(matches!(start_link(&state, &game, &loader), LinkStart::AlreadyLinked));
    assert_eq!(state.flag, Some(true));
}

#[test]
fn poisoned_state_reads_as_unlinked() {
    let stale = ModLinkState { flag: Some(true) };
    let state = ModLinkState::recover_poisoned(stale);
    assert_eq!(state.flag, None);
    assert!(!state.is_linked());
    let game = Some(s("/game/GenshinImpact.exe"));
    let loader = Some(s("/mods/3DMigoto Loader.exe"));
    assert!(matches!(start_link(&state, &game, &loader), LinkStart::Proceed(_)));
}

#[test]
fn session_end_unlinks_only_when_linked() {
    let mut state = ModLinkState::new();
    assert!(!state.end_session());
    state.set_linked(true);
    assert!(state.end_session());
    assert_eq!(state.flag, None);
    state.set_linked(false);
    assert_eq!(state.take(), Some(false));
    assert!(!state.end_session());
}

#[test]
fn directories_of_configured_paths() {
    let d = resolve_dirs(&Some(s("/a/b/game.exe")), &Some(s("loader.exe"))).unwrap();
    assert_eq!(d.install_dir, "/a/b");
    assert_eq!(d.loader_dir, "");
    assert_eq!(containing_dir("/"), "/");
}

#[test]
fn link_actions() {
    assert_eq!(link_action(EntryKind::Managed, facts(Presence::Absent, true)), LinkAction::CreateLink);
    assert_eq!(link_action(EntryKind::Managed, facts(Presence::Real, true)), LinkAction::SkipExisting);
    assert_eq!(link_action(EntryKind::Managed, facts(Presence::Symlink, true)), LinkAction::SkipExisting);
    assert_eq!(link_action(EntryKind::UserData, facts(Presence::Absent, false)), LinkAction::SkipNoSource);
    assert_eq!(link_action(EntryKind::UserData, facts(Presence::Absent, true)), LinkAction::CreateLink);
    assert_eq!(link_action(EntryKind::Log, facts(Presence::Absent, true)), LinkAction::Ignore);
}

#[test]
fn unlink_actions() {
    assert_eq!(unlink_action(EntryKind::Managed, facts(Presence::Symlink, true)), UnlinkAction::RemoveLink);
    assert_eq!(unlink_action(EntryKind::Managed, facts(Presence::Real, false)), UnlinkAction::MoveBack);
    assert_eq!(
        unlink_action(EntryKind::Managed, facts(Presence::Real, true)),
        UnlinkAction::BackUpThenMoveBack
    );
    assert_eq!(unlink_action(EntryKind::Managed, facts(Presence::Absent, true)), UnlinkAction::Leave);
    assert_eq!(unlink_action(EntryKind::UserData, facts(Presence::Symlink, true)), UnlinkAction::RemoveLink);
    assert_eq!(unlink_action(EntryKind::Log, facts(Presence::Real, true)), UnlinkAction::MoveBack);
    assert_eq!(unlink_action(EntryKind::Log, facts(Presence::Absent, true)), UnlinkAction::Leave);
}

#[test]
fn link_then_unlink_round_trip_actions() {
    for kind in [EntryKind::Managed, EntryKind::UserData, EntryKind::Log] {
        for loader_exists in [true, false] {
            let before = facts(Presence::Absent, loader_exists);
            let linked = match link_action(kind, before) {
                LinkAction::CreateLink => facts(Presence::Symlink, loader_exists),
                _ => before,
            };
            let back = match unlink_action(kind, linked) {
                UnlinkAction::RemoveLink => facts(Presence::Absent, loader_exists),
                UnlinkAction::Leave => linked,
                other => panic!("unexpected {:?}", other),
            };
            assert_eq!(back, before);
        }
    }
}

#[test]
fn loader_settings() {
    let mut conf = ini::Ini::new();
    conf.with_section(Some("Loader")).set("target", "other.exe").set("keep", "1");
    set_loader_target(&mut conf);
    set_loader_delay(&mut conf);
    assert_eq!(conf.get_from(Some("Loader"), "target"), Some("GenshinImpact.exe"));
    assert_eq!(conf.get_from(Some("Loader"), "delay"), Some("20"));
    assert_eq!(conf.get_from(Some("Loader"), "keep"), Some("1"));
}
