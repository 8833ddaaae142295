use prisma_desktop::backend::install::{
    DownloadOutcome, Release, ReleaseAsset, Removal, UninstallCleanup, UninstallOutcome,
    UpdateOutcome,
};
use prisma_desktop::backend::launch::{Executable, StartNext, StartOutcome, StopOutcome};
use prisma_desktop::backend::store::AppStore;
use prisma_desktop::backend::torrserver::{
    platform_exe_name, read_ts_port, ChildPoll, InstalledOutcome, PlatformInfo, ServerStatus,
    StatusOutcome, TorrServerManager, UpdateCheck,
};
use prisma_desktop::json::{JsonMap, JsonNumber, JsonValue};

fn info() -> PlatformInfo {
    PlatformInfo {
        exe_name: "TorrServer-linux-amd64".to_string(),
        save_dir: "/data/torrserver".to_string(),
        save_path: "/data/torrserver/TorrServer-linux-amd64".to_string(),
        data_dir: "/data/torrserver/data".to_string(),
    }
}

fn store_with_port(v: JsonValue) -> AppStore {
    let mut file = JsonMap::new();
    file.insert("tsPort".to_string(), v);
    AppStore::load(Some(file))
}

#[test]
fn exe_names_per_platform() {
    assert_eq!(platform_exe_name("linux", "x86_64"), Ok("TorrServer-linux-amd64".to_string()));
    assert_eq!(platform_exe_name("linux", "aarch64"), Ok("TorrServer-linux-arm64".to_string()));
    assert_eq!(platform_exe_name("linux", "riscv64"), Ok("TorrServer-linux-riscv64".to_string()));
    assert_eq!(platform_exe_name("windows", "x86_64"), Ok("TorrServer-windows-amd64.exe".to_string()));
    assert_eq!(platform_exe_name("windows", "x86"), Ok("TorrServer-windows-x86.exe".to_string()));
    assert_eq!(platform_exe_name("macos", "aarch64"), Ok("TorrServer-darwin-arm64".to_string()));
    assert_eq!(platform_exe_name("macos", "x86_64"), Ok("TorrServer-darwin-amd64".to_string()));
    assert_eq!(
        platform_exe_name("freebsd", "x86_64"),
        Err("Неподдерживаемая ОС: freebsd".to_string())
    );
}

#[test]
fn port_is_read_from_settings() {
    assert_eq!(read_ts_port(&AppStore::load(None)), 8090);
    assert_eq!(read_ts_port(&store_with_port(JsonValue::Number(JsonNumber::Unsigned(9000)))), 9000);
    assert_eq!(read_ts_port(&store_with_port(JsonValue::Number(JsonNumber::Unsigned(65536 + 80)))), 80);
    assert_eq!(read_ts_port(&store_with_port(JsonValue::Str("8091".to_string()))), 8091);
    assert_eq!(read_ts_port(&store_with_port(JsonValue::Str("+8092".to_string()))), 8092);
    assert_eq!(read_ts_port(&store_with_port(JsonValue::Str(" 8093".to_string()))), 8090);
    assert_eq!(read_ts_port(&store_with_port(JsonValue::Str("70000".to_string()))), 8090);
    assert_eq!(read_ts_port(&store_with_port(JsonValue::Number(JsonNumber::Signed(-1)))), 8090);
    assert_eq!(read_ts_port(&store_with_port(JsonValue::Null)), 8090);
}

#[test]
fn status_names() {
    assert_eq!(ServerStatus::Stopped.name(), "stopped");
    assert_eq!(ServerStatus::Starting.name(), "starting");
    assert_eq!(ServerStatus::Running.name(), "running");
    assert_eq!(ServerStatus::Error.name(), "error");
}

fn started_manager(store: &AppStore) -> TorrServerManager {
    let mut mgr = TorrServerManager::new();
    let probe = mgr.start(store, vec!["--x".to_string()]).ok().unwrap();
    let platform = probe.port_probed(&mut mgr, false).ok().unwrap();
    let dirs = platform.platform_resolved(Ok(info())).ok().unwrap();
    let saved = dirs.directories_ensured(store, Ok(())).ok().unwrap();
    let check = saved.saved_checked(false);
    let spawn = match check.executable_checked(true) {
        StartNext::Spawn(s) => s,
        StartNext::Download(_) => panic!("executable exists"),
    };
    assert_eq!(
        spawn.command_args(),
        &vec!["--port", "8090", "--path", "/data/torrserver/data", "--x"]
    );
    assert!(matches!(spawn.program(), Executable::Installed));
    let settle = spawn.spawned(&mut mgr, Ok(42)).ok().unwrap();
    assert_eq!(mgr.current_status(), ServerStatus::Starting);
    let outcome = settle.settled(&mut mgr, ChildPoll::Running);
    assert!(matches!(outcome, StartOutcome::Started { pid: 42, port: 8090 }));
    mgr
}

#[test]
fn start_tracks_the_new_process() {
    let store = AppStore::load(None);
    let mgr = started_manager(&store);
    assert_eq!(mgr.tracked_pid(), Some(42));
    assert_eq!(mgr.current_status(), ServerStatus::Running);
    assert!(matches!(
        mgr.start(&store, Vec::new()),
        Err(StartOutcome::AlreadyRunning)
    ));
}

#[test]
fn start_defers_to_a_server_on_the_port() {
    let store = AppStore::load(None);
    let mut mgr = TorrServerManager::new();
    let probe = mgr.start(&store, Vec::new()).ok().unwrap();
    assert_eq!(probe.probe_port(), 8090);
    assert!(matches!(
        probe.port_probed(&mut mgr, true),
        Err(StartOutcome::RunningExternally { port: 8090 })
    ));
    assert_eq!(mgr.current_status(), ServerStatus::Running);
    assert_eq!(mgr.tracked_pid(), None);
}

#[test]
fn start_uses_saved_path_and_downloads_when_missing() {
    let mut file = JsonMap::new();
    file.insert("tsPath".to_string(), JsonValue::Str("/opt/ts".to_string()));
    let store = AppStore::load(Some(file));
    let mut mgr = TorrServerManager::new();
    let probe = mgr.start(&store, Vec::new()).ok().unwrap();
    let platform = probe.port_probed(&mut mgr, false).ok().unwrap();
    let dirs = platform.platform_resolved(Ok(info())).ok().unwrap();
    let saved = dirs.directories_ensured(&store, Ok(())).ok().unwrap();
    assert_eq!(saved.saved_path(), &Some("/opt/ts".to_string()));
    let check = saved.saved_checked(true);
    assert!(matches!(check.chosen(), Executable::Saved(p) if p == "/opt/ts"));
    let download = match check.executable_checked(false) {
        StartNext::Download(d) => d,
        StartNext::Spawn(_) => panic!("executable missing"),
    };
    let failed = download.downloaded(DownloadOutcome::Failed("offline".to_string()));
    assert!(matches!(
        failed,
        Err(StartOutcome::DownloadFailed(DownloadOutcome::Failed(ref m))) if m == "offline"
    ));
}

#[test]
fn start_failures_mark_an_error() {
    let store = AppStore::load(None);
    let mut mgr = TorrServerManager::new();
    let probe = mgr.start(&store, Vec::new()).ok().unwrap();
    let platform = probe.port_probed(&mut mgr, false).ok().unwrap();
    assert!(matches!(
        platform.platform_resolved(Err("no dir".to_string())),
        Err(StartOutcome::Failed(ref m)) if m == "no dir"
    ));

    let probe = mgr.start(&store, Vec::new()).ok().unwrap();
    let platform = probe.port_probed(&mut mgr, false).ok().unwrap();
    let dirs = platform.platform_resolved(Ok(info())).ok().unwrap();
    let saved = dirs.directories_ensured(&store, Ok(())).ok().unwrap();
    let spawn = match saved.saved_checked(false).executable_checked(true) {
        StartNext::Spawn(s) => s,
        StartNext::Download(_) => panic!("executable exists"),
    };
    assert!(matches!(
        spawn.spawned(&mut mgr, Err("denied".to_string())),
        Err(StartOutcome::SpawnFailed(ref m)) if m == "denied"
    ));
    assert_eq!(mgr.current_status(), ServerStatus::Error);
    assert_eq!(mgr.tracked_pid(), None);
}

#[test]
fn start_process_exiting_at_once_is_an_error() {
    let store = AppStore::load(None);
    let mut mgr = TorrServerManager::new();
    let probe = mgr.start(&store, Vec::new()).ok().unwrap();
    let platform = probe.port_probed(&mut mgr, false).ok().unwrap();
    let dirs = platform.platform_resolved(Ok(info())).ok().unwrap();
    let saved = dirs.directories_ensured(&store, Ok(())).ok().unwrap();
    let spawn = match saved.saved_checked(false).executable_checked(true) {
        StartNext::Spawn(s) => s,
        StartNext::Download(_) => panic!("executable exists"),
    };
    let settle = spawn.spawned(&mut mgr, Ok(7)).ok().unwrap();
    let outcome = settle.settled(&mut mgr, ChildPoll::Exited("exit status: 1".to_string()));
    assert!(matches!(outcome, StartOutcome::ExitedEarly(ref s) if s == "exit status: 1"));
    assert_eq!(mgr.current_status(), ServerStatus::Error);
    assert_eq!(mgr.tracked_pid(), None);
}

#[test]
fn refresh_follows_the_process() {
    let store = AppStore::load(None);
    let mut mgr = started_manager(&store);
    mgr.refresh_process_status(ChildPoll::Running);
    assert_eq!(mgr.tracked_pid(), Some(42));
    mgr.refresh_process_status(ChildPoll::Exited("exit status: 0".to_string()));
    assert_eq!(mgr.tracked_pid(), None);
    assert_eq!(mgr.current_status(), ServerStatus::Stopped);

    let mut mgr = started_manager(&store);
    mgr.refresh_process_status(ChildPoll::Failed("io".to_string()));
    assert_eq!(mgr.tracked_pid(), None);
    assert_eq!(mgr.current_status(), ServerStatus::Error);

    let mut idle = TorrServerManager::new();
    idle.refresh_process_status(ChildPoll::Exited("x".to_string()));
    assert_eq!(idle.current_status(), ServerStatus::Stopped);
}

#[test]
fn stop_without_process_reports_not_running() {
    let mut mgr = TorrServerManager::new();
    assert!(matches!(mgr.stop(), Err(StopOutcome::NotRunning)));
    assert_eq!(mgr.current_status(), ServerStatus::Stopped);
}

#[test]
fn stop_waits_for_exit() {
    let store = AppStore::load(None);
    let mut mgr = started_manager(&store);
    let kill = mgr.stop().ok().unwrap();
    let wait = kill.killed(true).ok().unwrap();
    let pause = wait.polled(&mut mgr, ChildPoll::Running).ok().unwrap();
    let wait = pause.resumed(&mut mgr).ok().unwrap();
    assert!(matches!(
        wait.polled(&mut mgr, ChildPoll::Exited("signal: 9".to_string())),
        Err(StopOutcome::Stopped)
    ));
    assert_eq!(mgr.tracked_pid(), None);
    assert_eq!(mgr.current_status(), ServerStatus::Stopped);
}

#[test]
fn stop_gives_up_after_fifty_polls() {
    let store = AppStore::load(None);
    let mut mgr = started_manager(&store);
    let kill = mgr.stop().ok().unwrap();
    let mut wait = kill.killed(true).ok().unwrap();
    let mut polls = 0;
    let outcome = loop {
        let pause = wait.polled(&mut mgr, ChildPoll::Running).ok().unwrap();
        polls += 1;
        match pause.resumed(&mut mgr) {
            Ok(w) => wait = w,
            Err(outcome) => break outcome,
        }
    };
    assert_eq!(polls, 50);
    assert!(matches!(outcome, StopOutcome::StoppedAfterTimeout));
    assert_eq!(mgr.tracked_pid(), None);
    assert_eq!(mgr.current_status(), ServerStatus::Stopped);
}

#[test]
fn stop_kill_failure_keeps_the_process() {
    let store = AppStore::load(None);
    let mut mgr = started_manager(&store);
    let kill = mgr.stop().ok().unwrap();
    assert!(matches!(kill.killed(false), Err(StopOutcome::KillFailed)));
    assert_eq!(mgr.tracked_pid(), Some(42));
}

fn release() -> Release {
    Release {
        tag_name: "MatriX.135".to_string(),
        assets: vec![
            ReleaseAsset {
                name: "TorrServer-windows-amd64.exe".to_string(),
                download_url: "https://example/win".to_string(),
            },
            ReleaseAsset {
                name: "TorrServer-linux-amd64".to_string(),
                download_url: "https://example/linux".to_string(),
            },
        ],
    }
}

#[test]
fn download_records_version_and_path() {
    let mut store = AppStore::load(None);
    let mut mgr = TorrServerManager::new();
    let dirs = TorrServerManager::new().download(None).platform_resolved(Ok(info())).ok().unwrap();
    let rel = dirs.directories_ensured(Ok(())).ok().unwrap();
    let transfer = rel.release_fetched(Ok(release())).ok().unwrap();
    assert_eq!(transfer.download_url(), "https://example/linux");
    let outcome = transfer.transferred(&mut mgr, &mut store, Ok(()));
    assert!(outcome.succeeded());
    assert!(matches!(
        outcome,
        DownloadOutcome::Downloaded { ref path, ref version }
            if path == "/data/torrserver/TorrServer-linux-amd64" && version == "MatriX.135"
    ));
    assert_eq!(store.get("tsVersion"), Some(JsonValue::Str("MatriX.135".to_string())));
    assert_eq!(
        store.get("tsPath"),
        Some(JsonValue::Str("/data/torrserver/TorrServer-linux-amd64".to_string()))
    );
    match mgr.is_installed(&store, Ok(info()), true) {
        InstalledOutcome::Report { installed, version, .. } => {
            assert!(installed);
            assert_eq!(version, Some("MatriX.135".to_string()));
        }
        InstalledOutcome::Failed(_) => panic!("platform known"),
    }
}

#[test]
fn download_of_a_requested_version() {
    let mut store = AppStore::load(None);
    let mut mgr = TorrServerManager::new();
    let dirs = TorrServerManager::new().download(Some("1.0".to_string())).platform_resolved(Ok(info())).ok().unwrap();
    let rel = dirs.directories_ensured(Ok(())).ok().unwrap();
    let transfer = rel.release_fetched(Ok(release())).ok().unwrap();
    let outcome = transfer.transferred(&mut mgr, &mut store, Ok(()));
    assert!(matches!(outcome, DownloadOutcome::Downloaded { ref version, .. } if version == "1.0"));
}

#[test]
fn download_without_matching_asset_lists_the_files() {
    let mut platform = info();
    platform.exe_name = "TorrServer-linux-arm64".to_string();
    let dirs = TorrServerManager::new().download(None).platform_resolved(Ok(platform)).ok().unwrap();
    let rel = dirs.directories_ensured(Ok(())).ok().unwrap();
    match rel.release_fetched(Ok(release())) {
        Err(DownloadOutcome::MissingAsset { exe_name, available }) => {
            assert_eq!(exe_name, "TorrServer-linux-arm64");
            assert_eq!(available, "TorrServer-windows-amd64.exe, TorrServer-linux-amd64");
        }
        _ => panic!("no asset for arm64"),
    }
}

#[test]
fn download_failures_change_nothing() {
    let mut store = AppStore::load(None);
    let mut mgr = TorrServerManager::new();
    let dirs = TorrServerManager::new().download(None).platform_resolved(Ok(info())).ok().unwrap();
    assert!(matches!(
        dirs.directories_ensured(Err("read-only".to_string())),
        Err(DownloadOutcome::Failed(ref m)) if m == "read-only"
    ));
    let dirs = TorrServerManager::new().download(None).platform_resolved(Ok(info())).ok().unwrap();
    let rel = dirs.directories_ensured(Ok(())).ok().unwrap();
    let transfer = rel.release_fetched(Ok(release())).ok().unwrap();
    let outcome = transfer.transferred(&mut mgr, &mut store, Err("disk full".to_string()));
    assert!(!outcome.succeeded());
    assert_eq!(store.get("tsVersion"), Some(JsonValue::Null));
}

#[test]
fn update_check_compares_versions() {
    let mut file = JsonMap::new();
    file.insert("tsVersion".to_string(), JsonValue::Str("MatriX.135".to_string()));
    let store = AppStore::load(Some(file));
    let mut mgr = TorrServerManager::new();
    match mgr.check_for_update(&store, Ok("MatriX.135".to_string())) {
        UpdateCheck::Checked { has_update, current, latest } => {
            assert!(!has_update);
            assert_eq!(current, Some("MatriX.135".to_string()));
            assert_eq!(latest, "MatriX.135");
        }
        UpdateCheck::Failed(_) => panic!("tag known"),
    }
    match mgr.check_for_update(&store, Ok("MatriX.136".to_string())) {
        UpdateCheck::Checked { has_update, .. } => assert!(has_update),
        UpdateCheck::Failed(_) => panic!("tag known"),
    }
    let fresh = AppStore::load(None);
    match mgr.check_for_update(&fresh, Ok("MatriX.136".to_string())) {
        UpdateCheck::Checked { has_update, current, .. } => {
            assert!(has_update);
            assert_eq!(current, None);
        }
        UpdateCheck::Failed(_) => panic!("tag known"),
    }
}

#[test]
fn update_only_when_newer_and_restarts_a_running_server() {
    let store = AppStore::load(None);
    let mgr = started_manager(&store);
    let same = UpdateCheck::Checked {
        has_update: false,
        current: Some("1".to_string()),
        latest: "1".to_string(),
    };
    assert!(matches!(
        mgr.update(same),
        Err(UpdateOutcome::AlreadyLatest { current: Some(ref c) }) if c == "1"
    ));
    assert!(matches!(
        mgr.update(UpdateCheck::Failed("offline".to_string())),
        Err(UpdateOutcome::AlreadyLatest { current: None })
    ));
    let newer = UpdateCheck::Checked { has_update: true, current: None, latest: "2".to_string() };
    let update = mgr.update(newer).ok().unwrap();
    assert!(update.stops_first());
    let (outcome, restart) = update.downloaded(DownloadOutcome::Downloaded {
        path: "p".to_string(),
        version: "2".to_string(),
    });
    assert!(restart);
    assert!(matches!(outcome, UpdateOutcome::Download(DownloadOutcome::Downloaded { .. })));
}

#[test]
fn uninstall_removes_files_and_forgets_version() {
    let mut file = JsonMap::new();
    file.insert("tsVersion".to_string(), JsonValue::Str("MatriX.135".to_string()));
    let mut store = AppStore::load(Some(file));
    let mut mgr = TorrServerManager::new();
    let binary = TorrServerManager::new().uninstall(false).platform_resolved(Ok(info())).ok().unwrap();
    let data = match binary.binary_removed(Removal::Removed).ok().unwrap() {
        UninstallCleanup::RemoveData(d) => d,
        UninstallCleanup::KeepData(_) => panic!("data not kept"),
    };
    let dir = data.data_removed(Removal::Removed).ok().unwrap();
    let finish = dir.dir_removed(Removal::Failed("busy".to_string()));
    match finish.finish(&mut mgr, &mut store) {
        UninstallOutcome::Removed { deleted_items, keep_data, store_changed } => {
            assert_eq!(
                deleted_items,
                vec![
                    "/data/torrserver/TorrServer-linux-amd64",
                    "/data/torrserver/data",
                    "/data/torrserver"
                ]
            );
            assert!(!keep_data);
            assert!(store_changed);
        }
        _ => panic!("uninstall finished"),
    }
    assert!(!store.has("tsVersion"));
    assert!(!store.has("tsPath"));
    match mgr.is_installed(&store, Ok(info()), true) {
        InstalledOutcome::Report { installed, .. } => assert!(!installed),
        InstalledOutcome::Failed(_) => panic!("platform known"),
    }
}

#[test]
fn uninstall_keeping_data() {
    let mut store = AppStore::load(None);
    let mut mgr = TorrServerManager::new();
    let binary = TorrServerManager::new().uninstall(true).platform_resolved(Ok(info())).ok().unwrap();
    let finish = match binary.binary_removed(Removal::Absent).ok().unwrap() {
        UninstallCleanup::KeepData(f) => f,
        UninstallCleanup::RemoveData(_) => panic!("data kept"),
    };
    match finish.finish(&mut mgr, &mut store) {
        UninstallOutcome::Removed { deleted_items, keep_data, .. } => {
            assert!(deleted_items.is_empty());
            assert!(keep_data);
        }
        _ => panic!("uninstall finished"),
    }
    let binary = TorrServerManager::new().uninstall(false).platform_resolved(Ok(info())).ok().unwrap();
    assert!(matches!(
        binary.binary_removed(Removal::Failed("denied".to_string())),
        Err(UninstallOutcome::BinaryRemovalFailed(ref m)) if m == "denied"
    ));
}

#[test]
fn status_reports_external_server() {
    let store = AppStore::load(None);
    let mut mgr = TorrServerManager::new();
    match mgr.status(&store, Ok(info()), true, false) {
        StatusOutcome::Report(rep) => {
            assert!(rep.running);
            assert!(rep.running_external);
            assert_eq!(rep.status, ServerStatus::Running);
            assert_eq!(rep.pid, None);
            assert_eq!(rep.port, 8090);
            assert_eq!(rep.version, JsonValue::Null);
            assert_eq!(rep.data_dir, "/data/torrserver/data");
            assert_eq!(rep.executable_dir, "/data/torrserver");
            assert!(!rep.installed);
        }
        StatusOutcome::Failed(_) => panic!("platform known"),
    }
    assert_eq!(mgr.current_status(), ServerStatus::Running);
    assert!(matches!(
        mgr.status(&store, Err("unsupported".to_string()), false, false),
        StatusOutcome::Failed(ref m) if m == "unsupported"
    ));
}

#[test]
fn installed_needs_version_and_executable() {
    let store = AppStore::load(None);
    let mgr = TorrServerManager::new();
    match mgr.is_installed(&store, Ok(info()), true) {
        InstalledOutcome::Report { installed, executable_exists, version, path, data_dir } => {
            assert!(!installed);
            assert!(executable_exists);
            assert_eq!(version, None);
            assert_eq!(path, "/data/torrserver/TorrServer-linux-amd64");
            assert_eq!(data_dir, "/data/torrserver/data");
        }
        InstalledOutcome::Failed(_) => panic!("platform known"),
    }
}
