use prisma_desktop::backend::install::{DownloadOutcome, UninstallOutcome, UpdateOutcome};
use prisma_desktop::backend::launch::{StartOutcome, StopOutcome};
use prisma_desktop::backend::reply::{
    download_reply, installed_reply, start_reply, status_reply, stop_reply, uninstall_reply,
    update_check_reply, update_reply, Reply, ReplyValue,
};
use prisma_desktop::backend::torrserver::{
    InstalledOutcome, ServerStatus, StatusOutcome, StatusReport, UpdateCheck,
};
use prisma_desktop::json::JsonValue;

fn field<'a>(reply: &'a Reply, key: &str) -> &'a ReplyValue {
    &reply.fields.iter().find(|(k, _)| k == key).expect("field present").1
}

fn text(reply: &Reply, key: &str) -> String {
    match field(reply, key) {
        ReplyValue::Text(t) => t.clone(),
        other => panic!("{key} is not text: {other:?}"),
    }
}

fn flag(reply: &Reply, key: &str) -> bool {
    match field(reply, key) {
        ReplyValue::Bool(b) => *b,
        other => panic!("{key} is not a flag: {other:?}"),
    }
}

fn number(reply: &Reply, key: &str) -> u64 {
    match field(reply, key) {
        ReplyValue::Number(n) => *n,
        other => panic!("{key} is not a number: {other:?}"),
    }
}

#[test]
fn start_answers() {
    let r = start_reply(StartOutcome::AlreadyRunning);
    assert!(!flag(&r, "success"));
    assert_eq!(text(&r, "message"), "TorrServer уже запущен");

    let r = start_reply(StartOutcome::RunningExternally { port: 8090 });
    assert!(flag(&r, "success"));
    assert!(flag(&r, "runningExternal"));
    assert_eq!(number(&r, "port"), 8090);
    assert_eq!(text(&r, "message"), "TorrServer уже запущен (внешний процесс)");

    let r = start_reply(StartOutcome::SpawnFailed("denied".to_string()));
    assert_eq!(text(&r, "message"), "Не удалось запустить TorrServer: denied");

    let r = start_reply(StartOutcome::ExitedEarly("exit status: 1".to_string()));
    assert_eq!(text(&r, "message"), "Процесс завершился сразу после запуска: exit status: 1");

    let r = start_reply(StartOutcome::WaitFailed("io".to_string()));
    assert_eq!(text(&r, "message"), "Ошибка проверки процесса: io");

    let r = start_reply(StartOutcome::Started { pid: 42, port: 8090 });
    assert!(flag(&r, "success"));
    assert_eq!(number(&r, "pid"), 42);
    assert_eq!(number(&r, "port"), 8090);
    assert_eq!(text(&r, "message"), "TorrServer запущен");
    assert_eq!(r.fields.len(), 4);
}

#[test]
fn download_answers() {
    let r = download_reply(DownloadOutcome::MissingAsset {
        exe_name: "TorrServer-linux-arm64".to_string(),
        available: "a, b".to_string(),
    });
    assert!(!flag(&r, "success"));
    assert_eq!(
        text(&r, "message"),
        "Не найден файл TorrServer-linux-arm64 в релизе. Доступные файлы: a, b"
    );

    let r = download_reply(DownloadOutcome::Downloaded {
        path: "/p".to_string(),
        version: "1".to_string(),
    });
    assert!(flag(&r, "success"));
    assert_eq!(text(&r, "path"), "/p");
    assert_eq!(text(&r, "version"), "1");

    let r = start_reply(StartOutcome::DownloadFailed(DownloadOutcome::Failed("offline".to_string())));
    assert_eq!(text(&r, "message"), "offline");
}

#[test]
fn stop_answers() {
    assert_eq!(text(&stop_reply(StopOutcome::NotRunning), "message"), "TorrServer не запущен");
    assert_eq!(
        text(&stop_reply(StopOutcome::KillFailed), "message"),
        "Не удалось остановить TorrServer"
    );
    let r = stop_reply(StopOutcome::Stopped);
    assert!(flag(&r, "success"));
    assert_eq!(text(&r, "message"), "TorrServer остановлен");
    assert_eq!(
        text(&stop_reply(StopOutcome::StoppedAfterTimeout), "message"),
        "TorrServer остановлен (timeout wait)"
    );
    assert_eq!(
        text(&stop_reply(StopOutcome::WaitFailed("io".to_string())), "message"),
        "Ошибка остановки процесса: io"
    );
}

#[test]
fn uninstall_answers() {
    let r = uninstall_reply(UninstallOutcome::Removed {
        deleted_items: vec!["/a".to_string()],
        keep_data: true,
        store_changed: false,
    });
    assert_eq!(text(&r, "message"), "TorrServer удален (данные сохранены)");
    assert!(flag(&r, "keepData"));
    assert!(matches!(field(&r, "deletedItems"), ReplyValue::TextList(l) if l == &vec!["/a".to_string()]));
    let r = uninstall_reply(UninstallOutcome::Removed {
        deleted_items: Vec::new(),
        keep_data: false,
        store_changed: true,
    });
    assert_eq!(text(&r, "message"), "TorrServer полностью удален");
    assert_eq!(
        text(&uninstall_reply(UninstallOutcome::BinaryRemovalFailed("busy".to_string())), "message"),
        "Ошибка удаления бинарника: busy"
    );
    assert_eq!(
        text(&uninstall_reply(UninstallOutcome::DataRemovalFailed("busy".to_string())), "message"),
        "Ошибка удаления папки данных: busy"
    );
}

#[test]
fn report_answers() {
    let r = installed_reply(InstalledOutcome::Report {
        installed: false,
        executable_exists: true,
        version: None,
        path: "/p".to_string(),
        data_dir: "/d".to_string(),
    });
    assert!(!flag(&r, "installed"));
    assert!(flag(&r, "executableExists"));
    assert!(matches!(field(&r, "version"), ReplyValue::Null));

    let r = status_reply(StatusOutcome::Report(StatusReport {
        status: ServerStatus::Running,
        running: true,
        running_external: false,
        pid: Some(7),
        version: JsonValue::Str("1".to_string()),
        path: JsonValue::Null,
        port: 8090,
        data_dir: "/d".to_string(),
        executable_dir: "/e".to_string(),
        installed: true,
    }));
    assert_eq!(text(&r, "status"), "running");
    assert_eq!(text(&r, "host"), "localhost");
    assert_eq!(number(&r, "pid"), 7);
    assert!(matches!(field(&r, "version"), ReplyValue::Json(JsonValue::Str(v)) if v == "1"));
    assert_eq!(r.fields.len(), 11);

    let r = update_check_reply(UpdateCheck::Failed("offline".to_string()));
    assert!(!flag(&r, "hasUpdate"));
    assert_eq!(text(&r, "message"), "offline");

    let r = update_reply(UpdateOutcome::AlreadyLatest { current: Some("1".to_string()) });
    assert!(!flag(&r, "success"));
    assert_eq!(text(&r, "message"), "Уже установлена последняя версия");
    assert_eq!(text(&r, "current"), "1");
}
