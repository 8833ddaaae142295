//! The answers handed to the front end for each TorrServer command: named
//! fields with their values, built from how the command ended.
use vstd::prelude::*;
use vstd::string::StringExecFns;
use crate::backend::install::{DownloadOutcome, UninstallOutcome, UpdateOutcome};
use crate::backend::launch::{StartOutcome, StopOutcome};
use crate::backend::torrserver::{
    opt_view, status_name, InstalledOutcome, StatusOutcome, UpdateCheck,
};
use crate::json::{JsonValue, JsonView};
use crate::services::store::string_views;

verus! {

/// The value of one field of an answer.
#[derive(Debug)]
pub enum ReplyValue {
    Null,
    Bool(bool),
    Number(u64),
    Text(String),
    TextList(Vec<String>),
    Json(JsonValue),
}

/// The model of a [`ReplyValue`].
pub enum ReplyView {
    Null,
    Bool(bool),
    Number(u64),
    Text(Seq<char>),
    TextList(Seq<Seq<char>>),
    Json(JsonView),
}

impl View for ReplyValue {
    type V = ReplyView;

    open spec fn view(&self) -> ReplyView {
        match self {
            ReplyValue::Null => ReplyView::Null,
            ReplyValue::Bool(b) => ReplyView::Bool(*b),
            ReplyValue::Number(n) => ReplyView::Number(*n),
            ReplyValue::Text(t) => ReplyView::Text(t@),
            ReplyValue::TextList(l) => ReplyView::TextList(string_views(l@)),
            ReplyValue::Json(v) => ReplyView::Json(v@),
        }
    }
}

/// An answer: its fields, each named once.
#[derive(Debug)]
pub struct Reply {
    pub fields: Vec<(String, ReplyValue)>,
}

/// The model of an answer: field names with the models of their values.
pub open spec fn reply_view(r: Reply) -> Seq<(Seq<char>, ReplyView)> {
    r.fields@.map_values(|f: (String, ReplyValue)| (f.0@, f.1@))
}

pub open spec fn text_or_null(t: Option<Seq<char>>) -> ReplyView {
    match t {
        Some(s) => ReplyView::Text(s),
        None => ReplyView::Null,
    }
}

fn text_or_null_value(t: Option<String>) -> (r: ReplyValue)
    ensures
        r@ == text_or_null(opt_view(t)),
{
    match t {
        Some(s) => ReplyValue::Text(s),
        None => ReplyValue::Null,
    }
}

/// `{"success": false, "message": message}`.
pub open spec fn failure_spec(message: Seq<char>) -> Seq<(Seq<char>, ReplyView)> {
    seq![("success"@, ReplyView::Bool(false)), ("message"@, ReplyView::Text(message))]
}

fn failure(message: String) -> (r: Reply)
    ensures
        reply_view(r) == failure_spec(message@),
{
    let mut fields: Vec<(String, ReplyValue)> = Vec::new();
    fields.push(("success".to_owned(), ReplyValue::Bool(false)));
    fields.push(("message".to_owned(), ReplyValue::Text(message)));
    let r = Reply { fields };
    assert(reply_view(r) =~= failure_spec(message@));
    r
}

/// The answer to a download.
pub open spec fn download_reply_spec(o: DownloadOutcome) -> Seq<(Seq<char>, ReplyView)> {
    match o {
        DownloadOutcome::Failed(m) => failure_spec(m@),
        DownloadOutcome::MissingAsset { exe_name, available } => failure_spec(
            "Не найден файл "@ + exe_name@ + " в релизе. Доступные файлы: "@ + available@,
        ),
        DownloadOutcome::Downloaded { path, version } => seq![
            ("success"@, ReplyView::Bool(true)),
            ("path"@, ReplyView::Text(path@)),
            ("version"@, ReplyView::Text(version@)),
        ],
    }
}

/// The answer to a download.
pub fn download_reply(o: DownloadOutcome) -> (r: Reply)
    ensures
        reply_view(r) == download_reply_spec(o),
{
    match o {
        DownloadOutcome::Failed(m) => failure(m),
        DownloadOutcome::MissingAsset { exe_name, available } => failure(
            "Не найден файл ".to_owned().concat(exe_name.as_str()).concat(
                " в релизе. Доступные файлы: ",
            ).concat(available.as_str()),
        ),
        DownloadOutcome::Downloaded { path, version } => {
            let ghost (pv, vv) = (path@, version@);
            let mut fields: Vec<(String, ReplyValue)> = Vec::new();
            fields.push(("success".to_owned(), ReplyValue::Bool(true)));
            fields.push(("path".to_owned(), ReplyValue::Text(path)));
            fields.push(("version".to_owned(), ReplyValue::Text(version)));
            let r = Reply { fields };
            assert(reply_view(r) =~= seq![
                ("success"@, ReplyView::Bool(true)),
                ("path"@, ReplyView::Text(pv)),
                ("version"@, ReplyView::Text(vv)),
            ]);
            r
        },
    }
}

/// The answer to a start.
pub open spec fn start_reply_spec(o: StartOutcome) -> Seq<(Seq<char>, ReplyView)> {
    match o {
        StartOutcome::AlreadyRunning => failure_spec("TorrServer уже запущен"@),
        StartOutcome::RunningExternally { port } => seq![
            ("success"@, ReplyView::Bool(true)),
            ("message"@, ReplyView::Text("TorrServer уже запущен (внешний процесс)"@)),
            ("runningExternal"@, ReplyView::Bool(true)),
            ("port"@, ReplyView::Number(port as u64)),
        ],
        StartOutcome::Failed(m) => failure_spec(m@),
        StartOutcome::DownloadFailed(d) => download_reply_spec(d),
        StartOutcome::SpawnFailed(e) => failure_spec("Не удалось запустить TorrServer: "@ + e@),
        StartOutcome::ExitedEarly(s) => failure_spec("Процесс завершился сразу после запуска: "@ + s@),
        StartOutcome::WaitFailed(e) => failure_spec("Ошибка проверки процесса: "@ + e@),
        StartOutcome::Started { pid, port } => seq![
            ("success"@, ReplyView::Bool(true)),
            ("message"@, ReplyView::Text("TorrServer запущен"@)),
            ("pid"@, ReplyView::Number(pid as u64)),
            ("port"@, ReplyView::Number(port as u64)),
        ],
    }
}

/// The answer to a start.
pub fn start_reply(o: StartOutcome) -> (r: Reply)
    ensures
        reply_view(r) == start_reply_spec(o),
{
    match o {
        StartOutcome::AlreadyRunning => failure("TorrServer уже запущен".to_owned()),
        StartOutcome::RunningExternally { port } => {
            let mut fields: Vec<(String, ReplyValue)> = Vec::new();
            fields.push(("success".to_owned(), ReplyValue::Bool(true)));
            fields.push(
                ("message".to_owned(), ReplyValue::Text("TorrServer уже запущен (внешний процесс)".to_owned())),
            );
            fields.push(("runningExternal".to_owned(), ReplyValue::Bool(true)));
            fields.push(("port".to_owned(), ReplyValue::Number(port as u64)));
            let r = Reply { fields };
            assert(reply_view(r) =~= start_reply_spec(StartOutcome::RunningExternally { port }));
            r
        },
        StartOutcome::Failed(m) => failure(m),
        StartOutcome::DownloadFailed(d) => download_reply(d),
        StartOutcome::SpawnFailed(e) => failure("Не удалось запустить TorrServer: ".to_owned().concat(e.as_str())),
        StartOutcome::ExitedEarly(s) => failure(
            "Процесс завершился сразу после запуска: ".to_owned().concat(s.as_str()),
        ),
        StartOutcome::WaitFailed(e) => failure("Ошибка проверки процесса: ".to_owned().concat(e.as_str())),
        StartOutcome::Started { pid, port } => {
            let mut fields: Vec<(String, ReplyValue)> = Vec::new();
            fields.push(("success".to_owned(), ReplyValue::Bool(true)));
            fields.push(("message".to_owned(), ReplyValue::Text("TorrServer запущен".to_owned())));
            fields.push(("pid".to_owned(), ReplyValue::Number(pid as u64)));
            fields.push(("port".to_owned(), ReplyValue::Number(port as u64)));
            let r = Reply { fields };
            assert(reply_view(r) =~= start_reply_spec(StartOutcome::Started { pid, port }));
            r
        },
    }
}

/// The answer to a stop.
pub open spec fn stop_reply_spec(o: StopOutcome) -> Seq<(Seq<char>, ReplyView)> {
    match o {
        StopOutcome::NotRunning => failure_spec("TorrServer не запущен"@),
        StopOutcome::KillFailed => failure_spec("Не удалось остановить TorrServer"@),
        StopOutcome::Stopped => seq![
            ("success"@, ReplyView::Bool(true)),
            ("message"@, ReplyView::Text("TorrServer остановлен"@)),
        ],
        StopOutcome::WaitFailed(e) => failure_spec("Ошибка остановки процесса: "@ + e@),
        StopOutcome::StoppedAfterTimeout => seq![
            ("success"@, ReplyView::Bool(true)),
            ("message"@, ReplyView::Text("TorrServer остановлен (timeout wait)"@)),
        ],
    }
}

fn success_message(message: String) -> (r: Reply)
    ensures
        reply_view(r) == seq![("success"@, ReplyView::Bool(true)), ("message"@, ReplyView::Text(message@))],
{
    let mut fields: Vec<(String, ReplyValue)> = Vec::new();
    fields.push(("success".to_owned(), ReplyValue::Bool(true)));
    fields.push(("message".to_owned(), ReplyValue::Text(message)));
    let r = Reply { fields };
    assert(reply_view(r) =~= seq![("success"@, ReplyView::Bool(true)), ("message"@, ReplyView::Text(message@))]);
    r
}

/// The answer to a stop.
pub fn stop_reply(o: StopOutcome) -> (r: Reply)
    ensures
        reply_view(r) == stop_reply_spec(o),
{
    match o {
        StopOutcome::NotRunning => failure("TorrServer не запущен".to_owned()),
        StopOutcome::KillFailed => failure("Не удалось остановить TorrServer".to_owned()),
        StopOutcome::Stopped => success_message("TorrServer остановлен".to_owned()),
        StopOutcome::WaitFailed(e) => failure("Ошибка остановки процесса: ".to_owned().concat(e.as_str())),
        StopOutcome::StoppedAfterTimeout => success_message("TorrServer остановлен (timeout wait)".to_owned()),
    }
}

/// The answer to an uninstall.
pub open spec fn uninstall_reply_spec(o: UninstallOutcome) -> Seq<(Seq<char>, ReplyView)> {
    match o {
        UninstallOutcome::Failed(m) => failure_spec(m@),
        UninstallOutcome::BinaryRemovalFailed(e) => failure_spec("Ошибка удаления бинарника: "@ + e@),
        UninstallOutcome::DataRemovalFailed(e) => failure_spec("Ошибка удаления папки данных: "@ + e@),
        UninstallOutcome::Removed { deleted_items, keep_data, store_changed: _ } => seq![
            ("success"@, ReplyView::Bool(true)),
            ("message"@, ReplyView::Text(if keep_data {
                "TorrServer удален (данные сохранены)"@
            } else {
                "TorrServer полностью удален"@
            })),
            ("deletedItems"@, ReplyView::TextList(string_views(deleted_items@))),
            ("keepData"@, ReplyView::Bool(keep_data)),
        ],
    }
}

/// The answer to an uninstall.
pub fn uninstall_reply(o: UninstallOutcome) -> (r: Reply)
    ensures
        reply_view(r) == uninstall_reply_spec(o),
{
    match o {
        UninstallOutcome::Failed(m) => failure(m),
        UninstallOutcome::BinaryRemovalFailed(e) => failure(
            "Ошибка удаления бинарника: ".to_owned().concat(e.as_str()),
        ),
        UninstallOutcome::DataRemovalFailed(e) => failure(
            "Ошибка удаления папки данных: ".to_owned().concat(e.as_str()),
        ),
        UninstallOutcome::Removed { deleted_items, keep_data, store_changed } => {
            let ghost items = string_views(deleted_items@);
            let message = if keep_data {
                "TorrServer удален (данные сохранены)".to_owned()
            } else {
                "TorrServer полностью удален".to_owned()
            };
            let mut fields: Vec<(String, ReplyValue)> = Vec::new();
            fields.push(("success".to_owned(), ReplyValue::Bool(true)));
            fields.push(("message".to_owned(), ReplyValue::Text(message)));
            fields.push(("deletedItems".to_owned(), ReplyValue::TextList(deleted_items)));
            fields.push(("keepData".to_owned(), ReplyValue::Bool(keep_data)));
            let r = Reply { fields };
            assert(reply_view(r) =~= seq![
                ("success"@, ReplyView::Bool(true)),
                ("message"@, ReplyView::Text(if keep_data {
                    "TorrServer удален (данные сохранены)"@
                } else {
                    "TorrServer полностью удален"@
                })),
                ("deletedItems"@, ReplyView::TextList(items)),
                ("keepData"@, ReplyView::Bool(keep_data)),
            ]);
            r
        },
    }
}

/// The answer to the question whether TorrServer is installed.
pub open spec fn installed_reply_spec(o: InstalledOutcome) -> Seq<(Seq<char>, ReplyView)> {
    match o {
        InstalledOutcome::Failed(m) => failure_spec(m@),
        InstalledOutcome::Report { installed, executable_exists, version, path, data_dir } => seq![
            ("installed"@, ReplyView::Bool(installed)),
            ("executableExists"@, ReplyView::Bool(executable_exists)),
            ("version"@, text_or_null(opt_view(version))),
            ("path"@, ReplyView::Text(path@)),
            ("dataDir"@, ReplyView::Text(data_dir@)),
        ],
    }
}

/// The answer to the question whether TorrServer is installed.
pub fn installed_reply(o: InstalledOutcome) -> (r: Reply)
    ensures
        reply_view(r) == installed_reply_spec(o),
{
    match o {
        InstalledOutcome::Failed(m) => failure(m),
        InstalledOutcome::Report { installed, executable_exists, version, path, data_dir } => {
            let ghost (vv, pv, dv) = (opt_view(version), path@, data_dir@);
            let mut fields: Vec<(String, ReplyValue)> = Vec::new();
            fields.push(("installed".to_owned(), ReplyValue::Bool(installed)));
            fields.push(("executableExists".to_owned(), ReplyValue::Bool(executable_exists)));
            fields.push(("version".to_owned(), text_or_null_value(version)));
            fields.push(("path".to_owned(), ReplyValue::Text(path)));
            fields.push(("dataDir".to_owned(), ReplyValue::Text(data_dir)));
            let r = Reply { fields };
            assert(reply_view(r) =~= seq![
                ("installed"@, ReplyView::Bool(installed)),
                ("executableExists"@, ReplyView::Bool(executable_exists)),
                ("version"@, text_or_null(vv)),
                ("path"@, ReplyView::Text(pv)),
                ("dataDir"@, ReplyView::Text(dv)),
            ]);
            r
        },
    }
}

/// The status answer.
pub open spec fn status_reply_spec(o: StatusOutcome) -> Seq<(Seq<char>, ReplyView)> {
    match o {
        StatusOutcome::Failed(m) => failure_spec(m@),
        StatusOutcome::Report(rep) => seq![
            ("status"@, ReplyView::Text(status_name(rep.status))),
            ("running"@, ReplyView::Bool(rep.running)),
            ("runningExternal"@, ReplyView::Bool(rep.running_external)),
            ("pid"@, match rep.pid {
                Some(p) => ReplyView::Number(p as u64),
                None => ReplyView::Null,
            }),
            ("version"@, ReplyView::Json(rep.version@)),
            ("path"@, ReplyView::Json(rep.path@)),
            ("host"@, ReplyView::Text("localhost"@)),
            ("port"@, ReplyView::Number(rep.port as u64)),
            ("dataDir"@, ReplyView::Text(rep.data_dir@)),
            ("executableDir"@, ReplyView::Text(rep.executable_dir@)),
            ("installed"@, ReplyView::Bool(rep.installed)),
        ],
    }
}

/// The status answer.
pub fn status_reply(o: StatusOutcome) -> (r: Reply)
    ensures
        reply_view(r) == status_reply_spec(o),
{
    match o {
        StatusOutcome::Failed(m) => failure(m),
        StatusOutcome::Report(rep) => {
            let ghost model = status_reply_spec(StatusOutcome::Report(rep));
            let pid = match rep.pid {
                Some(p) => ReplyValue::Number(p as u64),
                None => ReplyValue::Null,
            };
            let mut fields: Vec<(String, ReplyValue)> = Vec::new();
            fields.push(("status".to_owned(), ReplyValue::Text(rep.status.name().to_owned())));
            fields.push(("running".to_owned(), ReplyValue::Bool(rep.running)));
            fields.push(("runningExternal".to_owned(), ReplyValue::Bool(rep.running_external)));
            fields.push(("pid".to_owned(), pid));
            fields.push(("version".to_owned(), ReplyValue::Json(rep.version)));
            fields.push(("path".to_owned(), ReplyValue::Json(rep.path)));
            fields.push(("host".to_owned(), ReplyValue::Text("localhost".to_owned())));
            fields.push(("port".to_owned(), ReplyValue::Number(rep.port as u64)));
            fields.push(("dataDir".to_owned(), ReplyValue::Text(rep.data_dir)));
            fields.push(("executableDir".to_owned(), ReplyValue::Text(rep.executable_dir)));
            fields.push(("installed".to_owned(), ReplyValue::Bool(rep.installed)));
            let r = Reply { fields };
            assert(reply_view(r) =~= model);
            r
        },
    }
}

/// The answer to an update check.
pub open spec fn update_check_reply_spec(o: UpdateCheck) -> Seq<(Seq<char>, ReplyView)> {
    match o {
        UpdateCheck::Checked { has_update, current, latest } => seq![
            ("hasUpdate"@, ReplyView::Bool(has_update)),
            ("current"@, text_or_null(opt_view(current))),
            ("latest"@, ReplyView::Text(latest@)),
        ],
        UpdateCheck::Failed(m) => seq![
            ("hasUpdate"@, ReplyView::Bool(false)),
            ("message"@, ReplyView::Text(m@)),
        ],
    }
}

/// The answer to an update check.
pub fn update_check_reply(o: UpdateCheck) -> (r: Reply)
    ensures
        reply_view(r) == update_check_reply_spec(o),
{
    let ghost model = update_check_reply_spec(o);
    let mut fields: Vec<(String, ReplyValue)> = Vec::new();
    match o {
        UpdateCheck::Checked { has_update, current, latest } => {
            fields.push(("hasUpdate".to_owned(), ReplyValue::Bool(has_update)));
            fields.push(("current".to_owned(), text_or_null_value(current)));
            fields.push(("latest".to_owned(), ReplyValue::Text(latest)));
        },
        UpdateCheck::Failed(m) => {
            fields.push(("hasUpdate".to_owned(), ReplyValue::Bool(false)));
            fields.push(("message".to_owned(), ReplyValue::Text(m)));
        },
    }
    let r = Reply { fields };
    assert(reply_view(r) =~= model);
    r
}

/// The answer to an update.
pub open spec fn update_reply_spec(o: UpdateOutcome) -> Seq<(Seq<char>, ReplyView)> {
    match o {
        UpdateOutcome::AlreadyLatest { current } => seq![
            ("success"@, ReplyView::Bool(false)),
            ("message"@, ReplyView::Text("Уже установлена последняя версия"@)),
            ("current"@, text_or_null(opt_view(current))),
        ],
        UpdateOutcome::Download(d) => download_reply_spec(d),
    }
}

/// The answer to an update.
pub fn update_reply(o: UpdateOutcome) -> (r: Reply)
    ensures
        reply_view(r) == update_reply_spec(o),
{
    match o {
        UpdateOutcome::AlreadyLatest { current } => {
            let ghost cv = opt_view(current);
            let mut fields: Vec<(String, ReplyValue)> = Vec::new();
            fields.push(("success".to_owned(), ReplyValue::Bool(false)));
            fields.push(("message".to_owned(), ReplyValue::Text("Уже установлена последняя версия".to_owned())));
            fields.push(("current".to_owned(), text_or_null_value(current)));
            let r = Reply { fields };
            assert(reply_view(r) =~= seq![
                ("success"@, ReplyView::Bool(false)),
                ("message"@, ReplyView::Text("Уже установлена последняя версия"@)),
                ("current"@, text_or_null(cv)),
            ]);
            r
        },
        UpdateOutcome::Download(d) => download_reply(d),
    }
}

} // verus!

verus! {

/// The value of the first field named `key` at or after position `i`.
pub open spec fn reply_field_from(fields: Seq<(Seq<char>, ReplyView)>, key: Seq<char>, i: int) -> Option<ReplyView>
    decreases fields.len() - i,
{
    if i < 0 || i >= fields.len() {
        None
    } else if fields[i].0 == key {
        Some(fields[i].1)
    } else {
        reply_field_from(fields, key, i + 1)
    }
}

/// The value of the first field named `key`, if any.
pub open spec fn reply_field(fields: Seq<(Seq<char>, ReplyView)>, key: Seq<char>) -> Option<ReplyView> {
    reply_field_from(fields, key, 0)
}

/// The update-check answer says there is an update exactly when the check
/// found one; for a check made against the installed version, that is when
/// no version is installed or it differs from the latest tag. It names the
/// installed version (or `null`) and the latest tag.
pub proof fn law_update_check_answer(check: UpdateCheck, installed: Option<Seq<char>>)
    ensures
        match check {
            UpdateCheck::Checked { has_update, current, latest } => {
                &&& reply_field(update_check_reply_spec(check), "hasUpdate"@) == Some(ReplyView::Bool(has_update))
                &&& (opt_view(current) == installed && has_update == crate::backend::torrserver::has_update_spec(
                    installed,
                    latest@,
                ) ==> reply_field(update_check_reply_spec(check), "hasUpdate"@) == Some(
                    ReplyView::Bool(
                        match installed {
                            Some(v) => v != latest@,
                            None => true,
                        },
                    ),
                ))
                &&& (current matches Some(c) ==> reply_field(update_check_reply_spec(check), "current"@) == Some(
                    ReplyView::Text(c@),
                ))
                &&& (current is None ==> reply_field(update_check_reply_spec(check), "current"@) == Some(
                    ReplyView::Null,
                ))
                &&& reply_field(update_check_reply_spec(check), "latest"@) == Some(ReplyView::Text(latest@))
            },
            UpdateCheck::Failed(m) => {
                &&& reply_field(update_check_reply_spec(check), "hasUpdate"@) == Some(ReplyView::Bool(false))
                &&& reply_field(update_check_reply_spec(check), "message"@) == Some(ReplyView::Text(m@))
            },
        },
{
    reveal_strlit("hasUpdate");
    reveal_strlit("current");
    reveal_strlit("latest");
    reveal_strlit("message");
    assert("hasUpdate"@ != "current"@) by { assert("hasUpdate"@.len() != "current"@.len()); }
    assert("hasUpdate"@ != "latest"@) by { assert("hasUpdate"@.len() != "latest"@.len()); }
    assert("hasUpdate"@ != "message"@) by { assert("hasUpdate"@.len() != "message"@.len()); }
    assert("current"@ != "latest"@) by { assert("current"@.len() != "latest"@.len()); }
    assert("current"@ != "message"@) by { assert("current"@[0] != "message"@[0]); }
    assert("latest"@ != "message"@) by { assert("latest"@.len() != "message"@.len()); }
    reveal_with_fuel(reply_field_from, 4);
}

/// An uninstall that removed TorrServer is answered as a success, with the
/// removed paths and whether the data was kept; one that failed is answered
/// as a failure, with a message naming the error.
pub proof fn law_uninstall_answer(o: UninstallOutcome)
    ensures
        match o {
            UninstallOutcome::Removed { deleted_items, keep_data, store_changed } => {
                &&& reply_field(uninstall_reply_spec(o), "success"@) == Some(ReplyView::Bool(true))
                &&& reply_field(uninstall_reply_spec(o), "deletedItems"@) == Some(
                    ReplyView::TextList(string_views(deleted_items@)),
                )
                &&& reply_field(uninstall_reply_spec(o), "keepData"@) == Some(ReplyView::Bool(keep_data))
            },
            UninstallOutcome::Failed(m) => {
                &&& reply_field(uninstall_reply_spec(o), "success"@) == Some(ReplyView::Bool(false))
                &&& reply_field(uninstall_reply_spec(o), "message"@) == Some(ReplyView::Text(m@))
            },
            UninstallOutcome::BinaryRemovalFailed(e) => {
                &&& reply_field(uninstall_reply_spec(o), "success"@) == Some(ReplyView::Bool(false))
                &&& reply_field(uninstall_reply_spec(o), "message"@) matches Some(ReplyView::Text(t))
                    && t.subrange(t.len() - e@.len(), t.len() as int) == e@
            },
            UninstallOutcome::DataRemovalFailed(e) => {
                &&& reply_field(uninstall_reply_spec(o), "success"@) == Some(ReplyView::Bool(false))
                &&& reply_field(uninstall_reply_spec(o), "message"@) matches Some(ReplyView::Text(t))
                    && t.subrange(t.len() - e@.len(), t.len() as int) == e@
            },
        },
{
    reveal_strlit("success");
    reveal_strlit("message");
    reveal_strlit("deletedItems");
    reveal_strlit("keepData");
    assert("success"@ != "message"@) by { assert("success"@[0] != "message"@[0]); }
    assert("success"@ != "deletedItems"@) by { assert("success"@.len() != "deletedItems"@.len()); }
    assert("success"@ != "keepData"@) by { assert("success"@.len() != "keepData"@.len()); }
    assert("message"@ != "deletedItems"@) by { assert("message"@.len() != "deletedItems"@.len()); }
    assert("message"@ != "keepData"@) by { assert("message"@.len() != "keepData"@.len()); }
    assert("deletedItems"@ != "keepData"@) by { assert("deletedItems"@.len() != "keepData"@.len()); }
    reveal_with_fuel(reply_field_from, 5);
    match o {
        UninstallOutcome::BinaryRemovalFailed(e) => {
            let t = "Ошибка удаления бинарника: "@ + e@;
            assert(t.subrange(t.len() - e@.len(), t.len() as int) =~= e@);
        },
        UninstallOutcome::DataRemovalFailed(e) => {
            let t = "Ошибка удаления папки данных: "@ + e@;
            assert(t.subrange(t.len() - e@.len(), t.len() as int) =~= e@);
        },
        _ => {},
    }
}

/// The status answer says the server runs exactly when the manager tracks
/// a process or something answers on the port, that it runs outside the
/// manager exactly when only the port answers, gives the tracked process's
/// id, and never reports a running server as stopped. It passes on the
/// report's version, path, port, directories and installed flag.
pub proof fn law_status_answer(
    rep: crate::backend::torrserver::StatusReport,
    m: crate::backend::torrserver::ManagerView,
    port_open: bool,
)
    requires
        rep.running == crate::backend::torrserver::server_running(m, port_open),
        rep.running_external == crate::backend::torrserver::runs_externally(m, port_open),
        rep.status == crate::backend::torrserver::reported_status(m, port_open),
        rep.pid == m.process,
    ensures
        ({
            let f = status_reply_spec(StatusOutcome::Report(rep));
            &&& m.process is Some ==> reply_field(f, "running"@) == Some(ReplyView::Bool(true))
                && reply_field(f, "runningExternal"@) == Some(ReplyView::Bool(false))
            &&& m.process is None ==> reply_field(f, "running"@) == Some(ReplyView::Bool(port_open))
                && reply_field(f, "runningExternal"@) == Some(ReplyView::Bool(port_open))
            &&& (m.process matches Some(pid) ==> reply_field(f, "pid"@) == Some(ReplyView::Number(pid as u64)))
            &&& (m.process is None ==> reply_field(f, "pid"@) == Some(ReplyView::Null))
            &&& (rep.running ==> reply_field(f, "status"@) != Some(ReplyView::Text("stopped"@)))
            &&& reply_field(f, "status"@) == Some(ReplyView::Text(status_name(rep.status)))
            &&& reply_field(f, "version"@) == Some(ReplyView::Json(rep.version@))
            &&& reply_field(f, "path"@) == Some(ReplyView::Json(rep.path@))
            &&& reply_field(f, "host"@) == Some(ReplyView::Text("localhost"@))
            &&& reply_field(f, "port"@) == Some(ReplyView::Number(rep.port as u64))
            &&& reply_field(f, "dataDir"@) == Some(ReplyView::Text(rep.data_dir@))
            &&& reply_field(f, "executableDir"@) == Some(ReplyView::Text(rep.executable_dir@))
            &&& reply_field(f, "installed"@) == Some(ReplyView::Bool(rep.installed))
        }),
{
    reveal_strlit("status");
    reveal_strlit("running");
    reveal_strlit("runningExternal");
    reveal_strlit("pid");
    reveal_strlit("version");
    reveal_strlit("path");
    reveal_strlit("host");
    reveal_strlit("port");
    reveal_strlit("dataDir");
    reveal_strlit("executableDir");
    reveal_strlit("installed");
    reveal_strlit("stopped");
    reveal_strlit("starting");
    reveal_strlit("error");
    assert("status"@ != "running"@) by { assert("status"@.len() != "running"@.len()); }
    assert("status"@ != "runningExternal"@) by { assert("status"@.len() != "runningExternal"@.len()); }
    assert("status"@ != "pid"@) by { assert("status"@.len() != "pid"@.len()); }
    assert("status"@ != "version"@) by { assert("status"@.len() != "version"@.len()); }
    assert("status"@ != "path"@) by { assert("status"@.len() != "path"@.len()); }
    assert("status"@ != "host"@) by { assert("status"@.len() != "host"@.len()); }
    assert("status"@ != "port"@) by { assert("status"@.len() != "port"@.len()); }
    assert("status"@ != "dataDir"@) by { assert("status"@.len() != "dataDir"@.len()); }
    assert("status"@ != "executableDir"@) by { assert("status"@.len() != "executableDir"@.len()); }
    assert("status"@ != "installed"@) by { assert("status"@.len() != "installed"@.len()); }
    assert("status"@ != "stopped"@) by { assert("status"@.len() != "stopped"@.len()); }
    assert("status"@ != "starting"@) by { assert("status"@.len() != "starting"@.len()); }
    assert("status"@ != "error"@) by { assert("status"@.len() != "error"@.len()); }
    assert("running"@ != "runningExternal"@) by { assert("running"@.len() != "runningExternal"@.len()); }
    assert("running"@ != "pid"@) by { assert("running"@.len() != "pid"@.len()); }
    assert("running"@ != "version"@) by { assert("running"@[0] != "version"@[0]); }
    assert("running"@ != "path"@) by { assert("running"@.len() != "path"@.len()); }
    assert("running"@ != "host"@) by { assert("running"@.len() != "host"@.len()); }
    assert("running"@ != "port"@) by { assert("running"@.len() != "port"@.len()); }
    assert("running"@ != "dataDir"@) by { assert("running"@[0] != "dataDir"@[0]); }
    assert("running"@ != "executableDir"@) by { assert("running"@.len() != "executableDir"@.len()); }
    assert("running"@ != "installed"@) by { assert("running"@.len() != "installed"@.len()); }
    assert("running"@ != "stopped"@) by { assert("running"@[0] != "stopped"@[0]); }
    assert("running"@ != "starting"@) by { assert("running"@.len() != "starting"@.len()); }
    assert("running"@ != "error"@) by { assert("running"@.len() != "error"@.len()); }
    assert("runningExternal"@ != "pid"@) by { assert("runningExternal"@.len() != "pid"@.len()); }
    assert("runningExternal"@ != "version"@) by { assert("runningExternal"@.len() != "version"@.len()); }
    assert("runningExternal"@ != "path"@) by { assert("runningExternal"@.len() != "path"@.len()); }
    assert("runningExternal"@ != "host"@) by { assert("runningExternal"@.len() != "host"@.len()); }
    assert("runningExternal"@ != "port"@) by { assert("runningExternal"@.len() != "port"@.len()); }
    assert("runningExternal"@ != "dataDir"@) by { assert("runningExternal"@.len() != "dataDir"@.len()); }
    assert("runningExternal"@ != "executableDir"@) by { assert("runningExternal"@.len() != "executableDir"@.len()); }
    assert("runningExternal"@ != "installed"@) by { assert("runningExternal"@.len() != "installed"@.len()); }
    assert("runningExternal"@ != "stopped"@) by { assert("runningExternal"@.len() != "stopped"@.len()); }
    assert("runningExternal"@ != "starting"@) by { assert("runningExternal"@.len() != "starting"@.len()); }
    assert("runningExternal"@ != "error"@) by { assert("runningExternal"@.len() != "error"@.len()); }
    assert("pid"@ != "version"@) by { assert("pid"@.len() != "version"@.len()); }
    assert("pid"@ != "path"@) by { assert("pid"@.len() != "path"@.len()); }
    assert("pid"@ != "host"@) by { assert("pid"@.len() != "host"@.len()); }
    assert("pid"@ != "port"@) by { assert("pid"@.len() != "port"@.len()); }
    assert("pid"@ != "dataDir"@) by { assert("pid"@.len() != "dataDir"@.len()); }
    assert("pid"@ != "executableDir"@) by { assert("pid"@.len() != "executableDir"@.len()); }
    assert("pid"@ != "installed"@) by { assert("pid"@.len() != "installed"@.len()); }
    assert("pid"@ != "stopped"@) by { assert("pid"@.len() != "stopped"@.len()); }
    assert("pid"@ != "starting"@) by { assert("pid"@.len() != "starting"@.len()); }
    assert("pid"@ != "error"@) by { assert("pid"@.len() != "error"@.len()); }
    assert("version"@ != "path"@) by { assert("version"@.len() != "path"@.len()); }
    assert("version"@ != "host"@) by { assert("version"@.len() != "host"@.len()); }
    assert("version"@ != "port"@) by { assert("version"@.len() != "port"@.len()); }
    assert("version"@ != "dataDir"@) by { assert("version"@[0] != "dataDir"@[0]); }
    assert("version"@ != "executableDir"@) by { assert("version"@.len() != "executableDir"@.len()); }
    assert("version"@ != "installed"@) by { assert("version"@.len() != "installed"@.len()); }
    assert("version"@ != "stopped"@) by { assert("version"@[0] != "stopped"@[0]); }
    assert("version"@ != "starting"@) by { assert("version"@.len() != "starting"@.len()); }
    assert("version"@ != "error"@) by { assert("version"@.len() != "error"@.len()); }
    assert("path"@ != "host"@) by { assert("path"@[0] != "host"@[0]); }
    assert("path"@ != "port"@) by { assert("path"@[1] != "port"@[1]); }
    assert("path"@ != "dataDir"@) by { assert("path"@.len() != "dataDir"@.len()); }
    assert("path"@ != "executableDir"@) by { assert("path"@.len() != "executableDir"@.len()); }
    assert("path"@ != "installed"@) by { assert("path"@.len() != "installed"@.len()); }
    assert("path"@ != "stopped"@) by { assert("path"@.len() != "stopped"@.len()); }
    assert("path"@ != "starting"@) by { assert("path"@.len() != "starting"@.len()); }
    assert("path"@ != "error"@) by { assert("path"@.len() != "error"@.len()); }
    assert("host"@ != "port"@) by { assert("host"@[0] != "port"@[0]); }
    assert("host"@ != "dataDir"@) by { assert("host"@.len() != "dataDir"@.len()); }
    assert("host"@ != "executableDir"@) by { assert("host"@.len() != "executableDir"@.len()); }
    assert("host"@ != "installed"@) by { assert("host"@.len() != "installed"@.len()); }
    assert("host"@ != "stopped"@) by { assert("host"@.len() != "stopped"@.len()); }
    assert("host"@ != "starting"@) by { assert("host"@.len() != "starting"@.len()); }
    assert("host"@ != "error"@) by { assert("host"@.len() != "error"@.len()); }
    assert("port"@ != "dataDir"@) by { assert("port"@.len() != "dataDir"@.len()); }
    assert("port"@ != "executableDir"@) by { assert("port"@.len() != "executableDir"@.len()); }
    assert("port"@ != "installed"@) by { assert("port"@.len() != "installed"@.len()); }
    assert("port"@ != "stopped"@) by { assert("port"@.len() != "stopped"@.len()); }
    assert("port"@ != "starting"@) by { assert("port"@.len() != "starting"@.len()); }
    assert("port"@ != "error"@) by { assert("port"@.len() != "error"@.len()); }
    assert("dataDir"@ != "executableDir"@) by { assert("dataDir"@.len() != "executableDir"@.len()); }
    assert("dataDir"@ != "installed"@) by { assert("dataDir"@.len() != "installed"@.len()); }
    assert("dataDir"@ != "stopped"@) by { assert("dataDir"@[0] != "stopped"@[0]); }
    assert("dataDir"@ != "starting"@) by { assert("dataDir"@.len() != "starting"@.len()); }
    assert("dataDir"@ != "error"@) by { assert("dataDir"@.len() != "error"@.len()); }
    assert("executableDir"@ != "installed"@) by { assert("executableDir"@.len() != "installed"@.len()); }
    assert("executableDir"@ != "stopped"@) by { assert("executableDir"@.len() != "stopped"@.len()); }
    assert("executableDir"@ != "starting"@) by { assert("executableDir"@.len() != "starting"@.len()); }
    assert("executableDir"@ != "error"@) by { assert("executableDir"@.len() != "error"@.len()); }
    assert("installed"@ != "stopped"@) by { assert("installed"@.len() != "stopped"@.len()); }
    assert("installed"@ != "starting"@) by { assert("installed"@.len() != "starting"@.len()); }
    assert("installed"@ != "error"@) by { assert("installed"@.len() != "error"@.len()); }
    assert("stopped"@ != "starting"@) by { assert("stopped"@.len() != "starting"@.len()); }
    assert("stopped"@ != "error"@) by { assert("stopped"@.len() != "error"@.len()); }
    assert("starting"@ != "error"@) by { assert("starting"@.len() != "error"@.len()); }
    reveal_with_fuel(reply_field_from, 12);
}

/// The installed answer gives the recorded version when the settings hold
/// one as a string, `null` only when they do not, says TorrServer is
/// installed exactly when its executable exists and a version is recorded,
/// and passes on the paths.
pub proof fn law_installed_answer(o: InstalledOutcome, recorded: Option<Seq<char>>)
    ensures
        match o {
            InstalledOutcome::Report { installed, executable_exists, version, path, data_dir } => opt_view(version)
                == recorded && installed == (executable_exists && version is Some) ==> {
                &&& reply_field(installed_reply_spec(o), "installed"@) == Some(
                    ReplyView::Bool(executable_exists && recorded is Some),
                )
                &&& reply_field(installed_reply_spec(o), "executableExists"@) == Some(
                    ReplyView::Bool(executable_exists),
                )
                &&& (recorded matches Some(v) ==> reply_field(installed_reply_spec(o), "version"@) == Some(
                    ReplyView::Text(v),
                ))
                &&& (recorded is None ==> reply_field(installed_reply_spec(o), "version"@) == Some(
                    ReplyView::Null,
                ))
                &&& reply_field(installed_reply_spec(o), "path"@) == Some(ReplyView::Text(path@))
                &&& reply_field(installed_reply_spec(o), "dataDir"@) == Some(ReplyView::Text(data_dir@))
            },
            InstalledOutcome::Failed(m) => {
                &&& reply_field(installed_reply_spec(o), "success"@) == Some(ReplyView::Bool(false))
                &&& reply_field(installed_reply_spec(o), "message"@) == Some(ReplyView::Text(m@))
            },
        },
{
    reveal_strlit("installed");
    reveal_strlit("executableExists");
    reveal_strlit("version");
    reveal_strlit("path");
    reveal_strlit("dataDir");
    reveal_strlit("success");
    reveal_strlit("message");
    assert("installed"@ != "executableExists"@) by { assert("installed"@.len() != "executableExists"@.len()); }
    assert("installed"@ != "version"@) by { assert("installed"@.len() != "version"@.len()); }
    assert("installed"@ != "path"@) by { assert("installed"@.len() != "path"@.len()); }
    assert("installed"@ != "dataDir"@) by { assert("installed"@.len() != "dataDir"@.len()); }
    assert("installed"@ != "success"@) by { assert("installed"@.len() != "success"@.len()); }
    assert("installed"@ != "message"@) by { assert("installed"@.len() != "message"@.len()); }
    assert("executableExists"@ != "version"@) by { assert("executableExists"@.len() != "version"@.len()); }
    assert("executableExists"@ != "path"@) by { assert("executableExists"@.len() != "path"@.len()); }
    assert("executableExists"@ != "dataDir"@) by { assert("executableExists"@.len() != "dataDir"@.len()); }
    assert("executableExists"@ != "success"@) by { assert("executableExists"@.len() != "success"@.len()); }
    assert("executableExists"@ != "message"@) by { assert("executableExists"@.len() != "message"@.len()); }
    assert("version"@ != "path"@) by { assert("version"@.len() != "path"@.len()); }
    assert("version"@ != "dataDir"@) by { assert("version"@[0] != "dataDir"@[0]); }
    assert("version"@ != "success"@) by { assert("version"@[0] != "success"@[0]); }
    assert("version"@ != "message"@) by { assert("version"@[0] != "message"@[0]); }
    assert("path"@ != "dataDir"@) by { assert("path"@.len() != "dataDir"@.len()); }
    assert("path"@ != "success"@) by { assert("path"@.len() != "success"@.len()); }
    assert("path"@ != "message"@) by { assert("path"@.len() != "message"@.len()); }
    assert("dataDir"@ != "success"@) by { assert("dataDir"@[0] != "success"@[0]); }
    assert("dataDir"@ != "message"@) by { assert("dataDir"@[0] != "message"@[0]); }
    assert("success"@ != "message"@) by { assert("success"@[0] != "message"@[0]); }
    reveal_with_fuel(reply_field_from, 6);
}

/// A download is answered as a success exactly when it put the executable
/// in place, naming its path and version; otherwise as a failure whose
/// message names what went wrong.
pub proof fn law_download_answer(o: DownloadOutcome)
    ensures
        reply_field(download_reply_spec(o), "success"@) == Some(ReplyView::Bool(o is Downloaded)),
        match o {
            DownloadOutcome::Downloaded { path, version } => {
                &&& reply_field(download_reply_spec(o), "path"@) == Some(ReplyView::Text(path@))
                &&& reply_field(download_reply_spec(o), "version"@) == Some(ReplyView::Text(version@))
            },
            DownloadOutcome::Failed(m) => reply_field(download_reply_spec(o), "message"@) == Some(
                ReplyView::Text(m@),
            ),
            DownloadOutcome::MissingAsset { exe_name, available } => reply_field(
                download_reply_spec(o),
                "message"@,
            ) matches Some(ReplyView::Text(t)) && t.subrange(t.len() - available@.len(), t.len() as int)
                == available@,
        },
{
    reveal_strlit("success");
    reveal_strlit("message");
    reveal_strlit("path");
    reveal_strlit("version");
    assert("success"@ != "message"@) by { assert("success"@[0] != "message"@[0]); }
    assert("success"@ != "path"@) by { assert("success"@.len() != "path"@.len()); }
    assert("success"@ != "version"@) by { assert("success"@[0] != "version"@[0]); }
    assert("message"@ != "path"@) by { assert("message"@.len() != "path"@.len()); }
    assert("message"@ != "version"@) by { assert("message"@[0] != "version"@[0]); }
    assert("path"@ != "version"@) by { assert("path"@.len() != "version"@.len()); }
    reveal_with_fuel(reply_field_from, 4);
    if let DownloadOutcome::MissingAsset { exe_name, available } = o {
        let t = "Не найден файл "@ + exe_name@ + " в релизе. Доступные файлы: "@ + available@;
        assert(t.subrange(t.len() - available@.len(), t.len() as int) =~= available@);
    }
}

/// A start is answered as a success exactly when TorrServer runs (started
/// by the manager, or already answering on the port), with the process id
/// and the port; otherwise as a failure.
pub proof fn law_start_answer(o: StartOutcome)
    ensures
        reply_field(start_reply_spec(o), "success"@) == Some(
            ReplyView::Bool(
                match o {
                    StartOutcome::Started { .. } => true,
                    StartOutcome::RunningExternally { .. } => true,
                    StartOutcome::DownloadFailed(d) => d is Downloaded,
                    _ => false,
                },
            ),
        ),
        o matches StartOutcome::Started { pid, port } ==> reply_field(start_reply_spec(o), "pid"@) == Some(
            ReplyView::Number(pid as u64),
        ) && reply_field(start_reply_spec(o), "port"@) == Some(ReplyView::Number(port as u64)),
        o matches StartOutcome::RunningExternally { port } ==> reply_field(start_reply_spec(o), "port"@) == Some(
            ReplyView::Number(port as u64),
        ) && reply_field(start_reply_spec(o), "runningExternal"@) == Some(ReplyView::Bool(true)),
        o matches StartOutcome::Failed(m) ==> reply_field(start_reply_spec(o), "message"@) == Some(
            ReplyView::Text(m@),
        ),
{
    reveal_strlit("success");
    reveal_strlit("message");
    reveal_strlit("pid");
    reveal_strlit("port");
    reveal_strlit("runningExternal");
    assert("success"@ != "message"@) by { assert("success"@[0] != "message"@[0]); }
    assert("success"@ != "pid"@) by { assert("success"@.len() != "pid"@.len()); }
    assert("success"@ != "port"@) by { assert("success"@.len() != "port"@.len()); }
    assert("success"@ != "runningExternal"@) by { assert("success"@.len() != "runningExternal"@.len()); }
    assert("message"@ != "pid"@) by { assert("message"@.len() != "pid"@.len()); }
    assert("message"@ != "port"@) by { assert("message"@.len() != "port"@.len()); }
    assert("message"@ != "runningExternal"@) by { assert("message"@.len() != "runningExternal"@.len()); }
    assert("pid"@ != "port"@) by { assert("pid"@.len() != "port"@.len()); }
    assert("pid"@ != "runningExternal"@) by { assert("pid"@.len() != "runningExternal"@.len()); }
    assert("port"@ != "runningExternal"@) by { assert("port"@.len() != "runningExternal"@.len()); }
    law_download_answer_success(o);
    reveal_with_fuel(reply_field_from, 5);
}

proof fn law_download_answer_success(o: StartOutcome)
    ensures
        o matches StartOutcome::DownloadFailed(d) ==> reply_field(start_reply_spec(o), "success"@) == Some(
            ReplyView::Bool(d is Downloaded),
        ),
{
    if let StartOutcome::DownloadFailed(d) = o {
        law_download_answer(d);
    }
}

/// A stop is answered as a success exactly when the process is gone (seen
/// to exit, or given up on after the last poll); otherwise as a failure.
pub proof fn law_stop_answer(o: StopOutcome)
    ensures
        reply_field(stop_reply_spec(o), "success"@) == Some(
            ReplyView::Bool(o is Stopped || o is StoppedAfterTimeout),
        ),
        o matches StopOutcome::WaitFailed(e) ==> reply_field(stop_reply_spec(o), "message"@) matches Some(
            ReplyView::Text(t),
        ) && t.subrange(t.len() - e@.len(), t.len() as int) == e@,
{
    reveal_strlit("success");
    reveal_strlit("message");
    assert("success"@ != "message"@) by { assert("success"@[0] != "message"@[0]); }
    reveal_with_fuel(reply_field_from, 3);
    if let StopOutcome::WaitFailed(e) = o {
        let t = "Ошибка остановки процесса: "@ + e@;
        assert(t.subrange(t.len() - e@.len(), t.len() as int) =~= e@);
    }
}

/// An update with no newer release is answered as a failure naming the
/// installed version; otherwise the answer is the download's.
pub proof fn law_update_answer(o: UpdateOutcome)
    ensures
        match o {
            UpdateOutcome::AlreadyLatest { current } => {
                &&& reply_field(update_reply_spec(o), "success"@) == Some(ReplyView::Bool(false))
                &&& (current matches Some(c) ==> reply_field(update_reply_spec(o), "current"@) == Some(
                    ReplyView::Text(c@),
                ))
                &&& (current is None ==> reply_field(update_reply_spec(o), "current"@) == Some(ReplyView::Null))
            },
            UpdateOutcome::Download(d) => reply_field(update_reply_spec(o), "success"@) == Some(
                ReplyView::Bool(d is Downloaded),
            ),
        },
{
    reveal_strlit("success");
    reveal_strlit("message");
    reveal_strlit("current");
    assert("success"@ != "message"@) by { assert("success"@[0] != "message"@[0]); }
    assert("success"@ != "current"@) by { assert("success"@[0] != "current"@[0]); }
    assert("message"@ != "current"@) by { assert("message"@[0] != "current"@[0]); }
    reveal_with_fuel(reply_field_from, 4);
    if let UpdateOutcome::Download(d) = o {
        law_download_answer(d);
    }
}

} // verus!
