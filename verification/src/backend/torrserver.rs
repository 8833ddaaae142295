//! The TorrServer manager: what it knows of the TorrServer process, and the
//! decisions behind installing, starting, stopping, updating and removing
//! TorrServer.
//!
//! Everything that touches the process, the network or the disk is done by
//! the caller. Operations that alternate such work with decisions are the
//! state machines of the `launch` and `install` modules: the caller does the
//! work a state asks for and hands its result to that state's method.
use vstd::prelude::*;
use vstd::string::StringExecFns;
use crate::backend::store::AppStore;
use crate::json::{view_as_str, view_as_u64, JsonValue, JsonView};
use crate::services::store::lookup_spec;
use crate::text::{decimal_spec, parse_u16, parse_u16_spec};

verus! {

/// The port TorrServer listens on unless the settings name another.
pub const DEFAULT_TS_PORT: u16 = 8090;

/// What the manager reports about the server.
#[derive(Clone, Copy, Debug, PartialEq, Eq, Structural)]
pub enum ServerStatus {
    Stopped,
    Starting,
    Running,
    Error,
}

pub open spec fn status_name(s: ServerStatus) -> Seq<char> {
    match s {
        ServerStatus::Stopped => "stopped"@,
        ServerStatus::Starting => "starting"@,
        ServerStatus::Running => "running"@,
        ServerStatus::Error => "error"@,
    }
}

impl ServerStatus {
    /// The name under which the status is reported.
    pub fn name(&self) -> (r: &'static str)
        ensures
            r@ == status_name(*self),
    {
        match self {
            ServerStatus::Stopped => "stopped",
            ServerStatus::Starting => "starting",
            ServerStatus::Running => "running",
            ServerStatus::Error => "error",
        }
    }
}

/// What polling a child process (`try_wait`) found.
#[derive(Debug)]
pub enum ChildPoll {
    /// The process has exited; its exit status, as text.
    Exited(String),
    /// The process is still running.
    Running,
    /// Polling failed; the error, as text.
    Failed(String),
}

/// The model of a [`TorrServerManager`].
pub struct ManagerView {
    /// The id of the TorrServer process that this manager started and
    /// still tracks.
    pub process: Option<u32>,
    pub status: ServerStatus,
    pub current_version: Option<Seq<char>>,
    pub executable_path: Option<Seq<char>>,
}

/// What the manager knows of the TorrServer process.
#[derive(Debug)]
pub struct TorrServerManager {
    process: Option<u32>,
    status: ServerStatus,
    current_version: Option<String>,
    executable_path: Option<String>,
}

pub open spec fn opt_view(o: Option<String>) -> Option<Seq<char>> {
    match o {
        Some(s) => Some(s@),
        None => None,
    }
}

impl View for TorrServerManager {
    type V = ManagerView;

    closed spec fn view(&self) -> ManagerView {
        ManagerView {
            process: self.process,
            status: self.status,
            current_version: opt_view(self.current_version),
            executable_path: opt_view(self.executable_path),
        }
    }
}

/// The manager after a poll of its tracked process. Without a tracked
/// process nothing changes.
pub open spec fn refreshed(m: ManagerView, poll: ChildPoll) -> ManagerView {
    if m.process is None {
        m
    } else {
        match poll {
            ChildPoll::Exited(_) => ManagerView { process: None, status: ServerStatus::Stopped, ..m },
            ChildPoll::Running => ManagerView {
                status: if m.status == ServerStatus::Starting {
                    ServerStatus::Starting
                } else {
                    ServerStatus::Running
                },
                ..m
            },
            ChildPoll::Failed(_) => ManagerView { process: None, status: ServerStatus::Error, ..m },
        }
    }
}

/// The port named by the `tsPort` setting: a number is cut to 16 bits, a
/// string is parsed; otherwise the default port.
pub open spec fn ts_port_spec(store: Map<Seq<char>, JsonView>) -> u16 {
    match lookup_spec(store, "tsPort"@) {
        Some(v) => match view_as_u64(v) {
            Some(n) => n as u16,
            None => match view_as_str(v) {
                Some(s) => match parse_u16_spec(s) {
                    Some(p) => p,
                    None => DEFAULT_TS_PORT,
                },
                None => DEFAULT_TS_PORT,
            },
        },
        None => DEFAULT_TS_PORT,
    }
}

/// The port TorrServer is configured to listen on.
pub fn read_ts_port(store: &AppStore) -> (r: u16)
    ensures
        r == ts_port_spec(store@),
{
    if let Some(v) = store.get("tsPort") {
        if let Some(n) = v.as_u64() {
            return n as u16;
        }
        if let Some(s) = v.as_string() {
            if let Some(n) = parse_u16(s.as_str()) {
                return n;
            }
        }
    }
    DEFAULT_TS_PORT
}

/// The string setting stored under `key`, if it holds a string.
pub open spec fn string_setting(store: Map<Seq<char>, JsonView>, key: Seq<char>) -> Option<Seq<char>> {
    match lookup_spec(store, key) {
        Some(v) => view_as_str(v),
        None => None,
    }
}

fn read_string_setting(store: &AppStore, key: &str) -> (r: Option<String>)
    ensures
        opt_view(r) == string_setting(store@, key@),
{
    match store.get(key) {
        Some(v) => v.as_string(),
        None => None,
    }
}

/// The value stored under `key`, or JSON `null`.
pub open spec fn setting_or_null(store: Map<Seq<char>, JsonView>, key: Seq<char>) -> JsonView {
    match lookup_spec(store, key) {
        Some(v) => v,
        None => JsonView::Null,
    }
}

/// The operating system's name in TorrServer's release files.
pub open spec fn os_label(os: Seq<char>) -> Option<Seq<char>> {
    if os == "windows"@ {
        Some("windows"@)
    } else if os == "macos"@ {
        Some("darwin"@)
    } else if os == "linux"@ {
        Some("linux"@)
    } else {
        None
    }
}

/// The processor's name in TorrServer's release files.
pub open spec fn arch_label(os: Seq<char>, arch: Seq<char>) -> Seq<char> {
    if os == "windows"@ {
        if arch == "x86_64"@ {
            "amd64"@
        } else {
            arch
        }
    } else if os == "macos"@ {
        if arch == "aarch64"@ {
            "arm64"@
        } else {
            "amd64"@
        }
    } else if arch == "x86_64"@ {
        "amd64"@
    } else if arch == "aarch64"@ {
        "arm64"@
    } else {
        arch
    }
}

/// The name of the TorrServer release file for an operating system and a
/// processor (as Rust names them), or the error for an unsupported system.
pub open spec fn exe_name_spec(os: Seq<char>, arch: Seq<char>) -> Result<Seq<char>, Seq<char>> {
    match os_label(os) {
        None => Err("Неподдерживаемая ОС: "@ + os),
        Some(label) => Ok(
            "TorrServer-"@ + label + "-"@ + arch_label(os, arch) + if os == "windows"@ {
                ".exe"@
            } else {
                ""@
            },
        ),
    }
}

fn str_is(s: &str, lit: &str) -> (r: bool)
    ensures
        r == (s@ == lit@),
{
    s.to_owned() == lit.to_owned()
}

/// The TorrServer release file for this system: `os` and `arch` are
/// `std::env::consts::OS` and `ARCH`.
pub fn platform_exe_name(os: &str, arch: &str) -> (r: Result<String, String>)
    ensures
        match r {
            Ok(name) => exe_name_spec(os@, arch@) == Ok::<Seq<char>, Seq<char>>(name@),
            Err(msg) => exe_name_spec(os@, arch@) == Err::<Seq<char>, Seq<char>>(msg@),
        },
{
    let label = if str_is(os, "windows") {
        "windows"
    } else if str_is(os, "macos") {
        "darwin"
    } else if str_is(os, "linux") {
        "linux"
    } else {
        return Err("Неподдерживаемая ОС: ".to_owned().concat(os));
    };
    let arch_owned = arch.to_owned();
    let suffix: String = if str_is(os, "windows") {
        if str_is(arch, "x86_64") {
            "amd64".to_owned()
        } else {
            arch_owned
        }
    } else if str_is(os, "macos") {
        if str_is(arch, "aarch64") {
            "arm64".to_owned()
        } else {
            "amd64".to_owned()
        }
    } else if str_is(arch, "x86_64") {
        "amd64".to_owned()
    } else if str_is(arch, "aarch64") {
        "arm64".to_owned()
    } else {
        arch_owned
    };
    let name = "TorrServer-".to_owned().concat(label).concat("-").concat(suffix.as_str());
    if str_is(os, "windows") {
        Ok(name.concat(".exe"))
    } else {
        proof {
            assert(name@ + ""@ =~= name@) by {
                reveal_strlit("");
            }
        }
        Ok(name)
    }
}

/// Where TorrServer lives on this machine: the release file's name and the
/// paths (as text) of its directory, its executable and its data.
#[derive(Debug)]
pub struct PlatformInfo {
    pub exe_name: String,
    pub save_dir: String,
    pub save_path: String,
    pub data_dir: String,
}

/// What `is_installed` reports.
#[derive(Debug)]
pub enum InstalledOutcome {
    Failed(String),
    Report {
        installed: bool,
        executable_exists: bool,
        version: Option<String>,
        path: String,
        data_dir: String,
    },
}

/// What `status` reports.
#[derive(Debug)]
pub enum StatusOutcome {
    Failed(String),
    Report(StatusReport),
}

#[derive(Debug)]
pub struct StatusReport {
    pub status: ServerStatus,
    pub running: bool,
    pub running_external: bool,
    pub pid: Option<u32>,
    pub version: JsonValue,
    pub path: JsonValue,
    pub port: u16,
    pub data_dir: String,
    pub executable_dir: String,
    pub installed: bool,
}

/// Whether the server counts as running outside the manager: nothing is
/// tracked but something answers on the port.
pub open spec fn runs_externally(m: ManagerView, port_open: bool) -> bool {
    m.process is None && port_open
}

/// Whether the server counts as running: a process is tracked, or it runs
/// outside the manager.
pub open spec fn server_running(m: ManagerView, port_open: bool) -> bool {
    m.process is Some || runs_externally(m, port_open)
}

/// The status a status report records: a running server is no longer
/// reported stopped.
pub open spec fn reported_status(m: ManagerView, port_open: bool) -> ServerStatus {
    if server_running(m, port_open) && m.status == ServerStatus::Stopped {
        ServerStatus::Running
    } else {
        m.status
    }
}

/// What `check_for_update` reports.
#[derive(Debug)]
pub enum UpdateCheck {
    Checked { has_update: bool, current: Option<String>, latest: String },
    Failed(String),
}

/// Whether a release tag differs from the installed version (no installed
/// version counts as an update).
pub open spec fn has_update_spec(current: Option<Seq<char>>, latest: Seq<char>) -> bool {
    match current {
        Some(c) => c != latest,
        None => true,
    }
}

impl Default for TorrServerManager {
    fn default() -> (r: Self)
        ensures
            r@.process is None,
            r@.status == ServerStatus::Stopped,
            r@.current_version is None,
            r@.executable_path is None,
    {
        Self::new()
    }
}

impl TorrServerManager {
    /// A manager that tracks no process.
    pub fn new() -> (r: Self)
        ensures
            r@.process is None,
            r@.status == ServerStatus::Stopped,
            r@.current_version is None,
            r@.executable_path is None,
    {
        TorrServerManager {
            process: None,
            status: ServerStatus::Stopped,
            current_version: None,
            executable_path: None,
        }
    }

    /// The id of the process this manager tracks.
    pub fn tracked_pid(&self) -> (r: Option<u32>)
        ensures
            r == self@.process,
    {
        self.process
    }

    /// The status as last recorded.
    pub fn current_status(&self) -> (r: ServerStatus)
        ensures
            r == self@.status,
    {
        self.status
    }

    pub(crate) fn record_download(&mut self, path: String, version: String)
        ensures
            final(self)@ == (ManagerView {
                executable_path: Some(path@),
                current_version: Some(version@),
                ..old(self)@
            }),
    {
        self.executable_path = Some(path);
        self.current_version = Some(version);
    }

    pub(crate) fn set_status(&mut self, status: ServerStatus)
        ensures
            final(self)@ == (ManagerView { status, ..old(self)@ }),
    {
        self.status = status;
    }

    pub(crate) fn set_process(&mut self, process: Option<u32>)
        ensures
            final(self)@ == (ManagerView { process, ..old(self)@ }),
    {
        self.process = process;
    }

    pub(crate) fn record_launch(&mut self, pid: u32, path: String)
        ensures
            final(self)@ == (ManagerView {
                process: Some(pid),
                status: ServerStatus::Running,
                executable_path: Some(path@),
                ..old(self)@
            }),
    {
        self.process = Some(pid);
        self.status = ServerStatus::Running;
        self.executable_path = Some(path);
    }

    pub(crate) fn forget_installation(&mut self)
        ensures
            final(self)@ == (ManagerView {
                executable_path: None,
                current_version: None,
                status: ServerStatus::Stopped,
                ..old(self)@
            }),
    {
        self.executable_path = None;
        self.current_version = None;
        self.status = ServerStatus::Stopped;
    }

    /// Takes in what polling the tracked process found.
    pub fn refresh_process_status(&mut self, poll: ChildPoll)
        ensures
            final(self)@ == refreshed(old(self)@, poll),
    {
        if self.process.is_some() {
            match poll {
                ChildPoll::Exited(_) => {
                    self.process = None;
                    self.status = ServerStatus::Stopped;
                },
                ChildPoll::Running => {
                    if !matches!(self.status, ServerStatus::Starting) {
                        self.status = ServerStatus::Running;
                    }
                },
                ChildPoll::Failed(_) => {
                    self.process = None;
                    self.status = ServerStatus::Error;
                },
            }
        }
    }

    /// Whether TorrServer is installed: `platform` is where it would live,
    /// `executable_exists` whether its executable is there (looked at only
    /// when the platform is known).
    pub fn is_installed(
        &self,
        store: &AppStore,
        platform: Result<PlatformInfo, String>,
        executable_exists: bool,
    ) -> (r: InstalledOutcome)
        ensures
            match platform {
                Err(e) => r matches InstalledOutcome::Failed(m) && m@ == e@,
                Ok(info) => r matches InstalledOutcome::Report {
                    installed,
                    executable_exists: ex,
                    version,
                    path,
                    data_dir,
                } && ex == executable_exists && opt_view(version) == string_setting(store@, "tsVersion"@)
                    && installed == (executable_exists && version is Some) && path@ == info.save_path@
                    && data_dir@ == info.data_dir@,
            },
    {
        match platform {
            Err(e) => InstalledOutcome::Failed(e),
            Ok(info) => {
                let version = read_string_setting(store, "tsVersion");
                let installed = executable_exists && version.is_some();
                InstalledOutcome::Report {
                    installed,
                    executable_exists,
                    version,
                    path: info.save_path,
                    data_dir: info.data_dir,
                }
            },
        }
    }

    /// The status report, once the tracked process has been polled:
    /// `port_open` is whether something answers on the configured port
    /// (looked at only when no process is tracked) and `executable_exists`
    /// whether the executable is in place.
    pub fn status(
        &mut self,
        store: &AppStore,
        platform: Result<PlatformInfo, String>,
        port_open: bool,
        executable_exists: bool,
    ) -> (r: StatusOutcome)
        ensures
            match platform {
                Err(e) => r matches StatusOutcome::Failed(m) && m@ == e@ && final(self)@ == old(self)@,
                Ok(info) => {
                    let external = runs_externally(old(self)@, port_open);
                    let running = server_running(old(self)@, port_open);
                    let status = reported_status(old(self)@, port_open);
                    &&& final(self)@ == (ManagerView { status, ..old(self)@ })
                    &&& r matches StatusOutcome::Report(rep)
                    &&& rep.status == status
                    &&& rep.running == running
                    &&& rep.running_external == external
                    &&& rep.pid == old(self)@.process
                    &&& rep.version@ == setting_or_null(store@, "tsVersion"@)
                    &&& rep.path@ == setting_or_null(store@, "tsPath"@)
                    &&& rep.port == ts_port_spec(store@)
                    &&& rep.data_dir@ == info.data_dir@
                    &&& rep.executable_dir@ == info.save_dir@
                    &&& rep.installed == executable_exists
                },
            },
    {
        match platform {
            Err(e) => StatusOutcome::Failed(e),
            Ok(info) => {
                let version = match store.get("tsVersion") {
                    Some(v) => v,
                    None => JsonValue::Null,
                };
                let path = match store.get("tsPath") {
                    Some(v) => v,
                    None => JsonValue::Null,
                };
                let port = read_ts_port(store);
                let running_external = self.process.is_none() && port_open;
                let running = self.process.is_some() || running_external;
                if running && matches!(self.status, ServerStatus::Stopped) {
                    self.status = ServerStatus::Running;
                }
                StatusOutcome::Report(
                    StatusReport {
                        status: self.status,
                        running,
                        running_external,
                        pid: self.process,
                        version,
                        path,
                        port,
                        data_dir: info.data_dir,
                        executable_dir: info.save_dir,
                        installed: executable_exists,
                    },
                )
            },
        }
    }

    /// Compares the installed version with the latest release tag (or the
    /// error met while asking for it) and remembers the tag.
    pub fn check_for_update(&mut self, store: &AppStore, latest: Result<String, String>) -> (r:
        UpdateCheck)
        ensures
            match latest {
                Err(e) => r matches UpdateCheck::Failed(m) && m@ == e@ && final(self)@ == old(self)@,
                Ok(tag) => {
                    &&& r matches UpdateCheck::Checked { has_update, current, latest: l }
                    &&& opt_view(current) == string_setting(store@, "tsVersion"@)
                    &&& has_update == has_update_spec(string_setting(store@, "tsVersion"@), tag@)
                    &&& l@ == tag@
                    &&& final(self)@ == (ManagerView { current_version: Some(tag@), ..old(self)@ })
                },
            },
    {
        let current = read_string_setting(store, "tsVersion");
        match latest {
            Err(e) => UpdateCheck::Failed(e),
            Ok(tag) => {
                let has_update = match &current {
                    Some(c) => !(*c == tag),
                    None => true,
                };
                self.current_version = Some(tag.clone());
                UpdateCheck::Checked { has_update, current, latest: tag }
            },
        }
    }
}

} // verus!

verus! {

/// Polling never makes the manager track a process it did not track, and a
/// process seen to exit or to fail polling is no longer tracked.
pub proof fn law_refresh_only_forgets(m: ManagerView, poll: ChildPoll)
    ensures
        refreshed(m, poll).process is Some ==> refreshed(m, poll).process == m.process,
        !(poll is Running) ==> refreshed(m, poll).process is None,
        refreshed(m, poll).current_version == m.current_version,
        refreshed(m, poll).executable_path == m.executable_path,
{
}

/// A tracked process is reported running, not as an outside server,
/// whatever answers on the port; without one, the port decides.
pub proof fn law_status_follows_process(m: ManagerView, port_open: bool)
    ensures
        m.process is Some ==> server_running(m, port_open) && !runs_externally(m, port_open),
        m.process is None ==> server_running(m, port_open) == port_open,
        server_running(m, port_open) ==> reported_status(m, port_open) != ServerStatus::Stopped,
{
}

/// A port stored as a number in 16-bit range is read back as that port.
pub proof fn law_port_read_back(store: Map<Seq<char>, JsonView>, port: u16)
    ensures
        ts_port_spec(store.insert("tsPort"@, JsonView::Unsigned(port as u64))) == port,
{
}

/// A port stored as its decimal text is read back as that port.
pub proof fn law_port_text_read_back(store: Map<Seq<char>, JsonView>, port: u16)
    ensures
        ts_port_spec(store.insert("tsPort"@, JsonView::Str(decimal_spec(port as nat)))) == port,
{
    lemma_decimal_parses(port as nat);
    assert(decimal_spec(port as nat)[0] != '+');
}

/// The decimal text of a number is made of digits, does not start with a
/// sign, and denotes the number.
pub proof fn lemma_decimal_parses(n: nat)
    ensures
        decimal_spec(n).len() > 0,
        crate::text::all_ascii_digits(decimal_spec(n)),
        crate::text::digits_value(decimal_spec(n)) == n,
        decimal_spec(n)[0] != '+',
    decreases n,
{
    let digits = seq!['0', '1', '2', '3', '4', '5', '6', '7', '8', '9'];
    assert forall|d: nat| d < 10 implies crate::text::is_ascii_digit(#[trigger] crate::text::digit_char(d))
        && (crate::text::digit_char(d) as nat) - ('0' as nat) == d by {
        assert(crate::text::digit_char(d) == digits[d as int]);
    }
    if n < 10 {
        let s = decimal_spec(n);
        assert(s.drop_last() =~= Seq::<char>::empty());
        assert(crate::text::is_ascii_digit(crate::text::digit_char(n)));
        assert((crate::text::digit_char(n) as nat) - ('0' as nat) == n);
        assert(s.last() == crate::text::digit_char(n));
        assert(crate::text::digits_value(s.drop_last()) == 0);
        assert(crate::text::digits_value(s) == n);
    } else {
        lemma_decimal_parses(n / 10);
        let s = decimal_spec(n);
        let t = decimal_spec(n / 10);
        assert(s.drop_last() =~= t);
        assert(s.last() == crate::text::digit_char(n % 10));
        assert(crate::text::is_ascii_digit(crate::text::digit_char(n % 10)));
        assert((n / 10) * 10 + n % 10 == n) by (nonlinear_arith);
        let d = n % 10;
        assert((crate::text::digit_char(d) as nat) - ('0' as nat) == d);
        assert(crate::text::digits_value(s) == crate::text::digits_value(t) * 10 + d);
        assert forall|i: int| 0 <= i < s.len() implies crate::text::is_ascii_digit(#[trigger] s[i]) by {
            if i < t.len() {
                assert(s[i] == t[i]);
            }
        }
        assert(s[0] == t[0]);
    }
}

/// A release tag equal to the installed version is no update; anything
/// else is.
pub proof fn law_update_only_when_versions_differ(installed: Seq<char>, latest: Seq<char>)
    ensures
        has_update_spec(Some(installed), latest) == (installed != latest),
        has_update_spec(None, latest),
{
}

} // verus!
