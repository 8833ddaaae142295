//! Starting and stopping TorrServer, as state machines: each state is a
//! type, and each of its methods takes in the result of the work the caller
//! was asked to do (probe the port, spawn the process, poll it, ...) and
//! decides what comes next.
use vstd::prelude::*;
use crate::backend::install::DownloadOutcome;
use crate::backend::store::AppStore;
use crate::backend::torrserver::{
    opt_view, read_ts_port, reported_status, runs_externally, server_running, string_setting,
    ts_port_spec, ChildPoll, ManagerView, PlatformInfo, ServerStatus, TorrServerManager,
};
use crate::services::store::string_views;
use crate::text::{decimal_spec, decimal_text};

verus! {

/// How a start ended.
#[derive(Debug)]
pub enum StartOutcome {
    /// The manager already tracks a running TorrServer.
    AlreadyRunning,
    /// Something already answers on the configured port.
    RunningExternally { port: u16 },
    /// Finding the platform or creating the directories failed.
    Failed(String),
    /// The executable was missing and could not be downloaded.
    DownloadFailed(DownloadOutcome),
    /// The process could not be spawned; the error, as text.
    SpawnFailed(String),
    /// The process exited right after it was spawned; its exit status.
    ExitedEarly(String),
    /// Polling the new process failed; the error, as text.
    WaitFailed(String),
    /// TorrServer runs.
    Started { pid: u32, port: u16 },
}

/// The executable a start runs.
#[derive(Debug)]
pub enum Executable {
    /// The path recorded in the `tsPath` setting.
    Saved(String),
    /// The platform's executable path.
    Installed,
}

/// The path (as text) of the executable that a start runs.
pub open spec fn executable_text(e: Executable, info: PlatformInfo) -> Seq<char> {
    match e {
        Executable::Saved(p) => p@,
        Executable::Installed => info.save_path@,
    }
}

/// The command line TorrServer is started with: its port and data
/// directory, then the caller's arguments.
pub open spec fn launch_args_spec(port: u16, data_dir: Seq<char>, extra: Seq<String>) -> Seq<Seq<char>> {
    seq!["--port"@, decimal_spec(port as nat), "--path"@, data_dir] + string_views(extra)
}

/// The manager once the process `pid`, run from `path`, came up.
pub open spec fn launched(m: ManagerView, pid: u32, path: Seq<char>) -> ManagerView {
    ManagerView { process: Some(pid), status: ServerStatus::Running, executable_path: Some(path), ..m }
}

/// The manager once its process is gone after a stop.
pub open spec fn stopped(m: ManagerView) -> ManagerView {
    ManagerView { process: None, status: ServerStatus::Stopped, ..m }
}

/// A start waiting to learn whether something answers on the port.
pub struct StartProbe {
    port: u16,
    args: Vec<String>,
}

/// A start waiting for the platform.
pub struct StartPlatform {
    port: u16,
    args: Vec<String>,
}

/// A start waiting for its directories to be created.
pub struct StartDirectories {
    port: u16,
    args: Vec<String>,
    info: PlatformInfo,
}

/// A start waiting to learn whether the saved executable path exists.
pub struct StartSavedCheck {
    port: u16,
    args: Vec<String>,
    info: PlatformInfo,
    saved: Option<String>,
}

/// A start waiting to learn whether the chosen executable exists.
pub struct StartExecutableCheck {
    port: u16,
    args: Vec<String>,
    info: PlatformInfo,
    executable: Executable,
}

/// A start waiting for the executable to be downloaded.
pub struct StartDownload {
    port: u16,
    args: Vec<String>,
    info: PlatformInfo,
    executable: Executable,
}

/// A start waiting for the process to be spawned.
pub struct StartSpawn {
    port: u16,
    launch_args: Vec<String>,
    info: PlatformInfo,
    executable: Executable,
}

/// A start waiting for the new process to be polled after it had time to
/// come up.
pub struct StartSettle {
    port: u16,
    pid: u32,
    info: PlatformInfo,
    executable: Executable,
}

/// What follows the check of the chosen executable.
pub enum StartNext {
    Download(StartDownload),
    Spawn(StartSpawn),
}

fn make_spawn(port: u16, args: Vec<String>, info: PlatformInfo, executable: Executable) -> (r: StartSpawn)
    ensures
        r.port() == port,
        r.info() == info,
        r.executable() == executable,
        string_views(r.launch_args()) == launch_args_spec(port, info.data_dir@, args@),
{
    let mut launch_args: Vec<String> = Vec::new();
    launch_args.push("--port".to_owned());
    launch_args.push(decimal_text(port as u64));
    launch_args.push("--path".to_owned());
    launch_args.push(info.data_dir.clone());
    let ghost head = launch_args@;
    let mut i: usize = 0;
    while i < args.len()
        invariant
            i <= args@.len(),
            string_views(launch_args@) =~= string_views(head) + string_views(args@.take(i as int)),
            string_views(head) =~= seq!["--port"@, decimal_spec(port as nat), "--path"@, info.data_dir@],
        decreases args@.len() - i,
    {
        let ghost before = launch_args@;
        launch_args.push(args[i].clone());
        proof {
            assert(string_views(launch_args@) =~= string_views(before).push(args@[i as int]@));
            assert(string_views(args@.take(i as int + 1)) =~= string_views(args@.take(i as int)).push(
                args@[i as int]@,
            ));
        }
        i = i + 1;
    }
    proof {
        assert(args@.take(args@.len() as int) =~= args@);
    }
    StartSpawn { port, launch_args, info, executable }
}

impl TorrServerManager {
    /// Starts TorrServer, once the tracked process (if any) has been
    /// polled: a manager that still tracks a process refuses.
    pub fn start(&self, store: &AppStore, args: Vec<String>) -> (r: Result<
        StartProbe,
        StartOutcome,
    >)
        ensures
            self@.process is Some ==> (r matches Err(StartOutcome::AlreadyRunning)),
            self@.process is None ==> (r matches Ok(p) && p.port() == ts_port_spec(store@) && p.args()
                == args@),
    {
        let port = read_ts_port(store);
        if self.tracked_pid().is_some() {
            return Err(StartOutcome::AlreadyRunning);
        }
        Ok(StartProbe { port, args })
    }

    /// Stops TorrServer, once the tracked process (if any) has been
    /// polled: without a tracked process there is nothing to stop.
    pub fn stop(&mut self) -> (r: Result<StopKill, StopOutcome>)
        ensures
            old(self)@.process is None ==> (r matches Err(StopOutcome::NotRunning) && final(self)@ == (
            ManagerView { status: ServerStatus::Stopped, ..old(self)@ })),
            old(self)@.process matches Some(pid) ==> (r matches Ok(k) && k.pid() == pid && final(self)@
                == old(self)@),
    {
        match self.tracked_pid() {
            None => {
                self.set_status(ServerStatus::Stopped);
                Err(StopOutcome::NotRunning)
            },
            Some(pid) => Ok(StopKill { pid }),
        }
    }
}

impl StartProbe {
    pub closed spec fn port(&self) -> u16 {
        self.port
    }

    pub closed spec fn args(&self) -> Seq<String> {
        self.args@
    }

    /// The port to probe.
    pub fn probe_port(&self) -> (r: u16)
        ensures
            r == self.port(),
    {
        self.port
    }

    /// Takes in whether something answers on the port: then TorrServer is
    /// taken to run outside the manager, and the start ends.
    pub fn port_probed(self, mgr: &mut TorrServerManager, open: bool) -> (r: Result<
        StartPlatform,
        StartOutcome,
    >)
        ensures
            open ==> (r matches Err(StartOutcome::RunningExternally { port }) && port == self.port()
                && final(mgr)@ == (ManagerView { status: ServerStatus::Running, ..old(mgr)@ })),
            !open ==> (r matches Ok(next) && next.port() == self.port() && next.args() == self.args()
                && final(mgr)@ == old(mgr)@),
    {
        if open {
            mgr.set_status(ServerStatus::Running);
            return Err(StartOutcome::RunningExternally { port: self.port });
        }
        Ok(StartPlatform { port: self.port, args: self.args })
    }
}

impl StartPlatform {
    pub closed spec fn port(&self) -> u16 {
        self.port
    }

    pub closed spec fn args(&self) -> Seq<String> {
        self.args@
    }

    pub fn platform_resolved(self, platform: Result<PlatformInfo, String>) -> (r: Result<
        StartDirectories,
        StartOutcome,
    >)
        ensures
            match platform {
                Err(e) => r matches Err(StartOutcome::Failed(m)) && m@ == e@,
                Ok(info) => r matches Ok(next) && next.port() == self.port() && next.args() == self.args()
                    && next.info() == info,
            },
    {
        match platform {
            Err(e) => Err(StartOutcome::Failed(e)),
            Ok(info) => Ok(StartDirectories { port: self.port, args: self.args, info }),
        }
    }
}

impl StartDirectories {
    pub closed spec fn port(&self) -> u16 {
        self.port
    }

    pub closed spec fn args(&self) -> Seq<String> {
        self.args@
    }

    pub closed spec fn info(&self) -> PlatformInfo {
        self.info
    }

    /// Takes in whether the directories could be created, and reads the
    /// saved executable path from the settings.
    pub fn directories_ensured(self, store: &AppStore, created: Result<(), String>) -> (r: Result<
        StartSavedCheck,
        StartOutcome,
    >)
        ensures
            match created {
                Err(e) => r matches Err(StartOutcome::Failed(m)) && m@ == e@,
                Ok(_) => r matches Ok(next) && next.port() == self.port() && next.args() == self.args()
                    && next.info() == self.info() && opt_view(next.saved()) == string_setting(
                    store@,
                    "tsPath"@,
                ),
            },
    {
        match created {
            Err(e) => Err(StartOutcome::Failed(e)),
            Ok(_) => {
                let saved = match store.get("tsPath") {
                    Some(v) => v.as_string(),
                    None => None,
                };
                Ok(StartSavedCheck { port: self.port, args: self.args, info: self.info, saved })
            },
        }
    }
}

impl StartSavedCheck {
    pub closed spec fn port(&self) -> u16 {
        self.port
    }

    pub closed spec fn args(&self) -> Seq<String> {
        self.args@
    }

    pub closed spec fn info(&self) -> PlatformInfo {
        self.info
    }

    pub closed spec fn saved(&self) -> Option<String> {
        self.saved
    }

    /// The saved executable path whose existence is to be checked, if any.
    pub fn saved_path(&self) -> (r: &Option<String>)
        ensures
            *r == self.saved(),
    {
        &self.saved
    }

    /// Chooses the executable: the saved path when there is one and it
    /// exists, otherwise the platform's executable path. `exists` is looked
    /// at only when there is a saved path.
    pub fn saved_checked(self, exists: bool) -> (r: StartExecutableCheck)
        ensures
            r.port() == self.port(),
            r.args() == self.args(),
            r.info() == self.info(),
            r.executable() == match self.saved() {
                Some(p) => if exists {
                    Executable::Saved(p)
                } else {
                    Executable::Installed
                },
                None => Executable::Installed,
            },
    {
        let executable = match self.saved {
            Some(p) => if exists {
                Executable::Saved(p)
            } else {
                Executable::Installed
            },
            None => Executable::Installed,
        };
        StartExecutableCheck { port: self.port, args: self.args, info: self.info, executable }
    }
}

impl StartExecutableCheck {
    pub closed spec fn port(&self) -> u16 {
        self.port
    }

    pub closed spec fn args(&self) -> Seq<String> {
        self.args@
    }

    pub closed spec fn info(&self) -> PlatformInfo {
        self.info
    }

    pub closed spec fn executable(&self) -> Executable {
        self.executable
    }

    /// The executable whose existence is to be checked.
    pub fn chosen(&self) -> (r: &Executable)
        ensures
            *r == self.executable(),
    {
        &self.executable
    }

    /// A missing executable is downloaded first.
    pub fn executable_checked(self, exists: bool) -> (r: StartNext)
        ensures
            exists ==> (r matches StartNext::Spawn(s) && s.port() == self.port() && s.info() == self.info()
                && s.executable() == self.executable() && string_views(s.launch_args())
                == launch_args_spec(self.port(), self.info().data_dir@, self.args())),
            !exists ==> (r matches StartNext::Download(d) && d.port() == self.port() && d.args()
                == self.args() && d.info() == self.info() && d.executable() == self.executable()),
    {
        if exists {
            StartNext::Spawn(make_spawn(self.port, self.args, self.info, self.executable))
        } else {
            StartNext::Download(
                StartDownload {
                    port: self.port,
                    args: self.args,
                    info: self.info,
                    executable: self.executable,
                },
            )
        }
    }
}

impl StartDownload {
    pub closed spec fn port(&self) -> u16 {
        self.port
    }

    pub closed spec fn args(&self) -> Seq<String> {
        self.args@
    }

    pub closed spec fn info(&self) -> PlatformInfo {
        self.info
    }

    pub closed spec fn executable(&self) -> Executable {
        self.executable
    }

    /// A failed download ends the start with the download's outcome.
    pub fn downloaded(self, outcome: DownloadOutcome) -> (r: Result<StartSpawn, StartOutcome>)
        ensures
            outcome.is_success() ==> (r matches Ok(s) && s.port() == self.port() && s.info() == self.info()
                && s.executable() == self.executable() && string_views(s.launch_args())
                == launch_args_spec(self.port(), self.info().data_dir@, self.args())),
            !outcome.is_success() ==> r == Err::<StartSpawn, StartOutcome>(
                StartOutcome::DownloadFailed(outcome),
            ),
    {
        if outcome.succeeded() {
            Ok(make_spawn(self.port, self.args, self.info, self.executable))
        } else {
            Err(StartOutcome::DownloadFailed(outcome))
        }
    }
}

impl StartSpawn {
    pub closed spec fn port(&self) -> u16 {
        self.port
    }

    pub closed spec fn launch_args(&self) -> Seq<String> {
        self.launch_args@
    }

    pub closed spec fn info(&self) -> PlatformInfo {
        self.info
    }

    pub closed spec fn executable(&self) -> Executable {
        self.executable
    }

    /// The command line to spawn the executable with.
    pub fn command_args(&self) -> (r: &Vec<String>)
        ensures
            r@ == self.launch_args(),
    {
        &self.launch_args
    }

    /// The executable to spawn.
    pub fn program(&self) -> (r: &Executable)
        ensures
            *r == self.executable(),
    {
        &self.executable
    }

    /// Takes in the new process's id, or the error met spawning it.
    pub fn spawned(self, mgr: &mut TorrServerManager, spawn: Result<u32, String>) -> (r: Result<
        StartSettle,
        StartOutcome,
    >)
        ensures
            match spawn {
                Err(e) => r matches Err(StartOutcome::SpawnFailed(m)) && m@ == e@ && final(mgr)@ == (
                ManagerView { status: ServerStatus::Error, ..old(mgr)@ }),
                Ok(pid) => r matches Ok(next) && next.pid() == pid && next.port() == self.port()
                    && next.info() == self.info() && next.executable() == self.executable()
                    && final(mgr)@ == (ManagerView { status: ServerStatus::Starting, ..old(mgr)@ }),
            },
    {
        match spawn {
            Err(e) => {
                mgr.set_status(ServerStatus::Error);
                Err(StartOutcome::SpawnFailed(e))
            },
            Ok(pid) => {
                mgr.set_status(ServerStatus::Starting);
                Ok(StartSettle { port: self.port, pid, info: self.info, executable: self.executable })
            },
        }
    }
}

impl StartSettle {
    pub closed spec fn port(&self) -> u16 {
        self.port
    }

    pub closed spec fn pid(&self) -> u32 {
        self.pid
    }

    pub closed spec fn info(&self) -> PlatformInfo {
        self.info
    }

    pub closed spec fn executable(&self) -> Executable {
        self.executable
    }

    /// Takes in what polling the new process found: a process still
    /// running is tracked from now on.
    pub fn settled(self, mgr: &mut TorrServerManager, poll: ChildPoll) -> (r: StartOutcome)
        ensures
            match poll {
                ChildPoll::Running => r == (StartOutcome::Started { pid: self.pid(), port: self.port() })
                    && final(mgr)@ == launched(old(mgr)@, self.pid(), executable_text(self.executable(), self.info())),
                ChildPoll::Exited(s) => r matches StartOutcome::ExitedEarly(m) && m@ == s@ && final(mgr)@
                    == (ManagerView { status: ServerStatus::Error, ..old(mgr)@ }),
                ChildPoll::Failed(e) => r matches StartOutcome::WaitFailed(m) && m@ == e@ && final(mgr)@
                    == (ManagerView { status: ServerStatus::Error, ..old(mgr)@ }),
            },
    {
        match poll {
            ChildPoll::Running => {
                let path = match self.executable {
                    Executable::Saved(p) => p,
                    Executable::Installed => self.info.save_path,
                };
                mgr.record_launch(self.pid, path);
                StartOutcome::Started { pid: self.pid, port: self.port }
            },
            ChildPoll::Exited(s) => {
                mgr.set_status(ServerStatus::Error);
                StartOutcome::ExitedEarly(s)
            },
            ChildPoll::Failed(e) => {
                mgr.set_status(ServerStatus::Error);
                StartOutcome::WaitFailed(e)
            },
        }
    }
}

/// How many times a stop polls the killed process before giving up waiting.
pub const STOP_POLL_LIMIT: u32 = 50;

/// How a stop ended.
#[derive(Debug)]
pub enum StopOutcome {
    /// No process was tracked.
    NotRunning,
    /// The process could not be killed.
    KillFailed,
    /// The process exited.
    Stopped,
    /// Polling the killed process failed; the error, as text.
    WaitFailed(String),
    /// The process had not been seen to exit after the last poll.
    StoppedAfterTimeout,
}

/// A stop waiting for the tracked process to be killed.
pub struct StopKill {
    pid: u32,
}

/// A stop waiting for the killed process to be polled.
pub struct StopWait {
    polls: u32,
}

/// A stop waiting for the pause between two polls.
pub struct StopPause {
    polls: u32,
}

impl StopKill {
    pub closed spec fn pid(&self) -> u32 {
        self.pid
    }

    /// Takes in whether the kill worked.
    pub fn killed(self, ok: bool) -> (r: Result<StopWait, StopOutcome>)
        ensures
            ok ==> (r matches Ok(w) && w.polls() == 0),
            !ok ==> (r matches Err(StopOutcome::KillFailed)),
    {
        if ok {
            Ok(StopWait { polls: 0 })
        } else {
            Err(StopOutcome::KillFailed)
        }
    }
}

impl StopWait {
    #[verifier::type_invariant]
    spec fn within_limit(&self) -> bool {
        self.polls < STOP_POLL_LIMIT
    }

    /// How many polls found the process still running.
    pub closed spec fn polls(&self) -> u32 {
        self.polls
    }

    /// Takes in what polling the killed process found.
    pub fn polled(self, mgr: &mut TorrServerManager, poll: ChildPoll) -> (r: Result<StopPause, StopOutcome>)
        ensures
            self.polls() < STOP_POLL_LIMIT,
            match poll {
                ChildPoll::Exited(_) => r matches Err(StopOutcome::Stopped) && final(mgr)@ == (
                ManagerView { process: None, status: ServerStatus::Stopped, ..old(mgr)@ }),
                ChildPoll::Failed(e) => r matches Err(StopOutcome::WaitFailed(m)) && m@ == e@ && final(mgr)@
                    == (ManagerView { process: None, status: ServerStatus::Error, ..old(mgr)@ }),
                ChildPoll::Running => r matches Ok(p) && p.polls() == self.polls() + 1 && final(mgr)@
                    == old(mgr)@,
            },
    {
        proof {
            use_type_invariant(&self);
        }
        match poll {
            ChildPoll::Exited(_) => {
                mgr.set_process(None);
                mgr.set_status(ServerStatus::Stopped);
                Err(StopOutcome::Stopped)
            },
            ChildPoll::Failed(e) => {
                mgr.set_process(None);
                mgr.set_status(ServerStatus::Error);
                Err(StopOutcome::WaitFailed(e))
            },
            ChildPoll::Running => Ok(StopPause { polls: self.polls + 1 }),
        }
    }
}

impl StopPause {
    #[verifier::type_invariant]
    spec fn within_limit(&self) -> bool {
        1 <= self.polls <= STOP_POLL_LIMIT
    }

    pub closed spec fn polls(&self) -> u32 {
        self.polls
    }

    /// After the pause: poll again, or give up once the limit is reached
    /// and let the process go.
    pub fn resumed(self, mgr: &mut TorrServerManager) -> (r: Result<StopWait, StopOutcome>)
        ensures
            1 <= self.polls() <= STOP_POLL_LIMIT,
            self.polls() == STOP_POLL_LIMIT ==> (r matches Err(StopOutcome::StoppedAfterTimeout)
                && final(mgr)@ == stopped(old(mgr)@)),
            self.polls() < STOP_POLL_LIMIT ==> (r matches Ok(w) && w.polls() == self.polls() && final(mgr)@
                == old(mgr)@),
    {
        proof {
            use_type_invariant(&self);
        }
        if self.polls == STOP_POLL_LIMIT {
            mgr.set_process(None);
            mgr.set_status(ServerStatus::Stopped);
            Err(StopOutcome::StoppedAfterTimeout)
        } else {
            Ok(StopWait { polls: self.polls })
        }
    }
}

} // verus!

verus! {

/// A server that came up is reported running, with its process, whatever
/// answers on the port.
pub proof fn law_started_server_reported_running(m: ManagerView, pid: u32, path: Seq<char>, port_open: bool)
    ensures
        server_running(launched(m, pid, path), port_open),
        !runs_externally(launched(m, pid, path), port_open),
        reported_status(launched(m, pid, path), port_open) == ServerStatus::Running,
        launched(m, pid, path).process == Some(pid),
{
}

/// After a stop the manager tracks nothing: the server counts as running
/// only when something else answers on the port, and its status is
/// reported stopped otherwise.
pub proof fn law_stopped_server_not_reported_running(m: ManagerView, port_open: bool)
    ensures
        stopped(m).process is None,
        server_running(stopped(m), port_open) == port_open,
        !port_open ==> reported_status(stopped(m), port_open) == ServerStatus::Stopped,
        port_open ==> reported_status(stopped(m), port_open) == ServerStatus::Running,
{
}

} // verus!

verus! {

/// The command line TorrServer is started with is always `--port`, the
/// port in decimal digits, `--path`, the data directory, and then the
/// caller's arguments in their order, whatever those arguments are (none
/// included).
pub proof fn law_launch_command_line(port: u16, data_dir: Seq<char>, extra: Seq<String>)
    ensures
        launch_args_spec(port, data_dir, extra).len() == 4 + extra.len(),
        launch_args_spec(port, data_dir, extra)[0] == "--port"@,
        crate::text::all_ascii_digits(launch_args_spec(port, data_dir, extra)[1]),
        launch_args_spec(port, data_dir, extra)[1].len() > 0,
        crate::text::digits_value(launch_args_spec(port, data_dir, extra)[1]) == port,
        launch_args_spec(port, data_dir, extra)[2] == "--path"@,
        launch_args_spec(port, data_dir, extra)[3] == data_dir,
        forall|i: int| 0 <= i < extra.len() ==> #[trigger] launch_args_spec(port, data_dir, extra)[4 + i] == extra[i]@,
{
    crate::backend::torrserver::lemma_decimal_parses(port as nat);
    let a = launch_args_spec(port, data_dir, extra);
    assert forall|i: int| 0 <= i < extra.len() implies #[trigger] a[4 + i] == extra[i]@ by {
        assert(string_views(extra)[i] == extra[i]@);
    }
}

} // verus!
