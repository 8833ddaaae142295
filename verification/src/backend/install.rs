//! Installing, updating and removing TorrServer, as state machines: each
//! state is a type, and each of its methods takes in the result of the work
//! the caller was asked to do and decides what comes next.
use vstd::prelude::*;
use vstd::string::StringExecFns;
use crate::backend::store::AppStore;
use crate::backend::torrserver::{
    has_update_spec, opt_view, string_setting, ManagerView, PlatformInfo, TorrServerManager,
    UpdateCheck,
};
use crate::json::{JsonValue, JsonView};
use crate::services::store::string_views;

verus! {

/// One file of a TorrServer release.
#[derive(Debug)]
pub struct ReleaseAsset {
    pub name: String,
    pub download_url: String,
}

/// The latest TorrServer release, as the release service describes it.
#[derive(Debug)]
pub struct Release {
    pub tag_name: String,
    pub assets: Vec<ReleaseAsset>,
}

/// How a download ended.
#[derive(Debug)]
pub enum DownloadOutcome {
    /// A step failed; the message says which and why.
    Failed(String),
    /// The release has no file for this system; the names of those it has,
    /// separated by `", "`.
    MissingAsset { exe_name: String, available: String },
    /// The executable is in place.
    Downloaded { path: String, version: String },
}

impl DownloadOutcome {
    pub open spec fn is_success(&self) -> bool {
        self is Downloaded
    }

    /// Whether the download succeeded.
    pub fn succeeded(&self) -> (r: bool)
        ensures
            r == self.is_success(),
    {
        matches!(self, DownloadOutcome::Downloaded { .. })
    }
}

/// The names joined by `sep`.
pub open spec fn join_spec(names: Seq<Seq<char>>, sep: Seq<char>) -> Seq<char>
    decreases names.len(),
{
    if names.len() == 0 {
        Seq::empty()
    } else if names.len() == 1 {
        names[0]
    } else {
        join_spec(names.drop_last(), sep) + sep + names.last()
    }
}

/// The names of the assets.
pub open spec fn asset_names(assets: Seq<ReleaseAsset>) -> Seq<Seq<char>> {
    assets.map_values(|a: ReleaseAsset| a.name@)
}

/// `i` is the first asset whose name is `name`.
pub open spec fn is_first_asset_named(assets: Seq<ReleaseAsset>, name: Seq<char>, i: int) -> bool {
    &&& 0 <= i < assets.len()
    &&& assets[i].name@ == name
    &&& forall|j: int| 0 <= j < i ==> #[trigger] assets[j].name@ != name
}

fn asset_names_joined(assets: &Vec<ReleaseAsset>) -> (r: String)
    ensures
        r@ == join_spec(asset_names(assets@), ", "@),
{
    let mut out = String::new();
    let mut i: usize = 0;
    while i < assets.len()
        invariant
            i <= assets@.len(),
            out@ == join_spec(asset_names(assets@).take(i as int), ", "@),
        decreases assets@.len() - i,
    {
        let ghost names = asset_names(assets@);
        proof {
            assert(names.take(i as int + 1).drop_last() =~= names.take(i as int));
            assert(names.take(i as int + 1).last() == assets@[i as int].name@);
        }
        if i > 0 {
            out.append(", ");
        } else {
            proof {
                assert(out@ =~= Seq::<char>::empty());
                assert(names.take(1)[0] == assets@[0].name@);
            }
        }
        out.append(assets[i].name.as_str());
        proof {
            if i == 0 {
                assert(out@ =~= assets@[0].name@);
            }
        }
        i = i + 1;
    }
    proof {
        assert(asset_names(assets@).take(assets@.len() as int) =~= asset_names(assets@));
    }
    out
}

fn find_asset(assets: &Vec<ReleaseAsset>, name: &String) -> (r: Option<usize>)
    ensures
        r matches Some(i) ==> is_first_asset_named(assets@, name@, i as int),
        r is None ==> forall|j: int| 0 <= j < assets@.len() ==> #[trigger] assets@[j].name@ != name@,
{
    let mut i: usize = 0;
    while i < assets.len()
        invariant
            i <= assets@.len(),
            forall|j: int| 0 <= j < i ==> #[trigger] assets@[j].name@ != name@,
        decreases assets@.len() - i,
    {
        if assets[i].name == *name {
            return Some(i);
        }
        i = i + 1;
    }
    None
}

/// A download waiting for the platform: where TorrServer lives here.
pub struct DownloadPlatform {
    version: Option<String>,
}

/// A download waiting for its directories to be created.
pub struct DownloadDirectories {
    version: Option<String>,
    info: PlatformInfo,
}

/// A download waiting for the latest release.
pub struct DownloadRelease {
    version: Option<String>,
    info: PlatformInfo,
}

/// A download waiting for the executable to be fetched from `url` and
/// written to the platform's executable path.
pub struct DownloadTransfer {
    url: String,
    target_version: String,
    info: PlatformInfo,
}

impl TorrServerManager {
    /// Downloads `version` of TorrServer (the latest release's tag when
    /// none).
    pub fn download(&self, version: Option<String>) -> (r: DownloadPlatform)
        ensures
            opt_view(r.requested()) == opt_view(version),
    {
        DownloadPlatform { version }
    }
}

impl DownloadPlatform {
    pub closed spec fn requested(&self) -> Option<String> {
        self.version
    }

    pub fn platform_resolved(self, platform: Result<PlatformInfo, String>) -> (r: Result<
        DownloadDirectories,
        DownloadOutcome,
    >)
        ensures
            match platform {
                Err(e) => r matches Err(DownloadOutcome::Failed(m)) && m@ == e@,
                Ok(info) => r matches Ok(next) && next.info() == info && opt_view(next.requested())
                    == opt_view(self.requested()),
            },
    {
        match platform {
            Err(e) => Err(DownloadOutcome::Failed(e)),
            Ok(info) => Ok(DownloadDirectories { version: self.version, info }),
        }
    }
}

impl DownloadDirectories {
    pub closed spec fn requested(&self) -> Option<String> {
        self.version
    }

    pub closed spec fn info(&self) -> PlatformInfo {
        self.info
    }

    pub fn directories_ensured(self, created: Result<(), String>) -> (r: Result<
        DownloadRelease,
        DownloadOutcome,
    >)
        ensures
            match created {
                Err(e) => r matches Err(DownloadOutcome::Failed(m)) && m@ == e@,
                Ok(_) => r matches Ok(next) && next.info() == self.info() && opt_view(next.requested())
                    == opt_view(self.requested()),
            },
    {
        match created {
            Err(e) => Err(DownloadOutcome::Failed(e)),
            Ok(_) => Ok(DownloadRelease { version: self.version, info: self.info }),
        }
    }
}

impl DownloadRelease {
    pub closed spec fn requested(&self) -> Option<String> {
        self.version
    }

    pub closed spec fn info(&self) -> PlatformInfo {
        self.info
    }

    /// Picks the release file for this system: the first one named like the
    /// platform's executable.
    pub fn release_fetched(self, release: Result<Release, String>) -> (r: Result<
        DownloadTransfer,
        DownloadOutcome,
    >)
        ensures
            match release {
                Err(e) => r matches Err(DownloadOutcome::Failed(m)) && m@ == e@,
                Ok(rel) => {
                    let name = self.info().exe_name@;
                    match r {
                        Ok(next) => {
                            &&& exists|i: int|
                                is_first_asset_named(rel.assets@, name, i) && #[trigger] rel.assets@[i].download_url@
                                    == next.url()@
                            &&& next.info() == self.info()
                            &&& next.target_version()@ == match self.requested() {
                                Some(v) => v@,
                                None => rel.tag_name@,
                            }
                        },
                        Err(DownloadOutcome::MissingAsset { exe_name, available }) => {
                            &&& forall|j: int| 0 <= j < rel.assets@.len() ==> #[trigger] rel.assets@[j].name@ != name
                            &&& exe_name@ == name
                            &&& available@ == join_spec(asset_names(rel.assets@), ", "@)
                        },
                        _ => false,
                    }
                },
            },
    {
        match release {
            Err(e) => Err(DownloadOutcome::Failed(e)),
            Ok(rel) => {
                let target_version = match self.version {
                    Some(v) => v,
                    None => rel.tag_name.clone(),
                };
                match find_asset(&rel.assets, &self.info.exe_name) {
                    Some(i) => {
                        let url = rel.assets[i].download_url.clone();
                        assert(rel.assets@[i as int].download_url@ == url@);
                        Ok(DownloadTransfer { url, target_version, info: self.info })
                    },
                    None => {
                        let available = asset_names_joined(&rel.assets);
                        Err(
                            DownloadOutcome::MissingAsset {
                                exe_name: self.info.exe_name,
                                available,
                            },
                        )
                    },
                }
            },
        }
    }
}

/// The manager after a successful download of `version` to `path`.
pub open spec fn after_download(m: ManagerView, path: Seq<char>, version: Seq<char>) -> ManagerView {
    ManagerView { executable_path: Some(path), current_version: Some(version), ..m }
}

/// The settings after a successful download of `version` to `path`.
pub open spec fn store_after_download(s: Map<Seq<char>, JsonView>, path: Seq<char>, version: Seq<char>) -> Map<
    Seq<char>,
    JsonView,
> {
    s.insert("tsVersion"@, JsonView::Str(version)).insert("tsPath"@, JsonView::Str(path))
}

impl DownloadTransfer {
    pub closed spec fn url(&self) -> String {
        self.url
    }

    pub closed spec fn target_version(&self) -> String {
        self.target_version
    }

    pub closed spec fn info(&self) -> PlatformInfo {
        self.info
    }

    /// The address to fetch the executable from.
    pub fn download_url(&self) -> (r: &String)
        ensures
            r == self.url(),
    {
        &self.url
    }

    /// Takes in whether fetching and writing the executable worked. On
    /// success the version and path are recorded in the settings (which the
    /// caller then writes back) and in the manager.
    pub fn transferred(self, mgr: &mut TorrServerManager, store: &mut AppStore, written: Result<(), String>) -> (r:
        DownloadOutcome)
        ensures
            match written {
                Err(e) => r matches DownloadOutcome::Failed(m) && m@ == e@ && final(mgr)@ == old(mgr)@
                    && final(store)@ == old(store)@,
                Ok(_) => {
                    let path = self.info().save_path@;
                    let version = self.target_version()@;
                    &&& r matches DownloadOutcome::Downloaded { path: p, version: v }
                    &&& p@ == path && v@ == version
                    &&& final(mgr)@ == after_download(old(mgr)@, path, version)
                    &&& final(store)@ == store_after_download(old(store)@, path, version)
                },
            },
    {
        match written {
            Err(e) => DownloadOutcome::Failed(e),
            Ok(_) => {
                store.set("tsVersion".to_owned(), JsonValue::Str(self.target_version.clone()));
                store.set("tsPath".to_owned(), JsonValue::Str(self.info.save_path.clone()));
                mgr.record_download(self.info.save_path.clone(), self.target_version.clone());
                DownloadOutcome::Downloaded {
                    path: self.info.save_path,
                    version: self.target_version,
                }
            },
        }
    }
}

} // verus!

verus! {

/// How an update ended.
#[derive(Debug)]
pub enum UpdateOutcome {
    /// No newer release (or it could not be asked for); the installed
    /// version, if known.
    AlreadyLatest { current: Option<String> },
    /// The download of the newer release ended so.
    Download(DownloadOutcome),
}

/// An update with a newer release: stop TorrServer first if it ran, then
/// download.
pub struct UpdateDownload {
    was_running: bool,
}

impl TorrServerManager {
    /// Updates TorrServer when the update check found a newer release.
    pub fn update(&self, check: UpdateCheck) -> (r: Result<UpdateDownload, UpdateOutcome>)
        ensures
            match check {
                UpdateCheck::Checked { has_update, current, latest: _ } => if has_update {
                    r matches Ok(u) && u.was_running() == self@.process is Some
                } else {
                    r matches Err(UpdateOutcome::AlreadyLatest { current: c }) && opt_view(c) == opt_view(current)
                },
                UpdateCheck::Failed(_) => r matches Err(UpdateOutcome::AlreadyLatest { current: None }),
            },
    {
        match check {
            UpdateCheck::Checked { has_update, current, latest: _ } => {
                if has_update {
                    Ok(UpdateDownload { was_running: self.tracked_pid().is_some() })
                } else {
                    Err(UpdateOutcome::AlreadyLatest { current })
                }
            },
            UpdateCheck::Failed(_) => Err(UpdateOutcome::AlreadyLatest { current: None }),
        }
    }
}

impl UpdateDownload {
    pub closed spec fn was_running(&self) -> bool {
        self.was_running
    }

    /// Whether TorrServer is to be stopped before the download.
    pub fn stops_first(&self) -> (r: bool)
        ensures
            r == self.was_running(),
    {
        self.was_running
    }

    /// Takes in how the download ended. The second result says whether to
    /// start TorrServer again: when it ran before and the download worked.
    pub fn downloaded(self, outcome: DownloadOutcome) -> (r: (UpdateOutcome, bool))
        ensures
            r.1 == (outcome.is_success() && self.was_running()),
            r.0 == UpdateOutcome::Download(outcome),
    {
        let restart = outcome.succeeded() && self.was_running;
        (UpdateOutcome::Download(outcome), restart)
    }
}

/// What removing one file or directory found.
#[derive(Debug)]
pub enum Removal {
    /// It was not there.
    Absent,
    /// It was there and is gone.
    Removed,
    /// It was there and removing it failed; the error, as text.
    Failed(String),
}

/// How an uninstall ended.
#[derive(Debug)]
pub enum UninstallOutcome {
    /// The platform could not be found.
    Failed(String),
    /// The executable could not be removed.
    BinaryRemovalFailed(String),
    /// The data directory could not be removed.
    DataRemovalFailed(String),
    /// TorrServer is gone; the paths removed, whether the data was kept, and
    /// whether the settings changed (and are to be written back).
    Removed { deleted_items: Vec<String>, keep_data: bool, store_changed: bool },
}

/// An uninstall waiting for the platform.
pub struct UninstallPlatform {
    keep_data: bool,
}

/// An uninstall waiting for the executable to be removed.
pub struct UninstallBinary {
    keep_data: bool,
    info: PlatformInfo,
}

/// An uninstall waiting for the data directory to be removed.
pub struct UninstallData {
    info: PlatformInfo,
    deleted: Vec<String>,
}

/// An uninstall waiting for TorrServer's directory to be removed.
pub struct UninstallDir {
    info: PlatformInfo,
    deleted: Vec<String>,
}

/// An uninstall with the files gone, waiting to clear the settings.
pub struct UninstallFinish {
    keep_data: bool,
    deleted: Vec<String>,
}

/// What follows the removal of the executable.
pub enum UninstallCleanup {
    /// The data is kept: nothing more is removed.
    KeepData(UninstallFinish),
    /// The data directory and TorrServer's directory go too.
    RemoveData(UninstallData),
}

impl TorrServerManager {
    /// Removes TorrServer (once it was asked to stop), keeping its data
    /// when `keep_data`.
    pub fn uninstall(&self, keep_data: bool) -> (r: UninstallPlatform)
        ensures
            r.keep_data() == keep_data,
    {
        UninstallPlatform { keep_data }
    }
}

impl UninstallPlatform {
    pub closed spec fn keep_data(&self) -> bool {
        self.keep_data
    }

    pub fn platform_resolved(self, platform: Result<PlatformInfo, String>) -> (r: Result<
        UninstallBinary,
        UninstallOutcome,
    >)
        ensures
            match platform {
                Err(e) => (r matches Err(UninstallOutcome::Failed(m)) && m@ == e@),
                Ok(info) => (r matches Ok(next) && next.info() == info && next.keep_data() == self.keep_data()),
            },
    {
        match platform {
            Err(e) => Err(UninstallOutcome::Failed(e)),
            Ok(info) => Ok(UninstallBinary { keep_data: self.keep_data, info }),
        }
    }
}

impl UninstallBinary {
    pub closed spec fn keep_data(&self) -> bool {
        self.keep_data
    }

    pub closed spec fn info(&self) -> PlatformInfo {
        self.info
    }

    /// Takes in what removing the executable found.
    pub fn binary_removed(self, removal: Removal) -> (r: Result<UninstallCleanup, UninstallOutcome>)
        ensures
            match removal {
                Removal::Failed(e) => (r matches Err(UninstallOutcome::BinaryRemovalFailed(m)) && m@ == e@),
                _ => {
                    let deleted = if removal is Removed {
                        seq![self.info().save_path@]
                    } else {
                        Seq::empty()
                    };
                    if self.keep_data() {
                        r matches Ok(UninstallCleanup::KeepData(f)) && f.keep_data() && string_views(f.deleted())
                            == deleted
                    } else {
                        r matches Ok(UninstallCleanup::RemoveData(d)) && d.info() == self.info()
                            && string_views(d.deleted()) == deleted
                    }
                },
            },
    {
        let mut deleted: Vec<String> = Vec::new();
        match removal {
            Removal::Failed(e) => {
                return Err(UninstallOutcome::BinaryRemovalFailed(e));
            },
            Removal::Removed => {
                deleted.push(self.info.save_path.clone());
                proof {
                    assert(string_views(deleted@) =~= seq![self.info.save_path@]);
                }
            },
            Removal::Absent => {
                proof {
                    assert(string_views(deleted@) =~= Seq::<Seq<char>>::empty());
                }
            },
        }
        if self.keep_data {
            Ok(UninstallCleanup::KeepData(UninstallFinish { keep_data: true, deleted }))
        } else {
            Ok(UninstallCleanup::RemoveData(UninstallData { info: self.info, deleted }))
        }
    }
}

impl UninstallData {
    pub closed spec fn info(&self) -> PlatformInfo {
        self.info
    }

    pub closed spec fn deleted(&self) -> Seq<String> {
        self.deleted@
    }

    /// Takes in what removing the data directory found.
    pub fn data_removed(self, removal: Removal) -> (r: Result<UninstallDir, UninstallOutcome>)
        ensures
            match removal {
                Removal::Failed(e) => (r matches Err(UninstallOutcome::DataRemovalFailed(m)) && m@ == e@),
                Removal::Removed => (r matches Ok(next) && next.info() == self.info() && string_views(
                    next.deleted(),
                ) == string_views(self.deleted()).push(self.info().data_dir@)),
                Removal::Absent => (r matches Ok(next) && next.info() == self.info() && string_views(
                    next.deleted(),
                ) == string_views(self.deleted())),
            },
    {
        let mut deleted = self.deleted;
        match removal {
            Removal::Failed(e) => Err(UninstallOutcome::DataRemovalFailed(e)),
            Removal::Removed => {
                let ghost before = deleted@;
                deleted.push(self.info.data_dir.clone());
                proof {
                    assert(string_views(deleted@) =~= string_views(before).push(self.info.data_dir@));
                }
                Ok(UninstallDir { info: self.info, deleted })
            },
            Removal::Absent => Ok(UninstallDir { info: self.info, deleted }),
        }
    }
}

impl UninstallDir {
    pub closed spec fn info(&self) -> PlatformInfo {
        self.info
    }

    pub closed spec fn deleted(&self) -> Seq<String> {
        self.deleted@
    }

    /// Takes in what removing TorrServer's directory found; a failure to
    /// remove it is let pass.
    pub fn dir_removed(self, removal: Removal) -> (r: UninstallFinish)
        ensures
            !r.keep_data(),
            removal is Absent ==> string_views(r.deleted()) == string_views(self.deleted()),
            !(removal is Absent) ==> string_views(r.deleted()) == string_views(self.deleted()).push(
                self.info().save_dir@,
            ),
    {
        let mut deleted = self.deleted;
        match removal {
            Removal::Absent => {},
            _ => {
                let ghost before = deleted@;
                deleted.push(self.info.save_dir.clone());
                proof {
                    assert(string_views(deleted@) =~= string_views(before).push(self.info.save_dir@));
                }
            },
        }
        UninstallFinish { keep_data: false, deleted }
    }
}

impl UninstallFinish {
    pub closed spec fn keep_data(&self) -> bool {
        self.keep_data
    }

    pub closed spec fn deleted(&self) -> Seq<String> {
        self.deleted@
    }

    /// Forgets the installed version and path, in the settings and in the
    /// manager.
    pub fn finish(self, mgr: &mut TorrServerManager, store: &mut AppStore) -> (r: UninstallOutcome)
        ensures
            r matches UninstallOutcome::Removed { deleted_items, keep_data, store_changed }
                && deleted_items@ == self.deleted() && keep_data == self.keep_data() && store_changed == (
            old(store)@.contains_key("tsVersion"@) || old(store)@.contains_key("tsPath"@)),
            final(store)@ == old(store)@.remove("tsVersion"@).remove("tsPath"@),
            final(mgr)@ == (ManagerView {
                executable_path: None,
                current_version: None,
                status: crate::backend::torrserver::ServerStatus::Stopped,
                ..old(mgr)@
            }),
    {
        let had_version = store.delete("tsVersion");
        let had_path = store.delete("tsPath");
        proof {
            reveal_strlit("tsVersion");
            reveal_strlit("tsPath");
            assert("tsVersion"@ != "tsPath"@) by {
                assert("tsVersion"@.len() != "tsPath"@.len());
            }
        }
        mgr.forget_installation();
        UninstallOutcome::Removed {
            deleted_items: self.deleted,
            keep_data: self.keep_data,
            store_changed: had_version || had_path,
        }
    }
}

} // verus!

verus! {

/// After a successful download the settings name the downloaded version
/// and path, so TorrServer reads as installed (once its executable is in
/// place) at that version.
pub proof fn law_download_is_recorded(store: Map<Seq<char>, JsonView>, path: Seq<char>, version: Seq<char>)
    ensures
        string_setting(store_after_download(store, path, version), "tsVersion"@) == Some(version),
        string_setting(store_after_download(store, path, version), "tsPath"@) == Some(path),
{
    reveal_strlit("tsVersion");
    reveal_strlit("tsPath");
    assert("tsVersion"@.len() != "tsPath"@.len());
}

/// After an uninstall no version or path is recorded, so TorrServer no
/// longer reads as installed.
pub proof fn law_uninstall_forgets_installation(store: Map<Seq<char>, JsonView>)
    ensures
        string_setting(store.remove("tsVersion"@).remove("tsPath"@), "tsVersion"@) is None,
        string_setting(store.remove("tsVersion"@).remove("tsPath"@), "tsPath"@) is None,
{
}

} // verus!
