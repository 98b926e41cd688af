//! Configuring an update attempt and taking it through its stages.
//!
//! The engine performs no effect itself. Its caller holds an
//! [`UpdateSession`], reports an [`Event`] with [`UpdateSession::step`], and
//! performs the [`Action`] that comes back, until that action is
//! `Action::Finish`.

use vstd::prelude::*;
use vstd::string::*;
use crate::archive::{extract_executable, payload_view};
use crate::error::{ErrorKind, UpdateError};
use crate::protocol::{
    archive_path_of, archive_read, asset_stored, begin, connectivity_known, decision_taken,
    is_terminal, next, persisted, phase_of, release_described, release_unreachable, renamed,
    staged, state_created, swap_goes_on, Action, ActionView, Event, Phase, SessionView, Stage,
    StageView,
};
use crate::release::{
    latest_release_url, needs_update, parse_release, ReleaseDescriptor, USER_AGENT,
};
use crate::swap::{
    progress_in, SwapAction, SwapPlan, SwapProgress, Swapper, CACHE_DIR, STAGING_DIR,
};
use crate::utility::{
    asset_suffix_for, get_version, option_view, set_version, AssetMap, OsType, StoreModel,
    Version, VersionStore,
};

verus! {

/// Collects what an update attempt needs to know: whose repository holds
/// the releases and which archive belongs to which platform.
#[derive(Debug, PartialEq, Eq)]
pub struct UpdateBuilder {
    pub verbose: bool,
    pub github_user: Option<String>,
    pub github_repo: Option<String>,
    pub binary_map: AssetMap,
}

/// The mathematical value of an [`UpdateBuilder`].
pub ghost struct BuilderView {
    pub verbose: bool,
    pub github_user: Option<Seq<char>>,
    pub github_repo: Option<Seq<char>>,
    pub binary_map: Map<OsType, Seq<char>>,
}

impl View for UpdateBuilder {
    type V = BuilderView;

    open spec fn view(&self) -> BuilderView {
        BuilderView {
            verbose: self.verbose,
            github_user: option_view(self.github_user),
            github_repo: option_view(self.github_repo),
            binary_map: self.binary_map@,
        }
    }
}

impl Default for UpdateBuilder {
    /// A builder that names no repository and no archive, and is silent.
    fn default() -> (builder: UpdateBuilder)
        ensures
            builder@ == (BuilderView {
                verbose: false,
                github_user: None,
                github_repo: None,
                binary_map: Map::empty(),
            }),
    {
        UpdateBuilder {
            verbose: false,
            github_user: None,
            github_repo: None,
            binary_map: AssetMap::new(),
        }
    }
}

/// The attempt that starts from what `builder` holds, on `platform`, with
/// the state file as `store` describes it. Meaningful where the builder
/// names its repository.
pub open spec fn initial_session(
    builder: BuilderView,
    platform: OsType,
    store: StoreModel,
) -> SessionView {
    SessionView {
        owner: builder.github_user.unwrap(),
        repo: builder.github_repo.unwrap(),
        assets: builder.binary_map,
        platform,
        verbose: builder.verbose,
        store,
        stage: StageView::Idle,
    }
}

impl UpdateBuilder {
    /// A builder that names no repository and no archive yet, and lets the
    /// caller show its output.
    pub fn new() -> (builder: UpdateBuilder)
        ensures
            builder@ == (BuilderView {
                verbose: true,
                github_user: None,
                github_repo: None,
                binary_map: Map::empty(),
            }),
    {
        UpdateBuilder {
            verbose: true,
            github_user: None,
            github_repo: None,
            binary_map: AssetMap::new(),
        }
    }

    /// Sets whether the caller shows output.
    pub fn set_verbose(self, value: bool) -> (builder: UpdateBuilder)
        ensures
            builder@ == (BuilderView { verbose: value, ..self@ }),
    {
        let mut builder = self;
        builder.verbose = value;
        builder
    }

    /// Sets the owner of the repository.
    pub fn set_github_user(self, username: &str) -> (builder: UpdateBuilder)
        ensures
            builder@ == (BuilderView { github_user: Some(username@), ..self@ }),
    {
        let mut builder = self;
        builder.github_user = Some(username.to_owned());
        builder
    }

    /// Sets the name of the repository, which its owner must hold in public.
    pub fn set_github_repo(self, name: &str) -> (builder: UpdateBuilder)
        ensures
            builder@ == (BuilderView { github_repo: Some(name@), ..self@ }),
    {
        let mut builder = self;
        builder.github_repo = Some(name.to_owned());
        builder
    }

    /// Sets the archive-name suffix of `os`, in place of an earlier one. A
    /// platform without a suffix cannot be updated.
    pub fn set_binary_path(self, os: OsType, path: &str) -> (builder: UpdateBuilder)
        ensures
            builder@ == (BuilderView { binary_map: self@.binary_map.insert(os, path@), ..self@ }),
    {
        let mut builder = self;
        builder.binary_map.insert(os, path);
        builder
    }

    /// Starts an attempt to install the latest release on `platform`, with
    /// the state file as `store` describes it. The attempt is idle until
    /// `Event::Begin` is reported to it.
    pub fn check_for_updates(self, platform: OsType, store: VersionStore) -> (session:
        UpdateSession)
        requires
            self@.github_user is Some,
            self@.github_repo is Some,
        ensures
            session@ == initial_session(self@, platform, store@),
    {
        let UpdateBuilder { verbose, github_user, github_repo, binary_map } = self;
        UpdateSession {
            config: Config {
                owner: github_user.unwrap(),
                repo: github_repo.unwrap(),
                assets: binary_map,
                platform,
                verbose,
            },
            store,
            stage: Stage::Idle,
        }
    }
}

/// What an attempt was configured with; it never changes.
#[derive(Debug, PartialEq, Eq)]
pub struct Config {
    pub owner: String,
    pub repo: String,
    pub assets: AssetMap,
    pub platform: OsType,
    pub verbose: bool,
}

/// An update attempt: its configuration, the state file as far as it is
/// known, and the stage that the attempt has reached.
#[derive(Debug, PartialEq, Eq)]
pub struct UpdateSession {
    pub config: Config,
    pub store: VersionStore,
    pub stage: Stage,
}

/// The attempt with the given configuration, state file and stage.
pub open spec fn assemble(config: Config, store: VersionStore, stage: StageView) -> SessionView {
    SessionView {
        owner: config.owner@,
        repo: config.repo@,
        assets: config.assets@,
        platform: config.platform,
        verbose: config.verbose,
        store: store@,
        stage,
    }
}

impl View for UpdateSession {
    type V = SessionView;

    open spec fn view(&self) -> SessionView {
        assemble(self.config, self.store, self.stage@)
    }
}

/// The path at which the archive of `repo` is stored.
pub fn archive_path(repo: &str) -> (path: String)
    ensures
        path@ == archive_path_of(repo@),
{
    let mut path = "version-tmp/".to_owned();
    path.append(repo);
    path.append(".zip");
    path
}

/// The attempt ends with `error`.
fn fail(config: Config, store: VersionStore, error: UpdateError, discard: Option<String>) -> (r: (
    UpdateSession,
    Action,
))
    ensures
        r.0@ == assemble(config, store, StageView::Failed { error: error@ }),
        r.1@ == (ActionView::Finish { discard: option_view(discard) }),
{
    (UpdateSession { config, store, stage: Stage::Failed { error } }, Action::Finish { discard })
}

/// The attempt rests in `stage`: the report was not the one waited for.
fn rest(config: Config, store: VersionStore, stage: Stage) -> (r: (UpdateSession, Action))
    ensures
        r.0@ == assemble(config, store, stage@),
        r.1@ == ActionView::Wait,
{
    (UpdateSession { config, store, stage }, Action::Wait)
}

/// The attempt starts: the installed version is loaded.
fn on_begin(config: Config, store: VersionStore) -> (r: (UpdateSession, Action))
    ensures
        (r.0@, r.1@) == begin(assemble(config, store, StageView::Idle)),
{
    if store.is_absent() {
        let record = Version::default();
        (UpdateSession { config, store, stage: Stage::CreatingState }, Action::WriteState { record })
    } else {
        let mut store = store;
        match get_version(&mut store) {
            Ok(local) => (
                UpdateSession { config, store, stage: Stage::CheckingConnectivity { local } },
                Action::CheckConnectivity,
            ),
            Err(error) => fail(config, store, error, None),
        }
    }
}

/// The missing state file was to be created.
fn on_state_created(config: Config, store: VersionStore, ok: bool) -> (r: (UpdateSession, Action))
    ensures
        (r.0@, r.1@) == state_created(assemble(config, store, StageView::CreatingState), ok),
{
    if ok {
        let mut store = store;
        let loaded = get_version(&mut store);
        match loaded {
            Ok(local) => (
                UpdateSession { config, store, stage: Stage::CheckingConnectivity { local } },
                Action::CheckConnectivity,
            ),
            Err(error) => fail(config, store, error, None),
        }
    } else {
        fail(config, store, UpdateError::bare(ErrorKind::PersistenceFailed), None)
    }
}

/// The network was probed.
fn on_connectivity(config: Config, store: VersionStore, local: Version, reachable: bool) -> (r: (
    UpdateSession,
    Action,
))
    ensures
        (r.0@, r.1@) == connectivity_known(
            assemble(config, store, StageView::CheckingConnectivity { local: local@ }),
            local@,
            reachable,
        ),
{
    if reachable {
        let url = latest_release_url(config.owner.as_str(), config.repo.as_str());
        (
            UpdateSession { config, store, stage: Stage::ResolvingRelease { local } },
            Action::FetchRelease { url, user_agent: USER_AGENT.to_owned() },
        )
    } else if local.id == 0 {
        fail(config, store, UpdateError::bare(ErrorKind::InitialInstallRequiresNetwork), None)
    } else {
        (
            UpdateSession { config, store, stage: Stage::AwaitingDecision { local } },
            Action::AskOfflineContinue,
        )
    }
}

/// The user decided whether to go on without a network.
fn on_decision(config: Config, store: VersionStore, local: Version, proceed: bool) -> (r: (
    UpdateSession,
    Action,
))
    ensures
        (r.0@, r.1@) == decision_taken(
            assemble(config, store, StageView::AwaitingDecision { local: local@ }),
            local@,
            proceed,
        ),
{
    if proceed {
        (
            UpdateSession { config, store, stage: Stage::UpToDate { local, offline: true } },
            Action::Finish { discard: None },
        )
    } else {
        fail(config, store, UpdateError::bare(ErrorKind::UserAborted), None)
    }
}

/// The remote host gave no description of the latest release.
fn on_release_unreachable(config: Config, store: VersionStore) -> (r: (UpdateSession, Action))
    ensures
        forall|stage: StageView|
            (r.0@, r.1@) == #[trigger] release_unreachable(assemble(config, store, stage)),
{
    let url = latest_release_url(config.owner.as_str(), config.repo.as_str());
    let error = UpdateError::about(ErrorKind::RemoteUnavailable, url.as_str());
    fail(config, store, error, None)
}

/// The remote host described the latest release.
fn on_release(config: Config, store: VersionStore, local: Version, status: u16, body: String) -> (r:
    (UpdateSession, Action))
    ensures
        (r.0@, r.1@) == release_described(
            assemble(config, store, StageView::ResolvingRelease { local: local@ }),
            local@,
            status,
            body@,
        ),
{
    if status != 200 {
        let ghost waiting = StageView::ResolvingRelease { local: local@ };
        let r = on_release_unreachable(config, store);
        assert((r.0@, r.1@) == release_unreachable(assemble(config, store, waiting)));
        return r;
    }
    match parse_release(config.owner.as_str(), config.repo.as_str(), body.as_str()) {
        Err(error) => fail(config, store, error, None),
        Ok(release) => {
            if !needs_update(&local, &release) {
                return (
                    UpdateSession { config, store, stage: Stage::UpToDate { local, offline: false } },
                    Action::Finish { discard: None },
                );
            }
            let url = match asset_suffix_for(config.platform, &config.assets) {
                Some(suffix) => Some(release.asset_url(suffix.as_str())),
                None => None,
            };
            match url {
                None => fail(
                    config,
                    store,
                    UpdateError::bare(ErrorKind::UnsupportedPlatform),
                    None,
                ),
                Some(url) => {
                    let action = Action::Download {
                        url: url.clone(),
                        archive_path: archive_path(config.repo.as_str()),
                        staging_dir: STAGING_DIR.to_owned(),
                        cache_dir: CACHE_DIR.to_owned(),
                    };
                    (
                        UpdateSession {
                            config,
                            store,
                            stage: Stage::Downloading { local, release, url },
                        },
                        action,
                    )
                },
            }
        },
    }
}

/// The remote host answered the request for the archive, or did not.
fn on_asset(
    config: Config,
    store: VersionStore,
    local: Version,
    release: ReleaseDescriptor,
    url: String,
    status: Option<u16>,
) -> (r: (UpdateSession, Action))
    ensures
        (r.0@, r.1@) == asset_stored(
            assemble(
                config,
                store,
                StageView::Downloading { local: local@, release: release@, url: url@ },
            ),
            local@,
            release@,
            url@,
            status,
        ),
{
    let archive = archive_path(config.repo.as_str());
    let stored = match status {
        Some(code) => code == 200,
        None => false,
    };
    if stored {
        (
            UpdateSession { config, store, stage: Stage::ReadingArchive { local, release } },
            Action::ReadArchive { archive_path: archive },
        )
    } else {
        let error = UpdateError::about(ErrorKind::AssetUnavailable, url.as_str());
        fail(config, store, error, Some(archive))
    }
}

/// The archive was read, or could not be.
fn on_archive(
    config: Config,
    store: VersionStore,
    local: Version,
    release: ReleaseDescriptor,
    bytes: Option<Vec<u8>>,
) -> (r: (UpdateSession, Action))
    ensures
        (r.0@, r.1@) == archive_read(
            assemble(config, store, StageView::ReadingArchive { local: local@, release: release@ }),
            local@,
            release@,
            payload_view(bytes),
        ),
{
    let archive = archive_path(config.repo.as_str());
    let extracted = match bytes {
        Some(bytes) => extract_executable(bytes.as_slice()),
        None => Err(UpdateError::bare(ErrorKind::CorruptArchive)),
    };
    match extracted {
        Err(error) => fail(config, store, error, Some(archive)),
        Ok(payload) => match SwapPlan::new(config.platform, config.repo.as_str()) {
            Err(error) => fail(config, store, error, Some(archive)),
            Ok(plan) => {
                let action = Action::StageExecutable {
                    name: plan.staged_name.clone(),
                    payload,
                    mark_executable: plan.mark_executable,
                };
                (UpdateSession { config, store, stage: Stage::Staging { local, release, plan } }, action)
            },
        },
    }
}

/// The attempt goes where `swapper` has come to.
fn follow_swap(
    config: Config,
    store: VersionStore,
    local: Version,
    release: ReleaseDescriptor,
    swapper: Swapper,
    progress: SwapProgress,
) -> (r: (UpdateSession, Action))
    requires
        progress@ == progress_in(swapper@.plan, swapper@.phase),
    ensures
        forall|stage: StageView|
            (r.0@, r.1@) == #[trigger] swap_goes_on(
                assemble(config, store, stage),
                local@,
                release@,
                swapper@,
            ),
{
    match progress {
        SwapProgress::Continue(rename) => {
            let action = match rename {
                SwapAction::CacheOut { rollback_path } => Action::CacheOut { rollback_path },
                SwapAction::Promote { staged_name } => Action::Promote { staged_name },
            };
            (UpdateSession { config, store, stage: Stage::Swapping { local, release, swapper } }, action)
        },
        SwapProgress::Completed => {
            let record = release.installed_version();
            (
                UpdateSession { config, store, stage: Stage::Persisting { local, release } },
                Action::WriteState { record },
            )
        },
        SwapProgress::Failed(error) => {
            let archive = archive_path(config.repo.as_str());
            fail(config, store, error, Some(archive))
        },
    }
}

/// The executable was staged, or could not be.
fn on_staged(
    config: Config,
    store: VersionStore,
    local: Version,
    release: ReleaseDescriptor,
    plan: SwapPlan,
    ok: bool,
) -> (r: (UpdateSession, Action))
    ensures
        (r.0@, r.1@) == staged(
            assemble(
                config,
                store,
                StageView::Staging { local: local@, release: release@, plan: plan@ },
            ),
            local@,
            release@,
            plan@,
            ok,
        ),
{
    if ok {
        let ghost waiting = StageView::Staging { local: local@, release: release@, plan: plan@ };
        let swapper = Swapper::new(plan);
        let progress = swapper.progress();
        let r = follow_swap(config, store, local, release, swapper, progress);
        assert((r.0@, r.1@) == swap_goes_on(
            assemble(config, store, waiting),
            local@,
            release@,
            swapper@,
        ));
        r
    } else {
        let archive = archive_path(config.repo.as_str());
        let error = UpdateError::about(ErrorKind::PersistenceFailed, plan.staged_name.as_str());
        fail(config, store, error, Some(archive))
    }
}

/// A rename of the swap was reported.
fn on_renamed(
    config: Config,
    store: VersionStore,
    local: Version,
    release: ReleaseDescriptor,
    swapper: Swapper,
    ok: bool,
) -> (r: (UpdateSession, Action))
    ensures
        (r.0@, r.1@) == renamed(
            assemble(
                config,
                store,
                StageView::Swapping { local: local@, release: release@, swapper: swapper@ },
            ),
            local@,
            release@,
            swapper@,
            ok,
        ),
{
    let ghost waiting = StageView::Swapping {
        local: local@,
        release: release@,
        swapper: swapper@,
    };
    let mut swapper = swapper;
    let progress = swapper.advance(ok);
    let r = follow_swap(config, store, local, release, swapper, progress);
    assert((r.0@, r.1@) == swap_goes_on(
        assemble(config, store, waiting),
        local@,
        release@,
        swapper@,
    ));
    r
}

/// The new record was written, or could not be.
fn on_persisted(
    config: Config,
    store: VersionStore,
    local: Version,
    release: ReleaseDescriptor,
    ok: bool,
) -> (r: (UpdateSession, Action))
    ensures
        (r.0@, r.1@) == persisted(
            assemble(config, store, StageView::Persisting { local: local@, release: release@ }),
            local@,
            release@,
            ok,
        ),
{
    let archive = archive_path(config.repo.as_str());
    if ok {
        let mut store = store;
        set_version(&mut store, release.installed_version());
        let installed = release.installed_version();
        (
            UpdateSession { config, store, stage: Stage::Committed { previous: local, installed } },
            Action::Finish { discard: Some(archive) },
        )
    } else {
        fail(config, store, UpdateError::bare(ErrorKind::PersistenceFailed), Some(archive))
    }
}

impl UpdateSession {
    /// Takes the report `event` and says what to do next. The attempt moves
    /// as [`next`] defines; a report that the current stage does not wait
    /// for leaves the attempt as it is and asks for nothing.
    pub fn step(self, event: Event) -> (r: (UpdateSession, Action))
        ensures
            (r.0@, r.1@) == next(self@, event@),
    {
        let UpdateSession { config, store, stage } = self;
        match stage {
            Stage::Idle => match event {
                Event::Begin => on_begin(config, store),
                _ => rest(config, store, Stage::Idle),
            },
            Stage::CreatingState => match event {
                Event::Done => on_state_created(config, store, true),
                Event::Failed => on_state_created(config, store, false),
                _ => rest(config, store, Stage::CreatingState),
            },
            Stage::CheckingConnectivity { local } => match event {
                Event::Connectivity { reachable } => on_connectivity(config, store, local, reachable),
                _ => rest(config, store, Stage::CheckingConnectivity { local }),
            },
            Stage::AwaitingDecision { local } => match event {
                Event::OfflineDecision { proceed } => on_decision(config, store, local, proceed),
                _ => rest(config, store, Stage::AwaitingDecision { local }),
            },
            Stage::ResolvingRelease { local } => match event {
                Event::ReleaseResponse { status, body } => on_release(
                    config,
                    store,
                    local,
                    status,
                    body,
                ),
                Event::Failed => on_release_unreachable(config, store),
                _ => rest(config, store, Stage::ResolvingRelease { local }),
            },
            Stage::Downloading { local, release, url } => match event {
                Event::AssetStored { status } => on_asset(
                    config,
                    store,
                    local,
                    release,
                    url,
                    Some(status),
                ),
                Event::Failed => on_asset(config, store, local, release, url, None),
                _ => rest(config, store, Stage::Downloading { local, release, url }),
            },
            Stage::ReadingArchive { local, release } => match event {
                Event::ArchiveRead { bytes } => on_archive(config, store, local, release, Some(bytes)),
                Event::Failed => on_archive(config, store, local, release, None),
                _ => rest(config, store, Stage::ReadingArchive { local, release }),
            },
            Stage::Staging { local, release, plan } => match event {
                Event::Done => on_staged(config, store, local, release, plan, true),
                Event::Failed => on_staged(config, store, local, release, plan, false),
                _ => rest(config, store, Stage::Staging { local, release, plan }),
            },
            Stage::Swapping { local, release, swapper } => match event {
                Event::Done => on_renamed(config, store, local, release, swapper, true),
                Event::Failed => on_renamed(config, store, local, release, swapper, false),
                _ => rest(config, store, Stage::Swapping { local, release, swapper }),
            },
            Stage::Persisting { local, release } => match event {
                Event::Done => on_persisted(config, store, local, release, true),
                Event::Failed => on_persisted(config, store, local, release, false),
                _ => rest(config, store, Stage::Persisting { local, release }),
            },
            Stage::UpToDate { local, offline } => rest(
                config,
                store,
                Stage::UpToDate { local, offline },
            ),
            Stage::Committed { previous, installed } => rest(
                config,
                store,
                Stage::Committed { previous, installed },
            ),
            Stage::Failed { error } => rest(config, store, Stage::Failed { error }),
        }
    }

    /// The state that this attempt is in.
    pub fn phase(&self) -> (phase: Phase)
        ensures
            phase == phase_of(self@.stage),
    {
        match &self.stage {
            Stage::Idle | Stage::CreatingState => Phase::Idle,
            Stage::CheckingConnectivity { .. } | Stage::AwaitingDecision { .. } =>
                Phase::CheckingConnectivity,
            Stage::ResolvingRelease { .. } => Phase::ResolvingRelease,
            Stage::Downloading { .. } => Phase::Downloading,
            Stage::ReadingArchive { .. } | Stage::Staging { .. } => Phase::Extracting,
            Stage::Swapping { .. } | Stage::Persisting { .. } => Phase::Swapping,
            Stage::UpToDate { .. } => Phase::UpToDate,
            Stage::Committed { .. } => Phase::Committed,
            Stage::Failed { .. } => Phase::Failed,
        }
    }

    /// Whether this attempt is over.
    pub fn is_finished(&self) -> (finished: bool)
        ensures
            finished == is_terminal(self@.stage),
    {
        match &self.stage {
            Stage::UpToDate { .. } | Stage::Committed { .. } | Stage::Failed { .. } => true,
            _ => false,
        }
    }
}

} // verus!
