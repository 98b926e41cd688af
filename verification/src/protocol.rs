//! The protocol of an update attempt: what the engine asks its caller to do,
//! what the caller reports back, and the state that an attempt is in.
//!
//! The transition function [`next`] is the definition of the engine. It is
//! total: a report that the current stage does not wait for changes nothing
//! and asks for nothing.

use vstd::prelude::*;
use crate::archive::executable_in;
use crate::error::{ErrorKind, ErrorView, UpdateError};
use crate::release::{
    described_release, installed_record, latest_release_address, ReleaseDescriptor, ReleaseView,
    USER_AGENT,
};
use crate::swap::{
    phase_after, plan_of, progress_in, SwapActionView, SwapPhase, SwapPlan, SwapPlanView,
    SwapProgressView, Swapper, SwapperView, CACHE_DIR, STAGING_DIR,
};
use crate::utility::{
    loaded_version, option_view, store_after_load, store_after_save, suffix_for, OsType,
    StoreModel, Version, VersionView,
};

verus! {

/// What the caller reports to the engine.
#[derive(Debug, PartialEq, Eq)]
pub enum Event {
    /// The attempt may start.
    Begin,
    /// Whether the network can be reached.
    Connectivity { reachable: bool },
    /// Whether the user wants to go on without a network.
    OfflineDecision { proceed: bool },
    /// The remote host answered the request for the latest release.
    ReleaseResponse { status: u16, body: String },
    /// The remote host answered the request for the archive; on status 200
    /// the body lies at the archive path.
    AssetStored { status: u16 },
    /// The bytes of the archive file.
    ArchiveRead { bytes: Vec<u8> },
    /// The action asked for was carried out.
    Done,
    /// The action asked for could not be carried out.
    Failed,
}

/// The mathematical value of an [`Event`].
pub ghost enum EventView {
    Begin,
    Connectivity { reachable: bool },
    OfflineDecision { proceed: bool },
    ReleaseResponse { status: u16, body: Seq<char> },
    AssetStored { status: u16 },
    ArchiveRead { bytes: Seq<u8> },
    Done,
    Failed,
}

impl View for Event {
    type V = EventView;

    open spec fn view(&self) -> EventView {
        match self {
            Event::Begin => EventView::Begin,
            Event::Connectivity { reachable } => EventView::Connectivity { reachable: *reachable },
            Event::OfflineDecision { proceed } => EventView::OfflineDecision { proceed: *proceed },
            Event::ReleaseResponse { status, body } => EventView::ReleaseResponse {
                status: *status,
                body: body@,
            },
            Event::AssetStored { status } => EventView::AssetStored { status: *status },
            Event::ArchiveRead { bytes } => EventView::ArchiveRead { bytes: bytes@ },
            Event::Done => EventView::Done,
            Event::Failed => EventView::Failed,
        }
    }
}

/// What the engine asks its caller to do next.
#[derive(Debug, PartialEq, Eq)]
pub enum Action {
    /// Nothing: the report was not the one waited for, or the attempt is
    /// over.
    Wait,
    /// Write `record` to the state file, replacing what it holds, so that
    /// the file is never left half-written. Report `Done` or `Failed`.
    WriteState { record: Version },
    /// Find out whether the network can be reached. Report `Connectivity`.
    CheckConnectivity,
    /// Ask the user whether to go on without a network. Report
    /// `OfflineDecision`.
    AskOfflineContinue,
    /// Request `url` with `user_agent` as the header that names the client.
    /// Report `ReleaseResponse`, or `Failed` where no answer came.
    FetchRelease { url: String, user_agent: String },
    /// Create the two directories where they are missing, request `url` and
    /// store the body at `archive_path`. Report `AssetStored`, or `Failed`.
    Download { url: String, archive_path: String, staging_dir: String, cache_dir: String },
    /// Read the file at `archive_path`. Report `ArchiveRead`, or `Failed`.
    ReadArchive { archive_path: String },
    /// Write `payload` to the file `name` beside the running executable and,
    /// if `mark_executable`, let owner, group and others execute it. Report
    /// `Done` or `Failed`.
    StageExecutable { name: String, payload: Vec<u8>, mark_executable: bool },
    /// Rename the running executable to `rollback_path`. Report `Done` or
    /// `Failed`.
    CacheOut { rollback_path: String },
    /// Rename the file `staged_name` beside the running executable to the
    /// path of the running executable. Report `Done` or `Failed`.
    Promote { staged_name: String },
    /// The attempt is over; remove the archive at `discard`, if any.
    Finish { discard: Option<String> },
}

/// The mathematical value of an [`Action`].
pub ghost enum ActionView {
    Wait,
    WriteState { record: VersionView },
    CheckConnectivity,
    AskOfflineContinue,
    FetchRelease { url: Seq<char>, user_agent: Seq<char> },
    Download { url: Seq<char>, archive_path: Seq<char>, staging_dir: Seq<char>, cache_dir: Seq<char> },
    ReadArchive { archive_path: Seq<char> },
    StageExecutable { name: Seq<char>, payload: Seq<u8>, mark_executable: bool },
    CacheOut { rollback_path: Seq<char> },
    Promote { staged_name: Seq<char> },
    Finish { discard: Option<Seq<char>> },
}

impl View for Action {
    type V = ActionView;

    open spec fn view(&self) -> ActionView {
        match self {
            Action::Wait => ActionView::Wait,
            Action::WriteState { record } => ActionView::WriteState { record: record@ },
            Action::CheckConnectivity => ActionView::CheckConnectivity,
            Action::AskOfflineContinue => ActionView::AskOfflineContinue,
            Action::FetchRelease { url, user_agent } => ActionView::FetchRelease {
                url: url@,
                user_agent: user_agent@,
            },
            Action::Download { url, archive_path, staging_dir, cache_dir } => ActionView::Download {
                url: url@,
                archive_path: archive_path@,
                staging_dir: staging_dir@,
                cache_dir: cache_dir@,
            },
            Action::ReadArchive { archive_path } => ActionView::ReadArchive {
                archive_path: archive_path@,
            },
            Action::StageExecutable { name, payload, mark_executable } => ActionView::StageExecutable {
                name: name@,
                payload: payload@,
                mark_executable: *mark_executable,
            },
            Action::CacheOut { rollback_path } => ActionView::CacheOut {
                rollback_path: rollback_path@,
            },
            Action::Promote { staged_name } => ActionView::Promote { staged_name: staged_name@ },
            Action::Finish { discard } => ActionView::Finish { discard: option_view(*discard) },
        }
    }
}

/// Where an attempt stands, with what it has learnt so far.
#[derive(Debug, PartialEq, Eq)]
pub enum Stage {
    /// Not started.
    Idle,
    /// Not started: the missing state file is being created.
    CreatingState,
    /// Waiting to hear whether the network can be reached.
    CheckingConnectivity { local: Version },
    /// The network cannot be reached: waiting for the user's decision.
    AwaitingDecision { local: Version },
    /// Waiting for the description of the latest release.
    ResolvingRelease { local: Version },
    /// Waiting for the archive of `release`, requested from `url`.
    Downloading { local: Version, release: ReleaseDescriptor, url: String },
    /// Waiting for the bytes of the archive.
    ReadingArchive { local: Version, release: ReleaseDescriptor },
    /// Waiting for the executable to be staged.
    Staging { local: Version, release: ReleaseDescriptor, plan: SwapPlan },
    /// Waiting for a rename of the swap.
    Swapping { local: Version, release: ReleaseDescriptor, swapper: Swapper },
    /// The swap is done: waiting for the new record to be written.
    Persisting { local: Version, release: ReleaseDescriptor },
    /// Over, with nothing installed: the installed release is the latest or,
    /// if `offline`, the user went on without a network.
    UpToDate { local: Version, offline: bool },
    /// Over: `installed` has replaced `previous`.
    Committed { previous: Version, installed: Version },
    /// Over: the attempt failed.
    Failed { error: UpdateError },
}

/// The mathematical value of a [`Stage`].
pub ghost enum StageView {
    Idle,
    CreatingState,
    CheckingConnectivity { local: VersionView },
    AwaitingDecision { local: VersionView },
    ResolvingRelease { local: VersionView },
    Downloading { local: VersionView, release: ReleaseView, url: Seq<char> },
    ReadingArchive { local: VersionView, release: ReleaseView },
    Staging { local: VersionView, release: ReleaseView, plan: SwapPlanView },
    Swapping { local: VersionView, release: ReleaseView, swapper: SwapperView },
    Persisting { local: VersionView, release: ReleaseView },
    UpToDate { local: VersionView, offline: bool },
    Committed { previous: VersionView, installed: VersionView },
    Failed { error: ErrorView },
}

impl View for Stage {
    type V = StageView;

    open spec fn view(&self) -> StageView {
        match self {
            Stage::Idle => StageView::Idle,
            Stage::CreatingState => StageView::CreatingState,
            Stage::CheckingConnectivity { local } => StageView::CheckingConnectivity {
                local: local@,
            },
            Stage::AwaitingDecision { local } => StageView::AwaitingDecision { local: local@ },
            Stage::ResolvingRelease { local } => StageView::ResolvingRelease { local: local@ },
            Stage::Downloading { local, release, url } => StageView::Downloading {
                local: local@,
                release: release@,
                url: url@,
            },
            Stage::ReadingArchive { local, release } => StageView::ReadingArchive {
                local: local@,
                release: release@,
            },
            Stage::Staging { local, release, plan } => StageView::Staging {
                local: local@,
                release: release@,
                plan: plan@,
            },
            Stage::Swapping { local, release, swapper } => StageView::Swapping {
                local: local@,
                release: release@,
                swapper: swapper@,
            },
            Stage::Persisting { local, release } => StageView::Persisting {
                local: local@,
                release: release@,
            },
            Stage::UpToDate { local, offline } => StageView::UpToDate {
                local: local@,
                offline: *offline,
            },
            Stage::Committed { previous, installed } => StageView::Committed {
                previous: previous@,
                installed: installed@,
            },
            Stage::Failed { error } => StageView::Failed { error: error@ },
        }
    }
}

/// The states of an attempt as its users name them.
#[derive(Clone, Copy, Debug, PartialEq, Eq, Hash, Structural)]
pub enum Phase {
    Idle,
    CheckingConnectivity,
    ResolvingRelease,
    UpToDate,
    Downloading,
    Extracting,
    Swapping,
    Committed,
    Failed,
}

/// The state that a stage belongs to.
pub open spec fn phase_of(stage: StageView) -> Phase {
    match stage {
        StageView::Idle | StageView::CreatingState => Phase::Idle,
        StageView::CheckingConnectivity { .. } | StageView::AwaitingDecision { .. } =>
            Phase::CheckingConnectivity,
        StageView::ResolvingRelease { .. } => Phase::ResolvingRelease,
        StageView::Downloading { .. } => Phase::Downloading,
        StageView::ReadingArchive { .. } | StageView::Staging { .. } => Phase::Extracting,
        StageView::Swapping { .. } | StageView::Persisting { .. } => Phase::Swapping,
        StageView::UpToDate { .. } => Phase::UpToDate,
        StageView::Committed { .. } => Phase::Committed,
        StageView::Failed { .. } => Phase::Failed,
    }
}

/// Whether an attempt in `stage` is over.
pub open spec fn is_terminal(stage: StageView) -> bool {
    stage is UpToDate || stage is Committed || stage is Failed
}

/// The mathematical value of an attempt: what it was configured with, what
/// the state file holds, and where it stands.
pub ghost struct SessionView {
    pub owner: Seq<char>,
    pub repo: Seq<char>,
    pub assets: Map<OsType, Seq<char>>,
    pub platform: OsType,
    pub verbose: bool,
    pub store: StoreModel,
    pub stage: StageView,
}

/// The path at which the archive of `repo` is stored.
pub open spec fn archive_path_of(repo: Seq<char>) -> Seq<char> {
    "version-tmp/"@ + repo + ".zip"@
}

/// The attempt `s` in the stage `stage`.
pub open spec fn at_stage(s: SessionView, stage: StageView) -> SessionView {
    SessionView { stage, ..s }
}

/// A report that is not waited for: nothing changes, nothing is asked.
pub open spec fn ignored(s: SessionView) -> (SessionView, ActionView) {
    (s, ActionView::Wait)
}

/// The attempt `s` ends with the failure `error`; the archive at `discard`,
/// if any, is to be removed.
pub open spec fn fails(s: SessionView, error: ErrorView, discard: Option<Seq<char>>) -> (
    SessionView,
    ActionView,
) {
    (at_stage(s, StageView::Failed { error }), ActionView::Finish { discard })
}

/// A failure of `kind` that concerns no URL or path.
pub open spec fn bare(kind: ErrorKind) -> ErrorView {
    ErrorView { kind, subject: Seq::empty() }
}

/// The start: the installed version is loaded. A corrupt state file ends the
/// attempt; a missing one is created first.
pub open spec fn begin(s: SessionView) -> (SessionView, ActionView) {
    match loaded_version(s.store) {
        None => fails(s, bare(ErrorKind::ConfigCorrupt), None),
        Some(local) => if s.store is Absent {
            (at_stage(s, StageView::CreatingState), ActionView::WriteState { record: local })
        } else {
            (at_stage(s, StageView::CheckingConnectivity { local }), ActionView::CheckConnectivity)
        },
    }
}

/// The state file was to be created. Once it is there, it is loaded.
pub open spec fn state_created(s: SessionView, ok: bool) -> (SessionView, ActionView) {
    if ok {
        match loaded_version(s.store) {
            None => fails(s, bare(ErrorKind::ConfigCorrupt), None),
            Some(local) => (
                SessionView {
                    store: store_after_load(s.store),
                    stage: StageView::CheckingConnectivity { local },
                    ..s
                },
                ActionView::CheckConnectivity,
            ),
        }
    } else {
        fails(s, bare(ErrorKind::PersistenceFailed), None)
    }
}

/// The network was probed. Without a network, a tool that was never
/// installed cannot go on; an installed one asks its user.
pub open spec fn connectivity_known(s: SessionView, local: VersionView, reachable: bool) -> (
    SessionView,
    ActionView,
) {
    if reachable {
        (
            at_stage(s, StageView::ResolvingRelease { local }),
            ActionView::FetchRelease {
                url: latest_release_address(s.owner, s.repo),
                user_agent: USER_AGENT@,
            },
        )
    } else if local.id == 0 {
        fails(s, bare(ErrorKind::InitialInstallRequiresNetwork), None)
    } else {
        (at_stage(s, StageView::AwaitingDecision { local }), ActionView::AskOfflineContinue)
    }
}

/// The user decided whether to go on without a network.
pub open spec fn decision_taken(s: SessionView, local: VersionView, proceed: bool) -> (
    SessionView,
    ActionView,
) {
    if proceed {
        (
            at_stage(s, StageView::UpToDate { local, offline: true }),
            ActionView::Finish { discard: None },
        )
    } else {
        fails(s, bare(ErrorKind::UserAborted), None)
    }
}

/// The remote host described the latest release. The release is installed
/// exactly when its identifier differs from the installed one.
pub open spec fn release_described(
    s: SessionView,
    local: VersionView,
    status: u16,
    body: Seq<char>,
) -> (SessionView, ActionView) {
    if status != 200 {
        release_unreachable(s)
    } else {
        match described_release(s.owner, s.repo, body) {
            None => fails(s, bare(ErrorKind::MalformedRelease), None),
            Some(release) => if release.remote_id == local.id {
                (
                    at_stage(s, StageView::UpToDate { local, offline: false }),
                    ActionView::Finish { discard: None },
                )
            } else {
                match suffix_for(s.platform, s.assets) {
                    None => fails(s, bare(ErrorKind::UnsupportedPlatform), None),
                    Some(suffix) => (
                        at_stage(
                            s,
                            StageView::Downloading {
                                local,
                                release,
                                url: release.download_url + suffix,
                            },
                        ),
                        ActionView::Download {
                            url: release.download_url + suffix,
                            archive_path: archive_path_of(s.repo),
                            staging_dir: STAGING_DIR@,
                            cache_dir: CACHE_DIR@,
                        },
                    ),
                }
            },
        }
    }
}

/// The remote host gave no description of the latest release.
pub open spec fn release_unreachable(s: SessionView) -> (SessionView, ActionView) {
    fails(
        s,
        ErrorView {
            kind: ErrorKind::RemoteUnavailable,
            subject: latest_release_address(s.owner, s.repo),
        },
        None,
    )
}

/// The remote host answered the request for the archive.
pub open spec fn asset_stored(
    s: SessionView,
    local: VersionView,
    release: ReleaseView,
    url: Seq<char>,
    status: Option<u16>,
) -> (SessionView, ActionView) {
    if status == Some(200u16) {
        (
            at_stage(s, StageView::ReadingArchive { local, release }),
            ActionView::ReadArchive { archive_path: archive_path_of(s.repo) },
        )
    } else {
        fails(
            s,
            ErrorView { kind: ErrorKind::AssetUnavailable, subject: url },
            Some(archive_path_of(s.repo)),
        )
    }
}

/// The archive was read, or could not be. Its single entry is staged under
/// the name that the platform asks for.
pub open spec fn archive_read(
    s: SessionView,
    local: VersionView,
    release: ReleaseView,
    bytes: Option<Seq<u8>>,
) -> (SessionView, ActionView) {
    let discard = Some(archive_path_of(s.repo));
    let payload = match bytes {
        Some(archive) => executable_in(archive),
        None => None,
    };
    match payload {
        None => fails(s, bare(ErrorKind::CorruptArchive), discard),
        Some(payload) => match plan_of(s.platform, s.repo) {
            None => fails(s, bare(ErrorKind::UnsupportedPlatform), discard),
            Some(plan) => (
                at_stage(s, StageView::Staging { local, release, plan }),
                ActionView::StageExecutable {
                    name: plan.staged_name,
                    payload,
                    mark_executable: plan.mark_executable,
                },
            ),
        },
    }
}

/// The executable was staged, or could not be. The swap starts with the
/// rename that moves the running executable away.
pub open spec fn staged(
    s: SessionView,
    local: VersionView,
    release: ReleaseView,
    plan: SwapPlanView,
    ok: bool,
) -> (SessionView, ActionView) {
    if ok {
        swap_goes_on(s, local, release, SwapperView { plan, phase: SwapPhase::Ready })
    } else {
        fails(
            s,
            ErrorView { kind: ErrorKind::PersistenceFailed, subject: plan.staged_name },
            Some(archive_path_of(s.repo)),
        )
    }
}

/// The action that stands for a rename of the swap.
pub open spec fn rename_action(action: SwapActionView) -> ActionView {
    match action {
        SwapActionView::CacheOut { rollback_path } => ActionView::CacheOut { rollback_path },
        SwapActionView::Promote { staged_name } => ActionView::Promote { staged_name },
    }
}

/// The attempt goes where the swap has come to: to the next rename, to the
/// writing of the new record once both renames are done, or to the failure
/// of the swap.
pub open spec fn swap_goes_on(
    s: SessionView,
    local: VersionView,
    release: ReleaseView,
    swapper: SwapperView,
) -> (SessionView, ActionView) {
    match progress_in(swapper.plan, swapper.phase) {
        SwapProgressView::Continue(action) => (
            at_stage(s, StageView::Swapping { local, release, swapper }),
            rename_action(action),
        ),
        SwapProgressView::Completed => (
            at_stage(s, StageView::Persisting { local, release }),
            ActionView::WriteState { record: installed_record(release) },
        ),
        SwapProgressView::Failed(error) => fails(s, error, Some(archive_path_of(s.repo))),
    }
}

/// A rename of the swap was reported.
pub open spec fn renamed(
    s: SessionView,
    local: VersionView,
    release: ReleaseView,
    swapper: SwapperView,
    ok: bool,
) -> (SessionView, ActionView) {
    swap_goes_on(
        s,
        local,
        release,
        SwapperView { plan: swapper.plan, phase: phase_after(swapper.phase, ok) },
    )
}

/// The new record was written, or could not be. Only now does the state
/// file name the release that was installed.
pub open spec fn persisted(s: SessionView, local: VersionView, release: ReleaseView, ok: bool) -> (
    SessionView,
    ActionView,
) {
    let discard = Some(archive_path_of(s.repo));
    if ok {
        (
            SessionView {
                store: store_after_save(s.store, installed_record(release)),
                stage: StageView::Committed {
                    previous: local,
                    installed: installed_record(release),
                },
                ..s
            },
            ActionView::Finish { discard },
        )
    } else {
        fails(s, bare(ErrorKind::PersistenceFailed), discard)
    }
}

/// The transition function of an attempt: the state after the report `e`
/// reached the state `s`, and what the caller is asked to do next.
pub open spec fn next(s: SessionView, e: EventView) -> (SessionView, ActionView) {
    match (s.stage, e) {
        (StageView::Idle, EventView::Begin) => begin(s),
        (StageView::CreatingState, EventView::Done) => state_created(s, true),
        (StageView::CreatingState, EventView::Failed) => state_created(s, false),
        (
            StageView::CheckingConnectivity { local },
            EventView::Connectivity { reachable },
        ) => connectivity_known(s, local, reachable),
        (StageView::AwaitingDecision { local }, EventView::OfflineDecision { proceed }) =>
            decision_taken(s, local, proceed),
        (
            StageView::ResolvingRelease { local },
            EventView::ReleaseResponse { status, body },
        ) => release_described(s, local, status, body),
        (StageView::ResolvingRelease { local }, EventView::Failed) => release_unreachable(s),
        (StageView::Downloading { local, release, url }, EventView::AssetStored { status }) =>
            asset_stored(s, local, release, url, Some(status)),
        (StageView::Downloading { local, release, url }, EventView::Failed) => asset_stored(
            s,
            local,
            release,
            url,
            None,
        ),
        (StageView::ReadingArchive { local, release }, EventView::ArchiveRead { bytes }) =>
            archive_read(s, local, release, Some(bytes)),
        (StageView::ReadingArchive { local, release }, EventView::Failed) => archive_read(
            s,
            local,
            release,
            None,
        ),
        (StageView::Staging { local, release, plan }, EventView::Done) => staged(
            s,
            local,
            release,
            plan,
            true,
        ),
        (StageView::Staging { local, release, plan }, EventView::Failed) => staged(
            s,
            local,
            release,
            plan,
            false,
        ),
        (StageView::Swapping { local, release, swapper }, EventView::Done) => renamed(
            s,
            local,
            release,
            swapper,
            true,
        ),
        (StageView::Swapping { local, release, swapper }, EventView::Failed) => renamed(
            s,
            local,
            release,
            swapper,
            false,
        ),
        (StageView::Persisting { local, release }, EventView::Done) => persisted(
            s,
            local,
            release,
            true,
        ),
        (StageView::Persisting { local, release }, EventView::Failed) => persisted(
            s,
            local,
            release,
            false,
        ),
        _ => ignored(s),
    }
}

} // verus!
