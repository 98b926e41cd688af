//! What holds of every update attempt, proved from the transition function.

use vstd::prelude::*;
use crate::archive::executable_in;
use crate::error::{ErrorKind, ErrorView};
use crate::protocol::{
    archive_path_of, bare, is_terminal, next, ActionView, EventView, SessionView, StageView,
};
use crate::release::{described_release, installed_record};
use crate::swap::{files_after, plan_of, swap_consistent, Files, SwapPhase};
use crate::update::{initial_session, BuilderView};
use crate::utility::{suffix_for, unset_version, OsType, StoreModel, VersionView};

verus! {

/// How far a stage lies from the start.
pub open spec fn rank(stage: StageView) -> nat {
    match stage {
        StageView::Idle => 0,
        StageView::CreatingState => 1,
        StageView::CheckingConnectivity { .. } => 2,
        StageView::AwaitingDecision { .. } => 3,
        StageView::ResolvingRelease { .. } => 4,
        StageView::Downloading { .. } => 5,
        StageView::ReadingArchive { .. } => 6,
        StageView::Staging { .. } => 7,
        StageView::Swapping { swapper, .. } => if swapper.phase == SwapPhase::Ready {
            8
        } else {
            9
        },
        StageView::Persisting { .. } => 10,
        StageView::UpToDate { .. } | StageView::Committed { .. } | StageView::Failed { .. } => 11,
    }
}

/// Whether an action changes a file: the state file, the archive, the
/// staged executable, or the place of an executable.
pub open spec fn writes_files(action: ActionView) -> bool {
    action is WriteState || action is Download || action is StageExecutable || action is CacheOut
        || action is Promote
}

/// The state after the reports `events` reached the state `s` one after the
/// other, and the actions that were asked for on the way.
pub open spec fn run(s: SessionView, events: Seq<EventView>) -> (SessionView, Seq<ActionView>)
    decreases events.len(),
{
    if events.len() == 0 {
        (s, Seq::empty())
    } else {
        let first = next(s, events[0]);
        let rest = run(first.0, events.drop_first());
        (rest.0, seq![first.1] + rest.1)
    }
}

/// What holds of the states that an attempt can reach. The record that the
/// attempt works with is the one in the state file, until the new one is
/// written; a release is fetched, staged and swapped in only if its
/// identifier differs from the installed one; the swap follows the plan of
/// the platform and waits for one of its two renames.
pub open spec fn well_formed(s: SessionView) -> bool {
    match s.stage {
        StageView::Idle => true,
        StageView::CreatingState => s.store is Absent,
        StageView::CheckingConnectivity { local } => s.store == StoreModel::Holding(local),
        StageView::AwaitingDecision { local } => s.store == StoreModel::Holding(local) && local.id
            != 0,
        StageView::ResolvingRelease { local } => s.store == StoreModel::Holding(local),
        StageView::Downloading { local, release, url } => {
            &&& s.store == StoreModel::Holding(local)
            &&& release.remote_id != local.id
            &&& suffix_for(s.platform, s.assets) is Some
            &&& url == release.download_url + suffix_for(s.platform, s.assets).unwrap()
        },
        StageView::ReadingArchive { local, release } => {
            &&& s.store == StoreModel::Holding(local)
            &&& release.remote_id != local.id
        },
        StageView::Staging { local, release, plan } => {
            &&& s.store == StoreModel::Holding(local)
            &&& release.remote_id != local.id
            &&& plan_of(s.platform, s.repo) == Some(plan)
        },
        StageView::Swapping { local, release, swapper } => {
            &&& s.store == StoreModel::Holding(local)
            &&& release.remote_id != local.id
            &&& plan_of(s.platform, s.repo) == Some(swapper.plan)
            &&& (swapper.phase == SwapPhase::Ready || swapper.phase == SwapPhase::CachedOut)
        },
        StageView::Persisting { local, release } => {
            &&& s.store == StoreModel::Holding(local)
            &&& release.remote_id != local.id
        },
        StageView::UpToDate { local, .. } => s.store == StoreModel::Holding(local),
        StageView::Committed { previous, installed } => {
            &&& s.store == StoreModel::Holding(installed)
            &&& installed.id != previous.id
        },
        StageView::Failed { .. } => true,
    }
}

/// An attempt starts well-formed.
pub proof fn lemma_initial_session_is_well_formed(
    builder: BuilderView,
    platform: OsType,
    store: StoreModel,
)
    ensures
        well_formed(initial_session(builder, platform, store)),
{
}

/// No transition changes what an attempt was configured with.
pub proof fn lemma_configuration_never_changes(s: SessionView, e: EventView)
    ensures
        next(s, e).0.owner == s.owner,
        next(s, e).0.repo == s.repo,
        next(s, e).0.assets == s.assets,
        next(s, e).0.platform == s.platform,
        next(s, e).0.verbose == s.verbose,
{
}

/// Every transition keeps an attempt well-formed.
pub proof fn lemma_next_preserves_well_formed(s: SessionView, e: EventView)
    requires
        well_formed(s),
    ensures
        well_formed(next(s, e).0),
{
    match s.stage {
        StageView::Idle => {
            assert(well_formed(next(s, e).0));
        },
        StageView::CreatingState => {
            assert(well_formed(next(s, e).0));
        },
        StageView::CheckingConnectivity { .. } => {
            assert(well_formed(next(s, e).0));
        },
        StageView::AwaitingDecision { .. } => {
            assert(well_formed(next(s, e).0));
        },
        StageView::ResolvingRelease { .. } => {
            assert(well_formed(next(s, e).0));
        },
        StageView::Downloading { .. } => {
            assert(well_formed(next(s, e).0));
        },
        StageView::ReadingArchive { .. } => {
            assert(well_formed(next(s, e).0));
        },
        StageView::Staging { .. } => {
            assert(well_formed(next(s, e).0));
        },
        StageView::Swapping { .. } => {
            assert(well_formed(next(s, e).0));
        },
        StageView::Persisting { .. } => {
            assert(well_formed(next(s, e).0));
        },
        StageView::UpToDate { .. } | StageView::Committed { .. } | StageView::Failed { .. } => {
            assert(next(s, e) == (s, ActionView::Wait));
        },
    }
}

/// Every run keeps an attempt well-formed and asks for one action per
/// report.
pub proof fn lemma_run_preserves_well_formed(s: SessionView, events: Seq<EventView>)
    requires
        well_formed(s),
    ensures
        well_formed(run(s, events).0),
        run(s, events).1.len() == events.len(),
    decreases events.len(),
{
    if events.len() > 0 {
        lemma_next_preserves_well_formed(s, events[0]);
        lemma_run_preserves_well_formed(next(s, events[0]).0, events.drop_first());
    }
}

/// An attempt that is over stays as it is and asks for nothing, whatever is
/// reported to it.
pub proof fn lemma_terminal_absorbs(s: SessionView, e: EventView)
    requires
        is_terminal(s.stage),
    ensures
        next(s, e) == (s, ActionView::Wait),
{
}

/// Transitions go strictly forward: a report either is not the one waited
/// for, and then nothing changes and nothing is asked, or it takes the
/// attempt to a later stage. No stage is entered twice, so the engine never
/// tries anything again.
pub proof fn lemma_strictly_forward(s: SessionView, e: EventView)
    ensures
        next(s, e) == (s, ActionView::Wait) || rank(next(s, e).0.stage) > rank(s.stage),
        rank(next(s, e).0.stage) <= 11,
        rank(s.stage) == 11 <==> is_terminal(s.stage),
{
}

/// After the end of an attempt no run changes its state, and every action
/// of the run is `Wait`.
pub proof fn lemma_nothing_happens_after_the_end(s: SessionView, events: Seq<EventView>)
    requires
        is_terminal(s.stage),
    ensures
        run(s, events).0 == s,
        run(s, events).1.len() == events.len(),
        forall|i: int| 0 <= i < events.len() ==> run(s, events).1[i] == ActionView::Wait,
    decreases events.len(),
{
    if events.len() > 0 {
        lemma_terminal_absorbs(s, events[0]);
        lemma_nothing_happens_after_the_end(s, events.drop_first());
        let rest = run(s, events.drop_first());
        assert forall|i: int| 0 <= i < events.len() implies run(s, events).1[i]
            == ActionView::Wait by {
            if i > 0 {
                assert(run(s, events).1[i] == rest.1[i - 1]);
            }
        }
    }
}

/// An attempt that finds the installed release to be the latest is over at
/// once: nothing is downloaded, nothing is swapped, and the state file still
/// holds the installed record, whatever is reported afterwards.
pub proof fn lemma_same_release_changes_nothing(
    s: SessionView,
    local: VersionView,
    body: Seq<char>,
    later: Seq<EventView>,
)
    requires
        well_formed(s),
        s.stage == (StageView::ResolvingRelease { local }),
        described_release(s.owner, s.repo, body) is Some,
        described_release(s.owner, s.repo, body).unwrap().remote_id == local.id,
    ensures
        ({
            let report = EventView::ReleaseResponse { status: 200, body };
            let end = run(s, seq![report] + later);
            &&& end.0.stage == (StageView::UpToDate { local, offline: false })
            &&& end.0.store == s.store
            &&& end.0.store == StoreModel::Holding(local)
            &&& end.1.len() == later.len() + 1
            &&& end.1[0] == (ActionView::Finish { discard: None })
            &&& forall|i: int| 0 <= i < end.1.len() ==> !writes_files(#[trigger] end.1[i])
        }),
{
    let report = EventView::ReleaseResponse { status: 200, body };
    let events = seq![report] + later;
    let first = next(s, report);
    assert(events[0] == report);
    assert(events.drop_first() =~= later);
    lemma_nothing_happens_after_the_end(first.0, later);
    let rest = run(first.0, later);
    let end = run(s, events);
    assert(end.1 == seq![first.1] + rest.1);
    assert forall|i: int| 0 <= i < end.1.len() implies !writes_files(#[trigger] end.1[i]) by {
        if i > 0 {
            assert(end.1[i] == rest.1[i - 1]);
        }
    }
}

/// A tool that was never installed cannot start without a network: the
/// attempt fails with `InitialInstallRequiresNetwork`, and neither this
/// report nor any later one makes the engine ask for a change to a file.
pub proof fn lemma_initial_install_needs_network(
    s: SessionView,
    local: VersionView,
    later: Seq<EventView>,
)
    requires
        s.stage == (StageView::CheckingConnectivity { local }),
        local.id == 0,
    ensures
        ({
            let report = EventView::Connectivity { reachable: false };
            let end = run(s, seq![report] + later);
            &&& end.0.stage == (StageView::Failed {
                error: bare(ErrorKind::InitialInstallRequiresNetwork),
            })
            &&& end.0.store == s.store
            &&& end.1.len() == later.len() + 1
            &&& end.1[0] == (ActionView::Finish { discard: None })
            &&& forall|i: int| 0 <= i < end.1.len() ==> !writes_files(#[trigger] end.1[i])
        }),
{
    let report = EventView::Connectivity { reachable: false };
    let events = seq![report] + later;
    let first = next(s, report);
    assert(events[0] == report);
    assert(events.drop_first() =~= later);
    lemma_nothing_happens_after_the_end(first.0, later);
    let rest = run(first.0, later);
    let end = run(s, events);
    assert(end.1 == seq![first.1] + rest.1);
    assert forall|i: int| 0 <= i < end.1.len() implies !writes_files(#[trigger] end.1[i]) by {
        if i > 0 {
            assert(end.1[i] == rest.1[i - 1]);
        }
    }
}

/// With an installed tool and no network the user decides: going on ends
/// the attempt with nothing changed, declining ends it with `UserAborted`.
pub proof fn lemma_offline_decision(s: SessionView, local: VersionView, proceed: bool)
    requires
        s.stage == (StageView::CheckingConnectivity { local }),
        local.id != 0,
    ensures
        ({
            let asked = next(s, EventView::Connectivity { reachable: false });
            let decided = next(asked.0, EventView::OfflineDecision { proceed });
            &&& asked.1 == ActionView::AskOfflineContinue
            &&& asked.0.store == s.store
            &&& decided.0.store == s.store
            &&& decided.1 == (ActionView::Finish { discard: None })
            &&& proceed ==> decided.0.stage == (StageView::UpToDate { local, offline: true })
            &&& !proceed ==> decided.0.stage == (StageView::Failed {
                error: bare(ErrorKind::UserAborted),
            })
        }),
{
}

/// The state file is written at two moments only: when it is missing at the
/// start, with the record of a tool that was never installed, and when both
/// renames of the swap are done, with the record of the release that was
/// swapped in.
pub proof fn lemma_state_is_written_only_after_the_swap(s: SessionView, e: EventView)
    requires
        well_formed(s),
        next(s, e).1 is WriteState,
    ensures
        ({
            let record = next(s, e).1->WriteState_record;
            ||| {
                &&& s.stage is Idle
                &&& e is Begin
                &&& s.store is Absent
                &&& record == unset_version()
            }
            ||| {
                &&& s.stage matches StageView::Swapping { release, swapper, .. }
                &&& e is Done
                &&& swapper.phase == SwapPhase::CachedOut
                &&& record == installed_record(release)
                &&& next(s, e).0.stage is Persisting
            }
        }),
{
}

/// The engine takes the state file to have changed at two moments only:
/// when its creation is reported as done, and when the writing of the new
/// record after a swap is reported as done. The record it then holds is the
/// one that was written.
pub proof fn lemma_store_follows_the_reports(s: SessionView, e: EventView)
    requires
        well_formed(s),
        next(s, e).0.store != s.store,
    ensures
        e is Done,
        ({
            ||| s.stage is CreatingState && next(s, e).0.store == StoreModel::Holding(
                unset_version(),
            )
            ||| s.stage matches StageView::Persisting { release, .. } && next(s, e).0.store
                == StoreModel::Holding(installed_record(release))
        }),
{
}

/// A swap whose second rename fails after the first was done ends the
/// attempt with `SwapIncomplete`, which names the rollback path; the state
/// file keeps the previous record. No other failure has this kind.
pub proof fn lemma_failed_promotion_is_swap_incomplete(s: SessionView, e: EventView)
    requires
        well_formed(s),
    ensures
        ({
            let after = next(s, e);
            let incomplete = after.0.stage matches StageView::Failed { error } && error.kind
                == ErrorKind::SwapIncomplete;
            let promotion_failed = s.stage matches StageView::Swapping { swapper, .. }
                && swapper.phase == SwapPhase::CachedOut && e is Failed;
            &&& !is_terminal(s.stage) ==> (incomplete <==> promotion_failed)
            &&& promotion_failed ==> after.0.store == s.store && after.0.stage
                == (StageView::Failed {
                error: ErrorView {
                    kind: ErrorKind::SwapIncomplete,
                    subject: s.stage->Swapping_swapper.plan.rollback_path,
                },
            }) && after.1 == (ActionView::Finish { discard: Some(archive_path_of(s.repo)) })
        }),
{
}

/// Each change to a file is asked for at one moment only, in the order of
/// the stages: the download when a release with another identifier than the
/// installed one was described; the staging when the archive was read and
/// holds the payload; the cache-out when the executable was staged; the
/// promotion when the cache-out was done.
pub proof fn lemma_file_changes_follow_the_stages(s: SessionView, e: EventView)
    requires
        well_formed(s),
    ensures
        ({
            let action = next(s, e).1;
            &&& action is Download ==> {
                &&& s.stage matches StageView::ResolvingRelease { local }
                &&& e matches EventView::ReleaseResponse { status, body }
                &&& status == 200
                &&& described_release(s.owner, s.repo, body) matches Some(release)
                &&& release.remote_id != local.id
                &&& suffix_for(s.platform, s.assets) matches Some(suffix)
                &&& action->Download_url == release.download_url + suffix
            }
            &&& action is StageExecutable ==> {
                &&& s.stage is ReadingArchive
                &&& e matches EventView::ArchiveRead { bytes }
                &&& executable_in(bytes) == Some(action->StageExecutable_payload)
                &&& plan_of(s.platform, s.repo) matches Some(plan)
                &&& action->StageExecutable_name == plan.staged_name
                &&& action->StageExecutable_mark_executable == plan.mark_executable
            }
            &&& action is CacheOut ==> s.stage is Staging && e is Done
            &&& action is Promote ==> {
                &&& s.stage matches StageView::Swapping { swapper, .. }
                &&& swapper.phase == SwapPhase::Ready
                &&& e is Done
            }
        }),
{
}

/// The files after the report `e` reached an attempt in `stage`: a report
/// on a rename of the swap moves a file where the rename was done; no other
/// report speaks of these files.
pub open spec fn files_after_report(stage: StageView, files: Files, e: EventView) -> Files {
    match stage {
        StageView::Swapping { swapper, .. } => match e {
            EventView::Done => files_after(files, swapper.phase, true),
            EventView::Failed => files_after(files, swapper.phase, false),
            _ => files,
        },
        _ => files,
    }
}

/// The attempt and the files after the reports `events` reached them one
/// after the other.
pub open spec fn run_with_files(s: SessionView, files: Files, events: Seq<EventView>) -> (
    SessionView,
    Files,
)
    decreases events.len(),
{
    if events.len() == 0 {
        (s, files)
    } else {
        run_with_files(
            next(s, events[0]).0,
            files_after_report(s.stage, files, events[0]),
            events.drop_first(),
        )
    }
}

/// What holds of the files while and after an attempt swaps `next_build` in
/// for `previous`: during the swap they are as the phase of the swap says.
/// Afterwards they are as the swap left them: both builds in their new
/// places once it was completed, the running path vacant after
/// `SwapIncomplete`, and after any other failure either nothing moved or
/// both builds in their new places.
pub open spec fn files_are_safe(
    s: SessionView,
    files: Files,
    previous: Seq<u8>,
    next_build: Seq<u8>,
    kept: Option<Seq<u8>>,
) -> bool {
    match s.stage {
        StageView::Swapping { swapper, .. } => swap_consistent(
            swapper.phase,
            files,
            previous,
            next_build,
            kept,
        ),
        StageView::Persisting { .. } | StageView::Committed { .. } => swap_consistent(
            SwapPhase::Promoted,
            files,
            previous,
            next_build,
            kept,
        ),
        StageView::Failed { error } => if error.kind == ErrorKind::SwapIncomplete {
            swap_consistent(SwapPhase::Incomplete, files, previous, next_build, kept)
        } else {
            swap_consistent(SwapPhase::Refused, files, previous, next_build, kept)
                || swap_consistent(SwapPhase::Promoted, files, previous, next_build, kept)
        },
        _ => false,
    }
}

/// One report keeps the files safe.
pub proof fn lemma_report_keeps_files_safe(
    s: SessionView,
    files: Files,
    previous: Seq<u8>,
    next_build: Seq<u8>,
    kept: Option<Seq<u8>>,
    e: EventView,
)
    requires
        well_formed(s),
        files_are_safe(s, files, previous, next_build, kept),
    ensures
        files_are_safe(
            next(s, e).0,
            files_after_report(s.stage, files, e),
            previous,
            next_build,
            kept,
        ),
{
    match s.stage {
        StageView::Swapping { swapper, .. } => {
            assert(files_are_safe(
                next(s, e).0,
                files_after_report(s.stage, files, e),
                previous,
                next_build,
                kept,
            ));
        },
        _ => {},
    }
}

/// From the moment an attempt starts to swap, whatever is reported to it:
/// the previous build is never lost. It lies at the path of the executable
/// or at the rollback path; the path of the executable is vacant exactly
/// when the attempt waits for the promotion or has failed with
/// `SwapIncomplete`; and an attempt that was committed has the new build at
/// the path of the executable and the previous one at the rollback path.
pub proof fn lemma_swap_never_loses_the_previous_build(
    s: SessionView,
    previous: Seq<u8>,
    next_build: Seq<u8>,
    kept: Option<Seq<u8>>,
    events: Seq<EventView>,
)
    requires
        well_formed(s),
        s.stage matches StageView::Swapping { swapper, .. } && swapper.phase == SwapPhase::Ready,
    ensures
        ({
            let start = Files { running: Some(previous), staged: Some(next_build), rollback: kept };
            let end = run_with_files(s, start, events);
            let incomplete = end.0.stage matches StageView::Failed { error } && error.kind
                == ErrorKind::SwapIncomplete;
            let promoting = end.0.stage matches StageView::Swapping { swapper, .. }
                && swapper.phase == SwapPhase::CachedOut;
            &&& end.1.running == Some(previous) || end.1.rollback == Some(previous)
            &&& end.1.running is None <==> incomplete || promoting
            &&& incomplete ==> end.1.rollback == Some(previous) && end.1.staged == Some(next_build)
            &&& end.0.stage is Committed ==> end.1 == (Files {
                running: Some(next_build),
                staged: None,
                rollback: Some(previous),
            })
        }),
{
    let start = Files { running: Some(previous), staged: Some(next_build), rollback: kept };
    lemma_run_keeps_files_safe(s, start, previous, next_build, kept, events);
    lemma_run_with_files_preserves_well_formed(s, start, events);
}

/// Every run keeps the files safe.
pub proof fn lemma_run_keeps_files_safe(
    s: SessionView,
    files: Files,
    previous: Seq<u8>,
    next_build: Seq<u8>,
    kept: Option<Seq<u8>>,
    events: Seq<EventView>,
)
    requires
        well_formed(s),
        files_are_safe(s, files, previous, next_build, kept),
    ensures
        files_are_safe(
            run_with_files(s, files, events).0,
            run_with_files(s, files, events).1,
            previous,
            next_build,
            kept,
        ),
    decreases events.len(),
{
    if events.len() > 0 {
        lemma_report_keeps_files_safe(s, files, previous, next_build, kept, events[0]);
        lemma_next_preserves_well_formed(s, events[0]);
        lemma_run_keeps_files_safe(
            next(s, events[0]).0,
            files_after_report(s.stage, files, events[0]),
            previous,
            next_build,
            kept,
            events.drop_first(),
        );
    }
}

/// A run with the files reaches the state that the run without them
/// reaches, so it keeps an attempt well-formed.
pub proof fn lemma_run_with_files_preserves_well_formed(
    s: SessionView,
    files: Files,
    events: Seq<EventView>,
)
    requires
        well_formed(s),
    ensures
        run_with_files(s, files, events).0 == run(s, events).0,
        well_formed(run_with_files(s, files, events).0),
    decreases events.len(),
{
    if events.len() > 0 {
        lemma_next_preserves_well_formed(s, events[0]);
        lemma_run_with_files_preserves_well_formed(
            next(s, events[0]).0,
            files_after_report(s.stage, files, events[0]),
            events.drop_first(),
        );
    }
}

/// An attempt whose executable is staged, whose two renames are done and
/// whose record is written ends as committed: the state file holds the
/// record of the new release, the path of the executable holds the new
/// build, and the rollback path holds the previous one. The engine asked
/// for the cache-out, the promotion, the record and the end, in this order.
pub proof fn lemma_completed_attempt_commits(
    s: SessionView,
    previous: Seq<u8>,
    next_build: Seq<u8>,
    kept: Option<Seq<u8>>,
)
    requires
        well_formed(s),
        s.stage is Staging,
    ensures
        ({
            let local = s.stage->Staging_local;
            let release = s.stage->Staging_release;
            let plan = s.stage->Staging_plan;
            let start = Files { running: Some(previous), staged: Some(next_build), rollback: kept };
            let events = seq![EventView::Done, EventView::Done, EventView::Done, EventView::Done];
            let end = run_with_files(s, start, events);
            &&& end.0.stage == (StageView::Committed {
                previous: local,
                installed: installed_record(release),
            })
            &&& end.0.store == StoreModel::Holding(installed_record(release))
            &&& end.1 == (Files {
                running: Some(next_build),
                staged: None,
                rollback: Some(previous),
            })
            &&& run(s, events).1 == seq![
                ActionView::CacheOut { rollback_path: plan.rollback_path },
                ActionView::Promote { staged_name: plan.staged_name },
                ActionView::WriteState { record: installed_record(release) },
                ActionView::Finish { discard: Some(archive_path_of(s.repo)) },
            ]
        }),
{
    let start = Files { running: Some(previous), staged: Some(next_build), rollback: kept };
    let done = EventView::Done;
    let e4 = seq![done, done, done, done];
    let e3 = seq![done, done, done];
    let e2 = seq![done, done];
    let e1 = seq![done];
    let e0 = Seq::<EventView>::empty();
    assert(e4.drop_first() =~= e3);
    assert(e3.drop_first() =~= e2);
    assert(e2.drop_first() =~= e1);
    assert(e1.drop_first() =~= e0);
    let s1 = next(s, done);
    let f1 = files_after_report(s.stage, start, done);
    let s2 = next(s1.0, done);
    let f2 = files_after_report(s1.0.stage, f1, done);
    let s3 = next(s2.0, done);
    let f3 = files_after_report(s2.0.stage, f2, done);
    let s4 = next(s3.0, done);
    let f4 = files_after_report(s3.0.stage, f3, done);
    assert(run_with_files(s4.0, f4, e0) == (s4.0, f4));
    assert(run_with_files(s3.0, f3, e1) == (s4.0, f4));
    assert(run_with_files(s2.0, f2, e2) == (s4.0, f4));
    assert(run_with_files(s1.0, f1, e3) == (s4.0, f4));
    assert(run_with_files(s, start, e4) == (s4.0, f4));
    assert(run(s4.0, e0).1 =~= Seq::<ActionView>::empty());
    assert(run(s3.0, e1).1 =~= seq![s4.1]);
    assert(run(s2.0, e2).1 =~= seq![s3.1, s4.1]);
    assert(run(s1.0, e3).1 =~= seq![s2.1, s3.1, s4.1]);
    assert(run(s, e4).1 =~= seq![s1.1, s2.1, s3.1, s4.1]);
}

} // verus!
