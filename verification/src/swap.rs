//! Replacing the running executable by the staged one.
//!
//! The swap is two renames, in this order: the running executable moves to
//! the rollback path, then the staged executable moves to the vacant path.
//! A rename either happens or leaves every file where it was, so at each
//! moment the previous build lies at one of the two paths.

use vstd::prelude::*;
use vstd::string::*;
use crate::error::{ErrorKind, ErrorView, UpdateError};
use crate::utility::OsType;

verus! {

/// The directory for downloads, relative to the working directory.
pub const STAGING_DIR: &'static str = "version-tmp";

/// The directory of the rollback copy, relative to the working directory.
pub const CACHE_DIR: &'static str = "version-cache";

/// The path of the rollback copy, relative to the working directory. It has
/// no file suffix on any platform, so that nobody starts a stale build by
/// opening it.
pub const ROLLBACK_PATH: &'static str = "version-cache/last";

/// What a swap needs to know: the name under which the new executable is
/// staged beside the running one, whether it must be given the execute
/// permission, and where the previous build is kept.
#[derive(Debug, PartialEq, Eq)]
pub struct SwapPlan {
    pub staged_name: String,
    pub mark_executable: bool,
    pub rollback_path: String,
}

/// The mathematical value of a [`SwapPlan`].
pub ghost struct SwapPlanView {
    pub staged_name: Seq<char>,
    pub mark_executable: bool,
    pub rollback_path: Seq<char>,
}

impl View for SwapPlan {
    type V = SwapPlanView;

    open spec fn view(&self) -> SwapPlanView {
        SwapPlanView {
            staged_name: self.staged_name@,
            mark_executable: self.mark_executable,
            rollback_path: self.rollback_path@,
        }
    }
}

/// The name of the staged executable of `repo` on `platform`: on Windows it
/// carries the suffix by which the loader knows a program.
pub open spec fn staged_name_of(platform: OsType, repo: Seq<char>) -> Seq<char> {
    if platform == OsType::Windows {
        "tmp-"@ + repo + ".exe"@
    } else {
        "tmp-"@ + repo
    }
}

/// The plan for replacing the executable of `repo` on `platform`; none on a
/// platform for which the procedure is undefined.
pub open spec fn plan_of(platform: OsType, repo: Seq<char>) -> Option<SwapPlanView> {
    if platform == OsType::Unsupported {
        None
    } else {
        Some(
            SwapPlanView {
                staged_name: staged_name_of(platform, repo),
                mark_executable: platform == OsType::Linux || platform == OsType::MacOs,
                rollback_path: ROLLBACK_PATH@,
            },
        )
    }
}

/// The failure of a swap that is refused for want of a procedure.
pub open spec fn unsupported_platform() -> ErrorView {
    ErrorView { kind: ErrorKind::UnsupportedPlatform, subject: Seq::empty() }
}

impl SwapPlan {
    /// Plans the swap for the executable of `repo` on `platform`. Fails with
    /// `UnsupportedPlatform` on a platform that is none of the known ones.
    pub fn new(platform: OsType, repo: &str) -> (result: Result<SwapPlan, UpdateError>)
        ensures
            match plan_of(platform, repo@) {
                Some(plan) => result is Ok && result->Ok_0@ == plan,
                None => result is Err && result->Err_0@ == unsupported_platform(),
            },
    {
        if platform == OsType::Unsupported {
            return Err(UpdateError::bare(ErrorKind::UnsupportedPlatform));
        }
        let mut staged_name = "tmp-".to_owned();
        staged_name.append(repo);
        if platform.requires_executable_extension() {
            staged_name.append(".exe");
        }
        Ok(
            SwapPlan {
                staged_name,
                mark_executable: platform.requires_executable_permission(),
                rollback_path: ROLLBACK_PATH.to_owned(),
            },
        )
    }
}

impl Clone for SwapPlan {
    fn clone(&self) -> (copy: SwapPlan)
        ensures
            copy@ == self@,
    {
        SwapPlan {
            staged_name: self.staged_name.clone(),
            mark_executable: self.mark_executable,
            rollback_path: self.rollback_path.clone(),
        }
    }
}

/// How far a swap has come.
#[derive(Clone, Copy, Debug, PartialEq, Eq, Hash, Structural)]
pub enum SwapPhase {
    /// Nothing was moved yet.
    Ready,
    /// The running executable lies at the rollback path; its own path is
    /// vacant.
    CachedOut,
    /// The staged executable has taken the vacant path.
    Promoted,
    /// The first rename failed: nothing was moved.
    Refused,
    /// The second rename failed after the first: the path of the executable
    /// is vacant and the previous build lies at the rollback path.
    Incomplete,
}

/// One rename of the swap.
#[derive(Debug, PartialEq, Eq)]
pub enum SwapAction {
    /// Move the running executable to `rollback_path`.
    CacheOut { rollback_path: String },
    /// Move the file `staged_name`, which lies beside the running
    /// executable, to the path that the running executable had.
    Promote { staged_name: String },
}

/// The mathematical value of a [`SwapAction`].
pub ghost enum SwapActionView {
    CacheOut { rollback_path: Seq<char> },
    Promote { staged_name: Seq<char> },
}

impl View for SwapAction {
    type V = SwapActionView;

    open spec fn view(&self) -> SwapActionView {
        match self {
            SwapAction::CacheOut { rollback_path } => SwapActionView::CacheOut {
                rollback_path: rollback_path@,
            },
            SwapAction::Promote { staged_name } => SwapActionView::Promote {
                staged_name: staged_name@,
            },
        }
    }
}

/// What a swap has come to after a rename was reported.
#[derive(Debug, PartialEq, Eq)]
pub enum SwapProgress {
    /// The next rename to perform.
    Continue(SwapAction),
    /// Both renames are done.
    Completed,
    /// A rename failed.
    Failed(UpdateError),
}

/// The mathematical value of a [`SwapProgress`].
pub ghost enum SwapProgressView {
    Continue(SwapActionView),
    Completed,
    Failed(ErrorView),
}

impl View for SwapProgress {
    type V = SwapProgressView;

    open spec fn view(&self) -> SwapProgressView {
        match self {
            SwapProgress::Continue(action) => SwapProgressView::Continue(action@),
            SwapProgress::Completed => SwapProgressView::Completed,
            SwapProgress::Failed(error) => SwapProgressView::Failed(error@),
        }
    }
}

/// The phase that follows `phase` when the rename that `phase` waits for is
/// reported as done (`ok`) or failed. A finished or failed swap stays as it
/// is.
pub open spec fn phase_after(phase: SwapPhase, ok: bool) -> SwapPhase {
    match phase {
        SwapPhase::Ready => if ok {
            SwapPhase::CachedOut
        } else {
            SwapPhase::Refused
        },
        SwapPhase::CachedOut => if ok {
            SwapPhase::Promoted
        } else {
            SwapPhase::Incomplete
        },
        _ => phase,
    }
}

/// What a swap with `plan` has come to in `phase`.
pub open spec fn progress_in(plan: SwapPlanView, phase: SwapPhase) -> SwapProgressView {
    match phase {
        SwapPhase::Ready => SwapProgressView::Continue(
            SwapActionView::CacheOut { rollback_path: plan.rollback_path },
        ),
        SwapPhase::CachedOut => SwapProgressView::Continue(
            SwapActionView::Promote { staged_name: plan.staged_name },
        ),
        SwapPhase::Promoted => SwapProgressView::Completed,
        SwapPhase::Refused => SwapProgressView::Failed(
            ErrorView { kind: ErrorKind::PersistenceFailed, subject: plan.rollback_path },
        ),
        SwapPhase::Incomplete => SwapProgressView::Failed(
            ErrorView { kind: ErrorKind::SwapIncomplete, subject: plan.rollback_path },
        ),
    }
}

/// A swap in progress: its plan and how far it has come.
#[derive(Debug, PartialEq, Eq)]
pub struct Swapper {
    pub plan: SwapPlan,
    pub phase: SwapPhase,
}

/// The mathematical value of a [`Swapper`].
pub ghost struct SwapperView {
    pub plan: SwapPlanView,
    pub phase: SwapPhase,
}

impl View for Swapper {
    type V = SwapperView;

    open spec fn view(&self) -> SwapperView {
        SwapperView { plan: self.plan@, phase: self.phase }
    }
}

impl Swapper {
    /// A swap with `plan` of which nothing is done yet.
    pub fn new(plan: SwapPlan) -> (swapper: Swapper)
        ensures
            swapper@ == (SwapperView { plan: plan@, phase: SwapPhase::Ready }),
    {
        Swapper { plan, phase: SwapPhase::Ready }
    }

    /// What this swap has come to: the rename it waits for, or its end.
    pub fn progress(&self) -> (progress: SwapProgress)
        ensures
            progress@ == progress_in(self@.plan, self@.phase),
    {
        match self.phase {
            SwapPhase::Ready => SwapProgress::Continue(
                SwapAction::CacheOut { rollback_path: self.plan.rollback_path.clone() },
            ),
            SwapPhase::CachedOut => SwapProgress::Continue(
                SwapAction::Promote { staged_name: self.plan.staged_name.clone() },
            ),
            SwapPhase::Promoted => SwapProgress::Completed,
            SwapPhase::Refused => SwapProgress::Failed(
                UpdateError::about(ErrorKind::PersistenceFailed, self.plan.rollback_path.as_str()),
            ),
            SwapPhase::Incomplete => SwapProgress::Failed(
                UpdateError::about(ErrorKind::SwapIncomplete, self.plan.rollback_path.as_str()),
            ),
        }
    }

    /// Takes the report on the rename that this swap waits for, `ok` where
    /// it was done, and says what the swap has come to. The second rename is
    /// asked for only after the first was done. A failed first rename ends
    /// the swap with `PersistenceFailed`, a failed second one with
    /// `SwapIncomplete`; both name the rollback path.
    pub fn advance(&mut self, ok: bool) -> (progress: SwapProgress)
        ensures
            final(self)@.plan == old(self)@.plan,
            final(self)@.phase == phase_after(old(self)@.phase, ok),
            progress@ == progress_in(old(self)@.plan, phase_after(old(self)@.phase, ok)),
    {
        self.phase =
        match self.phase {
            SwapPhase::Ready => if ok {
                SwapPhase::CachedOut
            } else {
                SwapPhase::Refused
            },
            SwapPhase::CachedOut => if ok {
                SwapPhase::Promoted
            } else {
                SwapPhase::Incomplete
            },
            SwapPhase::Promoted => SwapPhase::Promoted,
            SwapPhase::Refused => SwapPhase::Refused,
            SwapPhase::Incomplete => SwapPhase::Incomplete,
        };
        self.progress()
    }
}

/// The three files that a swap touches, each by the bytes it holds where it
/// exists: the running executable, the staged one, and the rollback copy.
pub ghost struct Files {
    pub running: Option<Seq<u8>>,
    pub staged: Option<Seq<u8>>,
    pub rollback: Option<Seq<u8>>,
}

/// The files after the rename that `phase` waits for was reported. A rename
/// that was done has moved its file and replaced what lay at the
/// destination; a rename that failed has moved nothing.
pub open spec fn files_after(files: Files, phase: SwapPhase, ok: bool) -> Files {
    if !ok {
        files
    } else {
        match phase {
            SwapPhase::Ready => Files {
                running: None,
                staged: files.staged,
                rollback: files.running,
            },
            SwapPhase::CachedOut => Files {
                running: files.staged,
                staged: None,
                rollback: files.rollback,
            },
            _ => files,
        }
    }
}

/// The phase and the files after the renames of a swap were reported one
/// after the other as `reports` says.
pub open spec fn swap_run(phase: SwapPhase, files: Files, reports: Seq<bool>) -> (SwapPhase, Files)
    decreases reports.len(),
{
    if reports.len() == 0 {
        (phase, files)
    } else {
        swap_run(
            phase_after(phase, reports[0]),
            files_after(files, phase, reports[0]),
            reports.drop_first(),
        )
    }
}

/// What holds of the files in each phase of a swap that began with the
/// build `previous` running, the build `next` staged, and `kept` at the
/// rollback path.
pub open spec fn swap_consistent(
    phase: SwapPhase,
    files: Files,
    previous: Seq<u8>,
    next: Seq<u8>,
    kept: Option<Seq<u8>>,
) -> bool {
    match phase {
        SwapPhase::Ready | SwapPhase::Refused => files == (Files {
            running: Some(previous),
            staged: Some(next),
            rollback: kept,
        }),
        SwapPhase::CachedOut | SwapPhase::Incomplete => files == (Files {
            running: None,
            staged: Some(next),
            rollback: Some(previous),
        }),
        SwapPhase::Promoted => files == (Files {
            running: Some(next),
            staged: None,
            rollback: Some(previous),
        }),
    }
}

/// Whatever the renames report, a swap leaves the files as its phase says.
pub proof fn lemma_swap_stays_consistent(
    phase: SwapPhase,
    files: Files,
    previous: Seq<u8>,
    next: Seq<u8>,
    kept: Option<Seq<u8>>,
    reports: Seq<bool>,
)
    requires
        swap_consistent(phase, files, previous, next, kept),
    ensures
        swap_consistent(
            swap_run(phase, files, reports).0,
            swap_run(phase, files, reports).1,
            previous,
            next,
            kept,
        ),
    decreases reports.len(),
{
    if reports.len() > 0 {
        lemma_swap_stays_consistent(
            phase_after(phase, reports[0]),
            files_after(files, phase, reports[0]),
            previous,
            next,
            kept,
            reports.drop_first(),
        );
    }
}

/// The previous build is never lost: whatever the renames of a swap report,
/// it lies afterwards at the path of the executable or at the rollback path,
/// and the path of the executable holds one of the two builds or nothing.
pub proof fn lemma_previous_build_survives(
    previous: Seq<u8>,
    next: Seq<u8>,
    kept: Option<Seq<u8>>,
    reports: Seq<bool>,
)
    ensures
        ({
            let start = Files { running: Some(previous), staged: Some(next), rollback: kept };
            let end = swap_run(SwapPhase::Ready, start, reports);
            &&& end.1.running == Some(previous) || end.1.rollback == Some(previous)
            &&& end.1.running == Some(previous) || end.1.running == Some(next)
                || end.1.running is None
            &&& end.1.running is None <==> end.0 == SwapPhase::CachedOut || end.0
                == SwapPhase::Incomplete
        }),
{
    let start = Files { running: Some(previous), staged: Some(next), rollback: kept };
    lemma_swap_stays_consistent(SwapPhase::Ready, start, previous, next, kept, reports);
}

/// A swap whose second rename fails after the first was done ends as
/// `Incomplete`: the rollback path holds the previous build, unchanged, the
/// staged build is still there, the path of the executable is vacant, and
/// the failure reported is `SwapIncomplete` with the rollback path.
pub proof fn lemma_failed_promotion_keeps_rollback(
    plan: SwapPlanView,
    previous: Seq<u8>,
    next: Seq<u8>,
    kept: Option<Seq<u8>>,
)
    ensures
        ({
            let start = Files { running: Some(previous), staged: Some(next), rollback: kept };
            let end = swap_run(SwapPhase::Ready, start, seq![true, false]);
            &&& end.0 == SwapPhase::Incomplete
            &&& end.1 == (Files { running: None, staged: Some(next), rollback: Some(previous) })
            &&& progress_in(plan, end.0) == SwapProgressView::Failed(
                ErrorView { kind: ErrorKind::SwapIncomplete, subject: plan.rollback_path },
            )
        }),
{
    let start = Files { running: Some(previous), staged: Some(next), rollback: kept };
    let reports = seq![true, false];
    let after_first = files_after(start, SwapPhase::Ready, true);
    assert(reports.drop_first() =~= seq![false]);
    assert(seq![false].drop_first() =~= Seq::<bool>::empty());
    assert(swap_run(SwapPhase::Incomplete, after_first, Seq::<bool>::empty()) == (
        SwapPhase::Incomplete,
        after_first,
    ));
    assert(swap_run(SwapPhase::CachedOut, after_first, seq![false]) == (
        SwapPhase::Incomplete,
        after_first,
    ));
}

/// A swap whose two renames are done ends as `Promoted`: the path of the
/// executable holds the new build and the rollback path the previous one.
pub proof fn lemma_completed_swap_installs(
    previous: Seq<u8>,
    next: Seq<u8>,
    kept: Option<Seq<u8>>,
)
    ensures
        ({
            let start = Files { running: Some(previous), staged: Some(next), rollback: kept };
            let end = swap_run(SwapPhase::Ready, start, seq![true, true]);
            &&& end.0 == SwapPhase::Promoted
            &&& end.1 == (Files { running: Some(next), staged: None, rollback: Some(previous) })
        }),
{
    let start = Files { running: Some(previous), staged: Some(next), rollback: kept };
    let reports = seq![true, true];
    let after_first = files_after(start, SwapPhase::Ready, true);
    let after_second = files_after(after_first, SwapPhase::CachedOut, true);
    assert(reports.drop_first() =~= seq![true]);
    assert(seq![true].drop_first() =~= Seq::<bool>::empty());
    assert(swap_run(SwapPhase::Promoted, after_second, Seq::<bool>::empty()) == (
        SwapPhase::Promoted,
        after_second,
    ));
    assert(swap_run(SwapPhase::CachedOut, after_first, seq![true]) == (
        SwapPhase::Promoted,
        after_second,
    ));
}

/// A swap whose first rename fails ends as `Refused` and has moved nothing;
/// the failure reported is not `SwapIncomplete`.
pub proof fn lemma_refused_swap_moves_nothing(plan: SwapPlanView, files: Files)
    ensures
        swap_run(SwapPhase::Ready, files, seq![false]) == (SwapPhase::Refused, files),
        progress_in(plan, SwapPhase::Refused) == SwapProgressView::Failed(
            ErrorView { kind: ErrorKind::PersistenceFailed, subject: plan.rollback_path },
        ),
{
    assert(seq![false].drop_first() =~= Seq::<bool>::empty());
    assert(swap_run(SwapPhase::Refused, files, Seq::<bool>::empty()) == (
        SwapPhase::Refused,
        files,
    ));
}

/// The second rename is asked for only once the first was done: a swap asks
/// for the promotion in the phase `CachedOut` and in no other, and it enters
/// that phase only from `Ready`, on the report that the first rename was
/// done.
pub proof fn lemma_promotion_follows_cache_out(plan: SwapPlanView, phase: SwapPhase)
    ensures
        progress_in(plan, phase) is Continue && progress_in(plan, phase)->Continue_0 is Promote
            <==> phase == SwapPhase::CachedOut,
        phase_after(SwapPhase::Ready, true) == SwapPhase::CachedOut,
        forall|earlier: SwapPhase, ok: bool|
            phase_after(earlier, ok) == SwapPhase::CachedOut ==> earlier == SwapPhase::Ready
                && ok,
{
}

} // verus!
