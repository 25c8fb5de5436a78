//! Wheel assembly: one archive for each task, in the order of the list.
//!
//! Writing an archive touches the disk, so it happens outside this library.
//! What is decided here is which request the wheel writer gets next. Each
//! task takes three requests: create the archive for the task's tag, copy the
//! artifact into it under the task's library name, finalize it. The caller
//! performs a request and hands back how it went; the first failure aborts
//! the assembly for good, with the wheels finalized before it left as they
//! are and the tasks after it never started.
//!
//! Tasks are not compared with each other: two tasks with the same tag are
//! both assembled, and the writer decides what becomes of the first archive.

use vstd::prelude::*;
use vstd::string::*;
use crate::error::{PackagingError, PackagingErrorView, PackagingStage};
use crate::task::{task_views, WheelTask, WheelTaskView};
use crate::text::texts;

verus! {

/// What the wheel writer is asked to do next.
#[derive(Clone, Debug, PartialEq, Eq)]
pub enum WriterAction {
    /// Open a new archive for `tag`, whose list of compatibility tags is
    /// `tags`.
    Create { tag: String, tags: Vec<String> },
    /// Copy the artifact into the open archive under the name `target`.
    Copy { target: String },
    /// Close the open archive and tell the operator where it is.
    Finalize,
    /// Nothing is left to do: every task has its wheel.
    Finished,
    /// Give up: a request has failed.
    Abort { error: PackagingError },
}

/// The mathematical value of a [`WriterAction`].
pub enum WriterActionView {
    Create { tag: Seq<char>, tags: Seq<Seq<char>> },
    Copy { target: Seq<char> },
    Finalize,
    Finished,
    Abort { error: PackagingErrorView },
}

impl View for WriterAction {
    type V = WriterActionView;

    open spec fn view(&self) -> WriterActionView {
        match self {
            WriterAction::Create { tag, tags } => WriterActionView::Create {
                tag: tag@,
                tags: texts(tags@),
            },
            WriterAction::Copy { target } => WriterActionView::Copy { target: target@ },
            WriterAction::Finalize => WriterActionView::Finalize,
            WriterAction::Finished => WriterActionView::Finished,
            WriterAction::Abort { error } => WriterActionView::Abort { error: error@ },
        }
    }
}

/// How the wheel writer fared with the request it was given.
#[derive(Clone, Debug, PartialEq, Eq)]
pub enum WriterOutcome {
    /// The request was carried out.
    Succeeded,
    /// The request failed, for the reason in `detail`.
    Failed { detail: String },
}

/// The mathematical value of a [`WriterOutcome`].
pub enum WriterOutcomeView {
    Succeeded,
    Failed { detail: Seq<char> },
}

impl View for WriterOutcome {
    type V = WriterOutcomeView;

    open spec fn view(&self) -> WriterOutcomeView {
        match self {
            WriterOutcome::Succeeded => WriterOutcomeView::Succeeded,
            WriterOutcome::Failed { detail } => WriterOutcomeView::Failed { detail: detail@ },
        }
    }
}

/// How far an assembly has come.
#[derive(Clone, Debug, PartialEq, Eq)]
pub enum Progress {
    /// The writer has been asked to take `stage` for the task at `task`.
    Working { task: usize, stage: PackagingStage },
    /// Every task has its wheel.
    Finished,
    /// A request failed; nothing more will be asked.
    Aborted { error: PackagingError },
}

/// The mathematical value of a [`Progress`].
pub enum ProgressView {
    Working { task: nat, stage: PackagingStage },
    Finished,
    Aborted { error: PackagingErrorView },
}

impl View for Progress {
    type V = ProgressView;

    open spec fn view(&self) -> ProgressView {
        match self {
            Progress::Working { task, stage } => ProgressView::Working {
                task: *task as nat,
                stage: *stage,
            },
            Progress::Finished => ProgressView::Finished,
            Progress::Aborted { error } => ProgressView::Aborted { error: error@ },
        }
    }
}

/// The mathematical value of an [`Assembly`]: the tasks it was started with
/// and how far it has come.
pub struct AssemblyView {
    pub tasks: Seq<WheelTaskView>,
    pub progress: ProgressView,
}

/// The stage that follows `stage` within one task, if any.
pub open spec fn next_stage(stage: PackagingStage) -> Option<PackagingStage> {
    match stage {
        PackagingStage::Create => Some(PackagingStage::Copy),
        PackagingStage::Copy => Some(PackagingStage::Finalize),
        PackagingStage::Finalize => None,
    }
}

/// What the writer is asked to do for `task` at `stage`.
pub open spec fn request_for(task: WheelTaskView, stage: PackagingStage) -> WriterActionView {
    match stage {
        PackagingStage::Create => WriterActionView::Create { tag: task.tag, tags: seq![task.tag] },
        PackagingStage::Copy => WriterActionView::Copy { target: task.library_name },
        PackagingStage::Finalize => WriterActionView::Finalize,
    }
}

/// The state in which work on the task at `task` begins, or the finished
/// state where the list has no such task.
pub open spec fn entering(tasks: Seq<WheelTaskView>, task: nat) -> ProgressView {
    if task < tasks.len() {
        ProgressView::Working { task, stage: PackagingStage::Create }
    } else {
        ProgressView::Finished
    }
}

/// An assembly of `tasks` before any request was answered.
pub open spec fn begin(tasks: Seq<WheelTaskView>) -> AssemblyView {
    AssemblyView { tasks, progress: entering(tasks, 0) }
}

impl AssemblyView {
    /// Whether the progress speaks of a task of the list, and an abort
    /// carries the tag of the task that failed.
    pub open spec fn well_formed(self) -> bool {
        match self.progress {
            ProgressView::Working { task, stage } => task < self.tasks.len(),
            ProgressView::Finished => true,
            ProgressView::Aborted { error } => error.task < self.tasks.len() && error.tag
                == self.tasks[error.task as int].tag,
        }
    }

    /// The request that is waiting for an answer.
    pub open spec fn pending(self) -> WriterActionView {
        match self.progress {
            ProgressView::Working { task, stage } => request_for(self.tasks[task as int], stage),
            ProgressView::Finished => WriterActionView::Finished,
            ProgressView::Aborted { error } => WriterActionView::Abort { error },
        }
    }

    /// How many tasks have had their wheel finalized.
    pub open spec fn finalized(self) -> nat {
        match self.progress {
            ProgressView::Working { task, stage } => task,
            ProgressView::Finished => self.tasks.len(),
            ProgressView::Aborted { error } => error.task,
        }
    }

    /// The assembly after the pending request was answered with `outcome`.
    ///
    /// A finished or aborted assembly stays as it is, whatever the answer.
    pub open spec fn after(self, outcome: WriterOutcomeView) -> AssemblyView {
        match self.progress {
            ProgressView::Working { task, stage } => match outcome {
                WriterOutcomeView::Succeeded => match next_stage(stage) {
                    Some(next) => AssemblyView {
                        tasks: self.tasks,
                        progress: ProgressView::Working { task, stage: next },
                    },
                    None => AssemblyView {
                        tasks: self.tasks,
                        progress: entering(self.tasks, task + 1),
                    },
                },
                WriterOutcomeView::Failed { detail } => AssemblyView {
                    tasks: self.tasks,
                    progress: ProgressView::Aborted {
                        error: PackagingErrorView {
                            stage,
                            task,
                            tag: self.tasks[task as int].tag,
                            detail,
                        },
                    },
                },
            },
            ProgressView::Finished => self,
            ProgressView::Aborted { error } => self,
        }
    }
}

/// The assembly of `tasks` after the answers `outcomes`, in that order.
pub open spec fn run(tasks: Seq<WheelTaskView>, outcomes: Seq<WriterOutcomeView>) -> AssemblyView
    decreases outcomes.len(),
{
    if outcomes.len() == 0 {
        begin(tasks)
    } else {
        run(tasks, outcomes.drop_last()).after(outcomes.last())
    }
}

/// The stage of the request with the number `request`, counted from zero
/// over a run in which nothing fails.
pub open spec fn stage_at(request: nat) -> PackagingStage {
    if request % 3 == 0 {
        PackagingStage::Create
    } else if request % 3 == 1 {
        PackagingStage::Copy
    } else {
        PackagingStage::Finalize
    }
}

/// Whether each of the first `count` answers of `outcomes` is a success.
pub open spec fn succeeded_up_to(outcomes: Seq<WriterOutcomeView>, count: int) -> bool {
    forall|k: int| 0 <= k < count ==> #[trigger] outcomes[k] is Succeeded
}

/// An answer leaves a well-formed assembly well-formed, and never touches
/// the task list.
pub proof fn law_answers_keep_the_assembly_well_formed(
    assembly: AssemblyView,
    outcome: WriterOutcomeView,
)
    requires
        assembly.well_formed(),
    ensures
        assembly.after(outcome).well_formed(),
        assembly.after(outcome).tasks == assembly.tasks,
        assembly.after(outcome).finalized() >= assembly.finalized(),
{
}

/// Requests follow the list: while nothing fails, the request with the
/// number `n` is stage `n % 3` of the task at `n / 3`, so each task is taken
/// once, in list order, and only after the wheel of the task before it was
/// finalized. After three successes for each task the assembly is finished.
pub proof fn law_requests_follow_the_list(
    tasks: Seq<WheelTaskView>,
    outcomes: Seq<WriterOutcomeView>,
)
    requires
        outcomes.len() <= 3 * tasks.len(),
        succeeded_up_to(outcomes, outcomes.len() as int),
    ensures
        run(tasks, outcomes).tasks == tasks,
        run(tasks, outcomes).well_formed(),
        outcomes.len() < 3 * tasks.len() ==> run(tasks, outcomes).progress
            == (ProgressView::Working {
            task: outcomes.len() / 3,
            stage: stage_at(outcomes.len()),
        }),
        outcomes.len() < 3 * tasks.len() ==> run(tasks, outcomes).pending() == request_for(
            tasks[outcomes.len() as int / 3],
            stage_at(outcomes.len()),
        ),
        outcomes.len() == 3 * tasks.len() ==> run(tasks, outcomes).progress
            == ProgressView::Finished,
    decreases outcomes.len(),
{
    if outcomes.len() > 0 {
        let earlier = outcomes.drop_last();
        assert forall|k: int| 0 <= k < earlier.len() implies #[trigger] earlier[k] is Succeeded by {
            assert(earlier[k] == outcomes[k]);
        }
        law_requests_follow_the_list(tasks, earlier);
        assert(outcomes.last() is Succeeded);
    }
}

/// The first failure is final.
///
/// Let the answer with the number `failed` be the first failure, given while
/// tasks were still open. Then, whatever answers follow it, the assembly is
/// aborted with an error that names the stage `failed % 3` of the task at
/// `failed / 3`; the tasks before that one, and no others, have their wheel
/// finalized; and the only request left is to abort, so no later task is
/// ever started.
pub proof fn law_first_failure_is_final(
    tasks: Seq<WheelTaskView>,
    outcomes: Seq<WriterOutcomeView>,
    failed: int,
)
    requires
        0 <= failed < outcomes.len(),
        failed < 3 * tasks.len(),
        succeeded_up_to(outcomes, failed),
        outcomes[failed] is Failed,
    ensures
        run(tasks, outcomes).progress == (ProgressView::Aborted {
            error: PackagingErrorView {
                stage: stage_at(failed as nat),
                task: (failed / 3) as nat,
                tag: tasks[failed / 3].tag,
                detail: outcomes[failed]->detail,
            },
        }),
        run(tasks, outcomes).finalized() == failed / 3,
        run(tasks, outcomes).pending() is Abort,
    decreases outcomes.len(),
{
    let earlier = outcomes.drop_last();
    if failed == outcomes.len() - 1 {
        assert forall|k: int| 0 <= k < earlier.len() implies #[trigger] earlier[k] is Succeeded by {
            assert(earlier[k] == outcomes[k]);
        }
        law_requests_follow_the_list(tasks, earlier);
    } else {
        assert forall|k: int| 0 <= k < failed implies #[trigger] earlier[k] is Succeeded by {
            assert(earlier[k] == outcomes[k]);
        }
        assert(earlier[failed] == outcomes[failed]);
        law_first_failure_is_final(tasks, earlier, failed);
    }
}

/// What is asked of the writer for a task depends on that task and on the
/// stage alone: not on the tasks around it, not on its place in the list,
/// and not on what was asked before. Taking the same task again asks the
/// same of the writer.
pub proof fn law_requests_depend_on_the_task_alone(first: AssemblyView, second: AssemblyView)
    requires
        first.well_formed(),
        second.well_formed(),
        first.progress is Working,
        second.progress is Working,
        first.progress->stage == second.progress->stage,
        first.tasks[first.progress->task as int] == second.tasks[second.progress->task as int],
    ensures
        first.pending() == second.pending(),
{
}

/// The decisions of one wheel assembly.
pub struct Assembly {
    tasks: Vec<WheelTask>,
    progress: Progress,
}

impl View for Assembly {
    type V = AssemblyView;

    closed spec fn view(&self) -> AssemblyView {
        AssemblyView { tasks: task_views(self.tasks@), progress: self.progress@ }
    }
}

impl Assembly {
    #[verifier::type_invariant]
    spec fn valid(self) -> bool {
        self@.well_formed()
    }

    /// Starts the assembly of `tasks` and says what to ask of the writer
    /// first.
    pub fn start(tasks: Vec<WheelTask>) -> (started: (Assembly, WriterAction))
        ensures
            started.0@ == begin(task_views(tasks@)),
            started.1@ == started.0@.pending(),
    {
        let progress = if tasks.len() > 0 {
            Progress::Working { task: 0, stage: PackagingStage::Create }
        } else {
            Progress::Finished
        };
        let assembly = Assembly { tasks, progress };
        let action = assembly.request();
        (assembly, action)
    }

    /// The request that is waiting for an answer.
    pub fn request(&self) -> (action: WriterAction)
        ensures
            action@ == self@.pending(),
            self@.well_formed(),
    {
        proof {
            use_type_invariant(self);
        }
        match &self.progress {
            Progress::Working { task, stage } => {
                let current = &self.tasks[*task];
                match stage {
                    PackagingStage::Create => {
                        let mut tags: Vec<String> = Vec::new();
                        tags.push(current.tag.clone());
                        assert(texts(tags@) == seq![current.tag@]);
                        WriterAction::Create { tag: current.tag.clone(), tags }
                    },
                    PackagingStage::Copy => WriterAction::Copy {
                        target: current.library_name.clone(),
                    },
                    PackagingStage::Finalize => WriterAction::Finalize,
                }
            },
            Progress::Finished => WriterAction::Finished,
            Progress::Aborted { error } => WriterAction::Abort {
                error: PackagingError {
                    stage: error.stage,
                    task: error.task,
                    tag: error.tag.clone(),
                    detail: error.detail.clone(),
                },
            },
        }
    }

    /// Takes the answer to the pending request and says what to ask next.
    pub fn step(&mut self, outcome: WriterOutcome) -> (action: WriterAction)
        ensures
            final(self)@ == old(self)@.after(outcome@),
            action@ == final(self)@.pending(),
            final(self)@.well_formed(),
    {
        proof {
            use_type_invariant(&*self);
        }
        let working = match &self.progress {
            Progress::Working { task, stage } => Some((*task, *stage)),
            Progress::Finished => None,
            Progress::Aborted { error } => None,
        };
        if let Some((task, stage)) = working {
            let count = self.tasks.len();
            self.progress = match outcome {
                WriterOutcome::Succeeded => match stage {
                    PackagingStage::Create => Progress::Working {
                        task,
                        stage: PackagingStage::Copy,
                    },
                    PackagingStage::Copy => Progress::Working {
                        task,
                        stage: PackagingStage::Finalize,
                    },
                    PackagingStage::Finalize => if task + 1 < count {
                        Progress::Working { task: task + 1, stage: PackagingStage::Create }
                    } else {
                        Progress::Finished
                    },
                },
                WriterOutcome::Failed { detail } => Progress::Aborted {
                    error: PackagingError {
                        stage,
                        task,
                        tag: self.tasks[task].tag.clone(),
                        detail,
                    },
                },
            };
        }
        self.request()
    }

    /// How many tasks have had their wheel finalized.
    pub fn finalized(&self) -> (count: usize)
        ensures
            count == self@.finalized(),
    {
        match &self.progress {
            Progress::Working { task, stage } => *task,
            Progress::Finished => self.tasks.len(),
            Progress::Aborted { error } => error.task,
        }
    }

    /// How far the assembly has come.
    pub fn progress(&self) -> (progress: &Progress)
        ensures
            progress@ == self@.progress,
    {
        &self.progress
    }
}

/// The line that tells the operator where a finalized wheel is.
pub open spec fn wheel_notice(wheel_path: Seq<char>) -> Seq<char> {
    "\u{1f4e6} successfuly created wheel "@ + wheel_path
}

/// Words the line that tells the operator where a finalized wheel is.
pub fn wheel_report(wheel_path: &str) -> (notice: String)
    ensures
        notice@ == wheel_notice(wheel_path@),
{
    let mut notice = String::from_str("\u{1f4e6} successfuly created wheel ");
    notice.append(wheel_path);
    notice
}

} // verus!
