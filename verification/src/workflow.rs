//! The order of the work: resolve the image, rebase, set kernel arguments
//! where the GPU profile asks for them, restart or leave the restart to the
//! user. The workflow decides; whoever drives it carries each action out on
//! the host and hands back what happened.

use crate::image::{
    desktop_of_name, driver_of_hint, reference_of, selection_of, ImageReference,
    ImageReferenceView, ResolveError, Selection,
};
use crate::kargs::KernelArgPhase;
use crate::release::{release_of, OsRelease};
use vstd::prelude::*;

verus! {

/// How a command on the host ended.
#[derive(Clone, Copy, Debug, PartialEq, Eq, Structural)]
pub enum ProcessStatus {
    /// It returned with this exit code.
    Exited(i32),
    /// A signal with this number ended it.
    Signaled(i32),
}

/// What became of one step.
#[derive(Clone, Copy, Debug, PartialEq, Eq, Structural)]
pub enum StepOutcome {
    /// The host carried the step out.
    Success,
    /// The host reported a failure, with this status.
    Failure(ProcessStatus),
    /// The host was not asked to carry the step out.
    Skipped,
}

/// What is left for the user to do by hand once the workflow has ended.
#[derive(Clone, Copy, Debug, PartialEq, Eq, Structural)]
pub enum FollowUp {
    Nothing,
    /// The new image is staged and takes effect with the next restart.
    RebootManually,
    /// The new image is staged, but the kernel arguments it needs are not
    /// set: it may not start with GPU acceleration.
    ConfigureKernelArgsManually,
}

/// Why a workflow failed.
#[derive(Clone, Copy, Debug, PartialEq, Eq, Structural)]
pub enum WorkflowError {
    /// The selection names an unknown environment or driver version.
    InputValidation(ResolveError),
    /// The host's release could not be told.
    VersionUnavailable,
    /// The rebase failed, with this status. Nothing was changed after it.
    RebaseFailed(ProcessStatus),
    /// The rebase succeeded, but appending the kernel arguments failed with
    /// this status.
    KernelArgConfigFailed(ProcessStatus),
}

/// Where a workflow stands.
#[derive(Clone, Copy, Debug, PartialEq, Eq, Structural)]
pub enum State {
    /// The selection is checked; the host's release is awaited.
    Resolving,
    /// The rebase has been asked for.
    Rebasing,
    /// The given phase of the kernel-argument configuration has been asked
    /// for.
    ConfiguringKernelArgs(KernelArgPhase),
    /// The restart has been asked for.
    Rebooting,
    Done,
    Failed(WorkflowError),
}

/// The outcome of each step so far, and what is left to the user.
#[derive(Clone, Copy, Debug, PartialEq, Eq, Structural)]
pub struct WorkflowResult {
    pub rebase: StepOutcome,
    /// The cleanup phase of the kernel-argument configuration. Its outcome is
    /// kept, but the append phase runs whatever it was.
    pub kernel_args_cleanup: StepOutcome,
    /// The kernel-argument configuration as a whole, decided by its append
    /// phase.
    pub kernel_args: StepOutcome,
    pub reboot: StepOutcome,
    pub follow_up: FollowUp,
}

/// What the host is asked to do next.
#[derive(Debug, PartialEq, Eq)]
pub enum Action {
    /// Tell the release of the running system.
    QueryRelease,
    /// Rebase to this reference.
    Rebase(ImageReference),
    /// Run this phase of the kernel-argument configuration.
    ConfigureKernelArgs(KernelArgPhase),
    /// Restart. The host may go down before it answers.
    Reboot,
    /// Nothing: the workflow has ended.
    Finish,
}

/// What the host answered to the last action.
#[derive(Debug, PartialEq, Eq)]
pub enum Event {
    /// The release, as the host printed it.
    ReleaseRead(String),
    /// The release could not be read.
    ReleaseUnavailable,
    /// The command of the last action ended with this status.
    Finished(ProcessStatus),
}

/// An action, with its reference as plain text.
pub enum ActionView {
    QueryRelease,
    Rebase(ImageReferenceView),
    ConfigureKernelArgs(KernelArgPhase),
    Reboot,
    Finish,
}

/// An event, with its release as plain text.
pub enum EventView {
    ReleaseRead(Seq<char>),
    ReleaseUnavailable,
    Finished(ProcessStatus),
}

impl View for Action {
    type V = ActionView;

    open spec fn view(&self) -> ActionView {
        match self {
            Action::QueryRelease => ActionView::QueryRelease,
            Action::Rebase(reference) => ActionView::Rebase(reference@),
            Action::ConfigureKernelArgs(phase) => ActionView::ConfigureKernelArgs(*phase),
            Action::Reboot => ActionView::Reboot,
            Action::Finish => ActionView::Finish,
        }
    }
}

impl View for Event {
    type V = EventView;

    open spec fn view(&self) -> EventView {
        match self {
            Event::ReleaseRead(text) => EventView::ReleaseRead(text@),
            Event::ReleaseUnavailable => EventView::ReleaseUnavailable,
            Event::Finished(status) => EventView::Finished(*status),
        }
    }
}

/// What a workflow holds: the checked selection (none where the selection
/// was refused), where it stands, and the outcomes so far.
pub struct WorkflowView {
    pub selection: Option<Selection>,
    pub state: State,
    pub result: WorkflowResult,
}

/// A workflow: one run of the transition from the selection to its end.
#[derive(Clone, Copy, Debug, PartialEq, Eq)]
pub struct Workflow {
    selection: Option<Selection>,
    state: State,
    result: WorkflowResult,
}

impl View for Workflow {
    type V = WorkflowView;

    closed spec fn view(&self) -> WorkflowView {
        WorkflowView { selection: self.selection, state: self.state, result: self.result }
    }
}

/// Whether a command ended well: it returned, with exit code zero.
pub open spec fn succeeded(status: ProcessStatus) -> bool {
    status == ProcessStatus::Exited(0)
}

/// The outcome of a step whose command ended with `status`.
pub open spec fn outcome_of(status: ProcessStatus) -> StepOutcome {
    if succeeded(status) {
        StepOutcome::Success
    } else {
        StepOutcome::Failure(status)
    }
}

/// The result before the host has been asked for any change.
pub open spec fn untouched() -> WorkflowResult {
    WorkflowResult {
        rebase: StepOutcome::Skipped,
        kernel_args_cleanup: StepOutcome::Skipped,
        kernel_args: StepOutcome::Skipped,
        reboot: StepOutcome::Skipped,
        follow_up: FollowUp::Nothing,
    }
}

/// Whether the staged image may be restarted into: the rebase succeeded,
/// and the kernel arguments are set if the GPU profile asks for them, and
/// were left alone if it does not.
pub open spec fn ready_to_reboot(selection: Selection, result: WorkflowResult) -> bool {
    &&& result.rebase == StepOutcome::Success
    &&& if selection.gpu {
        result.kernel_args == StepOutcome::Success
    } else {
        &&& result.kernel_args == StepOutcome::Skipped
        &&& result.kernel_args_cleanup == StepOutcome::Skipped
    }
}

/// Whether the outcomes fit the state: what holds of every workflow.
pub open spec fn consistent(workflow: WorkflowView) -> bool {
    let result = workflow.result;
    match workflow.state {
        State::Resolving | State::Rebasing | State::Failed(WorkflowError::VersionUnavailable) => {
            &&& workflow.selection is Some
            &&& result == untouched()
        },
        State::ConfiguringKernelArgs(phase) => {
            &&& workflow.selection matches Some(selection)
            &&& selection.gpu
            &&& result.rebase == StepOutcome::Success
            &&& (phase == KernelArgPhase::Cleanup) == (result.kernel_args_cleanup
                == StepOutcome::Skipped)
            &&& result.kernel_args == StepOutcome::Skipped
            &&& result.reboot == StepOutcome::Skipped
            &&& result.follow_up == FollowUp::Nothing
        },
        State::Rebooting => {
            &&& workflow.selection matches Some(selection)
            &&& selection.auto_reboot
            &&& ready_to_reboot(selection, result)
            &&& result.reboot == StepOutcome::Skipped
            &&& result.follow_up == FollowUp::Nothing
        },
        State::Done => {
            &&& workflow.selection matches Some(selection)
            &&& ready_to_reboot(selection, result)
            &&& (result.reboot == StepOutcome::Skipped) == !selection.auto_reboot
            &&& (result.follow_up == FollowUp::Nothing) == (result.reboot == StepOutcome::Success)
            &&& result.follow_up != FollowUp::ConfigureKernelArgsManually
        },
        State::Failed(WorkflowError::InputValidation(_)) => {
            &&& workflow.selection is None
            &&& result == untouched()
        },
        State::Failed(WorkflowError::RebaseFailed(status)) => {
            &&& workflow.selection is Some
            &&& !succeeded(status)
            &&& result == WorkflowResult { rebase: StepOutcome::Failure(status), ..untouched() }
        },
        State::Failed(WorkflowError::KernelArgConfigFailed(status)) => {
            &&& workflow.selection matches Some(selection)
            &&& selection.gpu
            &&& !succeeded(status)
            &&& result.rebase == StepOutcome::Success
            &&& result.kernel_args_cleanup != StepOutcome::Skipped
            &&& result.kernel_args == StepOutcome::Failure(status)
            &&& result.reboot == StepOutcome::Skipped
            &&& result.follow_up == FollowUp::ConfigureKernelArgsManually
        },
    }
}

/// Whether the workflow has ended.
pub open spec fn is_terminal(state: State) -> bool {
    state is Done || state is Failed
}

/// The workflow that the words of a selection begin, and its first action.
/// A selection that is refused begins a workflow that has failed already
/// and asks nothing of the host.
pub open spec fn begun(name: Seq<char>, gpu: bool, hint: Seq<char>, auto_reboot: bool) -> (
    WorkflowView,
    ActionView,
) {
    match selection_of(name, gpu, hint, auto_reboot) {
        Err(error) => (
            WorkflowView {
                selection: None,
                state: State::Failed(WorkflowError::InputValidation(error)),
                result: untouched(),
            },
            ActionView::Finish,
        ),
        Ok(selection) => (
            WorkflowView {
                selection: Some(selection),
                state: State::Resolving,
                result: untouched(),
            },
            ActionView::QueryRelease,
        ),
    }
}

/// The step to the restart, once the image is ready for it: the restart is
/// asked for if the selection says so; if not, the workflow ends with the
/// restart left to the user.
pub open spec fn towards_reboot(workflow: WorkflowView, selection: Selection) -> (
    WorkflowView,
    Option<ActionView>,
) {
    if selection.auto_reboot {
        (WorkflowView { state: State::Rebooting, ..workflow }, Some(ActionView::Reboot))
    } else {
        (
            WorkflowView {
                state: State::Done,
                result: WorkflowResult { follow_up: FollowUp::RebootManually, ..workflow.result },
                ..workflow
            },
            Some(ActionView::Finish),
        )
    }
}

/// The workflow after an event, and the action that follows. An event that
/// the state does not await changes nothing and is answered with no action;
/// so is every event once the workflow has ended.
pub open spec fn step(workflow: WorkflowView, event: EventView) -> (
    WorkflowView,
    Option<ActionView>,
) {
    let result = workflow.result;
    match (workflow.state, workflow.selection, event) {
        (State::Resolving, Some(selection), EventView::ReleaseRead(raw)) => match release_of(raw) {
            Some(release) => (
                WorkflowView { state: State::Rebasing, ..workflow },
                Some(ActionView::Rebase(reference_of(selection, release))),
            ),
            None => (
                WorkflowView {
                    state: State::Failed(WorkflowError::VersionUnavailable),
                    ..workflow
                },
                Some(ActionView::Finish),
            ),
        },
        (State::Resolving, Some(_), EventView::ReleaseUnavailable) => (
            WorkflowView { state: State::Failed(WorkflowError::VersionUnavailable), ..workflow },
            Some(ActionView::Finish),
        ),
        (State::Rebasing, Some(selection), EventView::Finished(status)) => {
            let recorded = WorkflowView {
                result: WorkflowResult { rebase: outcome_of(status), ..result },
                ..workflow
            };
            if !succeeded(status) {
                (
                    WorkflowView {
                        state: State::Failed(WorkflowError::RebaseFailed(status)),
                        ..recorded
                    },
                    Some(ActionView::Finish),
                )
            } else if selection.gpu {
                (
                    WorkflowView {
                        state: State::ConfiguringKernelArgs(KernelArgPhase::Cleanup),
                        ..recorded
                    },
                    Some(ActionView::ConfigureKernelArgs(KernelArgPhase::Cleanup)),
                )
            } else {
                towards_reboot(recorded, selection)
            }
        },
        (
            State::ConfiguringKernelArgs(KernelArgPhase::Cleanup),
            Some(_),
            EventView::Finished(status),
        ) => (
            WorkflowView {
                state: State::ConfiguringKernelArgs(KernelArgPhase::Append),
                result: WorkflowResult { kernel_args_cleanup: outcome_of(status), ..result },
                ..workflow
            },
            Some(ActionView::ConfigureKernelArgs(KernelArgPhase::Append)),
        ),
        (
            State::ConfiguringKernelArgs(KernelArgPhase::Append),
            Some(selection),
            EventView::Finished(status),
        ) => {
            let recorded = WorkflowView {
                result: WorkflowResult { kernel_args: outcome_of(status), ..result },
                ..workflow
            };
            if succeeded(status) {
                towards_reboot(recorded, selection)
            } else {
                (
                    WorkflowView {
                        state: State::Failed(WorkflowError::KernelArgConfigFailed(status)),
                        result: WorkflowResult {
                            follow_up: FollowUp::ConfigureKernelArgsManually,
                            ..recorded.result
                        },
                        ..recorded
                    },
                    Some(ActionView::Finish),
                )
            }
        },
        (State::Rebooting, Some(_), EventView::Finished(status)) => (
            WorkflowView {
                state: State::Done,
                result: WorkflowResult {
                    reboot: outcome_of(status),
                    follow_up: if succeeded(status) {
                        FollowUp::Nothing
                    } else {
                        FollowUp::RebootManually
                    },
                    ..result
                },
                ..workflow
            },
            Some(ActionView::Finish),
        ),
        _ => (workflow, None),
    }
}

impl ProcessStatus {
    /// Whether the command ended well.
    pub fn success(self) -> (ok: bool)
        ensures
            ok == succeeded(self),
    {
        match self {
            ProcessStatus::Exited(code) => code == 0,
            ProcessStatus::Signaled(_) => false,
        }
    }

    /// The outcome of a step whose command ended with this status.
    pub fn outcome(self) -> (outcome: StepOutcome)
        ensures
            outcome == outcome_of(self),
    {
        if self.success() {
            StepOutcome::Success
        } else {
            StepOutcome::Failure(self)
        }
    }
}

impl WorkflowResult {
    /// The result before the host has been asked for any change.
    pub fn untouched() -> (result: WorkflowResult)
        ensures
            result == untouched(),
    {
        WorkflowResult {
            rebase: StepOutcome::Skipped,
            kernel_args_cleanup: StepOutcome::Skipped,
            kernel_args: StepOutcome::Skipped,
            reboot: StepOutcome::Skipped,
            follow_up: FollowUp::Nothing,
        }
    }
}

impl Workflow {
    #[verifier::type_invariant]
    spec fn well_formed(self) -> bool {
        consistent(self@)
    }

    /// Begins a workflow from the words of a selection, matched as the table
    /// and the vocabulary spell them. Nothing is asked of the host before
    /// the selection is known to be good.
    pub fn begin(desktop_env: &str, gpu: bool, driver_hint: &str, auto_reboot: bool) -> (started: (
        Workflow,
        Action,
    ))
        ensures
            started.0@ == begun(desktop_env@, gpu, driver_hint@, auto_reboot).0,
            started.1@ == begun(desktop_env@, gpu, driver_hint@, auto_reboot).1,
    {
        match Selection::select(desktop_env, gpu, driver_hint, auto_reboot) {
            Err(error) => (
                Workflow {
                    selection: None,
                    state: State::Failed(WorkflowError::InputValidation(error)),
                    result: WorkflowResult::untouched(),
                },
                Action::Finish,
            ),
            Ok(selection) => (
                Workflow {
                    selection: Some(selection),
                    state: State::Resolving,
                    result: WorkflowResult::untouched(),
                },
                Action::QueryRelease,
            ),
        }
    }

    /// Takes in what the host answered to the last action, and says what to
    /// do next. `None` means that the event was not awaited: nothing has
    /// changed, and nothing is to be done on its account.
    pub fn advance(&mut self, event: Event) -> (action: Option<Action>)
        ensures
            final(self)@ == step(old(self)@, event@).0,
            (match action {
                Some(next) => step(old(self)@, event@).1 == Some(next@),
                None => step(old(self)@, event@).1 is None,
            }),
    {
        proof {
            use_type_invariant(&*self);
        }
        let selection = match self.selection {
            Some(selection) => selection,
            None => {
                return None;
            },
        };
        let result = self.result;
        match (self.state, event) {
            (State::Resolving, Event::ReleaseRead(raw)) => match OsRelease::parse(raw.as_str()) {
                Ok(release) => {
                    let reference = ImageReference::build(&selection, &release);
                    *self = Workflow { selection: Some(selection), state: State::Rebasing, result };
                    Some(Action::Rebase(reference))
                },
                Err(_) => {
                    *self = Workflow {
                        selection: Some(selection),
                        state: State::Failed(WorkflowError::VersionUnavailable),
                        result,
                    };
                    Some(Action::Finish)
                },
            },
            (State::Resolving, Event::ReleaseUnavailable) => {
                *self = Workflow {
                    selection: Some(selection),
                    state: State::Failed(WorkflowError::VersionUnavailable),
                    result,
                };
                Some(Action::Finish)
            },
            (State::Rebasing, Event::Finished(status)) => {
                let recorded = WorkflowResult { rebase: status.outcome(), ..result };
                if !status.success() {
                    *self = Workflow {
                        selection: Some(selection),
                        state: State::Failed(WorkflowError::RebaseFailed(status)),
                        result: recorded,
                    };
                    Some(Action::Finish)
                } else if selection.gpu {
                    *self = Workflow {
                        selection: Some(selection),
                        state: State::ConfiguringKernelArgs(KernelArgPhase::Cleanup),
                        result: recorded,
                    };
                    Some(Action::ConfigureKernelArgs(KernelArgPhase::Cleanup))
                } else {
                    Some(self.move_towards_reboot(selection, recorded))
                }
            },
            (State::ConfiguringKernelArgs(KernelArgPhase::Cleanup), Event::Finished(status)) => {
                *self = Workflow {
                    selection: Some(selection),
                    state: State::ConfiguringKernelArgs(KernelArgPhase::Append),
                    result: WorkflowResult { kernel_args_cleanup: status.outcome(), ..result },
                };
                Some(Action::ConfigureKernelArgs(KernelArgPhase::Append))
            },
            (State::ConfiguringKernelArgs(KernelArgPhase::Append), Event::Finished(status)) => {
                let recorded = WorkflowResult { kernel_args: status.outcome(), ..result };
                if status.success() {
                    Some(self.move_towards_reboot(selection, recorded))
                } else {
                    *self = Workflow {
                        selection: Some(selection),
                        state: State::Failed(WorkflowError::KernelArgConfigFailed(status)),
                        result: WorkflowResult {
                            follow_up: FollowUp::ConfigureKernelArgsManually,
                            ..recorded
                        },
                    };
                    Some(Action::Finish)
                }
            },
            (State::Rebooting, Event::Finished(status)) => {
                let follow_up = if status.success() {
                    FollowUp::Nothing
                } else {
                    FollowUp::RebootManually
                };
                *self = Workflow {
                    selection: Some(selection),
                    state: State::Done,
                    result: WorkflowResult { reboot: status.outcome(), follow_up, ..result },
                };
                Some(Action::Finish)
            },
            _ => None,
        }
    }

    /// Takes the step to the restart with the outcomes recorded so far.
    fn move_towards_reboot(&mut self, selection: Selection, recorded: WorkflowResult) -> (action:
        Action)
        requires
            old(self)@.selection == Some(selection),
            ready_to_reboot(selection, recorded),
            recorded.reboot == StepOutcome::Skipped,
            recorded.follow_up == FollowUp::Nothing,
        ensures
            (final(self)@, Some(action@)) == towards_reboot(
                (WorkflowView { result: recorded, ..old(self)@ }),
                selection,
            ),
    {
        if selection.auto_reboot {
            *self = Workflow {
                selection: Some(selection),
                state: State::Rebooting,
                result: recorded,
            };
            Action::Reboot
        } else {
            *self = Workflow {
                selection: Some(selection),
                state: State::Done,
                result: WorkflowResult { follow_up: FollowUp::RebootManually, ..recorded },
            };
            Action::Finish
        }
    }

    /// Where the workflow stands.
    pub fn state(&self) -> (state: State)
        ensures
            state == self@.state,
            consistent(self@),
    {
        proof {
            use_type_invariant(self);
        }
        self.state
    }

    /// The outcomes so far.
    pub fn result(&self) -> (result: WorkflowResult)
        ensures
            result == self@.result,
            consistent(self@),
    {
        proof {
            use_type_invariant(self);
        }
        self.result
    }

    /// The checked selection; none where the selection was refused.
    pub fn selection(&self) -> (selection: Option<Selection>)
        ensures
            selection == self@.selection,
    {
        self.selection
    }

    /// Whether the workflow has ended.
    pub fn is_finished(&self) -> (finished: bool)
        ensures
            finished == is_terminal(self@.state),
    {
        match self.state {
            State::Done | State::Failed(_) => true,
            _ => false,
        }
    }

    /// Why the workflow failed, if it did.
    pub fn error(&self) -> (error: Option<WorkflowError>)
        ensures
            error == (match self@.state {
                State::Failed(error) => Some(error),
                _ => None,
            }),
    {
        match self.state {
            State::Failed(error) => Some(error),
            _ => None,
        }
    }

    /// The exit code of a program that ran this workflow: zero once it is
    /// done, one where it failed or has not come to its end.
    pub fn exit_code(&self) -> (code: i32)
        ensures
            code == (if self@.state is Done {
                0i32
            } else {
                1i32
            }),
    {
        match self.state {
            State::Done => 0,
            _ => 1,
        }
    }
}

/// The workflow after an event.
pub open spec fn after(workflow: WorkflowView, event: EventView) -> WorkflowView {
    step(workflow, event).0
}

/// The action that an event is answered with.
pub open spec fn asked(workflow: WorkflowView, event: EventView) -> Option<ActionView> {
    step(workflow, event).1
}

/// A workflow begins consistent, whatever the words of the selection.
pub proof fn lemma_begun_consistent(name: Seq<char>, gpu: bool, hint: Seq<char>, auto_reboot: bool)
    ensures
        consistent(begun(name, gpu, hint, auto_reboot).0),
{
}

/// Every event leaves a consistent workflow consistent.
pub proof fn lemma_step_consistent(workflow: WorkflowView, event: EventView)
    requires
        consistent(workflow),
    ensures
        consistent(after(workflow, event)),
{
}

/// Once a workflow has ended, no event changes it or is answered with an
/// action.
pub proof fn lemma_ended_stays(workflow: WorkflowView, event: EventView)
    requires
        is_terminal(workflow.state),
    ensures
        step(workflow, event) == (workflow, None::<ActionView>),
{
}

/// An unknown environment fails the workflow at once, whatever the rest of
/// the selection: nothing is asked of the host, then or later, so no rebase
/// is ever asked for.
pub proof fn lemma_unknown_environment_asks_nothing(
    name: Seq<char>,
    gpu: bool,
    hint: Seq<char>,
    auto_reboot: bool,
    event: EventView,
)
    requires
        desktop_of_name(name) is None,
    ensures
        begun(name, gpu, hint, auto_reboot).0.state == State::Failed(
            WorkflowError::InputValidation(ResolveError::UnsupportedEnvironment),
        ),
        begun(name, gpu, hint, auto_reboot).0.result == untouched(),
        begun(name, gpu, hint, auto_reboot).1 == ActionView::Finish,
        step(begun(name, gpu, hint, auto_reboot).0, event) == (
            begun(name, gpu, hint, auto_reboot).0,
            None::<ActionView>,
        ),
{
}

/// An unknown driver version, with a known environment, fails the workflow
/// at once in the same way.
pub proof fn lemma_unknown_driver_version_asks_nothing(
    name: Seq<char>,
    gpu: bool,
    hint: Seq<char>,
    auto_reboot: bool,
    event: EventView,
)
    requires
        desktop_of_name(name) is Some,
        driver_of_hint(hint) is None,
    ensures
        begun(name, gpu, hint, auto_reboot).0.state == State::Failed(
            WorkflowError::InputValidation(ResolveError::UnsupportedDriverVersion),
        ),
        begun(name, gpu, hint, auto_reboot).0.result == untouched(),
        begun(name, gpu, hint, auto_reboot).1 == ActionView::Finish,
        step(begun(name, gpu, hint, auto_reboot).0, event) == (
            begun(name, gpu, hint, auto_reboot).0,
            None::<ActionView>,
        ),
{
}

/// How far a workflow has come: each state lies further on than the one
/// before it, and the two ends lie furthest.
pub open spec fn progress(state: State) -> nat {
    match state {
        State::Resolving => 0,
        State::Rebasing => 1,
        State::ConfiguringKernelArgs(KernelArgPhase::Cleanup) => 2,
        State::ConfiguringKernelArgs(KernelArgPhase::Append) => 3,
        State::Rebooting => 4,
        State::Done | State::Failed(_) => 5,
    }
}

/// An event that is answered with an action moves the workflow forward, and
/// one that is not leaves it as it was. So no state is entered twice.
pub proof fn lemma_step_moves_forward(workflow: WorkflowView, event: EventView)
    ensures
        asked(workflow, event) is Some ==> progress(after(workflow, event).state) > progress(
            workflow.state,
        ),
        asked(workflow, event) is None ==> after(workflow, event) == workflow,
{
}

/// Each action belongs to the state that is entered with it. With the law
/// before, the host is asked for each step at most once in a workflow:
/// nothing is tried again.
pub proof fn lemma_action_fits_state(workflow: WorkflowView, event: EventView)
    requires
        asked(workflow, event) is Some,
    ensures
        (match asked(workflow, event)->0 {
            ActionView::QueryRelease => false,
            ActionView::Rebase(_) => after(workflow, event).state == State::Rebasing,
            ActionView::ConfigureKernelArgs(phase) => after(workflow, event).state
                == State::ConfiguringKernelArgs(phase),
            ActionView::Reboot => after(workflow, event).state == State::Rebooting,
            ActionView::Finish => is_terminal(after(workflow, event).state),
        }),
{
}

/// A rebase is asked for only in answer to a usable release, and for the
/// reference that the selection resolves to on that release.
pub proof fn lemma_rebase_only_when_resolved(workflow: WorkflowView, event: EventView)
    requires
        consistent(workflow),
        asked(workflow, event) matches Some(ActionView::Rebase(_)),
    ensures
        workflow.state == State::Resolving,
        workflow.selection is Some,
        event matches EventView::ReleaseRead(raw) && release_of(raw) matches Some(release) && asked(
            workflow,
            event,
        ) == Some(ActionView::Rebase(reference_of(workflow.selection->0, release))),
{
}

/// The kernel arguments are touched only on the GPU profile, and only after
/// the rebase has succeeded.
pub proof fn lemma_kernel_args_only_after_rebase(workflow: WorkflowView, event: EventView)
    requires
        consistent(workflow),
        asked(workflow, event) matches Some(ActionView::ConfigureKernelArgs(_)),
    ensures
        after(workflow, event).selection matches Some(selection) && selection.gpu,
        after(workflow, event).result.rebase == StepOutcome::Success,
{
}

/// A restart is asked for only when the selection asks for it and the
/// staged image is ready: the rebase has succeeded, and on the GPU profile
/// the kernel arguments have been set.
pub proof fn lemma_reboot_only_when_ready(workflow: WorkflowView, event: EventView)
    requires
        consistent(workflow),
        asked(workflow, event) == Some(ActionView::Reboot),
    ensures
        after(workflow, event).selection matches Some(selection) && selection.auto_reboot
            && ready_to_reboot(selection, after(workflow, event).result),
{
}

/// On the GPU profile, when the rebase succeeds and appending the kernel
/// arguments fails, the workflow ends as failed with that failure. The
/// success of the rebase stays on record, the user is left to set the
/// kernel arguments, and no restart is asked for on the way, whatever the
/// selection says about restarting and however the cleanup ended.
pub proof fn lemma_kernel_arg_failure_stops_before_reboot(
    name: Seq<char>,
    hint: Seq<char>,
    auto_reboot: bool,
    raw: Seq<char>,
    cleanup: ProcessStatus,
    append: ProcessStatus,
)
    requires
        selection_of(name, true, hint, auto_reboot) is Ok,
        release_of(raw) is Some,
        !succeeded(append),
    ensures
        ({
            let selection = selection_of(name, true, hint, auto_reboot)->Ok_0;
            let resolving = begun(name, true, hint, auto_reboot).0;
            let rebasing = after(resolving, EventView::ReleaseRead(raw));
            let cleaning = after(rebasing, EventView::Finished(ProcessStatus::Exited(0)));
            let appending = after(cleaning, EventView::Finished(cleanup));
            let ended = after(appending, EventView::Finished(append));
            &&& begun(name, true, hint, auto_reboot).1 == ActionView::QueryRelease
            &&& asked(resolving, EventView::ReleaseRead(raw)) == Some(
                ActionView::Rebase(reference_of(selection, release_of(raw)->0)),
            )
            &&& asked(rebasing, EventView::Finished(ProcessStatus::Exited(0))) == Some(
                ActionView::ConfigureKernelArgs(KernelArgPhase::Cleanup),
            )
            &&& asked(cleaning, EventView::Finished(cleanup)) == Some(
                ActionView::ConfigureKernelArgs(KernelArgPhase::Append),
            )
            &&& asked(appending, EventView::Finished(append)) == Some(ActionView::Finish)
            &&& ended.state == State::Failed(WorkflowError::KernelArgConfigFailed(append))
            &&& ended.result.rebase == StepOutcome::Success
            &&& ended.result.kernel_args == StepOutcome::Failure(append)
            &&& ended.result.reboot == StepOutcome::Skipped
            &&& ended.result.follow_up == FollowUp::ConfigureKernelArgsManually
        }),
{
}

/// Without the GPU profile and with the restart asked for, a rebase that
/// succeeds is followed by the restart at once, and the workflow is done
/// when the restart has been answered: the host has been asked for the
/// release, the rebase and the restart, and never for kernel arguments.
pub proof fn lemma_plain_profile_reboots_after_rebase(
    name: Seq<char>,
    hint: Seq<char>,
    raw: Seq<char>,
    restart: ProcessStatus,
)
    requires
        selection_of(name, false, hint, true) is Ok,
        release_of(raw) is Some,
    ensures
        ({
            let selection = selection_of(name, false, hint, true)->Ok_0;
            let resolving = begun(name, false, hint, true).0;
            let rebasing = after(resolving, EventView::ReleaseRead(raw));
            let rebooting = after(rebasing, EventView::Finished(ProcessStatus::Exited(0)));
            let ended = after(rebooting, EventView::Finished(restart));
            &&& begun(name, false, hint, true).1 == ActionView::QueryRelease
            &&& asked(resolving, EventView::ReleaseRead(raw)) == Some(
                ActionView::Rebase(reference_of(selection, release_of(raw)->0)),
            )
            &&& asked(rebasing, EventView::Finished(ProcessStatus::Exited(0))) == Some(
                ActionView::Reboot,
            )
            &&& asked(rebooting, EventView::Finished(restart)) == Some(ActionView::Finish)
            &&& ended.state == State::Done
            &&& ended.result.rebase == StepOutcome::Success
            &&& ended.result.kernel_args_cleanup == StepOutcome::Skipped
            &&& ended.result.kernel_args == StepOutcome::Skipped
            &&& ended.result.reboot == outcome_of(restart)
        }),
{
}

} // verus!
