//! The workflow, step by step, on hosts that answer in different ways.

use ublue_it_cli::image::{DesktopEnvironment, DriverVersion, ResolveError, Selection};
use ublue_it_cli::kargs::KernelArgPhase;
use ublue_it_cli::workflow::{
    Action, Event, FollowUp, ProcessStatus, State, StepOutcome, Workflow, WorkflowError,
    WorkflowResult,
};
use ublue_it_cli::{run, Config};

const OK: ProcessStatus = ProcessStatus::Exited(0);

fn begin(desktop_env: &str, gpu: bool, hint: &str, auto_reboot: bool) -> (Workflow, Action) {
    run(Config::new(desktop_env.to_string(), gpu, hint.to_string(), auto_reboot))
}

fn rebased(desktop_env: &str, gpu: bool, hint: &str, auto_reboot: bool) -> Workflow {
    let (mut workflow, action) = begin(desktop_env, gpu, hint, auto_reboot);
    assert_eq!(action, Action::QueryRelease);
    let action = workflow.advance(Event::ReleaseRead("39\n".to_string()));
    assert!(matches!(action, Some(Action::Rebase(_))));
    workflow
}

fn text_of(action: Option<Action>) -> String {
    match action {
        Some(Action::Rebase(reference)) => reference.to_text(),
        other => panic!("no rebase: {:?}", other),
    }
}

#[test]
fn kernel_argument_failure_ends_before_the_restart() {
    for auto_reboot in [false, true] {
        for cleanup in [OK, ProcessStatus::Exited(1)] {
            let failure = ProcessStatus::Exited(3);
            let mut workflow = rebased("kde", true, "525", auto_reboot);
            assert_eq!(
                workflow.advance(Event::Finished(OK)),
                Some(Action::ConfigureKernelArgs(KernelArgPhase::Cleanup))
            );
            assert_eq!(
                workflow.advance(Event::Finished(cleanup)),
                Some(Action::ConfigureKernelArgs(KernelArgPhase::Append))
            );
            assert_eq!(workflow.advance(Event::Finished(failure)), Some(Action::Finish));
            assert_eq!(
                workflow.state(),
                State::Failed(WorkflowError::KernelArgConfigFailed(failure))
            );
            assert_eq!(workflow.error(), Some(WorkflowError::KernelArgConfigFailed(failure)));
            let result = workflow.result();
            assert_eq!(result.rebase, StepOutcome::Success);
            assert_eq!(result.kernel_args, StepOutcome::Failure(failure));
            assert_eq!(result.reboot, StepOutcome::Skipped);
            assert_eq!(result.follow_up, FollowUp::ConfigureKernelArgsManually);
            assert_eq!(workflow.exit_code(), 1);
            assert!(workflow.is_finished());
            assert_eq!(workflow.advance(Event::Finished(OK)), None);
            assert_eq!(
                workflow.state(),
                State::Failed(WorkflowError::KernelArgConfigFailed(failure))
            );
        }
    }
}

#[test]
fn plain_profile_goes_from_rebase_to_restart() {
    let (mut workflow, action) = begin("gnome", false, "", true);
    assert_eq!(action, Action::QueryRelease);
    assert_eq!(workflow.state(), State::Resolving);
    let action = workflow.advance(Event::ReleaseRead("39".to_string()));
    assert_eq!(
        text_of(action),
        "ostree-unverified-registry:ghcr.io/ublue-os/silverblue-main:39"
    );
    assert_eq!(workflow.state(), State::Rebasing);
    assert_eq!(workflow.advance(Event::Finished(OK)), Some(Action::Reboot));
    assert_eq!(workflow.state(), State::Rebooting);
    assert_eq!(workflow.advance(Event::Finished(OK)), Some(Action::Finish));
    assert_eq!(workflow.state(), State::Done);
    assert_eq!(
        workflow.result(),
        WorkflowResult {
            rebase: StepOutcome::Success,
            kernel_args_cleanup: StepOutcome::Skipped,
            kernel_args: StepOutcome::Skipped,
            reboot: StepOutcome::Success,
            follow_up: FollowUp::Nothing,
        }
    );
    assert_eq!(workflow.error(), None);
    assert_eq!(workflow.exit_code(), 0);
}

#[test]
fn gpu_profile_sets_kernel_arguments_before_the_restart() {
    let mut workflow = rebased("xfce", true, "", true);
    assert_eq!(
        workflow.advance(Event::Finished(OK)),
        Some(Action::ConfigureKernelArgs(KernelArgPhase::Cleanup))
    );
    assert_eq!(workflow.state(), State::ConfiguringKernelArgs(KernelArgPhase::Cleanup));
    assert_eq!(
        workflow.advance(Event::Finished(OK)),
        Some(Action::ConfigureKernelArgs(KernelArgPhase::Append))
    );
    assert_eq!(workflow.state(), State::ConfiguringKernelArgs(KernelArgPhase::Append));
    assert_eq!(workflow.advance(Event::Finished(OK)), Some(Action::Reboot));
    assert_eq!(workflow.advance(Event::Finished(OK)), Some(Action::Finish));
    assert_eq!(
        workflow.result(),
        WorkflowResult {
            rebase: StepOutcome::Success,
            kernel_args_cleanup: StepOutcome::Success,
            kernel_args: StepOutcome::Success,
            reboot: StepOutcome::Success,
            follow_up: FollowUp::Nothing,
        }
    );
    assert_eq!(workflow.exit_code(), 0);
}

#[test]
fn a_failed_cleanup_is_kept_on_record_and_does_not_stop_the_append() {
    let mut workflow = rebased("gnome", true, "", false);
    workflow.advance(Event::Finished(OK));
    let cleanup = ProcessStatus::Signaled(9);
    assert_eq!(
        workflow.advance(Event::Finished(cleanup)),
        Some(Action::ConfigureKernelArgs(KernelArgPhase::Append))
    );
    assert_eq!(workflow.advance(Event::Finished(OK)), Some(Action::Finish));
    assert_eq!(workflow.state(), State::Done);
    assert_eq!(workflow.result().kernel_args_cleanup, StepOutcome::Failure(cleanup));
    assert_eq!(workflow.result().kernel_args, StepOutcome::Success);
}

#[test]
fn without_automatic_restart_the_restart_is_left_to_the_user() {
    let mut workflow = rebased("bluefin", false, "", false);
    assert_eq!(workflow.advance(Event::Finished(OK)), Some(Action::Finish));
    assert_eq!(workflow.state(), State::Done);
    assert_eq!(workflow.result().reboot, StepOutcome::Skipped);
    assert_eq!(workflow.result().follow_up, FollowUp::RebootManually);
    assert_eq!(workflow.exit_code(), 0);
}

#[test]
fn a_failed_rebase_stops_everything() {
    for gpu in [false, true] {
        for status in [ProcessStatus::Exited(1), ProcessStatus::Exited(-1), ProcessStatus::Signaled(15)]
        {
            let mut workflow = rebased("lxqt", gpu, "470", true);
            assert_eq!(workflow.advance(Event::Finished(status)), Some(Action::Finish));
            assert_eq!(workflow.state(), State::Failed(WorkflowError::RebaseFailed(status)));
            assert_eq!(
                workflow.result(),
                WorkflowResult {
                    rebase: StepOutcome::Failure(status),
                    kernel_args_cleanup: StepOutcome::Skipped,
                    kernel_args: StepOutcome::Skipped,
                    reboot: StepOutcome::Skipped,
                    follow_up: FollowUp::Nothing,
                }
            );
            assert_eq!(workflow.exit_code(), 1);
            assert_eq!(workflow.advance(Event::Finished(OK)), None);
        }
    }
}

#[test]
fn an_unknown_environment_asks_nothing_of_the_host() {
    for gpu in [false, true] {
        for hint in ["", "525", "999"] {
            for auto_reboot in [false, true] {
                let (mut workflow, action) = begin("unknown", gpu, hint, auto_reboot);
                let failed = State::Failed(WorkflowError::InputValidation(
                    ResolveError::UnsupportedEnvironment,
                ));
                assert_eq!(action, Action::Finish);
                assert_eq!(workflow.state(), failed);
                assert_eq!(workflow.selection(), None);
                assert_ne!(workflow.exit_code(), 0);
                assert_eq!(workflow.advance(Event::ReleaseRead("39".to_string())), None);
                assert_eq!(workflow.advance(Event::ReleaseUnavailable), None);
                assert_eq!(workflow.advance(Event::Finished(OK)), None);
                assert_eq!(workflow.state(), failed);
                assert_eq!(workflow.result(), WorkflowResult::untouched());
            }
        }
    }
}

#[test]
fn a_name_with_a_blank_asks_nothing_of_the_host() {
    for name in ["mate ", " mate", "gnome ", "k de"] {
        let (mut workflow, action) = begin(name, true, "", true);
        assert_eq!(action, Action::Finish);
        assert_eq!(
            workflow.error(),
            Some(WorkflowError::InputValidation(ResolveError::UnsupportedEnvironment))
        );
        assert_eq!(workflow.advance(Event::ReleaseRead("39".to_string())), None);
        assert_eq!(workflow.exit_code(), 1);
    }
    let (mut workflow, action) = begin("mate", true, "", true);
    assert_eq!(action, Action::QueryRelease);
    let action = workflow.advance(Event::ReleaseRead("39".to_string()));
    assert_eq!(text_of(action), "ostree-unverified-registry:ghcr.io/ublue-os/mate-nvidia:39");
}

#[test]
fn an_unknown_driver_version_asks_nothing_of_the_host() {
    let (mut workflow, action) = begin("gnome", true, "999", true);
    assert_eq!(action, Action::Finish);
    assert_eq!(
        workflow.error(),
        Some(WorkflowError::InputValidation(ResolveError::UnsupportedDriverVersion))
    );
    assert_eq!(workflow.exit_code(), 1);
    assert_eq!(workflow.advance(Event::ReleaseRead("39".to_string())), None);
}

#[test]
fn an_unusable_release_fails_the_workflow() {
    for event in [
        Event::ReleaseUnavailable,
        Event::ReleaseRead(String::new()),
        Event::ReleaseRead("\n".to_string()),
        Event::ReleaseRead("not a release".to_string()),
    ] {
        let (mut workflow, _) = begin("gnome", false, "", true);
        assert_eq!(workflow.advance(event), Some(Action::Finish));
        assert_eq!(workflow.state(), State::Failed(WorkflowError::VersionUnavailable));
        assert_eq!(workflow.result(), WorkflowResult::untouched());
        assert_eq!(workflow.exit_code(), 1);
    }
}

#[test]
fn events_that_are_not_awaited_change_nothing() {
    let (mut workflow, _) = begin("gnome", true, "", true);
    assert_eq!(workflow.advance(Event::Finished(OK)), None);
    assert_eq!(workflow.state(), State::Resolving);
    workflow.advance(Event::ReleaseRead("39".to_string()));
    let before = workflow;
    assert_eq!(workflow.advance(Event::ReleaseRead("40".to_string())), None);
    assert_eq!(workflow.advance(Event::ReleaseUnavailable), None);
    assert_eq!(workflow, before);
    workflow.advance(Event::Finished(OK));
    assert_eq!(workflow.advance(Event::ReleaseUnavailable), None);
    assert_eq!(workflow.state(), State::ConfiguringKernelArgs(KernelArgPhase::Cleanup));
}

#[test]
fn a_restart_that_fails_still_ends_the_workflow() {
    let mut workflow = rebased("kde", false, "", true);
    workflow.advance(Event::Finished(OK));
    let status = ProcessStatus::Exited(1);
    assert_eq!(workflow.advance(Event::Finished(status)), Some(Action::Finish));
    assert_eq!(workflow.state(), State::Done);
    assert_eq!(workflow.result().reboot, StepOutcome::Failure(status));
    assert_eq!(workflow.result().follow_up, FollowUp::RebootManually);
    assert_eq!(workflow.exit_code(), 0);
}

#[test]
fn words_are_read_in_lower_case_when_a_run_begins() {
    let (mut workflow, action) = begin("KDE", true, "Current", false);
    assert_eq!(action, Action::QueryRelease);
    assert_eq!(
        workflow.selection(),
        Some(Selection {
            environment: DesktopEnvironment::Kde,
            gpu: true,
            driver: DriverVersion::Current,
            auto_reboot: false,
        })
    );
    let action = workflow.advance(Event::ReleaseRead(" 39\n".to_string()));
    assert_eq!(
        text_of(action),
        "ostree-unverified-registry:ghcr.io/ublue-os/kinoite-nvidia:39-current"
    );
}

#[test]
fn beginning_with_exact_words() {
    let (workflow, action) = Workflow::begin("KDE", true, "", false);
    assert_eq!(action, Action::Finish);
    assert_eq!(
        workflow.error(),
        Some(WorkflowError::InputValidation(ResolveError::UnsupportedEnvironment))
    );
    let (workflow, action) = Workflow::begin("kde", true, "", false);
    assert_eq!(action, Action::QueryRelease);
    assert!(!workflow.is_finished());
    assert_eq!(workflow.exit_code(), 1);
}

#[test]
fn only_exit_code_zero_is_success() {
    assert!(ProcessStatus::Exited(0).success());
    assert!(!ProcessStatus::Exited(1).success());
    assert!(!ProcessStatus::Exited(-1).success());
    assert!(!ProcessStatus::Signaled(0).success());
    assert!(!ProcessStatus::Signaled(9).success());
    assert_eq!(ProcessStatus::Exited(0).outcome(), StepOutcome::Success);
    assert_eq!(
        ProcessStatus::Exited(2).outcome(),
        StepOutcome::Failure(ProcessStatus::Exited(2))
    );
    assert_eq!(
        ProcessStatus::Signaled(0).outcome(),
        StepOutcome::Failure(ProcessStatus::Signaled(0))
    );
}
