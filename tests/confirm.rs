use shell_assistant::confirm::{resolve, ConfirmationGate, GateEvent, GateState, UserAction};
use shell_assistant::executor::{ExecError, FeedbackAction, ShellExecutor};
use shell_assistant::persistence::FeedbackType;
use shell_assistant::safety::{CommandSafetyChecker, SafetyCheckResult, SafetyLevel};

fn verdict(level: SafetyLevel) -> SafetyCheckResult {
    SafetyCheckResult { level, reason: None }
}

#[test]
fn dangerous_run_without_confirmation_aborts() {
    let checker = CommandSafetyChecker::with_enterprise_config(Vec::new(), Vec::new(), true);
    let v = checker.check_command_detailed("rm -rf /");
    assert_eq!(v.level, SafetyLevel::Dangerous);
    assert_eq!(resolve(&v, false, UserAction::Run, false), GateState::Aborted);
    assert_eq!(resolve(&v, false, UserAction::Run, true), GateState::Executing);
}

#[test]
fn forced_safe_command_runs_without_prompt() {
    let checker = CommandSafetyChecker::new();
    let v = checker.check_command_detailed("ls -la");
    assert_eq!(v.level, SafetyLevel::Safe);
    let gate = ConfirmationGate::new(v.level, true);
    assert_eq!(gate.state(), GateState::Executing);
}

#[test]
fn blocked_by_policy_never_executes() {
    let checker =
        CommandSafetyChecker::with_enterprise_config(Vec::new(), vec!["format".to_string()], false);
    let v = checker.check_command_detailed("format c:");
    assert_eq!(v.level, SafetyLevel::Blocked);
    for force in [false, true] {
        for action in [UserAction::Run, UserAction::Copy, UserAction::Abort] {
            for confirmed in [false, true] {
                assert_ne!(resolve(&v, force, action, confirmed), GateState::Executing);
            }
        }
    }
}

#[test]
fn confirmation_steps() {
    let mut gate = ConfirmationGate::new(SafetyLevel::Warning, false);
    assert_eq!(gate.state(), GateState::Prompting);
    gate.handle(GateEvent::Choose(UserAction::Run));
    assert_eq!(gate.state(), GateState::Confirming);
    gate.handle(GateEvent::Confirm(true));
    assert_eq!(gate.state(), GateState::Executing);
    gate.handle(GateEvent::Choose(UserAction::Abort));
    assert_eq!(gate.state(), GateState::Executing);

    let mut blocked = ConfirmationGate::new(SafetyLevel::Blocked, true);
    blocked.handle(GateEvent::Choose(UserAction::Run));
    assert_eq!(blocked.state(), GateState::Confirming);
    blocked.handle(GateEvent::Confirm(true));
    assert_eq!(blocked.state(), GateState::Aborted);
}

#[test]
fn copy_and_force_outcomes() {
    assert_eq!(resolve(&verdict(SafetyLevel::Dangerous), false, UserAction::Copy, false), GateState::Copying);
    assert_eq!(resolve(&verdict(SafetyLevel::Warning), true, UserAction::Run, false), GateState::Aborted);
    assert_eq!(resolve(&verdict(SafetyLevel::Dangerous), true, UserAction::Run, true), GateState::Executing);
    assert_eq!(resolve(&verdict(SafetyLevel::Safe), false, UserAction::Run, false), GateState::Executing);
    assert_eq!(resolve(&verdict(SafetyLevel::Safe), false, UserAction::Abort, true), GateState::Aborted);
}

#[test]
fn executor_reports() {
    assert_eq!(ShellExecutor::dry_run_report("ls -la"), "Dry run: ls -la");
    assert_eq!(ShellExecutor::run_outcome(true, "out".to_string(), "err".to_string()), Ok("out".to_string()));
    assert_eq!(
        ShellExecutor::run_outcome(false, "out".to_string(), "err".to_string()),
        Err(ExecError { stderr: "err".to_string() })
    );
    let executor = ShellExecutor::new();
    assert_eq!(executor.assess("rm x").level, SafetyLevel::Warning);
    assert_eq!(executor.gate_for("ls", true).state(), GateState::Executing);
}

#[test]
fn feedback_answers_map_to_records() {
    assert_eq!(FeedbackAction::Helpful.to_feedback_type(), FeedbackType::Helpful);
    assert_eq!(FeedbackAction::NotHelpful.to_feedback_type(), FeedbackType::NotHelpful);
    assert_eq!(FeedbackAction::Edit.to_feedback_type(), FeedbackType::Edited);
    assert_eq!(FeedbackAction::Skip.to_feedback_type(), FeedbackType::NoFeedback);
}
