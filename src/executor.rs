//! What the executor decides around running a command: the dry-run report,
//! and what the exit status and captured output of a run become.

use vstd::prelude::*;
use vstd::string::*;
use crate::safety::{CommandSafetyChecker, PolicyModel, SafetyCheckResult, classify};
use crate::confirm::{ConfirmationGate, initial_state};
use crate::persistence::FeedbackType;

verus! {

/// A run that exited unsuccessfully, with what it wrote to standard error.
#[derive(Debug, Clone, PartialEq, Eq)]
pub struct ExecError {
    pub stderr: String,
}

/// The report of a dry run: the marker, then the command, which is not run.
pub open spec fn dry_run_text(command: Seq<char>) -> Seq<char> {
    "Dry run: "@ + command
}

/// Runs commands on behalf of the user, after the confirmation allows it.
pub struct ShellExecutor {
    safety_checker: CommandSafetyChecker,
}

impl ShellExecutor {
    pub closed spec fn policy(&self) -> PolicyModel {
        self.safety_checker@
    }

    /// An executor whose checker has the fixed rules and an empty policy.
    pub fn new() -> (r: Self)
        ensures
            r.policy().allowed.len() == 0,
            r.policy().blocked.len() == 0,
            !r.policy().compliance,
    {
        ShellExecutor { safety_checker: CommandSafetyChecker::new() }
    }

    /// An executor that applies `checker`'s policy.
    pub fn with_checker(checker: CommandSafetyChecker) -> (r: Self)
        ensures
            r.policy() == checker@,
    {
        ShellExecutor { safety_checker: checker }
    }

    /// The verdict shown to the user before they choose.
    pub fn assess(&self, command: &str) -> (r: SafetyCheckResult)
        ensures
            r@ == classify(self.policy(), command@),
    {
        self.safety_checker.check_command_detailed(command)
    }

    /// The confirmation for `command`, started from its verdict.
    pub fn gate_for(&self, command: &str, force: bool) -> (r: ConfirmationGate)
        ensures
            r.spec_level() == classify(self.policy(), command@).0,
            r.spec_force() == force,
            r.spec_state() == initial_state(classify(self.policy(), command@).0, force),
    {
        let verdict = self.assess(command);
        ConfirmationGate::new(verdict.level, force)
    }

    /// The report of a dry run, which runs nothing.
    pub fn dry_run_report(command: &str) -> (r: String)
        ensures
            r@ == dry_run_text(command@),
    {
        let mut r = String::from_str("Dry run: ");
        r.append(command);
        r
    }

    /// What a finished run becomes: its standard output where the exit status
    /// is success, else an error that carries its standard error.
    pub fn run_outcome(success: bool, stdout: String, stderr: String) -> (r: Result<
        String,
        ExecError,
    >)
        ensures
            success ==> r == Ok::<String, ExecError>(stdout),
            !success ==> r == Err::<String, ExecError>(ExecError { stderr }),
    {
        if success {
            Ok(stdout)
        } else {
            Err(ExecError { stderr })
        }
    }
}

/// What the user answered when asked whether a command helped.
#[derive(Debug, Clone, Copy, PartialEq, Eq, Structural)]
pub enum FeedbackAction {
    Helpful,
    NotHelpful,
    Edit,
    Skip,
}

impl FeedbackAction {
    /// The feedback recorded for this answer.
    pub fn to_feedback_type(&self) -> (r: FeedbackType)
        ensures
            r == match *self {
                FeedbackAction::Helpful => FeedbackType::Helpful,
                FeedbackAction::NotHelpful => FeedbackType::NotHelpful,
                FeedbackAction::Edit => FeedbackType::Edited,
                FeedbackAction::Skip => FeedbackType::NoFeedback,
            },
    {
        match self {
            FeedbackAction::Helpful => FeedbackType::Helpful,
            FeedbackAction::NotHelpful => FeedbackType::NotHelpful,
            FeedbackAction::Edit => FeedbackType::Edited,
            FeedbackAction::Skip => FeedbackType::NoFeedback,
        }
    }
}

} // verus!
