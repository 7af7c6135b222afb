use shell_assistant::safety::{CommandSafetyChecker, SafetyLevel};

#[test]
fn test_safe_commands() {
    let checker = CommandSafetyChecker::new();

    let result = checker.check_command_detailed("ls");
    assert_eq!(result.level, SafetyLevel::Safe);

    let result = checker.check_command_detailed("dir");
    assert_eq!(result.level, SafetyLevel::Safe);

    let result = checker.check_command_detailed("get-childitem -recurse");
    assert_eq!(result.level, SafetyLevel::Safe);
}

#[test]
fn test_dangerous_commands() {
    let checker = CommandSafetyChecker::new();

    // A high-risk first word is a warning while compliance mode is off.
    let result = checker.check_command_detailed("rm -rf /");
    assert!(matches!(result.level, SafetyLevel::Warning));

    let result = checker.check_command_detailed("Remove-Item -Force -Recurse C:\\Windows");
    assert!(matches!(result.level, SafetyLevel::Dangerous | SafetyLevel::Warning));
}

#[test]
fn test_enterprise_blacklist() {
    let checker = CommandSafetyChecker::with_enterprise_config(
        Vec::new(),
        vec!["rm -rf /".to_string(), "format".to_string()],
        true,
    );

    let result = checker.check_command_detailed("rm -rf /home");
    assert_eq!(result.level, SafetyLevel::Blocked);

    let result = checker.check_command_detailed("format c:");
    assert_eq!(result.level, SafetyLevel::Blocked);
}

#[test]
fn test_enterprise_whitelist() {
    let checker = CommandSafetyChecker::with_enterprise_config(
        vec!["git".to_string(), "ls".to_string(), "cd".to_string()],
        Vec::new(),
        true,
    );

    let result = checker.check_command_detailed("git status");
    assert_eq!(result.level, SafetyLevel::Safe);

    let result = checker.check_command_detailed("ls -la");
    assert_eq!(result.level, SafetyLevel::Safe);

    let result = checker.check_command_detailed("rm file.txt");
    assert_eq!(result.level, SafetyLevel::Blocked);
}

#[test]
fn compliance_mode_turns_risky_words_dangerous() {
    let checker = CommandSafetyChecker::with_enterprise_config(Vec::new(), Vec::new(), true);
    let result = checker.check_command_detailed("rm -rf /");
    assert_eq!(result.level, SafetyLevel::Dangerous);
    assert_eq!(result.reason, Some("Command 'rm' can be destructive".to_string()));

    let mut relaxed = CommandSafetyChecker::new();
    let warn = relaxed.check_command_detailed("sudo reboot");
    assert_eq!(warn.level, SafetyLevel::Warning);
    relaxed.set_compliance_mode(true);
    let strict = relaxed.check_command_detailed("sudo reboot");
    assert_eq!(strict.level, SafetyLevel::Dangerous);
}

#[test]
fn blocklist_wins_over_allowlist() {
    let checker = CommandSafetyChecker::with_enterprise_config(
        vec!["rm".to_string()],
        vec!["rm -rf".to_string()],
        false,
    );
    let result = checker.check_command_detailed("rm -rf tmp");
    assert_eq!(result.level, SafetyLevel::Blocked);
    assert_eq!(
        result.reason,
        Some("Command blocked by enterprise policy: contains 'rm -rf'".to_string())
    );
}

#[test]
fn blocklist_matches_ignoring_case() {
    let mut checker = CommandSafetyChecker::new();
    checker.set_blocked_commands(vec!["FORMAT".to_string()]);
    assert_eq!(checker.check_command_detailed("format c:").level, SafetyLevel::Blocked);
}

#[test]
fn allowlist_reason_and_case() {
    let mut checker = CommandSafetyChecker::new();
    checker.set_allowed_commands(vec!["git".to_string()]);
    assert_eq!(checker.check_command_detailed("GIT status").level, SafetyLevel::Safe);
    let result = checker.check_command_detailed("make all");
    assert_eq!(result.level, SafetyLevel::Blocked);
    assert_eq!(
        result.reason,
        Some("Command not in allowed list (enterprise whitelist active)".to_string())
    );
}

#[test]
fn classify_is_deterministic() {
    let checker = CommandSafetyChecker::with_enterprise_config(Vec::new(), Vec::new(), true);
    let a = checker.check_command_detailed("chmod 777 file");
    let b = checker.check_command_detailed("chmod 777 file");
    assert_eq!(a.level, b.level);
    assert_eq!(a.reason, b.reason);
}

#[test]
fn uppercase_command_is_lowercased_before_matching() {
    let checker = CommandSafetyChecker::new();
    let result = checker.check_command_detailed("RM -rf x");
    assert_eq!(result.level, SafetyLevel::Warning);
    assert_eq!(result.reason, Some("Command 'rm' can be destructive".to_string()));
}

#[test]
fn uppercase_safe_tool_is_safe() {
    let checker = CommandSafetyChecker::new();
    let result = checker.check_command_detailed("LS -LA");
    assert_eq!(result.level, SafetyLevel::Safe);
    assert_eq!(result.reason, None);
}

#[test]
fn risky_word_found_after_cleaning() {
    let checker = CommandSafetyChecker::new();
    let result = checker.check_command_detailed("echo (rm) now");
    assert_eq!(result.level, SafetyLevel::Warning);
    assert_eq!(result.reason, Some("Command 'rm' can be destructive".to_string()));
}

#[test]
fn dangerous_flag_pattern() {
    let checker = CommandSafetyChecker::new();
    let result = checker.check_command_detailed("copy a b /y");
    assert_eq!(result.level, SafetyLevel::Dangerous);
    assert_eq!(
        result.reason,
        Some("Pattern '/y' often used in destructive operations".to_string())
    );
}

#[test]
fn forced_deletion_combination() {
    let checker = CommandSafetyChecker::new();
    let result = checker.check_command_detailed("train model -r data");
    assert_eq!(result.level, SafetyLevel::Dangerous);
    assert_eq!(result.reason, Some("Recursive or forced deletion can be dangerous".to_string()));
}

#[test]
fn overwrite_redirection_is_a_warning_in_both_modes() {
    let checker = CommandSafetyChecker::new();
    let result = checker.check_command_detailed("echo hi > out.txt");
    assert_eq!(result.level, SafetyLevel::Warning);
    assert_eq!(
        result.reason,
        Some("File redirection (>) will overwrite existing files".to_string())
    );
    let strict = CommandSafetyChecker::with_enterprise_config(Vec::new(), Vec::new(), true);
    assert_eq!(strict.check_command_detailed("echo hi > out.txt").level, SafetyLevel::Warning);
    assert_eq!(checker.check_command_detailed("echo hi >> out.txt").level, SafetyLevel::Safe);
}

#[test]
fn legacy_check_reports_risk_and_reason() {
    let checker = CommandSafetyChecker::default();
    assert_eq!(
        checker.check_command("rm -rf /"),
        (true, Some("Command 'rm' can be destructive".to_string()))
    );
    assert_eq!(checker.check_command("ls -la"), (false, None));
    assert_eq!(checker.check_command(""), (false, None));
}
