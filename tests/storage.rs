use shell_assistant::audit::{AuditLogger, SafetyLevel};
use shell_assistant::history::CommandHistory;
use shell_assistant::persistence::{CommandHistory as PersistentHistory, FeedbackType};

#[test]
fn bounded_history_drops_the_oldest() {
    let mut history = CommandHistory::with_capacity(2);
    history.add_entry_at("a".to_string(), "ls".to_string(), None, 1);
    history.add_entry_at("b".to_string(), "pwd".to_string(), None, 2);
    history.add_entry_at("c".to_string(), "whoami".to_string(), Some("user".to_string()), 3);
    let all = history.get_history();
    assert_eq!(all.len(), 2);
    assert_eq!(all[0].command, "pwd");
    assert_eq!(all[1].command, "whoami");
    let recent = history.get_recent(5);
    assert_eq!(recent.len(), 2);
    assert_eq!(recent[0].input, "c");
    assert_eq!(history.get_recent(1)[0].timestamp, 3);
    history.set_max_size(1);
    assert_eq!(history.entries().len(), 1);
    assert_eq!(history.entries()[0].command, "whoami");
    history.clear();
    assert!(history.get_history().is_empty());
}

#[test]
fn feedback_edits_the_last_entry() {
    let mut history = CommandHistory::new();
    assert!(!history.update_last_entry_feedback(FeedbackType::Helpful, None));
    history.add_entry("list".to_string(), "ls".to_string(), None);
    assert!(history.update_last_entry_feedback(FeedbackType::Edited, Some("ls -a".to_string())));
    let last = &history.get_history()[0];
    assert_eq!(last.command, "ls -a");
    assert_eq!(last.original_command, Some("ls".to_string()));
    assert_eq!(last.feedback, FeedbackType::Edited);
}

#[test]
fn loading_keeps_the_newest() {
    let mut source = PersistentHistory::new();
    source.add_entry_at("a".to_string(), "1".to_string(), None, 1);
    source.add_entry_at("b".to_string(), "2".to_string(), None, 2);
    source.add_entry_at("c".to_string(), "3".to_string(), None, 3);
    let mut history = CommandHistory::with_capacity(2);
    history.set_file_path("/tmp/history.json".to_string());
    history.load_entries(source.entries);
    let all = history.get_history();
    assert_eq!(all.len(), 2);
    assert_eq!(all[0].command, "2");
    assert_eq!(all[1].command, "3");
    assert_eq!(history.get_file_path(), Some(&"/tmp/history.json".to_string()));
}

#[test]
fn persistent_history_feedback() {
    let mut history = PersistentHistory::new();
    history.add_entry_with_feedback(
        "list".to_string(),
        "ls".to_string(),
        None,
        FeedbackType::NoFeedback,
        None,
    );
    history.update_last_entry_feedback(FeedbackType::NotHelpful, Some("ignored".to_string()));
    assert_eq!(history.entries.len(), 1);
    assert_eq!(history.entries[0].command, "ls");
    assert_eq!(history.entries[0].feedback, FeedbackType::NotHelpful);
    assert_eq!(history.entries[0].original_command, None);
}

#[test]
fn test_audit_statistics() {
    let logger = AuditLogger::new("test_audit_stats.log".to_string(), None, None);
    let first = logger.make_entry(
        0,
        "tester".to_string(),
        "safe command".to_string(),
        "ls".to_string(),
        true,
        Some(0),
        SafetyLevel::Safe,
        "ollama".to_string(),
        None,
        None,
    );
    let second = logger.make_entry(
        0,
        "tester".to_string(),
        "dangerous command".to_string(),
        "rm -rf /".to_string(),
        false,
        None,
        SafetyLevel::Blocked,
        "ollama".to_string(),
        Some("Command blocked by safety checker".to_string()),
        None,
    );
    let stats = AuditLogger::get_statistics(&vec![first, second]);
    assert_eq!(stats.total_commands, 2);
    assert_eq!(stats.executed_commands, 1);
    assert_eq!(stats.dangerous_commands, 1);
    assert_eq!(stats.failed_commands, 0);
}

#[test]
fn audit_entries_carry_the_organisation() {
    let logger = AuditLogger::new(
        "test_audit.log".to_string(),
        Some("Test Corp".to_string()),
        Some("Engineering".to_string()),
    );
    let entry = logger.make_entry(
        5,
        "tester".to_string(),
        "list files".to_string(),
        "ls -la".to_string(),
        true,
        Some(2),
        SafetyLevel::Safe,
        "ollama".to_string(),
        None,
        Some("session-123".to_string()),
    );
    assert_eq!(entry.input, "list files");
    assert_eq!(entry.generated_command, "ls -la");
    assert_eq!(entry.organization, Some("Test Corp".to_string()));
    assert_eq!(AuditLogger::get_statistics(&vec![entry]).failed_commands, 1);
    assert_eq!(logger.log_path(), "test_audit.log");
}

#[test]
fn audit_queries_filter_in_order() {
    let logger = AuditLogger::new("audit.log".to_string(), None, None);
    let make = |t: i64, user: &str, level: SafetyLevel| {
        logger.make_entry(
            t,
            user.to_string(),
            "request".to_string(),
            "ls".to_string(),
            false,
            None,
            level,
            "ollama".to_string(),
            None,
            None,
        )
    };
    let entries = vec![
        make(10, "ann", SafetyLevel::Safe),
        make(20, "bob", SafetyLevel::Blocked),
        make(30, "ann", SafetyLevel::Blocked),
    ];
    let anns: Vec<i64> = AuditLogger::get_user_entries(&entries, "ann").iter().map(|e| e.timestamp).collect();
    assert_eq!(anns, vec![10, 30]);
    let blocked: Vec<i64> = AuditLogger::get_entries_by_safety(&entries, SafetyLevel::Blocked)
        .iter()
        .map(|e| e.timestamp)
        .collect();
    assert_eq!(blocked, vec![20, 30]);
    let middle: Vec<i64> = AuditLogger::get_entries_in_range(&entries, 15, 30).iter().map(|e| e.timestamp).collect();
    assert_eq!(middle, vec![20, 30]);
}
