use shell_assistant::config::{
    default_backend, default_max_tokens, default_model, default_true, default_use_mmap,
    default_version, EnterpriseSettings, PrivacyConfig, SecurityConfig,
};

#[test]
fn test_default_config() {
    assert_eq!(default_version(), "1.0");
    assert_eq!(default_backend(), "ollama");
    assert!(SecurityConfig::default().safety_check);
    assert!(PrivacyConfig::default().offline_only);
    assert_eq!(default_model(), "codellama");
    assert_eq!(default_max_tokens(), 256);
    assert!(default_use_mmap() && default_true());
}

#[test]
fn test_command_blacklist() {
    let settings = EnterpriseSettings::default();
    assert!(!settings.is_command_allowed("rm -rf /"));
    assert!(settings.is_command_allowed("ls -la"));
}

#[test]
fn test_command_whitelist() {
    let mut settings = EnterpriseSettings::default();
    settings.allowed_commands = vec!["git".to_string(), "ls".to_string()];

    assert!(settings.is_command_allowed("git status"));
    assert!(settings.is_command_allowed("ls -la"));
    assert!(!settings.is_command_allowed("rm file.txt"));
}

#[test]
fn default_settings_block_list() {
    let settings = EnterpriseSettings::default();
    assert!(settings.compliance_mode);
    assert_eq!(settings.blocked_commands, vec!["rm -rf /", "format", "del /s /q C:\\"]);
    assert!(!settings.is_command_allowed("format d:"));
    assert!(settings.is_command_allowed("FORMAT d:"));
}
