//! The organisation's settings that the core reads: safety, privacy, and the
//! allow and block lists.

use vstd::prelude::*;
use vstd::string::*;
use crate::text::{chars_of, contains, contains_exec, starts_with, starts_with_exec, string_views};

verus! {

pub fn default_version() -> (r: String)
    ensures
        r@ == "1.0"@,
{
    String::from_str("1.0")
}

pub fn default_backend() -> (r: String)
    ensures
        r@ == "ollama"@,
{
    String::from_str("ollama")
}

pub fn default_model() -> (r: String)
    ensures
        r@ == "codellama"@,
{
    String::from_str("codellama")
}

pub fn default_max_tokens() -> (r: u32)
    ensures
        r == 256,
{
    256
}

pub fn default_use_mmap() -> (r: bool)
    ensures
        r,
{
    true
}

pub fn default_true() -> (r: bool)
    ensures
        r,
{
    true
}

/// Security configuration
#[derive(Debug, Clone)]
pub struct SecurityConfig {
    /// Enable safety checker for dangerous commands
    pub safety_check: bool,
    /// Always require confirmation before executing commands
    pub always_confirm: bool,
    /// Disable automatic execution
    pub auto_execute: bool,
    /// Enable audit logging
    pub audit_log: bool,
    /// Path to audit log file
    pub audit_log_path: Option<String>,
}

impl Default for SecurityConfig {
    fn default() -> (r: Self)
        ensures
            r.safety_check && r.always_confirm && !r.auto_execute && r.audit_log,
            r.audit_log_path is None,
    {
        SecurityConfig {
            safety_check: true,
            always_confirm: true,
            auto_execute: false,
            audit_log: true,
            audit_log_path: None,
        }
    }
}

/// Privacy configuration
#[derive(Debug, Clone)]
pub struct PrivacyConfig {
    /// Send telemetry (never on in enterprise builds)
    pub telemetry: bool,
    /// Block every external network call
    pub offline_only: bool,
    /// Save command history
    pub save_history: bool,
    /// Path to history file
    pub history_path: Option<String>,
}

impl Default for PrivacyConfig {
    fn default() -> (r: Self)
        ensures
            !r.telemetry && r.offline_only && r.save_history,
            r.history_path is None,
    {
        PrivacyConfig {
            telemetry: false,
            offline_only: true,
            save_history: true,
            history_path: None,
        }
    }
}

/// Enterprise-specific settings
#[derive(Debug, Clone)]
pub struct EnterpriseSettings {
    /// Organization name
    pub organization: Option<String>,
    /// Department or team name
    pub department: Option<String>,
    /// Raise risky commands to dangerous
    pub compliance_mode: bool,
    /// Allowed command prefixes (whitelist)
    pub allowed_commands: Vec<String>,
    /// Blocked command substrings (blacklist)
    pub blocked_commands: Vec<String>,
}

/// The block list an organisation starts from.
pub open spec fn default_blocked() -> Seq<Seq<char>> {
    seq!["rm -rf /"@, "format"@, "del /s /q C:\\"@]
}

impl Default for EnterpriseSettings {
    fn default() -> (r: Self)
        ensures
            r.organization is None && r.department is None,
            r.compliance_mode,
            r.allowed_commands@.len() == 0,
            string_views(r.blocked_commands@) == default_blocked(),
    {
        let blocked_commands = vec![
            String::from_str("rm -rf /"),
            String::from_str("format"),
            String::from_str("del /s /q C:\\"),
        ];
        assert(string_views(blocked_commands@) =~= default_blocked());
        EnterpriseSettings {
            organization: None,
            department: None,
            compliance_mode: true,
            allowed_commands: Vec::new(),
            blocked_commands,
        }
    }
}

/// A command is allowed when no blocked entry occurs in it and, where the
/// allow list is not empty, it starts with an allowed entry.
pub open spec fn command_allowed(allowed: Seq<Seq<char>>, blocked: Seq<Seq<char>>, c: Seq<char>) -> bool {
    &&& forall|j: int| 0 <= j < blocked.len() ==> !contains(c, #[trigger] blocked[j])
    &&& (allowed.len() == 0 || exists|j: int| 0 <= j < allowed.len() && starts_with(c, #[trigger] allowed[j]))
}

impl EnterpriseSettings {
    /// Whether the lists let `command` through; case is significant here.
    pub fn is_command_allowed(&self, command: &str) -> (r: bool)
        ensures
            r == command_allowed(
                string_views(self.allowed_commands@),
                string_views(self.blocked_commands@),
                command@,
            ),
    {
        let ghost al = string_views(self.allowed_commands@);
        let ghost bl = string_views(self.blocked_commands@);
        let c = chars_of(command);
        let mut j: usize = 0;
        while j < self.blocked_commands.len()
            invariant
                bl == string_views(self.blocked_commands@),
                c@ == command@,
                j <= self.blocked_commands.len(),
                forall|k: int| 0 <= k < j ==> !contains(c@, #[trigger] bl[k]),
            decreases self.blocked_commands.len() - j,
        {
            let p = chars_of(self.blocked_commands[j].as_str());
            assert(bl[j as int] == p@);
            if contains_exec(&c, &p) {
                return false;
            }
            j = j + 1;
        }
        if self.allowed_commands.len() == 0 {
            return true;
        }
        let mut i: usize = 0;
        while i < self.allowed_commands.len()
            invariant
                al == string_views(self.allowed_commands@),
                bl == string_views(self.blocked_commands@),
                forall|k: int| 0 <= k < bl.len() ==> !contains(c@, #[trigger] bl[k]),
                c@ == command@,
                i <= self.allowed_commands.len(),
                forall|k: int| 0 <= k < i ==> !starts_with(c@, #[trigger] al[k]),
            decreases self.allowed_commands.len() - i,
        {
            let p = chars_of(self.allowed_commands[i].as_str());
            assert(al[i as int] == p@);
            if starts_with_exec(&c, &p) {
                return true;
            }
            i = i + 1;
        }
        false
    }
}

} // verus!
