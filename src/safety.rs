//! Risk classification of a candidate shell command against fixed rules and
//! an organisation's allow and block lists.

use vstd::prelude::*;
use vstd::string::*;
use crate::text::{
    char_views, chars_of, concat3, contains, contains_exec, find_exec, first_contained,
    first_contained_exec, first_from, lemma_first_from_bounds, lower_of, lowercase,
    occurs_at_exec, opt_view, span_in_list, span_texts, spans_within, starts_with,
    starts_with_exec, string_views, strip_rule, trim_by, trim_span, word_spans, words,
};

verus! {

/// How risky a command is, from least to most.
#[derive(Debug, Clone, Copy, PartialEq, Eq, Structural)]
pub enum SafetyLevel {
    Safe,
    Warning,
    Dangerous,
    Blocked,
}

/// The position of a level in the order `Safe < Warning < Dangerous < Blocked`.
pub open spec fn severity(l: SafetyLevel) -> int {
    match l {
        SafetyLevel::Safe => 0,
        SafetyLevel::Warning => 1,
        SafetyLevel::Dangerous => 2,
        SafetyLevel::Blocked => 3,
    }
}

/// A level with the reason for it, where the level is not `Safe`.
#[derive(Debug, Clone)]
pub struct SafetyCheckResult {
    pub level: SafetyLevel,
    pub reason: Option<String>,
}

impl View for SafetyCheckResult {
    type V = (SafetyLevel, Option<Seq<char>>);

    open spec fn view(&self) -> (SafetyLevel, Option<Seq<char>>) {
        (self.level, opt_view(self.reason))
    }
}

/// The policy a checker applies: allowed prefixes, blocked substrings, and
/// whether compliance mode raises risky commands to `Dangerous`.
pub struct PolicyModel {
    pub allowed: Seq<Seq<char>>,
    pub blocked: Seq<Seq<char>>,
    pub compliance: bool,
}

/// Commands that can destroy data, raise privileges or stop the system.
pub open spec fn risky_commands() -> Seq<Seq<char>> {
    seq![
        "rm"@, "rmdir"@, "del"@, "deltree"@, "format"@, "fdisk"@, "mkfs"@, "dd"@, "chmod"@,
        "chown"@, "sudo"@, "su"@, ">"@, "|"@, "2>"@, "mv"@, "remove-item"@, "rd"@, "erase"@,
        "set-executionpolicy"@, "invoke-expression"@, "iex"@, "invoke-command"@,
        "invoke-webrequest"@, "start-process"@, "restart-computer"@, "stop-computer"@,
        "stop-service"@, "reset-service"@, "remove-service"@, "remove-module"@,
        "remove-psdrive"@, "remove-variable"@,
    ]
}

/// Flags that force, recurse or silence a destructive operation.
pub open spec fn risky_flags() -> Seq<Seq<char>> {
    seq!["-rf"@, "-r -f"@, "-confirm:$false"@, "force=true"@, "/s /q"@, "/y"@]
}

/// Listing and reading tools.
pub open spec fn safe_tools() -> Seq<Seq<char>> {
    seq![
        "get-childitem"@, "gci"@, "dir"@, "ls"@, "select-string"@, "findstr"@, "find-string"@,
        "where-object"@, "foreach-object"@, "measure-object"@,
    ]
}

/// Words of the deletion family.
pub open spec fn deletion_family() -> Seq<Seq<char>> {
    seq!["rm"@, "remove-item"@, "del"@, "rd"@]
}

/// Flags of the force or recursion family.
pub open spec fn force_family() -> Seq<Seq<char>> {
    seq!["-r"@, "-recurse"@, "/s"@, "-force"@, "/q"@, "/f"@]
}

/// A blocked pattern matches a command that contains it, as it is or lowercased.
pub open spec fn blocks(pattern: Seq<char>, c: Seq<char>) -> bool {
    contains(c, pattern) || contains(lower_of(c), lower_of(pattern))
}

/// An allowed pattern admits a command that starts with it, as it is or lowercased.
pub open spec fn allows(pattern: Seq<char>, c: Seq<char>) -> bool {
    starts_with(c, pattern) || starts_with(lower_of(c), lower_of(pattern))
}

/// The first blocked pattern, by index, that matches `c`.
pub open spec fn first_blocking(blocked: Seq<Seq<char>>, c: Seq<char>) -> int {
    first_from(0, blocked.len() as int, |j: int| blocks(blocked[j], c))
}

/// The allow list is empty, or one of its entries admits `c`.
pub open spec fn passes_allow_list(allowed: Seq<Seq<char>>, c: Seq<char>) -> bool {
    allowed.len() == 0 || exists|j: int| 0 <= j < allowed.len() && allows(allowed[j], c)
}

/// The lowercased command starts with a safe tool, or its first word is one.
pub open spec fn looks_safe(lc: Seq<char>) -> bool {
    exists|j: int|
        0 <= j < safe_tools().len() && (starts_with(lc, safe_tools()[j]) || (
        words(lc).len() > 0 && words(lc)[0] == safe_tools()[j]))
}

/// A word without the non-alphanumeric characters at its ends.
pub open spec fn clean_word(w: Seq<char>) -> Seq<char> {
    trim_by(w, strip_rule(false, Seq::empty()))
}

/// The first word, by index, that is a high-risk command once cleaned.
pub open spec fn first_risky_word(ws: Seq<Seq<char>>) -> int {
    first_from(0, ws.len() as int, |i: int| risky_commands().contains(clean_word(ws[i])))
}

pub open spec fn mentions_any(lc: Seq<char>, list: Seq<Seq<char>>) -> bool {
    exists|j: int| 0 <= j < list.len() && contains(lc, list[j])
}

/// A word of the deletion family together with a force or recursion flag.
pub open spec fn forced_deletion(lc: Seq<char>) -> bool {
    mentions_any(lc, deletion_family()) && mentions_any(lc, force_family())
}

/// A single `>` redirection, which overwrites its target.
pub open spec fn overwrites(lc: Seq<char>) -> bool {
    contains(lc, " > "@) && !contains(lc, " >> "@)
}

/// The level of a high-risk command word.
pub open spec fn risk_level(compliance: bool) -> SafetyLevel {
    if compliance {
        SafetyLevel::Dangerous
    } else {
        SafetyLevel::Warning
    }
}

pub open spec fn destructive_reason(w: Seq<char>) -> Seq<char> {
    "Command '"@ + w + "' can be destructive"@
}

/// The verdict on command `c` under policy `p`: the first rule that applies decides.
pub open spec fn classify(p: PolicyModel, c: Seq<char>) -> (SafetyLevel, Option<Seq<char>>) {
    let lc = lower_of(c);
    let ws = words(lc);
    let b = first_blocking(p.blocked, c);
    let k = first_risky_word(ws);
    let q = first_contained(lc, risky_flags());
    if b < p.blocked.len() {
        (
            SafetyLevel::Blocked,
            Some("Command blocked by enterprise policy: contains '"@ + p.blocked[b] + "'"@),
        )
    } else if !passes_allow_list(p.allowed, c) {
        (
            SafetyLevel::Blocked,
            Some("Command not in allowed list (enterprise whitelist active)"@),
        )
    } else if looks_safe(lc) {
        (SafetyLevel::Safe, None)
    } else if ws.len() > 0 && risky_commands().contains(ws[0]) {
        (risk_level(p.compliance), Some(destructive_reason(ws[0])))
    } else if k < ws.len() {
        (risk_level(p.compliance), Some(destructive_reason(clean_word(ws[k]))))
    } else if q < risky_flags().len() {
        (
            SafetyLevel::Dangerous,
            Some("Pattern '"@ + risky_flags()[q] + "' often used in destructive operations"@),
        )
    } else if forced_deletion(lc) {
        (SafetyLevel::Dangerous, Some("Recursive or forced deletion can be dangerous"@))
    } else if overwrites(lc) {
        (SafetyLevel::Warning, Some("File redirection (>) will overwrite existing files"@))
    } else {
        (SafetyLevel::Safe, None)
    }
}

/// Evaluates shell commands for potential security risks.
pub struct CommandSafetyChecker {
    high_risk_commands: Vec<Vec<char>>,
    high_risk_patterns: Vec<Vec<char>>,
    safe_command_patterns: Vec<Vec<char>>,
    deletion_words: Vec<Vec<char>>,
    force_flags: Vec<Vec<char>>,
    allowed_commands: Vec<String>,
    blocked_commands: Vec<String>,
    compliance_mode: bool,
}

impl View for CommandSafetyChecker {
    type V = PolicyModel;

    closed spec fn view(&self) -> PolicyModel {
        PolicyModel {
            allowed: string_views(self.allowed_commands@),
            blocked: string_views(self.blocked_commands@),
            compliance: self.compliance_mode,
        }
    }
}

impl CommandSafetyChecker {
    #[verifier::type_invariant]
    spec fn fixed_rules(&self) -> bool {
        &&& char_views(self.high_risk_commands@) == risky_commands()
        &&& char_views(self.high_risk_patterns@) == risky_flags()
        &&& char_views(self.safe_command_patterns@) == safe_tools()
        &&& char_views(self.deletion_words@) == deletion_family()
        &&& char_views(self.force_flags@) == force_family()
    }

    /// A checker with the fixed rules, an empty policy and compliance mode off.
    pub fn new() -> (r: Self)
        ensures
            r@.allowed.len() == 0,
            r@.blocked.len() == 0,
            !r@.compliance,
    {
        let high_risk_commands = vec![
            chars_of("rm"), chars_of("rmdir"), chars_of("del"), chars_of("deltree"),
            chars_of("format"), chars_of("fdisk"), chars_of("mkfs"), chars_of("dd"),
            chars_of("chmod"), chars_of("chown"), chars_of("sudo"), chars_of("su"),
            chars_of(">"), chars_of("|"), chars_of("2>"), chars_of("mv"),
            chars_of("remove-item"), chars_of("rd"), chars_of("erase"),
            chars_of("set-executionpolicy"), chars_of("invoke-expression"), chars_of("iex"),
            chars_of("invoke-command"), chars_of("invoke-webrequest"),
            chars_of("start-process"), chars_of("restart-computer"), chars_of("stop-computer"),
            chars_of("stop-service"), chars_of("reset-service"), chars_of("remove-service"),
            chars_of("remove-module"), chars_of("remove-psdrive"), chars_of("remove-variable"),
        ];
        let high_risk_patterns = vec![
            chars_of("-rf"), chars_of("-r -f"), chars_of("-confirm:$false"),
            chars_of("force=true"), chars_of("/s /q"), chars_of("/y"),
        ];
        let safe_command_patterns = vec![
            chars_of("get-childitem"), chars_of("gci"), chars_of("dir"), chars_of("ls"),
            chars_of("select-string"), chars_of("findstr"), chars_of("find-string"),
            chars_of("where-object"), chars_of("foreach-object"), chars_of("measure-object"),
        ];
        let deletion_words = vec![
            chars_of("rm"), chars_of("remove-item"), chars_of("del"), chars_of("rd"),
        ];
        let force_flags = vec![
            chars_of("-r"), chars_of("-recurse"), chars_of("/s"), chars_of("-force"),
            chars_of("/q"), chars_of("/f"),
        ];
        assert(char_views(high_risk_commands@) =~= risky_commands());
        assert(char_views(high_risk_patterns@) =~= risky_flags());
        assert(char_views(safe_command_patterns@) =~= safe_tools());
        assert(char_views(deletion_words@) =~= deletion_family());
        assert(char_views(force_flags@) =~= force_family());
        let allowed_commands: Vec<String> = Vec::new();
        let blocked_commands: Vec<String> = Vec::new();
        assert(string_views(allowed_commands@) =~= Seq::<Seq<char>>::empty());
        CommandSafetyChecker {
            high_risk_commands,
            high_risk_patterns,
            safe_command_patterns,
            deletion_words,
            force_flags,
            allowed_commands,
            blocked_commands,
            compliance_mode: false,
        }
    }
}

impl CommandSafetyChecker {
    /// Index of the first blocked pattern that matches the command.
    fn first_blocking_exec(&self, c: &Vec<char>, lc: &Vec<char>) -> (r: usize)
        requires
            lc@ == lower_of(c@),
        ensures
            r == first_blocking(self@.blocked, c@),
            r <= self@.blocked.len(),
    {
        let ghost bl = self@.blocked;
        let ghost pred = |j: int| blocks(bl[j], c@);
        let n = self.blocked_commands.len();
        let mut j: usize = 0;
        while j < n
            invariant
                n == self.blocked_commands.len(),
                bl == self@.blocked,
                bl.len() == n,
                lc@ == lower_of(c@),
                j <= n,
                pred == (|j: int| blocks(bl[j], c@)),
                first_from(0, n as int, pred) == first_from(j as int, n as int, pred),
            decreases n - j,
        {
            let pattern = self.blocked_commands[j].as_str();
            assert(bl[j as int] == pattern@);
            let pc = chars_of(pattern);
            if contains_exec(c, &pc) {
                return j;
            }
            let lp = lowercase(pattern);
            let lpc = chars_of(lp.as_str());
            if contains_exec(lc, &lpc) {
                return j;
            }
            j = j + 1;
        }
        j
    }

    /// Whether the allow list is empty or admits the command.
    fn passes_allow_list_exec(&self, c: &Vec<char>, lc: &Vec<char>) -> (r: bool)
        requires
            lc@ == lower_of(c@),
        ensures
            r == passes_allow_list(self@.allowed, c@),
    {
        let ghost al = self@.allowed;
        let n = self.allowed_commands.len();
        if n == 0 {
            return true;
        }
        let mut j: usize = 0;
        while j < n
            invariant
                n == self.allowed_commands.len(),
                al == self@.allowed,
                al.len() == n,
                lc@ == lower_of(c@),
                j <= n,
                forall|k: int| 0 <= k < j ==> !allows(#[trigger] al[k], c@),
            decreases n - j,
        {
            let pattern = self.allowed_commands[j].as_str();
            assert(al[j as int] == pattern@);
            let pc = chars_of(pattern);
            let lp = lowercase(pattern);
            let lpc = chars_of(lp.as_str());
            if starts_with_exec(c, &pc) || starts_with_exec(lc, &lpc) {
                return true;
            }
            j = j + 1;
        }
        false
    }

    /// Whether the lowercased command starts with, or has as first word, a safe tool.
    fn looks_safe_exec(&self, lc: &Vec<char>, ws: &Vec<(usize, usize)>) -> (r: bool)
        requires
            spans_within(lc@, ws@),
            span_texts(lc@, ws@) == words(lc@),
        ensures
            r == looks_safe(lc@),
    {
        proof {
            use_type_invariant(self);
        }
        let tools = &self.safe_command_patterns;
        let mut j: usize = 0;
        while j < tools.len()
            invariant
                char_views(tools@) == safe_tools(),
                spans_within(lc@, ws@),
                span_texts(lc@, ws@) == words(lc@),
                j <= tools.len(),
                forall|k: int|
                    0 <= k < j ==> !(starts_with(lc@, #[trigger] safe_tools()[k]) || (words(
                        lc@,
                    ).len() > 0 && words(lc@)[0] == safe_tools()[k])),
            decreases tools.len() - j,
        {
            let tool = &tools[j];
            assert(safe_tools()[j as int] == tool@);
            if starts_with_exec(lc, tool) {
                return true;
            }
            if ws.len() > 0 {
                let (a, b) = ws[0];
                assert(words(lc@)[0] == lc@.subrange(a as int, b as int));
                if b - a == tool.len() && occurs_at_exec(lc, tool, a) {
                    assert(lc@.subrange(a as int, b as int) =~= tool@);
                    return true;
                }
                proof {
                    if lc@.subrange(a as int, b as int) == tool@ {
                        assert(lc@.subrange(a as int, a + tool@.len()) == tool@);
                    }
                }
            }
            j = j + 1;
        }
        false
    }

    /// Index of the first word that is a high-risk command once cleaned.
    fn first_risky_word_exec(&self, lc: &Vec<char>, ws: &Vec<(usize, usize)>) -> (r: (
        usize,
        usize,
        usize,
    ))
        requires
            spans_within(lc@, ws@),
            span_texts(lc@, ws@) == words(lc@),
        ensures
            r.0 == first_risky_word(words(lc@)),
            r.0 < ws.len() ==> r.1 <= r.2 <= lc.len() && lc@.subrange(r.1 as int, r.2 as int)
                == clean_word(words(lc@)[r.0 as int]),
    {
        proof {
            use_type_invariant(self);
        }
        let ghost wv = words(lc@);
        let ghost pred = |i: int| risky_commands().contains(clean_word(wv[i]));
        let keep: Vec<char> = Vec::new();
        let mut i: usize = 0;
        while i < ws.len()
            invariant
                char_views(self.high_risk_commands@) == risky_commands(),
                spans_within(lc@, ws@),
                span_texts(lc@, ws@) == wv,
                wv == words(lc@),
                keep@ == Seq::<char>::empty(),
                i <= ws.len(),
                pred == (|i: int| risky_commands().contains(clean_word(wv[i]))),
                first_from(0, ws.len() as int, pred) == first_from(i as int, ws.len() as int, pred),
            decreases ws.len() - i,
        {
            let (a, b) = ws[i];
            assert(wv[i as int] == lc@.subrange(a as int, b as int));
            let (ca, cb) = trim_span(lc, a, b, false, &keep);
            if span_in_list(lc, ca, cb, &self.high_risk_commands) {
                return (i, ca, cb);
            }
            i = i + 1;
        }
        (i, 0, 0)
    }
}

impl CommandSafetyChecker {
    /// The verdict on `command`: the first rule that applies decides its level,
    /// and the reason names what matched.
    pub fn check_command_detailed(&self, command: &str) -> (r: SafetyCheckResult)
        ensures
            r@ == classify(self@, command@),
    {
        proof {
            use_type_invariant(self);
        }
        let c = chars_of(command);
        let lower = lowercase(command);
        let lstr = lower.as_str();
        let lc = chars_of(lstr);
        let ghost p = self@;
        let b = self.first_blocking_exec(&c, &lc);
        if b < self.blocked_commands.len() {
            let pattern = self.blocked_commands[b].as_str();
            assert(p.blocked[b as int] == pattern@);
            let reason = concat3("Command blocked by enterprise policy: contains '", pattern, "'");
            return SafetyCheckResult { level: SafetyLevel::Blocked, reason: Some(reason) };
        }
        if !self.passes_allow_list_exec(&c, &lc) {
            let reason = String::from_str("Command not in allowed list (enterprise whitelist active)");
            return SafetyCheckResult { level: SafetyLevel::Blocked, reason: Some(reason) };
        }
        let ws = word_spans(&lc);
        if self.looks_safe_exec(&lc, &ws) {
            return SafetyCheckResult { level: SafetyLevel::Safe, reason: None };
        }
        let level = if self.compliance_mode {
            SafetyLevel::Dangerous
        } else {
            SafetyLevel::Warning
        };
        let ghost wv = words(lc@);
        if ws.len() > 0 {
            let (a, e) = ws[0];
            assert(wv[0] == lc@.subrange(a as int, e as int));
            if span_in_list(&lc, a, e, &self.high_risk_commands) {
                let word = lstr.substring_char(a, e);
                let reason = concat3("Command '", word, "' can be destructive");
                return SafetyCheckResult { level, reason: Some(reason) };
            }
        }
        let (k, ca, cb) = self.first_risky_word_exec(&lc, &ws);
        if k < ws.len() {
            let word = lstr.substring_char(ca, cb);
            let reason = concat3("Command '", word, "' can be destructive");
            return SafetyCheckResult { level, reason: Some(reason) };
        }
        let q = first_contained_exec(&lc, &self.high_risk_patterns);
        if q < self.high_risk_patterns.len() {
            assert(risky_flags()[q as int] == self.high_risk_patterns@[q as int]@);
            let found = find_exec(&lc, &self.high_risk_patterns[q]);
            match found {
                Some(i) => {
                    let n = self.high_risk_patterns[q].len();
                    let flag = lstr.substring_char(i, i + n);
                    let reason = concat3("Pattern '", flag, "' often used in destructive operations");
                    return SafetyCheckResult { level: SafetyLevel::Dangerous, reason: Some(reason) };
                },
                None => {
                    proof {
                        lemma_first_from_bounds(0, risky_flags().len() as int, |j: int| contains(lc@, risky_flags()[j]));
                    }
                    assert(false);
                },
            }
        }
        proof {
            lemma_mentions(lc@, deletion_family());
            lemma_mentions(lc@, force_family());
        }
        let d = first_contained_exec(&lc, &self.deletion_words);
        let f = first_contained_exec(&lc, &self.force_flags);
        if d < self.deletion_words.len() && f < self.force_flags.len() {
            let reason = String::from_str("Recursive or forced deletion can be dangerous");
            return SafetyCheckResult { level: SafetyLevel::Dangerous, reason: Some(reason) };
        }
        let single = chars_of(" > ");
        let double = chars_of(" >> ");
        if contains_exec(&lc, &single) && !contains_exec(&lc, &double) {
            let reason = String::from_str("File redirection (>) will overwrite existing files");
            return SafetyCheckResult { level: SafetyLevel::Warning, reason: Some(reason) };
        }
        SafetyCheckResult { level: SafetyLevel::Safe, reason: None }
    }

    /// Whether the command is anything but `Safe`, with the reason.
    pub fn check_command(&self, command: &str) -> (r: (bool, Option<String>))
        ensures
            r.0 == (classify(self@, command@).0 != SafetyLevel::Safe),
            opt_view(r.1) == classify(self@, command@).1,
    {
        let result = self.check_command_detailed(command);
        let is_high_risk = match result.level {
            SafetyLevel::Safe => false,
            _ => true,
        };
        (is_high_risk, result.reason)
    }
}

impl CommandSafetyChecker {
    /// A checker with the fixed rules and the given allow list, block list and mode.
    pub fn with_enterprise_config(
        allowed_commands: Vec<String>,
        blocked_commands: Vec<String>,
        compliance_mode: bool,
    ) -> (r: Self)
        ensures
            r@ == (PolicyModel {
                allowed: string_views(allowed_commands@),
                blocked: string_views(blocked_commands@),
                compliance: compliance_mode,
            }),
    {
        let mut checker = Self::new();
        proof {
            use_type_invariant(&checker);
        }
        checker.allowed_commands = allowed_commands;
        checker.blocked_commands = blocked_commands;
        checker.compliance_mode = compliance_mode;
        checker
    }

    /// Replaces the allow list.
    pub fn set_allowed_commands(&mut self, allowed: Vec<String>)
        ensures
            final(self)@ == (PolicyModel { allowed: string_views(allowed@), ..old(self)@ }),
    {
        proof {
            use_type_invariant(&*self);
        }
        self.allowed_commands = allowed;
    }

    /// Replaces the block list.
    pub fn set_blocked_commands(&mut self, blocked: Vec<String>)
        ensures
            final(self)@ == (PolicyModel { blocked: string_views(blocked@), ..old(self)@ }),
    {
        proof {
            use_type_invariant(&*self);
        }
        self.blocked_commands = blocked;
    }

    /// Turns compliance mode on or off.
    pub fn set_compliance_mode(&mut self, enabled: bool)
        ensures
            final(self)@ == (PolicyModel { compliance: enabled, ..old(self)@ }),
    {
        proof {
            use_type_invariant(&*self);
        }
        self.compliance_mode = enabled;
    }
}

impl Default for CommandSafetyChecker {
    fn default() -> (r: Self)
        ensures
            r@.allowed.len() == 0,
            r@.blocked.len() == 0,
            !r@.compliance,
    {
        Self::new()
    }
}

/// A command has a word that is a high-risk command, as it stands or cleaned.
pub open spec fn has_risky_word(lc: Seq<char>) -> bool {
    let ws = words(lc);
    (ws.len() > 0 && risky_commands().contains(ws[0])) || first_risky_word(ws) < ws.len()
}

/// The verdict is a function of the policy and the command text alone: two
/// checkers with the same policy give the same verdict on the same text.
pub proof fn lemma_classify_deterministic(
    a: CommandSafetyChecker,
    b: CommandSafetyChecker,
    c1: Seq<char>,
    c2: Seq<char>,
)
    requires
        a@ == b@,
        c1 == c2,
    ensures
        classify(a@, c1) == classify(b@, c2),
{
}

/// A command that an allowed pattern admits and a blocked pattern matches is `Blocked`.
pub proof fn lemma_blocklist_dominates(p: PolicyModel, c: Seq<char>, i: int, j: int)
    requires
        0 <= i < p.allowed.len(),
        allows(p.allowed[i], c),
        0 <= j < p.blocked.len(),
        blocks(p.blocked[j], c),
    ensures
        classify(p, c).0 == SafetyLevel::Blocked,
{
    let pred = |k: int| blocks(p.blocked[k], c);
    lemma_first_from_bounds(0, p.blocked.len() as int, pred);
    assert(pred(j));
}

/// A command that is a `Warning` for a high-risk word with compliance mode off
/// is at least `Dangerous` with it on, under the same lists. (A `Warning` for
/// an overwriting redirection alone stays a `Warning` in both modes.)
pub proof fn lemma_compliance_escalates(p: PolicyModel, c: Seq<char>)
    requires
        !p.compliance,
        classify(p, c).0 == SafetyLevel::Warning,
        has_risky_word(lower_of(c)),
    ensures
        severity(classify(PolicyModel { compliance: true, ..p }, c).0) >= severity(
            SafetyLevel::Dangerous,
        ),
        classify(PolicyModel { compliance: true, ..p }, c).0 != SafetyLevel::Safe,
{
}

/// `first_contained` finds an entry exactly when some entry occurs.
proof fn lemma_mentions(lc: Seq<char>, list: Seq<Seq<char>>)
    ensures
        (first_contained(lc, list) < list.len()) == mentions_any(lc, list),
{
    let pred = |j: int| contains(lc, list[j]);
    lemma_first_from_bounds(0, list.len() as int, pred);
    if mentions_any(lc, list) {
        let j = choose|j: int| 0 <= j < list.len() && contains(lc, list[j]);
        assert(pred(j));
    }
}

} // verus!
