//! Template matchers that turn common requests into commands without a model,
//! and the registry that tries them in turn.

use vstd::prelude::*;
use vstd::string::*;
use crate::text::{
    char_views, chars_of, contains, contains_exec, first_from, lower_of, lowercase,
    span_in_list, span_texts, sub_vec, spans_within, starts_with, starts_with_exec, strip_rule, trim_by,
    trim_span, word_spans, words,
};

verus! {

/// A command a matcher proposes.
#[derive(Debug, Clone)]
pub struct CommandResult {
    /// The shell command to be executed
    pub command: String,
    /// What the command does
    pub explanation: String,
    /// Whether the matcher ran the command itself
    pub executed: bool,
    /// The output of the command, where the matcher ran it
    pub output: Option<String>,
}

/// The command and explanation of a proposal that was not run.
pub open spec fn proposal(r: Option<CommandResult>) -> Option<(Seq<char>, Seq<char>)> {
    match r {
        Some(c) => if !c.executed && c.output is None {
            Some((c.command@, c.explanation@))
        } else {
            None
        },
        None => None,
    }
}

pub fn suggest(command: String, explanation: String) -> (r: CommandResult)
    ensures
        r.command == command,
        r.explanation == explanation,
        !r.executed,
        r.output is None,
{
    CommandResult { command, explanation, executed: false, output: None }
}

/// A matcher of requests to commands.
pub trait Plugin {
    spec fn spec_name(&self) -> Seq<char>;

    spec fn spec_description(&self) -> Seq<char>;

    /// Whether the matcher takes on a request.
    spec fn handles(&self, input: Seq<char>) -> bool;

    /// The command and explanation the matcher proposes for a request.
    spec fn response(&self, input: Seq<char>) -> Option<(Seq<char>, Seq<char>)>;

    fn name(&self) -> (r: &str)
        ensures
            r@ == self.spec_name(),
    ;

    fn description(&self) -> (r: &str)
        ensures
            r@ == self.spec_description(),
    ;

    fn can_handle(&self, input: &str) -> (r: bool)
        ensures
            r == self.handles(input@),
    ;

    fn handle(&self, input: &str) -> (r: Option<CommandResult>)
        ensures
            proposal(r) == self.response(input@),
            r is Some ==> proposal(r) is Some,
    ;

    /// The proposal, where the matcher takes on the request.
    fn process(&self, input: &str) -> (r: Option<CommandResult>)
        ensures
            proposal(r) == if self.handles(input@) {
                self.response(input@)
            } else {
                None
            },
            r is Some ==> proposal(r) is Some,
    {
        if self.can_handle(input) {
            self.handle(input)
        } else {
            None
        }
    }
}

/// The word after the first word that, lowercased, is one of `keys`, without
/// the characters at its ends that are neither alphanumeric nor in `keep`.
pub open spec fn word_after(input: Seq<char>, keys: Seq<Seq<char>>, keep: Seq<char>) -> Option<
    Seq<char>,
> {
    let ws = words(input);
    let i = first_from(0, ws.len() as int, |i: int| keys.contains(lower_of(ws[i])));
    if i + 1 < ws.len() {
        Some(trim_by(ws[i + 1], strip_rule(false, keep)))
    } else {
        None
    }
}

/// The word after one of `keys`, cleaned; see `word_after`.
pub fn word_after_exec(input: &str, keys: &Vec<Vec<char>>, keep: &Vec<char>) -> (r: Option<String>)
    ensures
        match r {
            Some(w) => word_after(input@, char_views(keys@), keep@) == Some(w@),
            None => word_after(input@, char_views(keys@), keep@) is None,
        },
{
    let ic = chars_of(input);
    let ws = word_spans(&ic);
    let ghost wv = words(input@);
    let ghost kv = char_views(keys@);
    let ghost pred = |i: int| kv.contains(lower_of(wv[i]));
    let mut i: usize = 0;
    while i < ws.len()
        invariant
            ic@ == input@,
            spans_within(ic@, ws@),
            span_texts(ic@, ws@) == wv,
            wv == words(input@),
            kv == char_views(keys@),
            i <= ws.len(),
            pred == (|i: int| kv.contains(lower_of(wv[i]))),
            first_from(0, ws.len() as int, pred) == first_from(i as int, ws.len() as int, pred),
        decreases ws.len() - i,
    {
        let (a, b) = ws[i];
        assert(wv[i as int] == ic@.subrange(a as int, b as int));
        let word = input.substring_char(a, b);
        let lw = lowercase(word);
        let lwc = chars_of(lw.as_str());
        if span_in_list(&lwc, 0, lwc.len(), keys) {
            assert(lwc@.subrange(0, lwc@.len() as int) =~= lwc@);
            assert(pred(i as int));
            assert(first_from(i as int, ws.len() as int, pred) == i as int);
            if i + 1 < ws.len() {
                let (c, d) = ws[i + 1];
                assert(wv[i + 1] == ic@.subrange(c as int, d as int));
                let (x, y) = trim_span(&ic, c, d, false, keep);
                return Some(String::from_str(input.substring_char(x, y)));
            }
            return None;
        }
        assert(lwc@.subrange(0, lwc@.len() as int) =~= lwc@);
        i = i + 1;
    }
    None
}

/// The text between the first two double quotes of `input`.
pub open spec fn quoted(input: Seq<char>) -> Option<Seq<char>> {
    let a = first_from(0, input.len() as int, |i: int| input[i] == '"');
    let rest = input.skip(a + 1);
    let b = first_from(0, rest.len() as int, |i: int| rest[i] == '"');
    if a < input.len() && b < rest.len() {
        Some(rest.take(b))
    } else {
        None
    }
}

/// Where the first `"` at or after `from` stands in `s`, or `s.len()`.
fn find_quote(s: &Vec<char>, from: usize) -> (r: usize)
    requires
        from <= s.len(),
    ensures
        r == from + first_from(
            0,
            s@.skip(from as int).len() as int,
            |i: int| s@.skip(from as int)[i] == '"',
        ),
        from <= r <= s.len(),
{
    let ghost rest = s@.skip(from as int);
    let ghost pred = |i: int| rest[i] == '"';
    let mut i: usize = from;
    while i < s.len() && s[i] != '"'
        invariant
            from <= i <= s.len(),
            rest == s@.skip(from as int),
            pred == (|i: int| rest[i] == '"'),
            first_from(0, rest.len() as int, pred) == first_from(i - from, rest.len() as int, pred),
        decreases s.len() - i,
    {
        assert(!pred(i - from));
        i = i + 1;
    }
    proof {
        if i < s.len() {
            assert(pred(i - from));
        }
    }
    i
}

/// The text between the first two double quotes, where there are two.
pub fn extract_quoted_text(input: &str) -> (r: Option<String>)
    ensures
        match r {
            Some(w) => quoted(input@) == Some(w@),
            None => quoted(input@) is None,
        },
{
    let ic = chars_of(input);
    let a = find_quote(&ic, 0);
    assert(ic@.skip(0) =~= ic@);
    if a >= ic.len() {
        return None;
    }
    let b = find_quote(&ic, a + 1);
    if b >= ic.len() {
        return None;
    }
    let ghost rest = ic@.skip(a + 1);
    assert(rest.take(b - a - 1) =~= ic@.subrange(a + 1, b as int));
    Some(String::from_str(input.substring_char(a + 1, b)))
}

/// The first word that starts with `http://`, `https://` or `git@`.
pub open spec fn url_in(input: Seq<char>) -> Option<Seq<char>> {
    let ws = words(input);
    let i = first_from(
        0,
        ws.len() as int,
        |i: int|
            starts_with(ws[i], "http://"@) || starts_with(ws[i], "https://"@) || starts_with(
                ws[i],
                "git@"@,
            ),
    );
    if i < ws.len() {
        Some(ws[i])
    } else {
        None
    }
}

pub fn extract_url(input: &str) -> (r: Option<String>)
    ensures
        match r {
            Some(w) => url_in(input@) == Some(w@),
            None => url_in(input@) is None,
        },
{
    let ic = chars_of(input);
    let ws = word_spans(&ic);
    let ghost wv = words(input@);
    let ghost pred = |i: int|
        starts_with(wv[i], "http://"@) || starts_with(wv[i], "https://"@) || starts_with(
            wv[i],
            "git@"@,
        );
    let http = chars_of("http://");
    let https = chars_of("https://");
    let git = chars_of("git@");
    let mut i: usize = 0;
    while i < ws.len()
        invariant
            ic@ == input@,
            spans_within(ic@, ws@),
            span_texts(ic@, ws@) == wv,
            wv == words(input@),
            http@ == "http://"@,
            https@ == "https://"@,
            git@ == "git@"@,
            i <= ws.len(),
            pred == (|i: int|
                starts_with(wv[i], "http://"@) || starts_with(wv[i], "https://"@) || starts_with(
                    wv[i],
                    "git@"@,
                )),
            first_from(0, ws.len() as int, pred) == first_from(i as int, ws.len() as int, pred),
        decreases ws.len() - i,
    {
        let (a, b) = ws[i];
        assert(wv[i as int] == ic@.subrange(a as int, b as int));
        let w = sub_vec(&ic, a, b);
        if starts_with_exec(&w, &http) || starts_with_exec(&w, &https) || starts_with_exec(&w, &git) {
            assert(pred(i as int));
            assert(first_from(i as int, ws.len() as int, pred) == i as int);
            return Some(String::from_str(input.substring_char(a, b)));
        }
        i = i + 1;
    }
    None
}

/// Whether the lowercased request mentions `word`.
pub fn mentions(lc: &Vec<char>, word: &str) -> (r: bool)
    ensures
        r == contains(lc@, word@),
{
    let w = chars_of(word);
    contains_exec(lc, &w)
}

} // verus!
