//! Turns the raw text a model returned into a command and its explanation.

use vstd::prelude::*;
use vstd::string::*;
use crate::text::{
    chars_of, contains, contains_exec, first_from, join_lines, line_spans, lines, opt_view,
    span_texts, spans_within, starts_with, starts_with_exec, sub_vec, trim, trim_span,
};

verus! {

/// The structured answer a model is asked for.
pub struct LLMResponse {
    pub command: String,
    pub explanation: String,
}

/// The string stored under `key` in the JSON object that `text` is, if any.
pub uninterp spec fn json_member(text: Seq<char>, key: Seq<char>) -> Option<Seq<char>>;

/// Relies on `serde_json::from_str` into a `serde_json::Value` and on
/// `Value::get`: the string stored under `key` when `text` is one JSON object
/// that holds a string there, and nothing otherwise.
#[verifier::external_body]
fn json_string_member(text: &str, key: &str) -> (r: Option<String>)
    ensures
        opt_view(r) == json_member(text@, key@),
{
    match serde_json::from_str::<serde_json::Value>(text) {
        Ok(v) => match v.get(key) {
            Some(serde_json::Value::String(m)) => Some(m.clone()),
            _ => None,
        },
        Err(_) => None,
    }
}

/// The JSON text of a string: quoted, with escapes.
pub uninterp spec fn json_quoted(s: Seq<char>) -> Seq<char>;

/// Relies on `serde_json::to_string` applied to a string slice: its JSON
/// string literal.
#[verifier::external_body]
fn json_quote(s: &str) -> (r: Option<String>)
    ensures
        r matches Some(q) ==> q@ == json_quoted(s@),
{
    serde_json::to_string(s).ok()
}

/// The pair of strings under `command` and `explanation`, when `text` is a
/// JSON object that holds both.
pub open spec fn decode_pair(text: Seq<char>) -> Option<(Seq<char>, Seq<char>)> {
    match (json_member(text, "command"@), json_member(text, "explanation"@)) {
        (Some(c), Some(e)) => Some((c, e)),
        _ => None,
    }
}

pub open spec fn pair_view(p: Option<(String, String)>) -> Option<(Seq<char>, Seq<char>)> {
    match p {
        Some((c, e)) => Some((c@, e@)),
        None => None,
    }
}

/// The position of the last `c` in `s`, or -1.
pub open spec fn last_index_of(s: Seq<char>, c: char) -> int
    decreases s.len(),
{
    if s.len() == 0 {
        -1
    } else if s.last() == c {
        s.len() - 1
    } else {
        last_index_of(s.drop_last(), c)
    }
}

/// The position of the first `{` in `s`, or `s.len()`.
pub open spec fn first_open_brace(s: Seq<char>) -> int {
    first_from(0, s.len() as int, |i: int| s[i] == '{')
}

/// The text from the first `{` to the last `}`, where both key names occur.
pub open spec fn embedded_object(raw: Seq<char>) -> Option<Seq<char>> {
    let a = first_open_brace(raw);
    let b = last_index_of(raw, '}');
    if contains(raw, "\"command\""@) && contains(raw, "\"explanation\""@) && a < b {
        Some(raw.subrange(a, b + 1))
    } else {
        None
    }
}

pub open spec fn nonempty(v: Seq<char>) -> Option<Seq<char>> {
    if v.len() > 0 {
        Some(v)
    } else {
        None
    }
}

/// A line that opens a fenced block not tagged as JSON.
pub open spec fn is_fence(t: Seq<char>) -> bool {
    starts_with(t, "```"@) && !contains(t, "```json"@)
}

/// The command a trimmed line gives, if it gives one.
pub open spec fn command_on(t: Seq<char>) -> Option<Seq<char>> {
    if starts_with(t, "Command:"@) {
        nonempty(trim(t.skip("Command:"@.len() as int)))
    } else if is_fence(t) {
        nonempty(trim(t.skip("```"@.len() as int)))
    } else {
        None
    }
}

/// The explanation a trimmed line gives, if it gives one.
pub open spec fn explanation_on(t: Seq<char>) -> Option<Seq<char>> {
    if !starts_with(t, "Command:"@) && !is_fence(t) && starts_with(t, "Explanation:"@) {
        nonempty(trim(t.skip("Explanation:"@.len() as int)))
    } else {
        None
    }
}

pub open spec fn or_else(a: Option<Seq<char>>, b: Option<Seq<char>>) -> Option<Seq<char>> {
    if a is Some {
        a
    } else {
        b
    }
}

/// The first command and the first explanation that labelled lines give.
pub open spec fn labels(ls: Seq<Seq<char>>) -> (Option<Seq<char>>, Option<Seq<char>>)
    decreases ls.len(),
{
    if ls.len() == 0 {
        (None, None)
    } else {
        let rest = labels(ls.drop_first());
        let t = trim(ls[0]);
        (or_else(command_on(t), rest.0), or_else(explanation_on(t), rest.1))
    }
}

/// The explanation given when the text holds none.
pub open spec fn placeholder() -> Seq<char> {
    "No explanation provided"@
}

/// The first line that is not blank.
pub open spec fn first_nonblank(ls: Seq<Seq<char>>) -> int {
    first_from(0, ls.len() as int, |i: int| trim(ls[i]).len() > 0)
}

/// The first non-blank line as command, the lines after it as explanation.
pub open spec fn fallback(ls: Seq<Seq<char>>) -> Option<(Seq<char>, Seq<char>)> {
    let j = first_nonblank(ls);
    let e = trim(join_lines(ls.skip(j + 1)));
    if j < ls.len() {
        Some((trim(ls[j]), if e.len() > 0 { e } else { placeholder() }))
    } else {
        None
    }
}

/// What free text gives: both labels where both occur, else the fallback.
pub open spec fn from_text(raw: Seq<char>) -> Option<(Seq<char>, Seq<char>)> {
    let ls = lines(raw);
    match labels(ls) {
        (Some(c), Some(e)) => Some((c, e)),
        _ => fallback(ls),
    }
}

/// The first of the extraction steps that succeeds.
pub open spec fn candidate(raw: Seq<char>) -> Option<(Seq<char>, Seq<char>)> {
    if decode_pair(raw) is Some {
        decode_pair(raw)
    } else if embedded_object(raw) is Some && decode_pair(embedded_object(raw)->0) is Some {
        decode_pair(embedded_object(raw)->0)
    } else {
        from_text(raw)
    }
}

/// What `raw` parses to: the candidate pair, where both parts are non-empty.
pub open spec fn parse_model(raw: Seq<char>) -> Option<(Seq<char>, Seq<char>)> {
    match candidate(raw) {
        Some((c, e)) => if c.len() > 0 && e.len() > 0 {
            Some((c, e))
        } else {
            None
        },
        None => None,
    }
}

/// The message of a failed parse, which carries the raw text.
pub open spec fn parse_failure(raw: Seq<char>) -> Seq<char> {
    "Failed to parse LLM response. Raw response: "@ + raw
}

fn parse_failure_message(raw: &str) -> (r: String)
    ensures
        r@ == parse_failure(raw@),
{
    let mut m = String::from_str("Failed to parse LLM response. Raw response: ");
    m.append(raw);
    m
}

fn decode_exec(text: &str) -> (r: Option<(String, String)>)
    ensures
        pair_view(r) == decode_pair(text@),
{
    let c = json_string_member(text, "command");
    match c {
        Some(c) => {
            let e = json_string_member(text, "explanation");
            match e {
                Some(e) => Some((c, e)),
                None => None,
            }
        },
        None => None,
    }
}

/// The text between the first `{` and the last `}`, where both key names occur.
fn embedded_exec(raw: &str, rc: &Vec<char>) -> (r: Option<String>)
    requires
        rc@ == raw@,
    ensures
        opt_view(r) == embedded_object(raw@),
{
    let key_c = chars_of("\"command\"");
    let key_e = chars_of("\"explanation\"");
    if !contains_exec(rc, &key_c) || !contains_exec(rc, &key_e) {
        return None;
    }
    let ghost s = rc@;
    let ghost open_pred = |i: int| s[i] == '{';
    let mut a: usize = 0;
    while a < rc.len() && rc[a] != '{'
        invariant
            s == rc@,
            a <= rc.len(),
            open_pred == (|i: int| s[i] == '{'),
            first_from(0, s.len() as int, open_pred) == first_from(a as int, s.len() as int, open_pred),
        decreases rc.len() - a,
    {
        a = a + 1;
    }
    proof {
        if a < rc.len() {
            assert(open_pred(a as int));
        }
        assert(first_from(a as int, s.len() as int, open_pred) == a as int);
    }
    let mut i: usize = rc.len();
    assert(s.take(s.len() as int) =~= s);
    while i > 0 && rc[i - 1] != '}'
        invariant
            s == rc@,
            i <= rc.len(),
            last_index_of(s, '}') == last_index_of(s.take(i as int), '}'),
        decreases i,
    {
        assert(s.take(i as int).drop_last() =~= s.take(i - 1));
        i = i - 1;
    }
    if i == 0 {
        assert(s.take(0) =~= Seq::<char>::empty());
        return None;
    }
    let b = i - 1;
    assert(s.take(i as int).last() == '}');
    if a < b {
        Some(String::from_str(raw.substring_char(a, b + 1)))
    } else {
        None
    }
}

/// The first labelled command and explanation among the lines of `raw`.
fn labels_exec(raw: &str, rc: &Vec<char>, spans: &Vec<(usize, usize)>) -> (r: (
    Option<String>,
    Option<String>,
))
    requires
        rc@ == raw@,
        spans_within(rc@, spans@),
        span_texts(rc@, spans@) == lines(rc@),
    ensures
        (opt_view(r.0), opt_view(r.1)) == labels(lines(raw@)),
{
    let ghost ls = lines(rc@);
    let empty: Vec<char> = Vec::new();
    let cmd_label = chars_of("Command:");
    let fence = chars_of("```");
    let fence_json = chars_of("```json");
    let exp_label = chars_of("Explanation:");
    let mut found_c: Option<String> = None;
    let mut found_e: Option<String> = None;
    let mut i: usize = 0;
    assert(ls.skip(0) =~= ls);
    while i < spans.len()
        invariant
            rc@ == raw@,
            spans_within(rc@, spans@),
            span_texts(rc@, spans@) == ls,
            ls.len() == spans.len(),
            empty@ == Seq::<char>::empty(),
            cmd_label@ == "Command:"@,
            fence@ == "```"@,
            fence_json@ == "```json"@,
            exp_label@ == "Explanation:"@,
            i <= spans.len(),
            labels(ls) == (
                or_else(opt_view(found_c), labels(ls.skip(i as int)).0),
                or_else(opt_view(found_e), labels(ls.skip(i as int)).1),
            ),
        decreases spans.len() - i,
    {
        let (a, b) = spans[i];
        assert(ls[i as int] == rc@.subrange(a as int, b as int));
        assert(ls.skip(i as int).drop_first() =~= ls.skip(i + 1));
        assert(ls.skip(i as int)[0] == ls[i as int]);
        let (ta, tb) = trim_span(rc, a, b, true, &empty);
        let t = sub_vec(rc, ta, tb);
        assert(t@ == trim(ls[i as int]));
        let ghost tv = t@;
        let mut cmd_here: Option<String> = None;
        let mut exp_here: Option<String> = None;
        let is_cmd = starts_with_exec(&t, &cmd_label);
        let is_fence_line = !is_cmd && starts_with_exec(&t, &fence) && !contains_exec(
            &t,
            &fence_json,
        );
        if is_cmd || is_fence_line {
            let skip = if is_cmd {
                cmd_label.len()
            } else {
                fence.len()
            };
            let (x, y) = trim_span(&t, skip, t.len(), true, &empty);
            assert(tv.subrange(skip as int, tv.len() as int) =~= tv.skip(skip as int));
            if x < y {
                let v = raw.substring_char(ta + x, ta + y);
                assert(v@ =~= tv.subrange(x as int, y as int));
                cmd_here = Some(String::from_str(v));
            }
        } else if starts_with_exec(&t, &exp_label) {
            let (x, y) = trim_span(&t, exp_label.len(), t.len(), true, &empty);
            assert(tv.subrange(exp_label.len() as int, tv.len() as int) =~= tv.skip(
                exp_label.len() as int,
            ));
            if x < y {
                let v = raw.substring_char(ta + x, ta + y);
                assert(v@ =~= tv.subrange(x as int, y as int));
                exp_here = Some(String::from_str(v));
            }
        }
        assert(opt_view(cmd_here) == command_on(tv));
        assert(opt_view(exp_here) == explanation_on(tv));
        if found_c.is_none() {
            found_c = cmd_here;
        }
        if found_e.is_none() {
            found_e = exp_here;
        }
        i = i + 1;
    }
    assert(ls.skip(i as int) =~= Seq::<Seq<char>>::empty());
    (found_c, found_e)
}

/// The index of the first non-blank line, with the bounds of its trimmed text.
fn first_nonblank_exec(rc: &Vec<char>, spans: &Vec<(usize, usize)>) -> (r: (usize, usize, usize))
    requires
        spans_within(rc@, spans@),
        span_texts(rc@, spans@) == lines(rc@),
    ensures
        r.0 == first_nonblank(lines(rc@)),
        r.0 <= spans.len(),
        r.0 < spans.len() ==> r.1 <= r.2 <= rc.len() && rc@.subrange(r.1 as int, r.2 as int)
            == trim(lines(rc@)[r.0 as int]),
{
    let ghost ls = lines(rc@);
    let ghost pred = |i: int| trim(ls[i]).len() > 0;
    let empty: Vec<char> = Vec::new();
    let n = spans.len();
    assert(span_texts(rc@, spans@).len() == n);
    assert(ls.len() == n);
    let mut j: usize = 0;
    while j < n
        invariant
            n == spans.len(),
            ls.len() == n,
            spans_within(rc@, spans@),
            span_texts(rc@, spans@) == ls,
            empty@ == Seq::<char>::empty(),
            ls == lines(rc@),
            j <= n,
            pred == (|i: int| trim(ls[i]).len() > 0),
            first_from(0, n as int, pred) == first_from(j as int, n as int, pred),
        decreases n - j,
    {
        let (a, b) = spans[j];
        assert(ls[j as int] == rc@.subrange(a as int, b as int));
        let (ta, tb) = trim_span(rc, a, b, true, &empty);
        if ta < tb {
            assert(pred(j as int));
            assert(first_from(j as int, n as int, pred) == j as int);
            return (j, ta, tb);
        }
        j = j + 1;
    }
    (j, 0, 0)
}

/// The first non-blank line as command, the lines after it, joined and
/// trimmed, as explanation.
fn fallback_exec(raw: &str, rc: &Vec<char>, spans: &Vec<(usize, usize)>) -> (r: Option<
    (String, String),
>)
    requires
        rc@ == raw@,
        spans_within(rc@, spans@),
        span_texts(rc@, spans@) == lines(rc@),
    ensures
        pair_view(r) == fallback(lines(raw@)),
{
    let ghost ls = lines(rc@);
    let n = spans.len();
    let empty: Vec<char> = Vec::new();
    let (j, ta, tb) = first_nonblank_exec(rc, spans);
    let found: Option<(usize, usize)> = if j < n { Some((ta, tb)) } else { None };
    match found {
        None => None,
        Some((ta, tb)) => {
            let ghost jj = j as int;
            let command = String::from_str(raw.substring_char(ta, tb));
            let mut joined = String::new();
            let mut i: usize = j + 1;
            assert(ls.subrange(jj + 1, jj + 1) =~= Seq::<Seq<char>>::empty());
            while i < n
                invariant
                    rc@ == raw@,
                    n == spans.len(),
                    ls.len() == n,
                    spans_within(rc@, spans@),
                    span_texts(rc@, spans@) == ls,
                    ls == lines(rc@),
                    jj == j as int,
                    j < n,
                    jj + 1 <= i <= n,
                    joined@ == join_lines(ls.subrange(jj + 1, i as int)),
                decreases n - i,
            {
                let (a, b) = spans[i];
                assert(ls[i as int] == rc@.subrange(a as int, b as int));
                let piece = raw.substring_char(a, b);
                let ghost prev = ls.subrange(jj + 1, i as int);
                let ghost next = ls.subrange(jj + 1, i + 1);
                assert(next.drop_last() =~= prev);
                assert(next.last() == piece@);
                if i > j + 1 {
                    joined.append("\n");
                }
                joined.append(piece);
                proof {
                    if i == j + 1 {
                        assert(prev.len() == 0);
                        assert(joined@ =~= piece@);
                    }
                }
                i = i + 1;
            }
            assert(ls.subrange(jj + 1, n as int) =~= ls.skip(jj + 1));
            let jc = chars_of(joined.as_str());
            let (x, y) = trim_span(&jc, 0, jc.len(), true, &empty);
            assert(jc@.subrange(0, jc@.len() as int) =~= jc@);
            let explanation = if x < y {
                String::from_str(joined.as_str().substring_char(x, y))
            } else {
                String::from_str("No explanation provided")
            };
            assert(command@ == trim(ls[jj]));
            Some((command, explanation))
        },
    }
}

/// Splits raw model output into a command and an explanation. Tried in
/// order: the text as a JSON object; the JSON object inside it; `Command:`
/// and `Explanation:` lines; the first non-blank line and what follows it.
/// Fails, carrying the raw text, where no step yields a non-empty pair.
pub fn parse_response(response: &str) -> (r: Result<(String, String), String>)
    ensures
        r matches Ok((c, e)) ==> parse_model(response@) == Some((c@, e@)),
        r matches Err(m) ==> parse_model(response@) is None && m@ == parse_failure(response@),
{
    let rc = chars_of(response);
    let mut pair = decode_exec(response);
    if pair.is_none() {
        let inner = embedded_exec(response, &rc);
        if let Some(obj) = inner {
            pair = decode_exec(obj.as_str());
        }
        if pair.is_none() {
            let spans = line_spans(&rc);
            let (c, e) = labels_exec(response, &rc, &spans);
            pair = match (c, e) {
                (Some(c), Some(e)) => Some((c, e)),
                _ => fallback_exec(response, &rc, &spans),
            };
        }
    }
    assert(pair_view(pair) == candidate(response@));
    match pair {
        Some((c, e)) => {
            if c.as_str().unicode_len() > 0 && e.as_str().unicode_len() > 0 {
                Ok((c, e))
            } else {
                Err(parse_failure_message(response))
            }
        },
        None => Err(parse_failure_message(response)),
    }
}

/// The wire form of a command and its explanation: one JSON object with the
/// two string members, as `serde_json` writes it.
pub open spec fn response_json(command: Seq<char>, explanation: Seq<char>) -> Seq<char> {
    "{\"command\":"@ + json_quoted(command) + ",\"explanation\":"@ + json_quoted(explanation)
        + "}"@
}

impl LLMResponse {
    pub fn new(command: String, explanation: String) -> (r: Self)
        ensures
            r.command == command,
            r.explanation == explanation,
    {
        LLMResponse { command, explanation }
    }

    /// The JSON object that carries this response.
    pub fn to_json(&self) -> (r: Option<String>)
        ensures
            r matches Some(j) ==> j@ == response_json(self.command@, self.explanation@),
    {
        let c = json_quote(self.command.as_str());
        let e = json_quote(self.explanation.as_str());
        match (c, e) {
            (Some(c), Some(e)) => {
                let mut j = String::from_str("{\"command\":");
                j.append(c.as_str());
                j.append(",\"explanation\":");
                j.append(e.as_str());
                j.append("}");
                Some(j)
            },
            _ => None,
        }
    }
}

} // verus!
