//! Character-level text operations used by the parser, the classifier and
//! the plugins, each stated over the character sequence of its input.

use vstd::prelude::*;
use vstd::string::*;

verus! {

/// Unicode `White_Space`, the set that `char::is_whitespace` tests.
pub open spec fn is_space(c: char) -> bool {
    let u = c as u32;
    (0x09 <= u && u <= 0x0D) || u == 0x20 || u == 0x85 || u == 0xA0 || u == 0x1680
        || (0x2000 <= u && u <= 0x200A) || u == 0x2028 || u == 0x2029 || u == 0x202F
        || u == 0x205F || u == 0x3000
}

/// `p` occurs in `s` at position `i`.
pub open spec fn occurs_at(s: Seq<char>, p: Seq<char>, i: int) -> bool {
    0 <= i && i + p.len() <= s.len() && s.subrange(i, i + p.len()) == p
}

/// `p` occurs somewhere in `s`.
pub open spec fn contains(s: Seq<char>, p: Seq<char>) -> bool {
    exists|i: int| #[trigger] occurs_at(s, p, i)
}

/// `s` begins with `p`.
pub open spec fn starts_with(s: Seq<char>, p: Seq<char>) -> bool {
    occurs_at(s, p, 0)
}

pub fn is_space_char(c: char) -> (r: bool)
    ensures
        r == is_space(c),
{
    let u = c as u32;
    (0x09 <= u && u <= 0x0D) || u == 0x20 || u == 0x85 || u == 0xA0 || u == 0x1680
        || (0x2000 <= u && u <= 0x200A) || u == 0x2028 || u == 0x2029 || u == 0x202F
        || u == 0x205F || u == 0x3000
}

/// The characters of `s`, one per element.
pub fn chars_of(s: &str) -> (r: Vec<char>)
    ensures
        r@ == s@,
{
    let n = s.unicode_len();
    let mut r: Vec<char> = Vec::new();
    let mut i: usize = 0;
    while i < n
        invariant
            n == s@.len(),
            i <= n,
            r@ == s@.take(i as int),
        decreases n - i,
    {
        let c = s.get_char(i);
        r.push(c);
        i = i + 1;
        assert(r@ =~= s@.take(i as int));
    }
    assert(r@ =~= s@);
    r
}

/// Whether `p` occurs in `s` at position `i`.
pub fn occurs_at_exec(s: &Vec<char>, p: &Vec<char>, i: usize) -> (r: bool)
    ensures
        r == occurs_at(s@, p@, i as int),
{
    if i > s.len() || p.len() > s.len() - i {
        return false;
    }
    let mut j: usize = 0;
    while j < p.len()
        invariant
            i + p.len() <= s.len(),
            j <= p.len(),
            forall|k: int| 0 <= k < j ==> s@[i + k] == p@[k],
        decreases p.len() - j,
    {
        if s[i + j] != p[j] {
            assert(s@.subrange(i as int, i + p.len())[j as int] != p@[j as int]);
            return false;
        }
        j = j + 1;
    }
    assert(s@.subrange(i as int, i + p.len()) =~= p@);
    true
}

/// Whether `p` occurs anywhere in `s`.
pub fn contains_exec(s: &Vec<char>, p: &Vec<char>) -> (r: bool)
    ensures
        r == contains(s@, p@),
{
    if p.len() > s.len() {
        return false;
    }
    let last = s.len() - p.len();
    let mut i: usize = 0;
    while i <= last
        invariant
            last == s.len() - p.len(),
            p.len() <= s.len(),
            i <= last,
            forall|k: int| 0 <= k < i ==> !occurs_at(s@, p@, k),
        decreases last - i,
    {
        if occurs_at_exec(s, p, i) {
            return true;
        }
        if i == last {
            assert forall|k: int| !occurs_at(s@, p@, k) by {
                if 0 <= k < i {
                }
            }
            return false;
        }
        i = i + 1;
    }
    false
}

/// The first position at which `p` occurs in `s`, if any.
pub fn find_exec(s: &Vec<char>, p: &Vec<char>) -> (r: Option<usize>)
    ensures
        r matches Some(i) ==> occurs_at(s@, p@, i as int),
        r is None ==> !contains(s@, p@),
{
    if p.len() > s.len() {
        return None;
    }
    let last = s.len() - p.len();
    let mut i: usize = 0;
    while i <= last
        invariant
            last == s.len() - p.len(),
            p.len() <= s.len(),
            i <= last,
            forall|k: int| 0 <= k < i ==> !occurs_at(s@, p@, k),
        decreases last - i,
    {
        if occurs_at_exec(s, p, i) {
            return Some(i);
        }
        if i == last {
            assert forall|k: int| !occurs_at(s@, p@, k) by {
                if 0 <= k < i {
                }
            }
            return None;
        }
        i = i + 1;
    }
    None
}

/// Whether `s` begins with `p`.
pub fn starts_with_exec(s: &Vec<char>, p: &Vec<char>) -> (r: bool)
    ensures
        r == starts_with(s@, p@),
{
    occurs_at_exec(s, p, 0)
}

/// What `char::is_alphanumeric` returns: Unicode `Alphabetic` or `Numeric`.
pub uninterp spec fn alnum(c: char) -> bool;

/// Relies on `char::is_alphanumeric`, whose answer depends on the character alone.
#[verifier::external_body]
pub(crate) fn is_alnum_char(c: char) -> (r: bool)
    ensures
        r == alnum(c),
{
    c.is_alphanumeric()
}

/// What `str::to_lowercase` returns: the Unicode lowercase mapping of each character.
pub uninterp spec fn lower_of(s: Seq<char>) -> Seq<char>;

/// Relies on `str::to_lowercase`, whose result depends on the characters alone.
#[verifier::external_body]
pub(crate) fn lowercase(s: &str) -> (r: String)
    ensures
        r@ == lower_of(s@),
{
    s.to_lowercase()
}

/// Which characters a trim removes: white space, or else every character that
/// is neither alphanumeric nor listed in `keep`.
pub open spec fn strip_rule(space: bool, keep: Seq<char>) -> spec_fn(char) -> bool {
    |c: char| if space { is_space(c) } else { !alnum(c) && !keep.contains(c) }
}

pub open spec fn trim_start_by(s: Seq<char>, strip: spec_fn(char) -> bool) -> Seq<char>
    decreases s.len(),
{
    if s.len() > 0 && strip(s[0]) {
        trim_start_by(s.drop_first(), strip)
    } else {
        s
    }
}

pub open spec fn trim_end_by(s: Seq<char>, strip: spec_fn(char) -> bool) -> Seq<char>
    decreases s.len(),
{
    if s.len() > 0 && strip(s.last()) {
        trim_end_by(s.drop_last(), strip)
    } else {
        s
    }
}

/// `s` without the characters that `strip` selects at either end.
pub open spec fn trim_by(s: Seq<char>, strip: spec_fn(char) -> bool) -> Seq<char> {
    trim_end_by(trim_start_by(s, strip), strip)
}

/// `s` without white space at either end, as `str::trim` gives it.
pub open spec fn trim(s: Seq<char>) -> Seq<char> {
    trim_by(s, strip_rule(true, Seq::empty()))
}

proof fn lemma_trim_start(s: Seq<char>, strip: spec_fn(char) -> bool, a: int)
    requires
        0 <= a <= s.len(),
        forall|i: int| 0 <= i < a ==> strip(#[trigger] s[i]),
        a == s.len() || !strip(s[a]),
    ensures
        trim_start_by(s, strip) == s.skip(a),
    decreases a,
{
    if a == 0 {
        assert(s.skip(0) =~= s);
    } else {
        let t = s.drop_first();
        assert forall|i: int| 0 <= i < a - 1 implies strip(#[trigger] t[i]) by {
            assert(t[i] == s[i + 1]);
        }
        lemma_trim_start(t, strip, a - 1);
        assert(t.skip(a - 1) =~= s.skip(a));
    }
}

proof fn lemma_trim_end(s: Seq<char>, strip: spec_fn(char) -> bool, b: int)
    requires
        0 <= b <= s.len(),
        forall|i: int| b <= i < s.len() ==> strip(#[trigger] s[i]),
        b == 0 || !strip(s[b - 1]),
    ensures
        trim_end_by(s, strip) == s.take(b),
    decreases s.len() - b,
{
    if b == s.len() {
        assert(s.take(b) =~= s);
    } else {
        let t = s.drop_last();
        assert forall|i: int| b <= i < t.len() implies strip(#[trigger] t[i]) by {
            assert(t[i] == s[i]);
        }
        lemma_trim_end(t, strip, b);
        assert(t.take(b) =~= s.take(b));
    }
}

fn strips(c: char, space: bool, keep: &Vec<char>) -> (r: bool)
    ensures
        r == (strip_rule(space, keep@))(c),
{
    if space {
        return is_space_char(c);
    }
    assert((strip_rule(space, keep@))(c) == (!alnum(c) && !keep@.contains(c)));
    if is_alnum_char(c) {
        return false;
    }
    let mut i: usize = 0;
    while i < keep.len()
        invariant
            i <= keep.len(),
            forall|k: int| 0 <= k < i ==> keep@[k] != c,
            (strip_rule(space, keep@))(c) == (!alnum(c) && !keep@.contains(c)),
        decreases keep.len() - i,
    {
        if keep[i] == c {
            assert(keep@[i as int] == c);
            assert(keep@.contains(c));
            return false;
        }
        i = i + 1;
    }
    true
}

/// The bounds, within `lo..hi`, of what remains of `s[lo..hi]` once trimmed.
pub fn trim_span(s: &Vec<char>, lo: usize, hi: usize, space: bool, keep: &Vec<char>) -> (r: (
    usize,
    usize,
))
    requires
        lo <= hi <= s.len(),
    ensures
        lo <= r.0 <= r.1 <= hi,
        s@.subrange(r.0 as int, r.1 as int) == trim_by(
            s@.subrange(lo as int, hi as int),
            strip_rule(space, keep@),
        ),
{
    let ghost strip = strip_rule(space, keep@);
    let ghost w = s@.subrange(lo as int, hi as int);
    let mut a: usize = lo;
    while a < hi && strips(s[a], space, keep)
        invariant
            lo <= a <= hi <= s.len(),
            forall|i: int| lo <= i < a ==> (strip_rule(space, keep@))(#[trigger] s@[i]),
        decreases hi - a,
    {
        a = a + 1;
    }
    proof {
        assert forall|i: int| 0 <= i < a - lo implies strip(#[trigger] w[i]) by {
            assert(w[i] == s@[lo + i]);
        }
        lemma_trim_start(w, strip, a - lo);
    }
    let ghost u = w.skip(a - lo);
    assert(u =~= s@.subrange(a as int, hi as int));
    let mut b: usize = hi;
    while b > a && strips(s[b - 1], space, keep)
        invariant
            lo <= a <= b <= hi <= s.len(),
            forall|i: int| b <= i < hi ==> (strip_rule(space, keep@))(#[trigger] s@[i]),
        decreases b - a,
    {
        b = b - 1;
    }
    proof {
        assert forall|i: int| b - a <= i < u.len() implies strip(#[trigger] u[i]) by {
            assert(u[i] == s@[a + i]);
        }
        lemma_trim_end(u, strip, b - a);
        assert(u.take(b - a) =~= s@.subrange(a as int, b as int));
    }
    (a, b)
}

/// The number of leading characters of `s` before the first one that `stop` selects.
pub open spec fn run_len(s: Seq<char>, stop: spec_fn(char) -> bool) -> nat
    decreases s.len(),
{
    if s.len() == 0 || stop(s[0]) {
        0
    } else {
        1 + run_len(s.drop_first(), stop)
    }
}

pub open spec fn space_stop() -> spec_fn(char) -> bool {
    |c: char| is_space(c)
}

proof fn lemma_run_len_bound(s: Seq<char>, stop: spec_fn(char) -> bool)
    ensures
        run_len(s, stop) <= s.len(),
    decreases s.len(),
{
    if s.len() > 0 && !stop(s[0]) {
        lemma_run_len_bound(s.drop_first(), stop);
    }
}

#[via_fn]
proof fn words_decreases(s: Seq<char>) {
    lemma_run_len_bound(s, space_stop());
}

/// The white-space separated words of `s`, as `str::split_whitespace` yields them.
pub open spec fn words(s: Seq<char>) -> Seq<Seq<char>>
    decreases s.len() via words_decreases
{
    if s.len() == 0 {
        Seq::empty()
    } else if is_space(s[0]) {
        words(s.drop_first())
    } else {
        let k = run_len(s, space_stop());
        seq![s.take(k as int)] + words(s.skip(k as int))
    }
}

proof fn lemma_run_len(s: Seq<char>, stop: spec_fn(char) -> bool, e: int)
    requires
        0 <= e <= s.len(),
        forall|i: int| 0 <= i < e ==> !stop(#[trigger] s[i]),
        e == s.len() || stop(s[e]),
    ensures
        run_len(s, stop) == e,
    decreases e,
{
    if e > 0 {
        let t = s.drop_first();
        assert forall|i: int| 0 <= i < e - 1 implies !stop(#[trigger] t[i]) by {
            assert(t[i] == s[i + 1]);
        }
        lemma_run_len(t, stop, e - 1);
    }
}

/// The spans of the pieces of `s` that a list of spans stands for.
pub open spec fn span_texts(s: Seq<char>, spans: Seq<(usize, usize)>) -> Seq<Seq<char>> {
    spans.map_values(|p: (usize, usize)| s.subrange(p.0 as int, p.1 as int))
}

pub open spec fn spans_within(s: Seq<char>, spans: Seq<(usize, usize)>) -> bool {
    forall|i: int| 0 <= i < spans.len() ==> #[trigger] spans[i].0 <= spans[i].1 <= s.len()
}

/// Where in `s` each of its words stands.
pub fn word_spans(s: &Vec<char>) -> (r: Vec<(usize, usize)>)
    ensures
        spans_within(s@, r@),
        span_texts(s@, r@) == words(s@),
{
    let mut r: Vec<(usize, usize)> = Vec::new();
    let mut pos: usize = 0;
    assert(s@.skip(0) =~= s@);
    while pos < s.len()
        invariant
            pos <= s.len(),
            spans_within(s@, r@),
            words(s@) == span_texts(s@, r@) + words(s@.skip(pos as int)),
        decreases s.len() - pos,
    {
        let ghost rest = s@.skip(pos as int);
        if is_space_char(s[pos]) {
            assert(rest.drop_first() =~= s@.skip(pos + 1));
            pos = pos + 1;
        } else {
            let mut e: usize = pos + 1;
            while e < s.len() && !is_space_char(s[e])
                invariant
                    pos < e <= s.len(),
                    forall|i: int| pos <= i < e ==> !is_space(#[trigger] s@[i]),
                decreases s.len() - e,
            {
                e = e + 1;
            }
            proof {
                assert forall|i: int| 0 <= i < e - pos implies !(space_stop())(
                    #[trigger] rest[i],
                ) by {
                    assert(rest[i] == s@[pos + i]);
                }
                lemma_run_len(rest, space_stop(), e - pos);
                assert(rest.take(e - pos) =~= s@.subrange(pos as int, e as int));
                assert(rest.skip(e - pos) =~= s@.skip(e as int));
            }
            let ghost before = r@;
            r.push((pos, e));
            assert(span_texts(s@, r@) =~= span_texts(s@, before) + seq![
                s@.subrange(pos as int, e as int),
            ]);
            pos = e;
        }
    }
    assert(s@.skip(pos as int) =~= Seq::<char>::empty());
    assert(span_texts(s@, r@) + Seq::<Seq<char>>::empty() =~= span_texts(s@, r@));
    r
}

pub open spec fn newline_stop() -> spec_fn(char) -> bool {
    |c: char| c == '\n'
}

#[via_fn]
proof fn lines_decreases(s: Seq<char>) {
    lemma_run_len_bound(s, newline_stop());
}

/// `t` without one final carriage return.
pub open spec fn strip_cr(t: Seq<char>) -> Seq<char> {
    if t.len() > 0 && t.last() == '\r' {
        t.drop_last()
    } else {
        t
    }
}

/// The lines of `s`, as `str::lines` yields them: split at each `\n`, a `\r`
/// before it dropped, and no empty line after a final `\n`.
pub open spec fn lines(s: Seq<char>) -> Seq<Seq<char>>
    decreases s.len() via lines_decreases
{
    if s.len() == 0 {
        Seq::empty()
    } else {
        let k = run_len(s, newline_stop());
        if k == s.len() {
            seq![s]
        } else {
            seq![strip_cr(s.take(k as int))] + lines(s.skip((k + 1) as int))
        }
    }
}

/// Where in `s` each of its lines stands.
pub fn line_spans(s: &Vec<char>) -> (r: Vec<(usize, usize)>)
    ensures
        spans_within(s@, r@),
        span_texts(s@, r@) == lines(s@),
{
    let mut r: Vec<(usize, usize)> = Vec::new();
    let mut pos: usize = 0;
    assert(s@.skip(0) =~= s@);
    while pos < s.len()
        invariant
            pos <= s.len(),
            spans_within(s@, r@),
            lines(s@) == span_texts(s@, r@) + lines(s@.skip(pos as int)),
        decreases s.len() - pos,
    {
        let ghost rest = s@.skip(pos as int);
        let mut e: usize = pos;
        while e < s.len() && s[e] != '\n'
            invariant
                pos <= e <= s.len(),
                forall|i: int| pos <= i < e ==> #[trigger] s@[i] != '\n',
            decreases s.len() - e,
        {
            e = e + 1;
        }
        proof {
            assert forall|i: int| 0 <= i < e - pos implies !(newline_stop())(
                #[trigger] rest[i],
            ) by {
                assert(rest[i] == s@[pos + i]);
            }
            lemma_run_len(rest, newline_stop(), e - pos);
        }
        let mut end = e;
        if e < s.len() && e > pos && s[e - 1] == '\r' {
            end = e - 1;
        }
        let ghost before = r@;
        r.push((pos, end));
        assert(r@[r@.len() - 1] == (pos, end));
        assert forall|i: int| 0 <= i < r@.len() implies #[trigger] r@[i].0 <= r@[i].1 <= s@.len() by {
            if i < before.len() {
                assert(r@[i] == before[i]);
            }
        }
        proof {
            if e == s.len() {
                assert(rest =~= s@.subrange(pos as int, end as int));
            } else {
                assert(strip_cr(rest.take(e - pos)) =~= s@.subrange(pos as int, end as int));
                assert(rest.skip(e - pos + 1) =~= s@.skip(e + 1));
            }
            assert(span_texts(s@, r@) =~= span_texts(s@, before) + seq![
                s@.subrange(pos as int, end as int),
            ]);
        }
        if e == s.len() {
            pos = e;
            assert(s@.skip(pos as int) =~= Seq::<char>::empty());
        } else {
            pos = e + 1;
        }
    }
    assert(s@.skip(pos as int) =~= Seq::<char>::empty());
    assert(span_texts(s@, r@) + Seq::<Seq<char>>::empty() =~= span_texts(s@, r@));
    r
}

/// The characters of an optional string.
pub open spec fn opt_view(o: Option<String>) -> Option<Seq<char>> {
    match o {
        Some(s) => Some(s@),
        None => None,
    }
}

/// The character sequences of a list of strings.
pub open spec fn string_views(v: Seq<String>) -> Seq<Seq<char>> {
    v.map_values(|x: String| x@)
}

/// The character sequences of a list of character vectors.
pub open spec fn char_views(v: Seq<Vec<char>>) -> Seq<Seq<char>> {
    v.map_values(|x: Vec<char>| x@)
}

/// The smallest `i` in `start..n` that `pred` selects, or `n` where none is.
pub open spec fn first_from(start: int, n: int, pred: spec_fn(int) -> bool) -> int
    decreases n - start,
{
    if start >= n {
        n
    } else if pred(start) {
        start
    } else {
        first_from(start + 1, n, pred)
    }
}

pub proof fn lemma_first_from_bounds(start: int, n: int, pred: spec_fn(int) -> bool)
    requires
        start <= n,
    ensures
        start <= first_from(start, n, pred) <= n,
        first_from(start, n, pred) < n ==> pred(first_from(start, n, pred)),
        forall|k: int| start <= k < first_from(start, n, pred) ==> !#[trigger] pred(k),
    decreases n - start,
{
    if start < n && !pred(start) {
        lemma_first_from_bounds(start + 1, n, pred);
    }
}

/// The first list entry, by index, that occurs in `hay`; `pats.len()` where none does.
pub open spec fn first_contained(hay: Seq<char>, pats: Seq<Seq<char>>) -> int {
    first_from(0, pats.len() as int, |j: int| contains(hay, pats[j]))
}

/// Whether `hay[a..b]` is one of the entries of `list`.
pub fn span_in_list(s: &Vec<char>, a: usize, b: usize, list: &Vec<Vec<char>>) -> (r: bool)
    requires
        a <= b <= s.len(),
    ensures
        r == char_views(list@).contains(s@.subrange(a as int, b as int)),
{
    let ghost w = s@.subrange(a as int, b as int);
    let mut j: usize = 0;
    while j < list.len()
        invariant
            a <= b <= s.len(),
            w == s@.subrange(a as int, b as int),
            j <= list.len(),
            forall|k: int| 0 <= k < j ==> char_views(list@)[k] != w,
        decreases list.len() - j,
    {
        let p = &list[j];
        if b - a == p.len() && occurs_at_exec(s, p, a) {
            assert(char_views(list@)[j as int] == w);
            return true;
        }
        assert(char_views(list@)[j as int] == p@);
        j = j + 1;
    }
    false
}

/// The first entry of `pats`, by index, that occurs in `hay`.
pub fn first_contained_exec(hay: &Vec<char>, pats: &Vec<Vec<char>>) -> (r: usize)
    ensures
        r == first_contained(hay@, char_views(pats@)),
        r <= pats.len(),
{
    let ghost pv = char_views(pats@);
    let ghost pred = |j: int| contains(hay@, pv[j]);
    let mut j: usize = 0;
    while j < pats.len()
        invariant
            j <= pats.len(),
            pv == char_views(pats@),
            pred == (|j: int| contains(hay@, pv[j])),
            first_from(0, pats.len() as int, pred) == first_from(j as int, pats.len() as int, pred),
        decreases pats.len() - j,
    {
        assert(pv[j as int] == pats@[j as int]@);
        if contains_exec(hay, &pats[j]) {
            return j;
        }
        j = j + 1;
    }
    j
}

/// Whether two texts are the same.
pub fn str_eq(a: &str, b: &str) -> (r: bool)
    ensures
        r == (a@ == b@),
{
    let x = chars_of(a);
    let y = chars_of(b);
    if x.len() != y.len() {
        return false;
    }
    let r = occurs_at_exec(&x, &y, 0);
    assert(x@.subrange(0, y@.len() as int) =~= x@);
    r
}

/// A copy of `s[a..b]`.
pub fn sub_vec(s: &Vec<char>, a: usize, b: usize) -> (r: Vec<char>)
    requires
        a <= b <= s.len(),
    ensures
        r@ == s@.subrange(a as int, b as int),
{
    let mut r: Vec<char> = Vec::new();
    let mut i: usize = a;
    while i < b
        invariant
            a <= i <= b <= s.len(),
            r@ == s@.subrange(a as int, i as int),
        decreases b - i,
    {
        r.push(s[i]);
        i = i + 1;
        assert(r@ =~= s@.subrange(a as int, i as int));
    }
    r
}

/// The lines of `ls` joined with `\n` between them.
pub open spec fn join_lines(ls: Seq<Seq<char>>) -> Seq<char>
    decreases ls.len(),
{
    if ls.len() == 0 {
        Seq::empty()
    } else if ls.len() == 1 {
        ls[0]
    } else {
        join_lines(ls.drop_last()) + "\n"@ + ls.last()
    }
}

/// `a`, then `b`.
pub fn concat2(a: &str, b: &str) -> (r: String)
    ensures
        r@ == a@ + b@,
{
    let mut r = String::from_str(a);
    r.append(b);
    r
}

/// `a`, then `b`, then `c`.
pub fn concat3(a: &str, b: &str, c: &str) -> (r: String)
    ensures
        r@ == a@ + b@ + c@,
{
    let mut r = String::from_str(a);
    r.append(b);
    r.append(c);
    r
}

} // verus!
