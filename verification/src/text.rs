use vstd::prelude::*;
use vstd::string::StrSliceExecFns;

verus! {

/// The escape character that opens an ANSI colour sequence.
pub open spec fn esc() -> char {
    '\x1b'
}

/// One step of the terminal column scanner: `st.0` counts visible columns,
/// `st.1` is true while inside an escape sequence, which an `m` closes.
pub open spec fn step(st: (nat, bool), c: char) -> (nat, bool) {
    if c == esc() {
        (st.0, true)
    } else if st.1 {
        (st.0, c != 'm')
    } else {
        (st.0 + 1, false)
    }
}

/// The scanner state after reading `s` from the state `st`.
pub open spec fn run(st: (nat, bool), s: Seq<char>) -> (nat, bool)
    decreases s.len(),
{
    if s.len() == 0 {
        st
    } else {
        step(run(st, s.drop_last()), s.last())
    }
}

/// The scanner state after reading `s` from the start of a line.
pub open spec fn scan(s: Seq<char>) -> (nat, bool) {
    run((0, false), s)
}

/// The number of terminal columns that `s` occupies: every character
/// outside an escape sequence counts as one column.
pub open spec fn width(s: Seq<char>) -> nat {
    scan(s).0
}

/// `s` does not end inside an unterminated escape sequence.
pub open spec fn closed(s: Seq<char>) -> bool {
    !scan(s).1
}

/// `s` is made only of complete escape sequences: it takes no column and
/// leaves the scanner outside any escape.
pub open spec fn invisible(s: Seq<char>) -> bool {
    scan(s) == (0nat, false)
}

/// `s` holds no escape character at all.
pub open spec fn no_esc(s: Seq<char>) -> bool {
    forall|i: int| 0 <= i < s.len() ==> s[i] != esc()
}

/// `s` holds no line break.
pub open spec fn no_newline(s: Seq<char>) -> bool {
    forall|i: int| 0 <= i < s.len() ==> s[i] != '\n'
}

/// `n` copies of `c`.
pub open spec fn repeat(c: char, n: nat) -> Seq<char> {
    Seq::new(n, |_i: int| c)
}

/// The longest prefix of `s` whose visible width is at most `max`.
pub open spec fn truncated(s: Seq<char>, max: nat) -> Seq<char>
    decreases s.len(),
{
    if width(s) <= max || s.len() == 0 {
        s
    } else {
        truncated(s.drop_last(), max)
    }
}

/// `s` followed by as many spaces as it takes to reach `target` columns.
pub open spec fn padded(s: Seq<char>, target: nat) -> Seq<char> {
    if target > width(s) {
        s + repeat(' ', (target - width(s)) as nat)
    } else {
        s
    }
}

// ---------------------------------------------------------------------------
// Lemmas on the scanner
// ---------------------------------------------------------------------------

/// Scanning a concatenation is scanning its parts in turn.
pub proof fn lemma_run_concat(st: (nat, bool), a: Seq<char>, b: Seq<char>)
    ensures
        run(st, a + b) == run(run(st, a), b),
    decreases b.len(),
{
    if b.len() == 0 {
        assert(a + b =~= a);
    } else {
        assert((a + b).drop_last() =~= a + b.drop_last());
        assert((a + b).last() == b.last());
        lemma_run_concat(st, a, b.drop_last());
    }
}

/// The column count of a scan started at `w` columns is `w` plus the count
/// of the same scan started at zero.
pub proof fn lemma_run_shift(w: nat, e: bool, s: Seq<char>)
    ensures
        run((w, e), s).0 == w + run((0, e), s).0,
        run((w, e), s).1 == run((0, e), s).1,
    decreases s.len(),
{
    if s.len() > 0 {
        lemma_run_shift(w, e, s.drop_last());
    }
}

/// Widths add up across a part that ends outside any escape sequence.
pub proof fn lemma_concat(a: Seq<char>, b: Seq<char>)
    requires
        closed(a),
    ensures
        width(a + b) == width(a) + width(b),
        closed(a + b) == closed(b),
{
    lemma_run_concat((0, false), a, b);
    lemma_run_shift(width(a), false, b);
}

/// Text without escape characters is as wide as it is long.
pub proof fn lemma_no_esc(s: Seq<char>)
    requires
        no_esc(s),
    ensures
        scan(s) == (s.len(), false),
    decreases s.len(),
{
    if s.len() > 0 {
        assert(no_esc(s.drop_last()));
        lemma_no_esc(s.drop_last());
        assert(s.last() == s[s.len() - 1]);
    }
}


/// Repeated plain characters are as wide as their count.
pub proof fn lemma_repeat(c: char, n: nat)
    requires
        c != esc(),
    ensures
        scan(repeat(c, n)) == (n, false),
        no_esc(repeat(c, n)),
        c != '\n' ==> no_newline(repeat(c, n)),
{
    lemma_no_esc(repeat(c, n));
}

/// Reading one more character never lowers the column count, and raises it
/// by at most one.
pub proof fn lemma_width_step(s: Seq<char>, i: int)
    requires
        0 <= i < s.len(),
    ensures
        width(s.take(i)) <= width(s.take(i + 1)) <= width(s.take(i)) + 1,
        scan(s.take(i + 1)) == step(scan(s.take(i)), s[i]),
{
    assert(s.take(i + 1).drop_last() =~= s.take(i));
}

/// The column count of prefixes grows with the prefix.
pub proof fn lemma_width_monotone(s: Seq<char>, i: int, j: int)
    requires
        0 <= i <= j <= s.len(),
    ensures
        width(s.take(i)) <= width(s.take(j)),
    decreases j - i,
{
    if i < j {
        lemma_width_step(s, j - 1);
        lemma_width_monotone(s, i, j - 1);
    }
}


/// The truncation of a prefix `s.take(j)` whose width is above `max`, when
/// `s.take(k)` is the last prefix at width `max`, is `s.take(k)`.
proof fn lemma_truncated_at(s: Seq<char>, max: nat, k: int, j: int)
    requires
        0 <= k < j <= s.len(),
        width(s.take(k)) == max,
        width(s.take(k + 1)) == max + 1,
    ensures
        truncated(s.take(j), max) == s.take(k),
    decreases j - k,
{
    lemma_width_monotone(s, k + 1, j);
    assert(s.take(j).drop_last() =~= s.take(j - 1));
    if j == k + 1 {
        assert(s.take(k).len() == k);
        assert(truncated(s.take(k), max) == s.take(k));
    } else {
        lemma_truncated_at(s, max, k, j - 1);
    }
}

/// The truncation is a prefix, at most `max` columns wide, exactly `max`
/// when `s` is wider, and ends outside an escape when `s` is wider.
pub proof fn lemma_truncated(s: Seq<char>, max: nat)
    ensures
        truncated(s, max).len() <= s.len(),
        truncated(s, max) == s.take(truncated(s, max).len() as int),
        width(truncated(s, max)) == if width(s) <= max { width(s) } else { max },
        width(s) > max ==> closed(truncated(s, max)),
        width(s) <= max ==> truncated(s, max) == s,
    decreases s.len(),
{
    if width(s) <= max || s.len() == 0 {
        assert(s.take(s.len() as int) =~= s);
    } else {
        let t = s.drop_last();
        lemma_truncated(t, max);
        assert(t =~= s.take(s.len() - 1));
        lemma_width_step(s, s.len() - 1);
        let tt = truncated(t, max);
        assert(tt == t.take(tt.len() as int));
        assert(tt =~= s.take(tt.len() as int));
        if width(t) <= max {
            // the last character is the one that crosses the limit
            assert(width(t) == max);
            assert(s.take(s.len() as int) =~= s);
            assert(step(scan(t), s[s.len() - 1]).0 == max + 1);
        }
    }
}


/// A complete escape sequence: the escape character, then characters other
/// than `m`, then the closing `m`.
pub open spec fn is_escape_seq(s: Seq<char>) -> bool {
    &&& s.len() >= 2
    &&& s[0] == esc()
    &&& s[s.len() - 1] == 'm'
    &&& forall|i: int| 1 <= i < s.len() - 1 ==> s[i] != 'm'
}

proof fn lemma_escape_prefix(s: Seq<char>, k: int)
    requires
        is_escape_seq(s),
        1 <= k <= s.len() - 1,
    ensures
        scan(s.take(k)) == (0nat, true),
    decreases k,
{
    if k == 1 {
        assert(s.take(1).drop_last() =~= Seq::<char>::empty());
        assert(run((0, false), Seq::<char>::empty()) == (0nat, false));
        assert(s.take(1).last() == esc());
    } else {
        lemma_escape_prefix(s, k - 1);
        lemma_width_step(s, k - 1);
    }
}

/// A complete escape sequence takes no column and closes itself.
pub proof fn lemma_escape_seq(s: Seq<char>)
    requires
        is_escape_seq(s),
    ensures
        invisible(s),
{
    lemma_escape_prefix(s, s.len() - 1);
    lemma_width_step(s, s.len() - 1);
    assert(s.take(s.len() as int) =~= s);
}

/// A single character other than the escape character is one column wide.
pub proof fn lemma_single(c: char)
    requires
        c != esc(),
    ensures
        scan(seq![c]) == (1nat, false),
{
    assert(seq![c].drop_last() =~= Seq::<char>::empty());
    assert(run((0, false), Seq::<char>::empty()) == (0nat, false));
}

/// Text that ends outside any escape sequence and breaks no line: it can be
/// placed in a row without disturbing the columns after it.
pub open spec fn ok_text(s: Seq<char>) -> bool {
    closed(s) && no_newline(s)
}

/// Text without escape characters or line breaks.
pub open spec fn plain(s: Seq<char>) -> bool {
    no_esc(s) && no_newline(s)
}

/// Concatenating well-placed texts gives a well-placed text.
pub broadcast proof fn lemma_ok_concat(a: Seq<char>, b: Seq<char>)
    requires
        ok_text(a),
        ok_text(b),
    ensures
        #[trigger] ok_text(a + b),
{
    lemma_concat(a, b);
    assert forall|i: int| 0 <= i < (a + b).len() implies (a + b)[i] != '\n' by {
        if i < a.len() {
            assert((a + b)[i] == a[i]);
        } else {
            assert((a + b)[i] == b[i - a.len()]);
        }
    }
}

/// Plain text is well placed.
pub broadcast proof fn lemma_plain_ok(s: Seq<char>)
    requires
        plain(s),
    ensures
        #[trigger] ok_text(s),
{
    lemma_no_esc(s);
}

// ---------------------------------------------------------------------------
// Executable helpers
// ---------------------------------------------------------------------------

/// Appends one character to a string (std's `String::push`).
#[verifier::external_body]
pub(crate) fn push_char(s: &mut String, c: char)
    ensures
        final(s)@ == old(s)@.push(c),
{
    s.push(c)
}

/// Appends a string slice to a string.
pub fn push_str(s: &mut String, t: &str)
    ensures
        final(s)@ == old(s)@ + t@,
{
    s.append(t);
}

/// A new string holding `t`.
pub fn owned(t: &str) -> (r: String)
    ensures
        r@ == t@,
{
    String::from_str(t)
}

/// `n` copies of `c` as a string.
pub fn repeat_char(c: char, n: usize) -> (r: String)
    ensures
        r@ == repeat(c, n as nat),
{
    let mut out = String::new();
    let mut i: usize = 0;
    while i < n
        invariant
            i <= n,
            out@ == repeat(c, i as nat),
        decreases n - i,
    {
        push_char(&mut out, c);
        i = i + 1;
        assert(out@ =~= repeat(c, i as nat));
    }
    out
}

/// Counts the terminal columns of `s`, skipping ANSI escape sequences.
pub fn visible_width(s: &str) -> (w: usize)
    ensures
        w == width(s@),
{
    let n = s.unicode_len();
    let mut in_escape = false;
    let mut w: usize = 0;
    let ghost mut i: int = 0;
    for c in it: s.chars()
        invariant
            n == s@.len(),
            it.seq() == s@,
            i == it.index(),
            0 <= i <= s@.len(),
            (w as nat, in_escape) == scan(s@.take(i)),
            w <= i,
    {
        proof {
            lemma_width_step(s@, i);
        }
        if c == '\x1b' {
            in_escape = true;
        } else if in_escape {
            if c == 'm' {
                in_escape = false;
            }
        } else {
            w = w + 1;
        }
        proof {
            i = i + 1;
        }
    }
    assert(s@.take(s@.len() as int) =~= s@);
    w
}

/// `sub` occurs in `s`, somewhere between a prefix and a suffix.
pub open spec fn contains_seq(s: Seq<char>, sub: Seq<char>) -> bool {
    exists|a: Seq<char>, b: Seq<char>| s == a + sub + b
}

/// Tells whether `s` is plain text: no escape character, no line break.
pub fn is_plain(s: &str) -> (r: bool)
    ensures
        r == plain(s@),
{
    let v = crate::env::chars_of(s);
    let mut i: usize = 0;
    while i < v.len()
        invariant
            v@ == s@,
            i <= v@.len(),
            forall|k: int| 0 <= k < i ==> s@[k] != esc() && s@[k] != '\n',
        decreases v@.len() - i,
    {
        if v[i] == '\x1b' || v[i] == '\n' {
            assert(s@[i as int] == v@[i as int]);
            return false;
        }
        i = i + 1;
    }
    true
}

/// Pads `s` with spaces on the right up to `target_width` visible columns;
/// text already that wide is returned unchanged.
pub fn pad_to_visible(s: &str, target_width: usize) -> (r: String)
    ensures
        r@ == padded(s@, target_width as nat),
{
    let vis = visible_width(s);
    if target_width > vis {
        let mut out = owned(s);
        let pad = repeat_char(' ', target_width - vis);
        push_str(&mut out, pad.as_str());
        out
    } else {
        owned(s)
    }
}

/// Hard-truncates `s` to `max` visible columns: the longest prefix of `s`
/// that is at most `max` columns wide, escape sequences passed through.
pub fn truncate_visible(s: &str, max: usize) -> (r: String)
    ensures
        r@ == truncated(s@, max as nat),
{
    let n = s.unicode_len();
    let mut out = String::new();
    let mut in_escape = false;
    let mut vis: usize = 0;
    assert(s@.take(s@.len() as int) =~= s@);
    for c in it: s.chars()
        invariant_except_break
            (vis as nat, in_escape) == scan(s@.take(it.index())),
            out@ == s@.take(it.index()),
            vis <= max,
        invariant
            n == s@.len(),
            it.seq() == s@,
            0 <= it.index() <= s@.len(),
            s@.take(s@.len() as int) == s@,
        ensures
            out@ == truncated(s@, max as nat),
    {
        let ghost i = it.index();
        proof {
            lemma_width_step(s@, i);
        }
        if c == '\x1b' {
            push_char(&mut out, c);
            in_escape = true;
        } else if in_escape {
            push_char(&mut out, c);
            if c == 'm' {
                in_escape = false;
            }
        } else if vis >= max {
            proof {
                lemma_truncated_at(s@, max as nat, i, s@.len() as int);
                assert(s@.take(s@.len() as int) =~= s@);
            }
            break;
        } else {
            push_char(&mut out, c);
            vis = vis + 1;
        }
        assert(out@ =~= s@.take(i + 1));
    }
    out
}


// ---------------------------------------------------------------------------
// Splitting at a separator
// ---------------------------------------------------------------------------

/// `pat` occurs in `s` at position `i`.
pub open spec fn occurs_at(s: Seq<char>, pat: Seq<char>, i: int) -> bool {
    0 <= i && i + pat.len() <= s.len() && s.subrange(i, i + pat.len() as int) == pat
}

/// The first position at or after `from` where `pat` occurs in `s`.
pub open spec fn first_occurrence(s: Seq<char>, pat: Seq<char>, from: int) -> Option<int>
    decreases s.len() + 1 - from,
{
    if from < 0 || from + pat.len() > s.len() {
        None
    } else if occurs_at(s, pat, from) {
        Some(from)
    } else {
        first_occurrence(s, pat, from + 1)
    }
}

/// `s` split around the first occurrence of `pat`, as `str::split_once`
/// does.
pub open spec fn split_once_spec(s: Seq<char>, pat: Seq<char>) -> Option<(Seq<char>, Seq<char>)> {
    match first_occurrence(s, pat, 0) {
        Some(i) => Some((s.take(i), s.skip(i + pat.len() as int))),
        None => None,
    }
}

/// Splits `s` around the first occurrence of `pat`.
pub fn split_once(s: &str, pat: &str) -> (r: Option<(String, String)>)
    ensures
        match split_once_spec(s@, pat@) {
            Some((a, b)) => r matches Some((x, y)) && x@ == a && y@ == b,
            None => r is None,
        },
{
    let sv = crate::env::chars_of(s);
    let pv = crate::env::chars_of(pat);
    let slen = sv.len();
    let plen = pv.len();
    if plen > slen {
        return None;
    }
    if plen == 0 {
        assert(occurs_at(s@, pat@, 0)) by {
            assert(s@.subrange(0, 0) =~= pat@);
        }
        assert(s@.take(0) =~= Seq::<char>::empty());
        assert(s@.skip(0) =~= s@);
        return Some((String::new(), owned(s)));
    }
    let mut i: usize = 0;
    while i <= slen - plen
        invariant
            sv@ == s@,
            pv@ == pat@,
            slen == s@.len(),
            plen == pat@.len(),
            1 <= plen <= slen,
            i <= slen - plen + 1,
            first_occurrence(s@, pat@, 0) == first_occurrence(s@, pat@, i as int),
        decreases slen + 1 - i,
    {
        let mut j: usize = 0;
        let mut matched = true;
        while matched && j < plen
            invariant
                sv@ == s@,
                pv@ == pat@,
                plen == pat@.len(),
                i + plen <= slen,
                slen == s@.len(),
                j <= plen,
                matched ==> forall|k: int| 0 <= k < j ==> sv@[i + k] == pv@[k],
                !matched ==> !occurs_at(s@, pat@, i as int),
            decreases plen - j + (if matched { 1int } else { 0int }),
        {
            if sv[i + j] != pv[j] {
                matched = false;
                proof {
                    assert(s@.subrange(i as int, i + plen as int)[j as int] != pat@[j as int]);
                }
            } else {
                j = j + 1;
            }
        }
        if matched {
            assert(s@.subrange(i as int, i + plen as int) =~= pat@);
            assert(occurs_at(s@, pat@, i as int));
            let mut a = String::new();
            let mut k: usize = 0;
            while k < i
                invariant
                    sv@ == s@,
                    k <= i,
                    i <= sv@.len(),
                    a@ == s@.take(k as int),
                decreases i - k,
            {
                push_char(&mut a, sv[k]);
                k = k + 1;
                assert(a@ =~= s@.take(k as int));
            }
            let mut b = String::new();
            let mut k: usize = i + plen;
            while k < slen
                invariant
                    sv@ == s@,
                    slen == s@.len(),
                    i + plen <= k <= slen,
                    b@ == s@.subrange(i + plen as int, k as int),
                decreases slen - k,
            {
                push_char(&mut b, sv[k]);
                k = k + 1;
                assert(b@ =~= s@.subrange(i + plen as int, k as int));
            }
            assert(b@ =~= s@.skip(i + plen as int));
            return Some((a, b));
        }
        i = i + 1;
    }
    None
}


// ---------------------------------------------------------------------------
// Whitespace
// ---------------------------------------------------------------------------

/// The Unicode `White_Space` property, which `char::is_whitespace` and
/// `str::trim` follow.
pub open spec fn is_white_space(c: char) -> bool {
    ||| ('\u{9}' <= c && c <= '\u{d}')
    ||| c == ' '
    ||| c == '\u{85}'
    ||| c == '\u{a0}'
    ||| c == '\u{1680}'
    ||| ('\u{2000}' <= c && c <= '\u{200a}')
    ||| c == '\u{2028}'
    ||| c == '\u{2029}'
    ||| c == '\u{202f}'
    ||| c == '\u{205f}'
    ||| c == '\u{3000}'
}

/// Whether `c` is Unicode white space.
pub fn is_white_space_char(c: char) -> (r: bool)
    ensures
        r == is_white_space(c),
{
    ('\u{9}' <= c && c <= '\u{d}') || c == ' ' || c == '\u{85}' || c == '\u{a0}' || c
        == '\u{1680}' || ('\u{2000}' <= c && c <= '\u{200a}') || c == '\u{2028}' || c
        == '\u{2029}' || c == '\u{202f}' || c == '\u{205f}' || c == '\u{3000}'
}

/// `s` without its leading white space.
pub open spec fn trim_start(s: Seq<char>) -> Seq<char>
    decreases s.len(),
{
    if s.len() > 0 && is_white_space(s[0]) {
        trim_start(s.drop_first())
    } else {
        s
    }
}

/// `s` without its trailing white space.
pub open spec fn trim_end(s: Seq<char>) -> Seq<char>
    decreases s.len(),
{
    if s.len() > 0 && is_white_space(s.last()) {
        trim_end(s.drop_last())
    } else {
        s
    }
}

/// `s` without leading and trailing white space, as `str::trim` returns it.
pub open spec fn trimmed(s: Seq<char>) -> Seq<char> {
    trim_end(trim_start(s))
}

proof fn lemma_trim_start_skip(s: Seq<char>, i: int)
    requires
        0 <= i <= s.len(),
        forall|k: int| 0 <= k < i ==> is_white_space(#[trigger] s[k]),
    ensures
        trim_start(s) == trim_start(s.skip(i)),
    decreases i,
{
    if i > 0 {
        assert(s.skip(1) =~= s.drop_first());
        lemma_trim_start_skip(s.drop_first(), i - 1);
        assert(s.drop_first().skip(i - 1) =~= s.skip(i));
    } else {
        assert(s.skip(0) =~= s);
    }
}

proof fn lemma_trim_end_take(s: Seq<char>, j: int)
    requires
        0 <= j <= s.len(),
        forall|k: int| j <= k < s.len() ==> is_white_space(#[trigger] s[k]),
    ensures
        trim_end(s) == trim_end(s.take(j)),
    decreases s.len() - j,
{
    if j < s.len() {
        assert(s.last() == s[s.len() - 1]);
        lemma_trim_end_take(s.drop_last(), j);
        assert(s.drop_last().take(j) =~= s.take(j));
    } else {
        assert(s.take(j) =~= s);
    }
}

/// Removes leading and trailing white space.
pub fn trim(s: &str) -> (r: String)
    ensures
        r@ == trimmed(s@),
{
    let v = crate::env::chars_of(s);
    let mut i: usize = 0;
    while i < v.len() && is_white_space_char(v[i])
        invariant
            v@ == s@,
            i <= v@.len(),
            forall|k: int| 0 <= k < i ==> is_white_space(#[trigger] v@[k]),
        decreases v@.len() - i,
    {
        i = i + 1;
    }
    proof {
        lemma_trim_start_skip(s@, i as int);
    }
    let ghost t = s@.skip(i as int);
    assert(trim_start(s@) == trim_start(t));
    assert(i < v@.len() ==> !is_white_space(t[0]));
    assert(trim_start(t) == t);
    let mut j: usize = v.len();
    while j > i && is_white_space_char(v[j - 1])
        invariant
            v@ == s@,
            i <= j <= v@.len(),
            t == s@.skip(i as int),
            forall|k: int| j - i <= k < t.len() ==> is_white_space(#[trigger] t[k]),
        decreases j,
    {
        assert(t[j - 1 - i] == v@[j - 1]);
        j = j - 1;
    }
    proof {
        lemma_trim_end_take(t, (j - i) as int);
        if j > i {
            assert(t.take((j - i) as int).last() == v@[j - 1]);
        }
    }
    let mut out = String::new();
    let mut k = i;
    while k < j
        invariant
            v@ == s@,
            i <= k <= j <= v@.len(),
            out@ == s@.subrange(i as int, k as int),
        decreases j - k,
    {
        push_char(&mut out, v[k]);
        k = k + 1;
        assert(out@ =~= s@.subrange(i as int, k as int));
    }
    assert(out@ =~= t.take((j - i) as int));
    out
}

/// Whether `pat` occurs in `s` (`str::contains`).
pub fn contains_text(s: &str, pat: &str) -> (r: bool)
    ensures
        r == (first_occurrence(s@, pat@, 0) is Some),
{
    match split_once(s, pat) {
        Some(_) => true,
        None => false,
    }
}

// ---------------------------------------------------------------------------
// Decimal numbers and case folding
// ---------------------------------------------------------------------------

/// The decimal digit character for `d < 10`.
pub open spec fn digit(d: nat) -> char {
    if d == 0 {
        '0'
    } else if d == 1 {
        '1'
    } else if d == 2 {
        '2'
    } else if d == 3 {
        '3'
    } else if d == 4 {
        '4'
    } else if d == 5 {
        '5'
    } else if d == 6 {
        '6'
    } else if d == 7 {
        '7'
    } else if d == 8 {
        '8'
    } else {
        '9'
    }
}

/// The decimal representation of `n`, without leading zeros.
pub open spec fn decimal(n: nat) -> Seq<char>
    decreases n,
{
    if n < 10 {
        seq![digit(n)]
    } else {
        decimal(n / 10).push(digit(n % 10))
    }
}

/// Decimal numbers are plain text: digits only, so no escapes and no line
/// breaks.
pub proof fn lemma_decimal_plain(n: nat)
    ensures
        no_esc(decimal(n)),
        no_newline(decimal(n)),
        forall|i: int| 0 <= i < decimal(n).len() ==> '0' <= #[trigger] decimal(n)[i] <= '9',
        decimal(n).len() >= 1,
    decreases n,
{
    if n >= 10 {
        lemma_decimal_plain(n / 10);
    }
}

/// A number below 10^k has at most k digits.
pub proof fn lemma_decimal_len(n: nat, k: nat)
    requires
        k >= 1,
        n < pow10(k),
    ensures
        decimal(n).len() <= k,
    decreases k,
{
    assert(pow10(0) == 1);
    if n >= 10 {
        assert(k > 1);
        assert(n / 10 < pow10((k - 1) as nat));
        lemma_decimal_len(n / 10, (k - 1) as nat);
    }
}

/// Ten to the power `k`.
pub open spec fn pow10(k: nat) -> nat
    decreases k,
{
    if k == 0 {
        1
    } else {
        10 * pow10((k - 1) as nat)
    }
}

fn digit_char(d: u64) -> (c: char)
    requires
        d < 10,
    ensures
        c == digit(d as nat),
{
    if d == 0 {
        '0'
    } else if d == 1 {
        '1'
    } else if d == 2 {
        '2'
    } else if d == 3 {
        '3'
    } else if d == 4 {
        '4'
    } else if d == 5 {
        '5'
    } else if d == 6 {
        '6'
    } else if d == 7 {
        '7'
    } else if d == 8 {
        '8'
    } else {
        '9'
    }
}

/// Appends the decimal representation of `n` to `out`.
pub fn push_decimal(out: &mut String, n: u64)
    ensures
        final(out)@ == old(out)@ + decimal(n as nat),
    decreases n,
{
    if n >= 10 {
        push_decimal(out, n / 10);
    }
    push_char(out, digit_char(n % 10));
    proof {
        if n >= 10 {
            assert(old(out)@ + decimal(n as nat) =~= old(out)@ + decimal((n / 10) as nat) + seq![digit((n % 10) as nat)]);
        } else {
            assert(old(out)@ + decimal(n as nat) =~= old(out)@.push(digit(n as nat)));
        }
    }
}

/// The decimal representation of `n` as a string.
pub fn decimal_string(n: u64) -> (r: String)
    ensures
        r@ == decimal(n as nat),
{
    let mut out = String::new();
    push_decimal(&mut out, n);
    assert(out@ =~= decimal(n as nat));
    out
}

/// The Unicode lowercase mapping of a text, as `str::to_lowercase` computes
/// it.
pub uninterp spec fn lowercase(s: Seq<char>) -> Seq<char>;

/// Calls std's `str::to_lowercase`. The contract only names the result:
/// it is the lowercase mapping of the argument, a function of it alone;
/// the Unicode case tables that define it are not restated here.
#[verifier::external_body]
pub(crate) fn to_lowercase(s: &str) -> (r: String)
    ensures
        r@ == lowercase(s@),
{
    s.to_lowercase()
}

} // verus!
