use vstd::prelude::*;
use vstd::string::StrSliceExecFns;

use crate::text::{
    closed, esc, lemma_concat, lemma_no_esc, lemma_ok_concat, lemma_plain_ok, lemma_repeat,
    lemma_single, lemma_truncated, no_newline, ok_text, owned, plain, push_char, push_str, repeat,
    repeat_char, scan, truncate_visible, truncated, visible_width, width,
};
use crate::theme::{is_code, lemma_code_ok, palette_ok, Palette};

verus! {


/// The text of a sequence of lines, each ended by a line break.
pub open spec fn lines_text(lines: Seq<Seq<char>>) -> Seq<char>
    decreases lines.len(),
{
    if lines.len() == 0 {
        Seq::empty()
    } else {
        lines_text(lines.drop_last()) + lines.last() + seq!['\n']
    }
}

/// Appending one more line.
pub proof fn lemma_lines_push(lines: Seq<Seq<char>>, l: Seq<char>)
    ensures
        lines_text(lines.push(l)) == lines_text(lines) + l + seq!['\n'],
{
    assert(lines.push(l).drop_last() =~= lines);
}

/// The text of two runs of lines is the text of the first, then of the
/// second.
pub proof fn lemma_lines_concat(a: Seq<Seq<char>>, b: Seq<Seq<char>>)
    ensures
        lines_text(a + b) == lines_text(a) + lines_text(b),
    decreases b.len(),
{
    if b.len() == 0 {
        assert(a + b =~= a);
        assert(lines_text(b) == Seq::<char>::empty());
        assert(lines_text(a) + lines_text(b) =~= lines_text(a));
    } else {
        lemma_lines_concat(a, b.drop_last());
        assert((a + b).drop_last() =~= a + b.drop_last());
        assert((a + b).last() == b.last());
        assert(lines_text(a + b) =~= lines_text(a) + lines_text(b));
    }
}

/// Every line is exactly `w` columns wide and holds no line break.
pub open spec fn frame_lines(lines: Seq<Seq<char>>, w: nat) -> bool {
    forall|i: int| 0 <= i < lines.len() ==> width(#[trigger] lines[i]) == w && no_newline(lines[i])
}

/// Two runs of framed lines make a run of framed lines.
pub proof fn lemma_frame_concat(a: Seq<Seq<char>>, b: Seq<Seq<char>>, w: nat)
    requires
        frame_lines(a, w),
        frame_lines(b, w),
    ensures
        frame_lines(a + b, w),
{
    assert forall|i: int| 0 <= i < (a + b).len() implies width(#[trigger] (a + b)[i]) == w && no_newline((a + b)[i]) by {
        if i < a.len() {
            assert((a + b)[i] == a[i]);
        } else {
            assert((a + b)[i] == b[i - a.len()]);
        }
    }
}

/// Appends a line and its line break.
pub fn push_line(out: &mut String, line: &str)
    ensures
        final(out)@ == old(out)@ + line@ + seq!['\n'],
{
    push_str(out, line);
    push_char(out, '\n');
}

/// The body of a horizontal border: a corner, a dash run and a corner, with
/// an optional title `(text, colour)` set into the dash run.
pub open spec fn border_body(
    p: &Palette,
    total_width: nat,
    left: char,
    right: char,
    title: Option<(Seq<char>, Seq<char>)>,
) -> Seq<char> {
    match title {
        None => p.border@ + seq![left] + repeat('─', (if total_width >= 2 { total_width - 2 } else { 0 }) as nat) + seq![right] + p.reset@,
        Some((text, color)) => {
            let dashes = (if total_width >= 5 + text.len() { total_width - 5 - text.len() } else { 0 }) as nat;
            p.border@ + seq![left, '─'] + p.reset@ + seq![' '] + p.bold@ + color + text + p.reset@
                + seq![' '] + p.border@ + repeat('─', dashes) + seq![right] + p.reset@
        },
    }
}

/// A horizontal border line of the card, ended by a line break.
pub fn border_line(
    p: &Palette,
    total_width: usize,
    left: char,
    right: char,
    title: Option<(&str, &str)>,
) -> (r: String)
    ensures
        r@ == border_body(
            p,
            total_width as nat,
            left,
            right,
            match title {
                Some((t, c)) => Some((t@, c@)),
                None => None,
            },
        ).push('\n'),
{
    match title {
        None => {
            let mut out = owned(p.border.as_str());
            push_char(&mut out, left);
            let n = if total_width >= 2 {
                total_width - 2
            } else {
                0
            };
            let dashes = repeat_char('─', n);
            push_str(&mut out, dashes.as_str());
            push_char(&mut out, right);
            push_str(&mut out, p.reset.as_str());
            push_char(&mut out, '\n');
            assert(out@ =~= border_body(p, total_width as nat, left, right, None).push('\n'));
            out
        },
        Some((text, color)) => {
            let len = text.unicode_len();
            let n = if len <= total_width && total_width - len >= 5 {
                total_width - 5 - len
            } else {
                0
            };
            let mut out = owned(p.border.as_str());
            push_char(&mut out, left);
            push_char(&mut out, '─');
            push_str(&mut out, p.reset.as_str());
            push_char(&mut out, ' ');
            push_str(&mut out, p.bold.as_str());
            push_str(&mut out, color);
            push_str(&mut out, text);
            push_str(&mut out, p.reset.as_str());
            push_char(&mut out, ' ');
            push_str(&mut out, p.border.as_str());
            let dashes = repeat_char('─', n);
            push_str(&mut out, dashes.as_str());
            push_char(&mut out, right);
            push_str(&mut out, p.reset.as_str());
            push_char(&mut out, '\n');
            assert(out@ =~= border_body(
                p,
                total_width as nat,
                left,
                right,
                Some((text@, color@)),
            ).push('\n'));
            out
        },
    }
}

/// The body of a framed section divider: `├─[ icon title ]──…──┤`.
pub open spec fn divider_body(
    p: &Palette,
    total_width: nat,
    icon: Seq<char>,
    text: Seq<char>,
    color: Seq<char>,
) -> Seq<char> {
    let dashes = (if total_width >= 9 + text.len() { total_width - 9 - text.len() } else { 0 }) as nat;
    p.border@ + seq!['├', '─'] + color + seq!['[', ' '] + icon + seq![' '] + text + seq![' ', ']']
        + p.reset@ + p.border@ + repeat('─', dashes) + seq!['┤'] + p.reset@
}

/// A section divider line of the card, ended by a line break. The icon is
/// frame chrome and takes one column.
pub fn section_divider(p: &Palette, total_width: usize, icon: &str, text: &str, color: &str) -> (r: String)
    ensures
        r@ == divider_body(p, total_width as nat, icon@, text@, color@).push('\n'),
{
    let len = text.unicode_len();
    let n = if len <= total_width && total_width - len >= 9 {
        total_width - 9 - len
    } else {
        0
    };
    let mut out = owned(p.border.as_str());
    push_char(&mut out, '├');
    push_char(&mut out, '─');
    push_str(&mut out, color);
    push_char(&mut out, '[');
    push_char(&mut out, ' ');
    push_str(&mut out, icon);
    push_char(&mut out, ' ');
    push_str(&mut out, text);
    push_char(&mut out, ' ');
    push_char(&mut out, ']');
    push_str(&mut out, p.reset.as_str());
    push_str(&mut out, p.border.as_str());
    let dashes = repeat_char('─', n);
    push_str(&mut out, dashes.as_str());
    push_char(&mut out, '┤');
    push_str(&mut out, p.reset.as_str());
    push_char(&mut out, '\n');
    assert(out@ =~= divider_body(p, total_width as nat, icon@, text@, color@).push('\n'));
    out
}

/// A framed content row: `│ ` + the content cut to `inner` columns and
/// padded to them + ` │`.
pub open spec fn framed_row(p: &Palette, inner: nat, content: Seq<char>) -> Seq<char> {
    let cut = truncated(content, inner);
    let pad = (if inner >= width(cut) { inner - width(cut) } else { 0 }) as nat;
    p.border@ + seq!['│'] + p.reset@ + seq![' '] + cut + repeat(' ', pad) + seq![' '] + p.border@
        + seq!['│'] + p.reset@
}

/// The left edge of a framed row, before its content.
pub open spec fn row_left(p: &Palette) -> Seq<char> {
    p.border@ + seq!['│'] + p.reset@ + seq![' ']
}

/// The right edge of a framed row, after its content and padding.
pub open spec fn row_right(p: &Palette) -> Seq<char> {
    seq![' '] + p.border@ + seq!['│'] + p.reset@
}

/// A row whose content fits the frame shows the content whole, then the
/// padding.
pub proof fn lemma_framed_fit(p: &Palette, inner: nat, content: Seq<char>)
    requires
        width(content) <= inner,
    ensures
        framed_row(p, inner, content) == row_left(p) + content + repeat(' ', (inner - width(content)) as nat)
            + row_right(p),
{
    lemma_truncated(content, inner);
    assert(framed_row(p, inner, content) =~= row_left(p) + content + repeat(' ', (inner - width(content)) as nat)
        + row_right(p));
}

/// A leading part of the content narrower than the frame survives the cut:
/// the row starts with its left edge, then that part.
pub proof fn lemma_framed_keeps(p: &Palette, inner: nat, pre: Seq<char>, rest: Seq<char>)
    requires
        width(pre) < inner,
    ensures
        exists|b: Seq<char>| framed_row(p, inner, pre + rest) == row_left(p) + pre + b,
{
    let content = pre + rest;
    lemma_truncated(content, inner);
    let cut = truncated(content, inner);
    assert(pre =~= content.take(pre.len() as int));
    if cut.len() < pre.len() {
        crate::text::lemma_width_monotone(content, cut.len() as int, pre.len() as int);
        if width(content) <= inner {
        } else {
            assert(width(cut) == inner);
        }
        assert(false);
    }
    assert(cut =~= pre + cut.skip(pre.len() as int)) by {
        assert(cut == content.take(cut.len() as int));
    }
    let pad = (if inner >= width(cut) { inner - width(cut) } else { 0 }) as nat;
    let b = cut.skip(pre.len() as int) + repeat(' ', pad) + row_right(p);
    assert(framed_row(p, inner, content) =~= row_left(p) + pre + b);
}

/// A part of a row's content stands whole in the framed row when the
/// content up to its end is narrower than the frame, or when the whole
/// content fits.
pub proof fn lemma_row_contains(p: &Palette, inner: nat, lead: Seq<char>, sub: Seq<char>, rest: Seq<char>)
    requires
        width(lead + sub) < inner || width(lead + sub + rest) <= inner,
    ensures
        crate::text::contains_seq(framed_row(p, inner, lead + sub + rest), sub),
{
    if width(lead + sub + rest) <= inner {
        lemma_framed_fit(p, inner, lead + sub + rest);
        let b = rest + repeat(' ', (inner - width(lead + sub + rest)) as nat) + row_right(p);
        assert(framed_row(p, inner, lead + sub + rest) =~= (row_left(p) + lead) + sub + b);
    } else {
        assert(lead + sub + rest =~= (lead + sub) + rest);
        lemma_framed_keeps(p, inner, lead + sub, rest);
        let b = choose|b: Seq<char>| framed_row(p, inner, (lead + sub) + rest) == row_left(p) + (lead + sub) + b;
        assert(framed_row(p, inner, lead + sub + rest) =~= (row_left(p) + lead) + sub + b);
    }
}

/// A content that fills the frame exactly ends its row just before the
/// right edge.
pub proof fn lemma_row_ends(p: &Palette, inner: nat, lead: Seq<char>, tail: Seq<char>)
    requires
        width(lead + tail) == inner,
    ensures
        exists|a: Seq<char>| framed_row(p, inner, lead + tail) == a + tail + row_right(p),
{
    lemma_framed_fit(p, inner, lead + tail);
    assert(repeat(' ', 0) =~= Seq::<char>::empty());
    assert(framed_row(p, inner, lead + tail) =~= (row_left(p) + lead) + tail + row_right(p));
}

/// An empty framed row.
pub open spec fn empty_row(p: &Palette, inner: nat) -> Seq<char> {
    p.border@ + seq!['│'] + p.reset@ + seq![' '] + repeat(' ', inner) + seq![' '] + p.border@
        + seq!['│'] + p.reset@
}

/// Frames `left` followed by `right` into a row `inner` columns wide.
pub fn format_line(p: &Palette, inner: usize, left: &str, right: &str) -> (r: String)
    ensures
        r@ == framed_row(p, inner as nat, left@ + right@),
{
    let mut joined = owned(left);
    push_str(&mut joined, right);
    let content = truncate_visible(joined.as_str(), inner);
    let vis = visible_width(content.as_str());
    let pad = if inner >= vis {
        inner - vis
    } else {
        0
    };
    let mut out = owned(p.border.as_str());
    push_char(&mut out, '│');
    push_str(&mut out, p.reset.as_str());
    push_char(&mut out, ' ');
    push_str(&mut out, content.as_str());
    let spaces = repeat_char(' ', pad);
    push_str(&mut out, spaces.as_str());
    push_char(&mut out, ' ');
    push_str(&mut out, p.border.as_str());
    push_char(&mut out, '│');
    push_str(&mut out, p.reset.as_str());
    assert(out@ =~= framed_row(p, inner as nat, left@ + right@));
    out
}

/// An empty row `inner` columns wide.
pub fn empty_line(p: &Palette, inner: usize) -> (r: String)
    ensures
        r@ == empty_row(p, inner as nat),
{
    let mut out = owned(p.border.as_str());
    push_char(&mut out, '│');
    push_str(&mut out, p.reset.as_str());
    push_char(&mut out, ' ');
    let spaces = repeat_char(' ', inner);
    push_str(&mut out, spaces.as_str());
    push_char(&mut out, ' ');
    push_str(&mut out, p.border.as_str());
    push_char(&mut out, '│');
    push_str(&mut out, p.reset.as_str());
    assert(out@ =~= empty_row(p, inner as nat));
    out
}

// ---------------------------------------------------------------------------
// Widths of the frame pieces
// ---------------------------------------------------------------------------

/// A single frame character: one column, no line break.
proof fn lemma_chrome(c: char)
    requires
        c != esc(),
        c != '\n',
    ensures
        scan(seq![c]) == (1nat, false),
        ok_text(seq![c]),
{
    lemma_single(c);
}

/// A run of a frame character: as many columns as its length.
proof fn lemma_run_of(c: char, n: nat)
    requires
        c != esc(),
        c != '\n',
    ensures
        width(repeat(c, n)) == n,
        ok_text(repeat(c, n)),
{
    lemma_repeat(c, n);
}

/// A framed row is exactly `inner + 4` columns wide and breaks no line,
/// whatever its content, as long as the content is well placed.
pub proof fn lemma_framed_row(p: &Palette, inner: nat, content: Seq<char>)
    requires
        palette_ok(p),
        ok_text(content),
    ensures
        width(framed_row(p, inner, content)) == inner + 4,
        no_newline(framed_row(p, inner, content)),
{
    broadcast use lemma_ok_concat, lemma_code_ok;

    let cut = truncated(content, inner);
    lemma_truncated(content, inner);
    let k = cut.len() as int;
    assert(no_newline(cut)) by {
        assert forall|i: int| 0 <= i < cut.len() implies cut[i] != '\n' by {
            assert(cut[i] == content.take(k)[i]);
        }
    }
    assert(closed(cut));
    let pad = (if inner >= width(cut) { inner - width(cut) } else { 0 }) as nat;
    assert(width(cut) <= inner);
    lemma_chrome('│');
    lemma_chrome(' ');
    lemma_run_of(' ', pad);
    let a = p.border@ + seq!['│'];
    let b = a + p.reset@;
    let c = b + seq![' '];
    let d = c + cut;
    let e = d + repeat(' ', pad);
    let f = e + seq![' '];
    let g = f + p.border@;
    let h = g + seq!['│'];
    let i = h + p.reset@;
    lemma_concat(p.border@, seq!['│']);
    lemma_concat(a, p.reset@);
    lemma_concat(b, seq![' ']);
    lemma_concat(c, cut);
    lemma_concat(d, repeat(' ', pad));
    lemma_concat(e, seq![' ']);
    lemma_concat(f, p.border@);
    lemma_concat(g, seq!['│']);
    lemma_concat(h, p.reset@);
    assert(ok_text(i));
    assert(i == framed_row(p, inner, content));
}

/// An empty row is exactly `inner + 4` columns wide.
pub proof fn lemma_empty_row(p: &Palette, inner: nat)
    requires
        palette_ok(p),
    ensures
        width(empty_row(p, inner)) == inner + 4,
        no_newline(empty_row(p, inner)),
{
    broadcast use lemma_ok_concat, lemma_code_ok;

    lemma_chrome('│');
    lemma_chrome(' ');
    lemma_run_of(' ', inner);
    let a = p.border@ + seq!['│'];
    let b = a + p.reset@;
    let c = b + seq![' '];
    let d = c + repeat(' ', inner);
    let e = d + seq![' '];
    let f = e + p.border@;
    let g = f + seq!['│'];
    let h = g + p.reset@;
    lemma_concat(p.border@, seq!['│']);
    lemma_concat(a, p.reset@);
    lemma_concat(b, seq![' ']);
    lemma_concat(c, repeat(' ', inner));
    lemma_concat(d, seq![' ']);
    lemma_concat(e, p.border@);
    lemma_concat(f, seq!['│']);
    lemma_concat(g, p.reset@);
    assert(ok_text(h));
}

/// A border is exactly `total_width` columns wide when the title (if any)
/// is plain text that fits.
pub proof fn lemma_border_body(
    p: &Palette,
    total_width: nat,
    left: char,
    right: char,
    title: Option<(Seq<char>, Seq<char>)>,
)
    requires
        palette_ok(p),
        left != esc() && left != '\n',
        right != esc() && right != '\n',
        title matches Some((t, c)) ==> plain(t) && is_code(c) && total_width >= 5 + t.len(),
        title is None ==> total_width >= 2,
    ensures
        width(border_body(p, total_width, left, right, title)) == total_width,
        no_newline(border_body(p, total_width, left, right, title)),
{
    broadcast use lemma_ok_concat, lemma_code_ok, lemma_plain_ok;

    lemma_chrome(left);
    lemma_chrome(right);
    match title {
        None => {
            let n = (total_width - 2) as nat;
            lemma_run_of('─', n);
            let a = p.border@ + seq![left];
            let b = a + repeat('─', n);
            let c = b + seq![right];
            let d = c + p.reset@;
            lemma_concat(p.border@, seq![left]);
            lemma_concat(a, repeat('─', n));
            lemma_concat(b, seq![right]);
            lemma_concat(c, p.reset@);
            assert(ok_text(d));
        },
        Some((text, color)) => {
            let n = (total_width - 5 - text.len()) as nat;
            lemma_run_of('─', n);
            lemma_chrome(' ');
            lemma_no_esc(text);
            assert(scan(seq![left, '─']) == (2nat, false)) by {
                lemma_chrome('─');
                assert(seq![left, '─'] =~= seq![left] + seq!['─']);
                lemma_concat(seq![left], seq!['─']);
            }
            assert(no_newline(seq![left, '─']));
            let a = p.border@ + seq![left, '─'];
            let b = a + p.reset@;
            let c = b + seq![' '];
            let d = c + p.bold@;
            let e = d + color;
            let f = e + text;
            let g = f + p.reset@;
            let h = g + seq![' '];
            let i = h + p.border@;
            let j = i + repeat('─', n);
            let k = j + seq![right];
            let l = k + p.reset@;
            lemma_concat(p.border@, seq![left, '─']);
            lemma_concat(a, p.reset@);
            lemma_concat(b, seq![' ']);
            lemma_concat(c, p.bold@);
            lemma_concat(d, color);
            lemma_concat(e, text);
            lemma_concat(f, p.reset@);
            lemma_concat(g, seq![' ']);
            lemma_concat(h, p.border@);
            lemma_concat(i, repeat('─', n));
            lemma_concat(j, seq![right]);
            lemma_concat(k, p.reset@);
            assert(ok_text(l));
        },
    }
}

/// A section divider is exactly `total_width` columns wide when its icon is
/// one plain character and its title plain text that fits.
pub proof fn lemma_divider_body(
    p: &Palette,
    total_width: nat,
    icon: Seq<char>,
    text: Seq<char>,
    color: Seq<char>,
)
    requires
        palette_ok(p),
        is_code(color),
        plain(icon),
        icon.len() == 1,
        plain(text),
        total_width >= 9 + text.len(),
    ensures
        width(divider_body(p, total_width, icon, text, color)) == total_width,
        no_newline(divider_body(p, total_width, icon, text, color)),
{
    broadcast use lemma_ok_concat, lemma_code_ok, lemma_plain_ok;

    let n = (total_width - 9 - text.len()) as nat;
    lemma_run_of('─', n);
    lemma_no_esc(icon);
    lemma_no_esc(text);
    let s1 = seq!['├', '─'];
    let s2 = seq!['[', ' '];
    let s3 = seq![' '];
    let s4 = seq![' ', ']'];
    let s5 = seq!['┤'];
    assert(plain(s1) && plain(s2) && plain(s3) && plain(s4) && plain(s5));
    lemma_no_esc(s1);
    lemma_no_esc(s2);
    lemma_no_esc(s3);
    lemma_no_esc(s4);
    lemma_no_esc(s5);
    let a = p.border@ + s1;
    let b = a + color;
    let c = b + s2;
    let d = c + icon;
    let e = d + s3;
    let f = e + text;
    let g = f + s4;
    let h = g + p.reset@;
    let i = h + p.border@;
    let j = i + repeat('─', n);
    let k = j + s5;
    let l = k + p.reset@;
    lemma_concat(p.border@, s1);
    lemma_concat(a, color);
    lemma_concat(b, s2);
    lemma_concat(c, icon);
    lemma_concat(d, s3);
    lemma_concat(e, text);
    lemma_concat(f, s4);
    lemma_concat(g, p.reset@);
    lemma_concat(h, p.border@);
    lemma_concat(i, repeat('─', n));
    lemma_concat(j, s5);
    lemma_concat(k, p.reset@);
    assert(ok_text(l));
    assert(l == divider_body(p, total_width, icon, text, color));
}

} // verus!
