use vstd::prelude::*;

use crate::text::{
    closed, decimal, esc, is_escape_seq, lemma_concat, lemma_decimal_plain, lemma_escape_seq,
    lemma_ok_concat, lemma_plain_ok, lemma_repeat, lemma_single, no_esc, no_newline, ok_text,
    owned, plain, push_char, push_decimal, push_str, repeat, repeat_char, scan, width,
};
use crate::theme::{is_code, lemma_code_ok, Palette};

verus! {

/// The escape sequence that selects the true colour `(r, g, b)`.
pub open spec fn truecolor(r: u8, g: u8, b: u8) -> Seq<char> {
    seq![esc(), '[', '3', '8', ';', '2', ';'] + decimal(r as nat) + seq![';'] + decimal(g as nat)
        + seq![';'] + decimal(b as nat) + seq!['m']
}

/// The `i`-th cell of a painted text: the true-colour selector of the
/// `i`-th colour, when there is one, then the `i`-th character.
pub open spec fn paint_cell(text: Seq<char>, colors: Seq<(u8, u8, u8)>, i: nat) -> Seq<char> {
    if i < colors.len() {
        truecolor(colors[i as int].0, colors[i as int].1, colors[i as int].2) + seq![text[i as int]]
    } else {
        seq![text[i as int]]
    }
}

/// The first `k` cells of a painted text.
pub open spec fn paint_prefix(text: Seq<char>, colors: Seq<(u8, u8, u8)>, k: nat) -> Seq<char>
    decreases k,
{
    if k == 0 {
        Seq::empty()
    } else {
        paint_prefix(text, colors, (k - 1) as nat) + paint_cell(text, colors, (k - 1) as nat)
    }
}

/// The text painted one character at a time in the given colours (the
/// stops of a gradient); plain palettes leave the text as it is, and no
/// trailing reset is added.
pub open spec fn paint_spec(text: Seq<char>, colors: Seq<(u8, u8, u8)>, p: &Palette) -> Seq<char> {
    if p.is_plain {
        text
    } else {
        paint_prefix(text, colors, text.len())
    }
}

/// Appends the true-colour selector for `(r, g, b)`.
pub(crate) fn push_truecolor(out: &mut String, r: u8, g: u8, b: u8)
    ensures
        final(out)@ == old(out)@ + truecolor(r, g, b),
{
    push_char(out, '\x1b');
    push_char(out, '[');
    push_char(out, '3');
    push_char(out, '8');
    push_char(out, ';');
    push_char(out, '2');
    push_char(out, ';');
    push_decimal(out, r as u64);
    push_char(out, ';');
    push_decimal(out, g as u64);
    push_char(out, ';');
    push_decimal(out, b as u64);
    push_char(out, 'm');
    assert(out@ =~= old(out)@ + truecolor(r, g, b));
}

/// Paints `text` one character at a time, the `i`-th character in the
/// `i`-th colour: the drawing half of the card's colour gradients. Plain
/// palettes get the text untouched; no trailing reset is emitted, callers
/// close the styling themselves.
pub fn paint_gradient(text: &str, colors: &Vec<(u8, u8, u8)>, p: &Palette) -> (r: String)
    ensures
        r@ == paint_spec(text@, colors@, p),
{
    if p.is_plain {
        return owned(text);
    }
    let chars = crate::env::chars_of(text);
    let mut out = String::new();
    let mut i: usize = 0;
    while i < chars.len()
        invariant
            chars@ == text@,
            i <= chars@.len(),
            out@ == paint_prefix(text@, colors@, i as nat),
        decreases chars@.len() - i,
    {
        if i < colors.len() {
            let (r, g, b) = colors[i];
            push_truecolor(&mut out, r, g, b);
        }
        push_char(&mut out, chars[i]);
        i = i + 1;
        assert(out@ =~= paint_prefix(text@, colors@, i as nat));
    }
    out
}

/// The colour selector of a gradient cell is a complete escape sequence.
pub proof fn lemma_truecolor(r: u8, g: u8, b: u8)
    ensures
        is_escape_seq(truecolor(r, g, b)),
        scan(truecolor(r, g, b)) == (0nat, false),
{
    lemma_decimal_plain(r as nat);
    lemma_decimal_plain(g as nat);
    lemma_decimal_plain(b as nat);
    let s = truecolor(r, g, b);
    let dr = decimal(r as nat);
    let dg = decimal(g as nat);
    let db = decimal(b as nat);
    assert forall|i: int| 1 <= i < s.len() - 1 implies s[i] != 'm' by {
        if i < 7 {
        } else if i < 7 + dr.len() {
            assert(s[i] == dr[i - 7]);
        } else if i == 7 + dr.len() {
        } else if i < 8 + dr.len() + dg.len() {
            assert(s[i] == dg[i - 8 - dr.len()]);
        } else if i == 8 + dr.len() + dg.len() {
        } else {
            assert(s[i] == db[i - 9 - dr.len() - dg.len()]);
        }
    }
    lemma_escape_seq(s);
}

/// A painted text without escape characters is exactly as many columns
/// wide as the text is long, and ends outside any escape.
pub proof fn lemma_paint_width(text: Seq<char>, colors: Seq<(u8, u8, u8)>, k: nat)
    requires
        no_esc(text),
        k <= text.len(),
    ensures
        width(paint_prefix(text, colors, k)) == k,
        closed(paint_prefix(text, colors, k)),
    decreases k,
{
    if k > 0 {
        let j = (k - 1) as nat;
        lemma_paint_width(text, colors, j);
        lemma_single(text[j as int]);
        if j < colors.len() {
            let c = colors[j as int];
            lemma_truecolor(c.0, c.1, c.2);
            lemma_concat(truecolor(c.0, c.1, c.2), seq![text[j as int]]);
        }
        let pre = paint_prefix(text, colors, j);
        lemma_concat(pre, paint_cell(text, colors, j));
    }
}


/// The colour selector breaks no line.
pub proof fn lemma_truecolor_no_newline(r: u8, g: u8, b: u8)
    ensures
        no_newline(truecolor(r, g, b)),
{
    lemma_decimal_plain(r as nat);
    lemma_decimal_plain(g as nat);
    lemma_decimal_plain(b as nat);
    let s = truecolor(r, g, b);
    let dr = decimal(r as nat);
    let dg = decimal(g as nat);
    let db = decimal(b as nat);
    assert forall|i: int| 0 <= i < s.len() implies s[i] != '\n' by {
        if i < 7 {
        } else if i < 7 + dr.len() {
            assert(s[i] == dr[i - 7]);
        } else if i == 7 + dr.len() {
        } else if i < 8 + dr.len() + dg.len() {
            assert(s[i] == dg[i - 8 - dr.len()]);
        } else if i == 8 + dr.len() + dg.len() {
        } else if i < 9 + dr.len() + dg.len() + db.len() {
            assert(s[i] == db[i - 9 - dr.len() - dg.len()]);
        }
    }
}

/// A painted plain text breaks no line.
proof fn lemma_paint_no_newline(text: Seq<char>, colors: Seq<(u8, u8, u8)>, k: nat)
    requires
        plain(text),
        k <= text.len(),
    ensures
        no_newline(paint_prefix(text, colors, k)),
    decreases k,
{
    if k > 0 {
        let j = (k - 1) as nat;
        lemma_paint_no_newline(text, colors, j);
        if j < colors.len() {
            let cc = colors[j as int];
            lemma_truecolor_no_newline(cc.0, cc.1, cc.2);
        }
        let a = paint_prefix(text, colors, j);
        let c = paint_cell(text, colors, j);
        assert forall|i: int| 0 <= i < (a + c).len() implies (a + c)[i] != '\n' by {
            if i < a.len() {
                assert((a + c)[i] == a[i]);
            } else {
                assert((a + c)[i] == c[i - a.len()]);
                if j < colors.len() {
                    let cc = colors[j as int];
                    let t = truecolor(cc.0, cc.1, cc.2);
                    if i - a.len() < t.len() {
                        assert(c[i - a.len()] == t[i - a.len()]);
                    }
                }
            }
        }
    }
}

/// A painted plain text is well placed.
pub proof fn lemma_paint_ok(text: Seq<char>, colors: Seq<(u8, u8, u8)>, p: &Palette)
    requires
        plain(text),
    ensures
        ok_text(paint_spec(text, colors, p)),
{
    if p.is_plain {
        lemma_plain_ok(text);
    } else {
        lemma_paint_width(text, colors, text.len());
        lemma_paint_no_newline(text, colors, text.len());
    }
}

/// A gauge in styling colours is well placed.
pub proof fn lemma_gauge_ok(filled: nat, w: nat, active: Seq<char>, track: Seq<char>, reset: Seq<char>)
    requires
        is_code(active),
        is_code(track),
        is_code(reset),
    ensures
        ok_text(gauge_spec(filled, w, active, track, reset)),
{
    broadcast use lemma_ok_concat, lemma_plain_ok, lemma_code_ok;

    let e = (if filled <= w { w - filled } else { 0 }) as nat;
    lemma_repeat('█', filled);
    lemma_repeat('█', e);
    assert(ok_text(repeat('█', filled)));
    assert(ok_text(repeat('█', e)));
    assert(ok_text(active + repeat('█', filled)));
    assert(ok_text(active + repeat('█', filled) + track));
    assert(ok_text(active + repeat('█', filled) + track + repeat('█', e)));
}

/// A gauge in styling colours ends outside any escape.
pub proof fn lemma_gauge_closed(filled: nat, w: nat, active: Seq<char>, track: Seq<char>, reset: Seq<char>)
    requires
        is_code(active),
        is_code(track),
        is_code(reset),
    ensures
        closed(gauge_spec(filled, w, active, track, reset)),
{
    lemma_gauge_ok(filled, w, active, track, reset);
}

/// A gauge of `width` full-height cells: the first `filled` painted in the
/// active colour, the rest in the track colour.
pub open spec fn gauge_spec(
    filled: nat,
    width: nat,
    active: Seq<char>,
    track: Seq<char>,
    reset: Seq<char>,
) -> Seq<char> {
    active + repeat('█', filled) + track + repeat('█', (if filled <= width { width - filled } else { 0 }) as nat) + reset
}

/// Renders a gauge with `filled` active cells out of `width`; the cell
/// count comes from the caller's percentage.
pub fn render_gauge_cells(
    filled: usize,
    width: usize,
    active_color: &str,
    track_color: &str,
    reset: &str,
) -> (r: String)
    ensures
        r@ == gauge_spec(filled as nat, width as nat, active_color@, track_color@, reset@),
{
    let empty = if filled <= width {
        width - filled
    } else {
        0
    };
    let mut out = owned(active_color);
    let a = repeat_char('█', filled);
    push_str(&mut out, a.as_str());
    push_str(&mut out, track_color);
    let b = repeat_char('█', empty);
    push_str(&mut out, b.as_str());
    push_str(&mut out, reset);
    out
}

} // verus!
