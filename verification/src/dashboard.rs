use vstd::prelude::*;
use vstd::string::StrSliceExecFns;

use crate::frame::{
    border_body, border_line, divider_body, empty_line, empty_row, format_line, frame_lines,
    framed_row, lemma_border_body, lemma_divider_body, lemma_empty_row, lemma_framed_row,
    lemma_lines_concat, lemma_lines_push, lines_text, push_line, section_divider,
};
use crate::git::{
    branch_info_spec, compute_mascot_state, counts_fit, face_of, format_branch_info,
    format_git_pill, git_pill_spec, mascot_state_spec, mascot_visual_for_state, mood_word_of,
    role_of, GitState,
};
use crate::render::{
    env_value, gutter_spec, mascot_rows, mascot_rows_spec, primary_value, row_head,
    workspace_row, ClockReading, HostReading, FULL_INNER, };
use crate::text::{
    decimal, first_occurrence, lemma_decimal_plain, lemma_ok_concat, lemma_plain_ok,
    is_plain, lemma_repeat, lowercase, ok_text, owned, pad_to_visible, padded, plain, push_char,
    push_decimal, push_str, repeat, to_lowercase, trim, trimmed, width,
};
use crate::theme::{
    accent_of, dots_spec, fill, is_code, label, lemma_code_ok, lemma_label_ok,
    mascot_accent, palette_ok, sys_label, sys_label_spec, Palette, SYS_LABEL_WIDTH,
};
use crate::system::{Meter, SystemTelemetry};
use crate::telemetry::ProjectTelemetry;
use crate::widgets::{
    gauge_spec, paint_spec, paint_gradient, lemma_gauge_ok, lemma_paint_ok,
    render_gauge_cells,
};
use crate::render::{
    lemma_card_literals, lemma_compact_rows_ok_workspace, lemma_glyph_head_ok, lemma_mascot_ok,
    lemma_mood_plain, lemma_primary_ok,
};
use crate::git::lemma_pill_ok;

verus! {

// ---------------------------------------------------------------------------
// Short values
// ---------------------------------------------------------------------------

/// `s` in lowercase, cut to `max` characters with `..` when longer.
pub open spec fn short_text(s: Seq<char>, max: nat) -> Seq<char> {
    if s.len() <= max {
        lowercase(s)
    } else {
        lowercase(s.take((if max >= 2 { max - 2 } else { 0 }) as int) + ".."@)
    }
}

/// `s` cut to `max` characters, the cut marked with `..`.
pub open spec fn cut_text(s: Seq<char>, max: nat) -> Seq<char> {
    if s.len() <= max {
        s
    } else {
        s.take((if max >= 2 { max - 2 } else { 0 }) as int) + ".."@
    }
}

/// Cuts `s` to `max` characters, marking the cut with `..`.
pub fn cut_str(s: &str, max: usize) -> (r: String)
    ensures
        r@ == cut_text(s@, max as nat),
{
    let len = s.unicode_len();
    if len <= max {
        owned(s)
    } else {
        let keep = if max >= 2 {
            max - 2
        } else {
            0
        };
        let v = crate::env::chars_of(s);
        let mut out = String::new();
        let mut i: usize = 0;
        while i < keep
            invariant
                v@ == s@,
                keep < v@.len(),
                i <= keep,
                out@ == s@.take(i as int),
            decreases keep - i,
        {
            push_char(&mut out, v[i]);
            i = i + 1;
            assert(out@ =~= s@.take(i as int));
        }
        push_str(&mut out, "..");
        out
    }
}

/// A cut plain text is plain and fits its slot.
pub proof fn lemma_cut_plain(s: Seq<char>, max: nat)
    requires
        plain(s),
        max >= 2,
    ensures
        plain(cut_text(s, max)),
        cut_text(s, max).len() <= max,
{
    reveal_strlit("..");
    if s.len() > max {
        let t = s.take(max - 2) + ".."@;
        assert forall|i: int| 0 <= i < t.len() implies t[i] != crate::text::esc() && t[i] != '\n' by {
            if i < max - 2 {
                assert(t[i] == s[i]);
            }
        }
    }
}

/// Lowercases `s` and cuts it to `max` characters, marking the cut with `..`.
pub fn truncate_str(s: &str, max: usize) -> (r: String)
    ensures
        r@ == short_text(s@, max as nat),
{
    let c = cut_str(s, max);
    to_lowercase(c.as_str())
}

// ---------------------------------------------------------------------------
// The system cells
// ---------------------------------------------------------------------------

/// A system cell: icon, label, meter, percentage and detail.
pub open spec fn sys_cell_spec(
    p: &Palette,
    icon: Seq<char>,
    accent: Seq<char>,
    lbl: Seq<char>,
    meter: Seq<char>,
    pct: Seq<char>,
    detail: Seq<char>,
) -> Seq<char> {
    "  "@ + accent + icon + p.reset@ + "  "@ + sys_label_spec(p, lbl) + " "@ + meter + "  "@ + pct
        + "  "@ + detail
}

/// Lays out one cell of the system rows.
pub fn sys_cell(
    p: &Palette,
    icon: &str,
    accent: &str,
    lbl: &str,
    meter: String,
    pct: String,
    detail: String,
) -> (r: String)
    ensures
        r@ == sys_cell_spec(p, icon@, accent@, lbl@, meter@, pct@, detail@),
{
    let mut s = owned("  ");
    push_str(&mut s, accent);
    push_str(&mut s, icon);
    push_str(&mut s, p.reset.as_str());
    push_str(&mut s, "  ");
    let l = sys_label(p, lbl);
    push_str(&mut s, l.as_str());
    push_str(&mut s, " ");
    push_str(&mut s, meter.as_str());
    push_str(&mut s, "  ");
    push_str(&mut s, pct.as_str());
    push_str(&mut s, "  ");
    push_str(&mut s, detail.as_str());
    s
}

/// The meter column: a ten-cell gauge, or a muted dash when unknown.
pub open spec fn meter_spec(p: &Palette, m: Option<Meter>, accent: Seq<char>) -> Seq<char> {
    match m {
        Some(m) => gauge_spec(m.cells as nat, 10, accent, p.gauge_empty@, p.reset@),
        None => p.muted@ + fill("─"@, 10) + p.reset@,
    }
}

/// The percentage column: bold in the accent, or blank when unknown.
pub open spec fn pct_spec(p: &Palette, m: Option<Meter>, accent: Seq<char>) -> Seq<char> {
    match m {
        Some(m) => p.bold@ + accent + fill(m.percent@, 4) + p.reset@,
        None => fill(""@, 4),
    }
}

/// The detail column in the accent.
pub open spec fn detail_spec(p: &Palette, text: Seq<char>, accent: Seq<char>) -> Seq<char> {
    accent + fill(text, 8) + p.reset@
}

/// A metered system cell.
pub open spec fn meter_cell(
    p: &Palette,
    icon: Seq<char>,
    accent: Seq<char>,
    lbl: Seq<char>,
    m: Option<Meter>,
    detail: Seq<char>,
) -> Seq<char> {
    sys_cell_spec(p, icon, accent, lbl, meter_spec(p, m, accent), pct_spec(p, m, accent), detail_spec(p, detail, accent))
}

/// The uptime value: the lowercase uptime in brackets, or `—`.
pub open spec fn up_value(s: &SystemTelemetry) -> Seq<char> {
    match s.uptime {
        Some(u) => "["@ + lowercase(u@) + "]"@,
        None => "—"@,
    }
}

/// The uptime cell.
pub open spec fn up_cell(p: &Palette, s: &SystemTelemetry) -> Seq<char> {
    let meter = if s.uptime is Some {
        p.primary@ + fill(up_value(s), 14) + p.reset@
    } else {
        p.muted@ + fill(up_value(s), 14) + p.reset@
    };
    let detail = if s.uptime is Some {
        p.status_clean@ + fill("stable"@, 8) + p.reset@
    } else {
        p.muted@ + fill("—"@, 8) + p.reset@
    };
    sys_cell_spec(p, "\u{f017}"@, p.title_mew@, "up"@, meter, Seq::empty(), detail)
}

/// The first system row: cpu and ram.
pub open spec fn sys_line1(p: &Palette, s: &SystemTelemetry) -> Seq<char> {
    meter_cell(p, "\u{f4bc}"@, p.gauge_fill@, "cpu"@, s.cpu, s.cpu_detail@) + "   "@ + meter_cell(
        p,
        "\u{e266}"@,
        p.status_clean@,
        "ram"@,
        s.ram,
        s.ram_detail@,
    )
}

/// The second system row: disk and uptime.
pub open spec fn sys_line2(p: &Palette, s: &SystemTelemetry) -> Seq<char> {
    meter_cell(p, "\u{f02ca}"@, p.dot_git@, "disk"@, s.disk, s.disk_detail@) + "   "@ + up_cell(p, s)
}

fn fill_string(text: &str, n: usize) -> (r: String)
    ensures
        r@ == fill(text@, n as nat),
{
    crate::theme::fill_to(text, n)
}

fn meter_string(p: &Palette, m: &Option<Meter>, accent: &str) -> (r: String)
    ensures
        r@ == meter_spec(p, *m, accent@),
{
    match m {
        Some(m) => render_gauge_cells(m.cells, 10, accent, p.gauge_empty.as_str(), p.reset.as_str()),
        None => {
            let mut s = owned(p.muted.as_str());
            let f = fill_string("─", 10);
            push_str(&mut s, f.as_str());
            push_str(&mut s, p.reset.as_str());
            s
        },
    }
}

fn pct_string(p: &Palette, m: &Option<Meter>, accent: &str) -> (r: String)
    ensures
        r@ == pct_spec(p, *m, accent@),
{
    match m {
        Some(m) => {
            let mut s = owned(p.bold.as_str());
            push_str(&mut s, accent);
            let f = fill_string(m.percent.as_str(), 4);
            push_str(&mut s, f.as_str());
            push_str(&mut s, p.reset.as_str());
            s
        },
        None => fill_string("", 4),
    }
}

fn detail_string(p: &Palette, text: &str, accent: &str) -> (r: String)
    ensures
        r@ == detail_spec(p, text@, accent@),
{
    let mut s = owned(accent);
    let f = fill_string(text, 8);
    push_str(&mut s, f.as_str());
    push_str(&mut s, p.reset.as_str());
    s
}

fn meter_cell_string(p: &Palette, icon: &str, accent: &str, lbl: &str, m: &Option<Meter>, detail: &str) -> (r: String)
    ensures
        r@ == meter_cell(p, icon@, accent@, lbl@, *m, detail@),
{
    sys_cell(
        p,
        icon,
        accent,
        lbl,
        meter_string(p, m, accent),
        pct_string(p, m, accent),
        detail_string(p, detail, accent),
    )
}

fn up_cell_string(p: &Palette, s: &SystemTelemetry) -> (r: String)
    ensures
        r@ == up_cell(p, s),
{
    let value = match &s.uptime {
        Some(u) => {
            let mut v = owned("[");
            let l = to_lowercase(u.as_str());
            push_str(&mut v, l.as_str());
            push_str(&mut v, "]");
            v
        },
        None => owned("—"),
    };
    let is_some = s.uptime.is_some();
    let mut meter = if is_some {
        owned(p.primary.as_str())
    } else {
        owned(p.muted.as_str())
    };
    let f = fill_string(value.as_str(), 14);
    push_str(&mut meter, f.as_str());
    push_str(&mut meter, p.reset.as_str());
    let detail = if is_some {
        let mut d = owned(p.status_clean.as_str());
        let f = fill_string("stable", 8);
        push_str(&mut d, f.as_str());
        push_str(&mut d, p.reset.as_str());
        d
    } else {
        let mut d = owned(p.muted.as_str());
        let f = fill_string("—", 8);
        push_str(&mut d, f.as_str());
        push_str(&mut d, p.reset.as_str());
        d
    };
    sys_cell(p, "\u{f017}", p.title_mew.as_str(), "up", meter, String::new(), detail)
}

fn cat3(a: &str, b: &str, c: &str) -> (r: String)
    ensures
        r@ == a@ + b@ + c@,
{
    let mut s = owned(a);
    push_str(&mut s, b);
    push_str(&mut s, c);
    s
}

// ---------------------------------------------------------------------------
// The context rows
// ---------------------------------------------------------------------------

/// The header of the context section.
pub open spec fn ctx_header(p: &Palette) -> Seq<char> {
    padded("  "@ + p.muted@ + "time"@ + p.reset@, 36) + "  "@ + p.muted@ + "context"@ + p.reset@
}

/// A context cell head: two spaces, then a row head.
pub open spec fn ctx_head(p: &Palette, icon_color: Seq<char>, icon: char, name: Seq<char>) -> Seq<char> {
    "  "@ + row_head(p, icon_color, seq![icon], name)
}

/// The clock cell.
pub open spec fn clock_cell(p: &Palette, c: &ClockReading) -> Seq<char> {
    ctx_head(p, p.dot_mood@, '\u{f017}', "clock"@) + paint_spec(c.hm@, c.hm_colors@, p) + p.reset@
}

/// The date cell.
pub open spec fn date_cell(p: &Palette, c: &ClockReading) -> Seq<char> {
    ctx_head(p, p.dot_mood@, '\u{f455}', "date"@) + p.primary@ + c.date@ + " • "@ + p.muted@ + c.tz@ + p.reset@
}

/// The day cell.
pub open spec fn day_cell(p: &Palette, c: &ClockReading) -> Seq<char> {
    ctx_head(p, p.gauge_fill@, '\u{f0e7}', "day"@) + gauge_spec(c.day_cells as nat, 8, p.gauge_fill@, p.gauge_empty@, p.reset@)
        + " "@ + p.gauge_fill@ + decimal(c.day_percent as nat) + "%"@ + p.reset@
}

/// What the HEAD cell shows: the commit hash, or an honest state when
/// there is none.
pub open spec fn head_value(git: &GitState) -> Seq<char> {
    if trimmed(git.commit_hash@).len() == 0 || git.commit_hash@ == "—"@ {
        if git.is_detached {
            "detached"@
        } else {
            "uncommitted"@
        }
    } else {
        git.commit_hash@
    }
}

/// The HEAD cell.
pub open spec fn head_cell(p: &Palette, git: &GitState) -> Seq<char> {
    row_head(p, p.status_clean@, seq!['\u{e725}'], "head"@) + p.status_clean@ + short_text(head_value(git), 22) + p.reset@
}

/// The remote cell.
pub open spec fn remote_cell(p: &Palette, git: &GitState) -> Seq<char> {
    row_head(p, p.gauge_fill@, seq!['\u{f019f}'], "remote"@) + primary_value(p, short_text(branch_info_spec(git), 22))
}

/// The shell cell.
pub open spec fn shell_cell(p: &Palette, h: &HostReading) -> Seq<char> {
    row_head(p, p.title_cmd@, seq!['\u{276f}'], "shell"@) + primary_value(p, short_text(h.shell_name@ + " • "@ + h.term_name@, 22))
}

/// The three context rows.
pub open spec fn ctx_row1(p: &Palette, git: &GitState, c: &ClockReading) -> Seq<char> {
    padded(clock_cell(p, c), 36) + "  "@ + head_cell(p, git)
}

pub open spec fn ctx_row2(p: &Palette, git: &GitState, c: &ClockReading) -> Seq<char> {
    padded(date_cell(p, c), 36) + "  "@ + remote_cell(p, git)
}

pub open spec fn ctx_row3(p: &Palette, h: &HostReading, c: &ClockReading) -> Seq<char> {
    padded(day_cell(p, c), 36) + "  "@ + shell_cell(p, h)
}

fn ctx_head_string(p: &Palette, icon_color: &str, icon: char, name: &str) -> (r: String)
    ensures
        r@ == ctx_head(p, icon_color@, icon, name@),
{
    let mut s = owned("  ");
    push_str(&mut s, icon_color);
    push_char(&mut s, icon);
    push_str(&mut s, p.reset.as_str());
    push_str(&mut s, "  ");
    let l = label(p, name);
    push_str(&mut s, l.as_str());
    push_str(&mut s, "  ");
    assert(s@ =~= ctx_head(p, icon_color@, icon, name@));
    s
}

fn head_string(git: &GitState) -> (r: String)
    ensures
        r@ == head_value(git),
{
    let t = trim(git.commit_hash.as_str());
    let dash = owned("—");
    if t.as_str().unicode_len() == 0 || git.commit_hash == dash {
        if git.is_detached {
            owned("detached")
        } else {
            owned("uncommitted")
        }
    } else {
        git.commit_hash.clone()
    }
}

fn row_head_string(p: &Palette, icon_color: &str, icon: char, name: &str) -> (r: String)
    ensures
        r@ == row_head(p, icon_color@, seq![icon], name@),
{
    let mut s = owned(icon_color);
    push_char(&mut s, icon);
    push_str(&mut s, p.reset.as_str());
    push_str(&mut s, "  ");
    let l = label(p, name);
    push_str(&mut s, l.as_str());
    push_str(&mut s, "  ");
    assert(s@ =~= row_head(p, icon_color@, seq![icon], name@));
    s
}

fn ctx_rows(p: &Palette, git: &GitState, h: &HostReading, c: &ClockReading) -> (r: (String, String, String))
    ensures
        r.0@ == ctx_row1(p, git, c),
        r.1@ == ctx_row2(p, git, c),
        r.2@ == ctx_row3(p, h, c),
{
    let mut clock = ctx_head_string(p, p.dot_mood.as_str(), '\u{f017}', "clock");
    let grad = paint_gradient(c.hm.as_str(), &c.hm_colors, p);
    push_str(&mut clock, grad.as_str());
    push_str(&mut clock, p.reset.as_str());

    let mut date = ctx_head_string(p, p.dot_mood.as_str(), '\u{f455}', "date");
    push_str(&mut date, p.primary.as_str());
    push_str(&mut date, c.date.as_str());
    push_str(&mut date, " • ");
    push_str(&mut date, p.muted.as_str());
    push_str(&mut date, c.tz.as_str());
    push_str(&mut date, p.reset.as_str());

    let mut day = ctx_head_string(p, p.gauge_fill.as_str(), '\u{f0e7}', "day");
    let gauge = render_gauge_cells(c.day_cells, 8, p.gauge_fill.as_str(), p.gauge_empty.as_str(), p.reset.as_str());
    push_str(&mut day, gauge.as_str());
    push_str(&mut day, " ");
    push_str(&mut day, p.gauge_fill.as_str());
    push_decimal(&mut day, c.day_percent as u64);
    push_str(&mut day, "%");
    push_str(&mut day, p.reset.as_str());

    let mut head = row_head_string(p, p.status_clean.as_str(), '\u{e725}', "head");
    push_str(&mut head, p.status_clean.as_str());
    let hv = head_string(git);
    let hs = truncate_str(hv.as_str(), 22);
    push_str(&mut head, hs.as_str());
    push_str(&mut head, p.reset.as_str());

    let mut remote = row_head_string(p, p.gauge_fill.as_str(), '\u{f019f}', "remote");
    let bi = format_branch_info(git);
    let bs = truncate_str(bi.as_str(), 22);
    push_str(&mut remote, p.primary.as_str());
    push_str(&mut remote, bs.as_str());
    push_str(&mut remote, p.reset.as_str());

    let mut shell = row_head_string(p, p.title_cmd.as_str(), '\u{276f}', "shell");
    let session = cat3(h.shell_name.as_str(), " • ", h.term_name.as_str());
    let ss = truncate_str(session.as_str(), 22);
    push_str(&mut shell, p.primary.as_str());
    push_str(&mut shell, ss.as_str());
    push_str(&mut shell, p.reset.as_str());

    let r1 = cat3(pad_to_visible(clock.as_str(), 36).as_str(), "  ", head.as_str());
    let r2 = cat3(pad_to_visible(date.as_str(), 36).as_str(), "  ", remote.as_str());
    let r3 = cat3(pad_to_visible(day.as_str(), 36).as_str(), "  ", shell.as_str());
    assert(clock@ =~= clock_cell(p, c));
    assert(date@ =~= date_cell(p, c));
    assert(day@ =~= day_cell(p, c));
    assert(head@ =~= head_cell(p, git));
    assert(remote@ =~= remote_cell(p, git));
    assert(shell@ =~= shell_cell(p, h));
    (r1, r2, r3)
}

fn ctx_header_string(p: &Palette) -> (r: String)
    ensures
        r@ == ctx_header(p),
{
    let mut t = owned("  ");
    push_str(&mut t, p.muted.as_str());
    push_str(&mut t, "time");
    push_str(&mut t, p.reset.as_str());
    let mut s = pad_to_visible(t.as_str(), 36);
    push_str(&mut s, "  ");
    push_str(&mut s, p.muted.as_str());
    push_str(&mut s, "context");
    push_str(&mut s, p.reset.as_str());
    assert(t@ =~= "  "@ + p.muted@ + "time"@ + p.reset@);
    assert(s@ =~= ctx_header(p));
    s
}

// ---------------------------------------------------------------------------
// The telemetry rows
// ---------------------------------------------------------------------------

/// The line-count text: the count cut into its 22-column slot, or that it
/// is not available outside a repository unless counting was forced.
pub open spec fn loc_text(force_count_lines: bool, git: &GitState, t: &ProjectTelemetry) -> Seq<char> {
    if git.is_repo || force_count_lines {
        cut_text(decimal(t.total_lines as nat) + " lines"@, 22)
    } else {
        "line count unavailable"@
    }
}

/// The lines-of-code value: the line-count text padded to its slot.
pub open spec fn loc_value(force_count_lines: bool, git: &GitState, t: &ProjectTelemetry) -> Seq<char> {
    padded(loc_text(force_count_lines, git, t), 22)
}

/// The lines-of-code cell.
pub open spec fn loc_cell(p: &Palette, force_count_lines: bool, git: &GitState, t: &ProjectTelemetry) -> Seq<char> {
    "  "@ + row_head(p, p.gauge_fill@, seq!['\u{f121}'], "loc"@) + primary_value(p, loc_value(force_count_lines, git, t))
}

/// The language shown, with `—` at 0% when the scan found none.
pub open spec fn lang_parts(t: &ProjectTelemetry) -> (Seq<char>, Seq<char>, Seq<char>, nat) {
    match t.top_language {
        Some(l) => (l.name@, l.percent_tenths@, l.percent_whole@, l.cells as nat),
        None => ("—"@, "0.0"@, "0"@, 0),
    }
}

/// The language label: share with one decimal, unless that overflows 13
/// characters and the rounded share fits.
pub open spec fn lang_label(t: &ProjectTelemetry) -> Seq<char> {
    let (name, tenths, whole, _cells) = lang_parts(t);
    let long = tenths + "% "@ + name;
    let short = whole + "% "@ + name;
    if long.len() > 13 && short.len() <= 13 {
        short
    } else {
        long
    }
}

/// The language value.
pub open spec fn lang_value(p: &Palette, t: &ProjectTelemetry) -> Seq<char> {
    if t.total_lines == 0 {
        padded(p.muted@ + "—"@ + p.reset@, 22)
    } else {
        padded(
            gauge_spec(lang_parts(t).3, 8, p.gauge_fill@, p.gauge_empty@, p.reset@) + " "@ + p.gauge_fill@
                + short_text(lang_label(t), 13) + p.reset@,
            22,
        )
    }
}

/// The language cell.
pub open spec fn lang_cell(p: &Palette, t: &ProjectTelemetry) -> Seq<char> {
    "  "@ + row_head(p, p.title_cmd@, seq!['\u{f410}'], "lang"@) + lang_value(p, t)
}

/// The coverage summary with surrounding white space removed.
pub open spec fn coverage_raw(t: &ProjectTelemetry) -> Seq<char> {
    trimmed(t.coverage_info@)
}

/// There is no coverage report to show.
pub open spec fn coverage_missing(t: &ProjectTelemetry) -> bool {
    coverage_raw(t).len() == 0 || first_occurrence(coverage_raw(t), "no coverage"@, 0) is Some
}

/// The coverage cell.
pub open spec fn cov_cell(p: &Palette, t: &ProjectTelemetry) -> Seq<char> {
    let inner = if coverage_missing(t) {
        padded(p.muted@ + "[ untracked ]"@ + p.reset@, 19)
    } else {
        padded(p.gauge_fill@ + short_text(coverage_raw(t), 19) + p.reset@, 19)
    };
    let icon = if coverage_missing(t) { p.muted@ } else { p.gauge_fill@ };
    "  "@ + row_head(p, icon, seq!['\u{f0c3}'], "coverage"@) + inner
}

/// The latest commit's subject as the card reads it: lowercase, or `—`.
pub open spec fn commit_text(summary: Option<Seq<char>>) -> Seq<char> {
    match summary {
        Some(s) => lowercase(s),
        None => "—"@,
    }
}

/// The commit cell.
pub open spec fn commit_cell(p: &Palette, git: &GitState, summary: Option<Seq<char>>) -> Seq<char> {
    let text = commit_text(summary);
    let missing = text == "—"@;
    let tag = if git.is_repo { "uncommitted"@ } else { "no repo"@ };
    let inner = if missing {
        padded(p.muted@ + "[ "@ + tag + " ]"@ + p.reset@, 19)
    } else {
        padded(p.primary@ + short_text(text, 19) + p.reset@, 19)
    };
    let icon = if missing { p.muted@ } else { p.title_mew@ };
    "  "@ + row_head(p, icon, seq!['\u{e729}'], "commit"@) + inner
}

/// The two telemetry rows.
pub open spec fn telem_row1(p: &Palette, force_count_lines: bool, git: &GitState, t: &ProjectTelemetry) -> Seq<char> {
    loc_cell(p, force_count_lines, git, t) + "  "@ + cov_cell(p, t)
}

pub open spec fn telem_row2(p: &Palette, git: &GitState, t: &ProjectTelemetry, summary: Option<Seq<char>>) -> Seq<char> {
    lang_cell(p, t) + "  "@ + commit_cell(p, git, summary)
}

fn loc_cell_string(p: &Palette, force_count_lines: bool, git: &GitState, t: &ProjectTelemetry) -> (r: String)
    ensures
        r@ == loc_cell(p, force_count_lines, git, t),
{
    let value = if git.is_repo || force_count_lines {
        let mut s = String::new();
        push_decimal(&mut s, t.total_lines);
        push_str(&mut s, " lines");
        let cut = cut_str(s.as_str(), 22);
        pad_to_visible(cut.as_str(), 22)
    } else {
        pad_to_visible("line count unavailable", 22)
    };
    let mut s = owned("  ");
    let head = row_head_string(p, p.gauge_fill.as_str(), '\u{f121}', "loc");
    push_str(&mut s, head.as_str());
    push_str(&mut s, p.primary.as_str());
    push_str(&mut s, value.as_str());
    push_str(&mut s, p.reset.as_str());
    assert(s@ =~= loc_cell(p, force_count_lines, git, t));
    s
}

fn lang_cell_string(p: &Palette, t: &ProjectTelemetry) -> (r: String)
    ensures
        r@ == lang_cell(p, t),
{
    let value = if t.total_lines == 0 {
        let mut s = owned(p.muted.as_str());
        push_str(&mut s, "—");
        push_str(&mut s, p.reset.as_str());
        pad_to_visible(s.as_str(), 22)
    } else {
        let (name, tenths, whole, cells): (&str, &str, &str, usize) = match &t.top_language {
            Some(l) => (l.name.as_str(), l.percent_tenths.as_str(), l.percent_whole.as_str(), l.cells),
            None => ("—", "0.0", "0", 0),
        };
        let long = cat3(tenths, "% ", name);
        let short = cat3(whole, "% ", name);
        let chosen = if long.as_str().unicode_len() > 13 && short.as_str().unicode_len() <= 13 {
            short
        } else {
            long
        };
        assert(chosen@ == lang_label(t));
        let mut s = render_gauge_cells(cells, 8, p.gauge_fill.as_str(), p.gauge_empty.as_str(), p.reset.as_str());
        push_str(&mut s, " ");
        push_str(&mut s, p.gauge_fill.as_str());
        let cut = truncate_str(chosen.as_str(), 13);
        push_str(&mut s, cut.as_str());
        push_str(&mut s, p.reset.as_str());
        pad_to_visible(s.as_str(), 22)
    };
    let mut s = owned("  ");
    let head = row_head_string(p, p.title_cmd.as_str(), '\u{f410}', "lang");
    push_str(&mut s, head.as_str());
    push_str(&mut s, value.as_str());
    assert(s@ =~= lang_cell(p, t));
    s
}

fn cov_cell_string(p: &Palette, t: &ProjectTelemetry) -> (r: String)
    ensures
        r@ == cov_cell(p, t),
{
    let raw = trim(t.coverage_info.as_str());
    let missing = raw.as_str().unicode_len() == 0 || crate::text::contains_text(raw.as_str(), "no coverage");
    let inner = if missing {
        let mut s = owned(p.muted.as_str());
        push_str(&mut s, "[ untracked ]");
        push_str(&mut s, p.reset.as_str());
        pad_to_visible(s.as_str(), 19)
    } else {
        let mut s = owned(p.gauge_fill.as_str());
        let cut = truncate_str(raw.as_str(), 19);
        push_str(&mut s, cut.as_str());
        push_str(&mut s, p.reset.as_str());
        pad_to_visible(s.as_str(), 19)
    };
    let icon = if missing {
        p.muted.as_str()
    } else {
        p.gauge_fill.as_str()
    };
    let mut s = owned("  ");
    let head = row_head_string(p, icon, '\u{f0c3}', "coverage");
    push_str(&mut s, head.as_str());
    push_str(&mut s, inner.as_str());
    assert(s@ =~= cov_cell(p, t));
    s
}

fn commit_cell_string(p: &Palette, git: &GitState, summary: Option<&str>) -> (r: String)
    ensures
        r@ == commit_cell(p, git, crate::env::opt_view(summary)),
{
    let text = match summary {
        Some(s) => to_lowercase(s),
        None => owned("—"),
    };
    let dash = owned("—");
    let missing = text == dash;
    let inner = if missing {
        let tag = if git.is_repo {
            "uncommitted"
        } else {
            "no repo"
        };
        let mut s = owned(p.muted.as_str());
        push_str(&mut s, "[ ");
        push_str(&mut s, tag);
        push_str(&mut s, " ]");
        push_str(&mut s, p.reset.as_str());
        pad_to_visible(s.as_str(), 19)
    } else {
        let mut s = owned(p.primary.as_str());
        let cut = truncate_str(text.as_str(), 19);
        push_str(&mut s, cut.as_str());
        push_str(&mut s, p.reset.as_str());
        pad_to_visible(s.as_str(), 19)
    };
    let icon = if missing {
        p.muted.as_str()
    } else {
        p.title_mew.as_str()
    };
    let mut s = owned("  ");
    let head = row_head_string(p, icon, '\u{e729}', "commit");
    push_str(&mut s, head.as_str());
    push_str(&mut s, inner.as_str());
    assert(s@ =~= commit_cell(p, git, crate::env::opt_view(summary)));
    s
}


// ---------------------------------------------------------------------------
// The rows are well placed
// ---------------------------------------------------------------------------

/// Filling plain text with spaces keeps it plain.
pub proof fn lemma_fill_plain(s: Seq<char>, n: nat)
    requires
        plain(s),
    ensures
        plain(fill(s, n)),
{
    if s.len() < n {
        let k = (n - s.len()) as nat;
        lemma_repeat(' ', k);
        let t = s + repeat(' ', k);
        assert forall|i: int| 0 <= i < t.len() implies t[i] != crate::text::esc() && t[i] != '\n' by {
            if i < s.len() {
                assert(t[i] == s[i]);
            } else {
                assert(t[i] == repeat(' ', k)[i - s.len()]);
            }
        }
    }
}

/// Padding a well-placed text keeps it well placed.
pub proof fn lemma_padded_ok(s: Seq<char>, n: nat)
    requires
        ok_text(s),
    ensures
        ok_text(padded(s, n)),
{
    broadcast use lemma_ok_concat, lemma_plain_ok;

    if n > width(s) {
        lemma_repeat(' ', (n - width(s)) as nat);
    }
}

/// The fixed texts of the full card are plain.
pub proof fn lemma_full_literals()
    ensures
        plain("─"@),
        plain(""@),
        plain("   "@),
        plain("["@),
        plain("]"@),
        plain("[ "@),
        plain(" ]"@),
        plain("—"@),
        plain("stable"@),
        plain("up"@),
        plain("cpu"@),
        plain("ram"@),
        plain("disk"@),
        plain("\u{f017}"@),
        plain("\u{f4bc}"@),
        plain("\u{e266}"@),
        plain("\u{f02ca}"@),
        plain("\u{f121}"@),
        "\u{f017}"@.len() == 1,
        "\u{f4bc}"@.len() == 1,
        "\u{f121}"@.len() == 1,
        plain("time"@),
        plain("context"@),
        plain("clock"@),
        plain("date"@),
        plain("day"@),
        plain("head"@),
        plain("remote"@),
        plain("shell"@),
        plain("loc"@),
        plain("lang"@),
        plain("coverage"@),
        plain("commit"@),
        plain(" lines"@),
        plain("line count unavailable"@),
        plain("[ untracked ]"@),
        plain("uncommitted"@),
        plain("no repo"@),
        plain("system & health"@),
        "system & health"@.len() == 15,
        plain("active context"@),
        "active context"@.len() == 14,
        plain("project telemetry"@),
        "project telemetry"@.len() == 17,
{
    reveal_strlit("─");
    reveal_strlit("");
    reveal_strlit("   ");
    reveal_strlit("[");
    reveal_strlit("]");
    reveal_strlit("[ ");
    reveal_strlit(" ]");
    reveal_strlit("—");
    reveal_strlit("stable");
    reveal_strlit("up");
    reveal_strlit("cpu");
    reveal_strlit("ram");
    reveal_strlit("disk");
    reveal_strlit("\u{f017}");
    reveal_strlit("\u{f4bc}");
    reveal_strlit("\u{e266}");
    reveal_strlit("\u{f02ca}");
    reveal_strlit("\u{f121}");
    reveal_strlit("time");
    reveal_strlit("context");
    reveal_strlit("clock");
    reveal_strlit("date");
    reveal_strlit("day");
    reveal_strlit("head");
    reveal_strlit("remote");
    reveal_strlit("shell");
    reveal_strlit("loc");
    reveal_strlit("lang");
    reveal_strlit("coverage");
    reveal_strlit("commit");
    reveal_strlit(" lines");
    reveal_strlit("line count unavailable");
    reveal_strlit("[ untracked ]");
    reveal_strlit("uncommitted");
    reveal_strlit("no repo");
    reveal_strlit("system & health");
    reveal_strlit("active context");
    reveal_strlit("project telemetry");
}

/// What the full card needs of its inputs to hold its frame: a styling
/// palette, and plain text for every value it shows.
pub open spec fn full_ready(
    git: &GitState,
    sys: &SystemTelemetry,
    telem: &ProjectTelemetry,
    p: &Palette,
    h: &HostReading,
    c: &ClockReading,
    summary: Option<Seq<char>>,
) -> bool {
    full_inputs_ok(sys, p, h, c) && full_shown_plain(git, sys, telem, h, summary)
}

/// The palette only styles, and the readings the full card shows as they
/// are hold no escape and no line break.
pub open spec fn full_inputs_ok(sys: &SystemTelemetry, p: &Palette, h: &HostReading, c: &ClockReading) -> bool {
    &&& palette_ok(p)
    &&& plain(h.workspace@)
    &&& plain(h.os_icon@)
    &&& (sys.cpu matches Some(m) ==> plain(m.percent@))
    &&& (sys.ram matches Some(m) ==> plain(m.percent@))
    &&& (sys.disk matches Some(m) ==> plain(m.percent@))
    &&& plain(sys.cpu_detail@)
    &&& plain(sys.ram_detail@)
    &&& plain(sys.disk_detail@)
    &&& plain(c.hm@)
    &&& plain(c.date@)
    &&& plain(c.tz@)
}

/// The lowercased texts the full card shows hold no escape and no line
/// break.
pub open spec fn full_shown_plain(
    git: &GitState,
    sys: &SystemTelemetry,
    telem: &ProjectTelemetry,
    h: &HostReading,
    summary: Option<Seq<char>>,
) -> bool {
    &&& plain(env_value(h))
    &&& git.is_repo ==> plain(lowercase(git.branch_name@))
    &&& (sys.uptime matches Some(u) ==> plain(lowercase(u@)))
    &&& plain(short_text(head_value(git), 22))
    &&& plain(short_text(branch_info_spec(git), 22))
    &&& plain(short_text(h.shell_name@ + " • "@ + h.term_name@, 22))
    &&& telem.total_lines != 0 ==> plain(short_text(lang_label(telem), 13))
    &&& !coverage_missing(telem) ==> plain(short_text(coverage_raw(telem), 19))
    &&& commit_text(summary) != "—"@ ==> plain(short_text(commit_text(summary), 19))
}

/// Every value of the context and telemetry cells fits its slot: the time
/// in 20 characters, the HEAD value in 22, the language gauge in 8 cells, the language in 13, the coverage and the
/// commit subject in 19.
pub open spec fn full_slots_fit(
    git: &GitState,
    telem: &ProjectTelemetry,
    c: &ClockReading,
    summary: Option<Seq<char>>,
) -> bool {
    &&& c.hm@.len() <= 20
    &&& short_text(head_value(git), 22).len() <= 22
    &&& lang_parts(telem).3 <= 8
    &&& telem.total_lines != 0 ==> short_text(lang_label(telem), 13).len() <= 13
    &&& !coverage_missing(telem) ==> short_text(coverage_raw(telem), 19).len() <= 19
    &&& commit_text(summary) != "—"@ ==> short_text(commit_text(summary), 19).len() <= 19
}

/// The language label of a telemetry reading.
fn lang_label_string(t: &ProjectTelemetry) -> (r: String)
    ensures
        r@ == lang_label(t),
{
    let (name, tenths, whole): (&str, &str, &str) = match &t.top_language {
        Some(l) => (l.name.as_str(), l.percent_tenths.as_str(), l.percent_whole.as_str()),
        None => ("—", "0.0", "0"),
    };
    let long = cat3(tenths, "% ", name);
    let short = cat3(whole, "% ", name);
    if long.as_str().unicode_len() > 13 && short.as_str().unicode_len() <= 13 {
        short
    } else {
        long
    }
}

/// Tells whether `s`, cut to `max` characters, is plain and within `max`.
fn short_fits(s: &str, max: usize) -> (r: bool)
    ensures
        r == (plain(short_text(s@, max as nat)) && short_text(s@, max as nat).len() <= max),
{
    let t = truncate_str(s, max);
    is_plain(t.as_str()) && t.as_str().unicode_len() <= max
}

/// Tells whether `s`, cut to `max` characters, is plain.
fn short_plain(s: &str, max: usize) -> (r: bool)
    ensures
        r == plain(short_text(s@, max as nat)),
{
    let t = truncate_str(s, max);
    is_plain(t.as_str())
}

/// Lowercases the texts the full card shows and tells whether they are all
/// plain and every value fits its slot.
fn full_shown_checked(
    git: &GitState,
    sys: &SystemTelemetry,
    telem: &ProjectTelemetry,
    h: &HostReading,
    c: &ClockReading,
    summary: Option<&str>,
) -> (r: bool)
    ensures
        r == (full_shown_plain(git, sys, telem, h, crate::env::opt_view(summary)) && full_slots_fit(
            git,
            telem,
            c,
            crate::env::opt_view(summary),
        )),
{
    let env = crate::render::env_string(h);
    if !is_plain(env.as_str()) {
        return false;
    }
    if git.is_repo {
        let b = to_lowercase(git.branch_name.as_str());
        if !is_plain(b.as_str()) {
            return false;
        }
    }
    match &sys.uptime {
        Some(u) => {
            let l = to_lowercase(u.as_str());
            if !is_plain(l.as_str()) {
                return false;
            }
        },
        None => {},
    }
    let hv = head_string(git);
    if !short_fits(hv.as_str(), 22) {
        return false;
    }
    let bi = format_branch_info(git);
    if !short_plain(bi.as_str(), 22) {
        return false;
    }
    let session = cat3(h.shell_name.as_str(), " • ", h.term_name.as_str());
    if !short_plain(session.as_str(), 22) {
        return false;
    }
    if c.hm.as_str().unicode_len() > 20 {
        return false;
    }
    let cells: usize = match &telem.top_language {
        Some(l) => l.cells,
        None => 0,
    };
    if cells > 8 {
        return false;
    }
    if telem.total_lines != 0 {
        let label = lang_label_string(telem);
        if !short_fits(label.as_str(), 13) {
            return false;
        }
    }
    let raw = trim(telem.coverage_info.as_str());
    let missing = raw.as_str().unicode_len() == 0 || crate::text::contains_text(raw.as_str(), "no coverage");
    if !missing {
        if !short_fits(raw.as_str(), 19) {
            return false;
        }
    }
    let text = match summary {
        Some(s) => to_lowercase(s),
        None => owned("—"),
    };
    let dash = owned("—");
    if text != dash {
        if !short_fits(text.as_str(), 19) {
            return false;
        }
    }
    true
}

/// A metered system cell is well placed.
proof fn lemma_meter_cell_ok(p: &Palette, icon: Seq<char>, accent: Seq<char>, lbl: Seq<char>, m: Option<Meter>, detail: Seq<char>)
    requires
        palette_ok(p),
        is_code(accent),
        plain(icon),
        plain(lbl),
        m matches Some(mm) ==> plain(mm.percent@),
        plain(detail),
    ensures
        ok_text(meter_cell(p, icon, accent, lbl, m, detail)),
{
    broadcast use lemma_ok_concat, lemma_plain_ok, lemma_code_ok;

    lemma_card_literals();
    lemma_full_literals();
    lemma_label_ok(p, lbl, SYS_LABEL_WIDTH as nat);
    lemma_fill_plain("─"@, 10);
    lemma_fill_plain(""@, 4);
    lemma_fill_plain(detail, 8);
    match m {
        Some(mm) => {
            lemma_gauge_ok(mm.cells as nat, 10, accent, p.gauge_empty@, p.reset@);
            lemma_fill_plain(mm.percent@, 4);
        },
        None => {},
    }
    assert(ok_text(meter_spec(p, m, accent)));
    assert(ok_text(pct_spec(p, m, accent)));
    assert(ok_text(detail_spec(p, detail, accent)));
    assert(ok_text(sys_label_spec(p, lbl)));
}

/// The system rows are well placed.
pub proof fn lemma_system_rows_ok(p: &Palette, sys: &SystemTelemetry)
    requires
        palette_ok(p),
        (sys.cpu matches Some(m) ==> plain(m.percent@)),
        (sys.ram matches Some(m) ==> plain(m.percent@)),
        (sys.disk matches Some(m) ==> plain(m.percent@)),
        plain(sys.cpu_detail@),
        plain(sys.ram_detail@),
        plain(sys.disk_detail@),
        (sys.uptime matches Some(u) ==> plain(lowercase(u@))),
    ensures
        ok_text(sys_line1(p, sys)),
        ok_text(sys_line2(p, sys)),
{
    broadcast use lemma_ok_concat, lemma_plain_ok, lemma_code_ok;

    lemma_card_literals();
    lemma_full_literals();
    lemma_meter_cell_ok(p, "\u{f4bc}"@, p.gauge_fill@, "cpu"@, sys.cpu, sys.cpu_detail@);
    lemma_meter_cell_ok(p, "\u{e266}"@, p.status_clean@, "ram"@, sys.ram, sys.ram_detail@);
    lemma_meter_cell_ok(p, "\u{f02ca}"@, p.dot_git@, "disk"@, sys.disk, sys.disk_detail@);
    match sys.uptime {
        Some(u) => {
            assert(ok_text(up_value(sys)));
            assert(plain(up_value(sys)));
        },
        None => {},
    }
    lemma_fill_plain(up_value(sys), 14);
    lemma_fill_plain("stable"@, 8);
    lemma_fill_plain("—"@, 8);
    lemma_label_ok(p, "up"@, SYS_LABEL_WIDTH as nat);
    assert(plain(Seq::<char>::empty()));
    assert(ok_text(up_cell(p, sys)));
}

/// The context rows are well placed.
pub proof fn lemma_context_rows_ok(git: &GitState, p: &Palette, h: &HostReading, c: &ClockReading)
    requires
        palette_ok(p),
        plain(c.hm@),
        plain(c.date@),
        plain(c.tz@),
        plain(short_text(head_value(git), 22)),
        plain(short_text(branch_info_spec(git), 22)),
        plain(short_text(h.shell_name@ + " • "@ + h.term_name@, 22)),
    ensures
        ok_text(ctx_header(p)),
        ok_text(ctx_row1(p, git, c)),
        ok_text(ctx_row2(p, git, c)),
        ok_text(ctx_row3(p, h, c)),
{
    broadcast use lemma_ok_concat, lemma_plain_ok, lemma_code_ok;

    lemma_card_literals();
    lemma_full_literals();
    assert(ok_text("  "@ + p.muted@ + "time"@ + p.reset@));
    lemma_padded_ok("  "@ + p.muted@ + "time"@ + p.reset@, 36);
    assert(ok_text(ctx_header(p)));

    assert(plain(seq!['\u{f017}']));
    assert(plain(seq!['\u{f455}']));
    assert(plain(seq!['\u{f0e7}']));
    assert(plain(seq!['\u{e725}']));
    assert(plain(seq!['\u{f019f}']));
    assert(plain(seq!['\u{276f}']));
    lemma_glyph_head_ok(p, p.dot_mood@, seq!['\u{f017}'], "clock"@);
    lemma_glyph_head_ok(p, p.dot_mood@, seq!['\u{f455}'], "date"@);
    lemma_glyph_head_ok(p, p.gauge_fill@, seq!['\u{f0e7}'], "day"@);
    lemma_glyph_head_ok(p, p.status_clean@, seq!['\u{e725}'], "head"@);
    lemma_glyph_head_ok(p, p.gauge_fill@, seq!['\u{f019f}'], "remote"@);
    lemma_glyph_head_ok(p, p.title_cmd@, seq!['\u{276f}'], "shell"@);
    lemma_paint_ok(c.hm@, c.hm_colors@, p);
    lemma_gauge_ok(c.day_cells as nat, 8, p.gauge_fill@, p.gauge_empty@, p.reset@);
    lemma_decimal_plain(c.day_percent as nat);
    assert(ok_text(clock_cell(p, c)));
    assert(ok_text(date_cell(p, c)));
    assert(ok_text(day_cell(p, c)));
    lemma_primary_ok(p, short_text(branch_info_spec(git), 22));
    lemma_primary_ok(p, short_text(h.shell_name@ + " • "@ + h.term_name@, 22));
    assert(ok_text(head_cell(p, git)));
    assert(ok_text(remote_cell(p, git)));
    assert(ok_text(shell_cell(p, h)));
    lemma_padded_ok(clock_cell(p, c), 36);
    lemma_padded_ok(date_cell(p, c), 36);
    lemma_padded_ok(day_cell(p, c), 36);
}

/// The telemetry rows are well placed.
pub proof fn lemma_telemetry_rows_ok(
    force_count_lines: bool,
    git: &GitState,
    t: &ProjectTelemetry,
    p: &Palette,
    summary: Option<Seq<char>>,
)
    requires
        palette_ok(p),
        t.total_lines != 0 ==> plain(short_text(lang_label(t), 13)),
        !coverage_missing(t) ==> plain(short_text(coverage_raw(t), 19)),
        commit_text(summary) != "—"@ ==> plain(short_text(commit_text(summary), 19)),
    ensures
        ok_text(telem_row1(p, force_count_lines, git, t)),
        ok_text(telem_row2(p, git, t, summary)),
{
    broadcast use lemma_ok_concat, lemma_plain_ok, lemma_code_ok;

    lemma_card_literals();
    lemma_full_literals();
    assert(plain(seq!['\u{f121}']));
    assert(plain(seq!['\u{f410}']));
    assert(plain(seq!['\u{f0c3}']));
    assert(plain(seq!['\u{e729}']));
    lemma_glyph_head_ok(p, p.gauge_fill@, seq!['\u{f121}'], "loc"@);
    lemma_glyph_head_ok(p, p.title_cmd@, seq!['\u{f410}'], "lang"@);
    lemma_glyph_head_ok(p, p.muted@, seq!['\u{f0c3}'], "coverage"@);
    lemma_glyph_head_ok(p, p.gauge_fill@, seq!['\u{f0c3}'], "coverage"@);
    lemma_glyph_head_ok(p, p.muted@, seq!['\u{e729}'], "commit"@);
    lemma_glyph_head_ok(p, p.title_mew@, seq!['\u{e729}'], "commit"@);

    crate::laws::law_loc_cell_width(force_count_lines, git, p, t);
    lemma_padded_ok(loc_text(force_count_lines, git, t), 22);
    lemma_primary_ok(p, loc_value(force_count_lines, git, t));
    assert(ok_text(loc_cell(p, force_count_lines, git, t)));

    if coverage_missing(t) {
        lemma_padded_ok(p.muted@ + "[ untracked ]"@ + p.reset@, 19);
    } else {
        lemma_padded_ok(p.gauge_fill@ + short_text(coverage_raw(t), 19) + p.reset@, 19);
    }
    assert(ok_text(cov_cell(p, t)));

    if t.total_lines == 0 {
        lemma_padded_ok(p.muted@ + "—"@ + p.reset@, 22);
    } else {
        lemma_gauge_ok(lang_parts(t).3, 8, p.gauge_fill@, p.gauge_empty@, p.reset@);
        lemma_padded_ok(
            gauge_spec(lang_parts(t).3, 8, p.gauge_fill@, p.gauge_empty@, p.reset@) + " "@ + p.gauge_fill@
                + short_text(lang_label(t), 13) + p.reset@,
            22,
        );
    }
    assert(ok_text(lang_cell(p, t)));

    let text = commit_text(summary);
    if text == "—"@ {
        let tag = if git.is_repo { "uncommitted"@ } else { "no repo"@ };
        lemma_padded_ok(p.muted@ + "[ "@ + tag + " ]"@ + p.reset@, 19);
    } else {
        lemma_padded_ok(p.primary@ + short_text(text, 19) + p.reset@, 19);
    }
    assert(ok_text(commit_cell(p, git, summary)));
}

// ---------------------------------------------------------------------------
// The full card
// ---------------------------------------------------------------------------

/// The second row of the full card: the git pill in brackets.
pub open spec fn full_git_row(p: &Palette, git: &GitState) -> Seq<char> {
    row_head(p, p.dot_git@, seq!['\u{e725}'], "git"@) + p.primary@ + "[ "@ + git_pill_spec(git, p)
        + p.primary@ + "]"@ + p.reset@
}

/// The third row of the full card: the environment.
pub open spec fn full_env_row(p: &Palette, h: &HostReading) -> Seq<char> {
    row_head(p, p.dot_env@, h.os_icon@, "env"@) + primary_value(p, env_value(h))
}

/// The mascot section of the full card: top border, the mascot beside the
/// workspace, git, environment and palette rows.
pub open spec fn full_mascot_lines(git: &GitState, p: &Palette, h: &HostReading) -> Seq<Seq<char>> {
    let state = mascot_state_spec(git, true);
    let color = accent_of(role_of(state), p);
    let m = mascot_rows_spec(p, color, face_of(state), mood_word_of(state));
    let g = gutter_spec(p);
    let inner = FULL_INNER as nat;
    seq![
        border_body(p, inner + 4, '╭', '╮', Some(("mew"@, p.title_mew@))),
        empty_row(p, inner),
        framed_row(p, inner, m[0] + g + workspace_row(p, h.workspace@)),
        framed_row(p, inner, m[1] + g + full_git_row(p, git)),
        framed_row(p, inner, m[2] + g + full_env_row(p, h)),
        empty_row(p, inner),
        framed_row(p, inner, m[3] + g + dots_spec(p, p.dots@.len())),
        empty_row(p, inner),
    ]
}

/// The system section of the full card.
pub open spec fn full_system_lines(p: &Palette, sys: &SystemTelemetry) -> Seq<Seq<char>> {
    let inner = FULL_INNER as nat;
    seq![
        divider_body(p, inner + 4, "\u{f4bc}"@, "system & health"@, p.title_sys@),
        empty_row(p, inner),
        framed_row(p, inner, sys_line1(p, sys)),
        framed_row(p, inner, sys_line2(p, sys)),
        empty_row(p, inner),
    ]
}

/// The context section of the full card.
pub open spec fn full_context_lines(git: &GitState, p: &Palette, h: &HostReading, c: &ClockReading) -> Seq<Seq<char>> {
    let inner = FULL_INNER as nat;
    seq![
        divider_body(p, inner + 4, "\u{f017}"@, "active context"@, p.title_context@),
        empty_row(p, inner),
        framed_row(p, inner, ctx_header(p)),
        framed_row(p, inner, ctx_row1(p, git, c)),
        framed_row(p, inner, ctx_row2(p, git, c)),
        framed_row(p, inner, ctx_row3(p, h, c)),
        empty_row(p, inner),
    ]
}

/// The telemetry section of the full card, with the bottom border.
pub open spec fn full_telemetry_lines(
    force_count_lines: bool,
    git: &GitState,
    telem: &ProjectTelemetry,
    p: &Palette,
    summary: Option<Seq<char>>,
) -> Seq<Seq<char>> {
    let inner = FULL_INNER as nat;
    seq![
        divider_body(p, inner + 4, "\u{f121}"@, "project telemetry"@, p.title_telem@),
        empty_row(p, inner),
        framed_row(p, inner, telem_row1(p, force_count_lines, git, telem)),
        framed_row(p, inner, telem_row2(p, git, telem, summary)),
        empty_row(p, inner),
        border_body(p, inner + 4, '╰', '╯', None),
    ]
}

/// Every line of the full card, without line breaks.
pub open spec fn full_lines(
    force_count_lines: bool,
    git: &GitState,
    sys: &SystemTelemetry,
    telem: &ProjectTelemetry,
    p: &Palette,
    h: &HostReading,
    c: &ClockReading,
    summary: Option<Seq<char>>,
) -> Seq<Seq<char>> {
    full_mascot_lines(git, p, h) + full_system_lines(p, sys) + full_context_lines(git, p, h, c)
        + full_telemetry_lines(force_count_lines, git, telem, p, summary)
}


/// The mascot section of the full card holds the frame.
pub proof fn lemma_full_mascot_frame(git: &GitState, p: &Palette, h: &HostReading)
    requires
        palette_ok(p),
        plain(h.workspace@),
        plain(h.os_icon@),
        plain(env_value(h)),
        git.is_repo ==> plain(lowercase(git.branch_name@)),
    ensures
        frame_lines(full_mascot_lines(git, p, h), 79),
{
    broadcast use lemma_ok_concat, lemma_plain_ok, lemma_code_ok;

    let lines = full_mascot_lines(git, p, h);
    let state = mascot_state_spec(git, true);
    let color = accent_of(role_of(state), p);
    let m = mascot_rows_spec(p, color, face_of(state), mood_word_of(state));
    let g = gutter_spec(p);
    lemma_card_literals();
    lemma_full_literals();
    lemma_mood_plain(state);
    lemma_mascot_ok(p, color, face_of(state), mood_word_of(state));
    assert(ok_text(m[0]) && ok_text(m[1]) && ok_text(m[2]) && ok_text(m[3]));
    lemma_compact_rows_ok_workspace(p, h.workspace@);
    assert(plain(seq!['\u{e725}']));
    lemma_glyph_head_ok(p, p.dot_git@, seq!['\u{e725}'], "git"@);
    lemma_pill_ok(git, p);
    assert(ok_text(full_git_row(p, git)));
    lemma_glyph_head_ok(p, p.dot_env@, h.os_icon@, "env"@);
    lemma_primary_ok(p, env_value(h));
    assert(ok_text(full_env_row(p, h)));
    crate::theme::lemma_dots_ok(p, p.dots@.len());
    let r1 = m[0] + g + workspace_row(p, h.workspace@);
    let r2 = m[1] + g + full_git_row(p, git);
    let r3 = m[2] + g + full_env_row(p, h);
    let r4 = m[3] + g + dots_spec(p, p.dots@.len());
    assert(ok_text(r1) && ok_text(r2) && ok_text(r3) && ok_text(r4));
    lemma_framed_row(p, 75, r1);
    lemma_framed_row(p, 75, r2);
    lemma_framed_row(p, 75, r3);
    lemma_framed_row(p, 75, r4);
    lemma_border_body(p, 79, '╭', '╮', Some(("mew"@, p.title_mew@)));
    lemma_empty_row(p, 75);
}

/// The system section of the full card holds the frame.
pub proof fn lemma_full_system_frame(p: &Palette, sys: &SystemTelemetry)
    requires
        palette_ok(p),
        (sys.cpu matches Some(m) ==> plain(m.percent@)),
        (sys.ram matches Some(m) ==> plain(m.percent@)),
        (sys.disk matches Some(m) ==> plain(m.percent@)),
        plain(sys.cpu_detail@),
        plain(sys.ram_detail@),
        plain(sys.disk_detail@),
        (sys.uptime matches Some(u) ==> plain(lowercase(u@))),
    ensures
        frame_lines(full_system_lines(p, sys), 79),
{
    lemma_full_literals();
    lemma_system_rows_ok(p, sys);
    lemma_framed_row(p, 75, sys_line1(p, sys));
    lemma_framed_row(p, 75, sys_line2(p, sys));
    lemma_empty_row(p, 75);
    lemma_divider_body(p, 79, "\u{f4bc}"@, "system & health"@, p.title_sys@);
}

/// The context section of the full card holds the frame.
pub proof fn lemma_full_context_frame(git: &GitState, p: &Palette, h: &HostReading, c: &ClockReading)
    requires
        palette_ok(p),
        plain(c.hm@),
        plain(c.date@),
        plain(c.tz@),
        plain(short_text(head_value(git), 22)),
        plain(short_text(branch_info_spec(git), 22)),
        plain(short_text(h.shell_name@ + " • "@ + h.term_name@, 22)),
    ensures
        frame_lines(full_context_lines(git, p, h, c), 79),
{
    lemma_full_literals();
    lemma_context_rows_ok(git, p, h, c);
    lemma_framed_row(p, 75, ctx_header(p));
    lemma_framed_row(p, 75, ctx_row1(p, git, c));
    lemma_framed_row(p, 75, ctx_row2(p, git, c));
    lemma_framed_row(p, 75, ctx_row3(p, h, c));
    lemma_empty_row(p, 75);
    lemma_divider_body(p, 79, "\u{f017}"@, "active context"@, p.title_context@);
}

/// The telemetry section of the full card holds the frame.
pub proof fn lemma_full_telemetry_frame(
    force_count_lines: bool,
    git: &GitState,
    t: &ProjectTelemetry,
    p: &Palette,
    summary: Option<Seq<char>>,
)
    requires
        palette_ok(p),
        t.total_lines != 0 ==> plain(short_text(lang_label(t), 13)),
        !coverage_missing(t) ==> plain(short_text(coverage_raw(t), 19)),
        commit_text(summary) != "—"@ ==> plain(short_text(commit_text(summary), 19)),
    ensures
        frame_lines(full_telemetry_lines(force_count_lines, git, t, p, summary), 79),
{
    lemma_full_literals();
    lemma_telemetry_rows_ok(force_count_lines, git, t, p, summary);
    lemma_framed_row(p, 75, telem_row1(p, force_count_lines, git, t));
    lemma_framed_row(p, 75, telem_row2(p, git, t, summary));
    lemma_empty_row(p, 75);
    lemma_divider_body(p, 79, "\u{f121}"@, "project telemetry"@, p.title_telem@);
    lemma_border_body(p, 79, '╰', '╯', None);
}

/// Appends `line` (given with its line break) and records it.
fn push_full_line(out: &mut String, line: &str, Ghost(done): Ghost<Seq<Seq<char>>>, Ghost(body): Ghost<Seq<char>>)
    requires
        old(out)@ == lines_text(done),
        line@ == body.push('\n'),
    ensures
        final(out)@ == lines_text(done.push(body)),
{
    push_str(out, line);
    proof {
        lemma_lines_push(done, body);
        assert(line@ =~= body + seq!['\n']);
    }
}

/// Appends a framed row and records it.
fn push_framed(
    out: &mut String,
    p: &Palette,
    left: &str,
    right: &str,
    Ghost(done): Ghost<Seq<Seq<char>>>,
)
    requires
        old(out)@ == lines_text(done),
    ensures
        final(out)@ == lines_text(done.push(framed_row(p, FULL_INNER as nat, left@ + right@))),
{
    let l = format_line(p, FULL_INNER, left, right);
    push_line(out, l.as_str());
    proof {
        lemma_lines_push(done, l@);
    }
}

/// Appends an empty row and records it.
fn push_empty(out: &mut String, p: &Palette, Ghost(done): Ghost<Seq<Seq<char>>>)
    requires
        old(out)@ == lines_text(done),
    ensures
        final(out)@ == lines_text(done.push(empty_row(p, FULL_INNER as nat))),
{
    let l = empty_line(p, FULL_INNER);
    push_line(out, l.as_str());
    proof {
        lemma_lines_push(done, l@);
    }
}

fn full_mascot_section(git: &GitState, p: &Palette, host: &HostReading) -> (r: String)
    requires
        counts_fit(git),
    ensures
        r@ == lines_text(full_mascot_lines(git, p, host)),
{
    let ghost lines = full_mascot_lines(git, p, host);
    let state = compute_mascot_state(git, true);
    let visual = mascot_visual_for_state(state);
    let color = mascot_accent(visual.color_role, p);
    let rows = mascot_rows(p, color.as_str(), visual.middle_line, visual.mood_label);
    let ghost m = mascot_rows_spec(p, color@, visual.middle_line@, visual.mood_label@);
    assert(rows@[0]@ == m[0]);
    assert(rows@[1]@ == m[1]);
    assert(rows@[2]@ == m[2]);
    assert(rows@[3]@ == m[3]);
    let mut g = owned(p.border.as_str());
    push_str(&mut g, "│");
    push_str(&mut g, p.reset.as_str());
    push_str(&mut g, "  ");
    assert(g@ =~= gutter_spec(p));

    let row1 = crate::render::workspace_row_string(p, host.workspace.as_str());
    let mut row2 = row_head_string(p, p.dot_git.as_str(), '\u{e725}', "git");
    let pill = format_git_pill(git, p);
    push_str(&mut row2, p.primary.as_str());
    push_str(&mut row2, "[ ");
    push_str(&mut row2, pill.as_str());
    push_str(&mut row2, p.primary.as_str());
    push_str(&mut row2, "]");
    push_str(&mut row2, p.reset.as_str());
    assert(row2@ =~= full_git_row(p, git));
    let mut row3 = owned(p.dot_env.as_str());
    push_str(&mut row3, host.os_icon.as_str());
    push_str(&mut row3, p.reset.as_str());
    push_str(&mut row3, "  ");
    let l = label(p, "env");
    push_str(&mut row3, l.as_str());
    push_str(&mut row3, "  ");
    let env = crate::render::env_string(host);
    push_str(&mut row3, p.primary.as_str());
    push_str(&mut row3, env.as_str());
    push_str(&mut row3, p.reset.as_str());
    assert(row3@ =~= full_env_row(p, host));
    let row4 = p.color_palette_dots();

    let mut out = String::new();
    let ghost mut done: Seq<Seq<char>> = Seq::empty();
    let l = border_line(p, FULL_INNER + 4, '╭', '╮', Some(("mew", p.title_mew.as_str())));
    push_full_line(&mut out, l.as_str(), Ghost(done), Ghost(lines[0]));
    proof { done = done.push(lines[0]); }
    push_empty(&mut out, p, Ghost(done));
    proof { done = done.push(lines[1]); }
    push_framed(&mut out, p, crate::render::cat(rows[0].as_str(), g.as_str()).as_str(), row1.as_str(), Ghost(done));
    proof { done = done.push(lines[2]); }
    push_framed(&mut out, p, crate::render::cat(rows[1].as_str(), g.as_str()).as_str(), row2.as_str(), Ghost(done));
    proof { done = done.push(lines[3]); }
    push_framed(&mut out, p, crate::render::cat(rows[2].as_str(), g.as_str()).as_str(), row3.as_str(), Ghost(done));
    proof { done = done.push(lines[4]); }
    push_empty(&mut out, p, Ghost(done));
    proof { done = done.push(lines[5]); }
    push_framed(&mut out, p, crate::render::cat(rows[3].as_str(), g.as_str()).as_str(), row4.as_str(), Ghost(done));
    proof { done = done.push(lines[6]); }
    push_empty(&mut out, p, Ghost(done));
    proof {
        done = done.push(lines[7]);
        assert(done =~= lines);
    }
    out
}

fn full_system_section(p: &Palette, sys: &SystemTelemetry) -> (r: String)
    ensures
        r@ == lines_text(full_system_lines(p, sys)),
{
    let ghost lines = full_system_lines(p, sys);
    let cpu = meter_cell_string(p, "\u{f4bc}", p.gauge_fill.as_str(), "cpu", &sys.cpu, sys.cpu_detail.as_str());
    let ram = meter_cell_string(p, "\u{e266}", p.status_clean.as_str(), "ram", &sys.ram, sys.ram_detail.as_str());
    let disk = meter_cell_string(p, "\u{f02ca}", p.dot_git.as_str(), "disk", &sys.disk, sys.disk_detail.as_str());
    let up = up_cell_string(p, sys);
    let sys1 = cat3(cpu.as_str(), "   ", ram.as_str());
    let sys2 = cat3(disk.as_str(), "   ", up.as_str());
    proof {
        reveal_strlit("");
        assert(""@ + sys1@ =~= sys1@);
        assert(""@ + sys2@ =~= sys2@);
    }
    let mut out = String::new();
    let ghost mut done: Seq<Seq<char>> = Seq::empty();
    let l = section_divider(p, FULL_INNER + 4, "\u{f4bc}", "system & health", p.title_sys.as_str());
    push_full_line(&mut out, l.as_str(), Ghost(done), Ghost(lines[0]));
    proof { done = done.push(lines[0]); }
    push_empty(&mut out, p, Ghost(done));
    proof { done = done.push(lines[1]); }
    push_framed(&mut out, p, "", sys1.as_str(), Ghost(done));
    proof { done = done.push(lines[2]); }
    push_framed(&mut out, p, "", sys2.as_str(), Ghost(done));
    proof { done = done.push(lines[3]); }
    push_empty(&mut out, p, Ghost(done));
    proof {
        done = done.push(lines[4]);
        assert(done =~= lines);
    }
    out
}

fn full_context_section(git: &GitState, p: &Palette, host: &HostReading, clock: &ClockReading) -> (r: String)
    ensures
        r@ == lines_text(full_context_lines(git, p, host, clock)),
{
    let ghost lines = full_context_lines(git, p, host, clock);
    let header = ctx_header_string(p);
    let (ctx1, ctx2, ctx3) = ctx_rows(p, git, host, clock);
    proof {
        reveal_strlit("");
        assert(""@ + header@ =~= header@);
        assert(""@ + ctx1@ =~= ctx1@);
        assert(""@ + ctx2@ =~= ctx2@);
        assert(""@ + ctx3@ =~= ctx3@);
    }
    let mut out = String::new();
    let ghost mut done: Seq<Seq<char>> = Seq::empty();
    let l = section_divider(p, FULL_INNER + 4, "\u{f017}", "active context", p.title_context.as_str());
    push_full_line(&mut out, l.as_str(), Ghost(done), Ghost(lines[0]));
    proof { done = done.push(lines[0]); }
    push_empty(&mut out, p, Ghost(done));
    proof { done = done.push(lines[1]); }
    push_framed(&mut out, p, "", header.as_str(), Ghost(done));
    proof { done = done.push(lines[2]); }
    push_framed(&mut out, p, "", ctx1.as_str(), Ghost(done));
    proof { done = done.push(lines[3]); }
    push_framed(&mut out, p, "", ctx2.as_str(), Ghost(done));
    proof { done = done.push(lines[4]); }
    push_framed(&mut out, p, "", ctx3.as_str(), Ghost(done));
    proof { done = done.push(lines[5]); }
    push_empty(&mut out, p, Ghost(done));
    proof {
        done = done.push(lines[6]);
        assert(done =~= lines);
    }
    out
}

fn full_telemetry_section(
    force_count_lines: bool,
    git: &GitState,
    telem: &ProjectTelemetry,
    p: &Palette,
    commit_summary: Option<&str>,
) -> (r: String)
    ensures
        r@ == lines_text(full_telemetry_lines(force_count_lines, git, telem, p, crate::env::opt_view(commit_summary))),
{
    let ghost lines = full_telemetry_lines(force_count_lines, git, telem, p, crate::env::opt_view(commit_summary));
    let loc = loc_cell_string(p, force_count_lines, git, telem);
    let cov = cov_cell_string(p, telem);
    let lang = lang_cell_string(p, telem);
    let commit = commit_cell_string(p, git, commit_summary);
    let tel1 = cat3(loc.as_str(), "  ", cov.as_str());
    let tel2 = cat3(lang.as_str(), "  ", commit.as_str());
    proof {
        reveal_strlit("");
        assert(""@ + tel1@ =~= tel1@);
        assert(""@ + tel2@ =~= tel2@);
    }
    let mut out = String::new();
    let ghost mut done: Seq<Seq<char>> = Seq::empty();
    let l = section_divider(p, FULL_INNER + 4, "\u{f121}", "project telemetry", p.title_telem.as_str());
    push_full_line(&mut out, l.as_str(), Ghost(done), Ghost(lines[0]));
    proof { done = done.push(lines[0]); }
    push_empty(&mut out, p, Ghost(done));
    proof { done = done.push(lines[1]); }
    push_framed(&mut out, p, "", tel1.as_str(), Ghost(done));
    proof { done = done.push(lines[2]); }
    push_framed(&mut out, p, "", tel2.as_str(), Ghost(done));
    proof { done = done.push(lines[3]); }
    push_empty(&mut out, p, Ghost(done));
    proof { done = done.push(lines[4]); }
    let l = border_line(p, FULL_INNER + 4, '╰', '╯', None);
    push_full_line(&mut out, l.as_str(), Ghost(done), Ghost(lines[5]));
    proof {
        done = done.push(lines[5]);
        assert(done =~= lines);
    }
    out
}

/// The full card (79 columns): the mascot beside workspace, git and
/// environment rows and the palette swatches, then the system, context and
/// project telemetry sections.
pub fn render_full(
    force_count_lines: bool,
    git: &GitState,
    sys: &SystemTelemetry,
    telem: &ProjectTelemetry,
    palette: &Palette,
    host: &HostReading,
    clock: &ClockReading,
    commit_summary: Option<&str>,
) -> (r: String)
    requires
        counts_fit(git),
    ensures
        r@ == lines_text(
            full_lines(force_count_lines, git, sys, telem, palette, host, clock, crate::env::opt_view(commit_summary)),
        ),
{
    let a = full_mascot_section(git, palette, host);
    let b = full_system_section(palette, sys);
    let c = full_context_section(git, palette, host, clock);
    let d = full_telemetry_section(force_count_lines, git, telem, palette, commit_summary);
    let mut out = a;
    push_str(&mut out, b.as_str());
    push_str(&mut out, c.as_str());
    push_str(&mut out, d.as_str());
    proof {
        let la = full_mascot_lines(git, palette, host);
        let lb = full_system_lines(palette, sys);
        let lc = full_context_lines(git, palette, host, clock);
        let ld = full_telemetry_lines(force_count_lines, git, telem, palette, crate::env::opt_view(commit_summary));
        lemma_lines_concat(la, lb);
        lemma_lines_concat(la + lb, lc);
        lemma_lines_concat(la + lb + lc, ld);
    }
    out
}

/// The full card with its frame and its context and telemetry slots
/// guaranteed: it lowercases the texts the card shows and, when they are
/// all plain and every value fits its slot, returns the card, which is then
/// twenty-six lines of exactly 79 columns each, with the HEAD cell, the
/// line count, the coverage value and the commit value standing whole in
/// their lines; otherwise it returns `None`.
pub fn render_full_framed(
    force_count_lines: bool,
    git: &GitState,
    sys: &SystemTelemetry,
    telem: &ProjectTelemetry,
    palette: &Palette,
    host: &HostReading,
    clock: &ClockReading,
    commit_summary: Option<&str>,
) -> (r: Option<String>)
    requires
        counts_fit(git),
        full_inputs_ok(sys, palette, host, clock),
    ensures
        r is Some <==> full_shown_plain(git, sys, telem, host, crate::env::opt_view(commit_summary))
            && full_slots_fit(git, telem, clock, crate::env::opt_view(commit_summary)),
        r matches Some(s) ==> {
            let summary = crate::env::opt_view(commit_summary);
            let lines = full_lines(force_count_lines, git, sys, telem, palette, host, clock, summary);
            &&& s@ == lines_text(lines)
            &&& lines.len() == 26
            &&& frame_lines(lines, 79)
            &&& crate::text::contains_seq(
                lines[16],
                crate::theme::label_spec(palette, "head"@) + "  "@ + palette.status_clean@ + short_text(head_value(git), 22)
                    + palette.reset@,
            )
            &&& crate::text::contains_seq(lines[22], palette.primary@ + loc_text(force_count_lines, git, telem))
            &&& width(loc_cell(palette, force_count_lines, git, telem)) == 38
            &&& exists|a: Seq<char>| lines[22] == a + padded(crate::laws::cov_value(palette, telem), 19) + crate::frame::row_right(palette)
            &&& crate::text::contains_seq(lines[23], crate::laws::commit_value(palette, git, summary))
        },
{
    if !full_shown_checked(git, sys, telem, host, clock, commit_summary) {
        return None;
    }
    let card = render_full(force_count_lines, git, sys, telem, palette, host, clock, commit_summary);
    proof {
        let summary = crate::env::opt_view(commit_summary);
        crate::laws::law_full_card_frame(force_count_lines, git, sys, telem, palette, host, clock, summary);
        crate::laws::law_full_head_cell(force_count_lines, git, sys, telem, palette, host, clock, summary);
        crate::laws::law_full_loc_cell(force_count_lines, git, sys, telem, palette, host, clock, summary);
        crate::laws::law_full_coverage_slot(force_count_lines, git, sys, telem, palette, host, clock, summary);
        crate::laws::law_full_commit_cell(force_count_lines, git, sys, telem, palette, host, clock, summary);
    }
    Some(card)
}

} // verus!
