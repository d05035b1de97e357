use vstd::prelude::*;

pub use crate::dashboard::render_full;
pub use crate::env::{format_env_string, format_workspace_path};
pub use crate::git::{format_branch_info, format_git_pill};
pub use crate::text::{pad_to_visible, truncate_visible, visible_width};
pub use crate::widgets::paint_gradient;

use crate::env::{env_spec, opt_view};
use crate::frame::{
    border_body, border_line, empty_line, empty_row, format_line, frame_lines, framed_row, lemma_lines_push,
    lines_text, push_line,
};
use crate::git::{
    compute_mascot_state, face_of, git_pill_spec, mascot_state_spec,
    mascot_visual_for_state, counts_fit, mood_word_of, role_of, GitState,
};
use crate::text::{
    decimal, esc, first_occurrence, lemma_decimal_plain, lemma_ok_concat, lemma_plain_ok,
    is_plain, lemma_repeat, lowercase, ok_text, owned, padded, plain, push_char,
    push_decimal, push_str, repeat, repeat_char, split_once, split_once_spec, to_lowercase,
};
use crate::theme::{
    accent_of, dots_spec, is_code, label, label_spec, lemma_code_ok, lemma_dots_ok, lemma_label_ok,
    mascot_accent, palette_ok, Palette, LABEL_WIDTH,
};
use crate::widgets::{gauge_spec, paint_spec, lemma_gauge_ok, lemma_paint_ok, render_gauge_cells};
use crate::git::{lemma_pill_ok, MascotState};

verus! {

/// Visible width of every mascot row.
pub const MASCOT_WIDTH: usize = 14;

/// Inner width of the compact card.
pub const COMPACT_INNER: usize = 68;

/// Inner width of the full card.
pub const FULL_INNER: usize = 75;

/// What the local clock read when the card was drawn.
pub struct ClockReading {
    /// Hours and minutes, lowercase (`14:05`).
    pub hm: String,
    /// The gradient colour of each character of `hm`, between the theme's
    /// workspace and title stops.
    pub hm_colors: Vec<(u8, u8, u8)>,
    /// Weekday, month and day, lowercase.
    pub date: String,
    /// The UTC offset, lowercase.
    pub tz: String,
    /// Whole percent of the day elapsed.
    pub day_percent: usize,
    /// Active cells of the eight-cell day gauge.
    pub day_cells: usize,
}

/// What was read from the host when the card was drawn.
pub struct HostReading {
    /// The workspace row value (see `format_workspace_path`).
    pub workspace: String,
    /// The operating system's name.
    pub os_name: String,
    /// The one-column glyph of the operating system.
    pub os_icon: String,
    /// The version of the project language's toolchain, when one answered.
    pub lang_toolchain: Option<String>,
    /// The version of rustc, when it answered.
    pub rustc_version: Option<String>,
    /// The formatted uptime, when it could be read.
    pub uptime: Option<String>,
    /// The login shell's name.
    pub shell_name: String,
    /// The terminal's name.
    pub term_name: String,
}

/// The toolchain the environment row shows: the project language's, else
/// rustc's.
pub open spec fn toolchain_of(h: &HostReading) -> Option<Seq<char>> {
    match h.lang_toolchain {
        Some(v) => Some(v@),
        None => match h.rustc_version {
            Some(v) => Some(v@),
            None => None,
        },
    }
}

/// The environment row value of a host reading.
pub open spec fn env_value(h: &HostReading) -> Seq<char> {
    env_spec(h.os_name@, toolchain_of(h))
}

pub(crate) fn env_string(h: &HostReading) -> (r: String)
    ensures
        r@ == env_value(h),
{
    let lang: Option<&str> = match &h.lang_toolchain {
        Some(v) => Some(v.as_str()),
        None => None,
    };
    let rustc: Option<&str> = match &h.rustc_version {
        Some(v) => Some(v.as_str()),
        None => None,
    };
    format_env_string(h.os_name.as_str(), lang, rustc)
}

// ---------------------------------------------------------------------------
// The mascot
// ---------------------------------------------------------------------------

/// The cat's ears.
pub open spec fn mascot_ears(p: &Palette) -> Seq<char> {
    "   "@ + p.mascot@ + "/\\_/\\"@ + p.reset@ + "      "@
}

/// The cat's face, in the mood's colour.
pub open spec fn mascot_face(p: &Palette, color: Seq<char>, face: Seq<char>) -> Seq<char> {
    "  "@ + color + face + p.reset@ + "     "@
}

/// The cat's whiskers.
pub open spec fn mascot_whiskers(p: &Palette) -> Seq<char> {
    "   "@ + p.mascot@ + "> ^ <"@ + p.reset@ + "      "@
}

/// The status chip under the cat.
pub open spec fn mascot_chip(p: &Palette, color: Seq<char>, word: Seq<char>) -> Seq<char> {
    "  "@ + color + "● "@ + word + p.reset@
}

/// The four mascot rows: ears, face, whiskers, and the chip padded to the
/// mascot column.
pub open spec fn mascot_rows_spec(p: &Palette, color: Seq<char>, face: Seq<char>, word: Seq<char>) -> Seq<Seq<char>> {
    seq![
        mascot_ears(p),
        mascot_face(p, color, face),
        mascot_whiskers(p),
        padded(mascot_chip(p, color, word), MASCOT_WIDTH as nat),
    ]
}

/// Draws the cat and its status chip.
pub fn mascot_rows(p: &Palette, mascot_color: &str, middle: &str, mood_word: &str) -> (r: [String; 4])
    ensures
        r@.len() == 4,
        forall|i: int| 0 <= i < 4 ==> r@[i]@ == #[trigger] mascot_rows_spec(p, mascot_color@, middle@, mood_word@)[i],
{
    let mut chip = owned("  ");
    push_str(&mut chip, mascot_color);
    push_str(&mut chip, "● ");
    push_str(&mut chip, mood_word);
    push_str(&mut chip, p.reset.as_str());

    let mut ears = owned("   ");
    push_str(&mut ears, p.mascot.as_str());
    push_str(&mut ears, "/\\_/\\");
    push_str(&mut ears, p.reset.as_str());
    push_str(&mut ears, "      ");

    let mut face = owned("  ");
    push_str(&mut face, mascot_color);
    push_str(&mut face, middle);
    push_str(&mut face, p.reset.as_str());
    push_str(&mut face, "     ");

    let mut whiskers = owned("   ");
    push_str(&mut whiskers, p.mascot.as_str());
    push_str(&mut whiskers, "> ^ <");
    push_str(&mut whiskers, p.reset.as_str());
    push_str(&mut whiskers, "      ");

    let chip_row = pad_to_visible(chip.as_str(), MASCOT_WIDTH);
    let r = [ears, face, whiskers, chip_row];
    assert(r@[0]@ =~= mascot_ears(p));
    assert(r@[1]@ =~= mascot_face(p, mascot_color@, middle@));
    assert(r@[2]@ =~= mascot_whiskers(p));
    assert(chip@ =~= mascot_chip(p, mascot_color@, mood_word@));
    r
}

/// The separator between the mascot column and the rows.
pub open spec fn gutter_spec(p: &Palette) -> Seq<char> {
    p.border@ + "│"@ + p.reset@ + "  "@
}

fn gutter(p: &Palette) -> (r: String)
    ensures
        r@ == gutter_spec(p),
{
    let mut g = owned(p.border.as_str());
    push_str(&mut g, "│");
    push_str(&mut g, p.reset.as_str());
    push_str(&mut g, "  ");
    g
}

// ---------------------------------------------------------------------------
// The rows of the compact card
// ---------------------------------------------------------------------------

/// `icon_color` + `icon` + reset, two spaces, the label, two spaces.
pub open spec fn row_head(p: &Palette, icon_color: Seq<char>, icon: Seq<char>, name: Seq<char>) -> Seq<char> {
    icon_color + icon + p.reset@ + "  "@ + label_spec(p, name) + "  "@
}

fn push_row_head(out: &mut String, p: &Palette, icon: &str, name: &str)
    ensures
        final(out)@ == old(out)@ + icon@ + p.reset@ + "  "@ + label_spec(p, name@) + "  "@,
{
    push_str(out, icon);
    push_str(out, p.reset.as_str());
    push_str(out, "  ");
    let l = label(p, name);
    push_str(out, l.as_str());
    push_str(out, "  ");
}

/// A row head whose icon is a single glyph.
pub open spec fn glyph_head(p: &Palette, icon_color: Seq<char>, icon: char, name: Seq<char>) -> Seq<char> {
    row_head(p, icon_color, seq![icon], name)
}

fn glyph_head_string(p: &Palette, icon_color: &str, icon: char, name: &str) -> (r: String)
    ensures
        r@ == glyph_head(p, icon_color@, icon, name@),
{
    let mut s = owned(icon_color);
    push_char(&mut s, icon);
    push_str(&mut s, p.reset.as_str());
    push_str(&mut s, "  ");
    let l = label(p, name);
    push_str(&mut s, l.as_str());
    push_str(&mut s, "  ");
    assert(s@ =~= glyph_head(p, icon_color@, icon, name@));
    s
}

/// `primary` + value + reset.
pub open spec fn primary_value(p: &Palette, v: Seq<char>) -> Seq<char> {
    p.primary@ + v + p.reset@
}

/// The workspace row.
pub open spec fn workspace_row(p: &Palette, workspace: Seq<char>) -> Seq<char> {
    p.bold@ + glyph_head(p, p.dot_workspace@, '\u{f07b}', "workspace"@) + primary_value(p, workspace)
}

/// The value of the uptime row: the lowercase uptime, or `—`.
pub open spec fn uptime_value(h: &HostReading) -> Seq<char> {
    match h.uptime {
        Some(u) => lowercase(u@),
        None => lowercase("—"@),
    }
}

/// The second row: the git pill inside a repository, the uptime outside.
pub open spec fn git_or_uptime_row(git: &GitState, p: &Palette, h: &HostReading) -> Seq<char> {
    if git.is_repo {
        glyph_head(p, p.dot_git@, '\u{e725}', "git"@) + primary_value(p, git_pill_spec(git, p))
    } else {
        glyph_head(p, p.title_mew@, '\u{f017}', "uptime"@) + primary_value(p, uptime_value(h))
    }
}

/// The environment value, with the OS part in the environment colour when
/// a toolchain follows it.
pub open spec fn env_colored(p: &Palette, env: Seq<char>) -> Seq<char> {
    match split_once_spec(env, " • "@) {
        Some((os, rest)) => p.dot_env@ + os + p.reset@ + " • "@ + p.primary@ + rest + p.reset@,
        None => p.primary@ + env + p.reset@,
    }
}

/// The environment row.
pub open spec fn env_row(p: &Palette, h: &HostReading) -> Seq<char> {
    row_head(p, p.dot_env@, h.os_icon@, "env"@) + env_colored(p, env_value(h))
}

/// The clock value: the time in a gradient, then the date.
pub open spec fn time_value(p: &Palette, c: &ClockReading) -> Seq<char> {
    paint_spec(c.hm@, c.hm_colors@, p) + p.reset@ + " • "@
        + p.task_active@ + c.date@ + p.reset@
}

/// The time row.
pub open spec fn time_row(p: &Palette, c: &ClockReading) -> Seq<char> {
    glyph_head(p, p.dot_task@, '\u{f017}', "time"@) + time_value(p, c)
}

/// The day progress value: an eight-cell gauge and the whole percent.
pub open spec fn day_value(p: &Palette, c: &ClockReading) -> Seq<char> {
    gauge_spec(c.day_cells as nat, 8, p.gauge_fill@, p.gauge_empty@, p.reset@) + " "@
        + p.gauge_fill@ + decimal(c.day_percent as nat) + "%"@ + p.reset@
}

/// The day row.
pub open spec fn day_row(p: &Palette, c: &ClockReading) -> Seq<char> {
    glyph_head(p, p.dot_mood@, '\u{f0e7}', "day"@) + primary_value(p, day_value(p, c))
}

/// Every line of the compact card, without line breaks.
pub open spec fn compact_lines(git: &GitState, p: &Palette, h: &HostReading, c: &ClockReading) -> Seq<Seq<char>> {
    let state = mascot_state_spec(git, true);
    let color = accent_of(role_of(state), p);
    let m = mascot_rows_spec(p, color, face_of(state), mood_word_of(state));
    let blank = repeat(' ', MASCOT_WIDTH as nat);
    let g = gutter_spec(p);
    let inner = COMPACT_INNER as nat;
    seq![
        border_body(p, inner + 4, '╭', '╮', Some(("mew"@, p.title_mew@))),
        empty_row(p, inner),
        framed_row(p, inner, m[0] + g + workspace_row(p, h.workspace@)),
        framed_row(p, inner, m[1] + g + git_or_uptime_row(git, p, h)),
        framed_row(p, inner, m[2] + g + env_row(p, h)),
        framed_row(p, inner, m[3] + g + time_row(p, c)),
        framed_row(p, inner, blank + g + day_row(p, c)),
        empty_row(p, inner),
        framed_row(p, inner, blank + g + dots_spec(p, p.dots@.len())),
        empty_row(p, inner),
        border_body(p, inner + 4, '╰', '╯', None),
    ]
}

pub(crate) fn workspace_row_string(p: &Palette, workspace: &str) -> (r: String)
    ensures
        r@ == workspace_row(p, workspace@),
{
    let mut s = owned(p.bold.as_str());
    let head = glyph_head_string(p, p.dot_workspace.as_str(), '\u{f07b}', "workspace");
    push_str(&mut s, head.as_str());
    push_str(&mut s, p.primary.as_str());
    push_str(&mut s, workspace);
    push_str(&mut s, p.reset.as_str());
    assert(s@ =~= workspace_row(p, workspace@));
    s
}

fn git_or_uptime_row_string(git: &GitState, p: &Palette, h: &HostReading) -> (r: String)
    requires
        counts_fit(git),
    ensures
        r@ == git_or_uptime_row(git, p, h),
{
    if git.is_repo {
        let mut s = glyph_head_string(p, p.dot_git.as_str(), '\u{e725}', "git");
        let pill = format_git_pill(git, p);
        push_str(&mut s, p.primary.as_str());
        push_str(&mut s, pill.as_str());
        push_str(&mut s, p.reset.as_str());
        assert(s@ =~= git_or_uptime_row(git, p, h));
        s
    } else {
        let mut s = glyph_head_string(p, p.title_mew.as_str(), '\u{f017}', "uptime");
        let up = match &h.uptime {
            Some(u) => to_lowercase(u.as_str()),
            None => to_lowercase("—"),
        };
        push_str(&mut s, p.primary.as_str());
        push_str(&mut s, up.as_str());
        push_str(&mut s, p.reset.as_str());
        assert(s@ =~= git_or_uptime_row(git, p, h));
        s
    }
}

fn env_row_string(p: &Palette, h: &HostReading) -> (r: String)
    ensures
        r@ == env_row(p, h),
{
    let env = env_string(h);
    let mut s = owned(p.dot_env.as_str());
    push_row_head(&mut s, p, h.os_icon.as_str(), "env");
    match split_once(env.as_str(), " • ") {
        Some((os, rest)) => {
            push_str(&mut s, p.dot_env.as_str());
            push_str(&mut s, os.as_str());
            push_str(&mut s, p.reset.as_str());
            push_str(&mut s, " • ");
            push_str(&mut s, p.primary.as_str());
            push_str(&mut s, rest.as_str());
            push_str(&mut s, p.reset.as_str());
        },
        None => {
            push_str(&mut s, p.primary.as_str());
            push_str(&mut s, env.as_str());
            push_str(&mut s, p.reset.as_str());
        },
    }
    assert(s@ =~= env_row(p, h));
    s
}

fn time_value_string(p: &Palette, c: &ClockReading) -> (r: String)
    ensures
        r@ == time_value(p, c),
{
    let mut s = paint_gradient(c.hm.as_str(), &c.hm_colors, p);
    push_str(&mut s, p.reset.as_str());
    push_str(&mut s, " • ");
    push_str(&mut s, p.task_active.as_str());
    push_str(&mut s, c.date.as_str());
    push_str(&mut s, p.reset.as_str());
    s
}

fn time_row_string(p: &Palette, c: &ClockReading) -> (r: String)
    ensures
        r@ == time_row(p, c),
{
    let mut s = glyph_head_string(p, p.dot_task.as_str(), '\u{f017}', "time");
    let t = time_value_string(p, c);
    push_str(&mut s, t.as_str());
    s
}

fn day_value_string(p: &Palette, c: &ClockReading) -> (r: String)
    ensures
        r@ == day_value(p, c),
{
    let mut s = render_gauge_cells(
        c.day_cells,
        8,
        p.gauge_fill.as_str(),
        p.gauge_empty.as_str(),
        p.reset.as_str(),
    );
    push_str(&mut s, " ");
    push_str(&mut s, p.gauge_fill.as_str());
    push_decimal(&mut s, c.day_percent as u64);
    push_str(&mut s, "%");
    push_str(&mut s, p.reset.as_str());
    assert(s@ =~= day_value(p, c));
    s
}

fn day_row_string(p: &Palette, c: &ClockReading) -> (r: String)
    ensures
        r@ == day_row(p, c),
{
    let mut s = glyph_head_string(p, p.dot_mood.as_str(), '\u{f0e7}', "day");
    let d = day_value_string(p, c);
    push_str(&mut s, p.primary.as_str());
    push_str(&mut s, d.as_str());
    push_str(&mut s, p.reset.as_str());
    assert(s@ =~= day_row(p, c));
    s
}


// ---------------------------------------------------------------------------
// The rows are well placed
// ---------------------------------------------------------------------------

/// The fixed texts of the cards are plain.
pub proof fn lemma_card_literals()
    ensures
        plain("   "@),
        plain("/\\_/\\"@),
        plain("      "@),
        plain("  "@),
        plain("     "@),
        plain("> ^ <"@),
        plain("● "@),
        plain("│"@),
        plain(" • "@),
        plain(" "@),
        plain("%"@),
        plain("mew"@),
        "mew"@.len() == 3,
        plain("workspace"@),
        plain("git"@),
        plain("uptime"@),
        plain("env"@),
        plain("time"@),
        plain("day"@),
{
    reveal_strlit("   ");
    reveal_strlit("/\\_/\\");
    reveal_strlit("      ");
    reveal_strlit("  ");
    reveal_strlit("     ");
    reveal_strlit("> ^ <");
    reveal_strlit("● ");
    reveal_strlit("│");
    reveal_strlit(" • ");
    reveal_strlit(" ");
    reveal_strlit("%");
    reveal_strlit("mew");
    reveal_strlit("workspace");
    reveal_strlit("git");
    reveal_strlit("uptime");
    reveal_strlit("env");
    reveal_strlit("time");
    reveal_strlit("day");
}

/// Every mood's face and word are plain.
pub proof fn lemma_mood_plain(state: MascotState)
    ensures
        plain(face_of(state)),
        plain(mood_word_of(state)),
{
    reveal_strlit("( =.= )");
    reveal_strlit("( >_< )");
    reveal_strlit("( o.o )");
    reveal_strlit("( ~_~ )");
    reveal_strlit("( ^.^)~");
    reveal_strlit("( -.~ )");
    reveal_strlit("( -.- )");
    reveal_strlit("no repo");
    reveal_strlit("conflict");
    reveal_strlit("watching");
    reveal_strlit("ready");
    reveal_strlit("ship");
    reveal_strlit("ticking");
    reveal_strlit("all clear");
}

/// Every face is seven characters and every chip word at most ten.
pub proof fn lemma_mood_sizes(state: MascotState)
    ensures
        face_of(state).len() == 7,
        mood_word_of(state).len() <= 10,
{
    reveal_strlit("( =.= )");
    reveal_strlit("( >_< )");
    reveal_strlit("( o.o )");
    reveal_strlit("( ~_~ )");
    reveal_strlit("( ^.^)~");
    reveal_strlit("( -.~ )");
    reveal_strlit("( -.- )");
    reveal_strlit("no repo");
    reveal_strlit("conflict");
    reveal_strlit("watching");
    reveal_strlit("ready");
    reveal_strlit("ship");
    reveal_strlit("ticking");
    reveal_strlit("all clear");
}


/// The mascot rows are well placed.
pub proof fn lemma_mascot_ok(p: &Palette, color: Seq<char>, face: Seq<char>, word: Seq<char>)
    requires
        palette_ok(p),
        is_code(color),
        plain(face),
        plain(word),
    ensures
        forall|i: int| 0 <= i < 4 ==> ok_text(#[trigger] mascot_rows_spec(p, color, face, word)[i]),
        ok_text(gutter_spec(p)),
        ok_text(repeat(' ', MASCOT_WIDTH as nat)),
{
    broadcast use lemma_ok_concat, lemma_plain_ok, lemma_code_ok;

    lemma_card_literals();
    lemma_repeat(' ', MASCOT_WIDTH as nat);
    assert(ok_text(mascot_ears(p)));
    assert(ok_text(mascot_face(p, color, face)));
    assert(ok_text(mascot_whiskers(p)));
    let chip = mascot_chip(p, color, word);
    assert(ok_text(chip));
    if MASCOT_WIDTH as nat > crate::text::width(chip) {
        lemma_repeat(' ', (MASCOT_WIDTH as nat - crate::text::width(chip)) as nat);
    }
    assert(ok_text(padded(chip, MASCOT_WIDTH as nat)));
    assert(ok_text(gutter_spec(p)));
}

/// A row head with a plain name and a one-glyph icon is well placed.
pub proof fn lemma_glyph_head_ok(p: &Palette, color: Seq<char>, icon: Seq<char>, name: Seq<char>)
    requires
        palette_ok(p),
        is_code(color),
        plain(icon),
        plain(name),
    ensures
        ok_text(row_head(p, color, icon, name)),
{
    broadcast use lemma_ok_concat, lemma_plain_ok, lemma_code_ok;

    lemma_card_literals();
    lemma_label_ok(p, name, LABEL_WIDTH as nat);
    assert(ok_text(label_spec(p, name)));
}

/// A value between `primary` and `reset` is well placed when the value is.
pub proof fn lemma_primary_ok(p: &Palette, v: Seq<char>)
    requires
        palette_ok(p),
        ok_text(v),
    ensures
        ok_text(primary_value(p, v)),
{
    broadcast use lemma_ok_concat, lemma_code_ok;

}

/// The parts of a plain text split at a separator are plain.
proof fn lemma_split_plain(s: Seq<char>, pat: Seq<char>)
    requires
        plain(s),
    ensures
        split_once_spec(s, pat) matches Some((a, b)) ==> plain(a) && plain(b),
{
    match first_occurrence(s, pat, 0) {
        Some(i) => {
            lemma_first_occurrence_bounds(s, pat, 0);
            let a = s.take(i);
            let b = s.skip(i + pat.len() as int);
            assert forall|k: int| 0 <= k < a.len() implies a[k] != esc() && a[k] != '\n' by {
                assert(a[k] == s[k]);
            }
            assert forall|k: int| 0 <= k < b.len() implies b[k] != esc() && b[k] != '\n' by {
                assert(b[k] == s[k + i + pat.len()]);
            }
        },
        None => {},
    }
}

/// A first occurrence lies within the text.
proof fn lemma_first_occurrence_bounds(s: Seq<char>, pat: Seq<char>, from: int)
    ensures
        first_occurrence(s, pat, from) matches Some(i) ==> from <= i && 0 <= i && i + pat.len() <= s.len(),
    decreases s.len() + 1 - from,
{
    if from < 0 || from + pat.len() > s.len() {
    } else if crate::text::occurs_at(s, pat, from) {
    } else {
        lemma_first_occurrence_bounds(s, pat, from + 1);
    }
}

/// What the compact card needs of its inputs to hold its frame: styling
/// palette, and plain text (no escapes, no line breaks) for every value
/// it shows.
pub open spec fn compact_ready(git: &GitState, p: &Palette, h: &HostReading, c: &ClockReading) -> bool {
    compact_inputs_ok(p, h, c) && compact_shown_plain(git, h)
}

/// The palette only styles, and the readings the compact card shows as
/// they are hold no escape and no line break.
pub open spec fn compact_inputs_ok(p: &Palette, h: &HostReading, c: &ClockReading) -> bool {
    &&& palette_ok(p)
    &&& plain(h.workspace@)
    &&& plain(h.os_icon@)
    &&& plain(c.hm@)
    &&& plain(c.date@)
}

/// The lowercased texts the compact card shows (the environment, and the
/// branch inside a repository or the uptime outside one) hold no escape
/// and no line break.
pub open spec fn compact_shown_plain(git: &GitState, h: &HostReading) -> bool {
    &&& plain(env_value(h))
    &&& git.is_repo ==> plain(lowercase(git.branch_name@))
    &&& !git.is_repo ==> plain(uptime_value(h))
}

/// Lowercases the texts the compact card shows and tells whether they are
/// all plain.
fn compact_shown_checked(git: &GitState, h: &HostReading) -> (r: bool)
    ensures
        r == compact_shown_plain(git, h),
{
    let env = env_string(h);
    if !is_plain(env.as_str()) {
        return false;
    }
    if git.is_repo {
        let b = to_lowercase(git.branch_name.as_str());
        is_plain(b.as_str())
    } else {
        let u = match &h.uptime {
            Some(u) => to_lowercase(u.as_str()),
            None => to_lowercase("—"),
        };
        is_plain(u.as_str())
    }
}

/// The workspace row is well placed when its value is plain.
pub proof fn lemma_compact_rows_ok_workspace(p: &Palette, workspace: Seq<char>)
    requires
        palette_ok(p),
        plain(workspace),
    ensures
        ok_text(workspace_row(p, workspace)),
{
    broadcast use lemma_ok_concat, lemma_plain_ok, lemma_code_ok;

    lemma_card_literals();
    assert(plain(seq!['\u{f07b}']));
    lemma_glyph_head_ok(p, p.dot_workspace@, seq!['\u{f07b}'], "workspace"@);
    lemma_primary_ok(p, workspace);
}

/// The right-hand parts of the compact rows are well placed.
pub proof fn lemma_compact_rows_ok(git: &GitState, p: &Palette, h: &HostReading, c: &ClockReading)
    requires
        compact_ready(git, p, h, c),
    ensures
        ok_text(workspace_row(p, h.workspace@)),
        ok_text(git_or_uptime_row(git, p, h)),
        ok_text(env_row(p, h)),
        ok_text(time_row(p, c)),
        ok_text(day_row(p, c)),
        ok_text(dots_spec(p, p.dots@.len())),
{
    broadcast use lemma_ok_concat, lemma_plain_ok, lemma_code_ok;

    lemma_card_literals();
    assert(plain(seq!['\u{f07b}']));
    assert(plain(seq!['\u{e725}']));
    assert(plain(seq!['\u{f017}']));
    assert(plain(seq!['\u{f0e7}']));
    lemma_glyph_head_ok(p, p.dot_workspace@, seq!['\u{f07b}'], "workspace"@);
    lemma_primary_ok(p, h.workspace@);
    assert(ok_text(workspace_row(p, h.workspace@)));

    if git.is_repo {
        lemma_glyph_head_ok(p, p.dot_git@, seq!['\u{e725}'], "git"@);
        lemma_pill_ok(git, p);
        lemma_primary_ok(p, git_pill_spec(git, p));
    } else {
        lemma_glyph_head_ok(p, p.title_mew@, seq!['\u{f017}'], "uptime"@);
        lemma_primary_ok(p, uptime_value(h));
    }
    assert(ok_text(git_or_uptime_row(git, p, h)));

    lemma_glyph_head_ok(p, p.dot_env@, h.os_icon@, "env"@);
    lemma_split_plain(env_value(h), " • "@);
    assert(ok_text(env_colored(p, env_value(h))));
    assert(ok_text(env_row(p, h)));

    lemma_glyph_head_ok(p, p.dot_task@, seq!['\u{f017}'], "time"@);
    lemma_paint_ok(c.hm@, c.hm_colors@, p);
    assert(ok_text(time_value(p, c)));
    assert(ok_text(time_row(p, c)));

    lemma_glyph_head_ok(p, p.dot_mood@, seq!['\u{f0e7}'], "day"@);
    lemma_gauge_ok(c.day_cells as nat, 8, p.gauge_fill@, p.gauge_empty@, p.reset@);
    lemma_decimal_plain(c.day_percent as nat);
    assert(ok_text(day_value(p, c)));
    lemma_primary_ok(p, day_value(p, c));
    assert(ok_text(day_row(p, c)));

    lemma_dots_ok(p, p.dots@.len());
}

/// `a` followed by `b`.
pub(crate) fn cat(a: &str, b: &str) -> (r: String)
    ensures
        r@ == a@ + b@,
{
    let mut s = owned(a);
    push_str(&mut s, b);
    s
}

/// The compact card (72 columns): the mascot beside the workspace, git or
/// uptime, environment, time and day rows, then the palette swatches.
pub fn render_compact(git: &GitState, palette: &Palette, host: &HostReading, clock: &ClockReading) -> (r: String)
    requires
        counts_fit(git),
    ensures
        r@ == lines_text(compact_lines(git, palette, host, clock)),
{
    let p = palette;
    let state = compute_mascot_state(git, true);
    let visual = mascot_visual_for_state(state);
    let color = mascot_accent(visual.color_role, p);
    let rows = mascot_rows(p, color.as_str(), visual.middle_line, visual.mood_label);
    let ghost m = mascot_rows_spec(p, color@, visual.middle_line@, visual.mood_label@);
    assert(rows@[0]@ == m[0]);
    assert(rows@[1]@ == m[1]);
    assert(rows@[2]@ == m[2]);
    assert(rows@[3]@ == m[3]);
    let blank = repeat_char(' ', MASCOT_WIDTH);
    let g = gutter(p);
    let inner = COMPACT_INNER;

    let row1 = workspace_row_string(p, host.workspace.as_str());
    let row2 = git_or_uptime_row_string(git, p, host);
    let row3 = env_row_string(p, host);
    let row4 = time_row_string(p, clock);
    let row5 = day_row_string(p, clock);
    let row6 = p.color_palette_dots();

    let ghost lines = compact_lines(git, p, host, clock);
    let mut out = border_line(p, inner + 4, '╭', '╮', Some(("mew", p.title_mew.as_str())));
    let ghost mut done: Seq<Seq<char>> = seq![lines[0]];
    assert(out@ =~= lines_text(done)) by {
        assert(done.drop_last() =~= Seq::<Seq<char>>::empty());
        assert(lines_text(Seq::<Seq<char>>::empty()) == Seq::<char>::empty());
    }

    let empty = empty_line(p, inner);
    push_line(&mut out, empty.as_str());
    proof {
        lemma_lines_push(done, lines[1]);
        done = done.push(lines[1]);
    }

    let l = format_line(p, inner, cat(rows[0].as_str(), g.as_str()).as_str(), row1.as_str());
    push_line(&mut out, l.as_str());
    proof {
        assert(l@ == lines[2]);
        lemma_lines_push(done, lines[2]);
        done = done.push(lines[2]);
    }

    let l = format_line(p, inner, cat(rows[1].as_str(), g.as_str()).as_str(), row2.as_str());
    push_line(&mut out, l.as_str());
    proof {
        assert(l@ == lines[3]);
        lemma_lines_push(done, lines[3]);
        done = done.push(lines[3]);
    }

    let l = format_line(p, inner, cat(rows[2].as_str(), g.as_str()).as_str(), row3.as_str());
    push_line(&mut out, l.as_str());
    proof {
        assert(l@ == lines[4]);
        lemma_lines_push(done, lines[4]);
        done = done.push(lines[4]);
    }

    let l = format_line(p, inner, cat(rows[3].as_str(), g.as_str()).as_str(), row4.as_str());
    push_line(&mut out, l.as_str());
    proof {
        assert(l@ == lines[5]);
        lemma_lines_push(done, lines[5]);
        done = done.push(lines[5]);
    }

    let l = format_line(p, inner, cat(blank.as_str(), g.as_str()).as_str(), row5.as_str());
    push_line(&mut out, l.as_str());
    proof {
        assert(l@ == lines[6]);
        lemma_lines_push(done, lines[6]);
        done = done.push(lines[6]);
    }

    push_line(&mut out, empty.as_str());
    proof {
        lemma_lines_push(done, lines[7]);
        done = done.push(lines[7]);
    }

    let l = format_line(p, inner, cat(blank.as_str(), g.as_str()).as_str(), row6.as_str());
    push_line(&mut out, l.as_str());
    proof {
        assert(l@ == lines[8]);
        lemma_lines_push(done, lines[8]);
        done = done.push(lines[8]);
    }

    push_line(&mut out, empty.as_str());
    proof {
        lemma_lines_push(done, lines[9]);
        done = done.push(lines[9]);
    }

    let bottom = border_line(p, inner + 4, '╰', '╯', None);
    push_str(&mut out, bottom.as_str());
    proof {
        lemma_lines_push(done, lines[10]);
        done = done.push(lines[10]);
        assert(done =~= lines);
    }
    out
}

/// The compact card with its frame guaranteed: it lowercases the texts
/// the card shows and, when they are all plain, returns the card, which is
/// then eleven lines of exactly 72 columns each whose second row carries
/// the git head inside a repository and the uptime head outside one;
/// otherwise it returns `None`.
pub fn render_compact_framed(git: &GitState, palette: &Palette, host: &HostReading, clock: &ClockReading) -> (r: Option<String>)
    requires
        counts_fit(git),
        compact_inputs_ok(palette, host, clock),
    ensures
        r is Some <==> compact_shown_plain(git, host),
        r matches Some(s) ==> {
            &&& s@ == lines_text(compact_lines(git, palette, host, clock))
            &&& compact_lines(git, palette, host, clock).len() == 11
            &&& frame_lines(compact_lines(git, palette, host, clock), 72)
            &&& git.is_repo ==> crate::text::contains_seq(
                compact_lines(git, palette, host, clock)[3],
                palette.dot_git@ + seq!['\u{e725}'] + palette.reset@ + "  "@ + label_spec(palette, "git"@),
            )
            &&& !git.is_repo ==> crate::text::contains_seq(
                compact_lines(git, palette, host, clock)[3],
                palette.title_mew@ + seq!['\u{f017}'] + palette.reset@ + "  "@ + label_spec(palette, "uptime"@),
            )
        },
{
    if !compact_shown_checked(git, host) {
        return None;
    }
    let card = render_compact(git, palette, host, clock);
    proof {
        crate::laws::law_compact_card_frame(git, palette, host, clock);
        crate::laws::law_compact_git_or_uptime_head(git, palette, host, clock);
    }
    Some(card)
}

} // verus!
