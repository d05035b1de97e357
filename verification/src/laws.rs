use vstd::prelude::*;

use crate::dashboard::{
    commit_cell, commit_text, cov_cell, coverage_missing, coverage_raw, lang_cell, lang_label,
    lang_parts, lang_value, lemma_fill_plain, loc_cell, loc_text, loc_value, short_text, telem_row1,
    telem_row2,
    full_context_lines, full_lines, full_mascot_lines, full_ready, full_system_lines,
    full_telemetry_lines, lemma_full_context_frame, lemma_full_mascot_frame,
    lemma_full_system_frame, lemma_full_telemetry_frame,
};
use crate::system::SystemTelemetry;
use crate::telemetry::ProjectTelemetry;
use crate::frame::{lemma_border_body, lemma_empty_row, lemma_frame_concat, lemma_framed_row};
use crate::git::{face_of, mascot_state_spec, mood_word_of, role_of, GitState, MascotState};
use crate::render::{
    compact_lines, compact_ready, gutter_spec, lemma_card_literals, lemma_compact_rows_ok,
    lemma_mascot_ok, lemma_mood_plain, lemma_mood_sizes, mascot_chip, mascot_rows_spec,
    ClockReading, HostReading,
};
use crate::render::{primary_value, row_head};
use crate::text::{
    closed, decimal, lemma_decimal_plain, lemma_concat, lemma_no_esc, lemma_ok_concat, lemma_repeat, lemma_truncated, no_esc,
    no_newline, ok_text, padded, plain, repeat, truncated, width,
};
use crate::theme::{accent_of, fill, is_code, palette_ok, Palette};
use crate::widgets::{gauge_spec, paint_spec, lemma_gauge_closed, lemma_paint_width};
use crate::dashboard::head_value;
use crate::text::contains_seq;
use crate::theme::label_spec;
use crate::dashboard::lemma_full_literals;

verus! {

/// The compact card holds its frame: it is eleven lines, and every line is
/// exactly 72 columns wide with no line break inside, in every mascot
/// state, whatever the row values, as long as the palette only styles and
/// the values are plain text.
pub proof fn law_compact_card_frame(git: &GitState, p: &Palette, h: &HostReading, c: &ClockReading)
    requires
        compact_ready(git, p, h, c),
    ensures
        compact_lines(git, p, h, c).len() == 11,
        forall|i: int|
            0 <= i < 11 ==> width(#[trigger] compact_lines(git, p, h, c)[i]) == 72 && no_newline(
                compact_lines(git, p, h, c)[i],
            ),
{
    broadcast use lemma_ok_concat;

    let lines = compact_lines(git, p, h, c);
    let state = mascot_state_spec(git, true);
    let color = accent_of(role_of(state), p);
    let m = mascot_rows_spec(p, color, face_of(state), mood_word_of(state));
    let g = gutter_spec(p);
    lemma_card_literals();
    lemma_mood_plain(state);
    lemma_mascot_ok(p, color, face_of(state), mood_word_of(state));
    lemma_compact_rows_ok(git, p, h, c);
    assert(ok_text(m[0]) && ok_text(m[1]) && ok_text(m[2]) && ok_text(m[3]));
    lemma_border_body(p, 72, '╭', '╮', Some(("mew"@, p.title_mew@)));
    lemma_border_body(p, 72, '╰', '╯', None);
    lemma_empty_row(p, 68);
    let blank = crate::text::repeat(' ', 14);
    let r1 = m[0] + g + crate::render::workspace_row(p, h.workspace@);
    let r2 = m[1] + g + crate::render::git_or_uptime_row(git, p, h);
    let r3 = m[2] + g + crate::render::env_row(p, h);
    let r4 = m[3] + g + crate::render::time_row(p, c);
    let r5 = blank + g + crate::render::day_row(p, c);
    let r6 = blank + g + crate::theme::dots_spec(p, p.dots@.len());
    assert(ok_text(r1) && ok_text(r2) && ok_text(r3) && ok_text(r4) && ok_text(r5) && ok_text(r6));
    lemma_framed_row(p, 68, r1);
    lemma_framed_row(p, 68, r2);
    lemma_framed_row(p, 68, r3);
    lemma_framed_row(p, 68, r4);
    lemma_framed_row(p, 68, r5);
    lemma_framed_row(p, 68, r6);
}


/// The second row of the compact card is headed by the git glyph and the
/// `git` label inside a repository, and by the clock glyph and the
/// `uptime` label outside one, whatever the row's value: the head sits in
/// the first columns of the row, which the frame never cuts.
#[verifier::spinoff_prover]
pub proof fn law_compact_git_or_uptime_head(git: &GitState, p: &Palette, h: &HostReading, c: &ClockReading)
    requires
        palette_ok(p),
    ensures
        git.is_repo ==> contains_seq(
            compact_lines(git, p, h, c)[3],
            p.dot_git@ + seq!['\u{e725}'] + p.reset@ + "  "@ + label_spec(p, "git"@),
        ),
        !git.is_repo ==> contains_seq(
            compact_lines(git, p, h, c)[3],
            p.title_mew@ + seq!['\u{f017}'] + p.reset@ + "  "@ + label_spec(p, "uptime"@),
        ),
{
    let state = mascot_state_spec(git, true);
    let m = mascot_rows_spec(p, accent_of(role_of(state), p), face_of(state), mood_word_of(state));
    let lead = m[1] + gutter_spec(p);
    lemma_mascot_lead(p, state);
    let (icolor, icon, name) = if git.is_repo {
        (p.dot_git@, '\u{e725}', "git"@)
    } else {
        (p.title_mew@, '\u{f017}', "uptime"@)
    };
    let sub = icolor + seq![icon] + p.reset@ + "  "@ + label_spec(p, name);
    lemma_card_literals();
    reveal_strlit("git");
    reveal_strlit("uptime");
    lemma_head_sub(p, icolor, icon, name);
    lemma_concat(lead, sub);
    let value = if git.is_repo {
        primary_value(p, crate::git::git_pill_spec(git, p))
    } else {
        primary_value(p, crate::render::uptime_value(h))
    };
    let rest = "  "@ + value;
    assert(crate::render::git_or_uptime_row(git, p, h) =~= sub + rest);
    assert(m[1] + gutter_spec(p) + crate::render::git_or_uptime_row(git, p, h) =~= lead + sub + rest);
    crate::frame::lemma_row_contains(p, 68, lead, sub, rest);
}

/// No character of `s` is `c`.
pub open spec fn lacks(s: Seq<char>, c: char) -> bool {
    forall|i: int| 0 <= i < s.len() ==> s[i] != c
}

/// A text made of parts without `c` has no `c`.
proof fn lemma_lacks_concat(a: Seq<char>, b: Seq<char>, c: char)
    requires
        lacks(a, c),
        lacks(b, c),
    ensures
        lacks(a + b, c),
{
    assert forall|i: int| 0 <= i < (a + b).len() implies (a + b)[i] != c by {
        if i < a.len() {
            assert((a + b)[i] == a[i]);
        } else {
            assert((a + b)[i] == b[i - a.len()]);
        }
    }
}

/// Outside a repository the second row of the compact card carries no git
/// glyph, so neither the git head nor the git pill is drawn there, when
/// the glyph occurs neither in the styling it uses nor in the uptime text.
#[verifier::spinoff_prover]
pub proof fn law_compact_uptime_row_has_no_git_glyph(git: &GitState, p: &Palette, h: &HostReading, c: &ClockReading)
    requires
        !git.is_repo,
        lacks(p.border@, '\u{e725}'),
        lacks(p.reset@, '\u{e725}'),
        lacks(p.muted@, '\u{e725}'),
        lacks(p.mascot@, '\u{e725}'),
        lacks(p.title_mew@, '\u{e725}'),
        lacks(p.primary@, '\u{e725}'),
        lacks(crate::render::uptime_value(h), '\u{e725}'),
    ensures
        !contains_seq(compact_lines(git, p, h, c)[3], seq!['\u{e725}']),
        !contains_seq(
            compact_lines(git, p, h, c)[3],
            p.dot_git@ + seq!['\u{e725}'] + p.reset@ + "  "@ + label_spec(p, "git"@),
        ),
{
    let g = '\u{e725}';
    let line = compact_lines(git, p, h, c)[3];
    lemma_row3_lacks(git, p, h, c);
    if contains_seq(line, seq![g]) {
        let (a, b) = choose|a: Seq<char>, b: Seq<char>| line == a + seq![g] + b;
        assert(line[a.len() as int] == g);
    }
    let sub = p.dot_git@ + seq![g] + p.reset@ + "  "@ + label_spec(p, "git"@);
    if contains_seq(line, sub) {
        let (a, b) = choose|a: Seq<char>, b: Seq<char>| line == a + sub + b;
        assert(sub[p.dot_git@.len() as int] == g);
        assert(line[(a.len() + p.dot_git@.len()) as int] == g);
    }
}

/// The second compact row outside a repository has no git glyph.
proof fn lemma_row3_lacks(git: &GitState, p: &Palette, h: &HostReading, c: &ClockReading)
    requires
        !git.is_repo,
        lacks(p.border@, '\u{e725}'),
        lacks(p.reset@, '\u{e725}'),
        lacks(p.muted@, '\u{e725}'),
        lacks(p.mascot@, '\u{e725}'),
        lacks(p.title_mew@, '\u{e725}'),
        lacks(p.primary@, '\u{e725}'),
        lacks(crate::render::uptime_value(h), '\u{e725}'),
    ensures
        lacks(compact_lines(git, p, h, c)[3], '\u{e725}'),
{
    let g = '\u{e725}';
    reveal_strlit("  ");
    reveal_strlit("     ");
    reveal_strlit("( =.= )");
    reveal_strlit("│");
    reveal_strlit("uptime");
    let state = mascot_state_spec(git, true);
    assert(state == MascotState::NoRepo);
    let m1 = crate::render::mascot_face(p, p.muted@, "( =.= )"@);
    assert(mascot_rows_spec(p, accent_of(role_of(state), p), face_of(state), mood_word_of(state))[1] == m1);
    assert(lacks("  "@, g) && lacks("     "@, g) && lacks("( =.= )"@, g) && lacks("│"@, g));
    lemma_lacks_concat("  "@, p.muted@, g);
    lemma_lacks_concat("  "@ + p.muted@, "( =.= )"@, g);
    lemma_lacks_concat("  "@ + p.muted@ + "( =.= )"@, p.reset@, g);
    lemma_lacks_concat("  "@ + p.muted@ + "( =.= )"@ + p.reset@, "     "@, g);
    let gut = gutter_spec(p);
    lemma_lacks_concat(p.border@, "│"@, g);
    lemma_lacks_concat(p.border@ + "│"@, p.reset@, g);
    lemma_lacks_concat(p.border@ + "│"@ + p.reset@, "  "@, g);
    lemma_lacks_concat(m1, gut, g);
    let f = crate::theme::fill("uptime"@, 9);
    assert(lacks(f, g)) by {
        assert forall|i: int| 0 <= i < f.len() implies f[i] != g by {
            if i < 6 {
                assert(f[i] == "uptime"@[i]);
            } else {
                assert(f[i] == ' ');
            }
        }
    }
    let lbl = label_spec(p, "uptime"@);
    lemma_lacks_concat(p.muted@, f, g);
    lemma_lacks_concat(p.muted@ + f, p.reset@, g);
    let ic = seq!['\u{f017}'];
    lemma_lacks_concat(p.title_mew@, ic, g);
    lemma_lacks_concat(p.title_mew@ + ic, p.reset@, g);
    lemma_lacks_concat(p.title_mew@ + ic + p.reset@, "  "@, g);
    lemma_lacks_concat(p.title_mew@ + ic + p.reset@ + "  "@, lbl, g);
    lemma_lacks_concat(p.title_mew@ + ic + p.reset@ + "  "@ + lbl, "  "@, g);
    let head = crate::render::glyph_head(p, p.title_mew@, '\u{f017}', "uptime"@);
    assert(head == p.title_mew@ + ic + p.reset@ + "  "@ + lbl + "  "@);
    let v = crate::render::uptime_value(h);
    lemma_lacks_concat(p.primary@, v, g);
    lemma_lacks_concat(p.primary@ + v, p.reset@, g);
    lemma_lacks_concat(head, primary_value(p, v), g);
    let row = crate::render::git_or_uptime_row(git, p, h);
    assert(row == head + primary_value(p, v));
    let content = m1 + gut + row;
    lemma_lacks_concat(m1 + gut, row, g);
    // the frame around it
    let cut = crate::text::truncated(content, 68);
    crate::text::lemma_truncated(content, 68);
    assert(lacks(cut, g)) by {
        assert forall|i: int| 0 <= i < cut.len() implies cut[i] != g by {
            assert(cut[i] == content.take(cut.len() as int)[i]);
        }
    }
    let pad = (if 68 >= width(cut) { 68 - width(cut) } else { 0 }) as nat;
    assert(lacks(repeat(' ', pad), g));
    lemma_lacks_concat(p.border@, seq!['│'], g);
    lemma_lacks_concat(p.border@ + seq!['│'], p.reset@, g);
    lemma_lacks_concat(p.border@ + seq!['│'] + p.reset@, seq![' '], g);
    lemma_lacks_concat(p.border@ + seq!['│'] + p.reset@ + seq![' '], cut, g);
    lemma_lacks_concat(p.border@ + seq!['│'] + p.reset@ + seq![' '] + cut, repeat(' ', pad), g);
    lemma_lacks_concat(p.border@ + seq!['│'] + p.reset@ + seq![' '] + cut + repeat(' ', pad), seq![' '], g);
    lemma_lacks_concat(p.border@ + seq!['│'] + p.reset@ + seq![' '] + cut + repeat(' ', pad) + seq![' '], p.border@, g);
    lemma_lacks_concat(
        p.border@ + seq!['│'] + p.reset@ + seq![' '] + cut + repeat(' ', pad) + seq![' '] + p.border@,
        seq!['│'],
        g,
    );
    lemma_lacks_concat(
        p.border@ + seq!['│'] + p.reset@ + seq![' '] + cut + repeat(' ', pad) + seq![' '] + p.border@ + seq!['│'],
        p.reset@,
        g,
    );
    assert(compact_lines(git, p, h, c)[3] == crate::frame::framed_row(p, 68, content));
}

/// The second mascot row and the gutter after it take 17 columns.
proof fn lemma_mascot_lead(p: &Palette, state: MascotState)
    requires
        palette_ok(p),
    ensures
        width(mascot_rows_spec(p, accent_of(role_of(state), p), face_of(state), mood_word_of(state))[1] + gutter_spec(p)) == 17,
        closed(mascot_rows_spec(p, accent_of(role_of(state), p), face_of(state), mood_word_of(state))[1] + gutter_spec(p)),
{
    let m = mascot_rows_spec(p, accent_of(role_of(state), p), face_of(state), mood_word_of(state));
    let g = gutter_spec(p);
    lemma_card_literals();
    lemma_mood_plain(state);
    lemma_mascot_ok(p, accent_of(role_of(state), p), face_of(state), mood_word_of(state));
    law_mascot_rows_width(p, state);
    reveal_strlit("  ");
    reveal_strlit("│");
    lemma_plain_len("  "@);
    lemma_plain_len("│"@);
    lemma_concat(p.border@, "│"@);
    lemma_concat(p.border@ + "│"@, p.reset@);
    lemma_concat(p.border@ + "│"@ + p.reset@, "  "@);
    lemma_concat(m[1], g);
}

/// The head of a row up to its label takes 12 columns.
proof fn lemma_head_sub(p: &Palette, color: Seq<char>, icon: char, name: Seq<char>)
    requires
        palette_ok(p),
        is_code(color),
        icon != crate::text::esc(),
        icon != '\n',
        plain(name),
        name.len() <= 9,
    ensures
        width(color + seq![icon] + p.reset@ + "  "@ + label_spec(p, name)) == 12,
        closed(color + seq![icon] + p.reset@ + "  "@ + label_spec(p, name)),
{
    assert(plain(seq![icon]));
    lemma_row_head_width(p, color, seq![icon], name);
}

/// The compact card opens with a top border that carries the `mew` title
/// between `╭` and `╮`, and closes with a plain bottom border: `╰`, 70
/// dashes, `╯`.
pub proof fn law_compact_borders(git: &GitState, p: &Palette, h: &HostReading, c: &ClockReading)
    ensures
        compact_lines(git, p, h, c)[0] == p.border@ + seq!['╭', '─'] + p.reset@ + seq![' '] + p.bold@ + p.title_mew@
            + "mew"@ + p.reset@ + seq![' '] + p.border@ + repeat('─', 64) + seq!['╮'] + p.reset@,
        compact_lines(git, p, h, c)[10] == p.border@ + seq!['╰'] + repeat('─', 70) + seq!['╯'] + p.reset@,
{
    reveal_strlit("mew");
}

/// The full card opens with a top border that carries the `mew` title
/// between `╭` and `╮`, and closes with a plain bottom border: `╰`, 77
/// dashes, `╯`.
#[verifier::rlimit(100)]
pub proof fn law_full_borders(
    force_count_lines: bool,
    git: &GitState,
    sys: &SystemTelemetry,
    telem: &ProjectTelemetry,
    p: &Palette,
    h: &HostReading,
    c: &ClockReading,
    summary: Option<Seq<char>>,
)
    ensures
        full_lines(force_count_lines, git, sys, telem, p, h, c, summary)[0] == p.border@ + seq!['╭', '─'] + p.reset@
            + seq![' '] + p.bold@ + p.title_mew@ + "mew"@ + p.reset@ + seq![' '] + p.border@ + repeat('─', 71)
            + seq!['╮'] + p.reset@,
        full_lines(force_count_lines, git, sys, telem, p, h, c, summary)[25] == p.border@ + seq!['╰'] + repeat('─', 77)
            + seq!['╯'] + p.reset@,
{
    reveal_strlit("mew");
    let a = full_mascot_lines(git, p, h);
    let b = full_system_lines(p, sys);
    let d = full_context_lines(git, p, h, c);
    let e = full_telemetry_lines(force_count_lines, git, telem, p, summary);
    assert(a.len() == 8 && b.len() == 5 && d.len() == 7 && e.len() == 6);
    assert(a[0] == crate::frame::border_body(p, 79, '╭', '╮', Some(("mew"@, p.title_mew@))));
    assert(e[5] == crate::frame::border_body(p, 79, '╰', '╯', None));
}

/// Truncation keeps the longest prefix that fits: the result is a prefix of
/// the text, exactly `max` columns wide when the text is wider, the text
/// itself when it already fits, and it never ends inside an escape
/// sequence it cut.
pub proof fn law_truncate_visible(s: Seq<char>, max: nat)
    ensures
        truncated(s, max).len() <= s.len(),
        truncated(s, max) == s.take(truncated(s, max).len() as int),
        width(truncated(s, max)) == if width(s) <= max { width(s) } else { max },
        width(s) <= max ==> truncated(s, max) == s,
        width(s) > max ==> closed(truncated(s, max)),
{
    lemma_truncated(s, max);
}

/// Padding reaches the target width and never shortens: a text that ends
/// outside any escape is padded to exactly the larger of its width and the
/// target.
pub proof fn law_pad_to_visible(s: Seq<char>, target: nat)
    requires
        closed(s),
    ensures
        width(padded(s, target)) == if width(s) < target { target } else { width(s) },
        s.is_prefix_of(padded(s, target)),
{
    if target > width(s) {
        lemma_repeat(' ', (target - width(s)) as nat);
        lemma_concat(s, repeat(' ', (target - width(s)) as nat));
    }
    assert(s.is_prefix_of(padded(s, target)));
}

/// A painted text is as wide as its text: one column per character, the
/// colour escapes taking none, whatever the colours; plain palettes leave
/// the text as it is.
pub proof fn law_paint_width(text: Seq<char>, colors: Seq<(u8, u8, u8)>, p: &Palette)
    requires
        no_esc(text),
    ensures
        width(paint_spec(text, colors, p)) == text.len(),
        p.is_plain ==> paint_spec(text, colors, p) == text,
{
    if p.is_plain {
        lemma_no_esc(text);
    } else {
        lemma_paint_width(text, colors, text.len());
    }
}

/// A gauge is exactly as wide as its cell count, whatever share is active,
/// when its colours are styling strings.
pub proof fn law_gauge_width(filled: nat, w: nat, active: Seq<char>, track: Seq<char>, reset: Seq<char>)
    requires
        filled <= w,
        is_code(active),
        is_code(track),
        is_code(reset),
    ensures
        width(gauge_spec(filled, w, active, track, reset)) == w,
{
    lemma_repeat('█', filled);
    lemma_repeat('█', (w - filled) as nat);
    let a = active + repeat('█', filled);
    let b = a + track;
    let c = b + repeat('█', (w - filled) as nat);
    lemma_concat(active, repeat('█', filled));
    lemma_concat(a, track);
    lemma_concat(b, repeat('█', (w - filled) as nat));
    lemma_concat(c, reset);
}

proof fn lemma_plain_width(s: Seq<char>)
    requires
        plain(s),
    ensures
        width(s) == s.len(),
        closed(s),
{
    lemma_no_esc(s);
}

/// Every mascot row is exactly the mascot column wide (14), in every mood.
pub proof fn law_mascot_rows_width(p: &Palette, state: MascotState)
    requires
        palette_ok(p),
    ensures
        forall|i: int|
            0 <= i < 4 ==> width(
                #[trigger] mascot_rows_spec(p, accent_of(role_of(state), p), face_of(state), mood_word_of(state))[i],
            ) == 14,
{
    let color = accent_of(role_of(state), p);
    let face = face_of(state);
    let word = mood_word_of(state);
    lemma_card_literals();
    lemma_mood_plain(state);
    lemma_mood_sizes(state);
    reveal_strlit("   ");
    reveal_strlit("/\\_/\\");
    reveal_strlit("      ");
    reveal_strlit("  ");
    reveal_strlit("     ");
    reveal_strlit("> ^ <");
    reveal_strlit("● ");
    lemma_plain_width("   "@);
    lemma_plain_width("/\\_/\\"@);
    lemma_plain_width("      "@);
    lemma_plain_width("  "@);
    lemma_plain_width("     "@);
    lemma_plain_width("> ^ <"@);
    lemma_plain_width("● "@);
    lemma_plain_width(face);
    lemma_plain_width(word);
    // ears and whiskers
    lemma_concat("   "@, p.mascot@);
    lemma_concat("   "@ + p.mascot@, "/\\_/\\"@);
    lemma_concat("   "@ + p.mascot@ + "/\\_/\\"@, p.reset@);
    lemma_concat("   "@ + p.mascot@ + "/\\_/\\"@ + p.reset@, "      "@);
    lemma_concat("   "@ + p.mascot@, "> ^ <"@);
    lemma_concat("   "@ + p.mascot@ + "> ^ <"@, p.reset@);
    lemma_concat("   "@ + p.mascot@ + "> ^ <"@ + p.reset@, "      "@);
    // face
    lemma_concat("  "@, color);
    lemma_concat("  "@ + color, face);
    lemma_concat("  "@ + color + face, p.reset@);
    lemma_concat("  "@ + color + face + p.reset@, "     "@);
    // chip
    lemma_concat("  "@ + color, "● "@);
    lemma_concat("  "@ + color + "● "@, word);
    lemma_concat("  "@ + color + "● "@ + word, p.reset@);
    let chip = mascot_chip(p, color, word);
    assert(width(chip) == 4 + word.len());
    lemma_repeat(' ', (14 - width(chip)) as nat);
    lemma_concat(chip, repeat(' ', (14 - width(chip)) as nat));
}


/// The width of plain text is its length.
proof fn lemma_plain_len(s: Seq<char>)
    requires
        plain(s),
    ensures
        width(s) == s.len(),
        closed(s),
{
    lemma_no_esc(s);
}

/// A row head (icon, two spaces, the nine-column label, two spaces) takes
/// fourteen columns.
proof fn lemma_row_head_width(p: &Palette, color: Seq<char>, icon: Seq<char>, name: Seq<char>)
    requires
        palette_ok(p),
        is_code(color),
        plain(icon),
        icon.len() == 1,
        plain(name),
        name.len() <= 9,
    ensures
        width(row_head(p, color, icon, name)) == 14,
        closed(row_head(p, color, icon, name)),
        width(color + icon + p.reset@ + "  "@ + label_spec(p, name)) == 12,
        closed(color + icon + p.reset@ + "  "@ + label_spec(p, name)),
{
    lemma_card_literals();
    reveal_strlit("  ");
    lemma_plain_len("  "@);
    lemma_plain_len(icon);
    let f = fill(name, 9);
    lemma_fill_plain(name, 9);
    lemma_plain_len(f);
    assert(f.len() == 9);
    let lbl = p.muted@ + f + p.reset@;
    lemma_concat(p.muted@, f);
    lemma_concat(p.muted@ + f, p.reset@);
    let a = color + icon;
    let b = a + p.reset@;
    let c = b + "  "@;
    let d = c + lbl;
    lemma_concat(color, icon);
    lemma_concat(a, p.reset@);
    lemma_concat(b, "  "@);
    lemma_concat(c, lbl);
    lemma_concat(d, "  "@);
    assert(lbl == label_spec(p, name));
}

/// A padded text that fits its slot fills it exactly.
proof fn lemma_slot(s: Seq<char>, n: nat)
    requires
        closed(s),
        width(s) <= n,
    ensures
        width(padded(s, n)) == n,
        closed(padded(s, n)),
{
    if n > width(s) {
        lemma_repeat(' ', (n - width(s)) as nat);
        lemma_concat(s, repeat(' ', (n - width(s)) as nat));
    }
}

/// Styling, a plain value, styling: as wide as the value.
proof fn lemma_styled(a: Seq<char>, v: Seq<char>, b: Seq<char>)
    requires
        is_code(a),
        is_code(b),
        closed(v),
    ensures
        width(a + v + b) == width(v),
        closed(a + v + b),
{
    lemma_concat(a, v);
    lemma_concat(a + v, b);
}

/// The line-count cell always takes exactly its 38 columns (a 16-column
/// head and a 22-column value), for every count: the count is cut into its
/// slot, so no count, however long, pushes the coverage cell aside.
pub proof fn law_loc_cell_width(force_count_lines: bool, git: &GitState, p: &Palette, t: &ProjectTelemetry)
    requires
        palette_ok(p),
    ensures
        width(loc_cell(p, force_count_lines, git, t)) == 38,
        closed(loc_cell(p, force_count_lines, git, t)),
        plain(loc_text(force_count_lines, git, t)),
        loc_text(force_count_lines, git, t).len() <= 22,
{
    lemma_card_literals();
    reveal_strlit("  ");
    reveal_strlit(" lines");
    reveal_strlit("line count unavailable");
    reveal_strlit("loc");
    assert(plain("loc"@));
    lemma_plain_len("  "@);
    assert(plain(seq!['\u{f121}']));
    lemma_decimal_plain(t.total_lines as nat);
    let count = decimal(t.total_lines as nat) + " lines"@;
    assert(plain(" lines"@));
    assert forall|i: int| 0 <= i < count.len() implies count[i] != crate::text::esc() && count[i] != '\n' by {
        if i < decimal(t.total_lines as nat).len() {
            assert(count[i] == decimal(t.total_lines as nat)[i]);
        } else {
            assert(count[i] == " lines"@[i - decimal(t.total_lines as nat).len()]);
        }
    }
    crate::dashboard::lemma_cut_plain(count, 22);
    assert(plain("line count unavailable"@));
    let x = loc_text(force_count_lines, git, t);
    lemma_plain_len(x);
    lemma_slot(x, 22);
    let lv = loc_value(force_count_lines, git, t);
    lemma_styled(p.primary@, lv, p.reset@);
    lemma_row_head_width(p, p.gauge_fill@, seq!['\u{f121}'], "loc"@);
    let lh = "  "@ + row_head(p, p.gauge_fill@, seq!['\u{f121}'], "loc"@);
    lemma_concat("  "@, row_head(p, p.gauge_fill@, seq!['\u{f121}'], "loc"@));
    lemma_concat(lh, primary_value(p, lv));
}

/// The language cell takes its 38 columns when its gauge has at most 8
/// cells and its lowercased label is plain and within its 13.
proof fn lemma_lang_cell_width(p: &Palette, t: &ProjectTelemetry)
    requires
        palette_ok(p),
        lang_parts(t).3 <= 8,
        t.total_lines != 0 ==> plain(short_text(lang_label(t), 13)) && short_text(lang_label(t), 13).len() <= 13,
    ensures
        width(lang_cell(p, t)) == 38,
        closed(lang_cell(p, t)),
{
    lemma_card_literals();
    lemma_full_literals();
    reveal_strlit("  ");
    reveal_strlit(" ");
    reveal_strlit("[ untracked ]");
    reveal_strlit("[ ");
    reveal_strlit(" ]");
    reveal_strlit("uncommitted");
    reveal_strlit("no repo");
    reveal_strlit("—");
    reveal_strlit("lang");
    reveal_strlit("coverage");
    reveal_strlit("commit");
    lemma_plain_len("  "@);
    lemma_plain_len(" "@);
    assert(plain(seq!['\u{f121}']) && plain(seq!['\u{f410}']) && plain(seq!['\u{f0c3}']) && plain(seq!['\u{e729}']));
    // the language cell
    lemma_row_head_width(p, p.title_cmd@, seq!['\u{f410}'], "lang"@);
    let gh = "  "@ + row_head(p, p.title_cmd@, seq!['\u{f410}'], "lang"@);
    lemma_concat("  "@, row_head(p, p.title_cmd@, seq!['\u{f410}'], "lang"@));
    if t.total_lines == 0 {
        lemma_plain_len("—"@);
        lemma_styled(p.muted@, "—"@, p.reset@);
        lemma_slot(p.muted@ + "—"@ + p.reset@, 22);
    } else {
        let g = gauge_spec(lang_parts(t).3, 8, p.gauge_fill@, p.gauge_empty@, p.reset@);
        law_gauge_width(lang_parts(t).3, 8, p.gauge_fill@, p.gauge_empty@, p.reset@);
        lemma_gauge_closed(lang_parts(t).3, 8, p.gauge_fill@, p.gauge_empty@, p.reset@);
        let st = short_text(lang_label(t), 13);
        lemma_plain_len(st);
        lemma_concat(g, " "@);
        lemma_concat(g + " "@, p.gauge_fill@);
        lemma_concat(g + " "@ + p.gauge_fill@, st);
        lemma_concat(g + " "@ + p.gauge_fill@ + st, p.reset@);
        lemma_slot(g + " "@ + p.gauge_fill@ + st + p.reset@, 22);
    }
    lemma_concat(gh, lang_value(p, t));

}

/// The coverage cell takes its 35 columns when its lowercased value is
/// plain and within its 19.
proof fn lemma_cov_cell_width(p: &Palette, t: &ProjectTelemetry)
    requires
        palette_ok(p),
        !coverage_missing(t) ==> plain(short_text(coverage_raw(t), 19)) && short_text(coverage_raw(t), 19).len() <= 19,
    ensures
        width(cov_cell(p, t)) == 35,
        closed(cov_cell(p, t)),
{
    lemma_card_literals();
    lemma_full_literals();
    reveal_strlit("  ");
    reveal_strlit(" ");
    reveal_strlit("[ untracked ]");
    reveal_strlit("[ ");
    reveal_strlit(" ]");
    reveal_strlit("uncommitted");
    reveal_strlit("no repo");
    reveal_strlit("—");
    reveal_strlit("lang");
    reveal_strlit("coverage");
    reveal_strlit("commit");
    lemma_plain_len("  "@);
    lemma_plain_len(" "@);
    assert(plain(seq!['\u{f121}']) && plain(seq!['\u{f410}']) && plain(seq!['\u{f0c3}']) && plain(seq!['\u{e729}']));
    // the coverage cell
    let cicon = if coverage_missing(t) { p.muted@ } else { p.gauge_fill@ };
    lemma_row_head_width(p, cicon, seq!['\u{f0c3}'], "coverage"@);
    let ch = "  "@ + row_head(p, cicon, seq!['\u{f0c3}'], "coverage"@);
    lemma_concat("  "@, row_head(p, cicon, seq!['\u{f0c3}'], "coverage"@));
    if coverage_missing(t) {
        lemma_plain_len("[ untracked ]"@);
        lemma_styled(p.muted@, "[ untracked ]"@, p.reset@);
        lemma_slot(p.muted@ + "[ untracked ]"@ + p.reset@, 19);
    } else {
        let st = short_text(coverage_raw(t), 19);
        lemma_plain_len(st);
        lemma_styled(p.gauge_fill@, st, p.reset@);
        lemma_slot(p.gauge_fill@ + st + p.reset@, 19);
    }
    let cinner = if coverage_missing(t) {
        padded(p.muted@ + "[ untracked ]"@ + p.reset@, 19)
    } else {
        padded(p.gauge_fill@ + short_text(coverage_raw(t), 19) + p.reset@, 19)
    };
    lemma_concat(ch, cinner);
    assert(cov_cell(p, t) == ch + cinner);

}

/// The commit cell takes its 35 columns when its lowercased subject is
/// plain and within its 19.
proof fn lemma_commit_cell_width(p: &Palette, git: &GitState, summary: Option<Seq<char>>)
    requires
        palette_ok(p),
        commit_text(summary) != "—"@ ==> plain(short_text(commit_text(summary), 19)) && short_text(commit_text(summary), 19).len() <= 19,
    ensures
        width(commit_cell(p, git, summary)) == 35,
        closed(commit_cell(p, git, summary)),
{
    lemma_card_literals();
    lemma_full_literals();
    reveal_strlit("  ");
    reveal_strlit(" ");
    reveal_strlit("[ untracked ]");
    reveal_strlit("[ ");
    reveal_strlit(" ]");
    reveal_strlit("uncommitted");
    reveal_strlit("no repo");
    reveal_strlit("—");
    reveal_strlit("lang");
    reveal_strlit("coverage");
    reveal_strlit("commit");
    lemma_plain_len("  "@);
    lemma_plain_len(" "@);
    assert(plain(seq!['\u{f121}']) && plain(seq!['\u{f410}']) && plain(seq!['\u{f0c3}']) && plain(seq!['\u{e729}']));
    // the commit cell
    let text = commit_text(summary);
    let missing = text == "—"@;
    let micon = if missing { p.muted@ } else { p.title_mew@ };
    lemma_row_head_width(p, micon, seq!['\u{e729}'], "commit"@);
    let mh = "  "@ + row_head(p, micon, seq!['\u{e729}'], "commit"@);
    lemma_concat("  "@, row_head(p, micon, seq!['\u{e729}'], "commit"@));
    let tag = if git.is_repo { "uncommitted"@ } else { "no repo"@ };
    let minner = if missing {
        padded(p.muted@ + "[ "@ + tag + " ]"@ + p.reset@, 19)
    } else {
        padded(p.primary@ + short_text(text, 19) + p.reset@, 19)
    };
    if missing {
        lemma_plain_len("[ "@);
        lemma_plain_len(" ]"@);
        lemma_plain_len(tag);
        lemma_concat("[ "@, tag);
        lemma_concat("[ "@ + tag, " ]"@);
        lemma_concat(p.muted@, "[ "@);
        lemma_concat(p.muted@ + "[ "@, tag);
        lemma_concat(p.muted@ + "[ "@ + tag, " ]"@);
        lemma_concat(p.muted@ + "[ "@ + tag + " ]"@, p.reset@);
        lemma_slot(p.muted@ + "[ "@ + tag + " ]"@ + p.reset@, 19);
    } else {
        let st = short_text(text, 19);
        lemma_plain_len(st);
        lemma_styled(p.primary@, st, p.reset@);
        lemma_slot(p.primary@ + st + p.reset@, 19);
    }
    lemma_concat(mh, minner);
    assert(commit_cell(p, git, summary) == mh + minner);

}

/// The telemetry grid adds up: the left cells take 38 columns (a 16-column
/// head and a 22-column value), the gutter 2, the right cells 35 (16 and
/// 19), so both telemetry rows are exactly the 75 inner columns and no
/// value spills over, as long as each value fits its slot: the gauge has
/// at most 8 cells, and the lowercased language, coverage and commit texts
/// are plain and no longer than their cut (the line count always fits, cut
/// into its slot).
pub proof fn law_telemetry_grid(
    force_count_lines: bool,
    git: &GitState,
    t: &ProjectTelemetry,
    p: &Palette,
    summary: Option<Seq<char>>,
)
    requires
        palette_ok(p),
        lang_parts(t).3 <= 8,
        t.total_lines != 0 ==> plain(short_text(lang_label(t), 13)) && short_text(lang_label(t), 13).len() <= 13,
        !coverage_missing(t) ==> plain(short_text(coverage_raw(t), 19)) && short_text(coverage_raw(t), 19).len() <= 19,
        commit_text(summary) != "—"@ ==> plain(short_text(commit_text(summary), 19)) && short_text(commit_text(summary), 19).len() <= 19,
    ensures
        width(loc_cell(p, force_count_lines, git, t)) == 38,
        width(lang_cell(p, t)) == 38,
        width(cov_cell(p, t)) == 35,
        width(commit_cell(p, git, summary)) == 35,
        width(telem_row1(p, force_count_lines, git, t)) == 75,
        width(telem_row2(p, git, t, summary)) == 75,
{
    law_loc_cell_width(force_count_lines, git, p, t);
    lemma_lang_cell_width(p, t);
    lemma_cov_cell_width(p, t);
    lemma_commit_cell_width(p, git, summary);
    lemma_row1_width(force_count_lines, git, t, p);
    lemma_row2_width(git, t, p, summary);
}

/// The line-count cell, the two-column gutter, the coverage cell.
proof fn lemma_row1_width(force_count_lines: bool, git: &GitState, t: &ProjectTelemetry, p: &Palette)
    requires
        closed(loc_cell(p, force_count_lines, git, t)),
    ensures
        width(telem_row1(p, force_count_lines, git, t)) == width(loc_cell(p, force_count_lines, git, t)) + 2
            + width(cov_cell(p, t)),
{
    reveal_strlit("  ");
    lemma_plain_len("  "@);
    lemma_concat(loc_cell(p, force_count_lines, git, t), "  "@);
    lemma_concat(loc_cell(p, force_count_lines, git, t) + "  "@, cov_cell(p, t));
}

/// The language cell, the two-column gutter, the commit cell.
proof fn lemma_row2_width(git: &GitState, t: &ProjectTelemetry, p: &Palette, summary: Option<Seq<char>>)
    requires
        closed(lang_cell(p, t)),
    ensures
        width(telem_row2(p, git, t, summary)) == width(lang_cell(p, t)) + 2 + width(commit_cell(p, git, summary)),
{
    reveal_strlit("  ");
    lemma_plain_len("  "@);
    lemma_concat(lang_cell(p, t), "  "@);
    lemma_concat(lang_cell(p, t) + "  "@, commit_cell(p, git, summary));
}

/// The value shown in the coverage slot: the `[ untracked ]` tag when no
/// report is there, else the lowercased summary cut to 19 characters.
pub open spec fn cov_value(p: &Palette, t: &ProjectTelemetry) -> Seq<char> {
    if coverage_missing(t) {
        p.muted@ + "[ untracked ]"@ + p.reset@
    } else {
        p.gauge_fill@ + short_text(coverage_raw(t), 19) + p.reset@
    }
}

/// The value shown in the commit slot: a muted `[ uncommitted ]` (in a
/// repository) or `[ no repo ]` tag when no subject could be read, else the
/// lowercased subject cut to 19 characters.
pub open spec fn commit_value(p: &Palette, git: &GitState, summary: Option<Seq<char>>) -> Seq<char> {
    if commit_text(summary) == "—"@ {
        p.muted@ + "[ "@ + (if git.is_repo { "uncommitted"@ } else { "no repo"@ }) + " ]"@ + p.reset@
    } else {
        p.primary@ + short_text(commit_text(summary), 19) + p.reset@
    }
}

/// A text is the start of its padding.
proof fn lemma_padded_prefix(s: Seq<char>, n: nat)
    ensures
        padded(s, n) == s + padded(s, n).skip(s.len() as int),
{
    assert(padded(s, n) =~= s + padded(s, n).skip(s.len() as int));
}

/// Where the context and telemetry rows stand in the full card.
#[verifier::rlimit(100)]
proof fn lemma_full_rows(
    force_count_lines: bool,
    git: &GitState,
    sys: &SystemTelemetry,
    t: &ProjectTelemetry,
    p: &Palette,
    h: &HostReading,
    c: &ClockReading,
    summary: Option<Seq<char>>,
)
    ensures
        full_lines(force_count_lines, git, sys, t, p, h, c, summary)[16] == crate::frame::framed_row(
            p,
            75,
            crate::dashboard::ctx_row1(p, git, c),
        ),
        full_lines(force_count_lines, git, sys, t, p, h, c, summary)[22] == crate::frame::framed_row(
            p,
            75,
            telem_row1(p, force_count_lines, git, t),
        ),
        full_lines(force_count_lines, git, sys, t, p, h, c, summary)[23] == crate::frame::framed_row(
            p,
            75,
            telem_row2(p, git, t, summary),
        ),
{
    let a = full_mascot_lines(git, p, h);
    let b = full_system_lines(p, sys);
    let d = full_context_lines(git, p, h, c);
    let e = full_telemetry_lines(force_count_lines, git, t, p, summary);
    assert(a.len() == 8 && b.len() == 5 && d.len() == 7 && e.len() == 6);
    assert(d[3] == crate::frame::framed_row(p, 75, crate::dashboard::ctx_row1(p, git, c)));
    assert(e[2] == crate::frame::framed_row(p, 75, telem_row1(p, force_count_lines, git, t)));
    assert(e[3] == crate::frame::framed_row(p, 75, telem_row2(p, git, t, summary)));
}

/// The clock cell is its 16-column head, then the time, one column per
/// character.
proof fn lemma_clock_cell_width(p: &Palette, c: &ClockReading)
    requires
        palette_ok(p),
        plain(c.hm@),
    ensures
        width(crate::dashboard::clock_cell(p, c)) == 16 + c.hm@.len(),
        closed(crate::dashboard::clock_cell(p, c)),
{
    lemma_card_literals();
    reveal_strlit("  ");
    reveal_strlit("clock");
    lemma_plain_len("  "@);
    assert(plain(seq!['\u{f017}']));
    lemma_row_head_width(p, p.dot_mood@, seq!['\u{f017}'], "clock"@);
    let ch = crate::dashboard::ctx_head(p, p.dot_mood@, '\u{f017}', "clock"@);
    lemma_concat("  "@, row_head(p, p.dot_mood@, seq!['\u{f017}'], "clock"@));
    let paint = paint_spec(c.hm@, c.hm_colors@, p);
    law_paint_width(c.hm@, c.hm_colors@, p);
    crate::widgets::lemma_paint_ok(c.hm@, c.hm_colors@, p);
    lemma_concat(ch, paint);
    lemma_concat(ch + paint, p.reset@);
}

/// The HEAD cell stands whole on the seventeenth line of the full card: the
/// `head` label, then in the clean colour the HEAD value (the hash, or an
/// honest `detached` / `uncommitted` when there is none), lowercased and
/// cut to 22 characters, as long as the clock reading is plain and at most
/// 20 characters and the cut value is plain and at most 22 characters.
#[verifier::spinoff_prover]
#[verifier::rlimit(60)]
pub proof fn law_full_head_cell(
    force_count_lines: bool,
    git: &GitState,
    sys: &SystemTelemetry,
    telem: &ProjectTelemetry,
    p: &Palette,
    h: &HostReading,
    c: &ClockReading,
    summary: Option<Seq<char>>,
)
    requires
        palette_ok(p),
        plain(c.hm@),
        c.hm@.len() <= 20,
        plain(short_text(head_value(git), 22)),
        short_text(head_value(git), 22).len() <= 22,
    ensures
        contains_seq(
            full_lines(force_count_lines, git, sys, telem, p, h, c, summary)[16],
            label_spec(p, "head"@) + "  "@ + p.status_clean@ + short_text(head_value(git), 22) + p.reset@,
        ),
{
    lemma_full_rows(force_count_lines, git, sys, telem, p, h, c, summary);
    lemma_head_row(p, git, c);
    let lead = padded(crate::dashboard::clock_cell(p, c), 36) + "  "@ + p.status_clean@ + seq!['\u{e725}'] + p.reset@ + "  "@;
    let sub = label_spec(p, "head"@) + "  "@ + p.status_clean@ + short_text(head_value(git), 22) + p.reset@;
    assert(lead + sub + Seq::<char>::empty() =~= lead + sub);
    crate::frame::lemma_row_contains(p, 75, lead, sub, Seq::<char>::empty());
}

/// The first context row is the padded clock cell, then the HEAD cell, and
/// fits the frame.
#[verifier::rlimit(40)]
proof fn lemma_head_row(p: &Palette, git: &GitState, c: &ClockReading)
    requires
        palette_ok(p),
        plain(c.hm@),
        c.hm@.len() <= 20,
        plain(short_text(head_value(git), 22)),
        short_text(head_value(git), 22).len() <= 22,
    ensures
        crate::dashboard::ctx_row1(p, git, c) == (padded(crate::dashboard::clock_cell(p, c), 36) + "  "@
            + p.status_clean@ + seq!['\u{e725}'] + p.reset@ + "  "@) + (label_spec(p, "head"@) + "  "@
            + p.status_clean@ + short_text(head_value(git), 22) + p.reset@),
        width(crate::dashboard::ctx_row1(p, git, c)) <= 74,
{
    let clock = crate::dashboard::clock_cell(p, c);
    lemma_clock_cell_width(p, c);
    lemma_slot(clock, 36);
    lemma_card_literals();
    reveal_strlit("  ");
    reveal_strlit("head");
    assert(plain("head"@));
    lemma_plain_len("  "@);
    let v = short_text(head_value(git), 22);
    lemma_plain_len(v);
    lemma_head_sub(p, p.status_clean@, '\u{e725}', "head"@);
    let hs = p.status_clean@ + seq!['\u{e725}'] + p.reset@ + "  "@ + label_spec(p, "head"@);
    lemma_concat(hs, "  "@);
    lemma_concat(hs + "  "@, p.status_clean@);
    lemma_concat(hs + "  "@ + p.status_clean@, v);
    lemma_concat(hs + "  "@ + p.status_clean@ + v, p.reset@);
    lemma_concat(padded(clock, 36), "  "@);
    lemma_concat(padded(clock, 36) + "  "@, hs + "  "@ + p.status_clean@ + v + p.reset@);
    assert(crate::dashboard::ctx_row1(p, git, c) =~= padded(clock, 36) + "  "@ + (hs + "  "@ + p.status_clean@ + v + p.reset@));
}

/// The 23rd line of the full card shows the line count whole, in the
/// primary colour, for every count (cut into its slot when it is longer
/// than 22 characters), and its cell takes exactly 38 columns.
#[verifier::spinoff_prover]
pub proof fn law_full_loc_cell(
    force_count_lines: bool,
    git: &GitState,
    sys: &SystemTelemetry,
    t: &ProjectTelemetry,
    p: &Palette,
    h: &HostReading,
    c: &ClockReading,
    summary: Option<Seq<char>>,
)
    requires
        palette_ok(p),
    ensures
        contains_seq(
            full_lines(force_count_lines, git, sys, t, p, h, c, summary)[22],
            p.primary@ + loc_text(force_count_lines, git, t),
        ),
        width(loc_cell(p, force_count_lines, git, t)) == 38,
{
    lemma_full_rows(force_count_lines, git, sys, t, p, h, c, summary);
    law_loc_cell_width(force_count_lines, git, p, t);
    let (lrh, lsub, lrest) = lemma_loc_parts(p, force_count_lines, git, t);
    crate::frame::lemma_row_contains(p, 75, lrh, lsub, lrest);
}

/// The 23rd line of the full card ends with the coverage value padded to
/// its 19 columns, then the right edge of the frame, whatever the line
/// count, when the lowercased coverage summary is plain and within its 19
/// characters: the coverage value is shown whole in its slot.
#[verifier::spinoff_prover]
pub proof fn law_full_coverage_slot(
    force_count_lines: bool,
    git: &GitState,
    sys: &SystemTelemetry,
    t: &ProjectTelemetry,
    p: &Palette,
    h: &HostReading,
    c: &ClockReading,
    summary: Option<Seq<char>>,
)
    requires
        palette_ok(p),
        !coverage_missing(t) ==> plain(short_text(coverage_raw(t), 19)) && short_text(coverage_raw(t), 19).len() <= 19,
    ensures
        width(loc_cell(p, force_count_lines, git, t)) == 38,
        exists|a: Seq<char>|
            full_lines(force_count_lines, git, sys, t, p, h, c, summary)[22] == a + padded(cov_value(p, t), 19)
                + crate::frame::row_right(p),
{
    lemma_full_rows(force_count_lines, git, sys, t, p, h, c, summary);
    law_loc_cell_width(force_count_lines, git, p, t);
    lemma_cov_cell_width(p, t);
    lemma_row1_width(force_count_lines, git, t, p);
    let clead = lemma_cov_parts(p, force_count_lines, git, t);
    crate::frame::lemma_row_ends(p, 75, clead, padded(cov_value(p, t), 19));
}

/// The 24th line of the full card shows the commit value whole (the
/// lowercased subject cut to 19 characters, or a muted `[ uncommitted ]`
/// or `[ no repo ]` tag when no subject could be read), when the language
/// cell beside it fits its slot (a gauge of at most 8 cells, a plain label
/// within 13) and the cut subject is plain and within its 19.
#[verifier::spinoff_prover]
pub proof fn law_full_commit_cell(
    force_count_lines: bool,
    git: &GitState,
    sys: &SystemTelemetry,
    t: &ProjectTelemetry,
    p: &Palette,
    h: &HostReading,
    c: &ClockReading,
    summary: Option<Seq<char>>,
)
    requires
        palette_ok(p),
        lang_parts(t).3 <= 8,
        t.total_lines != 0 ==> plain(short_text(lang_label(t), 13)) && short_text(lang_label(t), 13).len() <= 13,
        commit_text(summary) != "—"@ ==> plain(short_text(commit_text(summary), 19)) && short_text(commit_text(summary), 19).len() <= 19,
    ensures
        contains_seq(
            full_lines(force_count_lines, git, sys, t, p, h, c, summary)[23],
            commit_value(p, git, summary),
        ),
{
    lemma_full_rows(force_count_lines, git, sys, t, p, h, c, summary);
    law_loc_cell_width(force_count_lines, git, p, t);
    lemma_lang_cell_width(p, t);
    lemma_commit_cell_width(p, git, summary);
    lemma_row2_width(git, t, p, summary);
    let (mlead, crest) = lemma_commit_parts(p, git, t, summary);
    crate::frame::lemma_row_contains(p, 75, mlead, commit_value(p, git, summary), crest);
}

/// The first telemetry row around its line-count value.
proof fn lemma_loc_parts(p: &Palette, force_count_lines: bool, git: &GitState, t: &ProjectTelemetry) -> (r: (
    Seq<char>,
    Seq<char>,
    Seq<char>,
))
    requires
        palette_ok(p),
    ensures
        r.1 == p.primary@ + loc_text(force_count_lines, git, t),
        telem_row1(p, force_count_lines, git, t) == r.0 + r.1 + r.2,
        width(r.0 + r.1) <= 38,
{
    let x = loc_text(force_count_lines, git, t);
    law_loc_cell_width(force_count_lines, git, p, t);
    lemma_plain_len(x);
    lemma_card_literals();
    reveal_strlit("  ");
    reveal_strlit("loc");
    assert(plain("loc"@));
    lemma_plain_len("  "@);
    assert(plain(seq!['\u{f121}']));
    lemma_row_head_width(p, p.gauge_fill@, seq!['\u{f121}'], "loc"@);
    lemma_concat("  "@, row_head(p, p.gauge_fill@, seq!['\u{f121}'], "loc"@));
    lemma_concat("  "@ + row_head(p, p.gauge_fill@, seq!['\u{f121}'], "loc"@), p.primary@);
    lemma_concat("  "@ + row_head(p, p.gauge_fill@, seq!['\u{f121}'], "loc"@) + p.primary@, x);
    assert(("  "@ + row_head(p, p.gauge_fill@, seq!['\u{f121}'], "loc"@)) + (p.primary@ + x) =~= "  "@ + row_head(
        p,
        p.gauge_fill@,
        seq!['\u{f121}'],
        "loc"@,
    ) + p.primary@ + x);
    lemma_padded_prefix(x, 22);
    let lrh = "  "@ + row_head(p, p.gauge_fill@, seq!['\u{f121}'], "loc"@);
    let xrest = padded(x, 22).skip(x.len() as int);
    assert(loc_value(force_count_lines, git, t) == padded(x, 22));
    let lsub = p.primary@ + x;
    let lrest = xrest + p.reset@ + "  "@ + cov_cell(p, t);
    assert(telem_row1(p, force_count_lines, git, t) =~= lrh + lsub + lrest);
    (lrh, lsub, lrest)
}

/// The first telemetry row ends with the padded coverage value.
proof fn lemma_cov_parts(p: &Palette, force_count_lines: bool, git: &GitState, t: &ProjectTelemetry) -> (lead: Seq<char>)
    ensures
        telem_row1(p, force_count_lines, git, t) == lead + padded(cov_value(p, t), 19),
{
    let cicon = if coverage_missing(t) { p.muted@ } else { p.gauge_fill@ };
    let crh = "  "@ + row_head(p, cicon, seq!['\u{f0c3}'], "coverage"@);
    assert(cov_cell(p, t) == crh + padded(cov_value(p, t), 19));
    let clead = loc_cell(p, force_count_lines, git, t) + "  "@ + crh;
    assert(telem_row1(p, force_count_lines, git, t) =~= clead + padded(cov_value(p, t), 19));
    clead
}

/// The second telemetry row around its commit value.
proof fn lemma_commit_parts(p: &Palette, git: &GitState, t: &ProjectTelemetry, summary: Option<Seq<char>>) -> (r: (
    Seq<char>,
    Seq<char>,
))
    ensures
        telem_row2(p, git, t, summary) == r.0 + commit_value(p, git, summary) + r.1,
{
    let cv = commit_value(p, git, summary);
    let micon = if commit_text(summary) == "—"@ { p.muted@ } else { p.title_mew@ };
    let mrh = "  "@ + row_head(p, micon, seq!['\u{e729}'], "commit"@);
    assert(commit_cell(p, git, summary) == mrh + padded(cv, 19));
    lemma_padded_prefix(cv, 19);
    let crest = padded(cv, 19).skip(cv.len() as int);
    let mlead = lang_cell(p, t) + "  "@ + mrh;
    assert(telem_row2(p, git, t, summary) =~= mlead + cv + crest);
    (mlead, crest)
}

/// The full card holds its frame: it is twenty-six lines, and every line
/// is exactly 79 columns wide with no line break inside, in every mascot
/// state and for every telemetry reading, as long as the palette only
/// styles and the values it shows are plain text.
#[verifier::rlimit(60)]
pub proof fn law_full_card_frame(
    force_count_lines: bool,
    git: &GitState,
    sys: &SystemTelemetry,
    telem: &ProjectTelemetry,
    p: &Palette,
    h: &HostReading,
    c: &ClockReading,
    summary: Option<Seq<char>>,
)
    requires
        full_ready(git, sys, telem, p, h, c, summary),
    ensures
        full_lines(force_count_lines, git, sys, telem, p, h, c, summary).len() == 26,
        forall|i: int|
            0 <= i < 26 ==> width(#[trigger] full_lines(force_count_lines, git, sys, telem, p, h, c, summary)[i])
                == 79 && no_newline(full_lines(force_count_lines, git, sys, telem, p, h, c, summary)[i]),
{
    let a = full_mascot_lines(git, p, h);
    let b = full_system_lines(p, sys);
    let d = full_context_lines(git, p, h, c);
    let e = full_telemetry_lines(force_count_lines, git, telem, p, summary);
    lemma_full_mascot_frame(git, p, h);
    lemma_full_system_frame(p, sys);
    lemma_full_context_frame(git, p, h, c);
    lemma_full_telemetry_frame(force_count_lines, git, telem, p, summary);
    lemma_frame_concat(a, b, 79);
    lemma_frame_concat(a + b, d, 79);
    lemma_frame_concat(a + b + d, e, 79);
}

} // verus!
