use mew::dashboard::truncate_str;
use mew::env::display_workspace_path;
use mew::frame::{border_line, section_divider};
use mew::git::{GitAheadBehind, GitState};
use mew::dashboard::render_full_framed;
use mew::render::{
    format_git_pill, format_workspace_path, mascot_rows, pad_to_visible, paint_gradient, render_compact,
    render_compact_framed, render_full, visible_width, ClockReading, HostReading,
};
use mew::system::{Meter, SystemTelemetry};
use mew::telemetry::{LanguageShare, ProjectTelemetry};
use mew::text::{contains_text, decimal_string, split_once, trim};
use mew::theme::{hex_to_rgb, label, ColorMode, Palette, ThemeConfig};
use mew::widgets::render_gauge_cells;

fn fg(r: u8, g: u8, b: u8) -> String {
    format!("\x1b[38;2;{};{};{}m", r, g, b)
}

fn palette() -> Palette {
    Palette {
        is_plain: false,
        reset: "\x1b[0m".to_string(),
        bold: "\x1b[1m".to_string(),
        border: fg(88, 91, 112),
        muted: fg(108, 112, 134),
        primary: fg(205, 214, 244),
        mascot: fg(245, 194, 231),
        title_mew: fg(203, 166, 247),
        title_cmd: fg(243, 139, 168),
        title_sys: fg(137, 180, 250),
        title_context: fg(148, 226, 213),
        title_telem: fg(250, 179, 135),
        dot_workspace: fg(255, 0, 0),
        dot_git: fg(250, 179, 135),
        dot_env: fg(166, 227, 161),
        dot_task: fg(116, 199, 236),
        dot_mood: fg(249, 226, 175),
        status_clean: fg(166, 227, 161),
        status_dirty: fg(249, 226, 175),
        status_error: fg(243, 139, 168),
        task_active: fg(116, 199, 236),
        gauge_fill: fg(137, 180, 250),
        gauge_empty: fg(69, 71, 90),
        dot_workspace_hex: "#ff0000".to_string(),
        title_mew_hex: "#00ff00".to_string(),
        dots: vec![fg(243, 139, 168), fg(250, 179, 135), fg(249, 226, 175)],
    }
}

fn plain() -> Palette {
    let mut p = palette();
    for f in [
        &mut p.reset,
        &mut p.bold,
        &mut p.border,
        &mut p.muted,
        &mut p.primary,
        &mut p.mascot,
        &mut p.title_mew,
        &mut p.title_cmd,
        &mut p.title_sys,
        &mut p.title_context,
        &mut p.title_telem,
        &mut p.dot_workspace,
        &mut p.dot_git,
        &mut p.dot_env,
        &mut p.dot_task,
        &mut p.dot_mood,
        &mut p.status_clean,
        &mut p.status_dirty,
        &mut p.status_error,
        &mut p.task_active,
        &mut p.gauge_fill,
        &mut p.gauge_empty,
    ] {
        f.clear();
    }
    p.is_plain = true;
    p.dots = vec![String::new(); 3];
    p
}

fn host() -> HostReading {
    HostReading {
        workspace: "~/src/mew".to_string(),
        os_name: "Linux".to_string(),
        os_icon: "\u{f17c}".to_string(),
        lang_toolchain: None,
        rustc_version: Some("rustc 1.80.0".to_string()),
        uptime: Some("3H 12M".to_string()),
        shell_name: "zsh".to_string(),
        term_name: "kitty".to_string(),
    }
}

fn clock() -> ClockReading {
    ClockReading {
        hm: "09:30".to_string(),
        hm_colors: vec![(255, 0, 0), (191, 64, 0), (128, 128, 0), (64, 191, 0), (0, 255, 0)],
        date: "tue feb 03".to_string(),
        tz: "+00:00".to_string(),
        day_percent: 39,
        day_cells: 3,
    }
}

fn repo() -> GitState {
    GitState {
        is_repo: true,
        repo_root: Some("/repo".to_string()),
        branch_name: "Main".to_string(),
        commit_hash: "a1b2c3d".to_string(),
        is_detached: false,
        ahead_behind: GitAheadBehind {
            ahead: 0,
            behind: 0,
            has_upstream: true,
            upstream_name: Some("origin/main".to_string()),
        },
        modified_count: 0,
        staged_count: 0,
        untracked_count: 0,
        conflict_count: 0,
    }
}

#[test]
fn gauge_cells_paint_active_then_track() {
    assert_eq!(render_gauge_cells(3, 10, "", "", ""), "██████████");
    assert_eq!(render_gauge_cells(3, 10, "F", "E", "R"), "F███E███████R");
    assert_eq!(visible_width(&render_gauge_cells(8, 8, "", "", "")), 8);
    assert_eq!(visible_width(&render_gauge_cells(0, 8, "", "", "")), 8);
    let coloured = render_gauge_cells(4, 10, &fg(1, 2, 3), &fg(4, 5, 6), "\x1b[0m");
    assert_eq!(visible_width(&coloured), 10);
}

#[test]
fn pad_reaches_target_and_never_shortens() {
    let s = "\x1b[1mab\x1b[0m";
    let padded = pad_to_visible(s, 5);
    assert_eq!(padded, format!("{}   ", s));
    assert_eq!(visible_width(&padded), 5);
    assert_eq!(pad_to_visible("abcdef", 3), "abcdef");
}

#[test]
fn visible_width_skips_escapes() {
    assert_eq!(visible_width(""), 0);
    assert_eq!(visible_width("\x1b[38;2;1;2;3mabc\x1b[0m"), 3);
    // an escape left open swallows the rest
    assert_eq!(visible_width("ab\x1b[31"), 2);
}

#[test]
fn decimal_strings() {
    assert_eq!(decimal_string(0), "0");
    assert_eq!(decimal_string(7), "7");
    assert_eq!(decimal_string(12345), "12345");
    assert_eq!(decimal_string(u64::MAX), u64::MAX.to_string());
}

#[test]
fn hex_colours_parse_with_white_fallback() {
    assert_eq!(hex_to_rgb("#ff0000"), (255, 0, 0));
    assert_eq!(hex_to_rgb("89dceb"), (0x89, 0xdc, 0xeb));
    assert_eq!(hex_to_rgb("#CBA6F7"), (0xcb, 0xa6, 0xf7));
    assert_eq!(hex_to_rgb("#12345"), (255, 255, 255));
    assert_eq!(hex_to_rgb("#12345g"), (255, 255, 255));
}

#[test]
fn split_trim_and_contains() {
    let (a, b) = split_once("linux • rustc 1.80 • x", " • ").unwrap();
    assert_eq!((a.as_str(), b.as_str()), ("linux", "rustc 1.80 • x"));
    assert!(split_once("linux", " • ").is_none());
    let (a, b) = split_once("abc", "").unwrap();
    assert_eq!((a.as_str(), b.as_str()), ("", "abc"));
    assert_eq!(trim("  84.1% lines \t\n"), "84.1% lines");
    assert_eq!(trim("\u{3000}x\u{a0}"), "x");
    assert_eq!(trim(" \t "), "");
    assert!(contains_text("no coverage report", "no coverage"));
    assert!(!contains_text("84%", "no coverage"));
}

#[test]
fn workspace_paths_are_home_relative_and_lowercase() {
    assert_eq!(
        display_workspace_path("/home/u/src/Mew", Some("/home/u"), false),
        "~/src/mew"
    );
    assert_eq!(
        display_workspace_path("/opt/Tools", Some("/home/u"), false),
        "/opt/tools"
    );
    assert_eq!(display_workspace_path("/opt/Tools", None, false), "/opt/tools");
    assert_eq!(
        display_workspace_path("\\\\?\\C:\\Users\\U\\Code", Some("C:\\Users\\U"), true),
        "~/code"
    );
    assert_eq!(format_workspace_path(None, false), "unknown");
}

#[test]
fn env_string_joins_os_and_toolchain() {
    assert_eq!(
        mew::render::format_env_string("Linux", Some("Node v20"), Some("rustc 1.80.0")),
        "linux • node v20"
    );
    assert_eq!(
        mew::render::format_env_string("Linux", None, Some("rustc 1.80.0")),
        "linux • rustc 1.80.0"
    );
    assert_eq!(mew::render::format_env_string("Linux", None, None), "linux");
}

#[test]
fn branch_and_pill_are_lowercased() {
    let mut git = repo();
    git.is_detached = true;
    git.branch_name = "HEAD@ABC".to_string();
    assert_eq!(
        mew::render::format_branch_info(&git),
        "detached at head (head@abc)"
    );
    let p = plain();
    let mut git = repo();
    git.conflict_count = 2;
    git.modified_count = 1;
    git.untracked_count = 2;
    assert_eq!(
        mew::render::format_git_pill(&git, &p),
        "main • \u{f0e7} 2 conflict • \u{f0e7} 3 modified"
    );
    git.is_repo = false;
    assert_eq!(mew::render::format_git_pill(&git, &p), "no repo");
}

#[test]
fn labels_fill_their_column() {
    let p = plain();
    assert_eq!(label(&p, "git"), "git      ");
    assert_eq!(label(&p, "workspace"), "workspace");
    let t = palette();
    assert_eq!(label(&t, "env"), format!("{}env      {}", t.muted, t.reset));
}

#[test]
fn short_text_cuts_with_dots() {
    assert_eq!(truncate_str("Hello World Long", 8), "hello ..");
    assert_eq!(truncate_str("Short", 8), "short");
    assert_eq!(truncate_str("abc", 1), "..");
}

#[test]
fn frame_pieces_have_the_card_width() {
    let p = palette();
    let top = border_line(&p, 72, '╭', '╮', Some(("mew", &p.title_mew)));
    assert!(top.ends_with('\n'));
    assert_eq!(visible_width(top.trim_end_matches('\n')), 72);
    let bottom = border_line(&p, 79, '╰', '╯', None);
    assert_eq!(visible_width(bottom.trim_end_matches('\n')), 79);
    let div = section_divider(&p, 79, "\u{f4bc}", "system & health", &p.title_sys);
    assert_eq!(visible_width(div.trim_end_matches('\n')), 79);
}

#[test]
fn mascot_rows_fill_the_mascot_column() {
    let p = palette();
    for (face, word) in [("( >_< )", "conflict"), ("( -.- )", "all clear"), ("( =.= )", "no repo")] {
        let rows = mascot_rows(&p, &p.status_error, face, word);
        for row in rows.iter() {
            assert_eq!(visible_width(row), 14);
        }
        assert!(rows[1].contains(face));
        assert!(rows[3].contains(word));
    }
}

#[test]
fn custom_colours_flow_into_the_compact_card() {
    let p = palette();
    let out = render_compact(&repo(), &p, &host(), &clock());
    assert!(out.contains("38;2;255;0;0"));
    // the clock gradient starts at the first stop
    assert!(out.contains("\x1b[38;2;255;0;0m0"));
    assert!(out.contains("main"));
    // the OS and the toolchain are painted apart
    assert!(out.contains(&format!("{}linux{} • {}rustc 1.80.0", p.dot_env, p.reset, p.primary)));
    assert_eq!(out.lines().count(), 11);
}

#[test]
fn plain_cards_hold_the_frame() {
    let p = plain();
    let mut git = repo();
    git.is_repo = false;
    let out = render_compact(&git, &p, &host(), &clock());
    assert!(out.contains("3h 12m"));
    assert!(out.contains("uptime"));
    for line in out.lines() {
        assert_eq!(visible_width(line), 72);
        assert_eq!(line.chars().count(), 72);
    }
    let full = render_full(
        false,
        &git,
        &SystemTelemetry::default(),
        &ProjectTelemetry::default(),
        &p,
        &host(),
        &clock(),
        None,
    );
    assert_eq!(full.lines().count(), 26);
    for line in full.lines() {
        assert_eq!(visible_width(line), 79);
    }
    assert!(full.contains("line count unavailable"));
    assert!(full.contains("[ untracked ]"));
    assert!(full.contains("[ no repo ]"));
}

#[test]
fn full_card_shows_telemetry() {
    let p = palette();
    let mut git = repo();
    git.commit_hash = "  ".to_string();
    git.is_detached = true;
    let sys = SystemTelemetry {
        cpu: Some(Meter { cells: 4, percent: "42%".to_string() }),
        cpu_detail: "3.2ghz".to_string(),
        ram: Some(Meter { cells: 5, percent: "50%".to_string() }),
        ram_detail: "7.9/16gb".to_string(),
        disk: None,
        disk_detail: String::new(),
        uptime: Some("3H 12M".to_string()),
    };
    let telem = ProjectTelemetry {
        total_lines: 12345,
        top_language: Some(LanguageShare {
            name: "rust".to_string(),
            percent_tenths: "87.5".to_string(),
            percent_whole: "88".to_string(),
            cells: 7,
        }),
        coverage_info: "  84.1% lines ".to_string(),
    };
    let out = render_full(true, &git, &sys, &telem, &p, &host(), &clock(), Some("Fix The Frame"));
    assert!(out.contains("42%"));
    assert!(out.contains("3.2ghz"));
    assert!(out.contains("[3h 12m]"));
    assert!(out.contains("stable"));
    assert!(out.contains("12345 lines"));
    assert!(out.contains("87.5% rust"));
    assert!(out.contains("84.1% lines"));
    assert!(out.contains("fix the frame"));
    assert!(out.contains("detached"));
    assert!(out.contains("zsh • kitty"));
    for line in out.lines() {
        assert_eq!(visible_width(line), 79);
    }
}

#[test]
fn language_label_prefers_the_rounded_share_when_long() {
    let p = plain();
    let telem = ProjectTelemetry {
        total_lines: 10,
        top_language: Some(LanguageShare {
            name: "gdscript".to_string(),
            percent_tenths: "100.0".to_string(),
            percent_whole: "100".to_string(),
            cells: 8,
        }),
        coverage_info: "no coverage data".to_string(),
    };
    let out = render_full(
        false,
        &repo(),
        &SystemTelemetry::default(),
        &telem,
        &p,
        &host(),
        &clock(),
        None,
    );
    assert!(out.contains("100% gdscript"));
    assert!(!out.contains("100.0%"));
    assert!(out.contains("[ untracked ]"));
    assert!(out.contains("[ uncommitted ]"));
    let telem = ProjectTelemetry {
        total_lines: 10,
        top_language: None,
        coverage_info: String::new(),
    };
    let out = render_full(
        false,
        &repo(),
        &SystemTelemetry::default(),
        &telem,
        &p,
        &host(),
        &clock(),
        None,
    );
    assert!(out.contains("0.0% —"));
}

fn telemetry() -> (SystemTelemetry, ProjectTelemetry) {
    let sys = SystemTelemetry {
        cpu: Some(Meter { cells: 4, percent: "42%".to_string() }),
        cpu_detail: "3.2ghz".to_string(),
        ram: None,
        ram_detail: String::new(),
        disk: None,
        disk_detail: String::new(),
        uptime: Some("3H 12M".to_string()),
    };
    let telem = ProjectTelemetry {
        total_lines: 12345,
        top_language: Some(LanguageShare {
            name: "rust".to_string(),
            percent_tenths: "87.5".to_string(),
            percent_whole: "88".to_string(),
            cells: 7,
        }),
        coverage_info: "84.1% lines".to_string(),
    };
    (sys, telem)
}

#[test]
fn framed_compact_card_holds_its_rows() {
    let p = palette();
    let out = render_compact_framed(&repo(), &p, &host(), &clock()).expect("plain texts");
    assert_eq!(out, render_compact(&repo(), &p, &host(), &clock()));
    let lines: Vec<&str> = out.lines().collect();
    assert_eq!(lines.len(), 11);
    for line in &lines {
        assert_eq!(visible_width(line), 72);
    }
    let git_head = format!("{}\u{e725}{}  {}", p.dot_git, p.reset, label(&p, "git"));
    assert!(lines[3].contains(&git_head));
    let mut away = repo();
    away.is_repo = false;
    let out = render_compact_framed(&away, &p, &host(), &clock()).expect("plain texts");
    let up_head = format!("{}\u{f017}{}  {}", p.title_mew, p.reset, label(&p, "uptime"));
    assert!(out.lines().nth(3).unwrap().contains(&up_head));
}

#[test]
fn framed_compact_card_refuses_an_escape_in_the_branch() {
    let mut git = repo();
    git.branch_name = "ma\x1b[31min".to_string();
    assert_eq!(render_compact_framed(&git, &palette(), &host(), &clock()), None);
    let mut git = repo();
    git.branch_name = "two\nlines".to_string();
    assert_eq!(render_compact_framed(&git, &palette(), &host(), &clock()), None);
}

#[test]
fn framed_full_card_places_its_cells() {
    let p = palette();
    let (sys, telem) = telemetry();
    let git = repo();
    let out = render_full_framed(false, &git, &sys, &telem, &p, &host(), &clock(), Some("Fix The Frame"))
        .expect("plain texts that fit");
    let lines: Vec<&str> = out.lines().collect();
    assert_eq!(lines.len(), 26);
    for line in &lines {
        assert_eq!(visible_width(line), 79);
    }
    assert!(lines[16].contains(&format!("{}  {}a1b2c3d{}", label(&p, "head"), p.status_clean, p.reset)));
    assert!(lines[22].contains(&format!("{}12345 lines", p.primary)));
    let cov = pad_to_visible(&format!("{}84.1% lines{}", p.gauge_fill, p.reset), 19);
    assert!(lines[22].ends_with(&format!("{} {}│{}", cov, p.border, p.reset)));
    assert!(lines[23].contains(&format!("{}fix the frame{}", p.primary, p.reset)));
    // without a readable subject the commit slot says so
    let out = render_full_framed(false, &git, &sys, &telem, &p, &host(), &clock(), None).unwrap();
    assert!(out.lines().nth(23).unwrap().contains(&format!("{}[ uncommitted ]{}", p.muted, p.reset)));
}

#[test]
fn framed_full_card_refuses_what_does_not_fit() {
    let p = palette();
    let (sys, telem) = telemetry();
    let mut long_clock = clock();
    long_clock.hm = "a clock reading far too long".to_string();
    assert_eq!(render_full_framed(false, &repo(), &sys, &telem, &p, &host(), &long_clock, None), None);
    assert_eq!(
        render_full_framed(false, &repo(), &sys, &telem, &p, &host(), &clock(), Some("bad\x1b[0m")),
        None
    );
}

#[test]
fn long_line_counts_are_cut_into_their_slot() {
    let p = palette();
    let (sys, mut telem) = telemetry();
    telem.total_lines = u64::MAX;
    let out = render_full_framed(true, &repo(), &sys, &telem, &p, &host(), &clock(), None)
        .expect("every count fits its slot");
    let lines: Vec<&str> = out.lines().collect();
    assert!(lines[22].contains(&format!("{}18446744073709551615..{}", p.primary, p.reset)));
    let cov = pad_to_visible(&format!("{}84.1% lines{}", p.gauge_fill, p.reset), 19);
    assert!(lines[22].ends_with(&format!("{} {}│{}", cov, p.border, p.reset)));
    for line in &lines {
        assert_eq!(visible_width(line), 79);
    }
    telem.total_lines = 10_000_000_000_000_000;
    let out = render_full(true, &repo(), &sys, &telem, &p, &host(), &clock(), None);
    let line = out.lines().nth(22).unwrap();
    assert!(line.contains("10000000000000000 li.."));
    assert!(line.ends_with(&format!("{} {}│{}", cov, p.border, p.reset)));
    // a short count stays whole
    telem.total_lines = 12345;
    let out = render_full(true, &repo(), &sys, &telem, &p, &host(), &clock(), None);
    assert!(out.lines().nth(22).unwrap().contains(&format!("{}12345 lines", p.primary)));
}

#[test]
fn uptime_row_carries_no_git_glyph() {
    let p = palette();
    let mut away = repo();
    away.is_repo = false;
    let out = render_compact(&away, &p, &host(), &clock());
    let row = out.lines().nth(3).unwrap();
    assert!(!row.contains('\u{e725}'));
    assert!(!row.contains(&label(&p, "git")));
    assert!(row.contains(&label(&p, "uptime")));
}

#[test]
fn paint_gradient_leaves_uncoloured_characters_plain() {
    let p = palette();
    let out = paint_gradient("abc", &vec![(1, 2, 3)], &p);
    assert_eq!(out, "\x1b[38;2;1;2;3mabc");
    assert_eq!(visible_width(&out), 3);
}

#[test]
fn default_theme_resolves_to_truecolor_or_nothing() {
    let config = ThemeConfig::default();
    let tc = Palette::from_config(&config, ColorMode::Truecolor);
    assert!(!tc.is_plain);
    assert_eq!(tc.border, "\x1b[38;2;88;91;112m");
    assert_eq!(tc.reset, "\x1b[0m");
    assert_eq!(tc.dots.len(), 8);
    assert_eq!(tc.dots[0], "\x1b[38;2;243;139;168m");
    assert_eq!(tc.title_mew_hex, "#cba6f7");
    let plain = Palette::from_config(&config, ColorMode::Plain);
    assert!(plain.is_plain);
    assert_eq!(plain.border, "");
    assert_eq!(plain.reset, "");
    assert_eq!(plain.dots, vec![String::new(); 8]);
}

#[test]
fn pill_outside_a_repository_never_adds_the_counts() {
    let mut git = GitState::default();
    git.modified_count = usize::MAX;
    git.untracked_count = usize::MAX;
    let p = palette();
    assert_eq!(format_git_pill(&git, &p), format!("{}no repo{}", p.muted, p.reset));
}

#[test]
fn cards_open_with_the_title_and_close_with_a_plain_border() {
    let p = palette();
    let out = render_compact(&repo(), &p, &host(), &clock());
    let lines: Vec<&str> = out.lines().collect();
    assert!(out.ends_with('\n'));
    assert!(lines[0].contains('╭') && lines[0].contains("mew") && lines[0].contains('╮'));
    assert_eq!(lines[10], format!("{}╰{}╯{}", p.border, "─".repeat(70), p.reset));
    let (sys, telem) = telemetry();
    let full = render_full(false, &repo(), &sys, &telem, &p, &host(), &clock(), None);
    let lines: Vec<&str> = full.lines().collect();
    assert!(lines[0].contains("mew"));
    assert_eq!(lines[25], format!("{}╰{}╯{}", p.border, "─".repeat(77), p.reset));
}
