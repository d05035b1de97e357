use mew::git::{compute_mascot_state, GitAheadBehind, GitState, MascotState};
use mew::render::{
    format_branch_info, format_git_pill, paint_gradient, render_compact, render_full,
    truncate_visible, visible_width, ClockReading, HostReading,
};
use mew::theme::Palette;

fn fg(r: u8, g: u8, b: u8) -> String {
    format!("\x1b[38;2;{};{};{}m", r, g, b)
}

fn truecolor_palette() -> Palette {
    Palette {
        is_plain: false,
        reset: "\x1b[0m".to_string(),
        bold: "\x1b[1m".to_string(),
        border: fg(0x58, 0x5b, 0x70),
        muted: fg(0x6c, 0x70, 0x86),
        primary: fg(0xcd, 0xd6, 0xf4),
        mascot: fg(0xf5, 0xc2, 0xe7),
        title_mew: fg(0xcb, 0xa6, 0xf7),
        title_cmd: fg(0xf3, 0x8b, 0xa8),
        title_sys: fg(0x89, 0xb4, 0xfa),
        title_context: fg(0x94, 0xe2, 0xd5),
        title_telem: fg(0xfa, 0xb3, 0x87),
        dot_workspace: fg(0x89, 0xdc, 0xeb),
        dot_git: fg(0xfa, 0xb3, 0x87),
        dot_env: fg(0xa6, 0xe3, 0xa1),
        dot_task: fg(0x74, 0xc7, 0xec),
        dot_mood: fg(0xf9, 0xe2, 0xaf),
        status_clean: fg(0xa6, 0xe3, 0xa1),
        status_dirty: fg(0xf9, 0xe2, 0xaf),
        status_error: fg(0xf3, 0x8b, 0xa8),
        task_active: fg(0x74, 0xc7, 0xec),
        gauge_fill: fg(0x89, 0xb4, 0xfa),
        gauge_empty: fg(0x45, 0x47, 0x5a),
        dot_workspace_hex: "#89dceb".to_string(),
        title_mew_hex: "#cba6f7".to_string(),
        dots: vec![
            fg(0xf3, 0x8b, 0xa8),
            fg(0xfa, 0xb3, 0x87),
            fg(0xf9, 0xe2, 0xaf),
            fg(0xa6, 0xe3, 0xa1),
            fg(0x94, 0xe2, 0xd5),
            fg(0x89, 0xdc, 0xeb),
            fg(0x89, 0xb4, 0xfa),
            fg(0xcb, 0xa6, 0xf7),
        ],
    }
}

fn plain_palette() -> Palette {
    let e = String::new;
    Palette {
        is_plain: true,
        reset: e(),
        bold: e(),
        border: e(),
        muted: e(),
        primary: e(),
        mascot: e(),
        title_mew: e(),
        title_cmd: e(),
        title_sys: e(),
        title_context: e(),
        title_telem: e(),
        dot_workspace: e(),
        dot_git: e(),
        dot_env: e(),
        dot_task: e(),
        dot_mood: e(),
        status_clean: e(),
        status_dirty: e(),
        status_error: e(),
        task_active: e(),
        gauge_fill: e(),
        gauge_empty: e(),
        dot_workspace_hex: "#89dceb".to_string(),
        title_mew_hex: "#cba6f7".to_string(),
        dots: vec![e(); 8],
    }
}

fn host() -> HostReading {
    HostReading {
        workspace: "~/src/mew".to_string(),
        os_name: "Linux".to_string(),
        os_icon: "\u{f17c}".to_string(),
        lang_toolchain: Some("rustc 1.80.0".to_string()),
        rustc_version: Some("rustc 1.80.0".to_string()),
        uptime: Some("3h 12m".to_string()),
        shell_name: "zsh".to_string(),
        term_name: "kitty".to_string(),
    }
}

fn clock() -> ClockReading {
    ClockReading {
        hm: "14:05".to_string(),
        hm_colors: vec![(116, 199, 236), (135, 191, 238), (154, 182, 240), (172, 174, 243), (203, 166, 247)],
        date: "mon jan 05".to_string(),
        tz: "+01:00".to_string(),
        day_percent: 58,
        day_cells: 5,
    }
}

#[test]
fn test_mascot_priority_resolution() {
    // 1. Conflict priority: highest
    let mut git = GitState {
        is_repo: true,
        repo_root: Some("/repo".to_string()),
        branch_name: "main".to_string(),
        commit_hash: "a1b2c3d".to_string(),
        is_detached: false,
        ahead_behind: GitAheadBehind {
            ahead: 2,
            behind: 0,
            has_upstream: true,
            upstream_name: Some("origin/main".to_string()),
        },
        modified_count: 3,
        staged_count: 1,
        untracked_count: 2,
        conflict_count: 1,
    };
    assert_eq!(compute_mascot_state(&git, true), MascotState::Conflict);

    // 2. Dirty priority (modified / untracked)
    git.conflict_count = 0;
    assert_eq!(compute_mascot_state(&git, true), MascotState::Dirty);

    // 3. Staged-only priority
    git.modified_count = 0;
    git.untracked_count = 0;
    assert_eq!(compute_mascot_state(&git, true), MascotState::StagedOnly);

    // 4. Ahead-only priority
    git.staged_count = 0;
    assert_eq!(compute_mascot_state(&git, true), MascotState::AheadOnly);

    // 5. Clean with time widget
    git.ahead_behind.ahead = 0;
    assert_eq!(compute_mascot_state(&git, true), MascotState::CleanWithTime);

    // 6. Clean without time widget
    assert_eq!(compute_mascot_state(&git, false), MascotState::CleanNoTime);

    // 7. No repo
    git.is_repo = false;
    assert_eq!(compute_mascot_state(&git, false), MascotState::NoRepo);
}

#[test]
fn test_branch_info_formatting() {
    let mut git = GitState::default();

    // not a repo
    assert_eq!(format_branch_info(&git), "not a git repository");

    git.is_repo = true;
    git.branch_name = "feat/lexer".to_string();

    // no upstream
    assert_eq!(format_branch_info(&git), "no upstream configured");

    // detached head
    git.is_detached = true;
    git.branch_name = "detached@a1b2c3d".to_string();
    assert_eq!(
        format_branch_info(&git),
        "detached at head (detached@a1b2c3d)"
    );

    // clean upstream up to date
    git.is_detached = false;
    git.branch_name = "main".to_string();
    git.ahead_behind = GitAheadBehind {
        ahead: 0,
        behind: 0,
        has_upstream: true,
        upstream_name: Some("origin/main".to_string()),
    };
    assert_eq!(format_branch_info(&git), "up to date with origin/main");

    // ahead only
    git.ahead_behind.ahead = 3;
    assert_eq!(format_branch_info(&git), "3 ahead of origin/main");

    // behind only
    git.ahead_behind.ahead = 0;
    git.ahead_behind.behind = 2;
    assert_eq!(format_branch_info(&git), "2 behind origin/main");

    // ahead and behind
    git.ahead_behind.ahead = 4;
    git.ahead_behind.behind = 1;
    assert_eq!(format_branch_info(&git), "4 ahead, 1 behind origin/main");
}

#[test]
fn test_git_pill_formatting() {
    let palette = truecolor_palette();
    let mut git = GitState {
        is_repo: true,
        repo_root: None,
        branch_name: "main".to_string(),
        commit_hash: "a1b2c3d".to_string(),
        is_detached: false,
        ahead_behind: GitAheadBehind {
            ahead: 0,
            behind: 0,
            has_upstream: false,
            upstream_name: None,
        },
        modified_count: 0,
        staged_count: 0,
        untracked_count: 0,
        conflict_count: 0,
    };

    let pill = format_git_pill(&git, &palette);
    assert!(pill.contains("main"));
    assert!(pill.contains("clean"));

    git.modified_count = 2;
    git.staged_count = 1;
    let pill = format_git_pill(&git, &palette);
    assert!(pill.contains("2 modified"));
    assert!(pill.contains("1 staged"));
}

#[test]
fn paint_gradient_plain_mode_passthrough() {
    let palette = plain_palette();
    let colors = vec![(116, 199, 236), (135, 191, 238), (154, 182, 240), (172, 174, 243), (203, 166, 247)];
    assert_eq!(paint_gradient("14:05", &colors, &palette), "14:05");
}

#[test]
fn paint_gradient_emits_per_char_truecolor() {
    let palette = truecolor_palette();
    let colors = vec![(137, 220, 235), (153, 207, 238), (170, 193, 241), (186, 179, 244), (203, 166, 247)];
    let g = paint_gradient("12:34", &colors, &palette);
    assert_eq!(visible_width(&g), 5);
    assert!(g.contains("\x1b[38;2;"));
    assert!(g.starts_with("\x1b[38;2;137;220;235m1\x1b[38;2;153;207;238m2"));
    assert!(g.ends_with("\x1b[38;2;203;166;247m4"));
}

#[test]
fn test_truncate_visible_caps_width_and_keeps_ansi_intact() {
    // plain text cuts at exactly max
    assert_eq!(truncate_visible("hello world", 5), "hello");
    assert_eq!(visible_width(&truncate_visible("hello world", 5)), 5);
    // short text passes through untouched
    assert_eq!(truncate_visible("hi", 5), "hi");
    // ansi escapes ride along without counting toward width
    let colored = "\x1b[38;2;137;180;250mhi\x1b[0m there";
    let cut = truncate_visible(colored, 5);
    assert_eq!(visible_width(&cut), 5);
    assert!(cut.contains("\x1b[38;2;137;180;250m"));
}

fn reaction_git_state() -> GitState {
    GitState {
        is_repo: true,
        repo_root: Some("/repo".to_string()),
        branch_name: "main".to_string(),
        commit_hash: "a1b2c3d".to_string(),
        is_detached: false,
        ahead_behind: GitAheadBehind {
            ahead: 0,
            behind: 0,
            has_upstream: false,
            upstream_name: None,
        },
        modified_count: 0,
        staged_count: 0,
        untracked_count: 0,
        conflict_count: 0,
    }
}

// every mascot state must paint its own face + chip word and hold the
// frame: 72 cols in tiny mode, 79 in full mode. no shared fallbacks.
#[test]
fn test_all_mascot_reactions_render() {
    let palette = truecolor_palette();
    let sys = mew::system::SystemTelemetry::default();
    let telem = mew::telemetry::ProjectTelemetry::default();
    let host = host();
    let clock = clock();

    let mut conflict = reaction_git_state();
    conflict.conflict_count = 1;
    let mut dirty = reaction_git_state();
    dirty.modified_count = 2;
    let mut staged = reaction_git_state();
    staged.staged_count = 1;
    let mut ahead = reaction_git_state();
    ahead.ahead_behind = GitAheadBehind {
        ahead: 3,
        behind: 0,
        has_upstream: true,
        upstream_name: Some("origin/main".to_string()),
    };
    let clean = reaction_git_state();
    let mut norepo = reaction_git_state();
    norepo.is_repo = false;

    // (git state, expected chip word, expected face). note: the renderers
    // always pass has_time_widget=true, so CleanNoTime is covered by the
    // priority unit test above, not here.
    let cases: Vec<(GitState, &str, &str)> = vec![
        (conflict, "conflict", "( >_< )"),
        (dirty, "watching", "( o.o )"),
        (staged, "ready", "( ~_~ )"),
        (ahead, "ship", "( ^.^)~"),
        (clean, "ticking", "( -.~ )"),
        (norepo, "no repo", "( =.= )"),
    ];

    for (git, word, face) in &cases {
        // tiny mode: word + face present, every line exactly 72
        let tiny = render_compact(git, &palette, &host, &clock);
        assert!(
            tiny.contains(word),
            "tiny mode missing chip word '{}'",
            word
        );
        assert!(tiny.contains(face), "tiny mode missing face '{}'", face);
        for line in tiny.lines() {
            assert_eq!(
                mew::render::visible_width(line),
                72,
                "tiny mode line off width in '{}' state",
                word
            );
        }

        // full mode drives the same face from the same state
        let full = render_full(true, git, &sys, &telem, &palette, &host, &clock, None);
        assert!(
            full.contains(word),
            "full mode missing chip word '{}'",
            word
        );
        assert!(full.contains(face), "full mode missing face '{}'", face);
        for line in full.lines() {
            assert_eq!(
                mew::render::visible_width(line),
                79,
                "full mode line off width in '{}' state",
                word
            );
        }
    }
}

#[test]
fn test_env_string_is_lowercase_with_fallbacks() {
    // no toolchain for the language: falls back to rustc
    let s = mew::render::format_env_string("Linux", None, Some("rustc 1.80.0"));
    assert_eq!(s, s.to_lowercase());
    assert!(!s.is_empty());
    let s = mew::render::format_env_string("Linux", Some("rustc 1.80.0"), None);
    assert_eq!(s, s.to_lowercase());
    assert!(s.contains("rustc"));
}

#[test]
fn test_custom_theme_values_flow_into_render() {
    let colors = mew::theme::ThemeColors {
        dot_workspace: "#ff0000".to_string(),
        title_mew: "#00ff00".to_string(),
        ..Default::default()
    };
    let config = mew::theme::ThemeConfig { colors };
    let palette = mew::theme::Palette::from_config(&config, mew::theme::ColorMode::Truecolor);
    // workspace icon uses the custom dot color (255,0,0), not the default
    assert!(palette.dot_workspace.contains("38;2;255;0;0"));
    // gradient stops come from config too
    assert_eq!(palette.dot_workspace_hex, "#ff0000");
    assert_eq!(palette.title_mew_hex, "#00ff00");
    // and the rendered card actually paints it
    let git = mew::git::GitState::default();
    let out = mew::render::render_compact(&git, &palette, &host(), &clock());
    assert!(out.contains("38;2;255;0;0"));
}
