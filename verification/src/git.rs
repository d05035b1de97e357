use vstd::prelude::*;

use crate::text::{
    decimal, lemma_decimal_plain, lemma_ok_concat, lemma_plain_ok, lowercase, ok_text, owned,
    plain, push_decimal, push_str, to_lowercase,
};
use crate::theme::{lemma_code_ok, palette_ok, ColorRole, Palette};

verus! {

/// Where the current branch stands against its upstream.
pub struct GitAheadBehind {
    pub ahead: usize,
    pub behind: usize,
    pub has_upstream: bool,
    pub upstream_name: Option<String>,
}

/// A snapshot of the repository the dashboard looks at.
pub struct GitState {
    pub is_repo: bool,
    pub repo_root: Option<String>,
    pub branch_name: String,
    pub commit_hash: String,
    pub is_detached: bool,
    pub ahead_behind: GitAheadBehind,
    pub modified_count: usize,
    pub staged_count: usize,
    pub untracked_count: usize,
    pub conflict_count: usize,
}

impl Default for GitAheadBehind {
    fn default() -> (r: Self)
        ensures
            r.ahead == 0,
            r.behind == 0,
            !r.has_upstream,
            r.upstream_name is None,
    {
        GitAheadBehind { ahead: 0, behind: 0, has_upstream: false, upstream_name: None }
    }
}

impl Default for GitState {
    fn default() -> (r: Self)
        ensures
            !r.is_repo,
            r.repo_root is None,
            r.branch_name@ == Seq::<char>::empty(),
            r.commit_hash@ == Seq::<char>::empty(),
            !r.is_detached,
            r.ahead_behind.ahead == 0,
            r.ahead_behind.behind == 0,
            !r.ahead_behind.has_upstream,
            r.ahead_behind.upstream_name is None,
            r.modified_count == 0,
            r.staged_count == 0,
            r.untracked_count == 0,
            r.conflict_count == 0,
    {
        GitState {
            is_repo: false,
            repo_root: None,
            branch_name: String::new(),
            commit_hash: String::new(),
            is_detached: false,
            ahead_behind: GitAheadBehind::default(),
            modified_count: 0,
            staged_count: 0,
            untracked_count: 0,
            conflict_count: 0,
        }
    }
}

/// Inside a repository, the changed-file total (modified plus untracked)
/// fits a `usize`; outside one the counts are never added.
pub open spec fn counts_fit(git: &GitState) -> bool {
    git.is_repo ==> git.modified_count + git.untracked_count <= usize::MAX
}

/// The mood of the mascot, from the most to the least urgent.
#[derive(Clone, Copy, Debug, PartialEq, Eq, Structural)]
pub enum MascotState {
    NoRepo,
    Conflict,
    Dirty,
    StagedOnly,
    AheadOnly,
    CleanWithTime,
    CleanNoTime,
}

/// The mood the repository puts the mascot in: outside a repository it has
/// none; otherwise conflicts win over changed files, those over staged
/// files, those over unpushed commits, and a clean tree shows the clock
/// mood when the time widget is on.
pub open spec fn mascot_state_spec(git: &GitState, has_time_widget: bool) -> MascotState {
    if !git.is_repo {
        MascotState::NoRepo
    } else if git.conflict_count > 0 {
        MascotState::Conflict
    } else if git.modified_count > 0 || git.untracked_count > 0 {
        MascotState::Dirty
    } else if git.staged_count > 0 {
        MascotState::StagedOnly
    } else if git.ahead_behind.ahead > 0 {
        MascotState::AheadOnly
    } else if has_time_widget {
        MascotState::CleanWithTime
    } else {
        MascotState::CleanNoTime
    }
}

/// Picks the mascot's mood for a repository snapshot.
pub fn compute_mascot_state(git: &GitState, has_time_widget: bool) -> (r: MascotState)
    ensures
        r == mascot_state_spec(git, has_time_widget),
{
    if !git.is_repo {
        MascotState::NoRepo
    } else if git.conflict_count > 0 {
        MascotState::Conflict
    } else if git.modified_count > 0 || git.untracked_count > 0 {
        MascotState::Dirty
    } else if git.staged_count > 0 {
        MascotState::StagedOnly
    } else if git.ahead_behind.ahead > 0 {
        MascotState::AheadOnly
    } else if has_time_widget {
        MascotState::CleanWithTime
    } else {
        MascotState::CleanNoTime
    }
}

/// How a mood is drawn: the face on the middle row of the cat, the word on
/// the status chip and the role of the accent colour.
pub struct MascotVisual {
    pub middle_line: &'static str,
    pub mood_label: &'static str,
    pub color_role: ColorRole,
}

/// The face drawn for a mood.
pub open spec fn face_of(state: MascotState) -> Seq<char> {
    match state {
        MascotState::NoRepo => "( =.= )"@,
        MascotState::Conflict => "( >_< )"@,
        MascotState::Dirty => "( o.o )"@,
        MascotState::StagedOnly => "( ~_~ )"@,
        MascotState::AheadOnly => "( ^.^)~"@,
        MascotState::CleanWithTime => "( -.~ )"@,
        MascotState::CleanNoTime => "( -.- )"@,
    }
}

/// The chip word of a mood.
pub open spec fn mood_word_of(state: MascotState) -> Seq<char> {
    match state {
        MascotState::NoRepo => "no repo"@,
        MascotState::Conflict => "conflict"@,
        MascotState::Dirty => "watching"@,
        MascotState::StagedOnly => "ready"@,
        MascotState::AheadOnly => "ship"@,
        MascotState::CleanWithTime => "ticking"@,
        MascotState::CleanNoTime => "all clear"@,
    }
}

/// The accent role of a mood.
pub open spec fn role_of(state: MascotState) -> ColorRole {
    match state {
        MascotState::NoRepo => ColorRole::Muted,
        MascotState::Conflict => ColorRole::StatusError,
        MascotState::Dirty => ColorRole::StatusDirty,
        MascotState::StagedOnly => ColorRole::TaskActive,
        MascotState::AheadOnly => ColorRole::GaugeFill,
        MascotState::CleanWithTime => ColorRole::StatusClean,
        MascotState::CleanNoTime => ColorRole::StatusClean,
    }
}

/// The drawing of a mood.
pub fn mascot_visual_for_state(state: MascotState) -> (r: MascotVisual)
    ensures
        r.middle_line@ == face_of(state),
        r.mood_label@ == mood_word_of(state),
        r.color_role == role_of(state),
{
    match state {
        MascotState::NoRepo => MascotVisual {
            middle_line: "( =.= )",
            mood_label: "no repo",
            color_role: ColorRole::Muted,
        },
        MascotState::Conflict => MascotVisual {
            middle_line: "( >_< )",
            mood_label: "conflict",
            color_role: ColorRole::StatusError,
        },
        MascotState::Dirty => MascotVisual {
            middle_line: "( o.o )",
            mood_label: "watching",
            color_role: ColorRole::StatusDirty,
        },
        MascotState::StagedOnly => MascotVisual {
            middle_line: "( ~_~ )",
            mood_label: "ready",
            color_role: ColorRole::TaskActive,
        },
        MascotState::AheadOnly => MascotVisual {
            middle_line: "( ^.^)~",
            mood_label: "ship",
            color_role: ColorRole::GaugeFill,
        },
        MascotState::CleanWithTime => MascotVisual {
            middle_line: "( -.~ )",
            mood_label: "ticking",
            color_role: ColorRole::StatusClean,
        },
        MascotState::CleanNoTime => MascotVisual {
            middle_line: "( -.- )",
            mood_label: "all clear",
            color_role: ColorRole::StatusClean,
        },
    }
}

/// The upstream's name, `upstream` when it has none.
pub open spec fn upstream_spec(git: &GitState) -> Seq<char> {
    match git.ahead_behind.upstream_name {
        Some(u) => u@,
        None => "upstream"@,
    }
}

/// The remote summary line of a repository snapshot.
pub open spec fn branch_info_spec(git: &GitState) -> Seq<char> {
    let ab = git.ahead_behind;
    let up = upstream_spec(git);
    if !git.is_repo {
        "not a git repository"@
    } else if git.is_detached {
        lowercase("detached at head ("@ + git.branch_name@ + ")"@)
    } else if !ab.has_upstream {
        "no upstream configured"@
    } else if ab.ahead == 0 && ab.behind == 0 {
        lowercase("up to date with "@ + up)
    } else if ab.behind == 0 {
        lowercase(decimal(ab.ahead as nat) + " ahead of "@ + up)
    } else if ab.ahead == 0 {
        lowercase(decimal(ab.behind as nat) + " behind "@ + up)
    } else {
        lowercase(decimal(ab.ahead as nat) + " ahead, "@ + decimal(ab.behind as nat) + " behind "@ + up)
    }
}

/// Describes how the branch relates to its upstream, in lowercase.
pub fn format_branch_info(git: &GitState) -> (r: String)
    ensures
        r@ == branch_info_spec(git),
{
    if !git.is_repo {
        return owned("not a git repository");
    }
    if git.is_detached {
        let mut s = owned("detached at head (");
        push_str(&mut s, git.branch_name.as_str());
        push_str(&mut s, ")");
        return to_lowercase(s.as_str());
    }
    if !git.ahead_behind.has_upstream {
        return owned("no upstream configured");
    }
    let upstream: &str = match &git.ahead_behind.upstream_name {
        Some(u) => u.as_str(),
        None => "upstream",
    };
    let ahead = git.ahead_behind.ahead;
    let behind = git.ahead_behind.behind;
    let mut s = String::new();
    if ahead == 0 && behind == 0 {
        push_str(&mut s, "up to date with ");
    } else if behind == 0 {
        push_decimal(&mut s, ahead as u64);
        push_str(&mut s, " ahead of ");
    } else if ahead == 0 {
        push_decimal(&mut s, behind as u64);
        push_str(&mut s, " behind ");
    } else {
        push_decimal(&mut s, ahead as u64);
        push_str(&mut s, " ahead, ");
        push_decimal(&mut s, behind as u64);
        push_str(&mut s, " behind ");
    }
    push_str(&mut s, upstream);
    proof {
        let ab = git.ahead_behind;
        let up = upstream_spec(git);
        if ahead == 0 && behind == 0 {
            assert(s@ =~= "up to date with "@ + up);
        } else if behind == 0 {
            assert(s@ =~= decimal(ab.ahead as nat) + " ahead of "@ + up);
        } else if ahead == 0 {
            assert(s@ =~= decimal(ab.behind as nat) + " behind "@ + up);
        } else {
            assert(s@ =~= decimal(ab.ahead as nat) + " ahead, "@ + decimal(ab.behind as nat)
                + " behind "@ + up);
        }
    }
    to_lowercase(s.as_str())
}

/// Joins texts with a separator between neighbours.
pub open spec fn join(parts: Seq<Seq<char>>, sep: Seq<char>) -> Seq<char>
    decreases parts.len(),
{
    if parts.len() == 0 {
        Seq::empty()
    } else if parts.len() == 1 {
        parts[0]
    } else {
        join(parts.drop_last(), sep) + sep + parts.last()
    }
}

/// Joining one more part appends the separator and that part.
pub proof fn lemma_join_push(parts: Seq<Seq<char>>, sep: Seq<char>, x: Seq<char>)
    requires
        parts.len() >= 1,
    ensures
        join(parts.push(x), sep) == join(parts, sep) + sep + x,
{
    assert(parts.push(x).drop_last() =~= parts);
}

/// The lightning glyph of the warning segments.
pub open spec fn bolt() -> char {
    '\u{f0e7}'
}

/// The check glyph of the staged segment.
pub open spec fn check_mark() -> char {
    '\u{f00c}'
}

/// The segments of the git pill: the branch, then conflicts, changed files
/// and staged files when there are any, and `clean` when there is nothing
/// else.
pub open spec fn pill_segments(git: &GitState, p: &Palette) -> Seq<Seq<char>> {
    let s0 = seq![p.dot_git@ + lowercase(git.branch_name@) + p.reset@];
    let s1 = if git.conflict_count > 0 {
        s0.push(p.status_error@ + seq![bolt(), ' '] + decimal(git.conflict_count as nat)
            + " conflict"@ + p.reset@)
    } else {
        s0
    };
    let dirty = git.modified_count + git.untracked_count;
    let s2 = if dirty > 0 {
        s1.push(p.status_dirty@ + seq![bolt(), ' '] + decimal(dirty as nat) + " modified"@
            + p.reset@)
    } else {
        s1
    };
    let s3 = if git.staged_count > 0 {
        s2.push(p.status_clean@ + seq![check_mark(), ' '] + decimal(git.staged_count as nat)
            + " staged"@ + p.reset@)
    } else {
        s2
    };
    if s3.len() == 1 {
        s3.push(p.status_clean@ + "clean"@ + p.reset@)
    } else {
        s3
    }
}

/// The separator between pill segments.
pub open spec fn pill_sep(p: &Palette) -> Seq<char> {
    p.muted@ + " • "@ + p.reset@
}

/// The git status pill.
pub open spec fn git_pill_spec(git: &GitState, p: &Palette) -> Seq<char> {
    if !git.is_repo {
        p.muted@ + "no repo"@ + p.reset@
    } else {
        join(pill_segments(git, p), pill_sep(p))
    }
}


/// Joining well-placed parts with a well-placed separator.
pub proof fn lemma_join_ok(parts: Seq<Seq<char>>, sep: Seq<char>)
    requires
        ok_text(sep),
        forall|i: int| 0 <= i < parts.len() ==> ok_text(#[trigger] parts[i]),
    ensures
        ok_text(join(parts, sep)),
    decreases parts.len(),
{
    broadcast use lemma_ok_concat, lemma_plain_ok;

    if parts.len() == 0 {
        assert(plain(Seq::<char>::empty()));
    } else if parts.len() > 1 {
        lemma_join_ok(parts.drop_last(), sep);
        assert(ok_text(parts[parts.len() - 1]));
        assert(ok_text(join(parts.drop_last(), sep) + sep));
    }
}

/// A counted pill segment is well placed.
proof fn lemma_counted_ok(color: Seq<char>, glyph: char, n: nat, word: Seq<char>, p: &Palette)
    requires
        palette_ok(p),
        crate::theme::is_code(color),
        plain(seq![glyph, ' ']),
        plain(word),
    ensures
        ok_text(color + seq![glyph, ' '] + decimal(n) + word + p.reset@),
{
    broadcast use lemma_ok_concat, lemma_plain_ok, lemma_code_ok;

    lemma_decimal_plain(n);
    assert(ok_text(decimal(n)));
    assert(ok_text(color + seq![glyph, ' ']));
    assert(ok_text(color + seq![glyph, ' '] + decimal(n)));
    assert(ok_text(color + seq![glyph, ' '] + decimal(n) + word));
}

/// The git pill is well placed when the lowercase branch name is plain.
pub proof fn lemma_pill_ok(git: &GitState, p: &Palette)
    requires
        palette_ok(p),
        git.is_repo ==> plain(lowercase(git.branch_name@)),
    ensures
        ok_text(git_pill_spec(git, p)),
{
    broadcast use lemma_ok_concat, lemma_plain_ok, lemma_code_ok;

    reveal_strlit(" conflict");
    reveal_strlit(" modified");
    reveal_strlit(" staged");
    reveal_strlit("clean");
    reveal_strlit("no repo");
    reveal_strlit(" • ");
    assert(plain(" conflict"@));
    assert(plain(" modified"@));
    assert(plain(" staged"@));
    assert(plain("clean"@));
    assert(plain("no repo"@));
    assert(plain(" • "@));
    assert(plain(seq![bolt(), ' ']));
    assert(plain(seq![check_mark(), ' ']));
    if !git.is_repo {
        assert(ok_text(p.muted@ + "no repo"@));
    } else {
        let segs = pill_segments(git, p);
        lemma_counted_ok(p.status_error@, bolt(), git.conflict_count as nat, " conflict"@, p);
        lemma_counted_ok(p.status_dirty@, bolt(), (git.modified_count + git.untracked_count) as nat, " modified"@, p);
        lemma_counted_ok(p.status_clean@, check_mark(), git.staged_count as nat, " staged"@, p);
        assert(ok_text(p.dot_git@ + lowercase(git.branch_name@)));
        assert(ok_text(p.status_clean@ + "clean"@));
        assert(ok_text(p.status_clean@ + "clean"@ + p.reset@));
        assert(forall|i: int| 0 <= i < segs.len() ==> ok_text(#[trigger] segs[i]));
        assert(ok_text(p.muted@ + " • "@));
        lemma_join_ok(segs, pill_sep(p));
    }
}

/// Builds `color` + `glyph` + ` ` + `n` + `word` + `reset`.
fn counted_segment(color: &str, glyph: char, n: usize, word: &str, reset: &str) -> (r: String)
    ensures
        r@ == color@ + seq![glyph, ' '] + decimal(n as nat) + word@ + reset@,
{
    let mut s = owned(color);
    crate::text::push_char(&mut s, glyph);
    crate::text::push_char(&mut s, ' ');
    push_decimal(&mut s, n as u64);
    push_str(&mut s, word);
    push_str(&mut s, reset);
    assert(s@ =~= color@ + seq![glyph, ' '] + decimal(n as nat) + word@ + reset@);
    s
}

/// The git status pill: the lowercase branch name followed by a coloured
/// segment for each kind of pending work, or `clean`.
pub fn format_git_pill(git: &GitState, p: &Palette) -> (r: String)
    requires
        counts_fit(git),
    ensures
        r@ == git_pill_spec(git, p),
{
    if !git.is_repo {
        let mut s = owned(p.muted.as_str());
        push_str(&mut s, "no repo");
        push_str(&mut s, p.reset.as_str());
        return s;
    }
    let mut sep = owned(p.muted.as_str());
    push_str(&mut sep, " • ");
    push_str(&mut sep, p.reset.as_str());

    let branch = to_lowercase(git.branch_name.as_str());
    let mut out = owned(p.dot_git.as_str());
    push_str(&mut out, branch.as_str());
    push_str(&mut out, p.reset.as_str());
    let mut count: usize = 1;

    let ghost s0: Seq<Seq<char>> = seq![p.dot_git@ + lowercase(git.branch_name@) + p.reset@];
    let ghost mut segs = s0;
    assert(out@ =~= join(segs, pill_sep(p)));

    if git.conflict_count > 0 {
        let seg = counted_segment(
            p.status_error.as_str(),
            '\u{f0e7}',
            git.conflict_count,
            " conflict",
            p.reset.as_str(),
        );
        push_str(&mut out, sep.as_str());
        push_str(&mut out, seg.as_str());
        proof {
            lemma_join_push(segs, pill_sep(p), seg@);
            segs = segs.push(seg@);
        }
        count = count + 1;
    }
    let ghost s1 = segs;
    let dirty = git.modified_count + git.untracked_count;
    if dirty > 0 {
        let seg = counted_segment(
            p.status_dirty.as_str(),
            '\u{f0e7}',
            dirty,
            " modified",
            p.reset.as_str(),
        );
        push_str(&mut out, sep.as_str());
        push_str(&mut out, seg.as_str());
        proof {
            lemma_join_push(segs, pill_sep(p), seg@);
            segs = segs.push(seg@);
        }
        count = count + 1;
    }
    let ghost s2 = segs;
    if git.staged_count > 0 {
        let seg = counted_segment(
            p.status_clean.as_str(),
            '\u{f00c}',
            git.staged_count,
            " staged",
            p.reset.as_str(),
        );
        push_str(&mut out, sep.as_str());
        push_str(&mut out, seg.as_str());
        proof {
            lemma_join_push(segs, pill_sep(p), seg@);
            segs = segs.push(seg@);
        }
        count = count + 1;
    }
    assert(count == segs.len());
    if count == 1 {
        let mut seg = owned(p.status_clean.as_str());
        push_str(&mut seg, "clean");
        push_str(&mut seg, p.reset.as_str());
        push_str(&mut out, sep.as_str());
        push_str(&mut out, seg.as_str());
        proof {
            lemma_join_push(segs, pill_sep(p), seg@);
            segs = segs.push(seg@);
        }
    }
    assert(segs == pill_segments(git, p));
    assert(out@ =~= join(pill_segments(git, p), pill_sep(p)));
    out
}

} // verus!
