use vstd::prelude::*;

use crate::dashboard::head_value;
use crate::env::{normalized_path, workspace_spec};
use crate::git::{
    bolt, branch_info_spec, check_mark, face_of, git_pill_spec, join, lemma_join_push,
    mascot_state_spec, mood_word_of, pill_segments, pill_sep, GitState, MascotState,
};
use crate::text::{decimal, lowercase, trimmed};
use crate::theme::Palette;

verus! {

/// The upstream line of a branch that tracks an upstream `u` names every
/// case of its divergence: in step with it only when no commit differs
/// either way, otherwise the commits ahead, the commits behind, or both,
/// each count written in decimal before the upstream's name.
pub proof fn law_branch_info_divergence(git: &GitState, u: Seq<char>)
    requires
        git.is_repo,
        !git.is_detached,
        git.ahead_behind.has_upstream,
        git.ahead_behind.upstream_name matches Some(n) && n@ == u,
    ensures
        git.ahead_behind.ahead == 0 && git.ahead_behind.behind == 0 ==> branch_info_spec(git) == lowercase(
            "up to date with "@ + u,
        ),
        git.ahead_behind.ahead > 0 && git.ahead_behind.behind == 0 ==> branch_info_spec(git) == lowercase(
            decimal(git.ahead_behind.ahead as nat) + " ahead of "@ + u,
        ),
        git.ahead_behind.ahead == 0 && git.ahead_behind.behind > 0 ==> branch_info_spec(git) == lowercase(
            decimal(git.ahead_behind.behind as nat) + " behind "@ + u,
        ),
        git.ahead_behind.ahead > 0 && git.ahead_behind.behind > 0 ==> branch_info_spec(git) == lowercase(
            decimal(git.ahead_behind.ahead as nat) + " ahead, "@ + decimal(git.ahead_behind.behind as nat)
                + " behind "@ + u,
        ),
{
}

/// The upstream line outside the tracking case: no repository, a detached
/// HEAD (named with its commit), or a branch without an upstream.
pub proof fn law_branch_info_without_upstream(git: &GitState)
    ensures
        !git.is_repo ==> branch_info_spec(git) == "not a git repository"@,
        git.is_repo && git.is_detached ==> branch_info_spec(git) == lowercase(
            "detached at head ("@ + git.branch_name@ + ")"@,
        ),
        git.is_repo && !git.is_detached && !git.ahead_behind.has_upstream ==> branch_info_spec(git)
            == "no upstream configured"@,
{
}

/// The git pill inside a repository opens with the lowercased branch name
/// and ends with the last kind of pending work there is, in the order
/// conflicts, changed files (modified and untracked together), staged
/// files; `clean` closes it exactly when there is none of the three.
#[verifier::spinoff_prover]
#[verifier::rlimit(60)]
pub proof fn law_pill_segments(git: &GitState, p: &Palette)
    requires
        git.is_repo,
    ensures
        exists|rest: Seq<char>| git_pill_spec(git, p) == p.dot_git@ + lowercase(git.branch_name@) + p.reset@ + rest,
        git.conflict_count == 0 && git.modified_count + git.untracked_count == 0 && git.staged_count == 0
            ==> git_pill_spec(git, p) == p.dot_git@ + lowercase(git.branch_name@) + p.reset@ + p.muted@ + " • "@ + p.reset@
            + p.status_clean@ + "clean"@ + p.reset@,
        git.staged_count > 0 ==> exists|a: Seq<char>|
            git_pill_spec(git, p) == a + p.muted@ + " • "@ + p.reset@ + p.status_clean@ + seq![check_mark(), ' ']
                + decimal(git.staged_count as nat) + " staged"@ + p.reset@,
        git.staged_count == 0 && git.modified_count + git.untracked_count > 0 ==> exists|a: Seq<char>|
            git_pill_spec(git, p) == a + p.muted@ + " • "@ + p.reset@ + p.status_dirty@ + seq![bolt(), ' ']
                + decimal((git.modified_count + git.untracked_count) as nat) + " modified"@ + p.reset@,
        git.staged_count == 0 && git.modified_count + git.untracked_count == 0 && git.conflict_count > 0
            ==> git_pill_spec(git, p) == p.dot_git@ + lowercase(git.branch_name@) + p.reset@ + p.muted@ + " • "@ + p.reset@
            + p.status_error@ + seq![bolt(), ' '] + decimal(git.conflict_count as nat) + " conflict"@
            + p.reset@,
{
    let segs = pill_segments(git, p);
    let sep = pill_sep(p);
    let first = p.dot_git@ + lowercase(git.branch_name@) + p.reset@;
    let s0: Seq<Seq<char>> = seq![first];
    let cseg = p.status_error@ + seq![bolt(), ' '] + decimal(git.conflict_count as nat) + " conflict"@ + p.reset@;
    let dirty = git.modified_count + git.untracked_count;
    let dseg = p.status_dirty@ + seq![bolt(), ' '] + decimal(dirty as nat) + " modified"@ + p.reset@;
    let sseg = p.status_clean@ + seq![check_mark(), ' '] + decimal(git.staged_count as nat) + " staged"@
        + p.reset@;
    let clean = p.status_clean@ + "clean"@ + p.reset@;
    let s1 = if git.conflict_count > 0 { s0.push(cseg) } else { s0 };
    let s2 = if dirty > 0 { s1.push(dseg) } else { s1 };
    let s3 = if git.staged_count > 0 { s2.push(sseg) } else { s2 };
    assert(s0.len() == 1 && s0[0] == first);
    assert(s1.len() >= 1 && s1[0] == first);
    assert(s2.len() >= 1 && s2[0] == first);
    assert(s3.len() >= 1 && s3[0] == first);
    let fin = if s3.len() == 1 { s3.push(clean) } else { s3 };
    assert(segs == fin);
    assert(git_pill_spec(git, p) == join(fin, sep));
    lemma_join_starts(fin, sep);
    if s3.len() == 1 {
        assert(s3 =~= s0);
        lemma_join_push(s0, sep, clean);
        assert(join(s0, sep) == first);
    }
    if git.staged_count > 0 {
        lemma_join_push(s2, sep, sseg);
        assert(git_pill_spec(git, p) == join(s2, sep) + sep + sseg);
        assert(git_pill_spec(git, p) =~= join(s2, sep) + p.muted@ + " • "@ + p.reset@ + p.status_clean@ + seq![check_mark(), ' ']
            + decimal(git.staged_count as nat) + " staged"@ + p.reset@);
    } else if dirty > 0 {
        lemma_join_push(s1, sep, dseg);
        assert(git_pill_spec(git, p) =~= join(s1, sep) + p.muted@ + " • "@ + p.reset@ + p.status_dirty@ + seq![bolt(), ' ']
            + decimal(dirty as nat) + " modified"@ + p.reset@);
    } else if git.conflict_count > 0 {
        lemma_join_push(s0, sep, cseg);
        assert(join(s0, sep) == first);
    }
}

/// `s` when `b` holds, nothing otherwise.
pub open spec fn when(b: bool, s: Seq<char>) -> Seq<char> {
    if b {
        s
    } else {
        Seq::empty()
    }
}

/// The whole git pill inside a repository: the lowercased branch name,
/// then, each after a muted ` • `, the conflicts when there are any, the
/// changed files (modified plus untracked) when there are any, the staged
/// files when there are any, and `clean` when there are none of the three.
#[verifier::spinoff_prover]
#[verifier::rlimit(60)]
pub proof fn law_pill_layout(git: &GitState, p: &Palette)
    requires
        git.is_repo,
    ensures
        git_pill_spec(git, p) == p.dot_git@ + lowercase(git.branch_name@) + p.reset@ + when(
            git.conflict_count > 0,
            p.muted@ + " • "@ + p.reset@ + p.status_error@ + seq![bolt(), ' '] + decimal(git.conflict_count as nat)
                + " conflict"@ + p.reset@,
        ) + when(
            git.modified_count + git.untracked_count > 0,
            p.muted@ + " • "@ + p.reset@ + p.status_dirty@ + seq![bolt(), ' '] + decimal(
                (git.modified_count + git.untracked_count) as nat,
            ) + " modified"@ + p.reset@,
        ) + when(
            git.staged_count > 0,
            p.muted@ + " • "@ + p.reset@ + p.status_clean@ + seq![check_mark(), ' '] + decimal(
                git.staged_count as nat,
            ) + " staged"@ + p.reset@,
        ) + when(
            git.conflict_count == 0 && git.modified_count + git.untracked_count == 0 && git.staged_count == 0,
            p.muted@ + " • "@ + p.reset@ + p.status_clean@ + "clean"@ + p.reset@,
        ),
{
    let sep = pill_sep(p);
    let first = p.dot_git@ + lowercase(git.branch_name@) + p.reset@;
    let s0: Seq<Seq<char>> = seq![first];
    let cseg = p.status_error@ + seq![bolt(), ' '] + decimal(git.conflict_count as nat) + " conflict"@ + p.reset@;
    let dirty = git.modified_count + git.untracked_count;
    let dseg = p.status_dirty@ + seq![bolt(), ' '] + decimal(dirty as nat) + " modified"@ + p.reset@;
    let sseg = p.status_clean@ + seq![check_mark(), ' '] + decimal(git.staged_count as nat) + " staged"@
        + p.reset@;
    let clean = p.status_clean@ + "clean"@ + p.reset@;
    let s1 = if git.conflict_count > 0 { s0.push(cseg) } else { s0 };
    let s2 = if dirty > 0 { s1.push(dseg) } else { s1 };
    let s3 = if git.staged_count > 0 { s2.push(sseg) } else { s2 };
    let fin = if s3.len() == 1 { s3.push(clean) } else { s3 };
    assert(pill_segments(git, p) == fin);
    assert(join(s0, sep) == first);
    let j1 = first + when(git.conflict_count > 0, sep + cseg);
    if git.conflict_count > 0 {
        lemma_join_push(s0, sep, cseg);
    }
    assert(join(s1, sep) =~= j1);
    let j2 = j1 + when(dirty > 0, sep + dseg);
    if dirty > 0 {
        lemma_join_push(s1, sep, dseg);
    }
    assert(join(s2, sep) =~= j2);
    let j3 = j2 + when(git.staged_count > 0, sep + sseg);
    if git.staged_count > 0 {
        lemma_join_push(s2, sep, sseg);
    }
    assert(join(s3, sep) =~= j3);
    let none = git.conflict_count == 0 && dirty == 0 && git.staged_count == 0;
    assert(none <==> s3.len() == 1);
    let j4 = j3 + when(none, sep + clean);
    if none {
        lemma_join_push(s3, sep, clean);
    }
    assert(join(fin, sep) =~= j4);
    assert(sep + cseg =~= p.muted@ + " • "@ + p.reset@ + p.status_error@ + seq![bolt(), ' ']
        + decimal(git.conflict_count as nat) + " conflict"@ + p.reset@);
    assert(sep + dseg =~= p.muted@ + " • "@ + p.reset@ + p.status_dirty@ + seq![bolt(), ' '] + decimal(dirty as nat)
        + " modified"@ + p.reset@);
    assert(sep + sseg =~= p.muted@ + " • "@ + p.reset@ + p.status_clean@ + seq![check_mark(), ' ']
        + decimal(git.staged_count as nat) + " staged"@ + p.reset@);
    assert(sep + clean =~= p.muted@ + " • "@ + p.reset@ + p.status_clean@ + "clean"@ + p.reset@);
}

/// A join of parts starts with its first part.
proof fn lemma_join_starts(parts: Seq<Seq<char>>, sep: Seq<char>)
    requires
        parts.len() >= 1,
    ensures
        exists|rest: Seq<char>| join(parts, sep) == parts[0] + rest,
    decreases parts.len(),
{
    if parts.len() == 1 {
        assert(join(parts, sep) =~= parts[0] + Seq::<char>::empty());
    } else {
        let d = parts.drop_last();
        lemma_join_starts(d, sep);
        let rest = choose|rest: Seq<char>| join(d, sep) == d[0] + rest;
        assert(join(parts, sep) =~= parts[0] + (rest + sep + parts.last()));
    }
}

/// The mascot's mood follows the most urgent state of the repository:
/// no repository, then conflicts, then changed files (modified or
/// untracked alike), then staged files, then unpushed commits; a clean
/// tree ticks with the clock shown and is all clear without it.
pub proof fn law_mascot_priority(git: &GitState, has_time_widget: bool)
    ensures
        !git.is_repo ==> mascot_state_spec(git, has_time_widget) == MascotState::NoRepo,
        git.is_repo && git.conflict_count > 0 ==> mascot_state_spec(git, has_time_widget)
            == MascotState::Conflict,
        git.is_repo && git.conflict_count == 0 && (git.modified_count > 0 || git.untracked_count > 0)
            ==> mascot_state_spec(git, has_time_widget) == MascotState::Dirty,
        git.is_repo && git.conflict_count == 0 && git.modified_count == 0 && git.untracked_count == 0
            && git.staged_count > 0 ==> mascot_state_spec(git, has_time_widget) == MascotState::StagedOnly,
        git.is_repo && git.conflict_count == 0 && git.modified_count == 0 && git.untracked_count == 0
            && git.staged_count == 0 && git.ahead_behind.ahead > 0 ==> mascot_state_spec(git, has_time_widget)
            == MascotState::AheadOnly,
        git.is_repo && git.conflict_count == 0 && git.modified_count == 0 && git.untracked_count == 0
            && git.staged_count == 0 && git.ahead_behind.ahead == 0 ==> mascot_state_spec(git, has_time_widget)
            == (if has_time_widget { MascotState::CleanWithTime } else { MascotState::CleanNoTime }),
{
}

/// Changed files, untracked ones included, make the cat watch.
pub proof fn law_changed_files_are_watched(git: &GitState, has_time_widget: bool)
    requires
        git.is_repo,
        git.conflict_count == 0,
        git.modified_count > 0 || git.untracked_count > 0,
    ensures
        face_of(mascot_state_spec(git, has_time_widget)) == "( o.o )"@,
        mood_word_of(mascot_state_spec(git, has_time_widget)) == "watching"@,
{
}

/// The HEAD cell never makes up a hash: with no commit hash (blank or
/// `—`) it says `detached` exactly when HEAD is detached and
/// `uncommitted` otherwise; with a hash it shows that hash.
pub proof fn law_head_value(git: &GitState)
    ensures
        (trimmed(git.commit_hash@).len() == 0 || git.commit_hash@ == "—"@) && git.is_detached ==> head_value(git)
            == "detached"@,
        (trimmed(git.commit_hash@).len() == 0 || git.commit_hash@ == "—"@) && !git.is_detached ==> head_value(git)
            == "uncommitted"@,
        !(trimmed(git.commit_hash@).len() == 0 || git.commit_hash@ == "—"@) ==> head_value(git)
            == git.commit_hash@,
{
}

/// The workspace path is shown relative to `~` whenever it lies under the
/// home directory, the home directory itself included (shown as `~`), and
/// as it is otherwise; lowercase in every case.
pub proof fn law_workspace_relative_to_home(raw: Seq<char>, home: Seq<char>, windows: bool, rest: Seq<char>)
    ensures
        normalized_path(raw, windows) == normalized_path(home, windows) + rest ==> workspace_spec(
            raw,
            Some(home),
            windows,
        ) == lowercase(seq!['~'] + rest),
        normalized_path(raw, windows) == normalized_path(home, windows) ==> workspace_spec(raw, Some(home), windows)
            == lowercase(seq!['~']),
        !normalized_path(home, windows).is_prefix_of(normalized_path(raw, windows)) ==> workspace_spec(
            raw,
            Some(home),
            windows,
        ) == lowercase(normalized_path(raw, windows)),
        workspace_spec(raw, None, windows) == lowercase(normalized_path(raw, windows)),
{
    let path = normalized_path(raw, windows);
    let hn = normalized_path(home, windows);
    if path == hn + rest {
        assert(hn.is_prefix_of(path));
        assert(path.skip(hn.len() as int) =~= rest);
    }
    if path == hn {
        assert(hn.is_prefix_of(path));
        assert(path.skip(hn.len() as int) =~= Seq::<char>::empty());
        assert(seq!['~'] + Seq::<char>::empty() =~= seq!['~']);
    }
}

} // verus!
