use vstd::prelude::*;

use crate::text::{lowercase, owned, push_char, push_str, to_lowercase};

verus! {

/// The characters of `s`, one per element.
pub fn chars_of(s: &str) -> (v: Vec<char>)
    ensures
        v@ == s@,
{
    let mut v: Vec<char> = Vec::new();
    for c in it: s.chars()
        invariant
            it.seq() == s@,
            0 <= it.index() <= s@.len(),
            v@ == s@.take(it.index()),
    {
        let ghost i = it.index();
        v.push(c);
        assert(v@ =~= s@.take(i + 1));
    }
    assert(v@ =~= s@);
    v
}

/// The characters `v[from..]` as a string.
fn string_from(v: &Vec<char>, from: usize) -> (r: String)
    requires
        from <= v@.len(),
    ensures
        r@ == v@.skip(from as int),
{
    let mut out = String::new();
    let mut i = from;
    while i < v.len()
        invariant
            from <= i <= v@.len(),
            out@ == v@.subrange(from as int, i as int),
        decreases v@.len() - i,
    {
        push_char(&mut out, v[i]);
        i = i + 1;
        assert(out@ =~= v@.subrange(from as int, i as int));
    }
    assert(out@ =~= v@.skip(from as int));
    out
}

/// The Windows extended-length path marker `\\?\`.
pub open spec fn verbatim_marker() -> Seq<char> {
    seq!['\\', '\\', '?', '\\']
}

/// `s` without a leading extended-length marker.
pub open spec fn strip_verbatim(s: Seq<char>) -> Seq<char> {
    if verbatim_marker().is_prefix_of(s) {
        s.skip(4)
    } else {
        s
    }
}

/// `s` with every backslash turned into a slash.
pub open spec fn forward_slashes(s: Seq<char>) -> Seq<char> {
    s.map_values(|c: char| if c == '\\' { '/' } else { c })
}

/// A path as the card shows it: extended-length marker removed and, on
/// Windows, backslashes turned into slashes.
pub open spec fn normalized_path(s: Seq<char>, windows: bool) -> Seq<char> {
    if windows {
        forward_slashes(strip_verbatim(s))
    } else {
        strip_verbatim(s)
    }
}

/// The workspace row value for the (canonical) path `raw`: lowercase, and
/// written relative to `~` when it lies under the home directory `home`.
pub open spec fn workspace_spec(raw: Seq<char>, home: Option<Seq<char>>, windows: bool) -> Seq<char> {
    let path = normalized_path(raw, windows);
    match home {
        Some(h) => {
            let hn = normalized_path(h, windows);
            if hn.is_prefix_of(path) {
                lowercase(seq!['~'] + path.skip(hn.len() as int))
            } else {
                lowercase(path)
            }
        },
        None => lowercase(path),
    }
}

/// The text of an optional string slice.
pub open spec fn opt_view(o: Option<&str>) -> Option<Seq<char>> {
    match o {
        Some(s) => Some(s@),
        None => None,
    }
}

/// Applies `normalized_path` to a character vector.
fn normalize(v: &Vec<char>, windows: bool) -> (r: Vec<char>)
    ensures
        r@ == normalized_path(v@, windows),
{
    let marker = v.len() >= 4 && v[0] == '\\' && v[1] == '\\' && v[2] == '?' && v[3] == '\\';
    let start: usize = if marker {
        4
    } else {
        0
    };
    proof {
        if marker {
            assert(verbatim_marker().is_prefix_of(v@));
        } else if verbatim_marker().is_prefix_of(v@) {
            assert(v@[0] == verbatim_marker()[0]);
            assert(v@[1] == verbatim_marker()[1]);
            assert(v@[2] == verbatim_marker()[2]);
            assert(v@[3] == verbatim_marker()[3]);
        }
    }
    let ghost stripped = strip_verbatim(v@);
    assert(stripped =~= v@.skip(start as int));
    let mut out: Vec<char> = Vec::new();
    let mut i = start;
    while i < v.len()
        invariant
            start <= i <= v@.len(),
            stripped == v@.skip(start as int),
            out@.len() == i - start,
            forall|j: int|
                0 <= j < out@.len() ==> #[trigger] out@[j] == (if windows && stripped[j] == '\\' {
                    '/'
                } else {
                    stripped[j]
                }),
        decreases v@.len() - i,
    {
        let c = v[i];
        if windows && c == '\\' {
            out.push('/');
        } else {
            out.push(c);
        }
        i = i + 1;
    }
    if windows {
        assert(out@ =~= forward_slashes(stripped));
    } else {
        assert(out@ =~= stripped);
    }
    out
}

/// Formats an already resolved path for the workspace row, given the home
/// directory; `windows` selects the Windows separator handling.
pub fn display_workspace_path(raw: &str, home: Option<&str>, windows: bool) -> (r: String)
    ensures
        r@ == workspace_spec(raw@, opt_view(home), windows),
{
    let path = normalize(&chars_of(raw), windows);
    match home {
        Some(h) => {
            let hn = normalize(&chars_of(h), windows);
            let mut is_prefix = hn.len() <= path.len();
            let mut i: usize = 0;
            while is_prefix && i < hn.len()
                invariant
                    i <= hn@.len(),
                    is_prefix ==> hn@.len() <= path@.len(),
                    is_prefix ==> forall|j: int| 0 <= j < i ==> hn@[j] == path@[j],
                    !is_prefix ==> !hn@.is_prefix_of(path@),
                decreases hn@.len() - i + (if is_prefix { 1int } else { 0int }),
            {
                if hn[i] != path[i] {
                    is_prefix = false;
                } else {
                    i = i + 1;
                }
            }
            if is_prefix {
                assert(hn@.is_prefix_of(path@));
                let mut s = owned("~");
                let rest = string_from(&path, hn.len());
                push_str(&mut s, rest.as_str());
                proof {
                    reveal_strlit("~");
                    assert(s@ =~= seq!['~'] + path@.skip(hn@.len() as int));
                }
                to_lowercase(s.as_str())
            } else {
                let all = string_from(&path, 0);
                assert(path@.skip(0) =~= path@);
                to_lowercase(all.as_str())
            }
        },
        None => {
            let all = string_from(&path, 0);
            assert(path@.skip(0) =~= path@);
            to_lowercase(all.as_str())
        },
    }
}

/// The user's home directory, as `dirs::home_dir` finds it, in lossy UTF-8.
/// Nothing is stated of the result: it comes from the environment and the
/// user database of the machine.
#[verifier::external_body]
fn home_dir() -> Option<String> {
    dirs::home_dir().map(|h| h.to_string_lossy().into_owned())
}

/// The workspace row value: `unknown` when the workspace path could not be
/// resolved, otherwise the path relative to the user's home directory as
/// `dirs::home_dir` reports it.
pub fn format_workspace_path(path: Option<&str>, windows: bool) -> (r: String)
    ensures
        path is None ==> r@ == "unknown"@,
        path matches Some(p) ==> exists|home: Option<Seq<char>>|
            r@ == #[trigger] workspace_spec(p@, home, windows),
{
    match path {
        None => owned("unknown"),
        Some(p) => {
            let home = home_dir();
            let r = match &home {
                Some(h) => display_workspace_path(p, Some(h.as_str()), windows),
                None => display_workspace_path(p, None, windows),
            };
            proof {
                let hv: Option<Seq<char>> = match home {
                    Some(h) => Some(h@),
                    None => None,
                };
                assert(r@ == workspace_spec(p@, hv, windows));
            }
            r
        },
    }
}

/// The environment row value: the lowercase OS name, followed by the
/// lowercase toolchain version when one is known.
pub open spec fn env_spec(os_name: Seq<char>, toolchain: Option<Seq<char>>) -> Seq<char> {
    match toolchain {
        Some(v) => lowercase(os_name) + " • "@ + lowercase(v),
        None => lowercase(os_name),
    }
}

/// Formats the environment row from the OS name and the probed toolchain
/// versions: the project language's toolchain wins, then rustc's.
pub fn format_env_string(os_name: &str, lang_toolchain: Option<&str>, rustc_version: Option<&str>) -> (r: String)
    ensures
        r@ == env_spec(
            os_name@,
            if lang_toolchain is Some {
                opt_view(lang_toolchain)
            } else {
                opt_view(rustc_version)
            },
        ),
{
    let os = to_lowercase(os_name);
    let toolchain = match lang_toolchain {
        Some(v) => Some(v),
        None => rustc_version,
    };
    match toolchain {
        Some(v) => {
            let mut s = os;
            push_str(&mut s, " • ");
            let lv = to_lowercase(v);
            push_str(&mut s, lv.as_str());
            s
        },
        None => os,
    }
}

} // verus!
