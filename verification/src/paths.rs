//! Path-string helpers for the event filter and for configuration
//! defaulting: extracting the file name from an image path, and deriving
//! the companion module's path from the executable's path by swapping
//! the extension.
//!
//! Paths are plain character strings here. Both separators of the target
//! platform are honoured, and a dot that merely heads a component (a
//! hidden file) does not count as an extension.

use vstd::prelude::*;

verus! {

pub open spec fn is_path_separator(c: char) -> bool {
    c == '\\' || c == '/'
}

pub open spec fn is_drive_letter(c: char) -> bool {
    ('a' <= c && c <= 'z') || ('A' <= c && c <= 'Z')
}

/// A path that names its own place rather than a spot inside another
/// directory: it starts at a root (`\name`, or a UNC `\\server\...`)
/// or carries a drive prefix (`C:...`). Appending such a path to a
/// directory replaces the directory instead of descending into it.
pub open spec fn spec_is_anchored(s: Seq<char>) -> bool {
    ||| (s.len() >= 1 && is_path_separator(s[0]))
    ||| (s.len() >= 2 && is_drive_letter(s[0]) && s[1] == ':')
}

/// Whether a path names its own place (see [`spec_is_anchored`]).
pub fn is_anchored(path: &str) -> (anchored: bool)
    ensures
        anchored == spec_is_anchored(path@),
{
    let n = path.unicode_len();
    if n == 0 {
        return false;
    }
    let c0 = path.get_char(0);
    if c0 == '\\' || c0 == '/' {
        return true;
    }
    if n >= 2 {
        let c1 = path.get_char(1);
        (('a' <= c0 && c0 <= 'z') || ('A' <= c0 && c0 <= 'Z')) && c1 == ':'
    } else {
        false
    }
}

/// The characters after the last separator; the whole string when there
/// is none; empty when the string ends in a separator.
pub open spec fn tail_after_last_sep(s: Seq<char>) -> Seq<char>
    decreases s.len(),
{
    if s.len() == 0 {
        s
    } else if is_path_separator(s.last()) {
        Seq::empty()
    } else {
        tail_after_last_sep(s.drop_last()).push(s.last())
    }
}

/// The file name a path points at: what follows the last separator,
/// or nothing when that is empty.
pub open spec fn spec_file_name(s: Seq<char>) -> Option<Seq<char>> {
    if tail_after_last_sep(s).len() == 0 {
        None
    } else {
        Some(tail_after_last_sep(s))
    }
}

pub(crate) proof fn lemma_tail_without_sep(s: Seq<char>)
    requires
        forall|k: int| 0 <= k < s.len() ==> !is_path_separator(#[trigger] s[k]),
    ensures
        tail_after_last_sep(s) == s,
    decreases s.len(),
{
    if s.len() > 0 {
        lemma_tail_without_sep(s.drop_last());
        assert(s.drop_last().push(s.last()) =~= s);
    }
}

pub(crate) proof fn lemma_tail_after_sep(s: Seq<char>, j: int)
    requires
        0 <= j < s.len(),
        is_path_separator(s[j]),
        forall|k: int| j < k < s.len() ==> !is_path_separator(#[trigger] s[k]),
    ensures
        tail_after_last_sep(s) == s.subrange(j + 1, s.len() as int),
    decreases s.len(),
{
    if j == s.len() - 1 {
        assert(tail_after_last_sep(s) =~= s.subrange(j + 1, s.len() as int));
    } else {
        lemma_tail_after_sep(s.drop_last(), j);
        assert(s.drop_last().subrange(j + 1, s.drop_last().len() as int).push(s.last()) =~= s
            .subrange(j + 1, s.len() as int));
    }
}

/// The file name a path points at, as the event filter reads it from an
/// image path: `None` when the path ends in a separator or is empty.
pub fn file_name_of(path: &str) -> (name: Option<String>)
    ensures
        name is Some <==> spec_file_name(path@) is Some,
        name matches Some(n) ==> spec_file_name(path@) == Some(n@),
{
    let n = path.unicode_len();
    let mut i: usize = n;
    while i > 0
        invariant
            i <= n,
            n == path@.len(),
            forall|k: int| i <= k < n ==> !is_path_separator(#[trigger] path@[k]),
        decreases i,
    {
        if path.get_char(i - 1) == '\\' || path.get_char(i - 1) == '/' {
            proof {
                lemma_tail_after_sep(path@, i - 1);
            }
            if i == n {
                return None;
            }
            let tail = path.substring_char(i, n);
            return Some(tail.to_owned());
        }
        i -= 1;
    }
    proof {
        lemma_tail_without_sep(path@);
    }
    if n == 0 {
        return None;
    }
    let tail = path.substring_char(0, n);
    proof {
        assert(tail@ =~= path@);
    }
    Some(tail.to_owned())
}

/// Whether the final component carries an extension: scanning from the
/// right, a dot appears before any separator, and not as the
/// component's first character.
pub open spec fn has_extension_dot(s: Seq<char>) -> bool
    decreases s.len(),
{
    if s.len() == 0 {
        false
    } else if is_path_separator(s.last()) {
        false
    } else if s.last() == '.' {
        !(s.len() == 1 || is_path_separator(s[s.len() - 2]))
    } else {
        has_extension_dot(s.drop_last())
    }
}

/// The path up to (and excluding) the extension dot; the whole path
/// when the final component has no extension.
pub open spec fn strip_extension(s: Seq<char>) -> Seq<char>
    decreases s.len(),
{
    if !has_extension_dot(s) {
        s
    } else if s.last() == '.' {
        s.drop_last()
    } else {
        strip_extension(s.drop_last())
    }
}

/// The same path pointing at the `dll` beside the original target: the
/// extension (if any) replaced by `.dll`.
pub open spec fn spec_with_dll_extension(s: Seq<char>) -> Seq<char> {
    strip_extension(s) + ".dll"@
}

/// Cuts the final component's extension off (a path without one comes
/// back whole).
pub fn strip_extension_of(path: &str) -> (stem: String)
    ensures
        stem@ == strip_extension(path@),
{
    let n = path.unicode_len();
    proof {
        assert(path@.subrange(0, n as int) =~= path@);
    }
    let mut i: usize = n;
    while i > 0
        invariant
            i <= n,
            n == path@.len(),
            forall|k: int| i <= k < n ==> !is_path_separator(#[trigger] path@[k]),
            forall|k: int| i <= k < n ==> #[trigger] path@[k] != '.',
            has_extension_dot(path@) == has_extension_dot(path@.subrange(0, i as int)),
            strip_extension(path@) == if has_extension_dot(path@) {
                strip_extension(path@.subrange(0, i as int))
            } else {
                path@
            },
        decreases i,
    {
        let c = path.get_char(i - 1);
        proof {
            assert(path@.subrange(0, i as int).last() == path@[i - 1]);
            assert(path@.subrange(0, i as int).drop_last() =~= path@.subrange(0, i - 1));
        }
        if c == '\\' || c == '/' {
            // The final component has no dot: nothing to cut.
            return path.to_owned();
        }
        if c == '.' {
            let heads_component: bool = if i == 1 {
                true
            } else {
                let p = path.get_char(i - 2);
                p == '\\' || p == '/'
            };
            if heads_component {
                // The dot heads the component: a hidden file, no extension.
                proof {
                    if i >= 2 {
                        assert(path@.subrange(0, i as int)[i - 2] == path@[i - 2]);
                    }
                }
                return path.to_owned();
            }
            proof {
                if i >= 2 {
                    assert(path@.subrange(0, i as int)[i - 2] == path@[i - 2]);
                }
                assert(strip_extension(path@.subrange(0, i as int))
                    == path@.subrange(0, i as int).drop_last());
            }
            let stem = path.substring_char(0, i - 1);
            return stem.to_owned();
        }
        i -= 1;
    }
    proof {
        assert(path@.subrange(0, 0) =~= Seq::<char>::empty());
    }
    path.to_owned()
}

/// Derives the companion module's path from an executable's path by
/// replacing the extension with `dll` (or appending it when the final
/// component has none).
pub fn with_dll_extension(path: &str) -> (dll: String)
    ensures
        dll@ == spec_with_dll_extension(path@),
{
    strip_extension_of(path).concat(".dll")
}

} // verus!
