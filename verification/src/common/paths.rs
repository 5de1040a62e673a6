//! File system paths as strings, and the calls into `std::path` that the
//! library makes on them.
//!
//! What a path means depends in general on the platform: Windows reads `\`
//! as a separator and `C:` as a prefix. The predicates here pick out the
//! paths that mean the same on every platform, and the contracts of the
//! calls speak of those paths only.

use crate::common::text::{is_bare_name, opt_view, spec_name_extension};
use vstd::prelude::*;

verus! {

/// `p` means the same on every platform: no `\`, no `:`, and it does not
/// start with two slashes.
pub open spec fn is_plain_path(p: Seq<char>) -> bool {
    &&& forall|i: int| 0 <= i < p.len() ==> p[i] != '\\' && p[i] != ':'
    &&& !(p.len() >= 2 && p[0] == '/' && p[1] == '/')
}

/// `p` is a plain path without a root: relative on every platform.
pub open spec fn is_relative_path(p: Seq<char>) -> bool {
    &&& is_plain_path(p)
    &&& p.len() > 0
    &&& p[0] != '/'
}

/// `p` is a plain path that starts at the root: absolute on Unix, and on
/// Windows a path with a root and no prefix.
pub open spec fn is_rooted_path(p: Seq<char>) -> bool {
    &&& is_plain_path(p)
    &&& p.len() > 0
    &&& p[0] == '/'
}

/// The position of the last `/` in `p`.
pub open spec fn last_slash(p: Seq<char>) -> Option<int>
    decreases p.len(),
{
    if p.len() == 0 {
        None
    } else if p.last() == '/' {
        Some(p.len() - 1)
    } else {
        last_slash(p.drop_last())
    }
}

/// `p` without its trailing separators and trailing `.` components, which
/// path parsing normalises away.
pub open spec fn strip_tail(b: Seq<char>) -> Seq<char>
    decreases b.len(),
{
    if b.len() == 0 {
        b
    } else if b.last() == '/' {
        strip_tail(b.drop_last())
    } else if b.last() == '.' && (b.len() == 1 || b[b.len() - 2] == '/') {
        strip_tail(b.drop_last())
    } else {
        b
    }
}

/// `p` starts at the root.
pub open spec fn has_root(p: Seq<char>) -> bool {
    p.len() > 0 && p[0] == '/'
}

/// `p` starts with a `.` component, which path parsing keeps.
pub open spec fn has_cur_dir(p: Seq<char>) -> bool {
    &&& !has_root(p)
    &&& p.len() > 0
    &&& p[0] == '.'
    &&& (p.len() == 1 || p[1] == '/')
}

/// The length of what precedes the components of `p`: its root or its
/// leading `.`.
pub open spec fn lead_len(p: Seq<char>) -> int {
    if has_root(p) || has_cur_dir(p) {
        1
    } else {
        0
    }
}

/// The components of a plain path after its root or leading `.`, with the
/// trailing separators and `.` components dropped: repeated separators and
/// `.` components are ignored when a path is split into components.
pub open spec fn spec_body(p: Seq<char>) -> Seq<char> {
    strip_tail(p.skip(lead_len(p)))
}

/// The last component of the body of a plain path, if it has one.
pub open spec fn spec_final_component(p: Seq<char>) -> Option<Seq<char>> {
    let t = spec_body(p);
    if t.len() == 0 {
        None
    } else {
        match last_slash(t) {
            None => Some(t),
            Some(i) => Some(t.skip(i + 1)),
        }
    }
}

/// The file name of a plain path: its final component, unless that is
/// `..` or there is none.
pub open spec fn spec_file_name(p: Seq<char>) -> Option<Seq<char>> {
    match spec_final_component(p) {
        Some(c) => if c == seq!['.', '.'] {
            None
        } else {
            Some(c)
        },
        None => None,
    }
}

/// The extension of the file name of a plain path (see [spec_file_name]
/// and [spec_name_extension]).
pub open spec fn spec_path_extension(p: Seq<char>) -> Option<Seq<char>> {
    match spec_file_name(p) {
        Some(n) => spec_name_extension(n),
        None => None,
    }
}

/// The parent of a plain path: the path without its final component, and
/// without the separators and `.` components before it; the empty path
/// for a lone leading `.`, and none for the root or the empty path.
pub open spec fn spec_plain_parent(p: Seq<char>) -> Option<Seq<char>> {
    let t = spec_body(p);
    if t.len() == 0 {
        if has_cur_dir(p) {
            Some(Seq::empty())
        } else {
            None
        }
    } else {
        let rest = match last_slash(t) {
            None => Seq::empty(),
            Some(i) => t.take(i),
        };
        Some(p.take(lead_len(p) + strip_tail(rest).len()))
    }
}

/// Stripping the tail of a path leaves one of its prefixes.
pub proof fn lemma_strip_tail_prefix(b: Seq<char>)
    ensures
        strip_tail(b).len() <= b.len(),
        strip_tail(b) =~= b.take(strip_tail(b).len() as int),
    decreases b.len(),
{
    if b.len() > 0 && (b.last() == '/' || (b.last() == '.' && (b.len() == 1 || b[b.len() - 2]
        == '/'))) {
        lemma_strip_tail_prefix(b.drop_last());
    }
}

/// A bare file name is a plain path that is its own file name.
pub proof fn lemma_bare_name_file_name(p: Seq<char>)
    requires
        is_bare_name(p),
    ensures
        is_plain_path(p),
        spec_file_name(p) == Some(p),
{
    lemma_last_slash(p);
    if last_slash(p) is Some {
        let i = last_slash(p)->Some_0;
        assert(p[i] == '/');
    }
    if p.len() == 1 && p[0] == '.' {
        assert(p =~= seq!['.']);
    }
    assert(!has_root(p));
    if has_cur_dir(p) {
        assert(p.len() == 1);
        assert(p =~= seq!['.']);
    }
    assert(p.skip(0) =~= p);
    if p.last() == '.' && p.len() == 1 {
        assert(p =~= seq!['.']);
    }
    assert(strip_tail(p) == p);
}

/// The last `/` of a path is one of its characters, and none follows it.
pub proof fn lemma_last_slash(p: Seq<char>)
    ensures
        last_slash(p) matches Some(i) ==> 0 <= i < p.len() && p[i] == '/' && forall|j: int|
            i < j < p.len() ==> p[j] != '/',
        last_slash(p) is None ==> forall|j: int| 0 <= j < p.len() ==> p[j] != '/',
    decreases p.len(),
{
    if p.len() > 0 && p.last() != '/' {
        let q = p.drop_last();
        lemma_last_slash(q);
        assert forall|j: int| 0 <= j < q.len() implies q[j] == p[j] by {}
    }
}

/// The parent of a plain path is a plain path.
pub proof fn lemma_plain_parent_is_plain(p: Seq<char>)
    requires
        is_plain_path(p),
    ensures
        spec_plain_parent(p) matches Some(q) ==> is_plain_path(q) && q.len() <= p.len(),
{
    let b = p.skip(lead_len(p));
    let t = spec_body(p);
    lemma_strip_tail_prefix(b);
    if t.len() > 0 {
        lemma_last_slash(t);
        let rest = match last_slash(t) {
            None => Seq::empty(),
            Some(i) => t.take(i),
        };
        lemma_strip_tail_prefix(rest);
        let q = spec_plain_parent(p)->Some_0;
        assert forall|i: int| 0 <= i < q.len() implies q[i] == p[i] by {}
    }
}

/// `res` is `rel` joined onto `base`: `rel` itself when `base` is empty,
/// appended to `base` when `base` ends with `/`, and else appended after a
/// separator, which is `/` or `\` depending on the platform.
pub open spec fn joined_onto(base: Seq<char>, rel: Seq<char>, res: Seq<char>) -> bool {
    if base.len() == 0 {
        res == rel
    } else if base.last() == '/' {
        res == base + rel
    } else {
        res == base + seq!['/'] + rel || res == base + seq!['\\'] + rel
    }
}

/// Reports whether `path` is absolute with `std::path::Path::is_absolute`.
///
/// The contract claims what the documentation gives on every platform: a
/// path without a root and without a prefix depends on the current
/// directory, so a relative plain path (see [is_relative_path]) is not
/// absolute. Of other paths nothing is claimed: a path that starts with
/// `/` is absolute on Unix and not on Windows.
#[verifier::external_body]
pub(crate) fn path_is_absolute(path: &str) -> (res: bool)
    ensures
        is_relative_path(path@) ==> !res,
{
    std::path::Path::new(path).is_absolute()
}

/// Returns the parent of `path` with `std::path::Path::parent`, as a string.
///
/// The contract claims what the documentation gives on every platform for a
/// plain path (see [is_plain_path]): the path without its final component,
/// where repeated separators and `.` components (but a leading one) are
/// ignored, which is [spec_plain_parent]. Of other paths nothing is
/// claimed: how they split into components depends on the platform.
#[verifier::external_body]
pub(crate) fn path_parent(path: &str) -> (res: Option<String>)
    ensures
        is_plain_path(path@) ==> opt_view(res) == spec_plain_parent(path@),
{
    std::path::Path::new(path).parent().map(|p| p.to_string_lossy().into_owned())
}

/// Joins `rel` onto `base` with `std::path::Path::join`, as a string.
///
/// The contract claims what the documentation of `join` and `push` gives
/// on every platform, for a plain `base` (see [is_plain_path]), which has
/// no prefix: a relative plain `rel` extends `base` (see [joined_onto]),
/// and a `rel` that starts at the root replaces `base`. Which separator is
/// put between them depends on the platform and is left open.
#[verifier::external_body]
pub(crate) fn path_join(base: &str, rel: &str) -> (res: String)
    ensures
        is_plain_path(base@) && is_relative_path(rel@) ==> joined_onto(base@, rel@, res@),
        is_plain_path(base@) && is_rooted_path(rel@) ==> res@ == rel@,
{
    std::path::Path::new(base).join(rel).to_string_lossy().into_owned()
}

} // verus!
