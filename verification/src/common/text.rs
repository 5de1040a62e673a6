//! Small string utilities.

use vstd::prelude::*;

verus! {

/// Checks two strings for equality.
pub fn str_eq(a: &str, b: &str) -> (res: bool)
    ensures
        res == (a@ == b@),
{
    let x = a.to_owned();
    let y = b.to_owned();
    x == y
}

/// Copies a string slice into an owned string.
pub fn to_string(a: &str) -> (res: String)
    ensures
        res@ == a@,
{
    a.to_owned()
}

/// The view of an optional string.
pub open spec fn opt_view(o: Option<String>) -> Option<Seq<char>> {
    match o {
        Some(s) => Some(s@),
        None => None,
    }
}

/// A line without its terminating carriage return, if it has one.
pub open spec fn strip_cr(line: Seq<char>) -> Seq<char> {
    if line.len() > 0 && line.last() == '\r' {
        line.drop_last()
    } else {
        line
    }
}

/// The lines of `s` after the current, unterminated line `cur`: a line
/// ends at a line feed, which with a carriage return before it is dropped;
/// the last line needs no line feed, and a final line feed starts no line.
pub open spec fn lines_after(s: Seq<char>, cur: Seq<char>) -> Seq<Seq<char>>
    decreases s.len(),
{
    if s.len() == 0 {
        if cur.len() == 0 {
            Seq::empty()
        } else {
            seq![cur]
        }
    } else if s[0] == '\n' {
        seq![strip_cr(cur)] + lines_after(s.drop_first(), Seq::empty())
    } else {
        lines_after(s.drop_first(), cur.push(s[0]))
    }
}

/// The lines of `s`, as `str::lines` gives them.
pub open spec fn spec_lines(s: Seq<char>) -> Seq<Seq<char>> {
    lines_after(s, Seq::empty())
}

/// Splits `s` into lines with `str::lines`.
///
/// The contract states what the documentation of `str::lines` says: lines
/// end at `\n` or `\r\n`, which are not part of them, and the final line
/// ending is optional; a final carriage return without a line feed stays
/// in the last line.
#[verifier::external_body]
pub fn str_lines(s: &str) -> (res: Vec<&str>)
    ensures
        res@.len() == spec_lines(s@).len(),
        forall|i: int| 0 <= i < res@.len() ==> #[trigger] res@[i]@ == spec_lines(s@)[i],
{
    s.lines().collect()
}

/// Concatenates two strings.
pub fn concat(a: &str, b: &str) -> (res: String)
    ensures
        res@ == a@ + b@,
{
    let mut r = String::from_str(a);
    r.append(b);
    r
}

/// `p` is a bare file name: a relative path of a single component on every
/// platform, with no `/`, `\\` or `:` and not `.` or `..`.
pub open spec fn is_bare_name(p: Seq<char>) -> bool {
    &&& p.len() > 0
    &&& p != seq!['.']
    &&& p != seq!['.', '.']
    &&& forall|i: int| 0 <= i < p.len() ==> p[i] != '/' && p[i] != '\\' && p[i] != ':'
}

/// The position of the last `.` in `p`.
pub open spec fn last_dot(p: Seq<char>) -> Option<int>
    decreases p.len(),
{
    if p.len() == 0 {
        None
    } else if p.last() == '.' {
        Some(p.len() - 1)
    } else {
        last_dot(p.drop_last())
    }
}

/// The extension of file name `p`: what follows its last `.`, none when it
/// has no `.` or when its only `.` starts it.
pub open spec fn spec_name_extension(p: Seq<char>) -> Option<Seq<char>> {
    match last_dot(p) {
        None => None,
        Some(i) => if i == 0 {
            None
        } else {
            Some(p.skip(i + 1))
        },
    }
}

} // verus!
