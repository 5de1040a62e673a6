//! Layout of generated code: blank lines around items.

use crate::common::text::{spec_lines, str_lines};
use crate::util::strs_view;
use vstd::prelude::*;

verus! {

/// A character of the POSIX class `[[:space:]]`.
pub open spec fn is_space(c: char) -> bool {
    c == '\t' || c == '\n' || c == '\x0B' || c == '\x0C' || c == '\r' || c == ' '
}

/// `s` without its leading `[[:space:]]` characters.
pub open spec fn skip_spaces(s: Seq<char>) -> Seq<char>
    decreases s.len(),
{
    if s.len() > 0 && is_space(s[0]) {
        skip_spaces(s.drop_first())
    } else {
        s
    }
}

/// `s` begins with `p`.
pub open spec fn starts_with(s: Seq<char>, p: Seq<char>) -> bool {
    s.len() >= p.len() && s.take(p.len() as int) == p
}

/// `s` ends with `p`.
pub open spec fn ends_with(s: Seq<char>, p: Seq<char>) -> bool {
    s.len() >= p.len() && s.skip(s.len() - p.len()) == p
}

/// `s` has no line feed.
pub open spec fn no_newline(s: Seq<char>) -> bool {
    forall|i: int| 0 <= i < s.len() ==> s[i] != '\n'
}

/// `s` is an attribute line: `^[[:space:]]*#\[.*\]$`.
pub open spec fn is_attr_line(s: Seq<char>) -> bool {
    let r = skip_spaces(s);
    &&& r.len() >= 3
    &&& starts_with(r, seq!['#', '['])
    &&& r.last() == ']'
    &&& no_newline(r.subrange(2, r.len() - 1))
}

/// `s` is an empty impl: `^[[:space:]]*impl.*\{\}$`.
pub open spec fn is_empty_impl_line(s: Seq<char>) -> bool {
    let r = skip_spaces(s);
    &&& r.len() >= 6
    &&& starts_with(r, seq!['i', 'm', 'p', 'l'])
    &&& ends_with(r, seq!['{', '}'])
    &&& no_newline(r.subrange(4, r.len() - 2))
}

/// The patterns of lines that open an item.
pub open spec fn pre_patterns() -> Seq<Seq<char>> {
    seq![
        "^impl"@,
        "^[[:space:]]*fn"@,
        "^[[:space:]]*const fn"@,
        "^[[:space:]]*pub fn"@,
        "^[[:space:]]*#\\[.*\\]$"@
    ]
}

/// The patterns of lines that close an item.
pub open spec fn post_patterns() -> Seq<Seq<char>> {
    seq!["^[[:space:]]*}$"@, "^[[:space:]]*];$"@, "^[[:space:]]*impl.*\\{\\}$"@]
}

/// The patterns of outer doc comment lines.
pub open spec fn comment_patterns() -> Seq<Seq<char>> {
    seq!["^[[:space:]]*///"@, "^[[:space:]]*/\\*\\*"@]
}

/// The patterns of inner doc comment lines.
pub open spec fn inner_comment_patterns() -> Seq<Seq<char>> {
    seq!["^[[:space:]]*//!"@]
}

/// `line` opens an item: an `impl`, a function or an attribute.
pub open spec fn spec_pre_match(line: Seq<char>) -> bool {
    ||| starts_with(line, seq!['i', 'm', 'p', 'l'])
    ||| starts_with(skip_spaces(line), seq!['f', 'n'])
    ||| starts_with(skip_spaces(line), seq!['c', 'o', 'n', 's', 't', ' ', 'f', 'n'])
    ||| starts_with(skip_spaces(line), seq!['p', 'u', 'b', ' ', 'f', 'n'])
    ||| is_attr_line(line)
}

/// `line` closes an item: a closing brace, the end of an array, or an
/// empty impl.
pub open spec fn spec_post_match(line: Seq<char>) -> bool {
    ||| skip_spaces(line) == seq!['}']
    ||| skip_spaces(line) == seq![']', ';']
    ||| is_empty_impl_line(line)
}

/// `line` is an outer doc comment line.
pub open spec fn spec_comment_match(line: Seq<char>) -> bool {
    ||| starts_with(skip_spaces(line), seq!['/', '/', '/'])
    ||| starts_with(skip_spaces(line), seq!['/', '*', '*'])
}

/// `line` is an inner doc comment line.
pub open spec fn spec_inner_comment_match(line: Seq<char>) -> bool {
    starts_with(skip_spaces(line), seq!['/', '/', '!'])
}

/// Matches `text` against a set of patterns with `regex::RegexSet::new` and
/// `RegexSet::is_match`.
///
/// The contract claims what the regex syntax documents for the four
/// pattern sets that are admitted: `^` anchors at the start of the text and
/// `$` at its end, `[[:space:]]` is the class of ASCII tab, line feed,
/// vertical tab, form feed, carriage return and space, `.` is any character
/// but a line feed, and a set matches when one of its patterns does.
#[verifier::external_body]
fn regex_set_is_match(patterns: &Vec<&str>, text: &str) -> (res: bool)
    requires
        strs_view(patterns@) == pre_patterns() || strs_view(patterns@) == post_patterns()
            || strs_view(patterns@) == comment_patterns() || strs_view(patterns@)
            == inner_comment_patterns(),
    ensures
        strs_view(patterns@) == pre_patterns() ==> res == spec_pre_match(text@),
        strs_view(patterns@) == post_patterns() ==> res == spec_post_match(text@),
        strs_view(patterns@) == comment_patterns() ==> res == spec_comment_match(text@),
        strs_view(patterns@) == inner_comment_patterns() ==> res == spec_inner_comment_match(
            text@,
        ),
{
    regex::RegexSet::new(patterns).unwrap().is_match(text)
}

/// What is remembered of the previous line: whether it was an outer doc
/// comment, an inner doc comment, and whether a blank line was due before
/// it.
pub struct LineState {
    pub comment: bool,
    pub inner_comment: bool,
    pub prefix: bool,
}

/// A blank line is due before `line`: it opens an item, it starts an outer
/// doc comment, or it ends a block of inner doc comments.
pub open spec fn spec_prefix(line: Seq<char>, st: LineState) -> bool {
    spec_pre_match(line) || (spec_comment_match(line) && !st.comment) || (!spec_inner_comment_match(
        line,
    ) && st.inner_comment)
}

/// What `line` leaves for the next line.
pub open spec fn next_state(line: Seq<char>, st: LineState) -> LineState {
    LineState {
        comment: spec_comment_match(line),
        inner_comment: spec_inner_comment_match(line),
        prefix: spec_prefix(line, st),
    }
}

/// The output for `line`: a blank line before it when one is due and none
/// was just written, the line, and a blank line after it when it closes an
/// item.
pub open spec fn spec_piece(line: Seq<char>, st: LineState) -> Seq<char> {
    (if spec_prefix(line, st) && !st.prefix {
        seq!['\n']
    } else {
        Seq::empty()
    }) + line + seq!['\n'] + (if spec_post_match(line) {
        seq!['\n']
    } else {
        Seq::empty()
    })
}

/// The state after the first `i` lines.
pub open spec fn state_after(lines: Seq<Seq<char>>, i: nat) -> LineState
    decreases i,
{
    if i == 0 {
        LineState { comment: false, inner_comment: false, prefix: false }
    } else {
        next_state(lines[i - 1], state_after(lines, (i - 1) as nat))
    }
}

/// The output for the first `i` lines.
pub open spec fn output_upto(lines: Seq<Seq<char>>, i: nat) -> Seq<char>
    decreases i,
{
    if i == 0 {
        Seq::empty()
    } else {
        output_upto(lines, (i - 1) as nat) + spec_piece(
            lines[i - 1],
            state_after(lines, (i - 1) as nat),
        )
    }
}

/// The code `file` with blank lines added around items (see [spec_piece]).
pub open spec fn spec_add_newlines(file: Seq<char>) -> Seq<char> {
    output_upto(spec_lines(file), spec_lines(file).len())
}

/// Adds blank lines around the items of pretty-printed code: before
/// functions, impls, attributes and doc comments, and after closing braces.
pub fn add_newlines(file: &str) -> (res: String)
    ensures
        res@ == spec_add_newlines(file@),
{
    let pre: Vec<&str> = vec![
        "^impl",
        "^[[:space:]]*fn",
        "^[[:space:]]*const fn",
        "^[[:space:]]*pub fn",
        "^[[:space:]]*#\\[.*\\]$",
    ];
    let post: Vec<&str> = vec!["^[[:space:]]*}$", "^[[:space:]]*];$", "^[[:space:]]*impl.*\\{\\}$"];
    let comment: Vec<&str> = vec!["^[[:space:]]*///", "^[[:space:]]*/\\*\\*"];
    let inner: Vec<&str> = vec!["^[[:space:]]*//!"];
    proof {
        assert(strs_view(pre@) =~= pre_patterns());
        assert(strs_view(post@) =~= post_patterns());
        assert(strs_view(comment@) =~= comment_patterns());
        assert(strs_view(inner@) =~= inner_comment_patterns());
    }
    let lines = str_lines(file);
    let ghost ls = spec_lines(file@);
    let mut ans = String::new();
    let mut last_comment = false;
    let mut last_inner = false;
    let mut last_prefix = false;
    let mut i: usize = 0;
    while i < lines.len()
        invariant
            i <= lines@.len(),
            lines@.len() == ls.len(),
            forall|k: int| 0 <= k < lines@.len() ==> #[trigger] lines@[k]@ == ls[k],
            strs_view(pre@) == pre_patterns(),
            strs_view(post@) == post_patterns(),
            strs_view(comment@) == comment_patterns(),
            strs_view(inner@) == inner_comment_patterns(),
            ans@ == output_upto(ls, i as nat),
            state_after(ls, i as nat) == (LineState {
                comment: last_comment,
                inner_comment: last_inner,
                prefix: last_prefix,
            }),
        decreases lines@.len() - i,
    {
        let line = lines[i];
        let is_comment = regex_set_is_match(&comment, line);
        let is_inner = regex_set_is_match(&inner, line);
        let prefix = regex_set_is_match(&pre, line) || (is_comment && !last_comment) || (!is_inner
            && last_inner);
        let postfix = regex_set_is_match(&post, line);
        let ghost before = ans@;
        proof {
            reveal_strlit("\n");
        }
        if prefix && !last_prefix {
            ans.append("\n");
        }
        ans.append(line);
        ans.append("\n");
        if postfix {
            ans.append("\n");
        }
        proof {
            let st = LineState { comment: last_comment, inner_comment: last_inner, prefix: last_prefix };
            assert(ans@ =~= before + spec_piece(ls[i as int], st));
        }
        last_comment = is_comment;
        last_inner = is_inner;
        last_prefix = prefix;
        i += 1;
    }
    ans
}

} // verus!
