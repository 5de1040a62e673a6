//! Doc strings of generated code.

use crate::common::text::{concat, spec_lines, str_lines};
use vstd::prelude::*;

verus! {

/// The lines of a doc comment, each introduced by ` * ` and ended by a
/// line feed.
pub open spec fn starred_lines(lines: Seq<Seq<char>>) -> Seq<char>
    decreases lines.len(),
{
    if lines.len() == 0 {
        Seq::empty()
    } else {
        starred_lines(lines.drop_last()) + seq![' ', '*', ' '] + lines.last() + seq!['\n']
    }
}

/// The text of a `doc` attribute for a doc comment: a single line gets a
/// leading space unless it has one; several lines are each put on a line of
/// their own, introduced by ` * `, after a first line feed.
pub open spec fn spec_doc_text(doc: Seq<char>) -> Seq<char> {
    let lines = spec_lines(doc);
    if lines.len() <= 1 {
        if doc.len() > 0 && doc[0] == ' ' {
            doc
        } else {
            seq![' '] + doc
        }
    } else {
        seq!['\n'] + starred_lines(lines)
    }
}

/// Returns the text of a `doc` attribute for a doc comment (see
/// [spec_doc_text]).
pub fn handle_multiline_doc(doc: &str) -> (res: String)
    ensures
        res@ == spec_doc_text(doc@),
{
    let lines = str_lines(doc);
    if lines.len() <= 1 {
        proof {
            reveal_strlit(" ");
        }
        if doc.unicode_len() > 0 && doc.get_char(0) == ' ' {
            return doc.to_owned();
        }
        return concat(" ", doc);
    }
    proof {
        reveal_strlit("\n");
        reveal_strlit(" * ");
    }
    let ghost ls = spec_lines(doc@);
    let mut s = String::from_str("\n");
    let mut i: usize = 0;
    while i < lines.len()
        invariant
            i <= lines@.len(),
            lines@.len() == ls.len(),
            forall|k: int| 0 <= k < lines@.len() ==> #[trigger] lines@[k]@ == ls[k],
            s@ == seq!['\n'] + starred_lines(ls.take(i as int)),
        decreases lines@.len() - i,
    {
        let ghost before = s@;
        proof {
            assert(ls.take(i + 1).drop_last() =~= ls.take(i as int));
            assert(ls.take(i + 1).last() == ls[i as int]);
            reveal_strlit(" * ");
            reveal_strlit("\n");
            assert(" * "@ =~= seq![' ', '*', ' ']);
            assert("\n"@ =~= seq!['\n']);
        }
        s.append(" * ");
        s.append(lines[i]);
        s.append("\n");
        proof {
            assert(s@ =~= before + seq![' ', '*', ' '] + ls[i as int] + seq!['\n']);
            assert(starred_lines(ls.take(i + 1)) =~= starred_lines(ls.take(i as int)) + seq![
                ' ',
                '*',
                ' ',
            ] + ls[i as int] + seq!['\n']);
        }
        i += 1;
    }
    proof {
        assert(ls.take(i as int) =~= ls);
    }
    s
}

} // verus!
