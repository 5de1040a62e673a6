//! Source locations attached to errors.

use vstd::prelude::*;

verus! {

/// The text that stands for an undefined location.
pub const UNDEFINED_LOCATION: &'static str = "<undefined location>";

/// The decimal digit of `d`.
pub open spec fn digit_char(d: nat) -> char {
    if d == 0 { '0' }
    else if d == 1 { '1' }
    else if d == 2 { '2' }
    else if d == 3 { '3' }
    else if d == 4 { '4' }
    else if d == 5 { '5' }
    else if d == 6 { '6' }
    else if d == 7 { '7' }
    else if d == 8 { '8' }
    else { '9' }
}

/// The decimal notation of `n`, without leading zeros.
pub open spec fn decimal(n: nat) -> Seq<char>
    decreases n,
{
    if n < 10 {
        seq![digit_char(n)]
    } else {
        decimal(n / 10).push(digit_char(n % 10))
    }
}

fn digit_str(d: u32) -> (res: &'static str)
    requires
        d < 10,
    ensures
        res@ == seq![digit_char(d as nat)],
{
    proof {
        reveal_strlit("0");
        reveal_strlit("1");
        reveal_strlit("2");
        reveal_strlit("3");
        reveal_strlit("4");
        reveal_strlit("5");
        reveal_strlit("6");
        reveal_strlit("7");
        reveal_strlit("8");
        reveal_strlit("9");
    }
    if d == 0 { "0" }
    else if d == 1 { "1" }
    else if d == 2 { "2" }
    else if d == 3 { "3" }
    else if d == 4 { "4" }
    else if d == 5 { "5" }
    else if d == 6 { "6" }
    else if d == 7 { "7" }
    else if d == 8 { "8" }
    else { "9" }
}

/// Returns the decimal notation of `n`.
pub fn to_decimal(n: u32) -> (res: String)
    ensures
        res@ == decimal(n as nat),
    decreases n,
{
    if n < 10 {
        return digit_str(n).to_owned();
    }
    let mut s = to_decimal(n / 10);
    s.append(digit_str(n % 10));
    s
}

/// A location in source code.
///
/// A `Location` is *undefined* when the file name is an empty string.
#[derive(Copy, Clone, Debug, PartialEq, Eq, PartialOrd, Ord, Hash)]
#[non_exhaustive]
pub struct Location {
    /// The file name.
    pub file: &'static str,
    /// The line number.
    pub line: u32,
}

impl Location {
    /// Creates a location from a file name and a line number.
    pub fn new(file: &'static str, line: u32) -> (res: Location)
        ensures
            res.file@ == file@,
            res.line == line,
    {
        Location { file, line }
    }

    /// Creates an *undefined* Location.
    pub fn undefined() -> (res: Location)
        ensures
            res.file@.len() == 0,
            res.line == 0,
    {
        proof {
            reveal_strlit("");
        }
        Location { file: "", line: 0 }
    }

    /// The text of the location: [UNDEFINED_LOCATION] when it is undefined,
    /// else the file name and the line number, joined by a colon.
    pub open spec fn spec_display(&self) -> Seq<char> {
        if self.file@.len() == 0 {
            UNDEFINED_LOCATION@
        } else {
            self.file@ + seq![':'] + decimal(self.line as nat)
        }
    }

    /// Returns the text of the location (see [Location::spec_display]).
    pub fn display(&self) -> (res: String)
        ensures
            res@ == self.spec_display(),
    {
        if self.is_undefined() {
            return UNDEFINED_LOCATION.to_owned();
        }
        proof {
            reveal_strlit(":");
        }
        let mut s = self.file.to_owned();
        s.append(":");
        let d = to_decimal(self.line);
        s.append(d.as_str());
        s
    }

    /// Checks if the Location is *undefined*, i.e., its file name is empty.
    pub fn is_undefined(&self) -> (res: bool)
        ensures
            res == (self.file@.len() == 0),
    {
        self.file.is_empty()
    }
}

} // verus!
