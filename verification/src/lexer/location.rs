//! Line and column positions for user-facing messages.

use vstd::prelude::*;

verus! {

use vstd::string::StringExecFns;
use crate::chars::char_utf8_bytes;

/// A 1-based line and column position.  The column advances by the UTF-8
/// encoded length of each character and resets at every newline.
#[derive(Debug, Clone, Copy, PartialEq, Eq, Structural)]
pub struct Location {
    pub line: u32,
    pub column: u32,
}

impl Location {
    pub fn new(line: u32, column: u32) -> (l: Location)
        ensures
            l == (Location { line, column }),
    {
        Self { line, column }
    }

    /// The position as `line:column` text.
    pub fn to_text(&self) -> String {
        let mut out = line_number_text(self.line);
        out.append(":");
        out.append(line_number_text(self.column).as_str());
        out
    }
}

/// Line and column reached after spending `budget` bytes of the text from
/// character position `k`, starting from the given line and column.
pub open spec fn loc_walk(s: Seq<char>, k: int, budget: int, line: int, col: int) -> (int, int)
    decreases s.len() - k,
{
    if k < s.len() && budget > 0 {
        if s[k] == '\n' {
            loc_walk(s, k + 1, budget - char_utf8_bytes(s[k]), line + 1, 1)
        } else {
            loc_walk(s, k + 1, budget - char_utf8_bytes(s[k]), line, col + char_utf8_bytes(s[k]))
        }
    } else {
        (line, col)
    }
}

/// Decimal digits of `n`, for building location text.
fn line_number_text(n: u32) -> String {
    let mut digits: Vec<u8> = Vec::new();
    if n == 0 {
        digits.push(48);
    }
    let mut rest = n;
    while rest > 0
        decreases rest,
    {
        let d = (rest % 10) as u8;
        digits.push(d + 48);
        rest = rest / 10;
    }
    let mut out = String::new();
    let mut i = digits.len();
    while i > 0
        invariant
            i <= digits.len(),
        decreases i,
    {
        i = i - 1;
        let c = digits[i];
        let text = digit_text(c);
        out.append(text);
    }
    out
}

/// The text of one decimal digit byte.
fn digit_text(d: u8) -> &'static str {
    if d == 48 {
        "0"
    } else if d == 49 {
        "1"
    } else if d == 50 {
        "2"
    } else if d == 51 {
        "3"
    } else if d == 52 {
        "4"
    } else if d == 53 {
        "5"
    } else if d == 54 {
        "6"
    } else if d == 55 {
        "7"
    } else if d == 56 {
        "8"
    } else {
        "9"
    }
}

} // verus!
