//! What the status bar reports about the document.
use crate::unicode::push_char;
use vstd::prelude::*;
use vstd::string::*;

verus! {

/// The decimal digit `d` (below ten) as a character.
pub open spec fn digit_char(d: nat) -> char {
    (48 + d) as char
}

/// The decimal numeral of `n`, without leading zeros.
pub open spec fn decimal(n: nat) -> Seq<char>
    decreases n,
{
    if n < 10 {
        seq![digit_char(n)]
    } else {
        decimal(n / 10).push(digit_char(n % 10))
    }
}

/// `n` spaces.
pub open spec fn blanks(n: int) -> Seq<char> {
    Seq::new(n as nat, |_i: int| ' ')
}

/// The status bar's row, `width` cells wide: the file name, the line count
/// and the modified mark on the left, the caret's position flush right; an
/// empty row when it does not all fit.
pub open spec fn status_row_text(
    filename: Seq<char>,
    line_count: Seq<char>,
    modified: Seq<char>,
    position: Seq<char>,
    width: usize,
) -> Seq<char> {
    let beginning = filename + " - "@ + line_count + seq![' '] + modified;
    let remainder = if width > beginning.len() {
        width - beginning.len()
    } else {
        0
    };
    let right = if position.len() < remainder {
        blanks(remainder - position.len()) + position
    } else {
        position
    };
    let row = beginning + right;
    if row.len() <= width {
        row
    } else {
        Seq::empty()
    }
}

/// The state of the document as the status bar shows it.
#[derive(Debug, PartialEq, Eq)]
pub struct DocumentStatus {
    pub total_lines: usize,
    pub current_line_index: usize,
    pub is_modified: bool,
    pub filename: String,
}

impl Default for DocumentStatus {
    fn default() -> (s: Self)
        ensures
            s.total_lines == 0,
            s.current_line_index == 0,
            !s.is_modified,
            s.filename@ == Seq::<char>::empty(),
    {
        DocumentStatus {
            total_lines: 0,
            current_line_index: 0,
            is_modified: false,
            filename: String::new(),
        }
    }
}

/// The decimal digit `d` as a character.
fn digit(d: usize) -> (c: char)
    requires
        d < 10,
    ensures
        c == digit_char(d as nat),
{
    if d == 0 {
        '0'
    } else if d == 1 {
        '1'
    } else if d == 2 {
        '2'
    } else if d == 3 {
        '3'
    } else if d == 4 {
        '4'
    } else if d == 5 {
        '5'
    } else if d == 6 {
        '6'
    } else if d == 7 {
        '7'
    } else if d == 8 {
        '8'
    } else {
        '9'
    }
}

/// Appends the decimal numeral of `n` to `s`.
pub(crate) fn push_decimal(s: &mut String, n: usize)
    ensures
        final(s)@ == old(s)@ + decimal(n as nat),
    decreases n,
{
    if n < 10 {
        push_char(s, digit(n));
        assert(decimal(n as nat) == seq![digit_char(n as nat)]);
    } else {
        push_decimal(s, n / 10);
        push_char(s, digit(n % 10));
        assert(decimal(n as nat) == decimal((n / 10) as nat).push(digit_char((n % 10) as nat)));
    }
}

impl DocumentStatus {
    /// "(modified)" when the document changed since it was loaded or saved,
    /// else the empty string.
    pub fn modified_indicator_to_string(&self) -> (s: String)
        ensures
            s@ == (if self.is_modified {
                "(modified)"@
            } else {
                Seq::<char>::empty()
            }),
    {
        if self.is_modified {
            String::from_str("(modified)")
        } else {
            String::new()
        }
    }

    /// The line count, as in "12 line".
    pub fn line_count_to_string(&self) -> (s: String)
        ensures
            s@ == decimal(self.total_lines as nat) + " line"@,
    {
        let mut s = String::new();
        push_decimal(&mut s, self.total_lines);
        s.append(" line");
        s
    }

    /// The caret's line and the line count, as in "3/12".
    pub fn position_indicator_to_string(&self) -> (s: String)
        ensures
            s@ == decimal(self.current_line_index as nat) + seq!['/'] + decimal(
                self.total_lines as nat,
            ),
    {
        let mut s = String::new();
        push_decimal(&mut s, self.current_line_index);
        push_char(&mut s, '/');
        push_decimal(&mut s, self.total_lines);
        s
    }

    /// The status bar's row, `width` cells wide (see `status_row_text`).
    pub fn status_line(&self, width: usize) -> (s: String)
        ensures
            s@ == status_row_text(
                self.filename@,
                decimal(self.total_lines as nat) + " line"@,
                if self.is_modified {
                    "(modified)"@
                } else {
                    Seq::<char>::empty()
                },
                decimal(self.current_line_index as nat) + seq!['/'] + decimal(
                    self.total_lines as nat,
                ),
                width,
            ),
    {
        let line_count = self.line_count_to_string();
        let modified = self.modified_indicator_to_string();
        let position = self.position_indicator_to_string();
        let mut row = self.filename.clone();
        row.append(" - ");
        row.append(line_count.as_str());
        push_char(&mut row, ' ');
        row.append(modified.as_str());
        let ghost beginning = row@;
        let used = row.unicode_len();
        let remainder = width.saturating_sub(used);
        let position_len = position.unicode_len();
        if position_len < remainder {
            let n = remainder - position_len;
            let mut i: usize = 0;
            while i < n
                invariant
                    i <= n,
                    row@ == beginning + blanks(i as int),
                decreases n - i,
            {
                push_char(&mut row, ' ');
                i = i + 1;
                assert(row@ =~= beginning + blanks(i as int));
            }
        }
        row.append(position.as_str());
        proof {
            reveal_strlit(" - ");
            reveal_strlit(" line");
        }
        assert(row@ =~= {
            let remainder = if width > beginning.len() {
                width - beginning.len()
            } else {
                0
            };
            beginning + (if position@.len() < remainder {
                blanks(remainder - position@.len()) + position@
            } else {
                position@
            })
        });
        if row.unicode_len() <= width {
            row
        } else {
            String::new()
        }
    }
}

} // verus!
