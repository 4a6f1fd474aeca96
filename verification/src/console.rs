//! Moves typed as text: a line holds the number of a cell, counted from 1,
//! and is turned into a move on the board.

use vstd::prelude::*;
use vstd::string::*;
use crate::board::Ttt;

verus! {

/// What the player is asked before a line is read.
pub const PROMPT: &'static str = "Next play: ";

/// The bytes that reading a line looks for, by their ASCII codes.
const LINE_FEED: u8 = 10;

const CARRIAGE_RETURN: u8 = 13;

const PLUS: u8 = 43;

const ZERO: u8 = 48;

const NINE: u8 = 57;

/// Why a typed line made no move.
#[derive(Debug, Clone, Copy, PartialEq, Eq, Structural)]
pub enum PlayError {
    /// The line names a cell that is off the board or already taken.
    InvalidMove,
    /// The line is not the number of a cell.
    MalformedInput,
}

impl PlayError {
    /// What the player is told.
    pub open spec fn message_text(self) -> Seq<char> {
        match self {
            PlayError::InvalidMove => "Problem playing it. Nothing happened"@,
            PlayError::MalformedInput => "Not the number of a cell. Nothing happened"@,
        }
    }

    /// What the player is told when a line made no move.
    pub fn message(&self) -> (r: &'static str)
        ensures
            r@ == self.message_text(),
    {
        match self {
            PlayError::InvalidMove => "Problem playing it. Nothing happened",
            PlayError::MalformedInput => "Not the number of a cell. Nothing happened",
        }
    }
}

/// The line without its end: one trailing line feed is dropped, then one
/// trailing carriage return.
pub open spec fn without_line_end(line: Seq<char>) -> Seq<char> {
    let fed = if line.len() > 0 && line.last() == '\n' {
        line.drop_last()
    } else {
        line
    };
    if fed.len() > 0 && fed.last() == '\r' {
        fed.drop_last()
    } else {
        fed
    }
}

/// `c` is one of the ten decimal digits.
pub open spec fn is_digit(c: char) -> bool {
    '0' <= c <= '9'
}

/// The value of a decimal digit.
pub open spec fn digit(c: char) -> nat {
    if is_digit(c) {
        (c as nat - '0' as nat) as nat
    } else {
        0
    }
}

/// Every character of `s` is a decimal digit.
pub open spec fn all_digits(s: Seq<char>) -> bool {
    forall|i: int| 0 <= i < s.len() ==> is_digit(#[trigger] s[i])
}

/// The number that a row of decimal digits writes, the first digit counting
/// most.
pub open spec fn digits_value(s: Seq<char>) -> nat
    decreases s.len(),
{
    if s.len() == 0 {
        0
    } else {
        10 * digits_value(s.drop_last()) + digit(s.last())
    }
}

/// The text after one leading plus sign, if there is one.
pub open spec fn unsigned(text: Seq<char>) -> Seq<char> {
    if text.len() > 0 && text[0] == '+' {
        text.drop_first()
    } else {
        text
    }
}

/// `text` writes a number: at least one decimal digit and nothing else,
/// but for one plus sign that may stand in front.
pub open spec fn is_numeral(text: Seq<char>) -> bool {
    unsigned(text).len() > 0 && all_digits(unsigned(text))
}

/// What a typed line asks for. A line that is empty once its end is taken
/// off asks for nothing. A line that writes a number from 1 up to the
/// largest `usize` asks for the cell of that number, counted from 1, so for
/// the index one below it. Any other line is malformed.
pub open spec fn typed(line: Seq<char>) -> Result<Option<usize>, PlayError> {
    let text = without_line_end(line);
    if text.len() == 0 {
        Ok(None)
    } else if is_numeral(text) && 1 <= digits_value(unsigned(text)) <= usize::MAX {
        Ok(Some((digits_value(unsigned(text)) - 1) as usize))
    } else {
        Err(PlayError::MalformedInput)
    }
}

/// A row of digits is worth at least as much as any of its beginnings.
proof fn lemma_digits_value_grows(s: Seq<char>, n: int)
    requires
        0 <= n <= s.len(),
    ensures
        digits_value(s.subrange(0, n)) <= digits_value(s),
    decreases s.len(),
{
    if n == s.len() {
        assert(s.subrange(0, n) =~= s);
    } else {
        assert(s.drop_last().subrange(0, n) =~= s.subrange(0, n));
        lemma_digits_value_grows(s.drop_last(), n);
    }
}

/// A line with a character outside ASCII is malformed.
proof fn lemma_beyond_ascii_is_malformed(line: Seq<char>)
    requires
        !vstd::utf8::is_ascii_chars(line),
    ensures
        typed(line) == Err::<Option<usize>, PlayError>(PlayError::MalformedInput),
{
    let i = choose|i: int| 0 <= i < line.len() && !('\0' <= #[trigger] line[i] <= '\u{7f}');
    let text = without_line_end(line);
    let digits = unsigned(text);
    if text[0] == '+' {
        assert(digits[i - 1] == line[i]);
    } else {
        assert(digits[i] == line[i]);
    }
}

/// Reads a typed line: `Ok(None)` for a blank line, `Ok(Some(i))` for a line
/// that writes the number `i + 1`, and `MalformedInput` for every other
/// line.
pub fn read_position(line: &str) -> (r: Result<Option<usize>, PlayError>)
    ensures
        r == typed(line@),
{
    if !line.is_ascii() {
        proof {
            lemma_beyond_ascii_is_malformed(line@);
        }
        return Err(PlayError::MalformedInput);
    }
    let bytes = line.as_bytes();
    proof {
        is_ascii_spec_bytes(line);
    }
    let mut end: usize = bytes.len();
    if end > 0 && bytes[end - 1] == LINE_FEED {
        end -= 1;
    }
    let ghost fed = line@.subrange(0, end as int);
    assert(fed =~= if line@.len() > 0 && line@.last() == '\n' {
        line@.drop_last()
    } else {
        line@
    });
    if end > 0 && bytes[end - 1] == CARRIAGE_RETURN {
        end -= 1;
    }
    let ghost text = line@.subrange(0, end as int);
    assert(text =~= if fed.len() > 0 && fed.last() == '\r' {
        fed.drop_last()
    } else {
        fed
    });
    if end == 0 {
        return Ok(None);
    }
    let start: usize = if bytes[0] == PLUS {
        1
    } else {
        0
    };
    let ghost digits = line@.subrange(start as int, end as int);
    let mut i: usize = start;
    let mut value: usize = 0;
    while i < end
        invariant
            start <= i <= end <= line@.len(),
            line.is_ascii(),
            bytes@.len() == line@.len(),
            forall|k: int| 0 <= k < bytes@.len() ==> #[trigger] bytes@[k] == line@[k] as u8,
            text.len() > 0,
            text == without_line_end(line@),
            digits == unsigned(text),
            digits == line@.subrange(start as int, end as int),
            all_digits(digits.subrange(0, i - start)),
            value == digits_value(digits.subrange(0, i - start)),
        ensures
            i == end,
        decreases end - i,
    {
        let b = bytes[i];
        assert(digits.subrange(0, i - start + 1).drop_last() =~= digits.subrange(0, i - start));
        if b < ZERO || b > NINE {
            assert(!is_digit(digits[i - start]));
            return Err(PlayError::MalformedInput);
        }
        let d: usize = (b - ZERO) as usize;
        if value > (usize::MAX - d) / 10 {
            proof {
                lemma_digits_value_grows(digits, i - start + 1);
            }
            return Err(PlayError::MalformedInput);
        }
        value = value * 10 + d;
        i += 1;
    }
    assert(digits.subrange(0, i - start) =~= digits);
    if value == 0 {
        return Err(PlayError::MalformedInput);
    }
    Ok(Some(value - 1))
}

/// Plays a typed line on the board. A blank line does nothing and gives
/// `Ok(false)`: the caller reads on. A line that names a free cell makes the
/// move and gives `Ok(true)`. A line that names a cell off the board or a
/// taken one is an `InvalidMove`, any other line is `MalformedInput`, and
/// neither changes the board.
pub fn play_line(board: &mut Ttt, line: &str) -> (r: Result<bool, PlayError>)
    ensures
        r == match typed(line@) {
            Ok(None) => Ok(false),
            Ok(Some(position)) => if old(board)@.free(position as int) {
                Ok(true)
            } else {
                Err(PlayError::InvalidMove)
            },
            Err(e) => Err(e),
        },
        final(board)@ == match typed(line@) {
            Ok(Some(position)) => old(board)@.attempt(position as int),
            _ => old(board)@,
        },
        final(board)@.wf(),
        !(r matches Ok(true)) ==> *final(board) == *old(board),
{
    proof {
        use_type_invariant(&*board);
    }
    match read_position(line) {
        Ok(None) => Ok(false),
        Ok(Some(position)) => {
            if board.play(position) {
                Ok(true)
            } else {
                Err(PlayError::InvalidMove)
            }
        },
        Err(e) => Err(e),
    }
}

} // verus!
