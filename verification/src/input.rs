//! Reading a move from a line of text.
//!
//! A move is typed as the number of a cell. The line may carry whitespace on
//! both sides of the number; the number is a numeral of decimal digits with an
//! optional `+` in front.

use vstd::prelude::*;
use vstd::string::*;
use crate::board::{cell_glyph, Board};
use crate::symbol::Symbol;
use crate::text::{decimal_string, decimal_text};

verus! {

/// Why a text is not a number that fits in `usize`.
#[derive(Clone, Copy, Debug, PartialEq, Eq, Structural)]
pub enum ParseError {
    /// There is nothing to read.
    Empty,
    /// A character is not a decimal digit, or a sign stands alone.
    InvalidDigit,
    /// The digits read so far already exceed `usize::MAX`.
    PosOverflow,
}

/// Why a typed move is not accepted.
#[derive(Clone, Copy, Debug, PartialEq, Eq, Structural)]
pub enum ValidationError {
    /// The input is not a number.
    Parse(ParseError),
    /// The number, carried here, names no cell: it is greater than 8.
    OutOfRange(usize),
    /// The cell, whose position is carried here, already holds the mark
    /// carried with it.
    Occupied(usize, Symbol),
}

impl ParseError {
    /// The text that describes this error.
    pub open spec fn message_text(self) -> Seq<char> {
        match self {
            ParseError::Empty => "cannot parse integer from empty string"@,
            ParseError::InvalidDigit => "invalid digit found in string"@,
            ParseError::PosOverflow => "number too large to fit in target type"@,
        }
    }

    /// The text that describes this error.
    pub fn message(self) -> (text: &'static str)
        ensures
            text@ == self.message_text(),
    {
        match self {
            ParseError::Empty => "cannot parse integer from empty string",
            ParseError::InvalidDigit => "invalid digit found in string",
            ParseError::PosOverflow => "number too large to fit in target type",
        }
    }
}

impl ValidationError {
    /// The text of the message for this error. It names what was wrong: the
    /// fault of the number, the number that is out of range, or the
    /// position that is taken and the mark that holds it.
    pub open spec fn message_text(self) -> Seq<char> {
        match self {
            ValidationError::Parse(error) => "Couldnt parse input: "@ + error.message_text(),
            ValidationError::OutOfRange(number) => "Input '"@ + decimal_text(number as nat)
                + "' is out of range"@,
            ValidationError::Occupied(pos, symbol) => "Position "@ + decimal_text(pos as nat)
                + " is already taken with "@ + seq![symbol.letter()],
        }
    }

    /// The message that tells the player why the move is not accepted.
    pub fn message(self) -> (text: String)
        ensures
            text@ == self.message_text(),
    {
        match self {
            ValidationError::Parse(error) => {
                let mut text = String::from_str("Couldnt parse input: ");
                text.append(error.message());
                text
            },
            ValidationError::OutOfRange(number) => {
                let mut text = String::from_str("Input '");
                text.append(decimal_string(number).as_str());
                text.append("' is out of range");
                text
            },
            ValidationError::Occupied(pos, symbol) => {
                let mut text = String::from_str("Position ");
                text.append(decimal_string(pos).as_str());
                text.append(" is already taken with ");
                text.append(symbol.as_str());
                text
            },
        }
    }
}

/// Whether `c` is whitespace: a character that Unicode classes as
/// `White_Space`.
pub open spec fn is_whitespace(c: char) -> bool {
    let code = c as int;
    ||| 0x09 <= code <= 0x0D
    ||| code == 0x20
    ||| code == 0x85
    ||| code == 0xA0
    ||| code == 0x1680
    ||| 0x2000 <= code <= 0x200A
    ||| code == 0x2028
    ||| code == 0x2029
    ||| code == 0x202F
    ||| code == 0x205F
    ||| code == 0x3000
}

/// `s` without the whitespace at its start.
pub open spec fn trim_start(s: Seq<char>) -> Seq<char>
    decreases s.len(),
{
    if s.len() > 0 && is_whitespace(s.first()) {
        trim_start(s.drop_first())
    } else {
        s
    }
}

/// `s` without the whitespace at its end.
pub open spec fn trim_end(s: Seq<char>) -> Seq<char>
    decreases s.len(),
{
    if s.len() > 0 && is_whitespace(s.last()) {
        trim_end(s.drop_last())
    } else {
        s
    }
}

/// `s` without the whitespace at its start and at its end.
pub open spec fn trimmed(s: Seq<char>) -> Seq<char> {
    trim_end(trim_start(s))
}

/// Whether `c` is one of the decimal digits `0` to `9`.
pub open spec fn is_digit(c: char) -> bool {
    '0' as int <= c as int <= '9' as int
}

/// The value of the decimal digit `c`.
pub open spec fn digit_value(c: char) -> nat {
    (c as int - '0' as int) as nat
}

/// Reads the characters of `s` from left to right as decimal digits that
/// continue a number whose value so far is `value`. The first character
/// that is no digit, or with which the number exceeds `usize::MAX`, ends
/// the reading with its error.
pub open spec fn read_digits(s: Seq<char>, value: nat) -> Result<usize, ParseError>
    decreases s.len(),
{
    if s.len() == 0 {
        Ok(value as usize)
    } else if !is_digit(s.first()) {
        Err(ParseError::InvalidDigit)
    } else if value * 10 + digit_value(s.first()) > usize::MAX {
        Err(ParseError::PosOverflow)
    } else {
        read_digits(s.drop_first(), value * 10 + digit_value(s.first()))
    }
}

/// The number that `s` writes: decimal digits, with an optional `+` in
/// front of them.
pub open spec fn parsed(s: Seq<char>) -> Result<usize, ParseError> {
    if s.len() == 0 {
        Err(ParseError::Empty)
    } else if s.first() != '+' {
        read_digits(s, 0)
    } else if s.len() == 1 {
        Err(ParseError::InvalidDigit)
    } else {
        read_digits(s.drop_first(), 0)
    }
}

/// Whether every character of `s` is whitespace.
pub open spec fn all_whitespace(s: Seq<char>) -> bool {
    forall|i: int| 0 <= i < s.len() ==> is_whitespace(#[trigger] s[i])
}

/// Whether every character of `s` is a decimal digit.
pub open spec fn all_digits(s: Seq<char>) -> bool {
    forall|i: int| 0 <= i < s.len() ==> is_digit(#[trigger] s[i])
}

/// The number that the digits of `s` write in base ten.
pub open spec fn digits_value(s: Seq<char>) -> nat
    decreases s.len(),
{
    if s.len() == 0 {
        0
    } else {
        digits_value(s.drop_last()) * 10 + digit_value(s.last())
    }
}

/// `s` without the `+` in front of it, if there is one.
pub open spec fn unsigned_part(s: Seq<char>) -> Seq<char> {
    if s.len() > 0 && s.first() == '+' {
        s.drop_first()
    } else {
        s
    }
}

/// What becomes of the typed line `raw` on a board with the cells `cells`:
/// the position it names, if it names an empty cell, or the reason why it
/// is not accepted.
pub open spec fn validated(raw: Seq<char>, cells: Seq<Option<Symbol>>) -> Result<
    usize,
    ValidationError,
> {
    match parsed(trimmed(raw)) {
        Err(error) => Err(ValidationError::Parse(error)),
        Ok(pos) => if pos > 8 {
            Err(ValidationError::OutOfRange(pos))
        } else {
            match cells[pos as int] {
                Some(symbol) => Err(ValidationError::Occupied(pos, symbol)),
                None => Ok(pos),
            }
        },
    }
}

/// Whitespace alone trims to nothing.
pub proof fn lemma_trimmed_whitespace(s: Seq<char>)
    requires
        all_whitespace(s),
    ensures
        trim_start(s) == Seq::<char>::empty(),
        trimmed(s) == Seq::<char>::empty(),
    decreases s.len(),
{
    if s.len() > 0 {
        assert(is_whitespace(s[0]));
        assert forall|i: int| 0 <= i < s.drop_first().len() implies is_whitespace(
            #[trigger] s.drop_first()[i],
        ) by {
            assert(is_whitespace(s[i + 1]));
        }
        lemma_trimmed_whitespace(s.drop_first());
    } else {
        assert(s =~= Seq::<char>::empty());
    }
}

/// Whitespace in front of a text that starts with no whitespace is what
/// `trim_start` removes.
proof fn lemma_trim_start_padding(before: Seq<char>, rest: Seq<char>)
    requires
        all_whitespace(before),
        rest.len() > 0,
        !is_whitespace(rest.first()),
    ensures
        trim_start(before + rest) == rest,
    decreases before.len(),
{
    if before.len() == 0 {
        assert(before + rest =~= rest);
    } else {
        assert(is_whitespace(before[0]));
        assert((before + rest).drop_first() =~= before.drop_first() + rest);
        assert forall|i: int| 0 <= i < before.drop_first().len() implies is_whitespace(
            #[trigger] before.drop_first()[i],
        ) by {
            assert(is_whitespace(before[i + 1]));
        }
        lemma_trim_start_padding(before.drop_first(), rest);
    }
}

/// Whitespace behind a text that ends with no whitespace is what `trim_end`
/// removes.
proof fn lemma_trim_end_padding(rest: Seq<char>, after: Seq<char>)
    requires
        all_whitespace(after),
        rest.len() > 0,
        !is_whitespace(rest.last()),
    ensures
        trim_end(rest + after) == rest,
    decreases after.len(),
{
    if after.len() == 0 {
        assert(rest + after =~= rest);
    } else {
        assert(is_whitespace(after[after.len() - 1]));
        assert((rest + after).drop_last() =~= rest + after.drop_last());
        assert forall|i: int| 0 <= i < after.drop_last().len() implies is_whitespace(
            #[trigger] after.drop_last()[i],
        ) by {
            assert(is_whitespace(after[i]));
        }
        lemma_trim_end_padding(rest, after.drop_last());
    }
}

/// Trimming removes the whitespace on both sides of a text, and no more: a
/// text `core` that neither starts nor ends with whitespace, with
/// whitespace before and after it, trims to `core`.
pub proof fn lemma_trimmed_padding(before: Seq<char>, core: Seq<char>, after: Seq<char>)
    requires
        all_whitespace(before),
        all_whitespace(after),
        core.len() > 0 ==> !is_whitespace(core.first()) && !is_whitespace(core.last()),
    ensures
        trimmed(before + core + after) == core,
{
    if core.len() == 0 {
        assert(core =~= Seq::<char>::empty());
        lemma_trimmed_whitespace(before + core + after);
    } else {
        assert(before + core + after =~= before + (core + after));
        lemma_trim_start_padding(before, core + after);
        lemma_trim_end_padding(core, after);
    }
}

/// The digits of a text write no less than the digits of its start.
proof fn lemma_digits_value_grows(s: Seq<char>, len: int)
    requires
        0 <= len <= s.len(),
    ensures
        digits_value(s.subrange(0, len)) <= digits_value(s),
    decreases s.len(),
{
    if len == s.len() {
        assert(s.subrange(0, len) =~= s);
    } else {
        assert(s.drop_last().subrange(0, len) =~= s.subrange(0, len));
        lemma_digits_value_grows(s.drop_last(), len);
    }
}

/// Reading on from the first `read` characters of `s`, all of them digits
/// whose value fits, gives the value of `s` if all of `s` is digits and
/// its value fits, and an error if not.
proof fn lemma_read_digits(s: Seq<char>, read: int)
    requires
        0 <= read <= s.len(),
        all_digits(s.subrange(0, read)),
        digits_value(s.subrange(0, read)) <= usize::MAX,
    ensures
        match read_digits(s.subrange(read, s.len() as int), digits_value(s.subrange(0, read))) {
            Ok(number) => all_digits(s) && digits_value(s) <= usize::MAX && number
                == digits_value(s),
            Err(error) => error != ParseError::Empty && (!all_digits(s) || digits_value(s)
                > usize::MAX),
        },
    decreases s.len() - read,
{
    let rest = s.subrange(read, s.len() as int);
    let start = s.subrange(0, read);
    if rest.len() == 0 {
        assert(start =~= s);
    } else {
        let longer = s.subrange(0, read + 1);
        assert(rest.first() == s[read]);
        assert(longer.drop_last() =~= start);
        assert(longer.last() == s[read]);
        if is_digit(s[read]) {
            if digits_value(longer) > usize::MAX {
                lemma_digits_value_grows(s, read + 1);
            } else {
                assert forall|i: int| 0 <= i < longer.len() implies is_digit(
                    #[trigger] longer[i],
                ) by {
                    if i < read {
                        assert(is_digit(start[i]));
                    }
                }
                assert(rest.drop_first() =~= s.subrange(read + 1, s.len() as int));
                lemma_read_digits(s, read + 1);
            }
        }
    }
}

/// A text is read as a number exactly when it is one or more decimal digits,
/// with an optional `+` in front, and the value of the digits fits in
/// `usize`. The number is then that value. Only the empty text gives the
/// error `Empty`.
pub proof fn lemma_parsed_is_decimal_value(s: Seq<char>)
    ensures
        parsed(s) is Ok <==> unsigned_part(s).len() > 0 && all_digits(unsigned_part(s))
            && digits_value(unsigned_part(s)) <= usize::MAX,
        parsed(s) matches Ok(number) ==> number == digits_value(unsigned_part(s)),
        parsed(s) == Err::<usize, ParseError>(ParseError::Empty) <==> s.len() == 0,
{
    let digits = unsigned_part(s);
    if digits.len() > 0 {
        assert(digits.subrange(0, 0) =~= Seq::<char>::empty());
        assert(digits.subrange(0, digits.len() as int) =~= digits);
        lemma_read_digits(digits, 0);
    }
}

/// The decimal numeral of a number is digits only, and their value is the
/// number.
pub proof fn lemma_decimal_text_is_digits(n: nat)
    ensures
        decimal_text(n).len() > 0,
        all_digits(decimal_text(n)),
        digits_value(decimal_text(n)) == n,
    decreases n,
{
    if n >= 10 {
        lemma_decimal_text_is_digits(n / 10);
        let front = decimal_text(n / 10);
        let text = decimal_text(n);
        assert(text.drop_last() =~= front);
        assert(digit_value(text.last()) == n % 10);
        assert forall|i: int| 0 <= i < text.len() implies is_digit(#[trigger] text[i]) by {
            if i < front.len() {
                assert(is_digit(front[i]));
            }
        }
    } else {
        let text = decimal_text(n);
        assert(text.drop_last() =~= Seq::<char>::empty());
        assert(digits_value(text.drop_last()) == 0);
        assert(digit_value(text.last()) == n);
    }
}

/// The decimal numeral of a number that fits in `usize` is read as that
/// number, also with whitespace on both sides of it.
pub proof fn lemma_decimal_text_is_parsed(before: Seq<char>, n: nat, after: Seq<char>)
    requires
        n <= usize::MAX,
        all_whitespace(before),
        all_whitespace(after),
    ensures
        parsed(trimmed(before + decimal_text(n) + after)) == Ok::<usize, ParseError>(n as usize),
{
    let text = decimal_text(n);
    lemma_decimal_text_is_digits(n);
    assert(is_digit(text[0]));
    assert(is_digit(text[text.len() - 1]));
    lemma_trimmed_padding(before, text, after);
    lemma_parsed_is_decimal_value(text);
}

/// A line is accepted as a move exactly when, without the whitespace on
/// both sides, it is read as a number from 0 to 8 and the cell of that
/// number is empty; the move is then that number.
pub proof fn lemma_validated_move(raw: Seq<char>, cells: Seq<Option<Symbol>>, pos: usize)
    ensures
        validated(raw, cells) == Ok::<usize, ValidationError>(pos) <==> parsed(trimmed(raw)) == Ok::<
            usize,
            ParseError,
        >(pos) && pos <= 8 && cells[pos as int] is None,
{
}

/// The index that an empty cell shows on the rendered board is accepted as
/// the move onto that cell.
pub proof fn lemma_shown_index_is_a_valid_move(cells: Seq<Option<Symbol>>, pos: int)
    requires
        0 <= pos < 9,
        cells[pos] is None,
    ensures
        validated(seq![cell_glyph(cells[pos], pos)], cells) == Ok::<usize, ValidationError>(
            pos as usize,
        ),
{
    let nothing = Seq::<char>::empty();
    let shown = seq![cell_glyph(cells[pos], pos)];
    assert(shown =~= nothing + decimal_text(pos as nat) + nothing);
    lemma_decimal_text_is_parsed(nothing, pos as nat, nothing);
}

/// Whether `c` is whitespace.
pub fn is_space(c: char) -> (yes: bool)
    ensures
        yes == is_whitespace(c),
{
    let code = c as u32;
    (0x09 <= code && code <= 0x0D) || code == 0x20 || code == 0x85 || code == 0xA0 || code
        == 0x1680 || (0x2000 <= code && code <= 0x200A) || code == 0x2028 || code == 0x2029
        || code == 0x202F || code == 0x205F || code == 0x3000
}

/// The value of `c` if it is a decimal digit.
fn digit_of(c: char) -> (digit: Option<usize>)
    ensures
        digit == (if is_digit(c) {
            Some(digit_value(c) as usize)
        } else {
            None
        }),
{
    let code = c as u32;
    if 48 <= code && code <= 57 {
        Some((code - 48) as usize)
    } else {
        None
    }
}

/// The characters of `text`, in order.
fn chars_of(text: &str) -> (chars: Vec<char>)
    ensures
        chars@ == text@,
{
    let mut chars: Vec<char> = Vec::new();
    let all = text.chars();
    for c in it: all
        invariant
            it.seq() == text@,
            chars@ == it.seq().take(it.index()),
    {
        chars.push(c);
    }
    chars
}

/// Where the trimmed text starts and ends within `chars`.
fn trim_bounds(chars: &Vec<char>) -> (bounds: (usize, usize))
    ensures
        bounds.0 <= bounds.1 <= chars.len(),
        chars@.subrange(bounds.0 as int, bounds.1 as int) == trimmed(chars@),
{
    let len = chars.len();
    let mut start: usize = 0;
    assert(chars@.subrange(0, len as int) =~= chars@);
    while start < len && is_space(chars[start])
        invariant
            start <= len == chars.len(),
            trim_start(chars@) == trim_start(chars@.subrange(start as int, len as int)),
        decreases len - start,
    {
        assert(chars@.subrange(start as int, len as int).drop_first() =~= chars@.subrange(
            start + 1,
            len as int,
        ));
        start += 1;
    }
    let mut end: usize = len;
    while end > start && is_space(chars[end - 1])
        invariant
            start <= end <= len == chars.len(),
            trim_end(chars@.subrange(start as int, len as int)) == trim_end(
                chars@.subrange(start as int, end as int),
            ),
        decreases end - start,
    {
        assert(chars@.subrange(start as int, end as int).drop_last() =~= chars@.subrange(
            start as int,
            end - 1,
        ));
        end -= 1;
    }
    (start, end)
}

/// Reads the characters of `chars` from `start` up to `end` as a number.
fn read_number(chars: &Vec<char>, start: usize, end: usize) -> (res: Result<usize, ParseError>)
    requires
        start <= end <= chars.len(),
    ensures
        res == parsed(chars@.subrange(start as int, end as int)),
{
    if start == end {
        return Err(ParseError::Empty);
    }
    let ghost text = chars@.subrange(start as int, end as int);
    let mut next: usize = start;
    if chars[start] == '+' {
        if end - start == 1 {
            return Err(ParseError::InvalidDigit);
        }
        assert(text.drop_first() =~= chars@.subrange(start + 1, end as int));
        next = start + 1;
    }
    let mut value: usize = 0;
    while next < end
        invariant
            start <= next <= end <= chars.len(),
            text == chars@.subrange(start as int, end as int),
            parsed(text) == read_digits(chars@.subrange(next as int, end as int), value as nat),
        decreases end - next,
    {
        let ghost rest = chars@.subrange(next as int, end as int);
        assert(rest.drop_first() =~= chars@.subrange(next + 1, end as int));
        assert(rest.first() == chars@[next as int]);
        let digit = match digit_of(chars[next]) {
            Some(digit) => digit,
            None => {
                return Err(ParseError::InvalidDigit);
            },
        };
        let tens = match value.checked_mul(10) {
            Some(tens) => tens,
            None => {
                return Err(ParseError::PosOverflow);
            },
        };
        value = match tens.checked_add(digit) {
            Some(sum) => sum,
            None => {
                return Err(ParseError::PosOverflow);
            },
        };
        next += 1;
    }
    Ok(value)
}

/// Reads `text` as a number, ignoring whitespace on both sides of it.
pub fn parse_number(text: &str) -> (res: Result<usize, ParseError>)
    ensures
        res == parsed(trimmed(text@)),
{
    let chars = chars_of(text);
    let (start, end) = trim_bounds(&chars);
    read_number(&chars, start, end)
}

/// Checks the typed line `raw_input` as a move on `board`. A line is
/// accepted if, apart from whitespace on both sides, it is a number from 0
/// to 8 that names an empty cell; the result is then that position.
/// Otherwise the result says why it is not accepted. The board is only
/// read.
pub fn validate(raw_input: &str, board: &Board) -> (res: Result<usize, ValidationError>)
    ensures
        res == validated(raw_input@, board@),
        res matches Ok(pos) ==> pos < 9 && board@[pos as int] is None,
{
    match parse_number(raw_input) {
        Err(error) => Err(ValidationError::Parse(error)),
        Ok(pos) => {
            if pos > 8 {
                Err(ValidationError::OutOfRange(pos))
            } else {
                match board.cell(pos) {
                    Some(symbol) => Err(ValidationError::Occupied(pos, symbol)),
                    None => Ok(pos),
                }
            }
        },
    }
}

} // verus!
