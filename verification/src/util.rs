//! Text helpers: characters of a string, offset expressions, hexadecimal
//! output, and the placement of a dialog.

use vstd::prelude::*;
use vstd::slice::slice_subrange;
use vstd::string::StringExecFns;

verus! {

broadcast use vstd::string::group_string_axioms;

/// The characters of `text`, in order.
pub fn chars_of(text: &str) -> (chars: Vec<char>)
    ensures
        chars@ == text@,
{
    let mut chars: Vec<char> = Vec::new();
    for c in it: text.chars()
        invariant
            it.seq() == text@,
            chars@ == text@.take(it.index() as int),
    {
        chars.push(c);
        assert(text@.take(it.index() + 1) =~= text@.take(it.index() as int).push(c));
    }
    assert(text@.take(text@.len() as int) =~= text@);
    chars
}

/// Why an offset expression is no number.
#[derive(Debug, PartialEq, Eq, Structural, Clone, Copy)]
pub enum ParseError {
    /// There is no digit at all.
    Empty,
    /// A character is no digit of the radix, or a sign stands alone.
    InvalidDigit,
    /// The number does not fit in 64 bits.
    Overflow,
}

/// The value of `c` as a digit of `radix`: `0`-`9`, then the letters in
/// either case from ten on.
pub open spec fn digit_value(c: char, radix: int) -> Option<int> {
    let code = c as u32 as int;
    let value = if 0x30 <= code <= 0x39 {
        code - 0x30
    } else if 0x61 <= code <= 0x7a {
        code - 0x61 + 10
    } else if 0x41 <= code <= 0x5a {
        code - 0x41 + 10
    } else {
        radix
    };
    if value < radix {
        Some(value)
    } else {
        None
    }
}

/// The number that `digits` write in `radix`, most significant digit first.
/// The leftmost character that is no digit, or at which the number outgrows
/// 64 bits, decides the error.
pub open spec fn digits_value(digits: Seq<char>, radix: int) -> Result<u64, ParseError>
    decreases digits.len(),
{
    if digits.len() == 0 {
        Ok(0)
    } else {
        match digits_value(digits.drop_last(), radix) {
            Err(error) => Err(error),
            Ok(high) => match digit_value(digits.last(), radix) {
                None => Err(ParseError::InvalidDigit),
                Some(low) => if high * radix + low > u64::MAX {
                    Err(ParseError::Overflow)
                } else {
                    Ok((high * radix + low) as u64)
                },
            },
        }
    }
}

/// The unsigned number that `text` writes in `radix`: digits, with one `+`
/// allowed before them.
pub open spec fn number_value(text: Seq<char>, radix: int) -> Result<u64, ParseError> {
    if text.len() == 0 {
        Err(ParseError::Empty)
    } else if text.len() == 1 && (text[0] == '+' || text[0] == '-') {
        Err(ParseError::InvalidDigit)
    } else if text[0] == '+' {
        digits_value(text.skip(1), radix)
    } else {
        digits_value(text, radix)
    }
}

/// The offset that `expr` denotes: decimal where it ends in `t`,
/// hexadecimal otherwise.
pub open spec fn offset_value(expr: Seq<char>) -> Result<u64, ParseError> {
    if expr.len() > 0 && expr.last() == 't' {
        number_value(expr.drop_last(), 10)
    } else {
        number_value(expr, 16)
    }
}

/// The value of one digit.
fn digit_of(c: char, radix: u64) -> (value: Option<u64>)
    requires
        2 <= radix <= 36,
    ensures
        match value {
            Some(v) => digit_value(c, radix as int) == Some(v as int),
            None => digit_value(c, radix as int) is None,
        },
{
    let code: u32 = c as u32;
    let value: u64 = if 0x30 <= code && code <= 0x39 {
        (code - 0x30) as u64
    } else if 0x61 <= code && code <= 0x7a {
        (code - 0x61 + 10) as u64
    } else if 0x41 <= code && code <= 0x5a {
        (code - 0x41 + 10) as u64
    } else {
        radix
    };
    if value < radix {
        Some(value)
    } else {
        None
    }
}

/// Reads `text[from..]` as digits of `radix`.
fn parse_digits(text: &[char], from: usize, radix: u64) -> (number: Result<u64, ParseError>)
    requires
        2 <= radix <= 36,
        from <= text.len(),
    ensures
        number == digits_value(text@.skip(from as int), radix as int),
{
    let ghost digits = text@.skip(from as int);
    let mut value: u64 = 0;
    let mut i: usize = from;
    while i < text.len()
        invariant
            2 <= radix <= 36,
            from <= i <= text.len(),
            digits == text@.skip(from as int),
            digits_value(digits.take(i - from), radix as int) == Ok::<u64, ParseError>(value),
        decreases text.len() - i,
    {
        let ghost seen = digits.take(i - from + 1);
        assert(seen.drop_last() =~= digits.take(i - from));
        assert(seen.last() == text[i as int]);
        let low = match digit_of(text[i], radix) {
            Some(low) => low,
            None => {
                proof {
                    lemma_error_stays(digits, i - from + 1, radix as int);
                }
                return Err(ParseError::InvalidDigit);
            },
        };
        let next = match value.checked_mul(radix) {
            Some(shifted) => shifted.checked_add(low),
            None => None,
        };
        value = match next {
            Some(next) => next,
            None => {
                proof {
                    assert(value * radix + low > u64::MAX) by (nonlinear_arith)
                        requires
                            value * radix > u64::MAX || value * radix + low > u64::MAX,
                            low >= 0,
                    ;
                    lemma_error_stays(digits, i - from + 1, radix as int);
                }
                return Err(ParseError::Overflow);
            },
        };
        i += 1;
    }
    assert(digits.take(i - from) =~= digits);
    Ok(value)
}

/// Once a prefix of the digits fails, the whole fails in the same way.
proof fn lemma_error_stays(digits: Seq<char>, upto: int, radix: int)
    requires
        0 <= upto <= digits.len(),
        digits_value(digits.take(upto), radix) is Err,
    ensures
        digits_value(digits, radix) == digits_value(digits.take(upto), radix),
    decreases digits.len() - upto,
{
    if upto < digits.len() {
        assert(digits.take(upto + 1).drop_last() =~= digits.take(upto));
        lemma_error_stays(digits, upto + 1, radix);
    } else {
        assert(digits.take(upto) =~= digits);
    }
}

/// Reads `text` as an unsigned number in `radix`.
pub fn parse_number(text: &[char], radix: u64) -> (number: Result<u64, ParseError>)
    requires
        2 <= radix <= 36,
    ensures
        number == number_value(text@, radix as int),
{
    if text.len() == 0 {
        Err(ParseError::Empty)
    } else if text.len() == 1 && (text[0] == '+' || text[0] == '-') {
        Err(ParseError::InvalidDigit)
    } else if text[0] == '+' {
        parse_digits(text, 1, radix)
    } else {
        assert(text@.skip(0) =~= text@);
        parse_digits(text, 0, radix)
    }
}

/// Reads an offset expression: a hexadecimal number, or a decimal number
/// followed by `t`. One `+` may stand before the digits.
pub fn parse_offset_chars(expr: &[char]) -> (offset: Result<u64, ParseError>)
    ensures
        offset == offset_value(expr@),
{
    let len = expr.len();
    if len > 0 && expr[len - 1] == 't' {
        let number = slice_subrange(expr, 0, len - 1);
        assert(number@ =~= expr@.drop_last());
        parse_number(number, 10)
    } else {
        parse_number(expr, 16)
    }
}

/// Reads an offset expression: a hexadecimal number, or a decimal number
/// followed by `t`. One `+` may stand before the digits.
pub fn parse_offset(expr: &str) -> (offset: Result<u64, ParseError>)
    ensures
        offset == offset_value(expr@),
{
    let chars = chars_of(expr);
    parse_offset_chars(chars.as_slice())
}

/// The sixteen hexadecimal digits, capitals for ten to fifteen.
pub open spec fn hex_digits() -> Seq<char> {
    seq!['0', '1', '2', '3', '4', '5', '6', '7', '8', '9', 'A', 'B', 'C', 'D', 'E', 'F']
}

/// A byte as two hexadecimal digits.
pub open spec fn hex_pair(byte: u8) -> Seq<char> {
    seq![hex_digits()[byte as int / 16], hex_digits()[byte as int % 16]]
}

/// A number in hexadecimal, without leading zeros: one digit for zero.
pub open spec fn hex_number(number: nat) -> Seq<char>
    decreases number,
{
    if number < 16 {
        seq![hex_digits()[number as int]]
    } else {
        hex_number(number / 16).push(hex_digits()[number as int % 16])
    }
}

/// One hexadecimal digit as text.
fn hex_digit_text(value: u8) -> (text: &'static str)
    requires
        value < 16,
    ensures
        text@ == seq![hex_digits()[value as int]],
{
    proof {
        reveal_strlit("0");
        reveal_strlit("1");
        reveal_strlit("2");
        reveal_strlit("3");
        reveal_strlit("4");
        reveal_strlit("5");
        reveal_strlit("6");
        reveal_strlit("7");
        reveal_strlit("8");
        reveal_strlit("9");
        reveal_strlit("A");
        reveal_strlit("B");
        reveal_strlit("C");
        reveal_strlit("D");
        reveal_strlit("E");
        reveal_strlit("F");
    }
    let text = match value {
        0 => "0",
        1 => "1",
        2 => "2",
        3 => "3",
        4 => "4",
        5 => "5",
        6 => "6",
        7 => "7",
        8 => "8",
        9 => "9",
        10 => "A",
        11 => "B",
        12 => "C",
        13 => "D",
        14 => "E",
        _ => "F",
    };
    assert(text@ =~= seq![hex_digits()[value as int]]);
    text
}

/// Appends `byte` to `text` as two hexadecimal digits.
pub fn push_hex_pair(text: &mut String, byte: u8)
    ensures
        final(text)@ == old(text)@ + hex_pair(byte),
{
    text.append(hex_digit_text(byte / 16));
    text.append(hex_digit_text(byte % 16));
    assert(text@ =~= old(text)@ + hex_pair(byte));
}

/// Appends `number` to `text` in hexadecimal, without leading zeros.
pub fn push_hex_number(text: &mut String, number: u64)
    ensures
        final(text)@ == old(text)@ + hex_number(number as nat),
    decreases number,
{
    if number >= 16 {
        push_hex_number(text, number / 16);
    }
    text.append(hex_digit_text((number % 16) as u8));
    assert(text@ =~= old(text)@ + hex_number(number as nat));
}

/// A rectangle of terminal cells.
#[derive(Debug, PartialEq, Eq, Structural, Clone, Copy)]
pub struct Rect {
    pub x: u16,
    pub y: u16,
    pub width: u16,
    pub height: u16,
}

/// Whether a widget of `width` by `height` cells can be centred in `area`
/// with one line to spare above its middle.
pub open spec fn fits_centered(width: u16, height: u16, area: Rect) -> bool {
    width / 2 <= area.width / 2 && height / 2 + 1 <= area.height / 2
}

/// The place of a widget of `width` by `height` cells in the middle of an
/// area of the size of `area`, one line above the centre.
pub fn center_widget(width: u16, height: u16, area: Rect) -> (placed: Rect)
    requires
        fits_centered(width, height, area),
    ensures
        placed == (Rect {
            x: (area.width / 2 - width / 2) as u16,
            y: (area.height / 2 - height / 2 - 1) as u16,
            width,
            height,
        }),
{
    Rect { x: area.width / 2 - width / 2, y: area.height / 2 - height / 2 - 1, width, height }
}

/// The place of a list of choices on a screen of the size of `area`: a
/// third of its width and a quarter of its height, centred. `None` where
/// the screen has fewer than two lines.
pub fn choice_area(area: Rect) -> (placed: Option<Rect>)
    ensures
        placed == if area.height >= 2 {
            Some(
                Rect {
                    x: (area.width / 2 - area.width / 3 / 2) as u16,
                    y: (area.height / 2 - area.height / 4 / 2 - 1) as u16,
                    width: area.width / 3,
                    height: area.height / 4,
                },
            )
        } else {
            None
        },
{
    if area.height >= 2 {
        Some(center_widget(area.width / 3, area.height / 4, area))
    } else {
        None
    }
}

} // verus!
