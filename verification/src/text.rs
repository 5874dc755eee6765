//! Numbers as text: decimal and upper-case hexadecimal digits, and padding.

use vstd::prelude::*;
use vstd::string::StringExecFns;
use vstd::string::StrSliceExecFns;

verus! {

/// The character that stands for the digit `d` in bases up to sixteen,
/// with capital letters from ten on.
pub open spec fn digit_char(d: nat) -> char {
    if d < 10 {
        ('0' as u8 + d) as u8 as char
    } else {
        ('A' as u8 + d - 10) as u8 as char
    }
}

/// True of the ten decimal digits.
pub open spec fn is_decimal_digit(c: char) -> bool {
    '0' <= c && c <= '9'
}

/// `n` in decimal, most significant digit first, without leading zeros;
/// zero is the single digit `0`.
pub open spec fn decimal(n: nat) -> Seq<char>
    decreases n,
{
    if n < 10 {
        seq![digit_char(n)]
    } else {
        decimal(n / 10).push(digit_char(n % 10))
    }
}

/// True of the texts that are one or more decimal digits.
pub open spec fn is_digits(text: Seq<char>) -> bool {
    text.len() >= 1 && forall|i: int| 0 <= i < text.len() ==> is_decimal_digit(#[trigger] text[i])
}

/// A number in decimal is written with decimal digits, with one at least,
/// and does not begin with a zero unless it is zero.
pub proof fn lemma_decimal_is_digits(n: nat)
    ensures
        is_digits(decimal(n)),
        n > 0 ==> decimal(n)[0] != '0',
    decreases n,
{
    if n >= 10 {
        lemma_decimal_is_digits(n / 10);
    }
}

/// `n` in hexadecimal with capital letters, most significant digit first,
/// without leading zeros; zero is the single digit `0`.
pub open spec fn upper_hex(n: nat) -> Seq<char>
    decreases n,
{
    if n < 16 {
        seq![digit_char(n)]
    } else {
        upper_hex(n / 16).push(digit_char(n % 16))
    }
}

/// True of the sixteen hexadecimal digits with capital letters.
pub open spec fn is_upper_hex_digit(c: char) -> bool {
    is_decimal_digit(c) || ('A' <= c && c <= 'F')
}

/// A number in hexadecimal is written with hexadecimal digits, capital
/// letters among them, with one digit at least, and does not begin with a
/// zero unless it is zero.
pub proof fn lemma_upper_hex_is_digits(n: nat)
    ensures
        upper_hex(n).len() >= 1,
        forall|i: int|
            0 <= i < upper_hex(n).len() ==> is_upper_hex_digit(#[trigger] upper_hex(n)[i]),
        n > 0 ==> upper_hex(n)[0] != '0',
    decreases n,
{
    if n >= 16 {
        lemma_upper_hex_is_digits(n / 16);
    }
}

/// The one-character text of a digit below sixteen.
pub fn digit_str(d: u8) -> (s: &'static str)
    requires
        d < 16,
    ensures
        s@ == seq![digit_char(d as nat)],
{
    proof {
        reveal_strlit("0");
        reveal_strlit("1");
        reveal_strlit("2");
        reveal_strlit("3");
        reveal_strlit("4");
        reveal_strlit("5");
        reveal_strlit("6");
        reveal_strlit("7");
        reveal_strlit("8");
        reveal_strlit("9");
        reveal_strlit("A");
        reveal_strlit("B");
        reveal_strlit("C");
        reveal_strlit("D");
        reveal_strlit("E");
        reveal_strlit("F");
    }
    let s = match d {
        0 => "0",
        1 => "1",
        2 => "2",
        3 => "3",
        4 => "4",
        5 => "5",
        6 => "6",
        7 => "7",
        8 => "8",
        9 => "9",
        10 => "A",
        11 => "B",
        12 => "C",
        13 => "D",
        14 => "E",
        _ => "F",
    };
    assert(s@ =~= seq![digit_char(d as nat)]);
    s
}

/// Appends `n` in decimal to `out`.
pub fn push_decimal(out: &mut String, n: u64)
    ensures
        final(out)@ == old(out)@ + decimal(n as nat),
    decreases n,
{
    if n >= 10 {
        push_decimal(out, n / 10);
    }
    out.append(digit_str((n % 10) as u8));
    assert(out@ =~= old(out)@ + decimal(n as nat));
}

/// Appends `n` in hexadecimal, with capital letters, to `out`.
pub fn push_upper_hex(out: &mut String, n: u64)
    ensures
        final(out)@ == old(out)@ + upper_hex(n as nat),
    decreases n,
{
    if n >= 16 {
        push_upper_hex(out, n / 16);
    }
    out.append(digit_str((n % 16) as u8));
    assert(out@ =~= old(out)@ + upper_hex(n as nat));
}

/// The character of `text` at `at`, and a space where the text has ended
/// before.
pub open spec fn char_or_space(text: Seq<char>, at: int) -> char {
    if 0 <= at < text.len() {
        text[at]
    } else {
        ' '
    }
}

/// The length of a text and four of its characters. Two texts of which these
/// differ are different texts.
pub open spec fn glimpse(text: Seq<char>, a: int, b: int, c: int, d: int) -> (
    nat,
    char,
    char,
    char,
    char,
) {
    (
        text.len(),
        char_or_space(text, a),
        char_or_space(text, b),
        char_or_space(text, c),
        char_or_space(text, d),
    )
}

/// `count` spaces.
pub open spec fn spaces(count: nat) -> Seq<char> {
    Seq::new(count, |i: int| ' ')
}

/// `text` followed by as many spaces as bring it to `width` characters;
/// `text` itself where it is that long already.
pub open spec fn pad_right(text: Seq<char>, width: nat) -> Seq<char> {
    if text.len() < width {
        text + spaces((width - text.len()) as nat)
    } else {
        text
    }
}

/// Appends `text` to `out`, padded with spaces on the right to `width`
/// characters.
pub fn push_padded(out: &mut String, text: &str, width: usize)
    ensures
        final(out)@ == old(out)@ + pad_right(text@, width as nat),
{
    out.append(text);
    let mut len: usize = text.unicode_len();
    if len < width {
        while len < width
            invariant
                text@.len() <= len <= width,
                out@ == old(out)@ + text@ + spaces((len - text@.len()) as nat),
            decreases width - len,
        {
            out.append(" ");
            proof {
                reveal_strlit(" ");
                assert(spaces((len - text@.len()) as nat) + " "@ =~= spaces(
                    (len + 1 - text@.len()) as nat,
                ));
                assert(out@ =~= old(out)@ + text@ + spaces((len + 1 - text@.len()) as nat));
            }
            len = len + 1;
        }
        assert(out@ =~= old(out)@ + pad_right(text@, width as nat));
    } else {
        assert(out@ =~= old(out)@ + pad_right(text@, width as nat));
    }
}

} // verus!
