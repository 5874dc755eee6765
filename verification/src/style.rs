//! Emphasis for terminals: titles, headings, keys and values set apart by
//! colour and weight where the terminal shows them.

use vstd::prelude::*;
use crate::text::{is_decimal_digit, pad_right};

verus! {

/// The character that opens a control sequence.
pub open spec fn escape() -> char {
    '\x1b'
}

/// True where `text` holds an escape character.
pub open spec fn has_escape(text: Seq<char>) -> bool {
    exists|i: int| 0 <= i < text.len() && text[i] == escape()
}

/// True of the sequences that switch styles on or off: an escape character, an
/// opening square bracket, digits and semicolons, and the letter `m`.
pub open spec fn is_style_code(code: Seq<char>) -> bool {
    &&& code.len() >= 3
    &&& code[0] == escape()
    &&& code[1] == '['
    &&& code[code.len() - 1] == 'm'
    &&& forall|i: int|
        2 <= i < code.len() - 1 ==> is_decimal_digit(#[trigger] code[i]) || code[i] == ';'
}

/// The sequence that switches every style off.
pub open spec fn reset_code() -> Seq<char> {
    seq![escape(), '[', '0', 'm']
}

/// `text` between a style code and the reset code.
pub open spec fn in_style(code: Seq<char>, text: Seq<char>) -> Seq<char> {
    code + text + reset_code()
}

/// True where `shown` is `text` as a terminal is given it: `text` itself, or
/// `text` between a style code and the reset code. Of a text that holds an
/// escape character of its own nothing is said.
pub open spec fn styled_as(shown: Seq<char>, text: Seq<char>) -> bool {
    has_escape(text) || shown == text || exists|code: Seq<char>|
        is_style_code(code) && shown == #[trigger] in_style(code, text)
}

/// True of the characters that stand between the bracket and the letter of
/// a style code.
pub open spec fn is_code_body(c: char) -> bool {
    is_decimal_digit(c) || c == ';'
}

/// Where the digits and semicolons that begin at `from` come to an end.
pub open spec fn body_end(text: Seq<char>, from: int) -> int
    decreases text.len() - from,
{
    if 0 <= from < text.len() && is_code_body(text[from]) {
        body_end(text, from + 1)
    } else {
        from
    }
}

/// The length of the style code that `text` begins with, and zero where it
/// begins with none.
pub open spec fn leading_code_len(text: Seq<char>) -> int {
    if text.len() >= 3 && text[0] == escape() && text[1] == '[' {
        let end = body_end(text, 2);
        if end < text.len() && text[end] == 'm' {
            end + 1
        } else {
            0
        }
    } else {
        0
    }
}

/// `text` as it reads on a terminal: every style code in it is left out, and
/// every other character stays.
pub open spec fn without_styles(text: Seq<char>) -> Seq<char>
    decreases text.len(),
{
    if text.len() == 0 {
        text
    } else {
        let code = leading_code_len(text);
        if 0 < code <= text.len() {
            without_styles(text.skip(code))
        } else {
            seq![text[0]] + without_styles(text.skip(1))
        }
    }
}

/// Inside a style code the digits and semicolons end at its last character.
proof fn lemma_body_ends_with_the_code(code: Seq<char>, rest: Seq<char>, from: int)
    requires
        is_style_code(code),
        2 <= from <= code.len() - 1,
    ensures
        body_end(code + rest, from) == code.len() - 1,
    decreases code.len() - from,
{
    let text = code + rest;
    assert(text[from] == code[from]);
    if from < code.len() - 1 {
        lemma_body_ends_with_the_code(code, rest, from + 1);
    }
}

/// A style code at the start of a text is left out.
pub proof fn lemma_code_is_left_out(code: Seq<char>, rest: Seq<char>)
    requires
        is_style_code(code),
    ensures
        without_styles(code + rest) == without_styles(rest),
{
    let text = code + rest;
    lemma_body_ends_with_the_code(code, rest, 2);
    assert(text[0] == code[0] && text[1] == code[1]);
    assert(text[code.len() - 1] == code[code.len() - 1]);
    assert(leading_code_len(text) == code.len());
    assert(text.skip(code.len() as int) =~= rest);
}

/// A text without escape characters stays as it is.
pub proof fn lemma_plain_text_stays(text: Seq<char>, rest: Seq<char>)
    requires
        !has_escape(text),
    ensures
        without_styles(text + rest) == text + without_styles(rest),
    decreases text.len(),
{
    let whole = text + rest;
    if text.len() == 0 {
        assert(whole =~= rest);
        assert(text + without_styles(rest) =~= without_styles(rest));
    } else {
        assert(whole[0] == text[0]);
        assert(text[0] != escape());
        assert(leading_code_len(whole) == 0);
        let tail = text.skip(1);
        assert(whole.skip(1) =~= tail + rest);
        assert(!has_escape(tail)) by {
            assert forall|i: int| 0 <= i < tail.len() implies tail[i] != escape() by {
                assert(tail[i] == text[i + 1]);
            }
        }
        lemma_plain_text_stays(tail, rest);
        assert(seq![text[0]] + (tail + without_styles(rest)) =~= text + without_styles(rest));
    }
}

/// The reset code is a style code.
pub proof fn lemma_reset_is_a_code()
    ensures
        is_style_code(reset_code()),
{
}

/// A text as a terminal is given it reads as the text itself, so long as the
/// text holds no escape character.
pub proof fn lemma_styled_reads_as_plain(shown: Seq<char>, text: Seq<char>, rest: Seq<char>)
    requires
        styled_as(shown, text),
        !has_escape(text),
    ensures
        without_styles(shown + rest) == text + without_styles(rest),
{
    if shown == text {
        lemma_plain_text_stays(text, rest);
    } else {
        let code = choose|code: Seq<char>| is_style_code(code) && shown == in_style(code, text);
        assert(shown + rest =~= code + (text + (reset_code() + rest)));
        lemma_code_is_left_out(code, text + (reset_code() + rest));
        lemma_plain_text_stays(text, reset_code() + rest);
        lemma_reset_is_a_code();
        lemma_code_is_left_out(reset_code(), rest);
    }
}

/// The widest column that text can be aligned in: the largest width that
/// formatting takes.
pub const MAX_WIDTH: usize = 65535;

/// What a stretch of text is in a report.
#[derive(Clone, Copy, Debug, PartialEq, Eq, Structural)]
pub enum Emphasis {
    /// The line above the whole report: bold and underlined.
    Title,
    /// The title of a section: bold.
    Heading,
    /// The key of a row: cyan and bold.
    Key,
    /// The value of a row: yellow.
    Value,
}

/// `colored::ColoredString`: a text and the styles it is to be shown in.
/// Verus sees nothing inside it.
#[verifier::external_type_specification]
#[verifier::external_body]
pub struct ExColoredString(colored::ColoredString);

/// The text that a styled string carries, whatever its styles.
pub uninterp spec fn styled_text(styled: colored::ColoredString) -> Seq<char>;

/// `ColoredString::from` for a string slice: a styled string that carries
/// `text` and has no style yet.
#[verifier::external_body]
fn unstyled(text: &str) -> (styled: colored::ColoredString)
    ensures
        styled_text(styled) == text@,
{
    colored::ColoredString::from(text)
}

/// `Colorize::bold` of a styled string: it adds a style and leaves the text
/// as it is.
#[verifier::external_body]
fn bold(styled: colored::ColoredString) -> (bolder: colored::ColoredString)
    ensures
        styled_text(bolder) == styled_text(styled),
{
    colored::Colorize::bold(styled)
}

/// `Colorize::underline` of a styled string: it adds a style and leaves the
/// text as it is.
#[verifier::external_body]
fn underline(styled: colored::ColoredString) -> (underlined: colored::ColoredString)
    ensures
        styled_text(underlined) == styled_text(styled),
{
    colored::Colorize::underline(styled)
}

/// `Colorize::cyan` of a styled string: it sets the colour and leaves the
/// text as it is.
#[verifier::external_body]
fn cyan(styled: colored::ColoredString) -> (coloured: colored::ColoredString)
    ensures
        styled_text(coloured) == styled_text(styled),
{
    colored::Colorize::cyan(styled)
}

/// `Colorize::yellow` of a styled string: it sets the colour and leaves the
/// text as it is.
#[verifier::external_body]
fn yellow(styled: colored::ColoredString) -> (coloured: colored::ColoredString)
    ensures
        styled_text(coloured) == styled_text(styled),
{
    colored::Colorize::yellow(styled)
}

/// `Display` of a styled string, left-aligned in `width` columns. Whether
/// styles are written depends on the terminal and the environment, so the
/// result is one of two: the text padded with spaces to `width` characters,
/// or that same padded text between the code of its styles and the reset
/// code. This is claimed of a text without escape characters only: where the
/// text holds reset codes of its own, the styles are written again after
/// each. The formatter takes no width above `MAX_WIDTH`, so none is passed.
#[verifier::external_body]
fn show(styled: &colored::ColoredString, width: usize) -> (shown: String)
    requires
        width <= MAX_WIDTH,
    ensures
        styled_as(shown@, pad_right(styled_text(*styled), width as nat)),
{
    format!("{: <width$}", styled)
}

/// `text` with the emphasis of its place in a report, left-aligned in `width`
/// columns, of which there can be `MAX_WIDTH` at most.
pub fn emphasized(text: &str, emphasis: Emphasis, width: usize) -> (shown: String)
    requires
        width <= MAX_WIDTH,
    ensures
        styled_as(shown@, pad_right(text@, width as nat)),
{
    let plain = unstyled(text);
    let styled = match emphasis {
        Emphasis::Title => underline(bold(plain)),
        Emphasis::Heading => bold(plain),
        Emphasis::Key => bold(cyan(plain)),
        Emphasis::Value => yellow(plain),
    };
    show(&styled, width)
}

} // verus!
