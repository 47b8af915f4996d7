//! Text helpers: the contents of strings, decimal rendering and trimming.

use vstd::prelude::*;

verus! {

/// The contents of an optional string.
pub open spec fn optional_text_view(text: Option<String>) -> Option<Seq<char>> {
    match text {
        Some(text) => Some(text@),
        None => None,
    }
}

/// The contents of a list of strings.
pub open spec fn text_views(texts: Seq<String>) -> Seq<Seq<char>> {
    Seq::new(texts.len(), |i: int| texts[i]@)
}

/// The contents of a list of optional strings.
pub open spec fn optional_text_views(texts: Seq<Option<String>>) -> Seq<Option<Seq<char>>> {
    Seq::new(texts.len(), |i: int| optional_text_view(texts[i]))
}

/// The character that stands for the digit `d`, for `d` below ten.
pub open spec fn digit_char(d: nat) -> char {
    if d == 0 {
        '0'
    } else if d == 1 {
        '1'
    } else if d == 2 {
        '2'
    } else if d == 3 {
        '3'
    } else if d == 4 {
        '4'
    } else if d == 5 {
        '5'
    } else if d == 6 {
        '6'
    } else if d == 7 {
        '7'
    } else if d == 8 {
        '8'
    } else {
        '9'
    }
}

/// The decimal numeral of `n`, most significant digit first, without padding.
pub open spec fn decimal(n: nat) -> Seq<char>
    decreases n,
{
    if n < 10 {
        seq![digit_char(n)]
    } else {
        decimal(n / 10).push(digit_char(n % 10))
    }
}

/// The digit that `c` stands for; zero for any other character.
pub open spec fn digit_value(c: char) -> nat {
    if c == '1' {
        1
    } else if c == '2' {
        2
    } else if c == '3' {
        3
    } else if c == '4' {
        4
    } else if c == '5' {
        5
    } else if c == '6' {
        6
    } else if c == '7' {
        7
    } else if c == '8' {
        8
    } else if c == '9' {
        9
    } else {
        0
    }
}

/// The number that a decimal numeral stands for.
pub open spec fn numeral_value(numeral: Seq<char>) -> nat
    decreases numeral.len(),
{
    if numeral.len() == 0 {
        0
    } else {
        10 * numeral_value(numeral.drop_last()) + digit_value(numeral.last())
    }
}

/// A decimal numeral is made of digits, begins with `0` only where it is
/// `0`, and stands for the number it was made from.
pub proof fn lemma_decimal_reads_back(n: nat)
    ensures
        decimal(n).len() >= 1,
        forall|i: int| 0 <= i < decimal(n).len() ==> '0' <= #[trigger] decimal(n)[i] <= '9',
        decimal(n).first() == '0' <==> n == 0,
        numeral_value(decimal(n)) == n,
    decreases n,
{
    if n < 10 {
        assert(decimal(n).drop_last() == Seq::<char>::empty());
        assert(numeral_value(decimal(n).drop_last()) == 0);
    } else {
        lemma_decimal_reads_back(n / 10);
        assert(decimal(n).drop_last() == decimal(n / 10));
        assert(decimal(n).first() == decimal(n / 10).first());
    }
}

/// The one-character string for a digit.
fn digit_str(d: u64) -> (s: &'static str)
    requires
        d < 10,
    ensures
        s@ == seq![digit_char(d as nat)],
{
    proof {
        reveal_strlit("0");
        reveal_strlit("1");
        reveal_strlit("2");
        reveal_strlit("3");
        reveal_strlit("4");
        reveal_strlit("5");
        reveal_strlit("6");
        reveal_strlit("7");
        reveal_strlit("8");
        reveal_strlit("9");
    }
    if d == 0 {
        "0"
    } else if d == 1 {
        "1"
    } else if d == 2 {
        "2"
    } else if d == 3 {
        "3"
    } else if d == 4 {
        "4"
    } else if d == 5 {
        "5"
    } else if d == 6 {
        "6"
    } else if d == 7 {
        "7"
    } else if d == 8 {
        "8"
    } else {
        "9"
    }
}

/// Renders `n` as a decimal numeral.
pub fn render_decimal(n: u64) -> (s: String)
    ensures
        s@ == decimal(n as nat),
    decreases n,
{
    if n < 10 {
        String::from_str(digit_str(n))
    } else {
        let mut s = render_decimal(n / 10);
        s.append(digit_str(n % 10));
        s
    }
}

/// Whether `c` has the White_Space property of Unicode, by which `str::trim`
/// tells what to cut: the controls U+0009 to U+000D and U+0085, the line and
/// paragraph separators, and the seventeen space characters.
pub open spec fn white_space(c: char) -> bool {
    ||| '\u{9}' <= c <= '\u{d}'
    ||| c == ' '
    ||| c == '\u{85}'
    ||| c == '\u{a0}'
    ||| c == '\u{1680}'
    ||| '\u{2000}' <= c <= '\u{200a}'
    ||| c == '\u{2028}'
    ||| c == '\u{2029}'
    ||| c == '\u{202f}'
    ||| c == '\u{205f}'
    ||| c == '\u{3000}'
}

/// Whether `text` has no white space at either end.
pub open spec fn tidy(text: Seq<char>) -> bool {
    text.len() > 0 ==> !white_space(text.first()) && !white_space(text.last())
}

/// `text` without its leading white space.
pub open spec fn trim_leading(text: Seq<char>) -> Seq<char>
    decreases text.len(),
{
    if text.len() > 0 && white_space(text.first()) {
        trim_leading(text.drop_first())
    } else {
        text
    }
}

/// `text` without its trailing white space.
pub open spec fn trim_trailing(text: Seq<char>) -> Seq<char>
    decreases text.len(),
{
    if text.len() > 0 && white_space(text.last()) {
        trim_trailing(text.drop_last())
    } else {
        text
    }
}

/// `text` without leading and trailing white space.
pub open spec fn trimmed(text: Seq<char>) -> Seq<char> {
    trim_trailing(trim_leading(text))
}

/// Trimming cuts at the ends only: what is left is one stretch of the text.
pub proof fn lemma_trimmed_is_stretch(text: Seq<char>) -> (ends: (int, int))
    ensures
        0 <= ends.0 <= ends.1 <= text.len(),
        trimmed(text) == text.subrange(ends.0, ends.1),
{
    let from = lemma_trim_leading_is_tail(text);
    let tail = trim_leading(text);
    let to = lemma_trim_trailing_is_head(tail);
    assert(tail.take(to) == text.subrange(from, from + to));
    (from, from + to)
}

/// What is left after the leading white space is a tail of the text.
pub proof fn lemma_trim_leading_is_tail(text: Seq<char>) -> (from: int)
    ensures
        0 <= from <= text.len(),
        trim_leading(text) == text.skip(from),
    decreases text.len(),
{
    if text.len() > 0 && white_space(text.first()) {
        let from = lemma_trim_leading_is_tail(text.drop_first());
        assert(text.drop_first().skip(from) == text.skip(from + 1));
        from + 1
    } else {
        assert(text.skip(0) == text);
        0
    }
}

/// What is left after the trailing white space is a head of the text.
pub proof fn lemma_trim_trailing_is_head(text: Seq<char>) -> (to: int)
    ensures
        0 <= to <= text.len(),
        trim_trailing(text) == text.take(to),
    decreases text.len(),
{
    if text.len() > 0 && white_space(text.last()) {
        let to = lemma_trim_trailing_is_head(text.drop_last());
        assert(text.drop_last().take(to) == text.take(to));
        to
    } else {
        assert(text.take(text.len() as int) == text);
        text.len() as int
    }
}

/// Trimming leaves a text that has no white space at its ends as it is.
pub proof fn lemma_tidy_text_is_left_alone(text: Seq<char>)
    requires
        tidy(text),
    ensures
        trimmed(text) == text,
{
}

/// What trimming leaves has no white space at its ends.
pub proof fn lemma_trimmed_is_tidy(text: Seq<char>)
    ensures
        tidy(trimmed(text)),
{
    lemma_trim_leading_is_tidy_in_front(text);
    lemma_trim_trailing_keeps_front(trim_leading(text));
}

/// What is left after the leading white space does not begin with any.
pub proof fn lemma_trim_leading_is_tidy_in_front(text: Seq<char>)
    ensures
        trim_leading(text).len() > 0 ==> !white_space(trim_leading(text).first()),
    decreases text.len(),
{
    if text.len() > 0 && white_space(text.first()) {
        lemma_trim_leading_is_tidy_in_front(text.drop_first());
    }
}

/// What is left after the trailing white space does not end with any, and
/// begins as the text did.
pub proof fn lemma_trim_trailing_keeps_front(text: Seq<char>)
    ensures
        trim_trailing(text).len() > 0 ==> !white_space(trim_trailing(text).last())
            && trim_trailing(text).first() == text.first(),
    decreases text.len(),
{
    if text.len() > 0 && white_space(text.last()) {
        lemma_trim_trailing_keeps_front(text.drop_last());
    }
}

/// Calls `str::trim`.
///
/// Trusted: the result is the text with the longest run of white-space
/// characters cut from each end, as the documentation of `str::trim` says;
/// white space is what has the White_Space property of Unicode.
#[verifier::external_body]
pub(crate) fn trim(text: &str) -> (inner: String)
    ensures
        inner@ == trimmed(text@),
{
    text.trim().to_string()
}

} // verus!
