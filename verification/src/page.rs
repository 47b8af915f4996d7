//! What a vehicle's detail page says of its mileage and its valuation.
//!
//! The mileage is the text of the element that follows the one labelled
//! `Mileage:`; the valuation is the text of the first valuation row, reduced
//! to what reads as a number. Either is `Unknown` where the page has none.

use vstd::prelude::*;
use vstd::utf8::is_ascii_chars;
use crate::error::CrawlError;
use crate::html::{matched_texts, select_text, selector_accepted};
use crate::text::{
    lemma_tidy_text_is_left_alone, lemma_trimmed_is_stretch, optional_text_view, text_views, tidy,
    trim, trim_leading, trim_trailing, trimmed, white_space,
};

verus! {

/// Selects the labels and the values of a detail page.
pub const LABEL_VALUE_SELECTOR: &'static str = "span.label, span.value";

/// Selects the rows of a detail page that hold the suggested valuation.
pub const VALUATION_SELECTOR: &'static str = ".kbbsuggested-row .row-value";

/// The label whose value is the mileage.
pub const MILEAGE_LABEL: &'static str = "Mileage:";

/// What stands in a field that the page does not fill.
pub const UNKNOWN: &'static str = "Unknown";

/// Matches one character that is neither a digit nor a decimal point.
pub const NON_NUMERIC: &'static str = "[^\\d.]";

/// Whether `regex` accepts `pattern`.
pub uninterp spec fn pattern_accepted(pattern: Seq<char>) -> bool;

/// `text` with every match of `pattern` taken out, as `regex` finds them.
pub uninterp spec fn without_matches(pattern: Seq<char>, text: Seq<char>) -> Seq<char>;

/// Whether `c` is one of `0` to `9` or the decimal point.
pub open spec fn numeric_char(c: char) -> bool {
    c == '.' || ('0' <= c && c <= '9')
}

/// The digits and decimal points of `text`, in their order.
pub open spec fn numeric_only(text: Seq<char>) -> Seq<char>
    decreases text.len(),
{
    if text.len() == 0 {
        Seq::empty()
    } else if numeric_char(text.last()) {
        numeric_only(text.drop_last()).push(text.last())
    } else {
        numeric_only(text.drop_last())
    }
}

/// Whether every character of `text` below U+0080 is a digit or a point.
pub open spec fn numeric_within_ascii(text: Seq<char>) -> bool {
    forall|i: int| 0 <= i < text.len() ==> numeric_char(#[trigger] text[i]) || text[i] > '\u{7f}'
}

/// Whether `valuation` is what the valuation rows `rows` of a page give: it is
/// `Unknown` exactly when there is no row, and for a first row that is all
/// ASCII it is the digits and points of that row.
pub open spec fn valuation_as_read(rows: Seq<Seq<char>>, valuation: Seq<char>) -> bool {
    &&& valuation == UNKNOWN@ <==> rows.len() == 0
    &&& rows.len() > 0 && is_ascii_chars(rows[0]) ==> valuation == numeric_only(rows[0])
}

/// Each text without leading and trailing white space.
pub open spec fn trimmed_each(texts: Seq<Seq<char>>) -> Seq<Seq<char>> {
    Seq::new(texts.len(), |i: int| trimmed(texts[i]))
}

/// Whether `at` is the first place in `texts` that holds `label`.
pub open spec fn first_label_at(texts: Seq<Seq<char>>, label: Seq<char>, at: int) -> bool {
    &&& 0 <= at < texts.len()
    &&& texts[at] == label
    &&& forall|before: int| 0 <= before < at ==> texts[before] != label
}

/// The text that follows the first occurrence of `label` in `texts`; `None`
/// where the label does not occur or nothing follows it.
pub open spec fn value_after_label(texts: Seq<Seq<char>>, label: Seq<char>) -> Option<Seq<char>> {
    if exists|at: int| first_label_at(texts, label, at) {
        let at = choose|at: int| first_label_at(texts, label, at);
        if at + 1 < texts.len() {
            Some(texts[at + 1])
        } else {
            None
        }
    } else {
        None
    }
}

/// The mileage that the label and value texts of a page give.
pub open spec fn mileage_among(texts: Seq<Seq<char>>) -> Seq<char> {
    match value_after_label(trimmed_each(texts), MILEAGE_LABEL@) {
        Some(value) => value,
        None => UNKNOWN@,
    }
}

/// The valuation that a row's text gives, or `None` where the pattern that
/// reduces it is refused.
pub open spec fn normalized_valuation(text: Seq<char>) -> Option<Seq<char>> {
    if pattern_accepted(NON_NUMERIC@) {
        Some(without_matches(NON_NUMERIC@, trimmed(text)))
    } else {
        None
    }
}

/// The valuation that the valuation rows of a page give.
pub open spec fn valuation_among(texts: Seq<Seq<char>>) -> Option<Seq<char>> {
    if texts.len() == 0 {
        Some(UNKNOWN@)
    } else {
        normalized_valuation(texts[0])
    }
}

/// The mileage on a detail page, or `None` where the selector is refused.
pub open spec fn page_mileage(document: Seq<char>) -> Option<Seq<char>> {
    if selector_accepted(LABEL_VALUE_SELECTOR@) {
        Some(mileage_among(matched_texts(document, LABEL_VALUE_SELECTOR@)))
    } else {
        None
    }
}

/// The valuation on a detail page, or `None` where the selector or the
/// pattern is refused.
pub open spec fn page_valuation(document: Seq<char>) -> Option<Seq<char>> {
    if selector_accepted(VALUATION_SELECTOR@) {
        valuation_among(matched_texts(document, VALUATION_SELECTOR@))
    } else {
        None
    }
}

/// What is kept of a text is made of digits and points only, and a text
/// that is made of them is kept whole.
pub proof fn lemma_numeric_only_keeps_numeric(text: Seq<char>)
    ensures
        numeric_only(text).len() <= text.len(),
        forall|i: int|
            0 <= i < numeric_only(text).len() ==> numeric_char(#[trigger] numeric_only(text)[i]),
        (forall|i: int| 0 <= i < text.len() ==> numeric_char(#[trigger] text[i])) ==> numeric_only(
            text,
        ) == text,
    decreases text.len(),
{
    if text.len() > 0 {
        lemma_numeric_only_keeps_numeric(text.drop_last());
        if forall|i: int| 0 <= i < text.len() ==> numeric_char(#[trigger] text[i]) {
            assert forall|i: int| 0 <= i < text.drop_last().len() implies numeric_char(
                #[trigger] text.drop_last()[i],
            ) by {
                assert(text.drop_last()[i] == text[i]);
            }
            assert(text.drop_last().push(text.last()) == text);
        }
    }
}

/// The digits and points of a text are those of its parts, one after the
/// other.
pub proof fn lemma_numeric_only_of_parts(front: Seq<char>, back: Seq<char>)
    ensures
        numeric_only(front + back) == numeric_only(front) + numeric_only(back),
    decreases back.len(),
{
    if back.len() == 0 {
        assert(front + back == front);
    } else {
        lemma_numeric_only_of_parts(front, back.drop_last());
        assert((front + back).drop_last() == front + back.drop_last());
    }
}

/// Trimming takes no digit and no point away.
pub proof fn lemma_trimming_keeps_numeric(text: Seq<char>)
    ensures
        numeric_only(trimmed(text)) == numeric_only(text),
{
    lemma_trim_leading_keeps_numeric(text);
    lemma_trim_trailing_keeps_numeric(trim_leading(text));
}

/// Cutting the leading white space takes no digit and no point away.
pub proof fn lemma_trim_leading_keeps_numeric(text: Seq<char>)
    ensures
        numeric_only(trim_leading(text)) == numeric_only(text),
    decreases text.len(),
{
    if text.len() > 0 && white_space(text.first()) {
        lemma_trim_leading_keeps_numeric(text.drop_first());
        let head = seq![text.first()];
        lemma_numeric_only_of_parts(head, text.drop_first());
        assert(head + text.drop_first() == text);
        assert(head.drop_last() == Seq::<char>::empty());
        assert(numeric_only(head.drop_last()) == Seq::<char>::empty());
        assert(!numeric_char(head.last()));
    }
}

/// Cutting the trailing white space takes no digit and no point away.
pub proof fn lemma_trim_trailing_keeps_numeric(text: Seq<char>)
    ensures
        numeric_only(trim_trailing(text)) == numeric_only(text),
    decreases text.len(),
{
    if text.len() > 0 && white_space(text.last()) {
        lemma_trim_trailing_keeps_numeric(text.drop_last());
    }
}

/// A text whose characters below U+0080 are digits and points is not
/// `Unknown`.
pub proof fn lemma_numeric_is_not_unknown(text: Seq<char>)
    requires
        numeric_within_ascii(text),
    ensures
        text != UNKNOWN@,
{
    reveal_strlit("Unknown");
    if text.len() > 0 {
        assert(numeric_char(text[0]) || text[0] > '\u{7f}');
    }
}

/// The mileage is taken verbatim: where the texts of a page have no white
/// space at their ends, it is the very text that follows the first
/// `Mileage:`.
pub proof fn lemma_mileage_is_verbatim(texts: Seq<Seq<char>>, at: int)
    requires
        forall|i: int| 0 <= i < texts.len() ==> tidy(#[trigger] texts[i]),
        first_label_at(texts, MILEAGE_LABEL@, at),
        at + 1 < texts.len(),
    ensures
        mileage_among(texts) == texts[at + 1],
{
    assert forall|i: int| 0 <= i < texts.len() implies trimmed(#[trigger] texts[i]) == texts[i] by {
        lemma_tidy_text_is_left_alone(texts[i]);
    }
    assert(trimmed_each(texts) =~= texts);
    lemma_value_follows_first_label(texts, MILEAGE_LABEL@, at);
}

/// The text right after the first occurrence of the label is the value,
/// as it stands.
pub proof fn lemma_value_follows_first_label(texts: Seq<Seq<char>>, label: Seq<char>, at: int)
    requires
        first_label_at(texts, label, at),
    ensures
        value_after_label(texts, label) == if at + 1 < texts.len() {
            Some(texts[at + 1])
        } else {
            None
        },
{
    let chosen = choose|found: int| first_label_at(texts, label, found);
    assert(chosen == at);
}

/// Without the label among the texts there is no value.
pub proof fn lemma_no_label_no_value(texts: Seq<Seq<char>>, label: Seq<char>)
    requires
        forall|at: int| 0 <= at < texts.len() ==> texts[at] != label,
    ensures
        value_after_label(texts, label) is None,
{
    assert(forall|found: int| !first_label_at(texts, label, found));
}

/// The mileage of a page is the trimmed text that follows the first text
/// which, trimmed, is `Mileage:`; without such a text, or with nothing
/// after it, the mileage is `Unknown`.
pub proof fn lemma_mileage_follows_label(texts: Seq<Seq<char>>, at: int)
    requires
        first_label_at(trimmed_each(texts), MILEAGE_LABEL@, at),
    ensures
        mileage_among(texts) == if at + 1 < texts.len() {
            trimmed(texts[at + 1])
        } else {
            UNKNOWN@
        },
{
    lemma_value_follows_first_label(trimmed_each(texts), MILEAGE_LABEL@, at);
}

/// A page without a valuation row has the valuation `Unknown`, and one
/// without the mileage label has the mileage `Unknown`.
pub proof fn lemma_missing_is_unknown(texts: Seq<Seq<char>>)
    ensures
        valuation_among(Seq::empty()) == Some(UNKNOWN@),
        (forall|at: int| 0 <= at < texts.len() ==> trimmed(texts[at]) != MILEAGE_LABEL@)
            ==> mileage_among(texts) == UNKNOWN@,
{
    if forall|at: int| 0 <= at < texts.len() ==> trimmed(texts[at]) != MILEAGE_LABEL@ {
        lemma_no_label_no_value(trimmed_each(texts), MILEAGE_LABEL@);
    }
}

/// Compiles `pattern` with `regex::Regex::new` and calls `Regex::replace_all`
/// on `text` with an empty replacement.
///
/// Trusted: the result is `None` exactly when the pattern is refused, and
/// otherwise holds what `without_matches` names. Of that, two facts are
/// stated, both of the pattern `[^\d.]`, which matches any one character but
/// a digit or a point. An all-ASCII text keeps its characters `0` to `9` and
/// `.` and loses the others. And of any text, no character below U+0080 is
/// left but those. Which characters beyond ASCII `\d` takes for digits
/// follows Unicode and is not stated.
#[verifier::external_body]
pub(crate) fn remove_matches(pattern: &str, text: &str) -> (rest: Option<String>)
    ensures
        rest is Some <==> pattern_accepted(pattern@),
        rest matches Some(kept) ==> kept@ == without_matches(pattern@, text@),
        rest matches Some(kept) ==> (pattern@ == NON_NUMERIC@ && is_ascii_chars(text@) ==> kept@
            == numeric_only(text@)),
        rest matches Some(kept) ==> (pattern@ == NON_NUMERIC@ ==> numeric_within_ascii(kept@)),
{
    match regex::Regex::new(pattern) {
        Ok(compiled) => Some(compiled.replace_all(text, "").to_string()),
        Err(_) => None,
    }
}

/// Trims every text.
pub fn trim_each(texts: &Vec<String>) -> (inner: Vec<String>)
    ensures
        text_views(inner@) == trimmed_each(text_views(texts@)),
{
    let mut inner: Vec<String> = Vec::new();
    for i in 0..texts.len()
        invariant
            inner@.len() == i,
            forall|j: int| 0 <= j < i ==> (#[trigger] inner@[j])@ == trimmed(texts@[j]@),
    {
        inner.push(trim(texts[i].as_str()));
    }
    assert(text_views(inner@) =~= trimmed_each(text_views(texts@)));
    inner
}

/// Finds the text that follows the first text equal to `label`.
///
/// The texts are compared as they are. A label in the last place has no
/// value; later occurrences of the label are not looked at.
pub fn labelled_value(texts: &Vec<String>, label: &str) -> (value: Option<String>)
    ensures
        optional_text_view(value) == value_after_label(text_views(texts@), label@),
{
    let wanted = String::from_str(label);
    let ghost views = text_views(texts@);
    let mut at: usize = 0;
    while at < texts.len()
        invariant
            at <= texts.len(),
            wanted@ == label@,
            views == text_views(texts@),
            forall|before: int| 0 <= before < at ==> views[before] != label@,
        decreases texts.len() - at,
    {
        if texts[at] == wanted {
            proof {
                assert(views[at as int] == label@);
                assert(first_label_at(views, label@, at as int));
                let chosen = choose|found: int| first_label_at(views, label@, found);
                assert(chosen == at);
            }
            if at + 1 < texts.len() {
                return Some(texts[at + 1].clone());
            } else {
                return None;
            }
        }
        assert(views[at as int] != label@);
        at += 1;
    }
    assert(forall|found: int| !first_label_at(views, label@, found));
    None
}

/// The mileage among the label and value texts of a detail page: the text
/// after the first `Mileage:`, both trimmed, or `Unknown`.
pub fn find_mileage(texts: &Vec<String>) -> (mileage: String)
    ensures
        mileage@ == mileage_among(text_views(texts@)),
{
    let inner = trim_each(texts);
    match labelled_value(&inner, MILEAGE_LABEL) {
        Some(value) => value,
        None => String::from_str(UNKNOWN),
    }
}

/// Reduces the text of a valuation row to its digits and decimal points.
///
/// Fails with `CrawlError::Extractor` exactly when the pattern is refused.
/// On a text that is all ASCII, the result is exactly the characters `0` to
/// `9` and `.` of the text. On any text, what is left below U+0080 is digits
/// and points, so the result is never `Unknown`.
pub fn normalize_valuation(text: &str) -> (valuation: Result<String, CrawlError>)
    ensures
        match valuation {
            Ok(kept) => {
                &&& normalized_valuation(text@) == Some(kept@)
                &&& is_ascii_chars(text@) ==> kept@ == numeric_only(text@)
                &&& numeric_within_ascii(kept@)
                &&& kept@ != UNKNOWN@
            },
            Err(error) => error == CrawlError::Extractor && normalized_valuation(text@) is None,
        },
{
    let inner = trim(text);
    proof {
        lemma_trimmed_is_stretch(text@);
        lemma_trimming_keeps_numeric(text@);
    }
    match remove_matches(NON_NUMERIC, inner.as_str()) {
        Some(kept) => {
            proof {
                lemma_numeric_is_not_unknown(kept@);
            }
            Ok(kept)
        },
        None => Err(CrawlError::Extractor),
    }
}

/// The valuation among the valuation rows of a detail page: the first row,
/// normalized, or `Unknown` where there is none. The result is `Unknown`
/// only where there is no row; later rows are not looked at.
pub fn find_valuation(texts: &Vec<String>) -> (valuation: Result<String, CrawlError>)
    ensures
        match valuation {
            Ok(kept) => valuation_among(text_views(texts@)) == Some(kept@) && valuation_as_read(
                text_views(texts@),
                kept@,
            ),
            Err(error) => error == CrawlError::Extractor && valuation_among(text_views(texts@))
                is None,
        },
        texts@.len() == 0 ==> valuation is Ok,
{
    if texts.len() == 0 {
        Ok(String::from_str(UNKNOWN))
    } else {
        normalize_valuation(texts[0].as_str())
    }
}

/// Reads the mileage off a detail page.
///
/// Fails with `CrawlError::Extractor` exactly when the selector is refused.
pub fn read_mileage(document: &str) -> (mileage: Result<String, CrawlError>)
    ensures
        match mileage {
            Ok(found) => page_mileage(document@) == Some(found@),
            Err(error) => error == CrawlError::Extractor && page_mileage(document@) is None,
        },
{
    match select_text(document, LABEL_VALUE_SELECTOR) {
        Some(texts) => Ok(find_mileage(&texts)),
        None => Err(CrawlError::Extractor),
    }
}

/// Reads the valuation off a detail page: `Unknown` exactly when the page
/// has no valuation row, else what is left of the first row.
///
/// Fails with `CrawlError::Extractor` exactly when the selector is refused,
/// or a row was found and the pattern is refused.
pub fn read_valuation(document: &str) -> (valuation: Result<String, CrawlError>)
    ensures
        match valuation {
            Ok(found) => page_valuation(document@) == Some(found@) && valuation_as_read(
                matched_texts(document@, VALUATION_SELECTOR@),
                found@,
            ),
            Err(error) => error == CrawlError::Extractor && page_valuation(document@) is None,
        },
{
    match select_text(document, VALUATION_SELECTOR) {
        Some(texts) => find_valuation(&texts),
        None => Err(CrawlError::Extractor),
    }
}

} // verus!
