//! Text operations that the standard library does.

use vstd::prelude::*;

use crate::text;

verus! {

/// Bytes as text, with each ill-formed UTF-8 sequence replaced by U+FFFD.
pub uninterp spec fn utf8_lossy(bytes: Seq<u8>) -> Seq<char>;

/// The reason that some bytes are no UTF-8.
pub uninterp spec fn utf8_error(bytes: Seq<u8>) -> Seq<char>;

/// A text in quotes, with what is not printable escaped.
pub uninterp spec fn quoted(text: Seq<char>) -> Seq<char>;

/// The reason that a text is no `u64`.
pub uninterp spec fn number_error(text: Seq<char>) -> Seq<char>;

/// The path that a path lies in.
pub uninterp spec fn parent_of(path: Seq<char>) -> Option<Seq<char>>;

/// The number that digits stand for in decimal.
pub open spec fn digits_value(digits: Seq<char>) -> nat
    decreases digits.len(),
{
    if digits.len() == 0 {
        0
    } else {
        (10 * digits_value(digits.drop_last()) + (digits.last() as int - '0' as int)) as nat
    }
}

/// Whether a text is a run of decimal digits, at least one.
pub open spec fn is_digits(text: Seq<char>) -> bool {
    &&& text.len() > 0
    &&& forall|i: int| 0 <= i < text.len() ==> '0' <= #[trigger] text[i] <= '9'
}

/// The number that a text stands for: digits, after a `+` or not.
pub open spec fn number_of(text: Seq<char>) -> Option<nat> {
    let digits = if text.len() > 0 && text[0] == '+' {
        text.drop_first()
    } else {
        text
    };
    if is_digits(digits) {
        Some(digits_value(digits))
    } else {
        None
    }
}

/// Bytes as text, by `String::from_utf8_lossy`. What ill-formed bytes become is named;
/// well-formed bytes are the text that they encode.
#[verifier::external_body]
pub(crate) fn lossy_text(bytes: &[u8]) -> (text: String)
    ensures
        text@ == utf8_lossy(bytes@),
        vstd::utf8::valid_utf8(bytes@) ==> text@ == vstd::utf8::decode_utf8(bytes@),
{
    String::from_utf8_lossy(bytes).into_owned()
}

/// Bytes as text, by `std::str::from_utf8`: well-formed bytes are the text that they
/// encode, all others are refused. The message of the refusal is named.
#[verifier::external_body]
pub(crate) fn exact_text(bytes: &[u8]) -> (text: Result<String, String>)
    ensures
        text is Ok <==> vstd::utf8::valid_utf8(bytes@),
        text matches Ok(t) ==> t@ == vstd::utf8::decode_utf8(bytes@),
        text matches Err(reason) ==> reason@ == utf8_error(bytes@),
{
    match std::str::from_utf8(bytes) {
        Ok(text) => Ok(String::from(text)),
        Err(error) => Err(format!("{error}")),
    }
}

/// A text as the `Debug` form of `str` shows it, which is named.
#[verifier::external_body]
pub(crate) fn quoted_text(text: &str) -> (shown: String)
    ensures
        shown@ == quoted(text@),
{
    format!("{text:?}")
}

/// A number, by `u64::from_str`: an optional `+` and then digits only, refused when
/// it does not fit. The message of the refusal is named.
#[verifier::external_body]
pub(crate) fn parse_u64(text: &str) -> (number: Result<u64, String>)
    ensures
        number is Ok <==> (number_of(text@) matches Some(n) && n <= u64::MAX),
        number matches Ok(n) ==> number_of(text@) == Some(n as nat),
        number matches Err(reason) ==> reason@ == number_error(text@),
{
    match text.parse::<u64>() {
        Ok(number) => Ok(number),
        Err(error) => Err(format!("{error}")),
    }
}

/// Whether a text names a single component of a path, and not the directory itself.
pub open spec fn is_component(name: Seq<char>) -> bool {
    &&& name.len() > 0
    &&& !name.contains('/')
    &&& name != seq!['.']
}

/// Where a path of a plain form lies: a component below a directory that ends in neither a
/// separator nor a dot, a component below the root, a component alone, the root, and the
/// empty path.
pub open spec fn plain_parent(path: Seq<char>, parent: Option<Seq<char>>) -> bool {
    &&& forall|dir: Seq<char>, name: Seq<char>|
        path == #[trigger] (dir.push('/') + name) && dir.len() > 0 && dir.last() != '/'
            && dir.last() != '.' && is_component(name) ==> parent == Some(dir)
    &&& forall|name: Seq<char>|
        path == #[trigger] (seq!['/'] + name) && is_component(name) ==> parent == Some(seq!['/'])
    &&& is_component(path) ==> parent == Some(Seq::<char>::empty())
    &&& path == seq!['/'] || path.len() == 0 ==> parent is None
}

/// The characters of a text, if there is one.
pub open spec fn optional(text: Option<String>) -> Option<Seq<char>> {
    match text {
        Some(t) => Some(t@),
        None => None,
    }
}

/// The path that a path lies in, by `std::path::Path::parent` on Unix, which drops the final
/// component. What it is for a path with redundant separators or dots is named; for the
/// plain forms it is stated.
#[verifier::external_body]
pub(crate) fn parent_text(path: &str) -> (parent: Option<String>)
    ensures
        optional(parent) == parent_of(path@),
        plain_parent(path@, optional(parent)),
{
    match std::path::Path::new(path).parent() {
        Some(dir) => Some(dir.to_string_lossy().into_owned()),
        None => None,
    }
}

/// A number reads back from its decimal form.
pub proof fn law_decimal_reads_back(n: nat)
    ensures
        number_of(text::decimal(n)) == Some(n),
{
    lemma_decimal_digits(n);
}

/// The decimal form of a number is digits that stand for it.
proof fn lemma_decimal_digits(n: nat)
    ensures
        is_digits(text::decimal(n)),
        digits_value(text::decimal(n)) == n,
    decreases n,
{
    let form = text::decimal(n);
    if n >= 10 {
        lemma_decimal_digits(n / 10);
        assert(form.drop_last() == text::decimal(n / 10));
    } else {
        assert(form.drop_last() == Seq::<char>::empty());
        assert(digits_value(Seq::<char>::empty()) == 0);
    }
}

} // verus!
