//! What holds of splitting, trimming and decimal numbers.

use vstd::prelude::*;

use crate::stdtext;
use crate::text;

verus! {

/// The characters of some texts are those of each of them, in their order.
pub proof fn law_views(texts: Seq<String>, i: int)
    requires
        0 <= i < texts.len(),
    ensures
        text::views(texts).len() == texts.len(),
        text::views(texts)[i] == texts[i]@,
{
}

/// The characters of a text that may be missing, and of the reason of a failure.
pub proof fn law_given_text(text: &str)
    ensures
        text::given(Some(text)) == Some(text@),
        text::given(None) is None,
        text::outcome(Err::<u32, &str>(text)) == Err::<u32, Seq<char>>(text@),
        text::outcome(Err::<(), &str>(text)) == Err::<(), Seq<char>>(text@),
        forall|n: u32| #[trigger] text::outcome(Ok::<u32, &str>(n)) == Ok::<u32, Seq<char>>(n),
        text::outcome(Ok::<(), &str>(())) is Ok,
{
}

/// Texts one after the other, with a separator between them.
pub open spec fn joined_by(pieces: Seq<Seq<char>>, c: char) -> Seq<char>
    decreases pieces.len(),
{
    if pieces.len() == 0 {
        seq![]
    } else if pieces.len() == 1 {
        pieces[0]
    } else {
        pieces[0].push(c) + joined_by(pieces.drop_first(), c)
    }
}

/// A text is its pieces with the separator between them, and no piece holds the separator.
pub proof fn law_split(s: Seq<char>, c: char)
    ensures
        joined_by(text::split(s, c), c) == s,
        text::split(s, c).len() > 0,
        forall|i: int|
            0 <= i < text::split(s, c).len() ==> !(#[trigger] text::split(s, c)[i]).contains(c),
    decreases s.len(),
{
    lemma_find_place(s, c);
    let k = text::find(s, c);
    if k < s.len() {
        let rest = s.skip(k + 1);
        law_split(rest, c);
        let pieces = text::split(s, c);
        assert(pieces.drop_first() == text::split(rest, c));
        assert(s.take(k).push(c) + rest == s);
        assert forall|i: int| 0 <= i < pieces.len() implies !(#[trigger] pieces[i]).contains(c) by {
            if i > 0 {
                assert(pieces[i] == text::split(rest, c)[i - 1]);
            }
        }
    }
}

/// What is found is the first occurrence.
proof fn lemma_find_place(s: Seq<char>, c: char)
    ensures
        0 <= text::find(s, c) <= s.len(),
        forall|j: int| 0 <= j < text::find(s, c) ==> s[j] != c,
        text::find(s, c) < s.len() ==> s[text::find(s, c)] == c,
    decreases s.len(),
{
    if s.len() > 0 && s[0] != c {
        let rest = s.drop_first();
        lemma_find_place(rest, c);
        assert forall|j: int| 0 <= j < text::find(s, c) implies s[j] != c by {
            if j > 0 {
                assert(s[j] == rest[j - 1]);
            }
        }
    }
}

/// Splitting two texts with the separator between them gives the pieces of the first and
/// then those of the second.
pub proof fn law_split_concat(a: Seq<char>, b: Seq<char>, c: char)
    ensures
        text::split(a.push(c) + b, c) == text::split(a, c) + text::split(b, c),
    decreases a.len(),
{
    let whole = a.push(c) + b;
    lemma_find_place(a, c);
    let k = text::find(a, c);
    if k < a.len() {
        assert forall|j: int| 0 <= j < k implies whole[j] != c by {
            assert(whole[j] == a[j]);
        }
        text::lemma_find(whole, c, k);
        let rest = a.skip(k + 1);
        law_split_concat(rest, b, c);
        assert(whole.skip(k + 1) == rest.push(c) + b);
        assert(whole.take(k) == a.take(k));
        assert(text::split(whole, c) =~= text::split(a, c) + text::split(b, c));
    } else {
        assert forall|j: int| 0 <= j < a.len() implies whole[j] != c by {
            assert(whole[j] == a[j]);
        }
        text::lemma_find(whole, c, a.len() as int);
        assert(whole.take(a.len() as int) == a);
        assert(whole.skip(a.len() as int + 1) == b);
    }
}

/// Whether a text has no white space at either end.
pub open spec fn tight(s: Seq<char>) -> bool {
    s.len() > 0 ==> !text::white_space(s[0]) && !text::white_space(s.last())
}

/// Whether a text is white space and nothing else.
pub open spec fn blank(s: Seq<char>) -> bool {
    forall|i: int| 0 <= i < s.len() ==> text::white_space(#[trigger] s[i])
}

/// White space around a text that has none at either end is trimmed, and nothing else is.
pub proof fn law_trim_around(before: Seq<char>, s: Seq<char>, after: Seq<char>)
    requires
        blank(before),
        blank(after),
        tight(s),
    ensures
        text::trim(before + s + after) == s,
{
    lemma_trim_start_blank(before, s + after);
    assert(before + (s + after) == before + s + after);
    if s.len() > 0 {
        let rest = s + after;
        assert(rest[0] == s[0]);
        assert(text::trim_start(rest) == rest);
    } else {
        lemma_trim_start_blank(after, s);
        assert(s + after == after);
        assert(after + s == after);
        assert(text::trim_start(s) == s);
    }
    if s.len() > 0 {
        lemma_trim_end_blank(s, after);
    }
}

/// Leading white space is trimmed.
proof fn lemma_trim_start_blank(before: Seq<char>, s: Seq<char>)
    requires
        blank(before),
    ensures
        text::trim_start(before + s) == text::trim_start(s),
    decreases before.len(),
{
    if before.len() > 0 {
        assert((before + s)[0] == before[0]);
        assert((before + s).drop_first() == before.drop_first() + s);
        assert(blank(before.drop_first()));
        lemma_trim_start_blank(before.drop_first(), s);
    } else {
        assert(before + s == s);
    }
}

/// White space after a text that does not end in it is trimmed.
proof fn lemma_trim_end_blank(s: Seq<char>, after: Seq<char>)
    requires
        blank(after),
        s.len() > 0,
        !text::white_space(s.last()),
    ensures
        text::trim_end(s + after) == s,
    decreases after.len(),
{
    if after.len() > 0 {
        assert((s + after).last() == after.last());
        assert((s + after).drop_last() == s + after.drop_last());
        assert(blank(after.drop_last()));
        lemma_trim_end_blank(s, after.drop_last());
    } else {
        assert(s + after == s);
    }
}

/// Every text is one without white space at either end, with white space around it.
pub proof fn law_trim_parts(s: Seq<char>) -> (range: (int, int))
    ensures
        0 <= range.0 <= range.1 <= s.len(),
        blank(s.take(range.0)),
        blank(s.skip(range.1)),
        tight(s.subrange(range.0, range.1)),
        text::trim(s) == s.subrange(range.0, range.1),
{
    let a = lemma_first_solid(s);
    let rest = s.skip(a);
    let b = a + lemma_last_solid(rest);
    let core = s.subrange(a, b);
    assert(core == rest.take(b - a));
    assert(s.skip(b) == rest.skip(b - a));
    assert(s == s.take(a) + core + s.skip(b));
    if core.len() > 0 {
        assert(core[0] == rest[0]);
        assert(core.last() == rest[b - a - 1]);
    }
    law_trim_around(s.take(a), core, s.skip(b));
    (a, b)
}

/// Where a text stops starting with white space.
proof fn lemma_first_solid(s: Seq<char>) -> (k: int)
    ensures
        0 <= k <= s.len(),
        blank(s.take(k)),
        k < s.len() ==> !text::white_space(s[k]),
    decreases s.len(),
{
    if s.len() > 0 && text::white_space(s[0]) {
        let rest = s.drop_first();
        let k = lemma_first_solid(rest);
        assert forall|i: int| 0 <= i < k + 1 implies text::white_space(
            #[trigger] s.take(k + 1)[i],
        ) by {
            if i > 0 {
                assert(s.take(k + 1)[i] == rest.take(k)[i - 1]);
            }
        }
        k + 1
    } else {
        0
    }
}

/// Where a text starts ending with white space.
proof fn lemma_last_solid(s: Seq<char>) -> (k: int)
    ensures
        0 <= k <= s.len(),
        blank(s.skip(k)),
        k > 0 ==> !text::white_space(s[k - 1]),
    decreases s.len(),
{
    if s.len() > 0 && text::white_space(s.last()) {
        let rest = s.drop_last();
        let k = lemma_last_solid(rest);
        assert forall|i: int| 0 <= i < s.len() - k implies text::white_space(
            #[trigger] s.skip(k)[i],
        ) by {
            if i < rest.len() - k {
                assert(s.skip(k)[i] == rest.skip(k)[i]);
            }
        }
        k
    } else {
        s.len() as int
    }
}

/// A number in decimal is digits that stand for it, and starts with 0 only if it is 0. The
/// decimal form of a number below 0 is that of its opposite after a dash.
pub proof fn law_decimal(n: nat)
    ensures
        stdtext::is_digits(text::decimal(n)),
        stdtext::digits_value(text::decimal(n)) == n,
        n > 0 ==> text::decimal(n)[0] != '0',
        text::decimal(0) == seq!['0'],
        text::signed_decimal(n as int) == text::decimal(n),
        n > 0 ==> text::signed_decimal(-(n as int)) == seq!['-'] + text::decimal(n),
    decreases n,
{
    reveal_strlit("-");
    assert("-"@ =~= seq!['-']);
    stdtext::law_decimal_reads_back(n);
    let form = text::decimal(n);
    if n >= 10 {
        law_decimal(n / 10);
        assert(form.drop_last() == text::decimal(n / 10));
        assert(form[0] == text::decimal(n / 10)[0]);
    } else {
        assert(form.drop_last() == Seq::<char>::empty());
        assert(stdtext::digits_value(Seq::<char>::empty()) == 0);
    }
    assert(stdtext::is_digits(form));
}

/// Different numbers have different decimal forms.
pub proof fn law_decimal_distinct(a: nat, b: nat)
    requires
        text::decimal(a) == text::decimal(b),
    ensures
        a == b,
{
    law_decimal(a);
    law_decimal(b);
}

/// Appending a digit to a decimal number makes it ten times as large, plus the digit.
pub proof fn law_digits_push(digits: Seq<char>, c: char)
    requires
        '0' <= c <= '9',
    ensures
        stdtext::digits_value(digits.push(c)) == 10 * stdtext::digits_value(digits) + (c as int
            - '0' as int),
        stdtext::digits_value(Seq::empty()) == 0,
{
    assert(digits.push(c).drop_last() == digits);
}

/// White space is the tab and the four characters after it, the space, the next line, the
/// no-break space, and the spaces and separators of general punctuation, Ogham and CJK.
pub proof fn law_white_space(c: char)
    ensures
        text::white_space(c) <==> c == '\t' || c == '\n' || c == '\u{b}' || c == '\u{c}' || c
            == '\r' || c == ' ' || c == '\u{85}' || c == '\u{a0}' || c == '\u{1680}' || ('\u{2000}'
            <= c <= '\u{200a}') || c == '\u{2028}' || c == '\u{2029}' || c == '\u{202f}' || c
            == '\u{205f}' || c == '\u{3000}',
{
}

/// Digits stand for their number, with a plus sign before them or without, and nothing else
/// stands for a number.
pub proof fn law_numbers(digits: Seq<char>, s: Seq<char>)
    ensures
        stdtext::is_digits(digits) ==> stdtext::number_of(digits) == Some(
            stdtext::digits_value(digits),
        ) && stdtext::number_of(seq!['+'] + digits) == Some(stdtext::digits_value(digits)),
        stdtext::number_of(s) is Some ==> stdtext::is_digits(s) || (s.len() > 1 && s[0] == '+'
            && stdtext::is_digits(s.skip(1))),
        stdtext::is_digits(s) <==> s.len() > 0 && s.all(|c: char| '0' <= c <= '9'),
{
    assert((seq!['+'] + digits).drop_first() =~= digits);
    if s.len() > 0 {
        assert(s.drop_first() == s.skip(1));
    }
    let digit = |c: char| '0' <= c <= '9';
    if s.all(digit) {
        assert forall|i: int| 0 <= i < s.len() implies '0' <= #[trigger] s[i] <= '9' by {
            assert(digit(s[i]));
        }
    }
}

/// The characters of a text that may be missing.
pub proof fn law_optional_text(text: String)
    ensures
        stdtext::optional(Some(text)) == Some(text@),
        stdtext::optional(None) is None,
{
}

} // verus!
