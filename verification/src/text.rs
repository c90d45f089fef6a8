//! Text building blocks: decimal numbers, prefixes and searches over characters.

use vstd::prelude::*;

verus! {

/// The decimal digit with value `d`.
pub open spec fn digit(d: nat) -> char {
    ('0' as u32 + d) as char
}

/// `n` in decimal, without leading zeros.
pub open spec fn decimal(n: nat) -> Seq<char>
    decreases n,
{
    if n < 10 {
        seq![digit(n)]
    } else {
        decimal(n / 10).push(digit(n % 10))
    }
}

/// `n` in decimal, with a leading `-` when it is negative.
pub open spec fn signed_decimal(n: int) -> Seq<char> {
    if n < 0 {
        "-"@ + decimal((-n) as nat)
    } else {
        decimal(n as nat)
    }
}

/// `head` followed by `tail`.
pub fn joined(head: &str, tail: &str) -> (text: String)
    ensures
        text@ == head@ + tail@,
{
    let mut text = String::new();
    text.append(head);
    text.append(tail);
    assert(text@ == head@ + tail@);
    text
}

/// The characters of `s`, one by one.
pub fn chars_of(s: &str) -> (chars: Vec<char>)
    ensures
        chars@ == s@,
{
    let mut chars: Vec<char> = Vec::new();
    for c in iter: s.chars()
        invariant
            iter.seq() == s@,
            chars@ == s@.take(iter.index() as int),
    {
        chars.push(c);
        assert(s@.take(iter.index() + 1) == s@.take(iter.index() as int).push(c));
    }
    assert(s@.take(s@.len() as int) == s@);
    chars
}

/// Whether `text` starts with `prefix`.
pub fn starts_with(text: &str, prefix: &str) -> (found: bool)
    ensures
        found == prefix@.is_prefix_of(text@),
{
    let all = chars_of(text);
    let start = chars_of(prefix);
    if start.len() > all.len() {
        return false;
    }
    for i in 0..start.len()
        invariant
            start@ == prefix@,
            all@ == text@,
            start@.len() <= all@.len(),
            start@.take(i as int) == all@.take(i as int),
    {
        if start[i] != all[i] {
            assert(all@.subrange(0, start@.len() as int)[i as int] == all@[i as int]);
            return false;
        }
        assert(start@.take(i + 1) == start@.take(i as int).push(start@[i as int]));
        assert(all@.take(i + 1) == all@.take(i as int).push(all@[i as int]));
    }
    assert(start@.take(start@.len() as int) == start@);
    true
}

/// Whether two texts hold the same characters.
pub fn same_text(a: &str, b: &str) -> (same: bool)
    ensures
        same == (a@ == b@),
{
    let x = chars_of(a);
    let y = chars_of(b);
    if x.len() != y.len() {
        return false;
    }
    for i in 0..x.len()
        invariant
            x@ == a@,
            y@ == b@,
            x@.len() == y@.len(),
            forall|j: int| 0 <= j < i ==> x@[j] == y@[j],
    {
        if x[i] != y[i] {
            return false;
        }
    }
    assert(x@ == y@);
    true
}

/// One decimal digit as text.
fn digit_text(d: u64) -> (t: &'static str)
    requires
        d < 10,
    ensures
        t@ == seq![digit(d as nat)],
{
    proof {
        reveal_strlit("0");
        reveal_strlit("1");
        reveal_strlit("2");
        reveal_strlit("3");
        reveal_strlit("4");
        reveal_strlit("5");
        reveal_strlit("6");
        reveal_strlit("7");
        reveal_strlit("8");
        reveal_strlit("9");
    }
    if d == 0 {
        "0"
    } else if d == 1 {
        "1"
    } else if d == 2 {
        "2"
    } else if d == 3 {
        "3"
    } else if d == 4 {
        "4"
    } else if d == 5 {
        "5"
    } else if d == 6 {
        "6"
    } else if d == 7 {
        "7"
    } else if d == 8 {
        "8"
    } else {
        "9"
    }
}

/// Appends `n` in decimal to `out`.
pub fn push_decimal(out: &mut String, n: u64)
    ensures
        final(out)@ == old(out)@ + decimal(n as nat),
    decreases n,
{
    if n >= 10 {
        push_decimal(out, n / 10);
    }
    out.append(digit_text(n % 10));
    proof {
        assert(decimal(n as nat) == if n >= 10 {
            decimal((n / 10) as nat) + seq![digit((n % 10) as nat)]
        } else {
            seq![digit(n as nat)]
        });
    }
}

/// Appends `n` in decimal to `out`, with its sign when it is negative.
pub fn push_signed(out: &mut String, n: i32)
    ensures
        final(out)@ == old(out)@ + signed_decimal(n as int),
{
    if n < 0 {
        out.append("-");
        push_decimal(out, (-(n as i64)) as u64);
    } else {
        push_decimal(out, n as u64);
    }
}

/// Unicode white space: the characters with the property `White_Space`.
pub open spec fn white_space(c: char) -> bool {
    let u = c as u32;
    ||| 0x09 <= u <= 0x0d
    ||| u == 0x20
    ||| u == 0x85
    ||| u == 0xa0
    ||| u == 0x1680
    ||| 0x2000 <= u <= 0x200a
    ||| u == 0x2028
    ||| u == 0x2029
    ||| u == 0x202f
    ||| u == 0x205f
    ||| u == 0x3000
}

/// Whether a character is Unicode white space.
pub fn is_white_space(c: char) -> (white: bool)
    ensures
        white == white_space(c),
{
    let u = c as u32;
    (0x09 <= u && u <= 0x0d) || u == 0x20 || u == 0x85 || u == 0xa0 || u == 0x1680 || (0x2000 <= u
        && u <= 0x200a) || u == 0x2028 || u == 0x2029 || u == 0x202f || u == 0x205f || u == 0x3000
}

/// `s` without the white space it starts with.
pub open spec fn trim_start(s: Seq<char>) -> Seq<char>
    decreases s.len(),
{
    if s.len() > 0 && white_space(s[0]) {
        trim_start(s.drop_first())
    } else {
        s
    }
}

/// `s` without the white space it ends with.
pub open spec fn trim_end(s: Seq<char>) -> Seq<char>
    decreases s.len(),
{
    if s.len() > 0 && white_space(s.last()) {
        trim_end(s.drop_last())
    } else {
        s
    }
}

/// `s` without white space at either end.
pub open spec fn trim(s: Seq<char>) -> Seq<char> {
    trim_end(trim_start(s))
}

/// Where `chars[from..to]` starts and ends without white space at either end.
pub fn trim_range(chars: &Vec<char>, from: usize, to: usize) -> (range: (usize, usize))
    requires
        from <= to <= chars@.len(),
    ensures
        from <= range.0 <= range.1 <= to,
        chars@.subrange(range.0 as int, range.1 as int) == trim(
            chars@.subrange(from as int, to as int),
        ),
{
    let ghost whole = chars@.subrange(from as int, to as int);
    let mut a: usize = from;
    while a < to && is_white_space(chars[a])
        invariant
            from <= a <= to <= chars@.len(),
            trim_start(chars@.subrange(a as int, to as int)) == trim_start(whole),
        decreases to - a,
    {
        assert(chars@.subrange(a as int, to as int).drop_first() == chars@.subrange(
            a + 1,
            to as int,
        ));
        a = a + 1;
    }
    let ghost rest = chars@.subrange(a as int, to as int);
    assert(rest == trim_start(whole));
    let mut b: usize = to;
    while a < b && is_white_space(chars[b - 1])
        invariant
            from <= a <= b <= to <= chars@.len(),
            trim_end(chars@.subrange(a as int, b as int)) == trim_end(rest),
        decreases b - a,
    {
        assert(chars@.subrange(a as int, b as int).drop_last() == chars@.subrange(a as int, b - 1));
        b = b - 1;
    }
    (a, b)
}

/// Where `c` is first found in `s`; the length of `s` where it is not.
pub open spec fn find(s: Seq<char>, c: char) -> int
    decreases s.len(),
{
    if s.len() == 0 || s[0] == c {
        0
    } else {
        1 + find(s.drop_first(), c)
    }
}

/// The pieces of `s` between occurrences of `c`.
pub open spec fn split(s: Seq<char>, c: char) -> Seq<Seq<char>>
    decreases s.len(),
{
    let k = find(s, c);
    if 0 <= k < s.len() {
        seq![s.take(k)] + split(s.skip(k + 1), c)
    } else {
        seq![s]
    }
}

/// The first place that holds `c` is found.
pub proof fn lemma_find(s: Seq<char>, c: char, k: int)
    requires
        0 <= k <= s.len(),
        forall|j: int| 0 <= j < k ==> s[j] != c,
        k < s.len() ==> s[k] == c,
    ensures
        find(s, c) == k,
    decreases k,
{
    if k > 0 {
        let rest = s.drop_first();
        assert forall|j: int| 0 <= j < k - 1 implies rest[j] != c by {
            assert(rest[j] == s[j + 1]);
        }
        lemma_find(rest, c, k - 1);
    }
}

/// `s[start..]` splits into the piece up to `end` and the pieces after it.
pub proof fn lemma_split_at(s: Seq<char>, c: char, start: int, end: int)
    requires
        0 <= start <= end <= s.len(),
        forall|j: int| start <= j < end ==> s[j] != c,
        end < s.len() ==> s[end] == c,
    ensures
        split(s.skip(start), c) == if end < s.len() {
            seq![s.subrange(start, end)] + split(s.skip(end + 1), c)
        } else {
            seq![s.subrange(start, end)]
        },
{
    let rest = s.skip(start);
    lemma_find(rest, c, end - start);
    assert(rest.take(end - start) == s.subrange(start, end));
    if end < s.len() {
        assert(rest.skip(end - start + 1) == s.skip(end + 1));
    } else {
        assert(rest == s.subrange(start, end));
    }
}

/// The characters of some texts.
pub open spec fn views(texts: Seq<String>) -> Seq<Seq<char>> {
    texts.map_values(|t: String| t@)
}

/// The characters of a text, if there is one.
pub open spec fn given(text: Option<&str>) -> Option<Seq<char>> {
    match text {
        Some(t) => Some(t@),
        None => None,
    }
}

/// What an operation came to: what it gave, or the characters of the reason that it failed.
pub open spec fn outcome<T>(result: Result<T, &str>) -> Result<T, Seq<char>> {
    match result {
        Ok(given) => Ok(given),
        Err(reason) => Err(reason@),
    }
}

/// The pieces of `s` between occurrences of `c`.
pub fn pieces(s: &str, c: char) -> (found: Vec<String>)
    ensures
        views(found@) == split(s@, c),
{
    let chars = chars_of(s);
    let mut found: Vec<String> = Vec::new();
    let mut start: usize = 0;
    let mut finished = false;
    proof {
        assert(s@.skip(0) == s@);
        assert(views(found@) + split(s@, c) =~= split(s@, c));
    }
    while !finished
        invariant
            chars@ == s@,
            start <= chars@.len(),
            !finished ==> views(found@) + split(s@.skip(start as int), c) == split(s@, c),
            finished ==> views(found@) == split(s@, c),
        decreases (if finished { 0 } else { 1 + chars@.len() - start }),
    {
        let mut end: usize = start;
        while end < chars.len() && chars[end] != c
            invariant
                start <= end <= chars@.len(),
                forall|j: int| start <= j < end ==> chars@[j] != c,
            decreases chars@.len() - end,
        {
            end = end + 1;
        }
        let ghost before = views(found@);
        let ghost piece = s@.subrange(start as int, end as int);
        found.push(s.substring_char(start, end).to_owned());
        proof {
            lemma_split_at(s@, c, start as int, end as int);
            assert(views(found@) =~= before.push(piece));
            if end < s@.len() {
                let rest = split(s@.skip(end + 1), c);
                assert(before.push(piece) + rest =~= before + (seq![piece] + rest));
            } else {
                assert(before.push(piece) =~= before + seq![piece]);
            }
        }
        if end < chars.len() {
            start = end + 1;
        } else {
            finished = true;
        }
    }
    found
}

} // verus!
