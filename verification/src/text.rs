//! Small text helpers: decimal rendering and ASCII case-insensitive
//! comparison.

use vstd::prelude::*;

verus! {

/// The ASCII digit for `d`, for `d` below ten.
pub open spec fn digit_char(d: nat) -> char {
    if d == 0 { '0' }
    else if d == 1 { '1' }
    else if d == 2 { '2' }
    else if d == 3 { '3' }
    else if d == 4 { '4' }
    else if d == 5 { '5' }
    else if d == 6 { '6' }
    else if d == 7 { '7' }
    else if d == 8 { '8' }
    else { '9' }
}

/// The decimal rendering of `n`, without leading zeros.
pub open spec fn spec_decimal(n: nat) -> Seq<char>
    decreases n,
{
    if n < 10 {
        seq![digit_char(n)]
    } else {
        spec_decimal(n / 10) + seq![digit_char(n % 10)]
    }
}

fn digit_text(d: u16) -> (text: &'static str)
    requires
        d < 10,
    ensures
        text@ == seq![digit_char(d as nat)],
{
    proof {
        reveal_strlit("0");
        reveal_strlit("1");
        reveal_strlit("2");
        reveal_strlit("3");
        reveal_strlit("4");
        reveal_strlit("5");
        reveal_strlit("6");
        reveal_strlit("7");
        reveal_strlit("8");
        reveal_strlit("9");
    }
    match d {
        0 => "0",
        1 => "1",
        2 => "2",
        3 => "3",
        4 => "4",
        5 => "5",
        6 => "6",
        7 => "7",
        8 => "8",
        _ => "9",
    }
}

/// The decimal rendering of `n`.
pub fn decimal_text(n: u16) -> (text: String)
    ensures
        text@ == spec_decimal(n as nat),
    decreases n,
{
    if n < 10 {
        digit_text(n).to_owned()
    } else {
        decimal_text(n / 10).concat(digit_text(n % 10))
    }
}

/// Whether two texts are equal.
pub fn str_equal(a: &str, b: &str) -> (equal: bool)
    ensures
        equal == (a@ == b@),
{
    let n = a.unicode_len();
    if n != b.unicode_len() {
        return false;
    }
    let mut i: usize = 0;
    while i < n
        invariant
            n == a@.len() == b@.len(),
            i <= n,
            forall|j: int| 0 <= j < i ==> #[trigger] a@[j] == b@[j],
        decreases n - i,
    {
        if a.get_char(i) != b.get_char(i) {
            return false;
        }
        i = i + 1;
    }
    assert(a@ =~= b@);
    true
}

/// The code point of `c`, with ASCII upper-case letters made lower-case.
pub open spec fn ascii_lower(c: char) -> u32 {
    if 'A' <= c && c <= 'Z' {
        ((c as u32) + 32) as u32
    } else {
        c as u32
    }
}

/// Equal up to the case of ASCII letters.
pub open spec fn eq_ignore_ascii_case(a: Seq<char>, b: Seq<char>) -> bool {
    &&& a.len() == b.len()
    &&& forall|i: int| 0 <= i < a.len() ==> ascii_lower(#[trigger] a[i]) == ascii_lower(b[i])
}

fn lower_char(c: char) -> (lower: u32)
    ensures
        lower == ascii_lower(c),
{
    if 'A' <= c && c <= 'Z' {
        c as u32 + 32
    } else {
        c as u32
    }
}

/// Compares two strings, ignoring the case of ASCII letters.
pub fn str_eq_ignore_ascii_case(a: &str, b: &str) -> (equal: bool)
    ensures
        equal == eq_ignore_ascii_case(a@, b@),
{
    let n = a.unicode_len();
    if n != b.unicode_len() {
        return false;
    }
    let mut i: usize = 0;
    while i < n
        invariant
            n == a@.len() == b@.len(),
            i <= n,
            forall|j: int| 0 <= j < i ==> ascii_lower(#[trigger] a@[j]) == ascii_lower(b@[j]),
        decreases n - i,
    {
        if lower_char(a.get_char(i)) != lower_char(b.get_char(i)) {
            return false;
        }
        i = i + 1;
    }
    true
}

/// The Unicode `White_Space` property, as `char::is_whitespace` decides it.
pub open spec fn is_white_space(c: char) -> bool {
    ||| '\u{9}' <= c <= '\u{d}'
    ||| c == ' '
    ||| c == '\u{85}'
    ||| c == '\u{a0}'
    ||| c == '\u{1680}'
    ||| '\u{2000}' <= c <= '\u{200a}'
    ||| c == '\u{2028}'
    ||| c == '\u{2029}'
    ||| c == '\u{202f}'
    ||| c == '\u{205f}'
    ||| c == '\u{3000}'
}

/// Whether `c` has the Unicode `White_Space` property.
pub fn is_whitespace(c: char) -> (white: bool)
    ensures
        white == is_white_space(c),
{
    ('\u{9}' <= c && c <= '\u{d}') || c == ' ' || c == '\u{85}' || c == '\u{a0}' || c
        == '\u{1680}' || ('\u{2000}' <= c && c <= '\u{200a}') || c == '\u{2028}' || c
        == '\u{2029}' || c == '\u{202f}' || c == '\u{205f}' || c == '\u{3000}'
}

/// Every character is white space (an empty text included).
pub open spec fn is_blank(text: Seq<char>) -> bool {
    forall|i: int| 0 <= i < text.len() ==> is_white_space(#[trigger] text[i])
}

/// The number of white-space characters that open `text`.
pub open spec fn leading_white_space(text: Seq<char>) -> nat
    decreases text.len(),
{
    if text.len() > 0 && is_white_space(text[0]) {
        1 + leading_white_space(text.drop_first())
    } else {
        0
    }
}

/// The number of white-space characters that close `text`.
pub open spec fn trailing_white_space(text: Seq<char>) -> nat
    decreases text.len(),
{
    if text.len() > 0 && is_white_space(text.last()) {
        1 + trailing_white_space(text.drop_last())
    } else {
        0
    }
}

/// `text` without its leading and trailing white space, as `str::trim`
/// gives it.
pub open spec fn spec_trim(text: Seq<char>) -> Seq<char> {
    if is_blank(text) {
        Seq::empty()
    } else {
        text.subrange(
            leading_white_space(text) as int,
            text.len() - trailing_white_space(text),
        )
    }
}

proof fn lemma_leading_white_space(text: Seq<char>, k: int)
    requires
        0 <= k <= text.len(),
        forall|i: int| 0 <= i < k ==> is_white_space(#[trigger] text[i]),
        k < text.len() ==> !is_white_space(text[k]),
    ensures
        leading_white_space(text) == k,
    decreases text.len(),
{
    if k > 0 {
        let rest = text.drop_first();
        assert forall|i: int| 0 <= i < k - 1 implies is_white_space(#[trigger] rest[i]) by {
            assert(rest[i] == text[i + 1]);
        }
        if k - 1 < rest.len() {
            assert(rest[k - 1] == text[k]);
        }
        lemma_leading_white_space(rest, k - 1);
    }
}

proof fn lemma_trailing_white_space(text: Seq<char>, k: int)
    requires
        0 <= k <= text.len(),
        forall|i: int| text.len() - k <= i < text.len() ==> is_white_space(#[trigger] text[i]),
        k < text.len() ==> !is_white_space(text[text.len() - k - 1]),
    ensures
        trailing_white_space(text) == k,
    decreases text.len(),
{
    if k > 0 {
        let rest = text.drop_last();
        assert forall|i: int| rest.len() - (k - 1) <= i < rest.len() implies is_white_space(
            #[trigger] rest[i],
        ) by {
            assert(rest[i] == text[i]);
        }
        if k - 1 < rest.len() {
            assert(rest[rest.len() - (k - 1) - 1] == text[text.len() - k - 1]);
        }
        lemma_trailing_white_space(rest, k - 1);
    }
}

/// `text` without leading and trailing white space.
pub fn trim(text: &str) -> (trimmed: &str)
    ensures
        trimmed@ == spec_trim(text@),
{
    let n = text.unicode_len();
    let mut start: usize = 0;
    while start < n && is_whitespace(text.get_char(start))
        invariant
            n == text@.len(),
            start <= n,
            forall|i: int| 0 <= i < start ==> is_white_space(#[trigger] text@[i]),
        decreases n - start,
    {
        start = start + 1;
    }
    if start == n {
        proof {
            assert(is_blank(text@));
        }
        return text.substring_char(0, 0);
    }
    let mut end: usize = n;
    while end > start && is_whitespace(text.get_char(end - 1))
        invariant
            n == text@.len(),
            start < n,
            !is_white_space(text@[start as int]),
            start <= end <= n,
            forall|i: int| end <= i < n ==> is_white_space(#[trigger] text@[i]),
        decreases end,
    {
        end = end - 1;
    }
    proof {
        assert(end > start);
        assert(!is_blank(text@));
        lemma_leading_white_space(text@, start as int);
        lemma_trailing_white_space(text@, (n - end) as int);
    }
    text.substring_char(start, end)
}

/// A trimmed text is empty exactly when the text is blank.
pub proof fn lemma_trim_empty_iff_blank(text: Seq<char>)
    ensures
        spec_trim(text).len() == 0 <==> is_blank(text),
{
    if !is_blank(text) {
        let k = choose|i: int| 0 <= i < text.len() && !is_white_space(#[trigger] text[i]);
        lemma_leading_bounded(text, k);
        lemma_trailing_bounded(text, k);
    }
}

proof fn lemma_leading_bounded(text: Seq<char>, k: int)
    requires
        0 <= k < text.len(),
        !is_white_space(text[k]),
    ensures
        leading_white_space(text) <= k,
    decreases text.len(),
{
    if k > 0 && is_white_space(text[0]) {
        assert(text.drop_first()[k - 1] == text[k]);
        lemma_leading_bounded(text.drop_first(), k - 1);
    }
}

proof fn lemma_trailing_bounded(text: Seq<char>, k: int)
    requires
        0 <= k < text.len(),
        !is_white_space(text[k]),
    ensures
        trailing_white_space(text) <= text.len() - k - 1,
    decreases text.len(),
{
    if k < text.len() - 1 && is_white_space(text.last()) {
        assert(text.drop_last()[k] == text[k]);
        lemma_trailing_bounded(text.drop_last(), k);
    }
}

} // verus!
