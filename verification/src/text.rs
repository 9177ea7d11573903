//! Text: the few operations on strings that settings and messages need.

use vstd::prelude::*;

verus! {

/// Whether `c` has the Unicode property `White_Space`.
pub open spec fn is_white_space(c: char) -> bool {
    let code = c as u32;
    ||| 0x9 <= code <= 0xd
    ||| code == 0x20
    ||| code == 0x85
    ||| code == 0xa0
    ||| code == 0x1680
    ||| 0x2000 <= code <= 0x200a
    ||| code == 0x2028
    ||| code == 0x2029
    ||| code == 0x202f
    ||| code == 0x205f
    ||| code == 0x3000
}

/// `text` from its first character that is not white space.
pub open spec fn trimmed_start(text: Seq<char>) -> Seq<char>
    decreases text.len(),
{
    if text.len() > 0 && is_white_space(text.first()) {
        trimmed_start(text.drop_first())
    } else {
        text
    }
}

/// `text` up to its last character that is not white space.
pub open spec fn trimmed_end(text: Seq<char>) -> Seq<char>
    decreases text.len(),
{
    if text.len() > 0 && is_white_space(text.last()) {
        trimmed_end(text.drop_last())
    } else {
        text
    }
}

/// `text` without the white space at its two ends.
pub open spec fn trimmed(text: Seq<char>) -> Seq<char> {
    trimmed_end(trimmed_start(text))
}

/// `c`, or its lower case where it is an upper case ASCII letter.
pub open spec fn lower_char(c: char) -> char {
    if 'A' <= c <= 'Z' {
        (c as u32 + 32) as char
    } else {
        c
    }
}

/// `text` with its upper case ASCII letters in lower case.
pub open spec fn lower_ascii(text: Seq<char>) -> Seq<char> {
    text.map_values(|c: char| lower_char(c))
}

/// The characters of an optional string.
pub open spec fn optional_text(value: Option<&str>) -> Option<Seq<char>> {
    match value {
        Some(text) => Some(text@),
        None => None,
    }
}

/// The digit for a number below ten.
pub open spec fn digit(d: nat) -> char {
    (d + 48) as char
}

/// `n` in decimal, without leading zeros.
pub open spec fn decimal(n: nat) -> Seq<char>
    decreases n,
{
    if n < 10 {
        seq![digit(n)]
    } else {
        decimal(n / 10).push(digit(n % 10))
    }
}

/// What `{:?}` prints for a string: the text in double quotes, with escapes where
/// `str`'s `Debug` puts them.
pub uninterp spec fn debug_text(text: Seq<char>) -> Seq<char>;

/// Calls `str::trim`, which drops the leading and the trailing characters with the Unicode
/// property `White_Space`.
#[verifier::external_body]
pub(crate) fn trim(text: &str) -> (r: &str)
    ensures
        r@ == trimmed(text@),
{
    text.trim()
}

/// Calls `str::to_ascii_lowercase`, which maps the ASCII letters `A` to `Z` to `a` to `z` and
/// leaves every other character as it is.
#[verifier::external_body]
pub(crate) fn to_ascii_lowercase(text: &str) -> (r: String)
    ensures
        r@ == lower_ascii(text@),
{
    text.to_ascii_lowercase()
}

/// Formats `text` with `str`'s `Debug`. Its result is only named: which characters it
/// escapes is not stated.
#[verifier::external_body]
pub(crate) fn debug_format(text: &str) -> (r: String)
    ensures
        r@ == debug_text(text@),
{
    format!("{text:?}")
}

/// Whether the two strings hold the same characters.
pub(crate) fn same_text(a: &str, b: &str) -> (r: bool)
    ensures
        r == (a@ == b@),
{
    a.to_owned() == b.to_owned()
}

/// Appends `n` in decimal.
pub(crate) fn append_decimal(out: &mut String, n: u64)
    ensures
        final(out)@ == old(out)@ + decimal(n as nat),
    decreases n,
{
    if n >= 10 {
        append_decimal(out, n / 10);
    }
    let unit: u64 = n % 10;
    let glyph: &str = match unit {
        0 => "0",
        1 => "1",
        2 => "2",
        3 => "3",
        4 => "4",
        5 => "5",
        6 => "6",
        7 => "7",
        8 => "8",
        _ => "9",
    };
    proof {
        reveal_strlit("0");
        reveal_strlit("1");
        reveal_strlit("2");
        reveal_strlit("3");
        reveal_strlit("4");
        reveal_strlit("5");
        reveal_strlit("6");
        reveal_strlit("7");
        reveal_strlit("8");
        reveal_strlit("9");
        assert(glyph@ =~= seq![digit(unit as nat)]);
    }
    out.append(glyph);
}

proof fn lemma_start_is_white(text: Seq<char>) -> (n: int)
    ensures
        0 <= n <= text.len(),
        trimmed_start(text) == text.subrange(n, text.len() as int),
        forall|i: int| 0 <= i < n ==> is_white_space(#[trigger] text[i]),
        n < text.len() ==> !is_white_space(text[n]),
    decreases text.len(),
{
    if text.len() > 0 && is_white_space(text.first()) {
        let rest = text.drop_first();
        let n = lemma_start_is_white(rest);
        assert(rest.subrange(n, rest.len() as int) =~= text.subrange(n + 1, text.len() as int));
        assert forall|i: int| 0 <= i < n + 1 implies is_white_space(#[trigger] text[i]) by {
            if i > 0 {
                assert(is_white_space(rest[i - 1]));
            }
        }
        n + 1
    } else {
        assert(text.subrange(0, text.len() as int) =~= text);
        0
    }
}

proof fn lemma_end_is_white(text: Seq<char>) -> (n: int)
    ensures
        0 <= n <= text.len(),
        trimmed_end(text) == text.subrange(0, n),
        forall|i: int| n <= i < text.len() ==> is_white_space(#[trigger] text[i]),
        n > 0 ==> !is_white_space(text[n - 1]),
    decreases text.len(),
{
    if text.len() > 0 && is_white_space(text.last()) {
        let rest = text.drop_last();
        let n = lemma_end_is_white(rest);
        assert(rest.subrange(0, n) =~= text.subrange(0, n));
        assert forall|i: int| n <= i < text.len() implies is_white_space(#[trigger] text[i]) by {
            if i < rest.len() {
                assert(is_white_space(rest[i]));
            }
        }
        n
    } else {
        assert(text.subrange(0, text.len() as int) =~= text);
        text.len() as int
    }
}

/// What is trimmed off a text is white space at its two ends, and all of it: what stays is a part
/// of the text that neither begins nor ends with white space, and what lies before and behind it
/// is nothing else.
pub proof fn law_only_white_space_is_trimmed(text: Seq<char>)
    ensures
        exists|from: int, to: int|
            0 <= from <= to <= text.len() && trimmed(text) == #[trigger] text.subrange(from, to) && (
            forall|i: int|
                (0 <= i < from || to <= i < text.len()) ==> is_white_space(#[trigger] text[i])),
        trimmed(text).len() > 0 ==> !is_white_space(trimmed(text).first()) && !is_white_space(
            trimmed(text).last(),
        ),
{
    let from = lemma_start_is_white(text);
    let start = trimmed_start(text);
    let length = lemma_end_is_white(start);
    let to = from + length;
    assert(trimmed(text) =~= text.subrange(from, to));
    assert forall|i: int| (0 <= i < from || to <= i < text.len()) implies is_white_space(
        #[trigger] text[i],
    ) by {
        if i >= to {
            assert(start[i - from] == text[i]);
        }
    }
    if length > 0 {
        assert(trimmed(text).first() == text[from]);
        assert(trimmed(text).last() == start[length - 1]);
    }
}

/// Lower case changes the letters `A` to `Z`, each to the letter 32 code points on, and nothing
/// else.
pub proof fn law_lower_case_changes_letters_only(text: Seq<char>, i: int)
    requires
        0 <= i < text.len(),
    ensures
        lower_ascii(text).len() == text.len(),
        'A' <= text[i] <= 'Z' ==> lower_ascii(text)[i] as u32 == text[i] as u32 + 32,
        !('A' <= text[i] <= 'Z') ==> lower_ascii(text)[i] == text[i],
{
}

/// The number that decimal digits stand for.
pub open spec fn number_of(digits: Seq<char>) -> int
    decreases digits.len(),
{
    if digits.len() == 0 {
        0
    } else {
        number_of(digits.drop_last()) * 10 + (digits.last() as u32 - '0' as u32)
    }
}

/// A number in decimal reads back as itself, is made of digits, and begins with zero only where it
/// is zero.
pub proof fn law_decimal_reads_back(n: nat)
    ensures
        number_of(decimal(n)) == n,
        decimal(n).len() > 0,
        forall|i: int| 0 <= i < decimal(n).len() ==> '0' <= #[trigger] decimal(n)[i] <= '9',
        decimal(n)[0] == '0' ==> n == 0,
        n < 10 ==> decimal(n).len() == 1,
    decreases n,
{
    if n >= 10 {
        law_decimal_reads_back(n / 10);
        assert(decimal(n).drop_last() =~= decimal(n / 10));
        assert(decimal(n)[0] == decimal(n / 10)[0]);
    } else {
        assert(decimal(n).drop_last() =~= Seq::<char>::empty());
        assert(number_of(Seq::<char>::empty()) == 0);
    }
}

/// An optional text is there exactly where its string is, with the same characters.
pub proof fn law_optional_text_is_the_text(value: Option<&str>)
    ensures
        value is None ==> optional_text(value) is None,
        value matches Some(text) ==> optional_text(value) == Some(text@),
{
}

} // verus!
