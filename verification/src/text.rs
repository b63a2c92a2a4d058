//! Reading words and numbers out of text.
use vstd::prelude::*;

verus! {

/// `c` has the Unicode property White_Space.
pub open spec fn is_white(c: char) -> bool {
    ||| '\u{9}' <= c && c <= '\u{d}'
    ||| c == ' '
    ||| c == '\u{85}'
    ||| c == '\u{a0}'
    ||| c == '\u{1680}'
    ||| '\u{2000}' <= c && c <= '\u{200a}'
    ||| c == '\u{2028}'
    ||| c == '\u{2029}'
    ||| c == '\u{202f}'
    ||| c == '\u{205f}'
    ||| c == '\u{3000}'
}

/// `text` in lower case, by Unicode's rules.
pub uninterp spec fn lowercase(text: Seq<char>) -> Seq<char>;

/// `char::is_whitespace`: true of the characters that have the Unicode property
/// White_Space, and of no other.
pub assume_specification[ char::is_whitespace ](c: char) -> (r: bool)
    ensures
        r == is_white(c),
;

/// `str::to_lowercase`: the answer is a function of the text. On a text that
/// is all ASCII it changes the letters `A` to `Z` and nothing else; what it
/// does to other characters is left to Unicode.
pub assume_specification[ str::to_lowercase ](s: &str) -> (r: String)
    ensures
        r@ == lowercase(s@),
        vstd::utf8::is_ascii_chars(s@) ==> r@ == ascii_lowercase(s@),
;

/// `str::to_ascii_lowercase`: the letters `A` to `Z` become `a` to `z`, and
/// every other character stays as it is.
pub assume_specification[ str::to_ascii_lowercase ](s: &str) -> (r: String)
    ensures
        r@ == ascii_lowercase(s@),
;

/// A letter from `A` to `Z` as its small letter, any other character as it is.
pub open spec fn ascii_lower(c: char) -> char {
    if 'A' <= c && c <= 'Z' {
        (c as u32 + 32) as char
    } else {
        c
    }
}

pub open spec fn ascii_lowercase(text: Seq<char>) -> Seq<char> {
    text.map_values(|c: char| ascii_lower(c))
}

/// `text` from its first character that is not white.
pub open spec fn without_leading_white(text: Seq<char>) -> Seq<char>
    decreases text.len(),
{
    if text.len() > 0 && is_white(text[0]) {
        without_leading_white(text.drop_first())
    } else {
        text
    }
}

/// `text` up to its last character that is not white.
pub open spec fn without_trailing_white(text: Seq<char>) -> Seq<char>
    decreases text.len(),
{
    if text.len() > 0 && is_white(text.last()) {
        without_trailing_white(text.drop_last())
    } else {
        text
    }
}

/// `text` without the white characters at its ends.
pub open spec fn trimmed(text: Seq<char>) -> Seq<char> {
    without_trailing_white(without_leading_white(text))
}

pub proof fn lemma_leading_white(text: Seq<char>, k: int)
    requires
        0 <= k <= text.len(),
        forall|i: int| 0 <= i < k ==> is_white(#[trigger] text[i]),
        k < text.len() ==> !is_white(text[k]),
    ensures
        without_leading_white(text) == text.skip(k),
    decreases k,
{
    if k > 0 {
        let rest = text.drop_first();
        assert(is_white(text[0]));
        assert forall|i: int| 0 <= i < k - 1 implies is_white(#[trigger] rest[i]) by {
            assert(rest[i] == text[i + 1]);
        }
        lemma_leading_white(rest, k - 1);
        assert(rest.skip(k - 1) =~= text.skip(k));
    } else {
        assert(text.skip(0) =~= text);
    }
}

pub proof fn lemma_trailing_white(text: Seq<char>, k: int)
    requires
        0 <= k <= text.len(),
        forall|i: int| k <= i < text.len() ==> is_white(#[trigger] text[i]),
        k > 0 ==> !is_white(text[k - 1]),
    ensures
        without_trailing_white(text) == text.take(k),
    decreases text.len(),
{
    if k < text.len() {
        assert(is_white(text[text.len() - 1]));
        lemma_trailing_white(text.drop_last(), k);
        assert(text.drop_last().take(k) =~= text.take(k));
    } else {
        assert(text.take(k) =~= text);
    }
}

/// `text` without the white characters at its ends.
pub fn trim<'a>(text: &'a str) -> (r: &'a str)
    ensures
        r@ == trimmed(text@),
{
    let n: usize = text.unicode_len();
    let mut from: usize = 0;
    while from < n && text.get_char(from).is_whitespace()
        invariant
            0 <= from <= n,
            n == text@.len(),
            forall|i: int| 0 <= i < from ==> is_white(#[trigger] text@[i]),
        decreases n - from,
    {
        from += 1;
    }
    let mut to: usize = n;
    while from < to && text.get_char(to - 1).is_whitespace()
        invariant
            0 <= from <= to <= n,
            n == text@.len(),
            forall|i: int| to <= i < n ==> is_white(#[trigger] text@[i]),
        decreases to,
    {
        to -= 1;
    }
    proof {
        lemma_leading_white(text@, from as int);
        let rest = text@.skip(from as int);
        assert forall|i: int| to - from <= i < rest.len() implies is_white(#[trigger] rest[i]) by {
            assert(rest[i] == text@[i + from]);
        }
        lemma_trailing_white(rest, to - from);
        assert(rest.take(to - from) =~= text@.subrange(from as int, to as int));
    }
    text.substring_char(from, to)
}

/// The texts are the same.
pub fn text_is(a: &str, b: &str) -> (r: bool)
    ensures
        r == (a@ == b@),
{
    a.to_owned().eq(&b.to_owned())
}

/// The value of a digit, where it is one of the radix.
pub open spec fn digit_value(c: char, radix: int) -> Option<int> {
    let value = if '0' <= c && c <= '9' {
        c as int - '0' as int
    } else if 'a' <= c && c <= 'z' {
        c as int - 'a' as int + 10
    } else if 'A' <= c && c <= 'Z' {
        c as int - 'A' as int + 10
    } else {
        radix
    };
    if value < radix {
        Some(value)
    } else {
        None
    }
}

/// The number that a row of digits stands for.
pub open spec fn digits_value(digits: Seq<char>, radix: int) -> Option<int>
    decreases digits.len(),
{
    if digits.len() == 0 {
        Some(0)
    } else {
        match (digits_value(digits.drop_last(), radix), digit_value(digits.last(), radix)) {
            (Some(value), Some(digit)) => Some(value * radix + digit),
            _ => None,
        }
    }
}

/// `text` without one leading plus sign.
pub open spec fn without_plus(text: Seq<char>) -> Seq<char> {
    if text.len() > 0 && text[0] == '+' {
        text.drop_first()
    } else {
        text
    }
}

/// The number that `text` writes down: at least one digit, after a plus sign
/// if there is one, and no more than fits.
pub open spec fn number(text: Seq<char>, radix: int) -> Option<u32> {
    let digits = without_plus(text);
    if digits.len() == 0 {
        None
    } else {
        match digits_value(digits, radix) {
            Some(value) if value <= u32::MAX => Some(value as u32),
            _ => None,
        }
    }
}

/// A row of digits that goes on writes down no smaller number, and one that is
/// not a number does not become one.
pub proof fn lemma_digits_grow(digits: Seq<char>, radix: int, k: int)
    requires
        0 <= k <= digits.len(),
        radix >= 1,
    ensures
        match (digits_value(digits.take(k), radix), digits_value(digits, radix)) {
            (Some(a), Some(b)) => 0 <= a <= b,
            (None, Some(_)) => false,
            (Some(a), None) => 0 <= a,
            (None, None) => true,
        },
    decreases digits.len(),
{
    if k < digits.len() {
        lemma_digits_grow(digits.drop_last(), radix, k);
        assert(digits.drop_last().take(k) =~= digits.take(k));
        if let Some(value) = digits_value(digits.drop_last(), radix) {
            lemma_digits_nonnegative(digits.drop_last(), radix);
            assert(value * radix >= value) by (nonlinear_arith)
                requires
                    value >= 0,
                    radix >= 1,
            ;
        }
    } else {
        assert(digits.take(k) =~= digits);
        lemma_digits_nonnegative(digits, radix);
    }
}

pub proof fn lemma_digits_nonnegative(digits: Seq<char>, radix: int)
    requires
        radix >= 1,
    ensures
        digits_value(digits, radix) matches Some(value) ==> value >= 0,
    decreases digits.len(),
{
    if digits.len() > 0 {
        lemma_digits_nonnegative(digits.drop_last(), radix);
        if let Some(value) = digits_value(digits.drop_last(), radix) {
            assert(value * radix >= 0) by (nonlinear_arith)
                requires
                    value >= 0,
                    radix >= 1,
            ;
        }
    }
}

fn digit_of(c: char, radix: u32) -> (r: Option<u32>)
    requires
        radix <= 36,
    ensures
        match r {
            Some(d) => digit_value(c, radix as int) == Some(d as int) && d < radix,
            None => digit_value(c, radix as int) is None,
        },
{
    let value: u32 = if '0' <= c && c <= '9' {
        c as u32 - '0' as u32
    } else if 'a' <= c && c <= 'z' {
        c as u32 - 'a' as u32 + 10
    } else if 'A' <= c && c <= 'Z' {
        c as u32 - 'A' as u32 + 10
    } else {
        radix
    };
    if value < radix {
        Some(value)
    } else {
        None
    }
}

/// The number that `text` writes down in the radix.
pub fn parse_number(text: &str, radix: u32) -> (r: Option<u32>)
    requires
        2 <= radix <= 36,
    ensures
        r == number(text@, radix as int),
{
    let n: usize = text.unicode_len();
    let start: usize = if n > 0 && text.get_char(0) == '+' {
        1
    } else {
        0
    };
    let ghost digits = without_plus(text@);
    let mut i: usize = start;
    let mut value: u64 = 0;
    if start == n {
        return None;
    }
    proof {
        assert(digits =~= text@.skip(start as int));
        assert(digits.take(0) =~= Seq::empty());
    }
    while i < n
        invariant
            2 <= radix <= 36,
            n == text@.len(),
            start <= i <= n,
            start < n,
            digits == without_plus(text@),
            digits == text@.skip(start as int),
            value <= u32::MAX,
            digits_value(digits.take(i - start), radix as int) == Some(value as int),
        decreases n - i,
    {
        let ghost k = i - start;
        proof {
            assert(digits.take(k + 1).drop_last() =~= digits.take(k));
            assert(digits.take(k + 1).last() == text@[i as int]);
            lemma_digits_grow(digits, radix as int, k + 1);
        }
        match digit_of(text.get_char(i), radix) {
            Some(digit) => {
                assert(value * radix <= 0xffff_ffff * 36) by (nonlinear_arith)
                    requires
                        0 <= value <= 0xffff_ffff,
                        radix <= 36,
                ;
                value = value * radix as u64 + digit as u64;
                if value > u32::MAX as u64 {
                    return None;
                }
            },
            None => {
                return None;
            },
        }
        i += 1;
    }
    proof {
        assert(digits.take(i - start) =~= digits);
    }
    Some(value as u32)
}

/// `text` begins with the mark of hexadecimal numbers.
pub open spec fn has_hex_mark(text: Seq<char>) -> bool {
    text.len() >= 2 && text[0] == '0' && text[1] == 'x'
}

/// `text` without the marks of hexadecimal numbers that it begins with.
pub open spec fn without_hex_marks(text: Seq<char>) -> Seq<char>
    decreases text.len(),
{
    if has_hex_mark(text) {
        without_hex_marks(text.skip(2))
    } else {
        text
    }
}

pub fn starts_with_hex_mark(text: &str) -> (r: bool)
    ensures
        r == has_hex_mark(text@),
{
    text.unicode_len() >= 2 && text.get_char(0) == '0' && text.get_char(1) == 'x'
}

/// `text` without the marks of hexadecimal numbers that it begins with.
pub fn strip_hex_marks<'a>(text: &'a str) -> (r: &'a str)
    ensures
        r@ == without_hex_marks(text@),
{
    let mut rest = text;
    while starts_with_hex_mark(rest)
        invariant
            without_hex_marks(rest@) == without_hex_marks(text@),
        decreases rest@.len(),
    {
        let ghost before = rest@;
        let n: usize = rest.unicode_len();
        rest = rest.substring_char(2, n);
        proof {
            assert(rest@ =~= before.skip(2));
        }
    }
    rest
}

} // verus!
