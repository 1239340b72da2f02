//! Text building blocks: decimal numbers, zero padding and Bangla digits.
use vstd::prelude::*;

verus! {

/// Calls `String::push`, which appends one character to the end of the string.
#[verifier::external_body]
pub(crate) fn push_char(s: &mut String, c: char)
    ensures
        final(s)@ == old(s)@.push(c),
{
    s.push(c);
}

/// What `str::to_lowercase` returns for a text.
pub uninterp spec fn std_to_lowercase(s: Seq<char>) -> Seq<char>;

/// Whether a character is white space: one of the characters with Unicode's White_Space
/// property (what `char::is_whitespace` tests).
pub open spec fn is_white_space(c: char) -> bool {
    ||| '\u{9}' <= c <= '\u{D}'
    ||| c == ' '
    ||| c == '\u{85}'
    ||| c == '\u{A0}'
    ||| c == '\u{1680}'
    ||| '\u{2000}' <= c <= '\u{200A}'
    ||| c == '\u{2028}'
    ||| c == '\u{2029}'
    ||| c == '\u{202F}'
    ||| c == '\u{205F}'
    ||| c == '\u{3000}'
}

/// A text without its leading white space.
pub open spec fn without_leading_space(s: Seq<char>) -> Seq<char>
    decreases s.len(),
{
    if s.len() > 0 && is_white_space(s[0]) {
        without_leading_space(s.drop_first())
    } else {
        s
    }
}

/// A text without its trailing white space.
pub open spec fn without_trailing_space(s: Seq<char>) -> Seq<char>
    decreases s.len(),
{
    if s.len() > 0 && is_white_space(s.last()) {
        without_trailing_space(s.drop_last())
    } else {
        s
    }
}

/// A text without white space at either end.
pub open spec fn trimmed(s: Seq<char>) -> Seq<char> {
    without_trailing_space(without_leading_space(s))
}

/// A character in lower case when it is an ASCII capital letter, unchanged otherwise.
pub open spec fn ascii_lower(c: char) -> char {
    if 'A' <= c <= 'Z' {
        (c as int + 32) as char
    } else {
        c
    }
}

/// A text with its ASCII capital letters in lower case.
pub open spec fn ascii_lowercase(s: Seq<char>) -> Seq<char> {
    s.map_values(|c: char| ascii_lower(c))
}

/// Calls `str::to_lowercase`; the result is the named `std_to_lowercase` of the text, and
/// for an ASCII text it is the text with its capital letters A-Z in lower case (the Unicode
/// lowercase of an ASCII letter is its ASCII lowercase).
#[verifier::external_body]
pub(crate) fn lowercase(s: &str) -> (r: String)
    ensures
        r@ == std_to_lowercase(s@),
        vstd::utf8::is_ascii_chars(s@) ==> r@ == ascii_lowercase(s@),
{
    s.to_lowercase()
}

/// Calls `str::trim`, which returns the text with its leading and trailing white space
/// removed, white space being the characters of Unicode's White_Space property.
#[verifier::external_body]
pub(crate) fn trim(s: &str) -> (r: &str)
    ensures
        r@ == trimmed(s@),
{
    s.trim()
}

/// The ASCII character of a decimal digit.
pub open spec fn ascii_digit(d: int) -> char {
    (48 + d) as char
}

/// The Bangla character of a decimal digit (০ is U+09E6).
pub open spec fn bangla_digit(d: int) -> char {
    (0x09E6 + d) as char
}

/// Whether a character is one of the ASCII digits 0-9 (what `char::to_digit(10)` accepts).
pub open spec fn is_ascii_digit(c: char) -> bool {
    '0' <= c <= '9'
}

/// The decimal representation of a natural number, without leading zeros.
pub open spec fn decimal(n: nat) -> Seq<char>
    decreases n,
{
    if n < 10 {
        seq![ascii_digit(n as int)]
    } else {
        decimal(n / 10).push(ascii_digit((n % 10) as int))
    }
}

/// The decimal representation of an integer, with a leading '-' when negative
/// (what `to_string` prints for an integer).
pub open spec fn signed_decimal(n: int) -> Seq<char> {
    if n < 0 {
        seq!['-'] + decimal((-n) as nat)
    } else {
        decimal(n as nat)
    }
}

/// The decimal representation padded with a leading zero to at least two digits
/// (what `{:02}` prints for a natural number).
pub open spec fn two_digit(n: nat) -> Seq<char> {
    if n < 10 {
        seq!['0'] + decimal(n)
    } else {
        decimal(n)
    }
}

/// A character with every ASCII digit replaced by the Bangla digit of the same value.
pub open spec fn to_bangla_char(c: char) -> char {
    if is_ascii_digit(c) {
        bangla_digit(c as int - 48)
    } else {
        c
    }
}

/// A text with every ASCII digit replaced by the Bangla digit of the same value.
pub open spec fn bangla_digits_of(s: Seq<char>) -> Seq<char> {
    s.map_values(|c: char| to_bangla_char(c))
}

/// A text with its digits in Bangla when `bangla` holds, unchanged otherwise.
pub open spec fn numerals(s: Seq<char>, bangla: bool) -> Seq<char> {
    if bangla {
        bangla_digits_of(s)
    } else {
        s
    }
}

fn ascii_digit_char(d: u64) -> (c: char)
    requires
        d < 10,
    ensures
        c == ascii_digit(d as int),
{
    match d {
        0 => '0',
        1 => '1',
        2 => '2',
        3 => '3',
        4 => '4',
        5 => '5',
        6 => '6',
        7 => '7',
        8 => '8',
        _ => '9',
    }
}

/// Appends the decimal representation of `n`.
pub fn push_decimal(s: &mut String, n: u64)
    ensures
        final(s)@ == old(s)@ + decimal(n as nat),
    decreases n,
{
    if n >= 10 {
        push_decimal(s, n / 10);
    }
    push_char(s, ascii_digit_char(n % 10));
    proof {
        assert(final(s)@ =~= old(s)@ + decimal(n as nat));
    }
}

/// The decimal representation of a signed integer.
pub fn signed_to_string(n: i64) -> (s: String)
    ensures
        s@ == signed_decimal(n as int),
{
    let mut s = String::new();
    if n < 0 {
        push_char(&mut s, '-');
        let magnitude: u64 = if n == i64::MIN {
            9_223_372_036_854_775_808u64
        } else {
            (-n) as u64
        };
        push_decimal(&mut s, magnitude);
        assert(s@ =~= signed_decimal(n as int));
    } else {
        push_decimal(&mut s, n as u64);
        assert(s@ =~= signed_decimal(n as int));
    }
    s
}

/// Appends `n` padded with a leading zero to two digits.
pub fn push_two_digit(s: &mut String, n: u32)
    ensures
        final(s)@ == old(s)@ + two_digit(n as nat),
{
    if n < 10 {
        push_char(s, '0');
    }
    push_decimal(s, n as u64);
    proof {
        assert(final(s)@ =~= old(s)@ + two_digit(n as nat));
    }
}

fn to_bangla_char_exec(c: char) -> (r: char)
    ensures
        r == to_bangla_char(c),
{
    match c {
        '0' => '০',
        '1' => '১',
        '2' => '২',
        '3' => '৩',
        '4' => '৪',
        '5' => '৫',
        '6' => '৬',
        '7' => '৭',
        '8' => '৮',
        '9' => '৯',
        _ => c,
    }
}

/// Convert a string to Bangla digits
pub fn to_bangla_digits(input: &str) -> (r: String)
    ensures
        r@ == bangla_digits_of(input@),
{
    let mut r = String::new();
    let n = input.unicode_len();
    let mut i: usize = 0;
    while i < n
        invariant
            n == input@.len(),
            i <= n,
            r@ == bangla_digits_of(input@.take(i as int)),
        decreases n - i,
    {
        let c = input.get_char(i);
        push_char(&mut r, to_bangla_char_exec(c));
        i = i + 1;
        assert(input@.take(i as int) =~= input@.take(i - 1).push(c));
        assert(r@ =~= bangla_digits_of(input@.take(i as int)));
    }
    assert(input@.take(n as int) =~= input@);
    r
}

/// The decimal text of `n`, in Bangla digits when `bangla` holds.
pub(crate) fn number_text(n: i64, bangla: bool) -> (r: String)
    ensures
        r@ == numerals(signed_decimal(n as int), bangla),
{
    let s = signed_to_string(n);
    if bangla {
        to_bangla_digits(s.as_str())
    } else {
        s
    }
}

/// Index of the first `c` at or after `from`, or the length when there is none.
pub open spec fn next_index_of(s: Seq<char>, c: char, from: int) -> int
    decreases s.len() - from,
{
    if from >= s.len() {
        s.len() as int
    } else if s[from] == c {
        from
    } else {
        next_index_of(s, c, from + 1)
    }
}

/// Lemma: the next occurrence lies between the start and the end of the text, holds `c`
/// when it is not the end, and nothing before it (from the start) is `c`.
pub proof fn lemma_next_index_of(s: Seq<char>, c: char, from: int)
    requires
        0 <= from <= s.len(),
    ensures
        from <= next_index_of(s, c, from) <= s.len(),
        next_index_of(s, c, from) < s.len() ==> s[next_index_of(s, c, from)] == c,
        forall|k: int| from <= k < next_index_of(s, c, from) ==> s[k] != c,
    decreases s.len() - from,
{
    if from < s.len() && s[from] != c {
        lemma_next_index_of(s, c, from + 1);
    }
}

/// The characters of a text.
pub(crate) fn chars_of(s: &str) -> (v: Vec<char>)
    ensures
        v@ == s@,
{
    let n = s.unicode_len();
    let mut v: Vec<char> = Vec::new();
    let mut i: usize = 0;
    while i < n
        invariant
            n == s@.len(),
            i <= n,
            v@ == s@.take(i as int),
        decreases n - i,
    {
        v.push(s.get_char(i));
        i = i + 1;
        assert(v@ =~= s@.take(i as int));
    }
    assert(s@.take(n as int) =~= s@);
    v
}

/// The text of a run of characters.
pub(crate) fn string_of(chars: &Vec<char>, from: usize, to: usize) -> (s: String)
    requires
        from <= to <= chars.len(),
    ensures
        s@ == chars@.subrange(from as int, to as int),
{
    let mut s = String::new();
    let mut i = from;
    while i < to
        invariant
            from <= i <= to <= chars.len(),
            s@ == chars@.subrange(from as int, i as int),
        decreases to - i,
    {
        push_char(&mut s, chars[i]);
        i = i + 1;
        assert(s@ =~= chars@.subrange(from as int, i as int));
    }
    s
}

/// Index of the first `c` at or after `from`, or the length.
pub(crate) fn find_char(chars: &Vec<char>, c: char, from: usize) -> (i: usize)
    requires
        from <= chars.len(),
    ensures
        i == next_index_of(chars@, c, from as int),
        from <= i <= chars.len(),
{
    let mut i = from;
    while i < chars.len() && chars[i] != c
        invariant
            from <= i <= chars.len(),
            next_index_of(chars@, c, from as int) == next_index_of(chars@, c, i as int),
        decreases chars.len() - i,
    {
        i = i + 1;
    }
    i
}

/// Converting to Bangla digits keeps the length, leaves every character that is not an
/// ASCII digit in place, and a second conversion changes nothing.
pub proof fn lemma_bangla_digits_idempotent(s: Seq<char>)
    ensures
        bangla_digits_of(s).len() == s.len(),
        forall|i: int| 0 <= i < s.len() && !is_ascii_digit(s[i]) ==> bangla_digits_of(s)[i] == s[i],
        forall|i: int| 0 <= i < s.len() ==> !is_ascii_digit(#[trigger] bangla_digits_of(s)[i]),
        bangla_digits_of(bangla_digits_of(s)) == bangla_digits_of(s),
{
    assert(bangla_digits_of(bangla_digits_of(s)) =~= bangla_digits_of(s));
}

} // verus!
