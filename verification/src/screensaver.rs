//! Screensaver operating mode, as chosen by the command line.
//!
//! Windows starts a screensaver with `/s` (run), `/p <hwnd>` or `/p:<hwnd>` (preview inside
//! the window `hwnd`) or `/c` (configure); dashes and upper case are accepted too.
use crate::text::{
    ascii_lowercase, chars_of, find_char, is_ascii_digit, lowercase, next_index_of, std_to_lowercase, trimmed,
    string_of, trim,
};
use vstd::prelude::*;
use vstd::utf8::is_ascii_chars;

verus! {

/// Screensaver operating mode
#[derive(Debug, Clone, Copy, PartialEq, Eq, Structural)]
pub enum ScreensaverMode {
    /// Normal screensaver mode (/s)
    Screensaver,
    /// Preview mode in settings dialog (/p <hwnd>)
    Preview(isize),
    /// Configuration dialog (/c)
    Configure,
}

/// The value of a non-empty run of ASCII digits.
pub open spec fn digits_value(s: Seq<char>) -> int
    decreases s.len(),
{
    if s.len() == 0 {
        0
    } else {
        digits_value(s.drop_last()) * 10 + (s.last() as int - 48)
    }
}

/// Every character is an ASCII digit.
pub open spec fn all_digits(s: Seq<char>) -> bool {
    forall|i: int| 0 <= i < s.len() ==> is_ascii_digit(#[trigger] s[i])
}

/// The text after an optional leading `+` or `-` sign.
pub open spec fn unsigned_part(s: Seq<char>) -> Seq<char> {
    if s.len() > 0 && (s[0] == '+' || s[0] == '-') {
        s.subrange(1, s.len() as int)
    } else {
        s
    }
}

/// What `str::parse::<isize>` accepts: an optional `+` or `-` sign followed by one or more
/// ASCII digits, whose value fits in `isize`; anything else (spaces, underscores, an empty
/// text, overflow) is an error.
pub open spec fn parse_isize_spec(s: Seq<char>) -> Option<isize> {
    let digits = unsigned_part(s);
    let value = if s.len() > 0 && s[0] == '-' {
        -digits_value(digits)
    } else {
        digits_value(digits)
    };
    if digits.len() > 0 && all_digits(digits) && isize::MIN <= value <= isize::MAX {
        Some(value as isize)
    } else {
        None
    }
}

/// A window handle number, or 0 when the text is not one.
pub open spec fn hwnd_or_zero(s: Seq<char>) -> isize {
    match parse_isize_spec(trimmed(s)) {
        Some(v) => v,
        None => 0,
    }
}

/// The second ':'-separated field of a text that holds a ':'
/// (what `split(':').nth(1)` gives).
pub open spec fn second_field(s: Seq<char>) -> Seq<char> {
    let first = next_index_of(s, ':', 0);
    s.subrange(first + 1, next_index_of(s, ':', first + 1))
}

/// Whether the text starts with the two characters `a`, `b`.
pub open spec fn starts_with2(s: Seq<char>, a: char, b: char) -> bool {
    s.len() >= 2 && s[0] == a && s[1] == b
}

/// The mode that a command line asks for (`args[0]` is the program). A preview argument
/// longer than its two-character switch carries the hwnd itself; the switch is two ASCII
/// characters, so "longer" is the same counted in characters or in bytes.
pub open spec fn mode_of_args(args: Seq<Seq<char>>) -> ScreensaverMode {
    if args.len() < 2 {
        ScreensaverMode::Screensaver
    } else {
        mode_of_switch(std_to_lowercase(args[1]), args)
    }
}

/// The mode for the lower-cased switch `arg` (the first argument); a preview hwnd may come in
/// the next argument.
pub open spec fn mode_of_switch(arg: Seq<char>, args: Seq<Seq<char>>) -> ScreensaverMode {
    if starts_with2(arg, '/', 'c') || starts_with2(arg, '-', 'c') {
        ScreensaverMode::Configure
    } else if starts_with2(arg, '/', 'p') || starts_with2(arg, '-', 'p') {
        ScreensaverMode::Preview(
            if next_index_of(arg, ':', 0) < arg.len() {
                hwnd_or_zero(second_field(arg))
            } else if arg.len() > 2 {
                hwnd_or_zero(arg.subrange(2, arg.len() as int))
            } else if args.len() > 2 {
                hwnd_or_zero(args[2])
            } else {
                0
            },
        )
    } else {
        ScreensaverMode::Screensaver
    }
}

/// Switches are read without regard to letter case: two ASCII switches that differ only in
/// the case of their letters (such as "/S" and "/s", or "/P:12" and "/p:12") ask for the
/// same mode.
pub proof fn lemma_switch_case_insensitive(args: Seq<Seq<char>>, switch: Seq<char>)
    requires
        args.len() >= 2,
        is_ascii_chars(args[1]),
        is_ascii_chars(switch),
        ascii_lowercase(switch) == ascii_lowercase(args[1]),
    ensures
        mode_of_switch(ascii_lowercase(switch), args.update(1, switch)) == mode_of_switch(
            ascii_lowercase(args[1]),
            args,
        ),
{
    assert(args.update(1, switch)[2] == args[2] || args.len() <= 2);
}

proof fn lemma_digits_value_prefix_monotone(s: Seq<char>, i: int, j: int)
    requires
        0 <= i <= j <= s.len(),
        forall|k: int| 0 <= k < s.len() ==> is_ascii_digit(#[trigger] s[k]),
    ensures
        digits_value(s.take(i)) <= digits_value(s.take(j)),
        0 <= digits_value(s.take(i)),
    decreases j - i + j,
{
    if i < j {
        lemma_digits_value_prefix_monotone(s, i, j - 1);
        assert(s.take(j).drop_last() =~= s.take(j - 1));
        assert(digits_value(s.take(j - 1)) <= digits_value(s.take(j - 1)) * 10);
    } else if i > 0 {
        lemma_digits_value_prefix_monotone(s, i - 1, i - 1);
        assert(s.take(i).drop_last() =~= s.take(i - 1));
    }
}

/// Parses a decimal `isize` the way `str::parse::<isize>` does.
pub fn parse_isize(s: &str) -> (r: Option<isize>)
    ensures
        r == parse_isize_spec(s@),
{
    let chars = chars_of(s);
    let n = chars.len();
    let negative = n > 0 && chars[0] == '-';
    let start: usize = if n > 0 && (chars[0] == '+' || chars[0] == '-') {
        1
    } else {
        0
    };
    let ghost digits = unsigned_part(s@);
    assert(digits =~= s@.subrange(start as int, n as int));
    if start >= n {
        return None;
    }
    // Every character after the sign must be a digit.
    let mut k: usize = start;
    while k < n
        invariant
            start <= k <= n,
            n == chars@.len(),
            chars@ == s@,
            digits == s@.subrange(start as int, n as int),
            digits == unsigned_part(s@),
            negative == (s@.len() > 0 && s@[0] == '-'),
            forall|i: int| 0 <= i < k - start ==> is_ascii_digit(#[trigger] digits[i]),
        decreases n - k,
    {
        if !('0' <= chars[k] && chars[k] <= '9') {
            assert(!is_ascii_digit(digits[k - start]));
            return None;
        }
        k = k + 1;
    }
    assert(digits =~= s@.subrange(start as int, n as int));
    // Magnitude limit: isize::MAX, or one more for a negative number.
    let limit: i128 = if negative {
        isize::MAX as i128 + 1
    } else {
        isize::MAX as i128
    };
    let mut acc: i128 = 0;
    let mut j: usize = start;
    while j < n
        invariant
            start <= j <= n,
            n == chars@.len(),
            chars@ == s@,
            digits == s@.subrange(start as int, n as int),
            digits == unsigned_part(s@),
            negative == (s@.len() > 0 && s@[0] == '-'),
            forall|i: int| 0 <= i < digits.len() ==> is_ascii_digit(#[trigger] digits[i]),
            acc == digits_value(digits.take(j - start)),
            0 <= acc <= limit,
            limit == (if negative { isize::MAX + 1 } else { isize::MAX as int }),
        decreases n - j,
    {
        assert(digits[j - start] == chars[j as int]);
        assert(is_ascii_digit(digits[j - start]));
        let d = chars[j] as u32 - '0' as u32;
        assert(digits.take(j - start + 1).drop_last() =~= digits.take(j - start));
        assert(digits.take(j - start + 1).last() == chars[j as int]);
        let next = acc * 10 + d as i128;
        assert(next == digits_value(digits.take(j - start + 1)));
        if next > limit {
            proof {
                lemma_digits_value_prefix_monotone(digits, j - start + 1, digits.len() as int);
                assert(digits.take(digits.len() as int) =~= digits);
            }
            return None;
        }
        acc = next;
        j = j + 1;
    }
    assert(digits.take(n - start) =~= digits);
    if negative {
        Some((0 - acc) as isize)
    } else {
        Some(acc as isize)
    }
}

/// The hwnd given in a text, or 0.
fn hwnd_from(s: &str) -> (h: isize)
    ensures
        h == hwnd_or_zero(s@),
{
    match parse_isize(trim(s)) {
        Some(v) => v,
        None => 0,
    }
}

impl ScreensaverMode {
    /// Parse command line arguments (the program name first) to determine operating mode
    pub fn from_args(args: &Vec<String>) -> (mode: Self)
        ensures
            mode == mode_of_args(args@.map_values(|a: String| a@)),
            args.len() >= 2 && is_ascii_chars(args@[1]@) ==> mode == mode_of_switch(
                ascii_lowercase(args@[1]@),
                args@.map_values(|a: String| a@),
            ),
    {
        let ghost views = args@.map_values(|a: String| a@);
        if args.len() < 2 {
            return ScreensaverMode::Screensaver;
        }
        // Windows screensaver arguments can be /s, /S, -s, /c:hwnd, /p:hwnd, etc.
        let arg = lowercase(args[1].as_str());
        assert(views[1] == args@[1]@);
        let chars = chars_of(arg.as_str());
        let n = chars.len();
        let starts = |a: char, b: char| -> (r: bool)
            ensures
                r == starts_with2(chars@, a, b),
            { n >= 2 && chars[0] == a && chars[1] == b };
        // Handle both /c and /c:hwnd formats
        if starts('/', 'c') || starts('-', 'c') {
            ScreensaverMode::Configure
        } else if starts('/', 'p') || starts('-', 'p') {
            // Extract hwnd from /p:hwnd or /p hwnd
            let first = find_char(&chars, ':', 0);
            let hwnd = if first < n {
                let second = find_char(&chars, ':', first + 1);
                hwnd_from(string_of(&chars, first + 1, second).as_str())
            } else if n > 2 {
                hwnd_from(string_of(&chars, 2, n).as_str())
            } else if args.len() > 2 {
                assert(views[2] == args@[2]@);
                hwnd_from(args[2].as_str())
            } else {
                0
            };
            ScreensaverMode::Preview(hwnd)
        } else {
            // Default to Screensaver mode for /s, -s, or any other argument
            ScreensaverMode::Screensaver
        }
    }
}

/// A 16-bit word read as a signed number (what `as i16` makes of it).
pub open spec fn signed_word(word: int) -> int {
    if word < 32768 {
        word
    } else {
        word - 65536
    }
}

/// The cursor position packed in a mouse message's `lparam`: x in the low word, y in the
/// next word, both signed.
pub fn mouse_position(lparam: isize) -> (pos: (i32, i32))
    ensures
        pos.0 == signed_word(lparam as int % 65536),
        pos.1 == signed_word((lparam as int / 65536) % 65536),
{
    let lo: isize = lparam & 0xFFFF;
    let hi: isize = (lparam >> 16) & 0xFFFF;
    let x = lo as i16 as i32;
    let y = hi as i16 as i32;
    assert(lo == lparam % 65536 && 0 <= lo < 65536) by (bit_vector)
        requires
            lo == lparam & 0xFFFF,
    ;
    assert(hi == (lparam / 65536) % 65536 && 0 <= hi < 65536) by (bit_vector)
        requires
            hi == (lparam >> 16) & 0xFFFF,
    ;
    assert(x == if lo < 32768 { lo as int } else { lo - 65536 }) by (bit_vector)
        requires
            0 <= lo < 65536,
            x == lo as i16 as i32,
    ;
    assert(y == if hi < 32768 { hi as int } else { hi - 65536 }) by (bit_vector)
        requires
            0 <= hi < 65536,
            y == hi as i16 as i32,
    ;
    (x, y)
}

/// The screensaver ends when the mouse has moved more than 10 pixels, horizontally or
/// vertically, from where it was first seen.
pub open spec fn moved_too_far(first: (i32, i32), current: (i32, i32)) -> bool {
    let dx = current.0 - first.0;
    let dy = current.1 - first.1;
    (if dx < 0 { -dx } else { dx }) > 10 || (if dy < 0 { -dy } else { dy }) > 10
}

/// Ending depends only on how far the mouse moved, not on where it started or which way it
/// went: swapping the first and the current position, mirroring the move left-right or
/// up-down, or shifting both positions alike gives the same answer. A move of more than 10
/// pixels left, right, up or down ends the screensaver; a move that stays within 10 pixels
/// both ways does not.
pub proof fn lemma_mouse_move_direction_irrelevant(first: (i32, i32), current: (i32, i32), shift: (i32, i32))
    requires
        i16::MIN <= first.0 <= i16::MAX,
        i16::MIN <= first.1 <= i16::MAX,
        i16::MIN <= current.0 <= i16::MAX,
        i16::MIN <= current.1 <= i16::MAX,
        i16::MIN <= shift.0 <= i16::MAX,
        i16::MIN <= shift.1 <= i16::MAX,
    ensures
        moved_too_far(first, current) == moved_too_far(current, first),
        moved_too_far(first, current) == moved_too_far(
            ((-first.0) as i32, first.1),
            ((-current.0) as i32, current.1),
        ),
        moved_too_far(first, current) == moved_too_far(
            (first.0, (-first.1) as i32),
            (current.0, (-current.1) as i32),
        ),
        moved_too_far(first, current) == moved_too_far(
            ((first.0 + shift.0) as i32, (first.1 + shift.1) as i32),
            ((current.0 + shift.0) as i32, (current.1 + shift.1) as i32),
        ),
        current.1 == first.1 && (current.0 > first.0 + 10 || current.0 < first.0 - 10) ==> moved_too_far(first, current),
        current.0 == first.0 && (current.1 > first.1 + 10 || current.1 < first.1 - 10) ==> moved_too_far(first, current),
        first.0 - 10 <= current.0 <= first.0 + 10 && first.1 - 10 <= current.1 <= first.1 + 10 ==> !moved_too_far(first, current),
{
}

/// Whether the mouse moved far enough from its first position to end the screensaver.
pub fn mouse_moved_too_far(first: (i32, i32), current: (i32, i32)) -> (end: bool)
    requires
        i16::MIN <= first.0 <= i16::MAX,
        i16::MIN <= first.1 <= i16::MAX,
        i16::MIN <= current.0 <= i16::MAX,
        i16::MIN <= current.1 <= i16::MAX,
    ensures
        end == moved_too_far(first, current),
{
    let dx = current.0 - first.0;
    let dy = current.1 - first.1;
    let dx = if dx < 0 { -dx } else { dx };
    let dy = if dy < 0 { -dy } else { dy };
    dx > 10 || dy > 10
}

} // verus!
