//! Character-level text helpers shared by key parsing and report rendering.

use vstd::prelude::*;
use vstd::string::*;

verus! {

/// `String::push` appends one character at the end of the text.
pub assume_specification[ String::push ](s: &mut String, ch: char)
    ensures
        final(s)@ == old(s)@.push(ch),
;

/// Whether two texts hold the same characters.
pub fn same_text(left: &str, right: &str) -> (same: bool)
    ensures
        same == (left@ == right@),
{
    left.to_owned() == right.to_owned()
}

/// ASCII lower case of one character; every other character is itself.
pub open spec fn lower_char(c: char) -> char {
    if 'A' <= c && c <= 'Z' {
        (c as u8 + 32) as char
    } else {
        c
    }
}

/// ASCII lower case of a text, character by character.
pub open spec fn lower_text(s: Seq<char>) -> Seq<char> {
    s.map_values(|c: char| lower_char(c))
}

fn lowered_char(c: char) -> (lowered: char)
    ensures
        lowered == lower_char(c),
{
    if 'A' <= c && c <= 'Z' {
        let code: u8 = c as u8;
        (code + 32) as char
    } else {
        c
    }
}

/// The text with its ASCII capitals lowered.
pub fn to_lower_text(s: &str) -> (lowered: String)
    ensures
        lowered@ == lower_text(s@),
{
    let mut lowered = String::new();
    let count: usize = s.unicode_len();
    let mut i: usize = 0;
    while i < count
        invariant
            i <= count,
            count == s@.len(),
            lowered@ == lower_text(s@.take(i as int)),
        decreases count - i,
    {
        let c = s.get_char(i);
        lowered.push(lowered_char(c));
        assert(s@.take(i + 1) =~= s@.take(i as int).push(c));
        i += 1;
    }
    assert(s@.take(count as int) =~= s@);
    lowered
}

/// The decimal digit of a number below ten.
pub open spec fn digit(n: nat) -> char {
    ('0' as nat + n) as char
}

/// The decimal notation of a number, without leading zeros.
pub open spec fn decimal(n: nat) -> Seq<char>
    decreases n,
{
    if n < 10 {
        seq![digit(n)]
    } else {
        decimal(n / 10).push(digit(n % 10))
    }
}

fn digit_char(n: u8) -> (c: char)
    requires
        n < 10,
    ensures
        c == digit(n as nat),
{
    (48 + n) as char
}

/// Appends the decimal notation of `n`.
pub fn push_decimal(text: &mut String, n: u64)
    ensures
        final(text)@ == old(text)@ + decimal(n as nat),
    decreases n,
{
    if n >= 10 {
        push_decimal(text, n / 10);
    }
    let last: u8 = (n % 10) as u8;
    text.push(digit_char(last));
    assert(text@ =~= old(text)@ + decimal(n as nat));
}

/// The lower-case hexadecimal digit of a number below sixteen.
pub open spec fn hex_digit(n: nat) -> char {
    if n < 10 {
        ('0' as nat + n) as char
    } else {
        ('a' as nat + (n - 10)) as char
    }
}

/// The four-digit hexadecimal notation of a 16-bit number.
pub open spec fn hex4(n: nat) -> Seq<char> {
    seq![
        hex_digit(n / 4096),
        hex_digit(n / 256 % 16),
        hex_digit(n / 16 % 16),
        hex_digit(n % 16),
    ]
}

fn hex_char(n: u8) -> (c: char)
    requires
        n < 16,
    ensures
        c == hex_digit(n as nat),
{
    if n < 10 {
        (48 + n) as char
    } else {
        (97 + (n - 10)) as char
    }
}

/// Appends the four-digit hexadecimal notation of `n`.
pub fn push_hex4(text: &mut String, n: u16)
    ensures
        final(text)@ == old(text)@ + hex4(n as nat),
{
    text.push(hex_char((n / 4096) as u8));
    text.push(hex_char((n / 256 % 16) as u8));
    text.push(hex_char((n / 16 % 16) as u8));
    text.push(hex_char((n % 16) as u8));
    assert(text@ =~= old(text)@ + hex4(n as nat));
}

/// The value of a hexadecimal digit of either case.
pub open spec fn hex_value(c: char) -> Option<nat> {
    if '0' <= c && c <= '9' {
        Some((c as nat - '0' as nat) as nat)
    } else if 'a' <= c && c <= 'f' {
        Some((c as nat - 'a' as nat + 10) as nat)
    } else if 'A' <= c && c <= 'F' {
        Some((c as nat - 'A' as nat + 10) as nat)
    } else {
        None
    }
}

/// Whether a text consists of hexadecimal digits.
pub open spec fn all_hex(s: Seq<char>) -> bool {
    forall|i: int| 0 <= i < s.len() ==> hex_value(#[trigger] s[i]) is Some
}

/// The number that a text of hexadecimal digits stands for.
pub open spec fn hex_number(s: Seq<char>) -> nat
    decreases s.len(),
{
    if s.len() == 0 {
        0
    } else {
        16 * hex_number(s.drop_last()) + hex_value(s.last())->Some_0
    }
}

fn hex_char_value(c: char) -> (value: Option<u8>)
    ensures
        match (value, hex_value(c)) {
            (Some(value), Some(expected)) => value == expected && value < 16,
            (None, None) => true,
            _ => false,
        },
{
    if '0' <= c && c <= '9' {
        Some(c as u8 - 48)
    } else if 'a' <= c && c <= 'f' {
        Some(c as u8 - 97 + 10)
    } else if 'A' <= c && c <= 'F' {
        Some(c as u8 - 65 + 10)
    } else {
        None
    }
}

/// Whether a text consists of hexadecimal digits.
pub fn is_all_hex(s: &str) -> (all: bool)
    ensures
        all == all_hex(s@),
{
    let count: usize = s.unicode_len();
    let mut i: usize = 0;
    while i < count
        invariant
            i <= count,
            count == s@.len(),
            forall|k: int| 0 <= k < i ==> hex_value(#[trigger] s@[k]) is Some,
        decreases count - i,
    {
        if hex_char_value(s.get_char(i)).is_none() {
            return false;
        }
        i += 1;
    }
    true
}

proof fn more_digits_are_no_less(s: Seq<char>, n: int)
    requires
        0 <= n <= s.len(),
    ensures
        hex_number(s.take(n)) <= hex_number(s),
    decreases s.len() - n,
{
    if n < s.len() {
        assert(s.take(n + 1).drop_last() =~= s.take(n));
        more_digits_are_no_less(s, n + 1);
    } else {
        assert(s.take(n) =~= s);
    }
}

/// The number that hexadecimal digits stand for, where it is at most `limit`.
pub fn parse_hex(s: &str, limit: u16) -> (number: Option<u16>)
    requires
        all_hex(s@),
    ensures
        match number {
            Some(number) => number == hex_number(s@) && number <= limit,
            None => hex_number(s@) > limit,
        },
{
    let count: usize = s.unicode_len();
    let mut number: u16 = 0;
    let mut i: usize = 0;
    assert(s@.take(0) =~= Seq::<char>::empty());
    while i < count
        invariant
            i <= count,
            count == s@.len(),
            all_hex(s@),
            number == hex_number(s@.take(i as int)),
            number <= limit,
        decreases count - i,
    {
        let c = s.get_char(i);
        assert(s@.take(i + 1).drop_last() =~= s@.take(i as int));
        assert(hex_value(s@[i as int]) is Some);
        let value: u8 = match hex_char_value(c) {
            Some(value) => value,
            None => 0,
        };
        let next: u32 = number as u32 * 16 + value as u32;
        if next > limit as u32 {
            proof {
                more_digits_are_no_less(s@, i + 1);
            }
            return None;
        }
        number = next as u16;
        i += 1;
    }
    assert(s@.take(i as int) =~= s@);
    Some(number)
}

/// What follows a prefix in a text that starts with it.
pub open spec fn after_prefix(s: Seq<char>, prefix: Seq<char>) -> Option<Seq<char>> {
    if prefix.is_prefix_of(s) {
        Some(s.skip(prefix.len() as int))
    } else {
        None
    }
}

/// Takes a prefix off a text that starts with it.
pub fn strip_prefix<'a>(s: &'a str, prefix: &str) -> (rest: Option<&'a str>)
    ensures
        match rest {
            Some(rest) => after_prefix(s@, prefix@) == Some(rest@),
            None => after_prefix(s@, prefix@) is None,
        },
{
    let count: usize = s.unicode_len();
    let length: usize = prefix.unicode_len();
    if count < length {
        return None;
    }
    let mut i: usize = 0;
    while i < length
        invariant
            i <= length <= count,
            count == s@.len(),
            length == prefix@.len(),
            forall|k: int| 0 <= k < i ==> s@[k] == prefix@[k],
        decreases length - i,
    {
        if s.get_char(i) != prefix.get_char(i) {
            return None;
        }
        i += 1;
    }
    let rest = s.substring_char(length, count);
    assert(s@.subrange(0, length as int) =~= prefix@);
    assert(rest@ =~= s@.skip(length as int));
    Some(rest)
}

/// Position of the first colon in a text, or its length.
pub open spec fn colon_at(s: Seq<char>) -> int
    decreases s.len(),
{
    if s.len() == 0 || s[0] == ':' {
        0
    } else {
        1 + colon_at(s.skip(1))
    }
}

/// The first colon of a text is in it, and no other stands before it.
pub proof fn colon_is_the_first(s: Seq<char>)
    ensures
        0 <= colon_at(s) <= s.len(),
        colon_at(s) < s.len() ==> s[colon_at(s)] == ':',
        forall|i: int| 0 <= i < colon_at(s) ==> s[i] != ':',
    decreases s.len(),
{
    if s.len() > 0 && s[0] != ':' {
        colon_is_the_first(s.skip(1));
        assert forall|i: int| 0 <= i < colon_at(s) implies s[i] != ':' by {
            if i > 0 {
                assert(s[i] == s.skip(1)[i - 1]);
            }
        }
    }
}

/// Finds the first colon of a text.
pub fn find_colon(s: &str) -> (position: usize)
    ensures
        position == colon_at(s@),
        position <= s@.len(),
{
    let count: usize = s.unicode_len();
    let mut i: usize = 0;
    assert(s@.skip(0) =~= s@);
    while i < count
        invariant
            i <= count,
            count == s@.len(),
            colon_at(s@) == i + colon_at(s@.skip(i as int)),
        decreases count - i,
    {
        if s.get_char(i) == ':' {
            return i;
        }
        assert(s@.skip(i as int).skip(1) =~= s@.skip(i + 1));
        i += 1;
    }
    i
}

/// Whether one text sorts before another: by the first character in which they
/// differ, and a text before every longer one that it begins.
pub open spec fn text_before(left: Seq<char>, right: Seq<char>) -> bool
    decreases left.len(),
{
    if right.len() == 0 {
        false
    } else if left.len() == 0 {
        true
    } else if left[0] != right[0] {
        left[0] < right[0]
    } else {
        text_before(left.skip(1), right.skip(1))
    }
}

/// Tells whether one text sorts before another.
pub fn sorts_before(left: &str, right: &str) -> (before: bool)
    ensures
        before == text_before(left@, right@),
{
    let m: usize = left.unicode_len();
    let n: usize = right.unicode_len();
    let mut i: usize = 0;
    assert(left@.skip(0) =~= left@);
    assert(right@.skip(0) =~= right@);
    while i < m && i < n
        invariant
            i <= m,
            i <= n,
            m == left@.len(),
            n == right@.len(),
            text_before(left@, right@) == text_before(
                left@.skip(i as int),
                right@.skip(i as int),
            ),
        decreases m - i,
    {
        let a = left.get_char(i);
        let b = right.get_char(i);
        if a != b {
            return a < b;
        }
        assert(left@.skip(i as int).skip(1) =~= left@.skip(i + 1));
        assert(right@.skip(i as int).skip(1) =~= right@.skip(i + 1));
        i += 1;
    }
    i < n
}

/// No text sorts before itself, and of two different texts one sorts before the
/// other.
pub proof fn texts_are_ordered(left: Seq<char>, right: Seq<char>)
    ensures
        !(text_before(left, right) && text_before(right, left)),
        left == right <==> !text_before(left, right) && !text_before(right, left),
    decreases left.len(),
{
    if left.len() == 0 || right.len() == 0 {
        if left.len() == 0 && right.len() == 0 {
            assert(left =~= right);
        }
    } else if left[0] == right[0] {
        texts_are_ordered(left.skip(1), right.skip(1));
        if left.skip(1) == right.skip(1) {
            assert(left =~= seq![left[0]] + left.skip(1));
            assert(right =~= seq![right[0]] + right.skip(1));
        }
    }
}

/// What sorts before a text sorts before everything behind that text.
pub proof fn text_order_carries_on(a: Seq<char>, b: Seq<char>, c: Seq<char>)
    requires
        text_before(a, b),
        text_before(b, c),
    ensures
        text_before(a, c),
    decreases a.len(),
{
    if a.len() > 0 && a[0] == b[0] && b[0] == c[0] {
        text_order_carries_on(a.skip(1), b.skip(1), c.skip(1));
    }
}

} // verus!
