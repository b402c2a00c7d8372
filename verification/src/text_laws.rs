//! What numbers and names look like as text, and how texts sort.

use vstd::prelude::*;

use crate::text::{
    after_prefix, decimal, hex4, hex_digit, hex_number, hex_value, lower_char, lower_text,
    text_before,
};

verus! {

/// The number that decimal digits stand for.
pub open spec fn decimal_value(text: Seq<char>) -> int
    decreases text.len(),
{
    if text.len() == 0 {
        0
    } else {
        10 * decimal_value(text.drop_last()) + (text.last() as int - 48)
    }
}

/// The decimal notation of a number consists of digits, starts with no zero unless
/// the number is zero, and reads back as the number.
pub proof fn a_decimal_reads_back(n: nat)
    ensures
        decimal(n).len() > 0,
        forall|i: int| 0 <= i < decimal(n).len() ==> '0' <= #[trigger] decimal(n)[i] <= '9',
        decimal(n)[0] == '0' ==> n == 0,
        decimal_value(decimal(n)) == n,
    decreases n,
{
    let text = decimal(n);
    if n < 10 {
        assert(text.drop_last() =~= Seq::<char>::empty());
        assert(decimal_value(text.drop_last()) == 0);
        assert(text.last() as int == 48 + n);
    } else {
        a_decimal_reads_back(n / 10);
        let front = decimal(n / 10);
        assert(text.drop_last() =~= front);
        assert(text.last() as int == 48 + n % 10);
        assert(text[0] == front[0]);
        assert forall|i: int| 0 <= i < text.len() implies '0' <= #[trigger] text[i] <= '9' by {
            if i < front.len() {
                assert(text[i] == front[i]);
            }
        }
    }
}

/// Two numbers with one decimal notation are one number.
pub proof fn decimals_tell_numbers_apart(left: nat, right: nat)
    requires
        decimal(left) == decimal(right),
    ensures
        left == right,
{
    a_decimal_reads_back(left);
    a_decimal_reads_back(right);
}

/// Hexadecimal digits are written in lower case and read in either case.
pub proof fn a_hexadecimal_digit_reads_back(n: nat)
    requires
        n < 16,
    ensures
        hex_value(hex_digit(n)) == Some(n),
        '0' <= hex_digit(n) <= '9' || 'a' <= hex_digit(n) <= 'f',
        n >= 10 ==> hex_value((hex_digit(n) as u8 - 32) as char) == Some(n),
{
}

/// Nothing but a hexadecimal digit has a value.
pub proof fn other_characters_are_no_digits(c: char)
    ensures
        hex_value(c) is Some <==> '0' <= c <= '9' || 'a' <= c <= 'f' || 'A' <= c <= 'F',
        hex_value(c) matches Some(value) ==> value < 16,
        '0' <= c <= '9' ==> hex_value(c) == Some((c as int - 48) as nat),
        'a' <= c <= 'f' ==> hex_value(c) == Some((c as int - 87) as nat),
        'A' <= c <= 'F' ==> hex_value(c) == Some((c as int - 55) as nat),
{
}

/// Each further digit is worth a sixteenth of the one before it.
pub proof fn digits_count_by_their_place(digits: Seq<char>, digit: char)
    ensures
        hex_number(Seq::empty()) == 0,
        hex_value(digit) matches Some(value) ==> hex_number(digits.push(digit)) == 16 * hex_number(
            digits,
        ) + value,
{
    assert(digits.push(digit).drop_last() =~= digits);
}

/// A 16-bit number is written in four digits, which read back as the number.
pub proof fn four_digits_read_back(n: u16)
    ensures
        hex4(n as nat).len() == 4,
        hex_number(hex4(n as nat)) == n,
{
    crate::devices::key_laws::four_digits_have_their_value(n);
}

/// Lowering a character changes the capital ASCII letters, each to its small
/// letter, and no other.
pub proof fn only_capitals_are_lowered(c: char)
    ensures
        'A' <= c <= 'Z' ==> lower_char(c) as int == c as int + 32,
        !('A' <= c <= 'Z') ==> lower_char(c) == c,
        lower_char(lower_char(c)) == lower_char(c),
{
}

/// A text is lowered character by character, and a lowered one stays as it is.
pub proof fn a_text_is_lowered_character_by_character(text: Seq<char>, i: int)
    requires
        0 <= i < text.len(),
    ensures
        lower_text(text).len() == text.len(),
        lower_text(text)[i] == lower_char(text[i]),
        lower_text(lower_text(text)) == lower_text(text),
{
    let once = lower_text(text);
    assert forall|k: int| 0 <= k < text.len() implies lower_text(once)[k] == once[k] by {
        only_capitals_are_lowered(text[k]);
    }
    assert(lower_text(once) =~= once);
}

/// What follows a prefix is found exactly where the text starts with it.
pub proof fn a_prefix_comes_off(prefix: Seq<char>, rest: Seq<char>, other: Seq<char>)
    ensures
        after_prefix(prefix + rest, prefix) == Some(rest),
        after_prefix(other, prefix) is Some <==> prefix.is_prefix_of(other),
{
    assert((prefix + rest).subrange(0, prefix.len() as int) =~= prefix);
    assert((prefix + rest).skip(prefix.len() as int) =~= rest);
}

/// Two texts agree in their first `n` characters.
pub open spec fn agree_for(left: Seq<char>, right: Seq<char>, n: int) -> bool {
    &&& 0 <= n <= left.len()
    &&& n <= right.len()
    &&& forall|k: int| 0 <= k < n ==> left[k] == right[k]
}

/// One text sorts before another where, behind a common beginning, it ends while
/// the other goes on, or goes on with the lesser character.
pub proof fn texts_sort_by_their_first_difference(left: Seq<char>, right: Seq<char>, n: int)
    requires
        agree_for(left, right, n),
        n < right.len(),
        n == left.len() || left[n] < right[n],
    ensures
        text_before(left, right),
        !text_before(right, left),
    decreases n,
{
    if n > 0 {
        let a = left.skip(1);
        let b = right.skip(1);
        assert(left[0] == right[0]);
        assert forall|k: int| 0 <= k < n - 1 implies a[k] == b[k] by {
            assert(a[k] == left[k + 1] && b[k] == right[k + 1]);
        }
        texts_sort_by_their_first_difference(a, b, n - 1);
    }
}

} // verus!
