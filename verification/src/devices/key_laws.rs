//! What keys that are composed as they should be are read as.

use vstd::prelude::*;

use crate::devices::keys::{direct_prefix, receiver_uid};
use crate::devices::model::{bare_model, legacy_model};
use crate::text::{all_hex, colon_at, hex4, hex_digit, hex_number, hex_value, lower_text};

verus! {

/// A text without a colon.
pub open spec fn colon_free(text: Seq<char>) -> bool {
    forall|i: int| 0 <= i < text.len() ==> text[i] != ':'
}

proof fn the_colon_ends_a_field(field: Seq<char>, rest: Seq<char>)
    requires
        colon_free(field),
        rest.len() == 0 || rest[0] == ':',
    ensures
        colon_at(field + rest) == field.len(),
    decreases field.len(),
{
    let text = field + rest;
    if field.len() > 0 {
        let tail = field.skip(1);
        assert(text[0] == field[0]);
        assert(text.skip(1) =~= tail + rest);
        assert forall|i: int| 0 <= i < tail.len() implies tail[i] != ':' by {
            assert(tail[i] == field[i + 1]);
        }
        the_colon_ends_a_field(tail, rest);
    } else {
        assert(text =~= rest);
    }
}

/// A receiver key names its receiver, whatever slot it is about and however the
/// receiver is written.
pub proof fn a_receiver_key_names_its_receiver(uid: Seq<char>, slot: Seq<char>)
    requires
        colon_free(uid),
        slot.len() == 0 || slot[0] == ':',
    ensures
        receiver_uid("receiver:"@ + uid + slot) == Some(lower_text(uid)),
{
    let head = "receiver:"@;
    let key = head + uid + slot;
    assert(key.subrange(0, head.len() as int) =~= head);
    assert(head.is_prefix_of(key));
    assert(key.skip(head.len() as int) =~= uid + slot);
    the_colon_ends_a_field(uid, slot);
    assert((uid + slot).take(uid.len() as int) =~= uid);
}

/// Direct keys of one product share a prefix, whatever identity follows.
pub proof fn direct_keys_of_one_product_share_a_prefix(
    vid: Seq<char>,
    pid: Seq<char>,
    identity: Seq<char>,
)
    requires
        colon_free(vid),
        colon_free(pid),
        vid.len() > 0,
        pid.len() > 0,
        identity.len() > 0,
    ensures
        direct_prefix("direct:"@ + vid + seq![':'] + pid + seq![':'] + identity) == Some(
            "direct:"@ + vid + seq![':'] + pid,
        ),
{
    let head = "direct:"@;
    let key = head + vid + seq![':'] + pid + seq![':'] + identity;
    let last = seq![':'] + identity;
    let tail = pid + last;
    let middle = seq![':'] + tail;
    let rest = vid + middle;
    assert(key.subrange(0, head.len() as int) =~= head);
    assert(head.is_prefix_of(key));
    assert(key.skip(head.len() as int) =~= rest);
    the_colon_ends_a_field(vid, middle);
    assert(rest.skip(vid.len() as int + 1) =~= tail);
    the_colon_ends_a_field(pid, last);
    assert(head + rest.take(vid.len() as int + 1 + pid.len()) =~= head + vid + seq![':'] + pid);
}

proof fn a_hex_digit_has_its_value(n: nat)
    requires
        n < 16,
    ensures
        hex_value(hex_digit(n)) == Some(n),
{
}

/// The four digits of a number stand for it.
pub proof fn four_digits_have_their_value(n: u16)
    ensures
        all_hex(hex4(n as nat)),
        hex_number(hex4(n as nat)) == n,
{
    let value = n as nat;
    let text = hex4(value);
    a_hex_digit_has_its_value(value / 4096);
    a_hex_digit_has_its_value(value / 256 % 16);
    a_hex_digit_has_its_value(value / 16 % 16);
    a_hex_digit_has_its_value(value % 16);
    let three = text.drop_last();
    let two = three.drop_last();
    let one = two.drop_last();
    let none = one.drop_last();
    assert(hex_number(none) == 0);
    assert(hex_number(one) == value / 4096);
    assert(hex_number(two) == 16 * (value / 4096) + value / 256 % 16);
    assert(hex_number(three) == 16 * hex_number(two) + value / 16 % 16);
    assert(hex_number(text) == 16 * hex_number(three) + value % 16);
}

/// A legacy key that is the variant's digits followed by the four of the product
/// id spells out just that model.
pub proof fn a_legacy_key_spells_out_its_model(variant: Seq<char>, product_id: u16)
    requires
        variant.len() > 0,
        all_hex(variant),
        hex_number(variant) <= 255,
    ensures
        legacy_model(variant + hex4(product_id as nat)) == Some(
            bare_model(product_id, hex_number(variant) as u8),
        ),
{
    let digits = hex4(product_id as nat);
    let key = variant + digits;
    four_digits_have_their_value(product_id);
    let split = key.len() - 4;
    assert(key.take(split) =~= variant);
    assert(key.skip(split) =~= digits);
    assert forall|i: int| 0 <= i < key.len() implies hex_value(#[trigger] key[i]) is Some by {
        if i < variant.len() {
            assert(key[i] == variant[i]);
        } else {
            assert(key[i] == digits[i - variant.len()]);
        }
    }
}

} // verus!
