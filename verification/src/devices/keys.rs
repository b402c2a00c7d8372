//! What configuration keys say about a device.

use vstd::prelude::*;
use vstd::string::*;

use crate::text::{
    after_prefix, colon_at, colon_is_the_first, find_colon, lower_text, strip_prefix,
    to_lower_text,
};

verus! {

/// The receiver that a key names, in lower case: what stands between
/// `receiver:` and the next colon or the end.
pub open spec fn receiver_uid(key: Seq<char>) -> Option<Seq<char>> {
    match after_prefix(key, "receiver:"@) {
        Some(rest) => Some(lower_text(rest.take(colon_at(rest)))),
        None => None,
    }
}

/// The receiver UID embedded in a `receiver:<uid>:slot:<n>` config key.
pub fn receiver_uid_of(key: &str) -> (uid: Option<String>)
    ensures
        match (uid, receiver_uid(key@)) {
            (Some(uid), Some(expected)) => uid@ == expected,
            (None, None) => true,
            _ => false,
        },
{
    match strip_prefix(key, "receiver:") {
        Some(rest) => {
            let end = find_colon(rest);
            let name = rest.substring_char(0, end);
            assert(name@ =~= rest@.take(end as int));
            Some(to_lower_text(name))
        },
        None => None,
    }
}

/// The part before the third colon of a `direct:<vid>:<pid>:<identity>` key
/// whose three fields are all there.
pub open spec fn direct_prefix(key: Seq<char>) -> Option<Seq<char>> {
    match after_prefix(key, "direct:"@) {
        Some(rest) => {
            let first = colon_at(rest);
            let tail = rest.skip(first + 1);
            let second = colon_at(tail);
            if 0 < first < rest.len() && 0 < second < tail.len() && second + 1 < tail.len() {
                Some("direct:"@ + rest.take(first + 1 + second))
            } else {
                None
            }
        },
        None => None,
    }
}

/// The `direct:<vid>:<pid>` prefix of a direct config key, or `None` for any
/// other key shape. Two keys sharing a prefix name the same wire product.
pub fn direct_key_prefix(key: &str) -> (prefix: Option<&str>)
    ensures
        match prefix {
            Some(prefix) => direct_prefix(key@) == Some(prefix@),
            None => direct_prefix(key@) is None,
        },
{
    let rest = match strip_prefix(key, "direct:") {
        Some(rest) => rest,
        None => return None,
    };
    let count: usize = rest.unicode_len();
    let first = find_colon(rest);
    proof {
        colon_is_the_first(rest@);
    }
    if first == 0 || first >= count {
        return None;
    }
    let tail = rest.substring_char(first + 1, count);
    assert(tail@ =~= rest@.skip(first + 1));
    let second = find_colon(tail);
    proof {
        colon_is_the_first(tail@);
    }
    let length: usize = tail.unicode_len();
    if second == 0 || second >= length || second + 1 >= length {
        return None;
    }
    let whole: usize = key.unicode_len();
    let kept: usize = whole - (length - second);
    let prefix = key.substring_char(0, kept);
    assert(prefix@ =~= "direct:"@ + rest@.take(first + 1 + second)) by {
        let head = "direct:"@;
        assert(rest@ =~= key@.skip(head.len() as int));
        assert(key@ =~= head + rest@);
    }
    Some(prefix)
}

} // verus!
