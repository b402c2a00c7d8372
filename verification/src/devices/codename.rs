//! Tidying of raw codenames for display.

use vstd::prelude::*;
use vstd::string::*;

use crate::seqs::views;
use crate::text::{lower_char, lower_text};

verus! {

/// The characters with the Unicode property `White_Space`.
pub open spec fn white_space(c: char) -> bool {
    ||| '\u{9}' <= c <= '\u{d}'
    ||| c == '\u{20}'
    ||| c == '\u{85}'
    ||| c == '\u{a0}'
    ||| c == '\u{1680}'
    ||| '\u{2000}' <= c <= '\u{200a}'
    ||| c == '\u{2028}'
    ||| c == '\u{2029}'
    ||| c == '\u{202f}'
    ||| c == '\u{205f}'
    ||| c == '\u{3000}'
}

/// `char::is_whitespace` tells whether a character has the Unicode property
/// `White_Space`.
pub assume_specification[ char::is_whitespace ](c: char) -> (white: bool)
    ensures
        white == white_space(c),
;

/// Whether `char::is_lowercase` holds of a character: the Unicode property
/// `Lowercase`.
pub uninterp spec fn lowercase_letter(c: char) -> bool;

/// `char::is_lowercase` depends on nothing but the character. Among the ASCII
/// characters the property holds of the letters from `a` to `z`.
pub assume_specification[ char::is_lowercase ](c: char) -> (lower: bool)
    ensures
        lower == lowercase_letter(c),
        c <= '\u{7f}' ==> lower == ('a' <= c <= 'z'),
;

/// ASCII upper case of one character; every other character is itself.
pub open spec fn upper_char(c: char) -> char {
    if 'a' <= c && c <= 'z' {
        (c as u8 - 32) as char
    } else {
        c
    }
}

/// What `char::to_uppercase` turns a character into, which can be several.
pub uninterp spec fn upper_case(c: char) -> Seq<char>;

/// `char::to_uppercase` depends on nothing but the character. An ASCII character
/// becomes its ASCII upper case.
#[verifier::external_body]
fn uppercased(c: char) -> (upper: String)
    ensures
        upper@ == upper_case(c),
        c <= '\u{7f}' ==> upper@ == seq![upper_char(c)],
{
    c.to_uppercase().to_string()
}

/// Whether a text is ASCII throughout.
pub open spec fn all_ascii(text: Seq<char>) -> bool {
    forall|i: int| 0 <= i < text.len() ==> #[trigger] text[i] <= '\u{7f}'
}

/// What `str::to_lowercase` turns a text into.
pub uninterp spec fn lower_case(text: Seq<char>) -> Seq<char>;

/// `str::to_lowercase` depends on nothing but the text. An ASCII text becomes its
/// ASCII lower case, character by character.
pub assume_specification[ str::to_lowercase ](text: &str) -> (lower: String)
    ensures
        lower@ == lower_case(text@),
        all_ascii(text@) ==> lower@ == lower_text(text@),
;

/// Whether a text is empty once surrounding white space is taken off.
pub open spec fn is_blank(text: Seq<char>) -> bool {
    forall|i: int| 0 <= i < text.len() ==> white_space(#[trigger] text[i])
}

/// Tells whether a text holds nothing but white space.
pub fn blank(text: &str) -> (nothing: bool)
    ensures
        nothing == is_blank(text@),
{
    let count: usize = text.unicode_len();
    let mut i: usize = 0;
    while i < count
        invariant
            i <= count,
            count == text@.len(),
            forall|k: int| 0 <= k < i ==> white_space(#[trigger] text@[k]),
        decreases count - i,
    {
        if !text.get_char(i).is_whitespace() {
            return false;
        }
        i += 1;
    }
    true
}

/// Whether a text has a lower-case letter.
pub open spec fn has_lowercase(text: Seq<char>) -> bool {
    exists|i: int| 0 <= i < text.len() && lowercase_letter(#[trigger] text[i])
}

/// Whether a text has a decimal digit.
pub open spec fn has_digit(text: Seq<char>) -> bool {
    exists|i: int| 0 <= i < text.len() && '0' <= #[trigger] text[i] && text[i] <= '9'
}

/// The words of a text: its longest runs without white space, in order.
pub open spec fn words(text: Seq<char>) -> Seq<Seq<char>>
    decreases text.len(),
{
    if text.len() == 0 {
        Seq::empty()
    } else {
        let before = words(text.drop_last());
        if white_space(text.last()) {
            before
        } else if text.len() == 1 || white_space(text[text.len() - 2]) {
            before.push(seq![text.last()])
        } else {
            before.drop_last().push(before.last().push(text.last()))
        }
    }
}

/// Words with single spaces between them.
pub open spec fn joined(words: Seq<Seq<char>>) -> Seq<char>
    decreases words.len(),
{
    if words.len() == 0 {
        Seq::empty()
    } else if words.len() == 1 {
        words[0]
    } else {
        joined(words.drop_last()) + " "@ + words.last()
    }
}

/// Whether a word is a short acronym, at most three bytes long, or a model
/// number, which has a digit.
pub open spec fn keeps_its_case(word: Seq<char>) -> bool {
    vstd::utf8::encode_utf8(word).len() <= 3 || has_digit(word)
}

/// A word with only its first letter capital, unless it keeps its case.
pub open spec fn pretty_word(word: Seq<char>) -> Seq<char> {
    if keeps_its_case(word) {
        word
    } else {
        upper_case(word[0]) + lower_case(word.skip(1))
    }
}

/// The words of a text, each tidied.
pub open spec fn pretty_words(text: Seq<char>) -> Seq<Seq<char>> {
    words(text).map_values(|word: Seq<char>| pretty_word(word))
}

/// A codename as it is displayed.
pub open spec fn pretty(raw: Seq<char>) -> Seq<char> {
    if has_lowercase(raw) {
        raw
    } else {
        joined(pretty_words(raw))
    }
}

/// Whether a text has an ASCII lower-case letter.
pub open spec fn has_ascii_lowercase(text: Seq<char>) -> bool {
    exists|i: int| 0 <= i < text.len() && 'a' <= #[trigger] text[i] && text[i] <= 'z'
}

/// An ASCII word with only its first letter capital, unless it keeps its case.
pub open spec fn pretty_ascii_word(word: Seq<char>) -> Seq<char> {
    if keeps_its_case(word) {
        word
    } else {
        seq![upper_char(word[0])] + lower_text(word.skip(1))
    }
}

/// An ASCII codename as it is displayed.
pub open spec fn pretty_ascii(raw: Seq<char>) -> Seq<char> {
    if has_ascii_lowercase(raw) {
        raw
    } else {
        joined(words(raw).map_values(|word: Seq<char>| pretty_ascii_word(word)))
    }
}

proof fn words_of_ascii_are_ascii(text: Seq<char>)
    requires
        all_ascii(text),
    ensures
        forall|k: int| 0 <= k < words(text).len() ==> all_ascii(#[trigger] words(text)[k]),
    decreases text.len(),
{
    if text.len() > 0 {
        let start = text.drop_last();
        assert(all_ascii(start)) by {
            assert forall|i: int| 0 <= i < start.len() implies #[trigger] start[i]
                <= '\u{7f}' by {
                assert(start[i] == text[i]);
            }
        }
        words_of_ascii_are_ascii(start);
        no_word_is_empty(start);
        if text.len() > 1 {
            assert(start.last() == text[text.len() - 2]);
        }
        let before = words(start);
        assert forall|k: int| 0 <= k < words(text).len() implies all_ascii(
            #[trigger] words(text)[k],
        ) by {
            let word = words(text)[k];
            assert forall|i: int| 0 <= i < word.len() implies #[trigger] word[i] <= '\u{7f}' by {
                if k < before.len() && i < before[k].len() {
                    assert(all_ascii(before[k]));
                    assert(before[k][i] <= '\u{7f}');
                } else {
                    assert(word[i] == text[text.len() - 1]);
                }
            }
        }
    }
}

fn any_lowercase(text: &str) -> (found: bool)
    ensures
        found == has_lowercase(text@),
        all_ascii(text@) ==> found == has_ascii_lowercase(text@),
{
    let count: usize = text.unicode_len();
    let mut i: usize = 0;
    while i < count
        invariant
            i <= count,
            count == text@.len(),
            forall|k: int| 0 <= k < i ==> !lowercase_letter(#[trigger] text@[k]),
            all_ascii(text@) ==> forall|k: int|
                0 <= k < i ==> !('a' <= #[trigger] text@[k] && text@[k] <= 'z'),
        decreases count - i,
    {
        let c = text.get_char(i);
        assert(c == text@[i as int]);
        if c.is_lowercase() {
            assert(lowercase_letter(text@[i as int]));
            return true;
        }
        i += 1;
    }
    false
}

fn any_digit(text: &str) -> (found: bool)
    ensures
        found == has_digit(text@),
{
    let count: usize = text.unicode_len();
    let mut i: usize = 0;
    while i < count
        invariant
            i <= count,
            count == text@.len(),
            forall|k: int| 0 <= k < i ==> !('0' <= #[trigger] text@[k] && text@[k] <= '9'),
        decreases count - i,
    {
        let c = text.get_char(i);
        if '0' <= c && c <= '9' {
            assert('0' <= text@[i as int] && text@[i as int] <= '9');
            return true;
        }
        i += 1;
    }
    false
}

/// Every word of a text has a letter.
pub proof fn no_word_is_empty(text: Seq<char>)
    ensures
        forall|k: int| 0 <= k < words(text).len() ==> (#[trigger] words(text)[k]).len() > 0,
        text.len() > 0 && !white_space(text.last()) ==> words(text).len() > 0,
    decreases text.len(),
{
    if text.len() > 0 {
        let start = text.drop_last();
        no_word_is_empty(start);
        let before = words(start);
        if text.len() > 1 {
            assert(start.last() == text[text.len() - 2]);
        }
        assert forall|k: int| 0 <= k < words(text).len() implies (#[trigger] words(text)[k]).len()
            > 0 by {
            if k < before.len() {
                assert(before[k].len() > 0);
            }
        }
    }
}

/// Splits a text at its white space.
pub fn split_words(text: &str) -> (found: Vec<String>)
    ensures
        views(found@) == words(text@),
{
    let count: usize = text.unicode_len();
    let mut found: Vec<String> = Vec::new();
    let mut i: usize = 0;
    let mut open = false;
    assert(views(found@) =~= Seq::<Seq<char>>::empty());
    assert(text@.take(0) =~= Seq::<char>::empty());
    while i < count
        invariant
            i <= count,
            count == text@.len(),
            views(found@) == words(text@.take(i as int)),
            open == (i > 0 && !white_space(text@[i - 1])),
        decreases count - i,
    {
        let c = text.get_char(i);
        let ghost before = found@;
        proof {
            assert(text@.take(i + 1).drop_last() =~= text@.take(i as int));
            assert(text@.take(i + 1).last() == c);
            no_word_is_empty(text@.take(i as int));
        }
        if c.is_whitespace() {
            open = false;
        } else {
            if open {
                assert(found@.len() == views(found@).len());
                match found.pop() {
                    Some(mut word) => {
                        word.push(c);
                        found.push(word);
                        assert(views(found@) =~= views(before).drop_last().push(
                            views(before).last().push(c),
                        ));
                    },
                    None => {},
                }
            } else {
                let mut word = String::new();
                word.push(c);
                assert(word@ =~= seq![c]);
                found.push(word);
                assert(views(found@) =~= views(before).push(seq![c]));
            }
            open = true;
        }
        i += 1;
    }
    assert(text@.take(i as int) =~= text@);
    found
}

/// A word as it is displayed, given its first letter in upper case and the rest
/// of it in lower case.
pub fn title_word(word: &str, head: &str, tail: &str) -> (title: String)
    ensures
        title@ == if keeps_its_case(word@) {
            word@
        } else {
            head@ + tail@
        },
{
    if word.as_bytes().len() <= 3 || any_digit(word) {
        return word.to_owned();
    }
    head.to_owned().concat(tail)
}

fn tidy_word(word: &str) -> (tidy: String)
    requires
        word@.len() > 0,
    ensures
        tidy@ == pretty_word(word@),
        all_ascii(word@) ==> tidy@ == pretty_ascii_word(word@),
{
    let count: usize = word.unicode_len();
    let rest = word.substring_char(1, count);
    proof {
        assert(rest@ =~= word@.skip(1));
        if all_ascii(word@) {
            assert forall|i: int| 0 <= i < rest@.len() implies #[trigger] rest@[i]
                <= '\u{7f}' by {
                assert(rest@[i] == word@[i + 1]);
            }
            assert(word@[0] <= '\u{7f}');
        }
    }
    let head = uppercased(word.get_char(0));
    let tail = rest.to_lowercase();
    title_word(word, head.as_str(), tail.as_str())
}

/// Joins words with single spaces.
pub fn join_words(found: &[String]) -> (text: String)
    ensures
        text@ == joined(views(found@)),
{
    let ghost all = views(found@);
    let mut text = String::new();
    let mut i: usize = 0;
    assert(all.take(0) =~= Seq::<Seq<char>>::empty());
    while i < found.len()
        invariant
            i <= found@.len(),
            all == views(found@),
            text@ == joined(all.take(i as int)),
        decreases found@.len() - i,
    {
        assert(all.take(i + 1).drop_last() =~= all.take(i as int));
        assert(all[i as int] == found@[i as int]@);
        if i > 0 {
            text.append(" ");
        }
        text.append(found[i].as_str());
        assert(i == 0 ==> text@ =~= all[0]);
        i += 1;
    }
    assert(all.take(i as int) =~= all);
    text
}

/// Tidy a raw HID++ codename for display when no curated asset name exists.
///
/// Gaming codenames come in ALL CAPS; each word is title-cased, while model
/// numbers and short acronyms stay as they are. Codenames already in mixed case
/// are returned unchanged.
pub fn prettify_codename(raw: &str) -> (shown: String)
    ensures
        shown@ == pretty(raw@),
        all_ascii(raw@) ==> shown@ == pretty_ascii(raw@),
{
    if any_lowercase(raw) {
        return raw.to_owned();
    }
    let found = split_words(raw);
    let ghost all = pretty_words(raw@);
    let ghost plain = words(raw@).map_values(|word: Seq<char>| pretty_ascii_word(word));
    let mut shown: Vec<String> = Vec::new();
    let mut i: usize = 0;
    assert(views(shown@) =~= all.take(0));
    while i < found.len()
        invariant
            i <= found@.len(),
            views(found@) == words(raw@),
            all == pretty_words(raw@),
            plain == words(raw@).map_values(|word: Seq<char>| pretty_ascii_word(word)),
            views(shown@) == all.take(i as int),
            all_ascii(raw@) ==> all.take(i as int) == plain.take(i as int),
        decreases found@.len() - i,
    {
        let ghost before = views(shown@);
        proof {
            if all_ascii(raw@) {
                words_of_ascii_are_ascii(raw@);
            }
            no_word_is_empty(raw@);
            assert(views(found@)[i as int] == found@[i as int]@);
            assert(all[i as int] == pretty_word(found@[i as int]@));
        }
        shown.push(tidy_word(found[i].as_str()));
        assert(views(shown@) =~= before.push(all[i as int]));
        assert(views(shown@) =~= all.take(i + 1));
        assert(all_ascii(raw@) ==> all.take(i + 1) =~= plain.take(i + 1)) by {
            if all_ascii(raw@) {
                assert(plain[i as int] == pretty_ascii_word(found@[i as int]@));
                assert(all.take(i + 1) =~= all.take(i as int).push(all[i as int]));
                assert(plain.take(i + 1) =~= plain.take(i as int).push(plain[i as int]));
            }
        }
        i += 1;
    }
    assert(all.take(i as int) =~= all);
    assert(plain.take(i as int) =~= plain);
    join_words(shown.as_slice())
}

/// A word: some text, none of it white space.
pub open spec fn is_word(word: Seq<char>) -> bool {
    &&& word.len() > 0
    &&& forall|i: int| 0 <= i < word.len() ==> !white_space(#[trigger] word[i])
}

/// Words in lower case.
pub open spec fn lower_words(words: Seq<Seq<char>>) -> Seq<Seq<char>> {
    words.map_values(|word: Seq<char>| lower_text(word))
}

/// Every word of a text is one: it is not empty, and has no white space.
pub proof fn words_are_words(text: Seq<char>)
    ensures
        forall|k: int| 0 <= k < words(text).len() ==> is_word(#[trigger] words(text)[k]),
    decreases text.len(),
{
    if text.len() > 0 {
        let start = text.drop_last();
        words_are_words(start);
        no_word_is_empty(start);
        if text.len() > 1 {
            assert(start.last() == text[text.len() - 2]);
        }
        let before = words(start);
        assert forall|k: int| 0 <= k < words(text).len() implies is_word(
            #[trigger] words(text)[k],
        ) by {
            let word = words(text)[k];
            if k < before.len() {
                assert(is_word(before[k]));
            }
            assert forall|i: int| 0 <= i < word.len() implies !white_space(#[trigger] word[i]) by {
                if k < before.len() && i < before[k].len() {
                    assert(word[i] == before[k][i]);
                }
            }
        }
    }
}

proof fn a_word_after_a_gap_is_one_more(text: Seq<char>, word: Seq<char>)
    requires
        is_word(word),
        text.len() == 0 || white_space(text.last()),
    ensures
        words(text + word) == words(text).push(word),
    decreases word.len(),
{
    let all = text + word;
    let start = word.drop_last();
    assert(all.drop_last() =~= text + start);
    assert(all.last() == word.last());
    if start.len() == 0 {
        assert(all.drop_last() =~= text);
        if all.len() > 1 {
            assert(all[all.len() - 2] == text.last());
        }
        assert(word =~= seq![word.last()]);
    } else {
        assert forall|i: int| 0 <= i < start.len() implies !white_space(#[trigger] start[i]) by {
            assert(start[i] == word[i]);
        }
        a_word_after_a_gap_is_one_more(text, start);
        assert(all[all.len() - 2] == word[word.len() - 2]);
        assert(word =~= start.push(word.last()));
        assert(words(all) =~= words(text).push(word));
    }
}

/// Words that are joined come apart as they were.
pub proof fn joined_words_come_apart(list: Seq<Seq<char>>)
    requires
        forall|k: int| 0 <= k < list.len() ==> is_word(#[trigger] list[k]),
    ensures
        words(joined(list)) == list,
    decreases list.len(),
{
    reveal_strlit(" ");
    if list.len() > 0 {
        let start = list.drop_last();
        assert forall|k: int| 0 <= k < start.len() implies is_word(#[trigger] start[k]) by {
            assert(start[k] == list[k]);
        }
        joined_words_come_apart(start);
        assert(list =~= start.push(list.last()));
        if list.len() == 1 {
            assert(Seq::<char>::empty() + list[0] =~= list[0]);
            a_word_after_a_gap_is_one_more(Seq::empty(), list[0]);
            assert(words(Seq::empty()).push(list[0]) =~= list);
        } else {
            let gap = joined(start) + " "@;
            assert(gap.drop_last() =~= joined(start));
            assert(gap.last() == ' ');
            assert(words(gap) == words(joined(start)));
            a_word_after_a_gap_is_one_more(gap, list.last());
        }
    } else {
        assert(words(joined(list)) =~= list);
    }
}

proof fn a_tidy_word_reads_the_same(word: Seq<char>)
    requires
        is_word(word),
    ensures
        is_word(pretty_ascii_word(word)),
        lower_text(pretty_ascii_word(word)) == lower_text(word),
{
    let tidy = pretty_ascii_word(word);
    if !keeps_its_case(word) {
        assert(tidy.len() == word.len());
        assert forall|i: int| 0 <= i < tidy.len() implies !white_space(#[trigger] tidy[i])
            && lower_text(tidy)[i] == lower_text(word)[i] by {
            if i > 0 {
                assert(tidy[i] == lower_text(word.skip(1))[i - 1]);
                assert(word.skip(1)[i - 1] == word[i]);
            }
            assert(!white_space(word[i]));
        }
        assert(lower_text(tidy) =~= lower_text(word));
    }
}

/// Tidying an ASCII codename keeps its words: there are as many of them, in the
/// same order, and each differs in case at most.
pub proof fn tidying_keeps_the_words(raw: Seq<char>)
    requires
        all_ascii(raw),
    ensures
        words(pretty_ascii(raw)).len() == words(raw).len(),
        lower_words(words(pretty_ascii(raw))) == lower_words(words(raw)),
{
    if !has_ascii_lowercase(raw) {
        let plain = words(raw);
        let tidy = plain.map_values(|word: Seq<char>| pretty_ascii_word(word));
        words_are_words(raw);
        assert forall|k: int| 0 <= k < tidy.len() implies is_word(#[trigger] tidy[k])
            && lower_text(tidy[k]) == lower_text(plain[k]) by {
            assert(is_word(plain[k]));
            a_tidy_word_reads_the_same(plain[k]);
        }
        joined_words_come_apart(tidy);
        assert(lower_words(tidy) =~= lower_words(plain));
    }
}

/// A codename that has a lower-case letter is shown as it is. Of any other ASCII
/// codename the words are shown with single spaces between them. A word of at most
/// three bytes or with a digit stays as it is; of any other the first letter is
/// capital and the rest are small.
pub proof fn a_codename_is_shown_in_title_case(raw: Seq<char>, k: int)
    requires
        all_ascii(raw),
    ensures
        (exists|i: int| 0 <= i < raw.len() && 'a' <= #[trigger] raw[i] <= 'z') ==> pretty_ascii(raw)
            == raw,
        (forall|i: int| 0 <= i < raw.len() ==> !('a' <= #[trigger] raw[i] <= 'z')) && 0 <= k < words(
            raw,
        ).len() ==> {
            let word = words(raw)[k];
            let shown = words(pretty_ascii(raw))[k];
            let stays = vstd::utf8::encode_utf8(word).len() <= 3 || exists|i: int|
                0 <= i < word.len() && '0' <= #[trigger] word[i] <= '9';
            &&& words(pretty_ascii(raw)).len() == words(raw).len()
            &&& stays ==> shown == word
            &&& !stays ==> shown.len() == word.len() && shown[0] == upper_char(word[0])
                && forall|i: int| 1 <= i < word.len() ==> #[trigger] shown[i] == lower_char(word[i])
            &&& pretty_ascii(raw) == joined(words(pretty_ascii(raw)))
        },
{
    if !has_ascii_lowercase(raw) && 0 <= k < words(raw).len() {
        let plain = words(raw);
        let tidy = plain.map_values(|word: Seq<char>| pretty_ascii_word(word));
        words_are_words(raw);
        assert forall|n: int| 0 <= n < tidy.len() implies is_word(#[trigger] tidy[n]) by {
            assert(is_word(plain[n]));
            a_tidy_word_reads_the_same(plain[n]);
        }
        joined_words_come_apart(tidy);
        let word = plain[k];
        assert(is_word(word));
        assert(tidy[k] == pretty_ascii_word(word));
        if !keeps_its_case(word) {
            let rest = lower_text(word.skip(1));
            assert forall|i: int| 1 <= i < word.len() implies #[trigger] tidy[k][i] == lower_char(
                word[i],
            ) by {
                assert(tidy[k][i] == rest[i - 1]);
                assert(word.skip(1)[i - 1] == word[i]);
            }
        }
    }
}

/// Texts one behind the other.
pub open spec fn run_together(texts: Seq<Seq<char>>) -> Seq<char>
    decreases texts.len(),
{
    if texts.len() == 0 {
        Seq::empty()
    } else {
        run_together(texts.drop_last()) + texts.last()
    }
}

/// A text without its white space.
pub open spec fn letters(text: Seq<char>) -> Seq<char>
    decreases text.len(),
{
    if text.len() == 0 {
        Seq::empty()
    } else if white_space(text.last()) {
        letters(text.drop_last())
    } else {
        letters(text.drop_last()).push(text.last())
    }
}

/// Splitting a text into words drops its white space and nothing else.
pub proof fn only_white_space_is_dropped(text: Seq<char>)
    ensures
        run_together(words(text)) == letters(text),
    decreases text.len(),
{
    if text.len() > 0 {
        let start = text.drop_last();
        only_white_space_is_dropped(start);
        no_word_is_empty(start);
        let before = words(start);
        let all = words(text);
        if text.len() > 1 {
            assert(start.last() == text[text.len() - 2]);
        }
        if !white_space(text.last()) {
            if text.len() == 1 || white_space(text[text.len() - 2]) {
                assert(all.drop_last() =~= before);
                assert(run_together(all) =~= letters(start).push(text.last()));
            } else {
                assert(all.drop_last() =~= before.drop_last());
                assert(run_together(before) == run_together(before.drop_last()) + before.last());
                assert(run_together(all) =~= letters(start).push(text.last()));
            }
        }
    }
}

/// Any codename with a lower-case letter is shown as it is. Of any other the words
/// are shown with single spaces between them, each as it is where it is short or
/// has a digit, and else with its first letter in upper case and the rest in lower
/// case.
pub proof fn a_codename_is_tidied_word_by_word(raw: Seq<char>, shown: Seq<Seq<char>>)
    requires
        shown.len() == words(raw).len(),
        forall|k: int|
            0 <= k < shown.len() ==> #[trigger] shown[k] == (if vstd::utf8::encode_utf8(
                words(raw)[k],
            ).len() <= 3 || has_digit(words(raw)[k]) {
                words(raw)[k]
            } else {
                upper_case(words(raw)[k][0]) + lower_case(words(raw)[k].skip(1))
            }),
    ensures
        pretty(raw) == if exists|i: int| 0 <= i < raw.len() && lowercase_letter(#[trigger] raw[i]) {
            raw
        } else {
            joined(shown)
        },
{
    assert(pretty_words(raw) =~= shown);
}

} // verus!
