//! Editing the text fields of the game: typed characters are filtered and
//! appended, the delete key takes the last character away.

use crate::numeric::is_digit;
use vstd::prelude::*;

verus! {

/// A setup field takes characters while it holds fewer bytes than this.
pub const FIELD_LIMIT: usize = 20;

/// No player's name is longer than this.
pub const NAME_LIMIT: usize = 10;

/// Whether `char::is_alphanumeric` holds of the character.
pub uninterp spec fn alphanumeric(c: char) -> bool;

/// `char::is_alphanumeric`: whether the character is a letter or a number in
/// the sense of the Unicode standard.
#[verifier::external_body]
fn is_alphanumeric(c: char) -> (r: bool)
    ensures
        r == alphanumeric(c),
{
    c.is_alphanumeric()
}

/// Number of bytes that a character takes in UTF-8.
pub open spec fn utf8_width(c: char) -> int {
    if (c as u32) < 0x80 {
        1
    } else if (c as u32) < 0x800 {
        2
    } else if (c as u32) < 0x1_0000 {
        3
    } else {
        4
    }
}

/// Number of bytes that a text takes in UTF-8.
pub open spec fn utf8_len(text: Seq<char>) -> int
    decreases text.len(),
{
    if text.len() == 0 {
        0
    } else {
        utf8_len(text.drop_last()) + utf8_width(text.last())
    }
}

/// A text takes at least one byte for each character.
pub proof fn lemma_utf8_len_covers(text: Seq<char>)
    ensures
        text.len() <= utf8_len(text),
    decreases text.len(),
{
    if text.len() > 0 {
        lemma_utf8_len_covers(text.drop_last());
    }
}

/// A setup field takes letters, numbers, the full stop and the space.
pub open spec fn setup_char(c: char) -> bool {
    alphanumeric(c) || c == '.' || c == ' '
}

/// A field for an angle or a speed takes decimal digits and the full stop.
pub open spec fn number_char(c: char) -> bool {
    is_digit(c) || c == '.'
}

/// The text after the delete key: without its last character, if it has one.
pub open spec fn without_last(text: Seq<char>) -> Seq<char> {
    if text.len() > 0 {
        text.drop_last()
    } else {
        text
    }
}

/// A setup field after `typed` was typed into it: each character that the field
/// takes is appended while the field holds fewer bytes than the limit.
pub open spec fn setup_typed(text: Seq<char>, typed: Seq<char>) -> Seq<char>
    decreases typed.len(),
{
    if typed.len() == 0 {
        text
    } else {
        let before = setup_typed(text, typed.drop_last());
        if setup_char(typed.last()) && utf8_len(before) < FIELD_LIMIT {
            before.push(typed.last())
        } else {
            before
        }
    }
}

/// A number field after `typed` was typed into it: each digit and full stop is
/// appended.
pub open spec fn number_typed(text: Seq<char>, typed: Seq<char>) -> Seq<char>
    decreases typed.len(),
{
    if typed.len() == 0 {
        text
    } else {
        let before = number_typed(text, typed.drop_last());
        if number_char(typed.last()) {
            before.push(typed.last())
        } else {
            before
        }
    }
}

/// The name that a setup field gives: its first characters up to the name
/// limit, or the default for an empty field.
pub open spec fn name_of(text: Seq<char>, default: Seq<char>) -> Seq<char> {
    if text.len() == 0 {
        default
    } else if text.len() > NAME_LIMIT {
        text.subrange(0, NAME_LIMIT as int)
    } else {
        text
    }
}

/// The default name of the first player.
pub open spec fn first_default_name() -> Seq<char> {
    seq!['P', 'l', 'a', 'y', 'e', 'r', ' ', '1']
}

/// The default name of the second player.
pub open spec fn second_default_name() -> Seq<char> {
    seq!['P', 'l', 'a', 'y', 'e', 'r', ' ', '2']
}

/// Takes the last character away, if there is one.
pub fn delete_last(text: &mut Vec<char>)
    ensures
        final(text)@ == without_last(old(text)@),
{
    if text.len() > 0 {
        text.pop();
    }
}

/// Number of bytes that a character takes in UTF-8.
fn width_of(c: char) -> (width: usize)
    ensures
        width == utf8_width(c),
{
    let code = c as u32;
    if code < 0x80 {
        1
    } else if code < 0x800 {
        2
    } else if code < 0x1_0000 {
        3
    } else {
        4
    }
}

/// Number of bytes that a text takes in UTF-8, counted up to the field limit.
fn bytes_up_to_limit(text: &Vec<char>) -> (bytes: usize)
    ensures
        bytes == if utf8_len(text@) < FIELD_LIMIT {
            utf8_len(text@)
        } else {
            FIELD_LIMIT as int
        },
{
    let mut bytes: usize = 0;
    let mut i: usize = 0;
    assert(text@.subrange(0, 0) =~= Seq::<char>::empty());
    while i < text.len()
        invariant
            i <= text@.len(),
            bytes == if utf8_len(text@.subrange(0, i as int)) < FIELD_LIMIT {
                utf8_len(text@.subrange(0, i as int))
            } else {
                FIELD_LIMIT as int
            },
        decreases text@.len() - i,
    {
        proof {
            assert(text@.subrange(0, i + 1).drop_last() =~= text@.subrange(0, i as int));
            lemma_utf8_len_covers(text@.subrange(0, i as int));
        }
        let width = width_of(text[i]);
        bytes = if bytes + width < FIELD_LIMIT {
            bytes + width
        } else {
            FIELD_LIMIT
        };
        i += 1;
    }
    assert(text@.subrange(0, text@.len() as int) =~= text@);
    bytes
}

/// Types into a setup field.
pub fn type_into_setup(text: &mut Vec<char>, typed: &Vec<char>)
    ensures
        final(text)@ == setup_typed(old(text)@, typed@),
        old(text)@.len() <= FIELD_LIMIT ==> final(text)@.len() <= FIELD_LIMIT,
{
    let mut bytes = bytes_up_to_limit(text);
    let mut i: usize = 0;
    assert(typed@.subrange(0, 0) =~= Seq::<char>::empty());
    while i < typed.len()
        invariant
            i <= typed@.len(),
            text@ == setup_typed(old(text)@, typed@.subrange(0, i as int)),
            old(text)@.len() <= FIELD_LIMIT ==> text@.len() <= FIELD_LIMIT,
            bytes == if utf8_len(text@) < FIELD_LIMIT {
                utf8_len(text@)
            } else {
                FIELD_LIMIT as int
            },
        decreases typed@.len() - i,
    {
        let c = typed[i];
        proof {
            assert(typed@.subrange(0, i + 1).drop_last() =~= typed@.subrange(0, i as int));
            lemma_utf8_len_covers(text@);
            assert(text@.push(c).drop_last() =~= text@);
        }
        if (is_alphanumeric(c) || c == '.' || c == ' ') && bytes < FIELD_LIMIT {
            let width = width_of(c);
            text.push(c);
            bytes = if bytes + width < FIELD_LIMIT {
                bytes + width
            } else {
                FIELD_LIMIT
            };
        }
        i += 1;
    }
    assert(typed@.subrange(0, typed@.len() as int) =~= typed@);
}

/// Types into a field for an angle or a speed.
pub fn type_into_number(text: &mut Vec<char>, typed: &Vec<char>)
    ensures
        final(text)@ == number_typed(old(text)@, typed@),
{
    let mut i: usize = 0;
    assert(typed@.subrange(0, 0) =~= Seq::<char>::empty());
    while i < typed.len()
        invariant
            i <= typed@.len(),
            text@ == number_typed(old(text)@, typed@.subrange(0, i as int)),
        decreases typed@.len() - i,
    {
        let c = typed[i];
        proof {
            assert(typed@.subrange(0, i + 1).drop_last() =~= typed@.subrange(0, i as int));
        }
        if ('0' <= c && c <= '9') || c == '.' {
            text.push(c);
        }
        i += 1;
    }
    assert(typed@.subrange(0, typed@.len() as int) =~= typed@);
}

/// A copy of the text.
pub fn copy_text(text: &Vec<char>) -> (copy: Vec<char>)
    ensures
        copy@ == text@,
{
    let mut copy: Vec<char> = Vec::new();
    let mut i: usize = 0;
    while i < text.len()
        invariant
            i <= text@.len(),
            copy@ == text@.subrange(0, i as int),
        decreases text@.len() - i,
    {
        copy.push(text[i]);
        assert(copy@ =~= text@.subrange(0, i + 1));
        i += 1;
    }
    assert(text@.subrange(0, text@.len() as int) =~= text@);
    copy
}

/// The default name of the first player.
pub fn first_default() -> (name: Vec<char>)
    ensures
        name@ == first_default_name(),
{
    let name = vec!['P', 'l', 'a', 'y', 'e', 'r', ' ', '1'];
    assert(name@ =~= first_default_name());
    name
}

/// The default name of the second player.
pub fn second_default() -> (name: Vec<char>)
    ensures
        name@ == second_default_name(),
{
    let name = vec!['P', 'l', 'a', 'y', 'e', 'r', ' ', '2'];
    assert(name@ =~= second_default_name());
    name
}

/// The name that a setup field gives.
pub fn name_from(text: &Vec<char>, default: Vec<char>) -> (name: Vec<char>)
    ensures
        name@ == name_of(text@, default@),
        name@.len() <= NAME_LIMIT || name@ == default@,
{
    if text.len() == 0 {
        return default;
    }
    let mut name: Vec<char> = Vec::new();
    let mut i: usize = 0;
    while i < text.len() && i < NAME_LIMIT
        invariant
            i <= text@.len(),
            i <= NAME_LIMIT,
            name@ == text@.subrange(0, i as int),
        decreases text@.len() - i,
    {
        name.push(text[i]);
        assert(name@ =~= text@.subrange(0, i + 1));
        i += 1;
    }
    assert(text@.subrange(0, text@.len() as int) =~= text@);
    name
}

} // verus!
