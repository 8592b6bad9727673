//! Reading numbers from typed text. Text that is no number never fails a
//! transition: the caller's default takes its place.

use crate::round::{DECIMAL_CAP, DEFAULT_GRAVITY};
use vstd::prelude::*;

verus! {

/// Number of rounds when none is chosen.
pub const DEFAULT_ROUNDS: i32 = 3;

/// Angle of a throw when none is given, in thousandths of a degree.
pub const DEFAULT_ANGLE: i64 = 45_000;

/// Speed of a throw when none is given, in thousandths.
pub const DEFAULT_VELOCITY: i64 = 50_000;

/// An exponent is read up to this size; a larger one moves the point further
/// than any text is long, and is as good as this one.
pub const EXPONENT_CAP: i128 = 1_000_000_000_000_000_000_000_000_000_000;

/// The character is one of the ten decimal digits.
pub open spec fn is_digit(c: char) -> bool {
    '0' <= c <= '9'
}

/// The value of a decimal digit.
pub open spec fn digit_value(c: char) -> int {
    c as int - '0' as int
}

/// Every character is a decimal digit.
pub open spec fn all_digits(s: Seq<char>) -> bool {
    forall|i: int| 0 <= i < s.len() ==> is_digit(#[trigger] s[i])
}

/// The number that a sequence of digits writes; zero for the empty sequence.
pub open spec fn digits_value(s: Seq<char>) -> int
    decreases s.len(),
{
    if s.len() == 0 {
        0
    } else {
        digits_value(s.drop_last()) * 10 + digit_value(s.last())
    }
}

/// The index of the first `.` at or after `from`, or the length if there is none.
pub open spec fn first_dot_from(s: Seq<char>, from: int) -> int
    decreases s.len() - from,
{
    if from < 0 || from >= s.len() {
        s.len() as int
    } else if s[from] == '.' {
        from
    } else {
        first_dot_from(s, from + 1)
    }
}

/// The digits before the first `.`.
pub open spec fn whole_part(s: Seq<char>) -> Seq<char> {
    s.subrange(0, first_dot_from(s, 0))
}

/// What follows the first `.`; empty if there is none.
pub open spec fn fraction_part(s: Seq<char>) -> Seq<char> {
    if first_dot_from(s, 0) < s.len() {
        s.subrange(first_dot_from(s, 0) + 1, s.len() as int)
    } else {
        Seq::empty()
    }
}

/// The text is a decimal number without sign or exponent: digits, at most one
/// `.` among them, and at least one digit.
pub open spec fn is_decimal(s: Seq<char>) -> bool {
    &&& all_digits(whole_part(s))
    &&& all_digits(fraction_part(s))
    &&& whole_part(s).len() + fraction_part(s).len() > 0
}

/// The character marks an exponent.
pub open spec fn is_mark(c: char) -> bool {
    c == 'e' || c == 'E'
}

/// The index of the first exponent mark at or after `from`, or the length if
/// there is none.
pub open spec fn first_mark_from(s: Seq<char>, from: int) -> int
    decreases s.len() - from,
{
    if from < 0 || from >= s.len() {
        s.len() as int
    } else if is_mark(s[from]) {
        from
    } else {
        first_mark_from(s, from + 1)
    }
}

/// What stands before the first exponent mark.
pub open spec fn mantissa_part(s: Seq<char>) -> Seq<char> {
    s.subrange(0, first_mark_from(s, 0))
}

/// What follows the first exponent mark; empty if there is none.
pub open spec fn exponent_part(s: Seq<char>) -> Seq<char> {
    if first_mark_from(s, 0) < s.len() {
        s.subrange(first_mark_from(s, 0) + 1, s.len() as int)
    } else {
        Seq::empty()
    }
}

/// The text without a leading sign.
pub open spec fn unsigned_part(s: Seq<char>) -> Seq<char> {
    if s.len() > 0 && (s[0] == '+' || s[0] == '-') {
        s.skip(1)
    } else {
        s
    }
}

/// The text starts with a minus sign.
pub open spec fn is_negative(s: Seq<char>) -> bool {
    s.len() > 0 && s[0] == '-'
}

/// The text is a whole number: an optional sign and at least one digit.
pub open spec fn is_signed_whole(s: Seq<char>) -> bool {
    unsigned_part(s).len() > 0 && all_digits(unsigned_part(s))
}

/// The value of a whole number with its sign.
pub open spec fn signed_value(s: Seq<char>) -> int {
    if is_negative(s) {
        -digits_value(unsigned_part(s))
    } else {
        digits_value(unsigned_part(s))
    }
}

/// The exponent of a number: what follows the exponent mark, or zero without one.
pub open spec fn exponent_of(s: Seq<char>) -> int {
    if first_mark_from(s, 0) < s.len() {
        signed_value(exponent_part(s))
    } else {
        0
    }
}

/// The text is a number without sign: a decimal number, and after it, if
/// there is an exponent mark, a whole number.
pub open spec fn is_number(s: Seq<char>) -> bool {
    &&& is_decimal(mantissa_part(s))
    &&& first_mark_from(s, 0) < s.len() ==> is_signed_whole(exponent_part(s))
}

/// The value of the digit at `i`, or zero outside the text.
pub open spec fn digit_or_zero(s: Seq<char>, i: int) -> int {
    if 0 <= i < s.len() {
        digit_value(s[i])
    } else {
        0
    }
}

/// The number that the first `places` digits write, with zeros for the digits
/// past the end; zero for no places.
pub open spec fn leading_value(digits: Seq<char>, places: int) -> int
    decreases places,
{
    if places <= 0 {
        0
    } else {
        leading_value(digits, places - 1) * 10 + digit_or_zero(digits, places - 1)
    }
}

/// The digits of a number's mantissa, without the point.
pub open spec fn mantissa_digits(s: Seq<char>) -> Seq<char> {
    whole_part(mantissa_part(s)) + fraction_part(mantissa_part(s))
}

/// The value of a number in thousandths: its digits up to the third place
/// after the point, once the exponent has moved the point. Digits past that
/// place are dropped.
pub open spec fn thousandths(s: Seq<char>) -> int {
    leading_value(mantissa_digits(s), whole_part(mantissa_part(s)).len() + exponent_of(s) + 3)
}

/// The character is the lower-case letter `letter` or its upper-case form.
pub open spec fn same_letter(c: char, letter: char) -> bool {
    c == letter || c as u32 + 32 == letter as u32
}

/// The text spells the lower-case word, in upper or lower case.
pub open spec fn spells(s: Seq<char>, word: Seq<char>) -> bool {
    &&& s.len() == word.len()
    &&& forall|i: int| 0 <= i < s.len() ==> same_letter(#[trigger] s[i], word[i])
}

/// The text names infinity.
pub open spec fn is_infinite(s: Seq<char>) -> bool {
    spells(s, seq!['i', 'n', 'f']) || spells(s, seq!['i', 'n', 'f', 'i', 'n', 'i', 't', 'y'])
}

/// `v` or the cap, whichever is smaller.
pub open spec fn capped(v: int) -> int {
    if v > DECIMAL_CAP {
        DECIMAL_CAP as int
    } else {
        v
    }
}

/// What a text without sign reads as, in thousandths: the cap for infinity, the
/// value cut to the cap for a number, else nothing.
pub open spec fn magnitude_of(s: Seq<char>) -> Option<int> {
    if is_infinite(s) {
        Some(DECIMAL_CAP as int)
    } else if is_number(s) {
        Some(capped(thousandths(s)))
    } else {
        None
    }
}

/// What the text reads as, in thousandths: an optional sign, then infinity or
/// a number with an optional exponent, cut to the cap on either side of zero;
/// nothing if the text is no such number.
pub open spec fn decimal_of(s: Seq<char>) -> Option<int> {
    match magnitude_of(unsigned_part(s)) {
        Some(m) => Some(
            if is_negative(s) {
                -m
            } else {
                m
            },
        ),
        None => None,
    }
}

/// What the text reads as a whole number: an optional sign and at least one
/// digit, with a value that a 32-bit signed integer holds; else nothing.
pub open spec fn whole_of(s: Seq<char>) -> Option<int> {
    if is_signed_whole(s) && i32::MIN <= signed_value(s) <= i32::MAX {
        Some(signed_value(s))
    } else {
        None
    }
}

/// The number of rounds that the text asks for: its value where it reads as a
/// positive whole number, else the default.
pub open spec fn rounds_of(s: Seq<char>) -> int {
    match whole_of(s) {
        Some(n) => if n > 0 {
            n
        } else {
            DEFAULT_ROUNDS as int
        },
        None => DEFAULT_ROUNDS as int,
    }
}

/// The gravity that the text asks for, in thousandths: its value where it reads
/// as a number of at least one thousandth, else the default.
pub open spec fn gravity_of(s: Seq<char>) -> int {
    match decimal_of(s) {
        Some(g) => if g > 0 {
            g
        } else {
            DEFAULT_GRAVITY as int
        },
        None => DEFAULT_GRAVITY as int,
    }
}

/// The text's value where it reads as a number, else `default`.
pub open spec fn decimal_or(s: Seq<char>, default: int) -> int {
    match decimal_of(s) {
        Some(v) => v,
        None => default,
    }
}

/// A position that holds no `.` does not hold the first `.`.
proof fn lemma_first_dot_skips(s: Seq<char>, i: int)
    requires
        0 <= i < s.len(),
        s[i] != '.',
        first_dot_from(s, 0) == first_dot_from(s, i),
    ensures
        first_dot_from(s, 0) == first_dot_from(s, i + 1),
{
}

/// A position that holds no exponent mark does not hold the first one.
proof fn lemma_first_mark_skips(s: Seq<char>, i: int)
    requires
        0 <= i < s.len(),
        !is_mark(s[i]),
        first_mark_from(s, 0) == first_mark_from(s, i),
    ensures
        first_mark_from(s, 0) == first_mark_from(s, i + 1),
{
}

/// The value of a digit string grows by one digit at its end.
proof fn lemma_digits_push(s: Seq<char>, upto: int)
    requires
        0 <= upto < s.len(),
    ensures
        digits_value(s.subrange(0, upto + 1)) == digits_value(s.subrange(0, upto)) * 10
            + digit_value(s[upto]),
{
    assert(s.subrange(0, upto + 1).drop_last() =~= s.subrange(0, upto));
}

/// A digit string's value is not negative.
proof fn lemma_digits_nonnegative(s: Seq<char>)
    requires
        all_digits(s),
    ensures
        digits_value(s) >= 0,
    decreases s.len(),
{
    if s.len() > 0 {
        assert(is_digit(s.last()));
        assert forall|i: int| 0 <= i < s.drop_last().len() implies is_digit(
            #[trigger] s.drop_last()[i],
        ) by {
            assert(s.drop_last()[i] == s[i]);
        }
        lemma_digits_nonnegative(s.drop_last());
    }
}

/// The first digits of a digit string write no negative number.
proof fn lemma_leading_nonnegative(digits: Seq<char>, places: int)
    requires
        all_digits(digits),
    ensures
        leading_value(digits, places) >= 0,
    decreases places,
{
    if places > 0 {
        lemma_leading_nonnegative(digits, places - 1);
        if places - 1 < digits.len() {
            assert(is_digit(digits[places - 1]));
        }
    }
}

/// Ten or more places past the end of a digit string, the value is zero if the
/// string writes zero, and else at least ten thousand million.
proof fn lemma_far_past_end(digits: Seq<char>, places: int)
    requires
        all_digits(digits),
        places >= digits.len() + 10,
    ensures
        leading_value(digits, digits.len() as int) == 0 ==> leading_value(digits, places) == 0,
        leading_value(digits, digits.len() as int) >= 1 ==> leading_value(digits, places)
            >= 10_000_000_000,
    decreases places,
{
    let n = digits.len() as int;
    lemma_leading_nonnegative(digits, n);
    if places == n + 10 {
        assert(leading_value(digits, n + 1) == 10 * leading_value(digits, n));
        assert(leading_value(digits, n + 2) == 10 * leading_value(digits, n + 1));
        assert(leading_value(digits, n + 3) == 10 * leading_value(digits, n + 2));
        assert(leading_value(digits, n + 4) == 10 * leading_value(digits, n + 3));
        assert(leading_value(digits, n + 5) == 10 * leading_value(digits, n + 4));
        assert(leading_value(digits, n + 6) == 10 * leading_value(digits, n + 5));
        assert(leading_value(digits, n + 7) == 10 * leading_value(digits, n + 6));
        assert(leading_value(digits, n + 8) == 10 * leading_value(digits, n + 7));
        assert(leading_value(digits, n + 9) == 10 * leading_value(digits, n + 8));
        assert(leading_value(digits, n + 10) == 10 * leading_value(digits, n + 9));
    } else {
        lemma_far_past_end(digits, places - 1);
        assert(leading_value(digits, places) == 10 * leading_value(digits, places - 1));
    }
}

/// An exponent beyond the exponent cap is as good as the cap: the value in
/// thousandths, cut to the cap, is the same.
proof fn lemma_exponent_cap_is_enough(digits: Seq<char>, before: int, exponent: int)
    requires
        all_digits(digits),
        0 <= before <= digits.len() <= usize::MAX,
    ensures
        capped(leading_value(digits, before + exponent + 3)) == capped(
            leading_value(
                digits,
                before + (if exponent > EXPONENT_CAP {
                    EXPONENT_CAP as int
                } else if exponent < -EXPONENT_CAP {
                    -EXPONENT_CAP as int
                } else {
                    exponent
                }) + 3,
            ),
        ),
{
    if exponent > EXPONENT_CAP {
        lemma_far_past_end(digits, before + exponent + 3);
        lemma_far_past_end(digits, before + EXPONENT_CAP + 3);
        lemma_leading_nonnegative(digits, digits.len() as int);
    }
}

fn digit_of(c: char) -> (d: Option<i64>)
    ensures
        d.is_some() == is_digit(c),
        d.is_some() ==> d.unwrap() == digit_value(c) && 0 <= d.unwrap() <= 9,
{
    if '0' <= c && c <= '9' {
        Some((c as u32 - '0' as u32) as i64)
    } else {
        None
    }
}

/// A copy of the text from `from` up to `to`.
fn part_of(text: &Vec<char>, from: usize, to: usize) -> (part: Vec<char>)
    requires
        from <= to <= text@.len(),
    ensures
        part@ == text@.subrange(from as int, to as int),
{
    let mut part: Vec<char> = Vec::new();
    let mut i: usize = from;
    while i < to
        invariant
            from <= i <= to <= text@.len(),
            part@ == text@.subrange(from as int, i as int),
        decreases to - i,
    {
        part.push(text[i]);
        assert(part@ =~= text@.subrange(from as int, i + 1));
        i += 1;
    }
    part
}

/// Reads a digit string. Returns nothing if a character is no digit, else the
/// value, cut to `cap`.
fn read_digits(text: &Vec<char>, cap: i128) -> (value: Option<i128>)
    requires
        0 <= cap <= EXPONENT_CAP,
    ensures
        value.is_some() == all_digits(text@),
        value.is_some() ==> value.unwrap() == if digits_value(text@) > cap {
            cap as int
        } else {
            digits_value(text@)
        },
{
    let mut acc: i128 = 0;
    let mut i: usize = 0;
    while i < text.len()
        invariant
            i <= text@.len(),
            0 <= cap <= EXPONENT_CAP,
            all_digits(text@.subrange(0, i as int)),
            0 <= acc <= cap,
            acc == if digits_value(text@.subrange(0, i as int)) > cap {
                cap as int
            } else {
                digits_value(text@.subrange(0, i as int))
            },
        decreases text@.len() - i,
    {
        let ghost seen = text@.subrange(0, i as int);
        proof {
            lemma_digits_push(text@, i as int);
            lemma_digits_nonnegative(seen);
        }
        match digit_of(text[i]) {
            None => {
                return None;
            },
            Some(d) => {
                let next = acc * 10 + d as i128;
                acc = if next > cap {
                    cap
                } else {
                    next
                };
                proof {
                    let longer = text@.subrange(0, i + 1);
                    assert forall|j: int| 0 <= j < longer.len() implies is_digit(
                        #[trigger] longer[j],
                    ) by {
                        if j < i {
                            assert(seen[j] == longer[j]);
                        }
                    }
                }
            },
        }
        i += 1;
    }
    proof {
        assert(text@.subrange(0, text@.len() as int) =~= text@);
    }
    Some(acc)
}

/// Reads a whole number with an optional sign. Returns nothing if the text is
/// none, else the value, cut to `cap` on either side of zero.
fn read_signed(text: &Vec<char>, cap: i128) -> (value: Option<i128>)
    requires
        0 <= cap <= EXPONENT_CAP,
    ensures
        value.is_some() == is_signed_whole(text@),
        value.is_some() ==> value.unwrap() == if signed_value(text@) > cap {
            cap as int
        } else if signed_value(text@) < -cap {
            -cap as int
        } else {
            signed_value(text@)
        },
{
    let len = text.len();
    let signed = len > 0 && (text[0] == '+' || text[0] == '-');
    let negative = len > 0 && text[0] == '-';
    let from: usize = if signed {
        1
    } else {
        0
    };
    let body = part_of(text, from, len);
    proof {
        assert(unsigned_part(text@) =~= body@);
    }
    if body.len() == 0 {
        return None;
    }
    match read_digits(&body, cap) {
        None => None,
        Some(magnitude) => {
            proof {
                lemma_digits_nonnegative(body@);
            }
            if negative {
                Some(-magnitude)
            } else {
                Some(magnitude)
            }
        },
    }
}

/// The index of the first `.`, or the length if there is none.
fn find_dot(text: &Vec<char>) -> (dot: usize)
    ensures
        dot == first_dot_from(text@, 0),
        dot <= text@.len(),
{
    let mut dot: usize = 0;
    while dot < text.len() && text[dot] != '.'
        invariant
            dot <= text@.len(),
            first_dot_from(text@, 0) == first_dot_from(text@, dot as int),
        decreases text@.len() - dot,
    {
        proof {
            lemma_first_dot_skips(text@, dot as int);
        }
        dot += 1;
    }
    dot
}

/// The index of the first exponent mark, or the length if there is none.
fn find_mark(text: &Vec<char>) -> (mark: usize)
    ensures
        mark == first_mark_from(text@, 0),
        mark <= text@.len(),
{
    let mut mark: usize = 0;
    while mark < text.len() && text[mark] != 'e' && text[mark] != 'E'
        invariant
            mark <= text@.len(),
            first_mark_from(text@, 0) == first_mark_from(text@, mark as int),
        decreases text@.len() - mark,
    {
        proof {
            lemma_first_mark_skips(text@, mark as int);
        }
        mark += 1;
    }
    mark
}

/// Whether the text spells the lower-case word, in upper or lower case.
fn spells_word(text: &Vec<char>, word: &Vec<char>) -> (r: bool)
    ensures
        r == spells(text@, word@),
{
    if text.len() != word.len() {
        return false;
    }
    let mut i: usize = 0;
    while i < text.len()
        invariant
            i <= text@.len() == word@.len(),
            forall|j: int| 0 <= j < i ==> same_letter(#[trigger] text@[j], word@[j]),
        decreases text@.len() - i,
    {
        let c = text[i];
        let letter = word[i];
        if !(c == letter || (c as u32) as u64 + 32 == (letter as u32) as u64) {
            assert(!same_letter(text@[i as int], word@[i as int]));
            return false;
        }
        i += 1;
    }
    true
}

/// Whether the text names infinity.
fn names_infinity(text: &Vec<char>) -> (r: bool)
    ensures
        r == is_infinite(text@),
{
    let short = vec!['i', 'n', 'f'];
    let long = vec!['i', 'n', 'f', 'i', 'n', 'i', 't', 'y'];
    assert(short@ =~= seq!['i', 'n', 'f']);
    assert(long@ =~= seq!['i', 'n', 'f', 'i', 'n', 'i', 't', 'y']);
    spells_word(text, &short) || spells_word(text, &long)
}

/// The two texts one after the other.
fn joined(first: &Vec<char>, second: &Vec<char>) -> (both: Vec<char>)
    ensures
        both@ == first@ + second@,
{
    let mut both = part_of(first, 0, first.len());
    assert(first@.subrange(0, first@.len() as int) =~= first@);
    let mut i: usize = 0;
    while i < second.len()
        invariant
            i <= second@.len(),
            both@ == first@ + second@.subrange(0, i as int),
        decreases second@.len() - i,
    {
        both.push(second[i]);
        assert(both@ =~= first@ + second@.subrange(0, i + 1));
        i += 1;
    }
    assert(second@.subrange(0, second@.len() as int) =~= second@);
    both
}

/// The number that the first `places` digits write, with zeros for the digits
/// past the end, cut to the cap.
fn leading_capped(digits: &Vec<char>, places: i128) -> (value: i64)
    requires
        all_digits(digits@),
    ensures
        value == capped(leading_value(digits@, places as int)),
        0 <= value <= DECIMAL_CAP,
{
    if places <= 0 {
        return 0;
    }
    let len = digits.len();
    let upto: usize = if places < len as i128 {
        places as usize
    } else {
        len
    };
    let mut acc: i64 = 0;
    let mut i: usize = 0;
    while i < upto
        invariant
            i <= upto <= len == digits@.len(),
            all_digits(digits@),
            0 <= acc <= DECIMAL_CAP,
            acc == capped(leading_value(digits@, i as int)),
        decreases upto - i,
    {
        proof {
            lemma_leading_nonnegative(digits@, i as int);
            assert(is_digit(digits@[i as int]));
        }
        let d = digit_of(digits[i]).unwrap();
        let next = acc * 10 + d;
        acc = if next > DECIMAL_CAP {
            DECIMAL_CAP
        } else {
            next
        };
        i += 1;
    }
    if places <= len as i128 {
        return acc;
    }
    let extra: i128 = places - len as i128;
    proof {
        lemma_leading_nonnegative(digits@, len as int);
    }
    if extra >= 10 {
        proof {
            lemma_far_past_end(digits@, places as int);
        }
        return if acc == 0 {
            0
        } else {
            DECIMAL_CAP
        };
    }
    let mut j: i128 = 0;
    while j < extra
        invariant
            0 <= j <= extra < 10,
            len == digits@.len(),
            all_digits(digits@),
            0 <= acc <= DECIMAL_CAP,
            acc == capped(leading_value(digits@, len + j)),
        decreases extra - j,
    {
        proof {
            lemma_leading_nonnegative(digits@, len + j);
        }
        let next = acc * 10;
        acc = if next > DECIMAL_CAP {
            DECIMAL_CAP
        } else {
            next
        };
        j += 1;
    }
    acc
}

/// Reads a number without sign and returns its value in thousandths, cut to
/// the cap; nothing if the text is no such number.
fn parse_magnitude(text: &Vec<char>) -> (value: Option<i64>)
    ensures
        value.is_some() == magnitude_of(text@).is_some(),
        value.is_some() ==> value.unwrap() == magnitude_of(text@).unwrap(),
        value.is_some() ==> 0 <= value.unwrap() <= DECIMAL_CAP,
{
    if names_infinity(text) {
        return Some(DECIMAL_CAP);
    }
    let len = text.len();
    let mark = find_mark(text);
    let mantissa = part_of(text, 0, mark);
    let exponent: i128 = if mark < len {
        let written = part_of(text, mark + 1, len);
        match read_signed(&written, EXPONENT_CAP) {
            None => {
                return None;
            },
            Some(exponent) => exponent,
        }
    } else {
        0
    };
    let dot = find_dot(&mantissa);
    let whole = part_of(&mantissa, 0, dot);
    let fraction = if dot < mantissa.len() {
        part_of(&mantissa, dot + 1, mantissa.len())
    } else {
        Vec::new()
    };
    proof {
        assert(fraction@ =~= fraction_part(mantissa@));
    }
    if read_digits(&whole, 0).is_none() || read_digits(&fraction, 0).is_none() {
        return None;
    }
    if whole.len() == 0 && fraction.len() == 0 {
        return None;
    }
    let digits = joined(&whole, &fraction);
    proof {
        assert forall|i: int| 0 <= i < digits@.len() implies is_digit(#[trigger] digits@[i]) by {
            if i < whole@.len() {
                assert(digits@[i] == whole@[i]);
            } else {
                assert(digits@[i] == fraction@[i - whole@.len()]);
            }
        }
        lemma_exponent_cap_is_enough(digits@, whole@.len() as int, exponent_of(text@));
    }
    let places: i128 = whole.len() as i128 + exponent + 3;
    Some(leading_capped(&digits, places))
}

/// Reads a number and returns its value in thousandths, cut to the cap on
/// either side of zero; nothing if the text is no number.
///
/// A number is an optional sign followed by digits with at most one `.` among
/// them and at least one digit, then optionally `e` or `E` and a whole number
/// with optional sign; or an optional sign followed by `inf` or `infinity` in
/// any case, which reads as the cap.
pub fn parse_decimal(text: &Vec<char>) -> (value: Option<i64>)
    ensures
        value.is_some() == decimal_of(text@).is_some(),
        value.is_some() ==> value.unwrap() == decimal_of(text@).unwrap(),
        value.is_some() ==> -DECIMAL_CAP <= value.unwrap() <= DECIMAL_CAP,
{
    let len = text.len();
    let signed = len > 0 && (text[0] == '+' || text[0] == '-');
    let negative = len > 0 && text[0] == '-';
    let from: usize = if signed {
        1
    } else {
        0
    };
    let body = part_of(text, from, len);
    proof {
        assert(unsigned_part(text@) =~= body@);
    }
    match parse_magnitude(&body) {
        None => None,
        Some(magnitude) => if negative {
            Some(-magnitude)
        } else {
            Some(magnitude)
        },
    }
}

/// Reads a whole number with an optional sign, as far as a 32-bit signed
/// integer holds it; nothing if the text is no such number.
pub fn parse_whole(text: &Vec<char>) -> (value: Option<i32>)
    ensures
        value.is_some() == whole_of(text@).is_some(),
        value.is_some() ==> value.unwrap() == whole_of(text@).unwrap(),
{
    match read_signed(text, 3_000_000_000) {
        None => None,
        Some(value) => if -2_147_483_648 <= value && value <= 2_147_483_647 {
            Some(value as i32)
        } else {
            None
        },
    }
}

/// The number of rounds to play for what was typed: the typed number where it
/// is a positive whole number, else the default of three.
pub fn rounds_from(text: &Vec<char>) -> (rounds: i32)
    ensures
        rounds == rounds_of(text@),
        rounds >= 1,
{
    match parse_whole(text) {
        Some(n) => if n > 0 {
            n
        } else {
            DEFAULT_ROUNDS
        },
        None => DEFAULT_ROUNDS,
    }
}

/// The gravity for what was typed, in thousandths: the typed number where it is
/// a number of at least one thousandth, else the default of 9.8.
pub fn gravity_from(text: &Vec<char>) -> (gravity: i64)
    ensures
        gravity == gravity_of(text@),
        1 <= gravity <= DECIMAL_CAP,
{
    match parse_decimal(text) {
        Some(g) => if g > 0 {
            g
        } else {
            DEFAULT_GRAVITY
        },
        None => DEFAULT_GRAVITY,
    }
}

/// The angle of a throw for what was typed, in thousandths of a degree: the
/// typed number, or 45 degrees where the text is no number.
pub fn angle_from(text: &Vec<char>) -> (angle: i64)
    ensures
        angle == decimal_or(text@, DEFAULT_ANGLE as int),
        -DECIMAL_CAP <= angle <= DECIMAL_CAP,
{
    match parse_decimal(text) {
        Some(a) => a,
        None => DEFAULT_ANGLE,
    }
}

/// The speed of a throw for what was typed, in thousandths: the typed number,
/// or 50 where the text is no number.
pub fn velocity_from(text: &Vec<char>) -> (velocity: i64)
    ensures
        velocity == decimal_or(text@, DEFAULT_VELOCITY as int),
        -DECIMAL_CAP <= velocity <= DECIMAL_CAP,
{
    match parse_decimal(text) {
        Some(v) => v,
        None => DEFAULT_VELOCITY,
    }
}

} // verus!
