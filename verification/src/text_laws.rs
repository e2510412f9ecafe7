//! What the operations on text do, told of their results.

use crate::text::{
    contains_text, decimal, digits_value, ends_in, in_margin, integer_of, is_digit, is_white_space,
    lowered, same_ignoring_case, signed_decimal, stands_at, strip_back, strip_front, stripped,
    trimmed, Margin,
};
use vstd::prelude::*;

verus! {

/// A margin is white space, or the double quote alone.
pub proof fn law_margin_characters(c: char)
    ensures
        in_margin(c, Margin::White) <==> is_white_space(c),
        in_margin(c, Margin::Quote) <==> c == '"',
{
}

proof fn lemma_front_cut(s: Seq<char>, margin: Margin) -> (i: int)
    ensures
        0 <= i <= s.len(),
        strip_front(s, margin) == s.skip(i),
        forall|k: int| 0 <= k < i ==> in_margin(#[trigger] s[k], margin),
        i < s.len() ==> !in_margin(s[i], margin),
    decreases s.len(),
{
    if s.len() > 0 && in_margin(s[0], margin) {
        let rest = s.drop_first();
        let j = lemma_front_cut(rest, margin);
        assert(rest.skip(j) =~= s.skip(j + 1));
        assert forall|k: int| 0 <= k < j + 1 implies in_margin(#[trigger] s[k], margin) by {
            if k > 0 {
                assert(s[k] == rest[k - 1]);
            }
        }
        if j + 1 < s.len() {
            assert(s[j + 1] == rest[j]);
        }
        j + 1
    } else {
        assert(s.skip(0) =~= s);
        0
    }
}

proof fn lemma_back_cut(s: Seq<char>, margin: Margin) -> (j: int)
    ensures
        0 <= j <= s.len(),
        strip_back(s, margin) == s.take(j),
        forall|k: int| j <= k < s.len() ==> in_margin(#[trigger] s[k], margin),
        j > 0 ==> !in_margin(s[j - 1], margin),
    decreases s.len(),
{
    if s.len() > 0 && in_margin(s.last(), margin) {
        let rest = s.drop_last();
        let j = lemma_back_cut(rest, margin);
        assert(rest.take(j) =~= s.take(j));
        assert forall|k: int| j <= k < s.len() implies in_margin(#[trigger] s[k], margin) by {
            if k < rest.len() {
                assert(s[k] == rest[k]);
            }
        }
        j
    } else {
        assert(s.take(s.len() as int) =~= s);
        s.len() as int
    }
}

/// Stripping cuts margin characters off both ends, and nothing else; what is
/// left begins and ends with none.
pub proof fn law_stripped_is_cut(s: Seq<char>, margin: Margin)
    ensures
        exists|i: int, j: int|
            0 <= i <= j <= s.len() && stripped(s, margin) == #[trigger] s.subrange(i, j) && (forall|
                k: int,
            |
                (0 <= k < i || j <= k < s.len()) ==> in_margin(#[trigger] s[k], margin)),
        stripped(s, margin).len() > 0 ==> !in_margin(stripped(s, margin)[0], margin) && !in_margin(
            stripped(s, margin).last(),
            margin,
        ),
        trimmed(s) == stripped(s, Margin::White),
{
    let i = lemma_front_cut(s, margin);
    let front = s.skip(i);
    let len = lemma_back_cut(front, margin);
    let j = i + len;
    assert(front.take(len) =~= s.subrange(i, j));
    assert forall|k: int| (0 <= k < i || j <= k < s.len()) implies in_margin(
        #[trigger] s[k],
        margin,
    ) by {
        if j <= k {
            assert(front[k - i] == s[k]);
        }
    }
    if len > 0 {
        assert(front[0] == s[i]);
        assert(s.subrange(i, j)[0] == s[i]);
        assert(s.subrange(i, j).last() == front[len - 1]);
    }
}

/// Lower case moves the capitals from A to Z by 32 and leaves every other
/// character where it is.
pub proof fn law_lower_case(s: Seq<char>)
    ensures
        lowered(s).len() == s.len(),
        forall|i: int|
            0 <= i < s.len() ==> (#[trigger] lowered(s)[i]) as int == s[i] as int + (if 65
                <= s[i] as int <= 90 {
                32int
            } else {
                0int
            }),
{
}

/// Two texts are the same up to case exactly where their lower case is.
pub proof fn law_same_up_to_case(a: Seq<char>, b: Seq<char>)
    ensures
        same_ignoring_case(a, b) <==> a.len() == b.len() && (forall|i: int|
            0 <= i < a.len() ==> #[trigger] lowered(a)[i] == lowered(b)[i]),
{
    if a.len() == b.len() && (forall|i: int|
        0 <= i < a.len() ==> #[trigger] lowered(a)[i] == lowered(b)[i]) {
        assert(lowered(a) =~= lowered(b));
    } else if same_ignoring_case(a, b) {
        assert(lowered(a).len() == a.len());
        assert(lowered(b).len() == b.len());
    }
}

/// A text contains a part exactly where it is that part with something before
/// and something behind it, and ends in it where nothing is behind.
pub proof fn law_parts(s: Seq<char>, part: Seq<char>)
    ensures
        contains_text(s, part) <==> exists|front: Seq<char>, back: Seq<char>|
            s == #[trigger] (front + part + back),
        ends_in(s, part) <==> exists|front: Seq<char>| s == #[trigger] (front + part),
{
    if contains_text(s, part) {
        let at = choose|at: int| stands_at(s, part, at);
        let front = s.take(at);
        let back = s.skip(at + part.len());
        assert(s =~= front + part + back);
    }
    if exists|front: Seq<char>, back: Seq<char>| s == #[trigger] (front + part + back) {
        let (front, back) = choose|front: Seq<char>, back: Seq<char>|
            s == #[trigger] (front + part + back);
        assert(s.subrange(front.len() as int, front.len() as int + part.len()) =~= part);
        assert(stands_at(s, part, front.len() as int));
    }
    if ends_in(s, part) {
        let front = s.take(s.len() - part.len());
        assert(s =~= front + part);
    }
    if exists|front: Seq<char>| s == #[trigger] (front + part) {
        let front = choose|front: Seq<char>| s == #[trigger] (front + part);
        assert(s.subrange(front.len() as int, s.len() as int) =~= part);
    }
}

/// A number below ten is one digit; ten times a number and a digit more is that
/// number with the digit behind it. A minus sign stands before what is negative.
pub proof fn law_decimal(n: nat, digit: nat)
    requires
        digit < 10,
    ensures
        decimal(digit) == seq![(48 + digit) as char],
        n > 0 ==> decimal(10 * n + digit) == decimal(n).push((48 + digit) as char),
        signed_decimal(n as int) == decimal(n),
        n > 0 ==> signed_decimal(-(n as int)) == seq!['-'] + decimal(n),
{
    if n > 0 {
        assert((10 * n + digit) / 10 == n);
        assert((10 * n + digit) % 10 == digit);
    }
}

/// A digit, alone or behind a sign, reads as its value.
pub proof fn law_one_digit(c: char, signed: bool, min: int, max: int)
    requires
        48 <= c as int <= 57,
    ensures
        ({
            let d = c as int - 48;
            &&& integer_of(seq![c], signed, min, max) == (if min <= d <= max {
                Some(d)
            } else {
                None
            })
            &&& integer_of(seq!['+', c], signed, min, max) == (if min <= d <= max {
                Some(d)
            } else {
                None
            })
            &&& integer_of(seq!['-', c], signed, min, max) == (if signed && min <= -d <= max {
                Some(-d)
            } else {
                None
            })
        }),
{
    let one = seq![c];
    let none = Seq::<char>::empty();
    assert(one.drop_last() =~= none);
    assert(digits_value(none) == 0);
    assert(digits_value(one) == c as int - 48);
    assert(is_digit(one[0]));
    assert(seq!['+', c].drop_first() =~= one);
    assert(seq!['-', c].drop_first() =~= one);
    assert(!is_digit(seq!['-', c][0]));
}

/// A digit behind a number makes it ten times as much and the digit more, or
/// less where it is negative; any limits apply to the result alone.
pub proof fn law_digit_appended(
    s: Seq<char>,
    c: char,
    signed: bool,
    min: int,
    max: int,
    value: int,
    new_min: int,
    new_max: int,
)
    requires
        integer_of(s, signed, min, max) == Some(value),
        48 <= c as int <= 57,
    ensures
        ({
            let longer = if s[0] == '-' {
                10 * value - (c as int - 48)
            } else {
                10 * value + (c as int - 48)
            };
            integer_of(s.push(c), signed, new_min, new_max) == (if new_min <= longer <= new_max {
                Some(longer)
            } else {
                None
            })
        }),
{
    let t = s.push(c);
    assert(t[0] == s[0]);
    assert(t.drop_last() =~= s);
    assert(t.drop_first() =~= s.drop_first().push(c));
    assert(s.drop_first().push(c).drop_last() =~= s.drop_first());
    assert(s.push(c).last() == c);
    if s[0] == '+' || s[0] == '-' {
        let digits = s.drop_first();
        assert(digits.len() > 0 ==> !is_digit(s[0]));
        assert forall|i: int| 0 <= i < digits.push(c).len() implies is_digit(
            #[trigger] digits.push(c)[i],
        ) by {
            if i < digits.len() {
                assert(is_digit(digits[i]));
            }
        }
    } else {
        assert forall|i: int| 0 <= i < t.len() implies is_digit(#[trigger] t[i]) by {
            if i < s.len() {
                assert(is_digit(s[i]));
            }
        }
    }
}

/// Only digits behind at most one sign read as a number, and only within the limits.
pub proof fn law_integer_shape(s: Seq<char>, signed: bool, min: int, max: int)
    ensures
        integer_of(s, signed, min, max) matches Some(value) ==> {
            &&& min <= value <= max
            &&& s.len() > 0
            &&& 48 <= s.last() as int <= 57
            &&& forall|i: int| 0 < i < s.len() ==> 48 <= (#[trigger] s[i]) as int <= 57
            &&& 48 <= s[0] as int <= 57 || s[0] == '+' || (signed && s[0] == '-')
        },
{
    if integer_of(s, signed, min, max) is Some {
        let digits = s.drop_first();
        if s.len() > 0 && (s[0] == '+' || (signed && s[0] == '-')) {
            assert forall|i: int| 0 < i < s.len() implies 48 <= (#[trigger] s[i]) as int <= 57 by {
                assert(is_digit(digits[i - 1]));
            }
        } else {
            assert(is_digit(s[0]));
            assert(is_digit(s[s.len() - 1]));
            assert forall|i: int| 0 < i < s.len() implies 48 <= (#[trigger] s[i]) as int <= 57 by {
                assert(is_digit(s[i]));
            }
        }
    }
}

} // verus!
