//! Text as sequences of characters: trimming, ASCII case, searching, and
//! decimal numbers in both directions.

use vstd::prelude::*;
use vstd::string::StrSliceExecFns;
use vstd::string::StringExecFns;

verus! {

broadcast use vstd::string::group_string_axioms;

/// `String::push` appends the given character.
pub assume_specification[ std::string::String::push ](s: &mut std::string::String, c: char)
    ensures
        final(s)@ == old(s)@.push(c),
;

/// The characters with the Unicode property `White_Space`.
pub open spec fn is_white_space(c: char) -> bool {
    ||| '\u{9}' <= c <= '\u{d}'
    ||| c == '\u{20}'
    ||| c == '\u{85}'
    ||| c == '\u{a0}'
    ||| c == '\u{1680}'
    ||| '\u{2000}' <= c <= '\u{200a}'
    ||| c == '\u{2028}'
    ||| c == '\u{2029}'
    ||| c == '\u{202f}'
    ||| c == '\u{205f}'
    ||| c == '\u{3000}'
}

/// A set of characters that can be stripped from the ends of a text.
#[derive(Clone, Copy)]
pub enum Margin {
    /// White space.
    White,
    /// The double quote.
    Quote,
}

/// Whether a character belongs to the margin.
pub open spec fn in_margin(c: char, margin: Margin) -> bool {
    match margin {
        Margin::White => is_white_space(c),
        Margin::Quote => c == '"',
    }
}

/// The text without the longest prefix of margin characters.
pub open spec fn strip_front(s: Seq<char>, margin: Margin) -> Seq<char>
    decreases s.len(),
{
    if s.len() > 0 && in_margin(s[0], margin) {
        strip_front(s.drop_first(), margin)
    } else {
        s
    }
}

/// The text without the longest suffix of margin characters.
pub open spec fn strip_back(s: Seq<char>, margin: Margin) -> Seq<char>
    decreases s.len(),
{
    if s.len() > 0 && in_margin(s.last(), margin) {
        strip_back(s.drop_last(), margin)
    } else {
        s
    }
}

/// The text without margin characters at either end.
pub open spec fn stripped(s: Seq<char>, margin: Margin) -> Seq<char> {
    strip_back(strip_front(s, margin), margin)
}

/// The text without white space at either end.
pub open spec fn trimmed(s: Seq<char>) -> Seq<char> {
    stripped(s, Margin::White)
}

/// Whether a character is white space.
pub fn white_space(c: char) -> (found: bool)
    ensures
        found == is_white_space(c),
{
    ('\u{9}' <= c && c <= '\u{d}') || c == '\u{20}' || c == '\u{85}' || c == '\u{a0}' || c
        == '\u{1680}' || ('\u{2000}' <= c && c <= '\u{200a}') || c == '\u{2028}' || c == '\u{2029}'
        || c == '\u{202f}' || c == '\u{205f}' || c == '\u{3000}'
}

/// The characters of a text, one by one.
pub fn chars_of(s: &str) -> (chars: Vec<char>)
    ensures
        chars@ == s@,
{
    let mut out: Vec<char> = Vec::new();
    for c in it: s.chars()
        invariant
            it.seq() == s@,
            out@ == s@.take(it.index() as int),
    {
        out.push(c);
    }
    out
}

fn margin_char(c: char, margin: Margin) -> (found: bool)
    ensures
        found == in_margin(c, margin),
{
    match margin {
        Margin::White => white_space(c),
        Margin::Quote => c == '"',
    }
}

/// The text without margin characters at either end.
pub fn strip(s: &str, margin: Margin) -> (rest: &str)
    ensures
        rest@ == stripped(s@, margin),
{
    let chars = chars_of(s);
    let len = chars.len();
    let mut start: usize = 0;
    assert(s@.skip(0) =~= s@);
    while start < len && margin_char(chars[start], margin)
        invariant
            start <= len,
            len == chars@.len(),
            chars@ == s@,
            strip_front(s@, margin) == strip_front(s@.skip(start as int), margin),
        decreases len - start,
    {
        assert(s@.skip(start as int).drop_first() =~= s@.skip(start + 1));
        start += 1;
    }
    let mut end: usize = len;
    let ghost front = s@.skip(start as int);
    assert(strip_front(s@, margin) == front);
    assert(s@.subrange(start as int, end as int) =~= front);
    while start < end && margin_char(chars[end - 1], margin)
        invariant
            start <= end <= len,
            len == chars@.len(),
            chars@ == s@,
            strip_back(front, margin) == strip_back(s@.subrange(start as int, end as int), margin),
        decreases end,
    {
        assert(s@.subrange(start as int, end as int).drop_last() =~= s@.subrange(
            start as int,
            end - 1,
        ));
        end -= 1;
    }
    s.substring_char(start, end)
}

/// The text without white space at either end.
pub fn trim(s: &str) -> (rest: &str)
    ensures
        rest@ == trimmed(s@),
{
    strip(s, Margin::White)
}

/// Stripping leaves a text alone once no margin character stands at its ends.
pub proof fn lemma_stripped_fixed(s: Seq<char>, margin: Margin)
    requires
        s.len() > 0 ==> !in_margin(s[0], margin) && !in_margin(s.last(), margin),
    ensures
        stripped(s, margin) == s,
{
}

proof fn lemma_strip_front_shape(s: Seq<char>, margin: Margin)
    ensures
        strip_front(s, margin).len() > 0 ==> !in_margin(strip_front(s, margin)[0], margin),
        strip_front(s, margin).len() > 0 ==> s.len() > 0 && strip_front(s, margin).last()
            == s.last(),
    decreases s.len(),
{
    if s.len() > 0 && in_margin(s[0], margin) {
        lemma_strip_front_shape(s.drop_first(), margin);
    }
}

proof fn lemma_strip_back_shape(s: Seq<char>, margin: Margin)
    ensures
        strip_back(s, margin).len() > 0 ==> !in_margin(strip_back(s, margin).last(), margin),
        strip_back(s, margin).len() > 0 ==> s.len() > 0 && strip_back(s, margin)[0] == s[0],
    decreases s.len(),
{
    if s.len() > 0 && in_margin(s.last(), margin) {
        lemma_strip_back_shape(s.drop_last(), margin);
    }
}

/// Stripping twice is stripping once.
pub proof fn lemma_stripped_idempotent(s: Seq<char>, margin: Margin)
    ensures
        stripped(stripped(s, margin), margin) == stripped(s, margin),
{
    let front = strip_front(s, margin);
    let both = stripped(s, margin);
    lemma_strip_front_shape(s, margin);
    lemma_strip_back_shape(front, margin);
    lemma_stripped_fixed(both, margin);
}

/// Whether a text has margin characters only.
pub open spec fn all_margin(s: Seq<char>, margin: Margin) -> bool {
    forall|i: int| 0 <= i < s.len() ==> in_margin(#[trigger] s[i], margin)
}

proof fn lemma_strip_front_all(front: Seq<char>, rest: Seq<char>, margin: Margin)
    requires
        all_margin(front, margin),
    ensures
        strip_front(front + rest, margin) == strip_front(rest, margin),
    decreases front.len(),
{
    if front.len() == 0 {
        assert(front + rest =~= rest);
    } else {
        assert((front + rest)[0] == front[0]);
        assert((front + rest).drop_first() =~= front.drop_first() + rest);
        lemma_strip_front_all(front.drop_first(), rest, margin);
    }
}

proof fn lemma_strip_back_all(rest: Seq<char>, back: Seq<char>, margin: Margin)
    requires
        all_margin(back, margin),
    ensures
        strip_back(rest + back, margin) == strip_back(rest, margin),
    decreases back.len(),
{
    if back.len() == 0 {
        assert(rest + back =~= rest);
    } else {
        assert((rest + back).last() == back.last());
        assert((rest + back).drop_last() =~= rest + back.drop_last());
        lemma_strip_back_all(rest, back.drop_last(), margin);
    }
}

/// Stripping takes off exactly the margin that stands around a text whose own
/// ends are no margin characters.
pub proof fn lemma_stripped_around(
    front: Seq<char>,
    s: Seq<char>,
    back: Seq<char>,
    margin: Margin,
)
    requires
        all_margin(front, margin),
        all_margin(back, margin),
        s.len() > 0 ==> !in_margin(s[0], margin) && !in_margin(s.last(), margin),
    ensures
        stripped(front + s + back, margin) == s,
{
    assert(front + s + back =~= front + (s + back));
    lemma_strip_front_all(front, s + back, margin);
    if s.len() == 0 {
        assert(s + back =~= back + s);
        lemma_strip_front_all(back, s, margin);
    } else {
        assert((s + back)[0] == s[0]);
        lemma_strip_back_all(s, back, margin);
    }
}

/// A character with the ASCII capitals mapped to their small letters.
pub open spec fn lower_char(c: char) -> char {
    if 'A' <= c <= 'Z' {
        (c as u32 + 32) as char
    } else {
        c
    }
}

/// The text with the ASCII capitals mapped to their small letters.
pub open spec fn lowered(s: Seq<char>) -> Seq<char> {
    Seq::new(s.len(), |i: int| lower_char(s[i]))
}

/// A character in lower case, as far as ASCII goes.
pub fn to_lower_char(c: char) -> (low: char)
    ensures
        low == lower_char(c),
{
    if 'A' <= c && c <= 'Z' {
        (c as u8 + 32) as char
    } else {
        c
    }
}

/// The text in lower case, as far as ASCII goes.
pub fn to_lower(s: &str) -> (low: String)
    ensures
        low@ == lowered(s@),
{
    let chars = chars_of(s);
    let mut out = String::new();
    for i in 0..chars.len()
        invariant
            chars@ == s@,
            out@ == lowered(s@).take(i as int),
    {
        out.push(to_lower_char(chars[i]));
        assert(lowered(s@).take(i as int).push(lowered(s@)[i as int]) =~= lowered(s@).take(i + 1));
    }
    assert(lowered(s@).take(s@.len() as int) =~= lowered(s@));
    out
}

/// Whether two texts are the same up to ASCII case.
pub open spec fn same_ignoring_case(a: Seq<char>, b: Seq<char>) -> bool {
    lowered(a) == lowered(b)
}

/// Whether two texts are the same up to ASCII case.
pub fn eq_ignore_case(a: &str, b: &str) -> (same: bool)
    ensures
        same == same_ignoring_case(a@, b@),
{
    let x = chars_of(a);
    let y = chars_of(b);
    if x.len() != y.len() {
        assert(lowered(a@).len() != lowered(b@).len());
        return false;
    }
    for i in 0..x.len()
        invariant
            x@ == a@,
            y@ == b@,
            x.len() == y.len(),
            forall|j: int| 0 <= j < i ==> lower_char(a@[j]) == lower_char(b@[j]),
    {
        if to_lower_char(x[i]) != to_lower_char(y[i]) {
            assert(lowered(a@)[i as int] != lowered(b@)[i as int]);
            return false;
        }
    }
    assert(lowered(a@) =~= lowered(b@));
    true
}

/// Whether two texts are the same.
pub fn same_text(a: &str, b: &str) -> (same: bool)
    ensures
        same == (a@ == b@),
{
    let x = chars_of(a);
    let y = chars_of(b);
    if x.len() != y.len() {
        return false;
    }
    for i in 0..x.len()
        invariant
            x@ == a@,
            y@ == b@,
            x.len() == y.len(),
            forall|j: int| 0 <= j < i ==> a@[j] == b@[j],
    {
        if x[i] != y[i] {
            return false;
        }
    }
    assert(a@ =~= b@);
    true
}

/// Whether `part` stands in `s` from position `at` on.
pub open spec fn stands_at(s: Seq<char>, part: Seq<char>, at: int) -> bool {
    &&& 0 <= at
    &&& at + part.len() <= s.len()
    &&& s.subrange(at, at + part.len()) == part
}

/// Whether `part` stands somewhere in `s`.
pub open spec fn contains_text(s: Seq<char>, part: Seq<char>) -> bool {
    exists|at: int| stands_at(s, part, at)
}

/// Whether `s` ends in `part`.
pub open spec fn ends_in(s: Seq<char>, part: Seq<char>) -> bool {
    stands_at(s, part, s.len() - part.len())
}

fn found_at(chars: &Vec<char>, part: &Vec<char>, at: usize) -> (found: bool)
    requires
        at + part.len() <= chars.len(),
    ensures
        found == stands_at(chars@, part@, at as int),
{
    for i in 0..part.len()
        invariant
            at + part.len() <= chars.len(),
            forall|j: int| 0 <= j < i ==> chars@[at + j] == part@[j],
    {
        if chars[at + i] != part[i] {
            assert(chars@.subrange(at as int, at + part@.len())[i as int] != part@[i as int]);
            return false;
        }
    }
    assert(chars@.subrange(at as int, at + part@.len()) =~= part@);
    true
}

/// Whether `part` stands somewhere in `s`.
pub fn contains(s: &str, part: &str) -> (found: bool)
    ensures
        found == contains_text(s@, part@),
{
    let chars = chars_of(s);
    let wanted = chars_of(part);
    if wanted.len() > chars.len() {
        return false;
    }
    let last = chars.len() - wanted.len();
    let mut at: usize = 0;
    while at <= last
        invariant
            at <= last + 1,
            chars@ == s@,
            wanted@ == part@,
            last == chars@.len() - wanted@.len(),
            forall|j: int| 0 <= j < at ==> !stands_at(s@, part@, j),
        decreases last + 1 - at,
    {
        if found_at(&chars, &wanted, at) {
            return true;
        }
        if at == last {
            assert(forall|j: int| stands_at(s@, part@, j) ==> 0 <= j <= last);
            return false;
        }
        at += 1;
    }
    false
}

/// The text before `part`, if `s` ends in `part`.
pub fn strip_suffix<'a>(s: &'a str, part: &str) -> (rest: Option<&'a str>)
    ensures
        match rest {
            Some(front) => ends_in(s@, part@) && front@ == s@.take(s@.len() - part@.len()),
            None => !ends_in(s@, part@),
        },
{
    let chars = chars_of(s);
    let wanted = chars_of(part);
    if wanted.len() > chars.len() {
        return None;
    }
    let at = chars.len() - wanted.len();
    if found_at(&chars, &wanted, at) {
        Some(s.substring_char(0, at))
    } else {
        None
    }
}

/// The decimal digit for a value below ten.
pub open spec fn digit_char(d: nat) -> char {
    (d + 48) as char
}

/// A number in decimal, without leading zeros.
pub open spec fn decimal(n: nat) -> Seq<char>
    decreases n,
{
    if n < 10 {
        seq![digit_char(n)]
    } else {
        decimal(n / 10).push(digit_char(n % 10))
    }
}

/// An integer in decimal, with a minus sign where it is negative.
pub open spec fn signed_decimal(n: int) -> Seq<char> {
    if n < 0 {
        seq!['-'] + decimal((-n) as nat)
    } else {
        decimal(n as nat)
    }
}

/// A number in decimal, without leading zeros.
pub fn decimal_text(n: u64) -> (text: String)
    ensures
        text@ == decimal(n as nat),
    decreases n,
{
    let mut text = if n < 10 {
        String::new()
    } else {
        decimal_text(n / 10)
    };
    let digit: u8 = (n % 10) as u8 + 48;
    text.push(digit as char);
    assert(n < 10 ==> text@ =~= decimal(n as nat));
    text
}

/// An integer in decimal, with a minus sign where it is negative.
pub fn signed_decimal_text(n: i64) -> (text: String)
    ensures
        text@ == signed_decimal(n as int),
{
    if n < 0 {
        let size: u64 = (-(n as i128)) as u64;
        let mut text = String::new();
        text.push('-');
        text.append(decimal_text(size).as_str());
        assert(text@ =~= signed_decimal(n as int));
        text
    } else {
        decimal_text(n as u64)
    }
}

/// Whether a character is a decimal digit.
pub open spec fn is_digit(c: char) -> bool {
    '0' <= c <= '9'
}

/// The value of a decimal digit.
pub open spec fn digit_value(c: char) -> int {
    c as int - 48
}

/// Whether a text consists of decimal digits.
pub open spec fn all_digits(s: Seq<char>) -> bool {
    forall|i: int| 0 <= i < s.len() ==> is_digit(#[trigger] s[i])
}

/// The value of a text of decimal digits, most significant first.
pub open spec fn digits_value(s: Seq<char>) -> int
    decreases s.len(),
{
    if s.len() == 0 {
        0
    } else {
        digits_value(s.drop_last()) * 10 + digit_value(s.last())
    }
}

/// Whether a text starts with a sign: `+` always counts, `-` where the number is signed.
pub open spec fn has_sign(s: Seq<char>, signed: bool) -> bool {
    s.len() > 0 && (s[0] == '+' || (signed && s[0] == '-'))
}

/// The integer that a text denotes: an optional sign, then at least one decimal
/// digit and nothing else, with a value in `min..=max`.
pub open spec fn integer_of(s: Seq<char>, signed: bool, min: int, max: int) -> Option<int> {
    let digits = if has_sign(s, signed) {
        s.drop_first()
    } else {
        s
    };
    let value = if has_sign(s, signed) && s[0] == '-' {
        -digits_value(digits)
    } else {
        digits_value(digits)
    };
    if digits.len() > 0 && all_digits(digits) && min <= value <= max {
        Some(value)
    } else {
        None
    }
}

proof fn lemma_digits_value_grows(s: Seq<char>, n: int)
    requires
        all_digits(s),
        0 <= n <= s.len(),
    ensures
        0 <= digits_value(s.take(n)) <= digits_value(s),
    decreases s.len(),
{
    if n < s.len() {
        assert(s.drop_last().take(n) =~= s.take(n));
        assert forall|i: int| 0 <= i < s.drop_last().len() implies is_digit(
            #[trigger] s.drop_last()[i],
        ) by {
            assert(is_digit(s[i]));
        }
        assert(is_digit(s[s.len() - 1]));
        lemma_digits_value_grows(s.drop_last(), n);
    } else {
        assert(s.take(n) =~= s);
        if s.len() > 0 {
            assert forall|i: int| 0 <= i < s.drop_last().len() implies is_digit(
                #[trigger] s.drop_last()[i],
            ) by {
                assert(is_digit(s[i]));
            }
            assert(is_digit(s[s.len() - 1]));
            lemma_digits_value_grows(s.drop_last(), n - 1);
            assert(s.drop_last().take(n - 1) =~= s.drop_last());
        }
    }
}

/// The integer that a text denotes, if it denotes one in `min..=max`.
pub fn parse_integer(s: &str, signed: bool, min: i128, max: i128) -> (value: Option<i128>)
    requires
        i64::MIN <= min,
        max <= u64::MAX,
    ensures
        match value {
            Some(v) => integer_of(s@, signed, min as int, max as int) == Some(v as int),
            None => integer_of(s@, signed, min as int, max as int) is None,
        },
{
    let chars = chars_of(s);
    let sign = chars.len() > 0 && (chars[0] == '+' || (signed && chars[0] == '-'));
    let start: usize = if sign {
        1
    } else {
        0
    };
    let ghost digits = if sign {
        s@.drop_first()
    } else {
        s@
    };
    assert(digits =~= s@.skip(start as int));
    if chars.len() == start {
        return None;
    }
    let mut total: i128 = 0;
    let mut i: usize = start;
    while i < chars.len()
        invariant
            start <= i <= chars.len(),
            chars@ == s@,
            digits == s@.skip(start as int),
            sign == has_sign(s@, signed),
            digits == (if sign {
                s@.drop_first()
            } else {
                s@
            }),
            start == (if sign {
                1int
            } else {
                0int
            }),
            0 <= total <= 0x1_0000_0000_0000_0000,
            total == digits_value(digits.take(i - start)),
            forall|j: int| 0 <= j < i - start ==> is_digit(#[trigger] digits[j]),
            i64::MIN <= min,
            max <= u64::MAX,
        decreases chars.len() - i,
    {
        let c = chars[i];
        assert(digits[i - start] == c);
        if c < '0' || '9' < c {
            return None;
        }
        let digit: u8 = c as u8 - 48;
        total = total * 10 + digit as i128;
        i += 1;
        assert(digits.take(i - start).drop_last() =~= digits.take(i - start - 1));
        if total > 0x1_0000_0000_0000_0000 {
            proof {
                if all_digits(digits) {
                    lemma_digits_value_grows(digits, i - start);
                }
            }
            return None;
        }
    }
    assert(digits.take(digits.len() as int) =~= digits);
    let value: i128 = if sign && chars[0] == '-' {
        -total
    } else {
        total
    };
    if min <= value && value <= max {
        Some(value)
    } else {
        None
    }
}

proof fn lemma_decimal_digits(n: nat)
    ensures
        decimal(n).len() > 0,
        all_digits(decimal(n)),
        digits_value(decimal(n)) == n,
    decreases n,
{
    if n < 10 {
        assert(decimal(n).drop_last() =~= Seq::<char>::empty());
        assert(digits_value(Seq::<char>::empty()) == 0);
    } else {
        lemma_decimal_digits(n / 10);
        assert(decimal(n).drop_last() =~= decimal(n / 10));
        assert forall|i: int| 0 <= i < decimal(n).len() implies is_digit(
            #[trigger] decimal(n)[i],
        ) by {
            if i < decimal(n / 10).len() {
                assert(is_digit(decimal(n / 10)[i]));
            }
        }
    }
}

/// Reading a number that was written in decimal gives the number back.
pub proof fn lemma_decimal_round_trip(n: int, signed: bool, min: int, max: int)
    requires
        min <= n <= max,
        n < 0 ==> signed,
    ensures
        integer_of(signed_decimal(n), signed, min, max) == Some(n),
{
    if n < 0 {
        lemma_decimal_digits((-n) as nat);
        assert(signed_decimal(n).drop_first() =~= decimal((-n) as nat));
    } else {
        lemma_decimal_digits(n as nat);
        assert(is_digit(decimal(n as nat)[0]));
    }
}

/// A number in decimal has no white space at its ends.
pub proof fn lemma_decimal_trimmed(n: int)
    ensures
        trimmed(signed_decimal(n)) == signed_decimal(n),
{
    let digits = decimal(if n < 0 {
        -n
    } else {
        n
    } as nat);
    lemma_decimal_digits(if n < 0 {
        -n
    } else {
        n
    } as nat);
    assert(is_digit(digits[0]));
    assert(is_digit(digits[digits.len() - 1]));
    lemma_stripped_fixed(signed_decimal(n), Margin::White);
}

} // verus!
