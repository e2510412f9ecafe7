//! The power of a message, told without attempts.

use crate::json::{json_document, JsonTree};
use crate::power::{
    document_attempts, first_power, json_attempts, member_attempts, payload_attempts, place,
    text_attempts, AttemptView, PowerUnit,
};
use crate::text::{
    all_margin, ends_in, in_margin, lemma_stripped_around, lower_char, lowered, stripped, trimmed,
    Margin,
};
use vstd::prelude::*;
use vstd::utf8::{decode_utf8, valid_utf8};

verus! {

/// How texts read as doubles in kilowatts.
pub type Reader = spec_fn(Seq<char>, PowerUnit) -> Option<u64>;

/// What a text reads as: a number, or a number with a unit behind it.
pub open spec fn text_power(raw: Seq<char>, read: Reader) -> Option<u64> {
    let plain = stripped(trimmed(raw), Margin::Quote);
    let lower = lowered(plain);
    if read(plain, PowerUnit::Kilowatt) is Some {
        read(plain, PowerUnit::Kilowatt)
    } else if ends_in(lower, "kw"@) {
        read(trimmed(lower.take(lower.len() - 2)), PowerUnit::Kilowatt)
    } else if ends_in(lower, "w"@) {
        read(trimmed(lower.take(lower.len() - 1)), PowerUnit::Watt)
    } else {
        None
    }
}

/// The first of two that is there.
pub open spec fn either(first: Option<u64>, second: Option<u64>) -> Option<u64> {
    if first is Some {
        first
    } else {
        second
    }
}

/// The power of a member, none where there is no such member.
pub open spec fn member_power(
    members: Seq<(Seq<char>, JsonTree)>,
    name: Seq<char>,
    read: Reader,
) -> Option<u64>
    decreases members,
{
    let i = place(members, name) as int;
    if i < members.len() {
        proof {
            assert(decreases_to!(members => members[i]));
            assert(decreases_to!(members[i] => members[i].1));
        }
        json_power(members[i].1, read)
    } else {
        None
    }
}

/// The power of a JSON value.
pub open spec fn json_power(json: JsonTree, read: Reader) -> Option<u64>
    decreases json,
{
    match json {
        JsonTree::Number(n) => n,
        JsonTree::Text(s) => text_power(s, read),
        JsonTree::Object(members) => either(
            member_power(members, "state"@, read),
            either(
                member_power(members, "value"@, read),
                either(
                    member_power(members, "power_kw"@, read),
                    either(
                        member_power(members, "power"@, read),
                        either(
                            member_power(members, "returned"@, read),
                            member_power(members, "surplus_kw"@, read),
                        ),
                    ),
                ),
            ),
        ),
        JsonTree::Other => None,
    }
}

/// The power of a payload: that of its text, or else that of the JSON document
/// that it is.
pub open spec fn payload_power(payload: Seq<u8>, read: Reader) -> Option<u64> {
    if !valid_utf8(payload) {
        None
    } else {
        let raw = trimmed(decode_utf8(payload));
        either(
            text_power(raw, read),
            match json_document(raw) {
                Some(json) => json_power(json, read),
                None => None,
            },
        )
    }
}

/// What the texts of the attempts read as.
pub open spec fn read_texts(attempts: Seq<AttemptView>, read: Reader) -> Seq<Option<u64>> {
    attempts.map_values(
        |a: AttemptView|
            match a {
                AttemptView::Number(bits) => None,
                AttemptView::Text(text, unit) => read(text, unit),
            },
    )
}

/// The power that the attempts give.
pub open spec fn attempted_power(attempts: Seq<AttemptView>, read: Reader) -> Option<u64> {
    first_power(attempts, read_texts(attempts, read))
}

proof fn lemma_attempts_joined(a: Seq<AttemptView>, b: Seq<AttemptView>, read: Reader)
    ensures
        attempted_power(a + b, read) == either(attempted_power(a, read), attempted_power(b, read)),
    decreases a.len(),
{
    if a.len() == 0 {
        assert(a + b =~= b);
    } else {
        lemma_attempts_joined(a.drop_first(), b, read);
        assert((a + b)[0] == a[0]);
        assert((a + b).drop_first() =~= a.drop_first() + b);
        assert(read_texts(a, read).drop_first() =~= read_texts(a.drop_first(), read));
        assert(read_texts(a + b, read).drop_first() =~= read_texts(a.drop_first() + b, read));
    }
}

/// However texts read as numbers, the first attempt at a text that gives a power
/// gives the power of the text.
pub proof fn law_text_attempts_give_power(raw: Seq<char>, read: Reader)
    ensures
        attempted_power(text_attempts(raw), read) == text_power(raw, read),
{
    let attempts = text_attempts(raw);
    let rest = attempts.drop_first();
    assert(read_texts(attempts, read).drop_first() =~= read_texts(rest, read));
    assert(first_power(attempts, read_texts(attempts, read)) == either(
        read(stripped(trimmed(raw), Margin::Quote), PowerUnit::Kilowatt),
        first_power(rest, read_texts(rest, read)),
    ));
    if rest.len() > 0 {
        assert(rest.drop_first().len() == 0);
        assert(first_power(rest.drop_first(), read_texts(rest, read).drop_first()) is None);
    }
}

proof fn lemma_member_power(
    members: Seq<(Seq<char>, JsonTree)>,
    name: Seq<char>,
    read: Reader,
)
    ensures
        attempted_power(member_attempts(members, name), read) == member_power(members, name, read),
    decreases members,
{
    let i = place(members, name) as int;
    if i < members.len() {
        assert(decreases_to!(members => members[i]));
        assert(decreases_to!(members[i] => members[i].1));
        lemma_json_power(members[i].1, read);
    }
}

proof fn lemma_json_power(json: JsonTree, read: Reader)
    ensures
        attempted_power(json_attempts(json), read) == json_power(json, read),
    decreases json,
{
    match json {
        JsonTree::Number(n) => {},
        JsonTree::Text(s) => {
            law_text_attempts_give_power(s, read);
        },
        JsonTree::Object(members) => {
            assert(decreases_to!(json => json->Object_0));
            lemma_member_power(members, "state"@, read);
            lemma_member_power(members, "value"@, read);
            lemma_member_power(members, "power_kw"@, read);
            lemma_member_power(members, "power"@, read);
            lemma_member_power(members, "returned"@, read);
            lemma_member_power(members, "surplus_kw"@, read);
            let a = member_attempts(members, "state"@);
            let b = a + member_attempts(members, "value"@);
            let c = b + member_attempts(members, "power_kw"@);
            let d = c + member_attempts(members, "power"@);
            let e = d + member_attempts(members, "returned"@);
            lemma_attempts_joined(a, member_attempts(members, "value"@), read);
            lemma_attempts_joined(b, member_attempts(members, "power_kw"@), read);
            lemma_attempts_joined(c, member_attempts(members, "power"@), read);
            lemma_attempts_joined(d, member_attempts(members, "returned"@), read);
            lemma_attempts_joined(e, member_attempts(members, "surplus_kw"@), read);
        },
        JsonTree::Other => {},
    }
}

/// However texts read as numbers, the first attempt at a payload that gives a
/// power gives the power of the payload.
pub proof fn law_first_attempt_is_power(payload: Seq<u8>, read: Reader)
    ensures
        attempted_power(payload_attempts(payload), read) == payload_power(payload, read),
{
    if valid_utf8(payload) {
        let raw = trimmed(decode_utf8(payload));
        law_text_attempts_give_power(raw, read);
        match json_document(raw) {
            Some(json) => {
                lemma_json_power(json, read);
                lemma_attempts_joined(text_attempts(raw), json_attempts(json), read);
            },
            None => {},
        }
        assert(payload_attempts(payload) == document_attempts(raw, json_document(raw)));
    }
}

/// Whether neither white space nor a quote stands at an end of a text.
pub open spec fn bare(s: Seq<char>) -> bool {
    s.len() > 0 ==> {
        &&& !in_margin(s[0], Margin::White) && !in_margin(s[0], Margin::Quote)
        &&& !in_margin(s.last(), Margin::White) && !in_margin(s.last(), Margin::Quote)
    }
}

/// White space around a text, and quotes inside that.
pub struct Frame {
    pub white_before: Seq<char>,
    pub quotes_before: Seq<char>,
    pub quotes_after: Seq<char>,
    pub white_after: Seq<char>,
}

impl Frame {
    /// Whether the frame is made of white space and quotes.
    pub open spec fn wf(self) -> bool {
        &&& all_margin(self.white_before, Margin::White)
        &&& all_margin(self.quotes_before, Margin::Quote)
        &&& all_margin(self.quotes_after, Margin::Quote)
        &&& all_margin(self.white_after, Margin::White)
    }

    /// A text with the frame around it.
    pub open spec fn around(self, s: Seq<char>) -> Seq<char> {
        self.white_before + (self.quotes_before + s + self.quotes_after) + self.white_after
    }
}

/// White space around a text, and quotes inside that, make no difference to
/// the attempts at it, and so none to its power.
pub proof fn law_frame_makes_no_difference(frame: Frame, s: Seq<char>, read: Reader)
    requires
        frame.wf(),
        bare(s),
    ensures
        stripped(trimmed(frame.around(s)), Margin::Quote) == s,
        text_attempts(frame.around(s)) == text_attempts(s),
        text_power(frame.around(s), read) == text_power(s, read),
{
    let inner = frame.quotes_before + s + frame.quotes_after;
    lemma_stripped_around(frame.white_before, inner, frame.white_after, Margin::White);
    lemma_stripped_around(frame.quotes_before, s, frame.quotes_after, Margin::Quote);
    let none = Seq::<char>::empty();
    assert(none + s + none =~= s);
    lemma_stripped_around(none, s, none, Margin::White);
    lemma_stripped_around(none, s, none, Margin::Quote);
}

proof fn lemma_before_unit(x: Seq<char>, gap: Seq<char>, unit: Seq<char>)
    requires
        x.len() > 0,
        bare(x),
        all_margin(gap, Margin::White),
    ensures
        ({
            let lower = lowered(x + gap + unit);
            &&& trimmed(lower.take(lower.len() - unit.len())) == lowered(x)
            &&& lower.skip(lower.len() - unit.len()) == lowered(unit)
        }),
{
    let lower = lowered(x + gap + unit);
    let none = Seq::<char>::empty();
    assert(lower.take(lower.len() - unit.len()) =~= none + lowered(x) + gap);
    assert(lower.skip(lower.len() - unit.len()) =~= lowered(unit));
    lemma_stripped_around(none, lowered(x), gap, Margin::White);
}

/// A number with `kw` behind it, in any letter case and after any white space,
/// is that number in kilowatts. It is read in small letters.
pub proof fn law_kilowatts_behind_number(
    x: Seq<char>,
    gap: Seq<char>,
    unit: Seq<char>,
    read: Reader,
)
    requires
        x.len() > 0,
        bare(x),
        all_margin(gap, Margin::White),
        lowered(unit) == "kw"@,
        read(x + gap + unit, PowerUnit::Kilowatt) is None,
    ensures
        bare(x + gap + unit),
        text_power(x + gap + unit, read) == read(lowered(x), PowerUnit::Kilowatt),
{
    reveal_strlit("kw");
    let whole = x + gap + unit;
    let lower = lowered(whole);
    let none = Seq::<char>::empty();
    assert(lowered(unit).len() == unit.len());
    assert(lowered(unit)[1] == lower_char(unit[1]));
    assert(whole.last() == unit[1]);
    assert(none + whole + none =~= whole);
    lemma_stripped_around(none, whole, none, Margin::White);
    lemma_stripped_around(none, whole, none, Margin::Quote);
    lemma_before_unit(x, gap, unit);
    assert(lower.subrange(lower.len() - 2, lower.len() as int) =~= lower.skip(lower.len() - 2));
}

/// A number with `w` behind it, in any letter case and after any white space,
/// is that number in watts. It is read in small letters. A `k` at its end would
/// belong to the unit.
pub proof fn law_watts_behind_number(x: Seq<char>, gap: Seq<char>, unit: Seq<char>, read: Reader)
    requires
        x.len() > 0,
        bare(x),
        gap.len() == 0 ==> lower_char(x.last()) != 'k',
        all_margin(gap, Margin::White),
        lowered(unit) == "w"@,
        read(x + gap + unit, PowerUnit::Kilowatt) is None,
    ensures
        bare(x + gap + unit),
        text_power(x + gap + unit, read) == read(lowered(x), PowerUnit::Watt),
{
    reveal_strlit("w");
    reveal_strlit("kw");
    let whole = x + gap + unit;
    let lower = lowered(whole);
    let none = Seq::<char>::empty();
    assert(lowered(unit).len() == unit.len());
    assert(lowered(unit)[0] == lower_char(unit[0]));
    assert(whole.last() == unit[0]);
    assert(none + whole + none =~= whole);
    lemma_stripped_around(none, whole, none, Margin::White);
    lemma_stripped_around(none, whole, none, Margin::Quote);
    lemma_before_unit(x, gap, unit);
    assert(lower.subrange(lower.len() - 1, lower.len() as int) =~= lower.skip(lower.len() - 1));
    let before = whole[whole.len() - 2];
    if gap.len() == 0 {
        assert(before == x.last());
    } else {
        assert(before == gap.last());
        assert(in_margin(gap[gap.len() - 1], Margin::White));
    }
    assert(lower[lower.len() - 2] == lower_char(before));
    if ends_in(lower, "kw"@) {
        assert(lower.subrange(lower.len() - 2, lower.len() as int)[0] == "kw"@[0]);
    }
}

/// A unit without a number has no power.
pub proof fn law_unit_alone_has_no_power(unit: Seq<char>, read: Reader)
    requires
        lowered(unit) == "kw"@ || lowered(unit) == "w"@,
        read(unit, PowerUnit::Kilowatt) is None,
        read(Seq::empty(), PowerUnit::Kilowatt) is None,
        read(Seq::empty(), PowerUnit::Watt) is None,
    ensures
        bare(unit),
        text_power(unit, read) is None,
{
    reveal_strlit("w");
    reveal_strlit("kw");
    let none = Seq::<char>::empty();
    let lower = lowered(unit);
    assert(lower.len() == unit.len());
    assert(lower[0] == lower_char(unit[0]));
    assert(lower.last() == lower_char(unit.last()));
    assert(none + unit + none =~= unit);
    lemma_stripped_around(none, unit, none, Margin::White);
    lemma_stripped_around(none, unit, none, Margin::Quote);
    assert(lower.subrange(0, lower.len() as int) =~= lower);
    assert(lower.take(0) =~= none);
    assert(trimmed(none) =~= none);
}

/// What is taken of reading numbers: in watts it gives the thousandth of what
/// it gives in kilowatts, letter case makes no difference to it, and it reads
/// neither nothing, nor a text with white space or a quote at an end, nor one
/// that ends in the letter k or w.
pub open spec fn reads_numbers(read: Reader, thousandth: spec_fn(u64) -> u64) -> bool {
    forall|s: Seq<char>|
        {
            &&& #[trigger] read(s, PowerUnit::Watt) == (match read(s, PowerUnit::Kilowatt) {
                Some(power) => Some(thousandth(power)),
                None => None,
            })
            &&& read(lowered(s), PowerUnit::Kilowatt) == read(s, PowerUnit::Kilowatt)
            &&& read(s, PowerUnit::Kilowatt) is Some ==> {
                &&& s.len() > 0
                &&& bare(s)
                &&& lower_char(s.last()) != 'k'
                &&& lower_char(s.last()) != 'w'
            }
        }
}

/// A number has the same power with and without a unit for kilowatts behind
/// it, and a thousandth of it with one for watts, whatever white space stands
/// before the unit, and whatever white space and quotes stand around it all;
/// the units alone have none.
pub proof fn law_unit_gap_and_frame(
    x: Seq<char>,
    gap: Seq<char>,
    kilowatts: Seq<char>,
    watts: Seq<char>,
    frame: Frame,
    power: u64,
    read: Reader,
    thousandth: spec_fn(u64) -> u64,
)
    requires
        reads_numbers(read, thousandth),
        read(x, PowerUnit::Kilowatt) == Some(power),
        all_margin(gap, Margin::White),
        lowered(kilowatts) == "kw"@,
        lowered(watts) == "w"@,
        frame.wf(),
    ensures
        attempted_power(text_attempts(frame.around(x)), read) == Some(power),
        attempted_power(text_attempts(frame.around(x + gap + kilowatts)), read) == Some(power),
        attempted_power(text_attempts(frame.around(x + gap + watts)), read) == Some(
            thousandth(power),
        ),
        attempted_power(text_attempts(frame.around(kilowatts)), read) is None,
        attempted_power(text_attempts(frame.around(watts)), read) is None,
{
    reveal_strlit("kw");
    reveal_strlit("w");
    let none = Seq::<char>::empty();
    let with_kilowatts = x + gap + kilowatts;
    let with_watts = x + gap + watts;
    assert(lowered(kilowatts)[1] == lower_char(kilowatts[1]));
    assert(lowered(watts)[0] == lower_char(watts[0]));
    assert(with_kilowatts.last() == kilowatts[1]);
    assert(with_watts.last() == watts[0]);
    assert(read(x, PowerUnit::Watt) == Some(thousandth(power)));
    assert(read(lowered(x), PowerUnit::Watt) == Some(thousandth(power)));
    assert(read(with_kilowatts, PowerUnit::Watt) is None);
    assert(read(with_watts, PowerUnit::Watt) is None);
    assert(read(kilowatts, PowerUnit::Watt) is None);
    assert(read(watts, PowerUnit::Watt) is None);
    assert(read(none, PowerUnit::Watt) is None);
    law_kilowatts_behind_number(x, gap, kilowatts, read);
    law_watts_behind_number(x, gap, watts, read);
    law_unit_alone_has_no_power(kilowatts, read);
    law_unit_alone_has_no_power(watts, read);
    law_frame_makes_no_difference(frame, x, read);
    law_frame_makes_no_difference(frame, with_kilowatts, read);
    law_frame_makes_no_difference(frame, with_watts, read);
    law_frame_makes_no_difference(frame, kilowatts, read);
    law_frame_makes_no_difference(frame, watts, read);
    law_text_attempts_give_power(frame.around(x), read);
    law_text_attempts_give_power(frame.around(with_kilowatts), read);
    law_text_attempts_give_power(frame.around(with_watts), read);
    law_text_attempts_give_power(frame.around(kilowatts), read);
    law_text_attempts_give_power(frame.around(watts), read);
}

} // verus!
