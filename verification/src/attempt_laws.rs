//! Which attempts at a power are made, and in which order.

use crate::json::{json_document, tree, Json, JsonTree};
use crate::power::{
    attempts_view, document_attempts, first_power, json_attempts, member_attempts,
    payload_attempts, place, text_attempts, AttemptView, PowerAttempt, PowerUnit,
};
use crate::text::{ends_in, lowered, stripped, trimmed, Margin};
use vstd::prelude::*;
use vstd::utf8::{decode_utf8, valid_utf8};

verus! {

proof fn lemma_unit_at_end(lower: Seq<char>, number: Seq<char>)
    ensures
        ends_in(lower, "kw"@) ==> ends_in(lower, "w"@),
        ends_in(lower, "w"@) <==> lower.len() > 0 && lower.last() == 'w',
        lower == number + "kw"@ ==> ends_in(lower, "kw"@) && lower.take(lower.len() - 2) == number,
        lower == number + "w"@ ==> ends_in(lower, "w"@) && lower.take(lower.len() - 1) == number,
        lower == number + "w"@ && ends_in(lower, "kw"@) ==> number.len() > 0 && number.last()
            == 'k',
{
    reveal_strlit("kw");
    reveal_strlit("w");
    let len = lower.len() as int;
    if ends_in(lower, "kw"@) {
        assert(lower.subrange(len - 2, len)[1] == 'w');
        assert(lower.subrange(len - 2, len)[0] == 'k');
    }
    if len > 0 {
        let end = lower.subrange(len - 1, len);
        assert(end[0] == lower.last());
        if lower.last() == 'w' {
            assert(end =~= "w"@);
        }
    }
    if lower == number + "kw"@ {
        assert(lower.subrange(len - 2, len) =~= "kw"@);
        assert(lower.take(len - 2) =~= number);
    }
    if lower == number + "w"@ {
        assert(lower.subrange(len - 1, len) =~= "w"@);
        assert(lower.take(len - 1) =~= number);
    }
}

/// The first attempt at a text is the text itself in kilowatts, without white
/// space at its ends and quotes inside that. There is a second exactly where
/// its lower case ends in `w`: the part before `kw` in kilowatts, or else the
/// part before `w` in watts, without white space at its ends.
pub proof fn law_attempts_at_text(raw: Seq<char>, number: Seq<char>)
    ensures
        ({
            let plain = stripped(trimmed(raw), Margin::Quote);
            let attempts = text_attempts(raw);
            &&& 1 <= attempts.len() <= 2
            &&& attempts[0] == AttemptView::Text(plain, PowerUnit::Kilowatt)
            &&& attempts.len() == 2 <==> plain.len() > 0 && lowered(plain).last() == 'w'
            &&& lowered(plain) == number + "kw"@ ==> attempts[1] == AttemptView::Text(
                trimmed(number),
                PowerUnit::Kilowatt,
            )
            &&& lowered(plain) == number + "w"@ && !(number.len() > 0 && number.last() == 'k')
                ==> attempts[1] == AttemptView::Text(trimmed(number), PowerUnit::Watt)
        }),
{
    let lower = lowered(stripped(trimmed(raw), Margin::Quote));
    lemma_unit_at_end(lower, number);
}

/// A number is attempted as it is, a text as a text, and null, a boolean or an
/// array not at all.
pub proof fn law_attempts_at_leaves(bits: u64, s: Seq<char>)
    ensures
        json_attempts(JsonTree::Number(Some(bits))) == seq![AttemptView::Number(bits)],
        json_attempts(JsonTree::Number(None)).len() == 0,
        json_attempts(JsonTree::Text(s)) == text_attempts(s),
        json_attempts(JsonTree::Other).len() == 0,
{
}

/// A name is looked up at the first member that has it.
pub proof fn law_first_member(members: Seq<(Seq<char>, JsonTree)>, name: Seq<char>)
    ensures
        place(members, name) <= members.len(),
        place(members, name) < members.len() ==> members[place(members, name) as int].0 == name,
        forall|i: int| 0 <= i < place(members, name) ==> (#[trigger] members[i]).0 != name,
    decreases members.len(),
{
    if members.len() > 0 && members[0].0 != name {
        let rest = members.drop_first();
        law_first_member(rest, name);
        assert forall|i: int| 0 <= i < place(members, name) implies (#[trigger] members[i]).0
            != name by {
            if i > 0 {
                assert(members[i] == rest[i - 1]);
            }
        }
    }
}

/// The attempts at a member are those at its value, none where no member has
/// the name.
pub proof fn law_attempts_at_member(
    members: Seq<(Seq<char>, JsonTree)>,
    name: Seq<char>,
    i: int,
)
    ensures
        0 <= i < members.len() && members[i].0 == name && (forall|k: int|
            0 <= k < i ==> (#[trigger] members[k]).0 != name) ==> member_attempts(members, name)
            == json_attempts(members[i].1),
        (forall|k: int| 0 <= k < members.len() ==> (#[trigger] members[k]).0 != name)
            ==> member_attempts(members, name).len() == 0,
{
    law_first_member(members, name);
    let p = place(members, name) as int;
    if 0 <= i < members.len() && members[i].0 == name && (forall|k: int|
        0 <= k < i ==> (#[trigger] members[k]).0 != name) {
        if p < i {
            assert(members[p].0 != name);
        }
        if i < p {
            assert(members[i].0 != name);
        }
    }
}

/// Of an object six members are tried, one after the other: the attempts at
/// `state` come first, those at `surplus_kw` last, and there are no others.
pub proof fn law_attempts_at_object(members: Seq<(Seq<char>, JsonTree)>)
    ensures
        ({
            let all = json_attempts(JsonTree::Object(members));
            let a = member_attempts(members, "state"@).len() as int;
            let b = a + member_attempts(members, "value"@).len();
            let c = b + member_attempts(members, "power_kw"@).len();
            let d = c + member_attempts(members, "power"@).len();
            let e = d + member_attempts(members, "returned"@).len();
            let f = e + member_attempts(members, "surplus_kw"@).len();
            &&& all.len() == f
            &&& all.subrange(0, a) == member_attempts(members, "state"@)
            &&& all.subrange(a, b) == member_attempts(members, "value"@)
            &&& all.subrange(b, c) == member_attempts(members, "power_kw"@)
            &&& all.subrange(c, d) == member_attempts(members, "power"@)
            &&& all.subrange(d, e) == member_attempts(members, "returned"@)
            &&& all.subrange(e, f) == member_attempts(members, "surplus_kw"@)
        }),
{
    let all = json_attempts(JsonTree::Object(members));
    let a = member_attempts(members, "state"@).len() as int;
    let b = a + member_attempts(members, "value"@).len();
    let c = b + member_attempts(members, "power_kw"@).len();
    let d = c + member_attempts(members, "power"@).len();
    let e = d + member_attempts(members, "returned"@).len();
    let f = e + member_attempts(members, "surplus_kw"@).len();
    assert(all.subrange(0, a) =~= member_attempts(members, "state"@));
    assert(all.subrange(a, b) =~= member_attempts(members, "value"@));
    assert(all.subrange(b, c) =~= member_attempts(members, "power_kw"@));
    assert(all.subrange(c, d) =~= member_attempts(members, "power"@));
    assert(all.subrange(d, e) =~= member_attempts(members, "returned"@));
    assert(all.subrange(e, f) =~= member_attempts(members, "surplus_kw"@));
}

/// The attempts at a document come behind those at its text, and there are no
/// attempts at what is no UTF-8.
pub proof fn law_attempts_at_payload(payload: Seq<u8>)
    ensures
        ({
            let raw = trimmed(decode_utf8(payload));
            let attempts = payload_attempts(payload);
            &&& !valid_utf8(payload) ==> attempts.len() == 0
            &&& valid_utf8(payload) && json_document(raw) is None ==> attempts == text_attempts(raw)
            &&& valid_utf8(payload) && json_document(raw) is Some ==> attempts == text_attempts(raw)
                + json_attempts(json_document(raw)->0)
            &&& valid_utf8(payload) ==> attempts == document_attempts(raw, json_document(raw))
        }),
{
}

/// The power is that of the first attempt which gives one: a number gives
/// itself, and a text what it reads as.
pub proof fn law_first_that_reads(
    attempts: Seq<AttemptView>,
    texts: Seq<Option<u64>>,
    i: int,
)
    requires
        texts.len() == attempts.len(),
        0 <= i <= attempts.len(),
        forall|k: int| 0 <= k < i ==> (#[trigger] attempts[k]) is Text && texts[k] is None,
        i < attempts.len() ==> attempts[i] is Number || texts[i] is Some,
    ensures
        i == attempts.len() ==> first_power(attempts, texts) is None,
        i < attempts.len() && attempts[i] is Number ==> first_power(attempts, texts) == Some(
            attempts[i]->Number_0,
        ),
        i < attempts.len() && attempts[i] is Text ==> first_power(attempts, texts) == texts[i],
    decreases attempts.len(),
{
    if i > 0 {
        assert(attempts[0] is Text && texts[0] is None);
        let rest = attempts.drop_first();
        let rest_texts = texts.drop_first();
        assert forall|k: int| 0 <= k < i - 1 implies (#[trigger] rest[k]) is Text && rest_texts[k]
            is None by {
            assert(rest[k] == attempts[k + 1]);
        }
        law_first_that_reads(rest, rest_texts, i - 1);
    }
}

/// A list of attempts is seen attempt by attempt.
pub proof fn law_attempt_lists_seen(attempts: Seq<PowerAttempt>)
    ensures
        attempts_view(attempts).len() == attempts.len(),
        forall|i: int|
            0 <= i < attempts.len() ==> #[trigger] attempts_view(attempts)[i] == attempts[i]@,
{
}

/// Attempts and JSON values are seen as they are.
pub proof fn law_attempts_seen(attempt: PowerAttempt, json: Json)
    ensures
        match attempt {
            PowerAttempt::Number(bits) => attempt@ == AttemptView::Number(bits),
            PowerAttempt::Text(text, unit) => attempt@ == AttemptView::Text(text@, unit),
        },
        match json {
            Json::Number(n) => tree(json) == JsonTree::Number(n),
            Json::Text(s) => tree(json) == JsonTree::Text(s@),
            Json::Object(members) => {
                &&& tree(json) is Object
                &&& tree(json)->Object_0.len() == members@.len()
                &&& forall|i: int|
                    0 <= i < members@.len() ==> (#[trigger] tree(json)->Object_0[i]) == (
                        members@[i].0@,
                        tree(members@[i].1),
                    )
            },
            Json::Other => tree(json) == JsonTree::Other,
        },
{
}

} // verus!
