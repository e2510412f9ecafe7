//! The power in a message. What a text reads as is left open here: these
//! functions give the attempts at a number that are made, in their order, and
//! then pick the first that gave one.

use crate::bytes::text_from_utf8;
use crate::json::{json_document, parse_json, tree, Json, JsonTree};
use crate::text::{
    ends_in, lowered, same_text, strip, strip_suffix, stripped, to_lower, trim, trimmed, Margin,
};
use vstd::prelude::*;
use vstd::utf8::{decode_utf8, valid_utf8};

verus! {

broadcast use vstd::string::group_string_axioms;

/// The unit in which a power is given.
#[derive(Debug, Clone, Copy, PartialEq, Eq, Structural)]
pub enum PowerUnit {
    Kilowatt,
    /// A thousandth of a kilowatt.
    Watt,
}

/// An attempt at a power.
#[derive(Debug, PartialEq, Eq)]
pub enum PowerAttempt {
    /// A double, in kilowatts.
    Number(u64),
    /// A text that is read as a double, in the given unit.
    Text(String, PowerUnit),
}

/// An attempt at a power.
pub enum AttemptView {
    Number(u64),
    Text(Seq<char>, PowerUnit),
}

impl View for PowerAttempt {
    type V = AttemptView;

    open spec fn view(&self) -> AttemptView {
        match self {
            PowerAttempt::Number(bits) => AttemptView::Number(*bits),
            PowerAttempt::Text(text, unit) => AttemptView::Text(text@, *unit),
        }
    }
}

/// The attempts that a list holds.
pub open spec fn attempts_view(attempts: Seq<PowerAttempt>) -> Seq<AttemptView> {
    attempts.map_values(|a: PowerAttempt| a@)
}

/// The attempts at a text: the text without white space and quotes at its
/// ends, in kilowatts, and the part before a unit, in that unit.
pub open spec fn text_attempts(raw: Seq<char>) -> Seq<AttemptView> {
    let plain = stripped(trimmed(raw), Margin::Quote);
    let lower = lowered(plain);
    let whole = seq![AttemptView::Text(plain, PowerUnit::Kilowatt)];
    if ends_in(lower, "kw"@) {
        whole.push(AttemptView::Text(trimmed(lower.take(lower.len() - 2)), PowerUnit::Kilowatt))
    } else if ends_in(lower, "w"@) {
        whole.push(AttemptView::Text(trimmed(lower.take(lower.len() - 1)), PowerUnit::Watt))
    } else {
        whole
    }
}

/// How many members stand before the first of a name.
pub open spec fn place(members: Seq<(Seq<char>, JsonTree)>, name: Seq<char>) -> nat
    decreases members.len(),
{
    if members.len() == 0 || members[0].0 == name {
        0
    } else {
        1 + place(members.drop_first(), name)
    }
}

/// The attempts at the member of a name, none where there is no such member.
pub open spec fn member_attempts(
    members: Seq<(Seq<char>, JsonTree)>,
    name: Seq<char>,
) -> Seq<AttemptView>
    decreases members,
{
    let i = place(members, name) as int;
    if i < members.len() {
        proof {
            assert(decreases_to!(members => members[i]));
            assert(decreases_to!(members[i] => members[i].1));
        }
        json_attempts(members[i].1)
    } else {
        Seq::empty()
    }
}

/// The attempts at a JSON value. Of an object some members are tried, in a
/// fixed order.
pub open spec fn json_attempts(json: JsonTree) -> Seq<AttemptView>
    decreases json,
{
    match json {
        JsonTree::Number(Some(bits)) => seq![AttemptView::Number(bits)],
        JsonTree::Text(s) => text_attempts(s),
        JsonTree::Object(members) => member_attempts(members, "state"@) + member_attempts(
            members,
            "value"@,
        ) + member_attempts(members, "power_kw"@) + member_attempts(members, "power"@)
            + member_attempts(members, "returned"@) + member_attempts(members, "surplus_kw"@),
        _ => Seq::empty(),
    }
}

/// The attempts at a text that may be a JSON document: first at the text
/// itself, then at the document.
pub open spec fn document_attempts(raw: Seq<char>, document: Option<JsonTree>) -> Seq<AttemptView> {
    match document {
        Some(json) => text_attempts(raw) + json_attempts(json),
        None => text_attempts(raw),
    }
}

/// The attempts at a payload, none where it is no UTF-8.
pub open spec fn payload_attempts(payload: Seq<u8>) -> Seq<AttemptView> {
    if !valid_utf8(payload) {
        Seq::empty()
    } else {
        let raw = trimmed(decode_utf8(payload));
        document_attempts(raw, json_document(raw))
    }
}

fn text_attempt(text: &str, unit: PowerUnit) -> (attempt: PowerAttempt)
    ensures
        attempt@ == AttemptView::Text(text@, unit),
{
    PowerAttempt::Text(text.to_owned(), unit)
}

/// The attempts at a text.
pub fn parse_power_text(raw: &str) -> (attempts: Vec<PowerAttempt>)
    ensures
        attempts_view(attempts@) == text_attempts(raw@),
{
    let plain = strip(trim(raw), Margin::Quote);
    let lower = to_lower(plain);
    let mut attempts: Vec<PowerAttempt> = Vec::new();
    attempts.push(text_attempt(plain, PowerUnit::Kilowatt));
    proof {
        reveal_strlit("kw");
        reveal_strlit("w");
    }
    if let Some(value) = strip_suffix(lower.as_str(), "kw") {
        attempts.push(text_attempt(trim(value), PowerUnit::Kilowatt));
    } else if let Some(value) = strip_suffix(lower.as_str(), "w") {
        attempts.push(text_attempt(trim(value), PowerUnit::Watt));
    }
    attempts
}

fn extend(attempts: &mut Vec<PowerAttempt>, more: Vec<PowerAttempt>)
    ensures
        attempts_view(final(attempts)@) == attempts_view(old(attempts)@) + attempts_view(more@),
{
    let mut more = more;
    attempts.append(&mut more);
}

proof fn lemma_place(members: Seq<(Seq<char>, JsonTree)>, name: Seq<char>, i: int)
    requires
        0 <= i <= members.len(),
        forall|j: int| 0 <= j < i ==> (#[trigger] members[j]).0 != name,
        i < members.len() ==> members[i].0 == name,
    ensures
        place(members, name) == i,
    decreases i,
{
    if i > 0 {
        assert(members[0].0 != name);
        let rest = members.drop_first();
        assert forall|j: int| 0 <= j < i - 1 implies (#[trigger] rest[j]).0 != name by {
            assert(rest[j] == members[j + 1]);
        }
        lemma_place(rest, name, i - 1);
    }
}

fn parse_power_member(members: &Vec<(String, Json)>, name: &str, Ghost(entries): Ghost<
    Seq<(Seq<char>, JsonTree)>,
>) -> (attempts: Vec<PowerAttempt>)
    requires
        tree(Json::Object(*members)) == JsonTree::Object(entries),
    ensures
        attempts_view(attempts@) == member_attempts(entries, name@),
    decreases entries,
{
    assert(entries.len() == members@.len());
    assert(forall|j: int| 0 <= j < entries.len() ==> #[trigger] entries[j] == (
        members@[j].0@,
        tree(members@[j].1),
    ));
    let mut i: usize = 0;
    while i < members.len()
        invariant
            i <= members.len(),
            entries.len() == members@.len(),
            forall|j: int|
                0 <= j < entries.len() ==> #[trigger] entries[j] == (
                    members@[j].0@,
                    tree(members@[j].1),
                ),
            forall|j: int| 0 <= j < i ==> (#[trigger] entries[j]).0 != name@,
        decreases members.len() - i,
    {
        let (key, value) = &members[i];
        assert(entries[i as int] == (key@, tree(*value)));
        if same_text(key.as_str(), name) {
            proof {
                lemma_place(entries, name@, i as int);
                assert(decreases_to!(entries => entries[i as int]));
                assert(decreases_to!(entries[i as int] => entries[i as int].1));
            }
            return parse_power_json(value);
        }
        i += 1;
    }
    proof {
        lemma_place(entries, name@, i as int);
    }
    Vec::new()
}

/// The attempts at a JSON value.
pub fn parse_power_json(value: &Json) -> (attempts: Vec<PowerAttempt>)
    ensures
        attempts_view(attempts@) == json_attempts(tree(*value)),
    decreases tree(*value),
{
    match value {
        Json::Number(Some(bits)) => {
            let mut attempts: Vec<PowerAttempt> = Vec::new();
            attempts.push(PowerAttempt::Number(*bits));
            attempts
        },
        Json::Text(s) => parse_power_text(s.as_str()),
        Json::Object(members) => {
            let ghost entries = tree(*value)->Object_0;
            assert(decreases_to!(tree(*value) => tree(*value)->Object_0));
            let mut attempts = parse_power_member(members, "state", Ghost(entries));
            extend(&mut attempts, parse_power_member(members, "value", Ghost(entries)));
            extend(&mut attempts, parse_power_member(members, "power_kw", Ghost(entries)));
            extend(&mut attempts, parse_power_member(members, "power", Ghost(entries)));
            extend(&mut attempts, parse_power_member(members, "returned", Ghost(entries)));
            extend(&mut attempts, parse_power_member(members, "surplus_kw", Ghost(entries)));
            attempts
        },
        _ => Vec::new(),
    }
}

/// The attempts at a text that may be a JSON document.
pub fn parse_power_document(raw: &str, document: &Option<Json>) -> (attempts: Vec<PowerAttempt>)
    ensures
        attempts_view(attempts@) == document_attempts(
            raw@,
            match *document {
                Some(json) => Some(tree(json)),
                None => None,
            },
        ),
{
    let mut attempts = parse_power_text(raw);
    match document {
        Some(json) => {
            extend(&mut attempts, parse_power_json(json));
            attempts
        },
        None => attempts,
    }
}

/// The attempts at a payload.
pub fn parse_power_kw(payload: &[u8]) -> (attempts: Vec<PowerAttempt>)
    ensures
        attempts_view(attempts@) == payload_attempts(payload@),
{
    match text_from_utf8(payload) {
        Some(text) => {
            let raw = trim(text);
            let document = parse_json(raw);
            parse_power_document(raw, &document)
        },
        None => Vec::new(),
    }
}

/// The power that the attempts give: that of the first which gives one.
/// `texts` says what the text of each attempt reads as, in kilowatts.
pub open spec fn first_power(attempts: Seq<AttemptView>, texts: Seq<Option<u64>>) -> Option<u64>
    decreases attempts.len(),
{
    if attempts.len() == 0 {
        None
    } else {
        match attempts[0] {
            AttemptView::Number(bits) => Some(bits),
            AttemptView::Text(..) => if texts[0] is Some {
                texts[0]
            } else {
                first_power(attempts.drop_first(), texts.drop_first())
            },
        }
    }
}

/// The power that the attempts give. `texts` says what the text of each
/// attempt reads as, in kilowatts.
pub fn pick_power(attempts: &Vec<PowerAttempt>, texts: &Vec<Option<u64>>) -> (power: Option<u64>)
    requires
        texts.len() == attempts.len(),
    ensures
        power == first_power(attempts_view(attempts@), texts@),
{
    let ghost all = attempts_view(attempts@);
    let mut i: usize = 0;
    assert(all.skip(0) =~= all);
    assert(texts@.skip(0) =~= texts@);
    while i < attempts.len()
        invariant
            i <= attempts.len(),
            texts.len() == attempts.len(),
            all == attempts_view(attempts@),
            first_power(all, texts@) == first_power(all.skip(i as int), texts@.skip(i as int)),
        decreases attempts.len() - i,
    {
        let ghost rest = all.skip(i as int);
        let ghost rest_texts = texts@.skip(i as int);
        assert(rest[0] == attempts@[i as int]@);
        assert(rest_texts[0] == texts@[i as int]);
        match &attempts[i] {
            PowerAttempt::Number(bits) => {
                return Some(*bits);
            },
            PowerAttempt::Text(..) => if texts[i].is_some() {
                return texts[i];
            },
        }
        assert(rest.drop_first() =~= all.skip(i + 1));
        assert(rest_texts.drop_first() =~= texts@.skip(i + 1));
        i += 1;
    }
    None
}

} // verus!
