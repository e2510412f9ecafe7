//! Compact JSON text, as `serde_json` writes it.

use crate::text::decimal;
use serde_json::Value;
use vstd::prelude::*;

verus! {

broadcast use vstd::string::group_string_axioms;

/// The compact text of a value of `serde_json`.
pub uninterp spec fn value_text(value: serde_json::Value) -> Seq<char>;

/// A hexadecimal digit in lower case.
pub open spec fn hex_char(n: int) -> char {
    if n < 10 {
        ('0' as int + n) as char
    } else {
        ('a' as int + n - 10) as char
    }
}

/// What stands for a character between quotes.
pub open spec fn escaped_char(c: char) -> Seq<char> {
    if c == '"' || c == '\\' {
        seq!['\\', c]
    } else if c == '\u{8}' {
        seq!['\\', 'b']
    } else if c == '\u{9}' {
        seq!['\\', 't']
    } else if c == '\u{a}' {
        seq!['\\', 'n']
    } else if c == '\u{c}' {
        seq!['\\', 'f']
    } else if c == '\u{d}' {
        seq!['\\', 'r']
    } else if '\u{20}' > c {
        seq!['\\', 'u', '0', '0', hex_char(c as int / 16), hex_char(c as int % 16)]
    } else {
        seq![c]
    }
}

/// What stands for a text between quotes.
pub open spec fn escaped(s: Seq<char>) -> Seq<char>
    decreases s.len(),
{
    if s.len() == 0 {
        Seq::empty()
    } else {
        escaped(s.drop_last()) + escaped_char(s.last())
    }
}

/// A text as a JSON string.
pub open spec fn quoted(s: Seq<char>) -> Seq<char> {
    seq!['"'] + escaped(s) + seq!['"']
}

/// A count as a JSON number, or null.
pub open spec fn count_text(count: Option<u64>) -> Seq<char> {
    match count {
        Some(n) => decimal(n as nat),
        None => "null"@,
    }
}

/// Texts with commas between them.
pub open spec fn joined(items: Seq<Seq<char>>) -> Seq<char>
    decreases items.len(),
{
    if items.len() == 0 {
        Seq::empty()
    } else if items.len() == 1 {
        items[0]
    } else {
        joined(items.drop_last()) + seq![','] + items.last()
    }
}

/// A JSON array of the given items.
pub open spec fn list_text(items: Seq<Seq<char>>) -> Seq<char> {
    seq!['['] + joined(items) + seq![']']
}

/// A JSON object of the given members, each a name and the text of a value.
pub open spec fn object_text(members: Seq<(Seq<char>, Seq<char>)>) -> Seq<char> {
    seq!['{'] + joined(
        members.map_values(|m: (Seq<char>, Seq<char>)| quoted(m.0) + seq![':'] + m.1),
    ) + seq!['}']
}

/// Whether two texts agree up to position `k`, where `b` goes on and `a` ends
/// or has the smaller character.
pub open spec fn smaller_at(a: Seq<char>, b: Seq<char>, k: int) -> bool {
    &&& 0 <= k <= a.len()
    &&& k < b.len()
    &&& forall|i: int| 0 <= i < k ==> a[i] == b[i]
    &&& k < a.len() ==> a[k] < b[k]
}

/// Whether text `a` comes before text `b` in the order of characters.
pub open spec fn comes_before(a: Seq<char>, b: Seq<char>) -> bool {
    exists|k: int| smaller_at(a, b, k)
}

/// A JSON string. Calls `Value::from` on a text; the value is written between
/// quotes, with the quote, the backslash and the control characters below the
/// space escaped.
#[verifier::external_body]
pub(crate) fn quoted_value(s: &str) -> (value: Value)
    ensures
        value_text(value) == quoted(s@),
{
    Value::from(s)
}

/// A JSON number, or null. Calls `Value::from` on an optional integer, which is
/// written in decimal.
#[verifier::external_body]
pub(crate) fn count_value(count: Option<u64>) -> (value: Value)
    ensures
        value_text(value) == count_text(count),
{
    Value::from(count)
}

/// A JSON array. Calls `Value::from` on a list of values, which are written in
/// their order with commas between them.
#[verifier::external_body]
pub(crate) fn list_value(items: Vec<Value>) -> (value: Value)
    ensures
        value_text(value) == list_text(items@.map_values(|v: Value| value_text(v))),
{
    Value::from(items)
}

/// The names and the texts of members.
pub open spec fn member_texts(members: Seq<(String, Value)>) -> Seq<(Seq<char>, Seq<char>)> {
    members.map_values(|m: (String, Value)| (m.0@, value_text(m.1)))
}

/// Whether each name comes before the next.
pub open spec fn ascending(members: Seq<(Seq<char>, Seq<char>)>) -> bool {
    forall|i: int| 0 <= i && i + 1 < members.len() ==> comes_before(
        (#[trigger] members[i]).0,
        members[i + 1].0,
    )
}

/// A JSON object. Calls `Value::from_iter` on names and values; the object is
/// written with its names in ascending order, and is taken here with the
/// names already in that order.
#[verifier::external_body]
pub(crate) fn object_value(members: Vec<(String, Value)>) -> (value: Value)
    requires
        ascending(member_texts(members@)),
    ensures
        value_text(value) == object_text(member_texts(members@)),
{
    Value::from_iter(members)
}

/// Adds a member behind the others.
pub(crate) fn push_member(members: &mut Vec<(String, Value)>, name: &str, value: Value)
    ensures
        member_texts(final(members)@) == member_texts(old(members)@).push(
            (name@, value_text(value)),
        ),
{
    members.push((name.to_owned(), value));
}

/// The compact text of a value. Calls `to_string`, which `Value` has from
/// `Display`: the text depends on the value alone.
#[verifier::external_body]
pub(crate) fn compact(value: &Value) -> (text: String)
    ensures
        text@ == value_text(*value),
{
    value.to_string()
}

} // verus!
