//! Records written out as JSON objects.
//!
//! The text of each value is `serde_json`'s; the library frames the object
//! around the members.

use vstd::prelude::*;
use vstd::string::StringExecFns;
use crate::dates::{Date, Instant, Timestamp, Ymd, instant_text, iso_text};
use crate::error::decimal_digits;

verus! {

/// The JSON text that `serde_json` writes for a string: quoted and escaped.
pub uninterp spec fn json_string(text: Seq<char>) -> Seq<char>;

/// The JSON text of an integer: its decimal numeral, after `-` where it is
/// negative.
pub open spec fn json_integer(n: i64) -> Seq<char> {
    if n < 0 {
        seq!['-'] + decimal_digits((0 - n) as nat)
    } else {
        decimal_digits(n as nat)
    }
}

/// `serde_json::Value::from` a string, then its `Display` text.
#[verifier::external_body]
fn serde_string_text(text: &str) -> (json: String)
    ensures
        json@ == json_string(text@),
{
    serde_json::Value::from(text).to_string()
}

/// `serde_json::Value::from` an integer, then its `Display` text: the
/// integer in decimal, without leading zeros, after `-` where it is negative.
#[verifier::external_body]
fn serde_integer_text(n: i64) -> (json: String)
    ensures
        json@ == json_integer(n),
{
    serde_json::Value::from(n).to_string()
}

/// One member of an object: its name and its value, both already JSON text.
#[derive(Clone, Debug, PartialEq, Eq)]
pub struct Member {
    pub name: String,
    pub value: String,
}

/// A `Member` over sequences.
pub struct MemberView {
    pub name: Seq<char>,
    pub value: Seq<char>,
}

impl View for Member {
    type V = MemberView;

    open spec fn view(&self) -> MemberView {
        MemberView { name: self.name@, value: self.value@ }
    }
}

impl DeepView for Member {
    type V = MemberView;

    open spec fn deep_view(&self) -> MemberView {
        self@
    }
}

/// A member as it stands in an object: name, colon, value.
pub open spec fn member_text(member: MemberView) -> Seq<char> {
    member.name + seq![':'] + member.value
}

/// The members in order, with commas between them.
pub open spec fn joined(members: Seq<MemberView>) -> Seq<char>
    decreases members.len(),
{
    if members.len() == 0 {
        Seq::empty()
    } else if members.len() == 1 {
        member_text(members[0])
    } else {
        joined(members.drop_last()) + seq![','] + member_text(members.last())
    }
}

/// The object that holds the members: braces around them.
pub open spec fn object_text(members: Seq<MemberView>) -> Seq<char> {
    seq!['{'] + joined(members) + seq!['}']
}

pub open spec fn null_text() -> Seq<char> {
    seq!['n', 'u', 'l', 'l']
}

pub open spec fn json_optional_integer(n: Option<i64>) -> Seq<char> {
    match n {
        Some(n) => json_integer(n),
        None => null_text(),
    }
}

pub open spec fn json_optional_string(text: Option<Seq<char>>) -> Seq<char> {
    match text {
        Some(text) => json_string(text),
        None => null_text(),
    }
}

pub open spec fn json_date(date: Ymd) -> Seq<char> {
    json_string(iso_text(date))
}

pub open spec fn json_optional_instant(instant: Option<Instant>) -> Seq<char> {
    match instant {
        Some(instant) => json_string(instant_text(instant)),
        None => null_text(),
    }
}

/// The member with this name and this value.
pub open spec fn member(name: Seq<char>, value: Seq<char>) -> MemberView {
    MemberView { name: json_string(name), value }
}

/// The member with this name and a value that is JSON text already.
pub fn member_of(name: &str, value: String) -> (made: Member)
    ensures
        made@ == member(name@, value@),
{
    Member { name: serde_string_text(name), value }
}

pub fn string_json(text: &str) -> (json: String)
    ensures
        json@ == json_string(text@),
{
    serde_string_text(text)
}

pub fn integer_json(n: i64) -> (json: String)
    ensures
        json@ == json_integer(n),
{
    serde_integer_text(n)
}

pub fn null_json() -> (json: String)
    ensures
        json@ == null_text(),
{
    proof {
        reveal_strlit("null");
    }
    let json = String::from_str("null");
    assert(json@ =~= null_text());
    json
}

pub fn optional_integer_json(n: Option<i64>) -> (json: String)
    ensures
        json@ == json_optional_integer(n),
{
    match n {
        Some(n) => integer_json(n),
        None => null_json(),
    }
}

pub fn optional_string_json(text: &Option<String>) -> (json: String)
    ensures
        json@ == json_optional_string(text.deep_view()),
{
    match text {
        Some(text) => string_json(text.as_str()),
        None => null_json(),
    }
}

pub fn date_json(date: &Date) -> (json: String)
    ensures
        json@ == json_date(date@),
{
    let text = date.text();
    string_json(text.as_str())
}

pub fn optional_instant_json(instant: &Option<Timestamp>) -> (json: String)
    ensures
        json@ == json_optional_instant(instant.deep_view()),
{
    match instant {
        Some(instant) => {
            let text = instant.text();
            string_json(text.as_str())
        },
        None => null_json(),
    }
}

/// Writes the object that holds the members, in their order.
pub fn frame_object(members: &Vec<Member>) -> (text: String)
    ensures
        text@ == object_text(members.deep_view()),
{
    proof {
        reveal_strlit("{");
        reveal_strlit("}");
    }
    let mut text = String::from_str("{");
    let mut i: usize = 0;
    assert(members.deep_view().take(0) =~= Seq::<MemberView>::empty());
    assert(text@ =~= seq!['{'] + joined(members.deep_view().take(0)));
    while i < members.len()
        invariant
            i <= members.len(),
            text@ == seq!['{'] + joined(members.deep_view().take(i as int)),
        decreases members.len() - i,
    {
        let ghost before = members.deep_view().take(i as int);
        let ghost upto = members.deep_view().take(i + 1);
        assert(upto.drop_last() =~= before);
        assert(upto.last() == members[i as int]@);
        let ghost written = text@;
        proof {
            reveal_strlit(",");
            reveal_strlit(":");
        }
        if i > 0 {
            text.append(",");
        }
        text.append(members[i].name.as_str());
        text.append(":");
        text.append(members[i].value.as_str());
        assert(text@ =~= seq!['{'] + joined(upto)) by {
            if i > 0 {
                assert(text@ =~= written + seq![','] + member_text(members[i as int]@));
            } else {
                assert(joined(before) =~= Seq::<char>::empty());
                assert(upto[0] == members[i as int]@);
                assert(text@ =~= written + member_text(members[i as int]@));
            }
        }
        i = i + 1;
    }
    assert(members.deep_view().take(members.len() as int) =~= members.deep_view());
    text.append("}");
    text
}

} // verus!
