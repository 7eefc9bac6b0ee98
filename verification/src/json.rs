//! JSON texts: what `serde_json` reads in them, and the way through the values that it finds.
use serde_json::Value;
use vstd::prelude::*;

use crate::text::{decimal, decimal_injective, decimal_reads_back};

verus! {

/// A JSON value. Only unsigned 64-bit numbers are told apart from other scalars.
#[derive(Debug)]
pub enum Json {
    Unsigned(u64),
    Array(Vec<Json>),
    /// The members by name; no two have the same name.
    Object(Vec<(String, Json)>),
    /// A string, a boolean, null, or a number of another kind.
    Other,
}

/// The content of a JSON value.
pub enum JsonText {
    Unsigned(u64),
    Array(Seq<JsonText>),
    Object(Seq<(Seq<char>, JsonText)>),
    Other,
}

impl Json {
    /// The content of the value.
    pub open spec fn text(self) -> JsonText
        decreases self,
    {
        match self {
            Json::Unsigned(n) => JsonText::Unsigned(n),
            Json::Array(items) => JsonText::Array(
                Seq::new(
                    items@.len(),
                    |i: int|
                        if 0 <= i < items@.len() {
                            items@[i].text()
                        } else {
                            JsonText::Other
                        },
                ),
            ),
            Json::Object(members) => JsonText::Object(
                Seq::new(
                    members@.len(),
                    |i: int|
                        if 0 <= i < members@.len() {
                            (members@[i].0@, members@[i].1.text())
                        } else {
                            (Seq::empty(), JsonText::Other)
                        },
                ),
            ),
            Json::Other => JsonText::Other,
        }
    }
}

/// The JSON value that a body consists of, as `serde_json::from_slice` reads it; `None` where it
/// reports an error.
pub uninterp spec fn json_value(body: Seq<u8>) -> Option<JsonText>;

/// Calls `serde_json::from_slice::<serde_json::Value>` and changes the value's type, variant by
/// variant. A member of an array or an object is changed by the same call, on the text that
/// `serde_json::to_vec` gives of it. Which bodies are JSON, and what they hold, is left to the
/// crate: the contract says that it depends on the body alone.
#[verifier::external_body]
pub(crate) fn parse_json(body: &Vec<u8>) -> (r: Option<Json>)
    ensures
        match r {
            Some(value) => json_value(body@) == Some(value.text()),
            None => json_value(body@) is None,
        },
{
    let member = |v: Value| parse_json(&serde_json::to_vec(&v).ok()?);
    Some(match serde_json::from_slice::<Value>(body).ok()? {
        Value::Null => Json::Other,
        Value::Bool(_) => Json::Other,
        Value::String(_) => Json::Other,
        Value::Number(n) => n.as_u64().map_or(Json::Other, Json::Unsigned),
        Value::Array(items) => Json::Array(items.into_iter().map(member).collect::<Option<_>>()?),
        Value::Object(members) => Json::Object(
            members.into_iter().map(|(name, v)| Some((name, member(v)?))).collect::<Option<_>>()?,
        ),
    })
}

/// The member of that name, of those from position `i` on.
pub open spec fn member_from(members: Seq<(Seq<char>, JsonText)>, name: Seq<char>, i: int) -> Option<
    JsonText,
>
    decreases members.len() - i,
{
    if i < 0 || i >= members.len() {
        None
    } else if members[i].0 == name {
        Some(members[i].1)
    } else {
        member_from(members, name, i + 1)
    }
}

impl JsonText {
    /// The member of an object.
    pub open spec fn member(self, name: Seq<char>) -> Option<JsonText> {
        match self {
            JsonText::Object(members) => member_from(members, name, 0),
            _ => None,
        }
    }

    /// The first item of an array.
    pub open spec fn first(self) -> Option<JsonText> {
        match self {
            JsonText::Array(items) => if items.len() > 0 {
                Some(items[0])
            } else {
                None
            },
            _ => None,
        }
    }

    /// The number that the value is.
    pub open spec fn unsigned(self) -> Option<u64> {
        match self {
            JsonText::Unsigned(n) => Some(n),
            _ => None,
        }
    }
}

/// The content of a value that may be missing.
pub open spec fn text_of(value: Option<&Json>) -> Option<JsonText> {
    match value {
        Some(v) => Some(v.text()),
        None => None,
    }
}

impl Json {
    /// The member of an object.
    pub fn member(&self, name: &str) -> (r: Option<&Json>)
        ensures
            text_of(r) == self.text().member(name@),
    {
        match self {
            Json::Object(members) => {
                let wanted = name.to_string();
                let ghost all = self.text()->Object_0;
                let mut i: usize = 0;
                while i < members.len()
                    invariant
                        i <= members.len(),
                        wanted@ == name@,
                        self.text() == JsonText::Object(all),
                        all.len() == members@.len(),
                        forall|k: int|
                            0 <= k < all.len() ==> #[trigger] all[k] == (
                                members@[k].0@,
                                members@[k].1.text(),
                            ),
                        member_from(all, name@, 0) == member_from(all, name@, i as int),
                    decreases members.len() - i,
                {
                    assert(all[i as int].0 == members@[i as int].0@);
                    if members[i].0 == wanted {
                        return Some(&members[i].1);
                    }
                    i = i + 1;
                }
                None
            },
            _ => None,
        }
    }

    /// The first item of an array.
    pub fn first(&self) -> (r: Option<&Json>)
        ensures
            text_of(r) == self.text().first(),
    {
        match self {
            Json::Array(items) => {
                if items.len() > 0 {
                    Some(&items[0])
                } else {
                    None
                }
            },
            _ => None,
        }
    }

    /// The number that the value is.
    pub fn unsigned(&self) -> (r: Option<u64>)
        ensures
            r == self.text().unsigned(),
    {
        match self {
            Json::Unsigned(n) => Some(*n),
            _ => None,
        }
    }
}

/// White space between JSON tokens.
pub open spec fn json_space(c: char) -> bool {
    c == ' ' || c == '\n' || c == '\t' || c == '\r'
}

/// Whether a text is the numeral of a number, with any white space around it.
pub open spec fn spells(text: Seq<char>, n: u64) -> bool {
    exists|a: int, b: int| #[trigger] framed(text, a, b) && text.subrange(a, b) == decimal(n as nat)
}

/// Whether a text holds nothing but white space before one position and from another one on.
pub open spec fn framed(text: Seq<char>, a: int, b: int) -> bool {
    &&& 0 <= a <= b <= text.len()
    &&& forall|i: int| 0 <= i < a ==> json_space(#[trigger] text[i])
    &&& forall|i: int| b <= i < text.len() ==> json_space(#[trigger] text[i])
}

/// The unsigned 64-bit number that a JSON text consists of.
pub open spec fn json_u64(text: Seq<char>) -> Option<u64> {
    if exists|n: u64| spells(text, n) {
        Some(choose|n: u64| spells(text, n))
    } else {
        None
    }
}

/// Calls `serde_json::from_str::<u64>`: the number whose decimal numeral the text is, where there
/// may be JSON white space around it. Any other text is an error to the crate: a sign, a leading
/// zero, a fraction, an exponent, a number that is too large.
#[verifier::external_body]
pub(crate) fn parse_json_u64(text: &str) -> (r: Option<u64>)
    ensures
        r == json_u64(text@),
{
    serde_json::from_str::<u64>(text).ok()
}

/// A text spells at most one number.
pub proof fn spelling_is_unique(text: Seq<char>, m: u64, n: u64)
    requires
        spells(text, m),
        spells(text, n),
    ensures
        m == n,
{
    decimal_reads_back(m as nat);
    decimal_reads_back(n as nat);
    let (a, b) = choose|a: int, b: int| #[trigger]
        framed(text, a, b) && text.subrange(a, b) == decimal(m as nat);
    let (c, d) = choose|c: int, d: int| #[trigger]
        framed(text, c, d) && text.subrange(c, d) == decimal(n as nat);
    let s = text.subrange(a, b);
    let t = text.subrange(c, d);
    assert(text[a] == s[0] && text[b - 1] == s[b - a - 1]);
    assert(text[c] == t[0] && text[d - 1] == t[d - c - 1]);
    assert(a == c && b == d);
    decimal_injective(m as nat, n as nat);
}

/// The numeral of a number is read as that number.
pub proof fn numeral_is_its_number(n: u64)
    ensures
        json_u64(decimal(n as nat)) == Some(n),
{
    let text = decimal(n as nat);
    assert(framed(text, 0, text.len() as int));
    assert(text.subrange(0, text.len() as int) =~= text);
    assert(spells(text, n));
    spelling_is_unique(text, n, choose|m: u64| spells(text, m));
}

/// The member of an object is the first one of that name; what is not an object has none.
pub proof fn member_is_the_first_of_its_name(
    members: Seq<(Seq<char>, JsonText)>,
    name: Seq<char>,
    i: int,
)
    requires
        0 <= i < members.len(),
        members[i].0 == name,
        forall|j: int| 0 <= j < i ==> (#[trigger] members[j]).0 != name,
    ensures
        JsonText::Object(members).member(name) == Some(members[i].1),
{
    member_found(members, name, 0, i);
}

proof fn member_found(members: Seq<(Seq<char>, JsonText)>, name: Seq<char>, from: int, i: int)
    requires
        0 <= from <= i < members.len(),
        members[i].0 == name,
        forall|j: int| from <= j < i ==> (#[trigger] members[j]).0 != name,
    ensures
        member_from(members, name, from) == Some(members[i].1),
    decreases i - from,
{
    if from < i {
        member_found(members, name, from + 1, i);
    }
}

/// What is not an object has no members, what is not an array no first item, and what is not an
/// unsigned number is none; an array's first item is the one that comes first.
pub proof fn values_are_of_one_kind(value: JsonText, name: Seq<char>)
    ensures
        value !is Object ==> value.member(name) is None,
        value matches JsonText::Object(members) ==> ((forall|j: int|
            0 <= j < members.len() ==> (#[trigger] members[j]).0 != name) ==> value.member(
            name,
        ) is None),
        match value {
            JsonText::Array(items) if items.len() > 0 => value.first() == Some(items[0]),
            _ => value.first() is None,
        },
        match value {
            JsonText::Unsigned(n) => value.unsigned() == Some(n),
            _ => value.unsigned() is None,
        },
{
    if let JsonText::Object(members) = value {
        if forall|j: int| 0 <= j < members.len() ==> (#[trigger] members[j]).0 != name {
            member_missing(members, name, 0);
        }
    }
}

proof fn member_missing(members: Seq<(Seq<char>, JsonText)>, name: Seq<char>, from: int)
    requires
        0 <= from,
        forall|j: int| from <= j < members.len() ==> (#[trigger] members[j]).0 != name,
    ensures
        member_from(members, name, from) is None,
    decreases members.len() - from,
{
    if from < members.len() {
        member_missing(members, name, from + 1);
    }
}

} // verus!
