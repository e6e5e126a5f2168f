//! JSON documents: their mathematical value, how they are read and built,
//! and how they go to and from text.

use crate::outside::{
    json_of_value, json_value, parsed_value, value_from_str, value_json, value_of_json,
    value_text, value_to_string,
};
use vstd::prelude::*;

verus! {

/// The mathematical value of a JSON document.
///
/// Whole numbers are unbounded integers; a number written with a fraction or
/// an exponent is kept as its text.  An object is the sequence of its members
/// in the order in which they are held.
pub enum JsonV {
    Null,
    Bool(bool),
    Int(int),
    Decimal(Seq<char>),
    Str(Seq<char>),
    Array(Seq<JsonV>),
    Object(Seq<MemberV>),
}

/// The mathematical value of one member of an object.
pub struct MemberV {
    pub key: Seq<char>,
    pub value: JsonV,
}

/// One member of a JSON object.
#[derive(Debug, PartialEq)]
pub struct Member {
    pub key: String,
    pub value: Json,
}

/// A JSON document.
#[derive(Debug, PartialEq)]
pub enum Json {
    Null,
    Bool(bool),
    /// A whole number that is not negative.
    PosInt(u64),
    /// A whole number below zero.
    NegInt(i64),
    /// A number with a fraction or an exponent, held as its JSON text.
    Decimal(String),
    Str(String),
    Array(Vec<Json>),
    Object(Vec<Member>),
}

impl View for Json {
    type V = JsonV;

    open spec fn view(&self) -> JsonV
        decreases self,
    {
        match self {
            Json::Null => JsonV::Null,
            Json::Bool(b) => JsonV::Bool(*b),
            Json::PosInt(n) => JsonV::Int(*n as int),
            Json::NegInt(n) => JsonV::Int(*n as int),
            Json::Decimal(t) => JsonV::Decimal(t@),
            Json::Str(s) => JsonV::Str(s@),
            Json::Array(items) => JsonV::Array(
                Seq::new(
                    items@.len(),
                    |i: int|
                        if 0 <= i < items@.len() {
                            items@[i].view()
                        } else {
                            JsonV::Null
                        },
                ),
            ),
            Json::Object(members) => JsonV::Object(
                Seq::new(
                    members@.len(),
                    |i: int|
                        if 0 <= i < members@.len() {
                            MemberV { key: members@[i].key@, value: members@[i].value.view() }
                        } else {
                            MemberV { key: Seq::<char>::empty(), value: JsonV::Null }
                        },
                ),
            ),
        }
    }
}

/// The value of the last member of `members` whose key is `key`.
pub open spec fn lookup(members: Seq<MemberV>, key: Seq<char>) -> Option<JsonV>
    decreases members.len(),
{
    if members.len() == 0 {
        None
    } else if members.last().key == key {
        Some(members.last().value)
    } else {
        lookup(members.drop_last(), key)
    }
}

impl JsonV {
    /// The member `key` of an object; `None` for a missing key and for a
    /// value that is no object.
    pub open spec fn field(self, key: Seq<char>) -> Option<JsonV> {
        match self {
            JsonV::Object(members) => lookup(members, key),
            _ => None,
        }
    }

    /// The text of a string value.
    pub open spec fn as_str(self) -> Option<Seq<char>> {
        match self {
            JsonV::Str(s) => Some(s),
            _ => None,
        }
    }

    /// The number, where it is a whole number in the range of `u64`.
    pub open spec fn as_u64(self) -> Option<u64> {
        match self {
            JsonV::Int(n) => if 0 <= n <= u64::MAX {
                Some(n as u64)
            } else {
                None
            },
            _ => None,
        }
    }

    /// The number, where it is a whole number in the range of `i64`.
    pub open spec fn as_i64(self) -> Option<i64> {
        match self {
            JsonV::Int(n) => if i64::MIN <= n <= i64::MAX {
                Some(n as i64)
            } else {
                None
            },
            _ => None,
        }
    }

    /// The items of an array.
    pub open spec fn as_array(self) -> Option<Seq<JsonV>> {
        match self {
            JsonV::Array(items) => Some(items),
            _ => None,
        }
    }

    /// The string member `key` of an object.
    pub open spec fn str_field(self, key: Seq<char>) -> Option<Seq<char>> {
        match self.field(key) {
            Some(v) => v.as_str(),
            None => None,
        }
    }
}

/// The values of `items`, in order.
pub open spec fn views_of(items: Seq<Json>) -> Seq<JsonV> {
    Seq::new(items.len(), |i: int| items[i]@)
}

/// The keys and values of `members`, in order.
pub open spec fn member_views(members: Seq<Member>) -> Seq<MemberV> {
    Seq::new(members.len(), |i: int| MemberV { key: members[i].key@, value: members[i].value@ })
}

/// An array's value holds the values of its items.
pub proof fn lemma_array_view(items: Vec<Json>)
    ensures
        Json::Array(items)@ == JsonV::Array(views_of(items@)),
{
    assert(Json::Array(items)@->Array_0 =~= views_of(items@));
}

/// An object's value holds the keys and values of its members.
pub proof fn lemma_object_view(members: Vec<Member>)
    ensures
        Json::Object(members)@ == JsonV::Object(member_views(members@)),
{
    assert(Json::Object(members)@->Object_0 =~= member_views(members@));
}

impl Json {
    /// A copy of this document.
    #[verifier::loop_isolation(false)]
    pub fn copy(&self) -> (r: Json)
        ensures
            r@ == self@,
        decreases self,
    {
        match self {
            Json::Null => Json::Null,
            Json::Bool(b) => Json::Bool(*b),
            Json::PosInt(n) => Json::PosInt(*n),
            Json::NegInt(n) => Json::NegInt(*n),
            Json::Decimal(t) => Json::Decimal(t.clone()),
            Json::Str(s) => Json::Str(s.clone()),
            Json::Array(items) => {
                let mut out: Vec<Json> = Vec::new();
                let mut i: usize = 0;
                while i < items.len()
                    invariant
                        i <= items.len(),
                        out@.len() == i,
                        forall|j: int| 0 <= j < i ==> out@[j]@ == items@[j]@,
                    decreases items.len() - i,
                {
                    proof {
                        vstd::std_specs::vec::axiom_vec_index_decreases(*items, i as int);
                    }
                    out.push(items[i].copy());
                    i += 1;
                }
                proof {
                    lemma_array_view(*items);
                    lemma_array_view(out);
                    assert(views_of(out@) =~= views_of(items@));
                }
                Json::Array(out)
            },
            Json::Object(members) => {
                let mut out: Vec<Member> = Vec::new();
                let mut i: usize = 0;
                while i < members.len()
                    invariant
                        i <= members.len(),
                        out@.len() == i,
                        forall|j: int|
                            0 <= j < i ==> out@[j].key@ == members@[j].key@ && out@[j].value@
                                == members@[j].value@,
                    decreases members.len() - i,
                {
                    proof {
                        vstd::std_specs::vec::axiom_vec_index_decreases(*members, i as int);
                    }
                    let value = members[i].value.copy();
                    out.push(Member { key: members[i].key.clone(), value });
                    i += 1;
                }
                proof {
                    lemma_object_view(*members);
                    lemma_object_view(out);
                    assert(member_views(out@) =~= member_views(members@));
                }
                Json::Object(out)
            },
        }
    }

    /// The member `key` of an object.
    pub fn get(&self, key: &str) -> (r: Option<&Json>)
        ensures
            match r {
                Some(j) => self@.field(key@) == Some(j@),
                None => self@.field(key@) is None,
            },
    {
        match self {
            Json::Object(members) => {
                proof {
                    lemma_object_view(*members);
                }
                let ghost all = member_views(members@);
                let mut i: usize = members.len();
                proof {
                    assert(all.take(i as int) =~= all);
                }
                while i > 0
                    invariant
                        i <= members.len(),
                        all == member_views(members@),
                        self@.field(key@) == lookup(all, key@),
                        lookup(all, key@) == lookup(all.take(i as int), key@),
                    decreases i,
                {
                    i -= 1;
                    proof {
                        assert(all.take(i + 1).drop_last() =~= all.take(i as int));
                        assert(all.take(i + 1).last() == all[i as int]);
                    }
                    if crate::text::same_text(members[i].key.as_str(), key) {
                        return Some(&members[i].value);
                    }
                }
                proof {
                    assert(all.take(0).len() == 0);
                }
                None
            },
            _ => None,
        }
    }

    /// The text of a string value.
    pub fn as_str(&self) -> (r: Option<&str>)
        ensures
            match r {
                Some(s) => self@.as_str() == Some(s@),
                None => self@.as_str() is None,
            },
    {
        match self {
            Json::Str(s) => Some(s.as_str()),
            _ => None,
        }
    }

    /// The number, where it is a whole number in the range of `u64`.
    pub fn as_u64(&self) -> (r: Option<u64>)
        ensures
            r == self@.as_u64(),
    {
        match self {
            Json::PosInt(n) => Some(*n),
            Json::NegInt(n) => if *n >= 0 {
                Some(*n as u64)
            } else {
                None
            },
            _ => None,
        }
    }

    /// The number, where it is a whole number in the range of `i64`.
    pub fn as_i64(&self) -> (r: Option<i64>)
        ensures
            r == self@.as_i64(),
    {
        match self {
            Json::PosInt(n) => if *n <= 0x7fff_ffff_ffff_ffff {
                Some(*n as i64)
            } else {
                None
            },
            Json::NegInt(n) => Some(*n),
            _ => None,
        }
    }

    /// The items of an array.
    pub fn as_array(&self) -> (r: Option<&Vec<Json>>)
        ensures
            match r {
                Some(items) => self@.as_array() == Some(views_of(items@)),
                None => self@.as_array() is None,
            },
    {
        match self {
            Json::Array(items) => {
                proof {
                    lemma_array_view(*items);
                }
                Some(items)
            },
            _ => None,
        }
    }

    /// The string value that holds `s`.
    pub fn string(s: &str) -> (r: Json)
        ensures
            r@ == JsonV::Str(s@),
    {
        Json::Str(s.to_owned())
    }

    /// The array of the strings in `items`.
    pub fn strings(items: &Vec<String>) -> (r: Json)
        ensures
            r@ == JsonV::Array(items@.map_values(|s: String| JsonV::Str(s@))),
    {
        let mut out: Vec<Json> = Vec::new();
        let mut i: usize = 0;
        while i < items.len()
            invariant
                i <= items.len(),
                out@.len() == i,
                forall|j: int| 0 <= j < i ==> out@[j]@ == JsonV::Str(items@[j]@),
            decreases items.len() - i,
        {
            out.push(Json::Str(items[i].clone()));
            i += 1;
        }
        proof {
            lemma_array_view(out);
            assert(views_of(out@) =~= items@.map_values(|s: String| JsonV::Str(s@)));
        }
        Json::Array(out)
    }

    /// The array that holds `items`.
    pub fn array(items: Vec<Json>) -> (r: Json)
        ensures
            r@ == JsonV::Array(views_of(items@)),
    {
        proof {
            lemma_array_view(items);
        }
        Json::Array(items)
    }

    /// The object without members.
    pub fn object() -> (r: Json)
        ensures
            r@ == JsonV::Object(Seq::empty()),
    {
        let members: Vec<Member> = Vec::new();
        proof {
            lemma_object_view(members);
            assert(member_views(members@) =~= Seq::empty());
        }
        Json::Object(members)
    }

    /// This object with the member `key` added behind its members.  Any other
    /// value is handed back as it is.
    pub fn with(self, key: &str, value: Json) -> (r: Json)
        ensures
            r@ == match self@ {
                JsonV::Object(members) => JsonV::Object(
                    members.push(MemberV { key: key@, value: value@ }),
                ),
                other => other,
            },
    {
        match self {
            Json::Object(mut members) => {
                proof {
                    lemma_object_view(members);
                }
                let ghost before = member_views(members@);
                members.push(Member { key: key.to_owned(), value });
                proof {
                    lemma_object_view(members);
                    assert(member_views(members@) =~= before.push(
                        MemberV { key: key@, value: value@ },
                    ));
                }
                Json::Object(members)
            },
            other => other,
        }
    }
}

/// The compact text of a document.
pub open spec fn json_text(j: JsonV) -> Seq<char> {
    value_text(json_value(j))
}

/// What a text holds as a document, or the message that says why it is none.
pub open spec fn parse_spec(text: Seq<char>) -> Result<JsonV, Seq<char>> {
    match parsed_value(text) {
        Ok(v) => Ok(value_json(v)),
        Err(message) => Err(message),
    }
}

impl Json {
    /// The compact text of this document.
    pub fn to_text(&self) -> (text: String)
        ensures
            text@ == json_text(self@),
    {
        let value = value_of_json(self);
        value_to_string(&value)
    }

    /// Reads a document from its text.
    pub fn parse(text: &str) -> (r: Result<Json, String>)
        ensures
            match r {
                Ok(j) => parse_spec(text@) == Ok::<JsonV, Seq<char>>(j@),
                Err(message) => parse_spec(text@) == Err::<JsonV, Seq<char>>(message@),
            },
    {
        match value_from_str(text) {
            Ok(value) => Ok(json_of_value(&value)),
            Err(message) => Err(message),
        }
    }
}

} // verus!
