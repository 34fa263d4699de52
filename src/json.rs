//! A JSON document as plain values.
use vstd::prelude::*;

verus! {

/// A JSON number: integers as they are, anything else by its text.
#[derive(Debug)]
pub enum JsonNumber {
    Unsigned(u64),
    Negative(i64),
    Fractional(String),
}

/// A JSON value. An object keeps its members in order.
#[derive(Debug)]
pub enum Json {
    Null,
    Bool(bool),
    Number(JsonNumber),
    Str(String),
    Array(Vec<Json>),
    Object(Vec<(String, Json)>),
}

/// The value of the first member named `name`, or null where there is none.
pub open spec fn member_of(members: Seq<(String, Json)>, name: Seq<char>) -> Json
    decreases members.len(),
{
    if members.len() == 0 {
        Json::Null
    } else if members[0].0@ == name {
        members[0].1
    } else {
        member_of(members.drop_first(), name)
    }
}

/// `v[name]`: a member of an object, null for anything else.
pub open spec fn field(v: Json, name: Seq<char>) -> Json {
    match v {
        Json::Object(members) => member_of(members@, name),
        _ => Json::Null,
    }
}

/// The value as an unsigned integer, where it is one.
pub open spec fn as_u64(v: Json) -> Option<u64> {
    match v {
        Json::Number(JsonNumber::Unsigned(n)) => Some(n),
        _ => None,
    }
}

/// `v[name]`, by reference.
pub fn get_field<'a>(v: &'a Json, name: &String) -> (r: &'a Json)
    ensures
        *r == field(*v, name@),
{
    match v {
        Json::Object(members) => {
            let mut i: usize = 0;
            assert(members@.subrange(0, members@.len() as int) =~= members@);
            while i < members.len()
                invariant
                    i <= members@.len(),
                    field(*v, name@) == member_of(members@, name@),
                    member_of(members@, name@) == member_of(members@.subrange(i as int, members@.len() as int), name@),
                decreases members@.len() - i,
            {
                let ghost rest = members@.subrange(i as int, members@.len() as int);
                assert(rest.drop_first() =~= members@.subrange(i + 1, members@.len() as int));
                assert(rest[0] == members@[i as int]);
                if members[i].0 == *name {
                    assert(member_of(rest, name@) == rest[0].1);
                    return &members[i].1;
                }
                i = i + 1;
            }
            &Json::Null
        },
        _ => &Json::Null,
    }
}

pub fn get_u64(v: &Json) -> (r: Option<u64>)
    ensures
        r == as_u64(*v),
{
    match v {
        Json::Number(JsonNumber::Unsigned(n)) => Some(*n),
        _ => None,
    }
}

} // verus!
