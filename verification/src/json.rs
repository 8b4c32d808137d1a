//! JSON documents as the decoder reads them.
//!
//! The grammar of JSON is not this crate's business: whoever reads the input
//! parses it and hands over the tree as a [`Json`].

use vstd::prelude::*;
use vstd::string::StringExecFns;

verus! {

/// A JSON value.
///
/// An object keeps its members as a list, so that a key that occurs twice can
/// be told from one that occurs once.
#[derive(Debug, PartialEq, Eq)]
pub enum Json {
    Null,
    Bool(bool),
    /// A number; `Some(n)` where it is a natural number below 2^64, `None` for
    /// every other number (negative, fractional or larger).
    Number(Option<u64>),
    Text(String),
    Array(Vec<Json>),
    Object(Vec<Member>),
}

/// One member of a JSON object.
#[derive(Debug, PartialEq, Eq)]
pub struct Member {
    pub key: String,
    pub value: Json,
}

/// What a search for a key in an object comes to.
#[derive(Debug, Clone, Copy, PartialEq, Eq)]
pub enum Lookup<T> {
    /// No member has the key.
    Absent,
    /// Exactly one member has the key; this is its value.
    Found(T),
    /// Two or more members have the key.
    Repeated,
}

/// The values of the members that have the key, in the order of the members.
pub open spec fn values_under(members: Seq<Member>, key: Seq<char>) -> Seq<Json>
    decreases members.len(),
{
    if members.len() == 0 {
        Seq::empty()
    } else {
        let before = values_under(members.drop_last(), key);
        if members.last().key@ == key {
            before.push(members.last().value)
        } else {
            before
        }
    }
}

/// What a search for `key` among `members` comes to.
pub open spec fn entry(members: Seq<Member>, key: Seq<char>) -> Lookup<Json> {
    let values = values_under(members, key);
    if values.len() == 0 {
        Lookup::Absent
    } else if values.len() == 1 {
        Lookup::Found(values[0])
    } else {
        Lookup::Repeated
    }
}

/// Searches the members of an object for a key.
pub fn lookup<'a>(members: &'a Vec<Member>, key: &str) -> (found: Lookup<&'a Json>)
    ensures
        match found {
            Lookup::Absent => entry(members@, key@) == Lookup::<Json>::Absent,
            Lookup::Found(value) => entry(members@, key@) == Lookup::Found(*value),
            Lookup::Repeated => entry(members@, key@) == Lookup::<Json>::Repeated,
        },
{
    let wanted = String::from_str(key);
    let mut found: Lookup<&'a Json> = Lookup::Absent;
    let mut i: usize = 0;
    while i < members.len()
        invariant
            i <= members.len(),
            wanted@ == key@,
            match found {
                Lookup::Absent => values_under(members@.take(i as int), key@).len() == 0,
                Lookup::Found(value) => values_under(members@.take(i as int), key@) == seq![*value],
                Lookup::Repeated => values_under(members@.take(i as int), key@).len() >= 2,
            },
        decreases members.len() - i,
    {
        proof {
            let next = members@.take(i + 1);
            assert(next.drop_last() =~= members@.take(i as int));
            assert(next.last() == members@[i as int]);
        }
        if members[i].key == wanted {
            found =
            match found {
                Lookup::Absent => Lookup::Found(&members[i].value),
                _ => Lookup::Repeated,
            };
        }
        i += 1;
    }
    assert(members@.take(i as int) =~= members@);
    found
}

} // verus!
