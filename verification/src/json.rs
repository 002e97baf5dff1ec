//! JSON values as plain data.
//!
//! Arrays and objects are shared, so that a copy of a value is cheap and is the same value.

use crate::text;
use std::sync::Arc;
use vstd::prelude::*;

verus! {

/// A JSON value. A number that is no integer keeps its source text.
#[derive(Debug, PartialEq)]
pub enum Json {
    Null,
    Bool(bool),
    Integer(i128),
    Real(String),
    Text(String),
    Array(Arc<Vec<Json>>),
    Object(Arc<Vec<(String, Json)>>),
}

/// Another handle of a shared value: `Arc::clone` points to the same allocation, so what is behind
/// the two handles is the same value.
#[verifier::external_body]
pub(crate) fn share<T>(a: &Arc<T>) -> (r: Arc<T>)
    ensures
        r == *a,
{
    Arc::clone(a)
}

impl Clone for Json {
    fn clone(&self) -> (r: Self)
        ensures
            r == *self,
    {
        match self {
            Json::Null => Json::Null,
            Json::Bool(b) => Json::Bool(*b),
            Json::Integer(n) => Json::Integer(*n),
            Json::Real(s) => Json::Real(s.clone()),
            Json::Text(s) => Json::Text(s.clone()),
            Json::Array(items) => Json::Array(share(items)),
            Json::Object(members) => Json::Object(share(members)),
        }
    }
}

/// The position of the first member from `from` on with this key, the length where there is none.
pub open spec fn member_from(members: Seq<(String, Json)>, key: Seq<char>, from: int) -> int
    decreases members.len() - from,
{
    if from >= members.len() {
        members.len() as int
    } else if members[from].0@ == key {
        from
    } else {
        member_from(members, key, from + 1)
    }
}

/// The value of the first member with this key.
pub open spec fn member(members: Seq<(String, Json)>, key: Seq<char>) -> Option<Json> {
    let i = member_from(members, key, 0);
    if i < members.len() {
        Some(members[i].1)
    } else {
        None
    }
}

/// The value under a key of an object, none for anything else.
pub open spec fn field(value: Json, key: Seq<char>) -> Option<Json> {
    match value {
        Json::Object(members) => member(members@, key),
        _ => None,
    }
}

/// The position of a member.
fn member_position(members: &Vec<(String, Json)>, key: &str) -> (r: usize)
    ensures
        r == member_from(members@, key@, 0),
        r <= members@.len(),
{
    let n: usize = members.len();
    let mut i: usize = 0;
    while i < n
        invariant
            n == members@.len(),
            i <= n,
            member_from(members@, key@, 0) == member_from(members@, key@, i as int),
        decreases n - i,
    {
        if text::same_text(members[i].0.as_str(), key) {
            return i;
        }
        i += 1;
    }
    n
}

/// The value under a key of a list of members.
pub fn get_member<'a>(members: &'a Vec<(String, Json)>, key: &str) -> (r: Option<&'a Json>)
    ensures
        match member(members@, key@) {
            Some(v) => r == Some(&v),
            None => r is None,
        },
{
    let i: usize = member_position(members, key);
    if i < members.len() {
        Some(&members[i].1)
    } else {
        None
    }
}

impl Json {
    /// The value under a key.
    pub fn get(&self, key: &str) -> (r: Option<&Json>)
        ensures
            match field(*self, key@) {
                Some(v) => r == Some(&v),
                None => r is None,
            },
    {
        match self {
            Json::Object(members) => get_member(members, key),
            _ => None,
        }
    }
}

/// The members of an object with their keys as characters.
pub open spec fn keyed(members: Seq<(String, Json)>) -> Seq<(Seq<char>, Json)> {
    members.map_values(|m: (String, Json)| (m.0@, m.1))
}

/// Appends a member.
pub fn push_member(members: &mut Vec<(String, Json)>, key: &str, value: Json)
    ensures
        keyed(final(members)@) == keyed(old(members)@).push((key@, value)),
{
    let ghost before = members@;
    members.push((key.to_owned(), value));
    assert(keyed(members@) =~= keyed(before).push((key@, value)));
}

/// The first member with a key, as a position among pairs of keys and values.
pub proof fn lemma_member_at(members: Seq<(String, Json)>, key: Seq<char>, from: int, i: int)
    requires
        0 <= from <= i < members.len(),
        members[i].0@ == key,
        forall|k: int| from <= k < i ==> (#[trigger] members[k]).0@ != key,
    ensures
        member_from(members, key, from) == i,
    decreases i - from,
{
    if from < i {
        assert(members[from].0@ != key);
        lemma_member_at(members, key, from + 1, i);
    }
}

/// Where no member has the key, there is none.
pub proof fn lemma_no_member(members: Seq<(String, Json)>, key: Seq<char>, from: int)
    requires
        0 <= from <= members.len(),
        forall|k: int| from <= k < members.len() ==> (#[trigger] members[k]).0@ != key,
    ensures
        member_from(members, key, from) == members.len(),
    decreases members.len() - from,
{
    if from < members.len() {
        assert(members[from].0@ != key);
        lemma_no_member(members, key, from + 1);
    }
}

/// The value under a key is that of the first member with it; there is none exactly where no member
/// has the key.
pub proof fn law_first_member_is_read(
    members: &Vec<(String, Json)>,
    key: &str,
    i: int,
    value: Option<&Json>,
)
    requires
        call_ensures(get_member, (members, key), value),
    ensures
        (0 <= i < members@.len() && members@[i].0@ == key@ && forall|k: int|
            0 <= k < i ==> (#[trigger] members@[k]).0@ != key@) ==> value == Some(&members@[i].1),
        value is None <==> forall|k: int|
            0 <= k < members@.len() ==> (#[trigger] members@[k]).0@ != key@,
{
    if 0 <= i < members@.len() && members@[i].0@ == key@ && forall|k: int|
        0 <= k < i ==> (#[trigger] members@[k]).0@ != key@ {
        lemma_member_at(members@, key@, 0, i);
    }
    if forall|k: int| 0 <= k < members@.len() ==> (#[trigger] members@[k]).0@ != key@ {
        lemma_no_member(members@, key@, 0);
    }
    lemma_member_found(members@, key@, 0);
}

pub proof fn lemma_member_found(members: Seq<(String, Json)>, key: Seq<char>, from: int)
    requires
        0 <= from <= members.len(),
    ensures
        from <= member_from(members, key, from) <= members.len(),
        member_from(members, key, from) < members.len() ==> members[member_from(
            members,
            key,
            from,
        )].0@ == key,
        forall|k: int|
            from <= k < member_from(members, key, from) ==> (#[trigger] members[k]).0@ != key,
    decreases members.len() - from,
{
    if from < members.len() && members[from].0@ != key {
        lemma_member_found(members, key, from + 1);
    }
}

/// An added member is read under its key where there was none, and every other key reads as before.
pub proof fn law_added_member_is_read(
    members: &mut Vec<(String, Json)>,
    key: &str,
    value: Json,
    other: Seq<char>,
    done: (),
)
    requires
        call_ensures(push_member, (members, key, value), done),
    ensures
        member(old(members)@, key@) is None ==> member(final(members)@, key@) == Some(value),
        other != key@ || member(old(members)@, other) is Some ==> member(final(members)@, other)
            == member(old(members)@, other),
{
    let a = old(members)@;
    let b = final(members)@;
    assert(keyed(b).len() == b.len());
    assert(keyed(a).len() == a.len());
    assert(b.len() == a.len() + 1);
    assert forall|k: int| 0 <= k < a.len() implies (#[trigger] b[k]).0@ == a[k].0@ && b[k].1
        == a[k].1 by {
        assert(keyed(b)[k] == keyed(a)[k]);
    }
    assert(keyed(b)[a.len() as int] == (key@, value));
    assert(b[a.len() as int].0@ == key@ && b[a.len() as int].1 == value);
    lemma_member_found(a, key@, 0);
    lemma_member_found(a, other, 0);
    if member(a, key@) is None {
        lemma_member_at(b, key@, 0, a.len() as int);
    }
    if member(a, other) is Some {
        lemma_member_at(b, other, 0, member_from(a, other, 0));
    } else if other != key@ {
        lemma_no_member(b, other, 0);
    }
}

/// The first pair with a key is what is read under the key.
pub proof fn lemma_read_at(members: Seq<(String, Json)>, key: Seq<char>, i: int)
    requires
        0 <= i < keyed(members).len(),
        keyed(members)[i].0 == key,
        forall|k: int| 0 <= k < i ==> (#[trigger] keyed(members)[k]).0 != key,
    ensures
        member(members, key) == Some(keyed(members)[i].1),
{
    assert forall|k: int| 0 <= k < i implies (#[trigger] members[k]).0@ != key by {
        assert(keyed(members)[k].0 != key);
    }
    assert(keyed(members)[i] == (members[i].0@, members[i].1));
    lemma_member_at(members, key, 0, i);
}

/// Where no pair has the key, nothing is read under it.
pub proof fn lemma_read_none(members: Seq<(String, Json)>, key: Seq<char>)
    requires
        forall|k: int|
            0 <= k < keyed(members).len() ==> (#[trigger] keyed(members)[k]).0 != key,
    ensures
        member(members, key) is None,
{
    assert forall|k: int| 0 <= k < members.len() implies (#[trigger] members[k]).0@ != key by {
        assert(keyed(members)[k].0 != key);
    }
    lemma_no_member(members, key, 0);
}

/// A value is looked up by its key as the first member with that key; what is no object has none, and
/// neither has an object without the key.
pub proof fn law_a_value_is_looked_up_by_its_key(value: &Json, key: &str, i: int, r: Option<&Json>)
    requires
        call_ensures(Json::get, (value, key), r),
    ensures
        !(*value is Object) ==> r is None,
        *value matches Json::Object(members) ==> (0 <= i < members@.len() && members@[i].0@ == key@
            && (forall|k: int| 0 <= k < i ==> (#[trigger] members@[k]).0@ != key@) ==> r == Some(
            &members@[i].1,
        )),
        *value matches Json::Object(members) ==> ((forall|k: int|
            0 <= k < members@.len() ==> (#[trigger] members@[k]).0@ != key@) ==> r is None),
{
    if let Json::Object(members) = *value {
        if 0 <= i < members@.len() && members@[i].0@ == key@ && (forall|k: int|
            0 <= k < i ==> (#[trigger] members@[k]).0@ != key@) {
            lemma_member_at(members@, key@, 0, i);
        }
        if forall|k: int| 0 <= k < members@.len() ==> (#[trigger] members@[k]).0@ != key@ {
            lemma_no_member(members@, key@, 0);
        }
    }
}

} // verus!
