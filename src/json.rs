//! JSON documents as plain values, and lookup of object members.
use vstd::prelude::*;

verus! {

/// A JSON value. An object keeps its members in the order they were written.
#[derive(Debug, PartialEq)]
pub enum Json {
    Null,
    Bool(bool),
    /// A non-negative integer.
    UInt(u64),
    /// An integer read as signed; a negative one always takes this form.
    Int(i64),
    /// A number with a fraction or an exponent, kept as its decimal text.
    Float(String),
    Str(String),
    Array(Vec<Json>),
    Object(Vec<(String, Json)>),
}

/// `i` is the position of the first member named `key`.
pub open spec fn first_member_at(members: Seq<(String, Json)>, key: Seq<char>, i: int) -> bool {
    &&& 0 <= i < members.len()
    &&& members[i].0@ == key
    &&& forall|j: int| 0 <= j < i ==> members[j].0@ != key
}

/// The value of the first member named `key`, if there is one.
pub open spec fn member(members: Seq<(String, Json)>, key: Seq<char>) -> Option<Json> {
    if exists|i: int| first_member_at(members, key, i) {
        Some(members[choose|i: int| first_member_at(members, key, i)].1)
    } else {
        None
    }
}

/// The member `key` of `j`, where `j` is an object that has one.
pub open spec fn field(j: Json, key: Seq<char>) -> Option<Json> {
    match j {
        Json::Object(members) => member(members@, key),
        _ => None,
    }
}

/// The text of the member `key` of `j`, where that member is a string.
pub open spec fn str_field(j: Json, key: Seq<char>) -> Option<Seq<char>> {
    match field(j, key) {
        Some(Json::Str(s)) => Some(s@),
        _ => None,
    }
}

/// The member `key` of `j`, where that member is an integer that fits in a `u32`.
pub open spec fn u32_field(j: Json, key: Seq<char>) -> Option<u32> {
    match field(j, key) {
        Some(Json::UInt(n)) => if n <= u32::MAX { Some(n as u32) } else { None },
        Some(Json::Int(n)) => if 0 <= n <= u32::MAX { Some(n as u32) } else { None },
        _ => None,
    }
}

/// The number of members of `j`, where `j` is an object; zero otherwise.
pub open spec fn member_count(j: Json) -> nat {
    match j {
        Json::Object(members) => members@.len(),
        _ => 0,
    }
}

proof fn lemma_first_member_unique(members: Seq<(String, Json)>, key: Seq<char>, i: int, k: int)
    requires
        first_member_at(members, key, i),
        first_member_at(members, key, k),
    ensures
        i == k,
{
}

/// The member found at the first position with its name is the member of that name.
pub proof fn lemma_member_is(members: Seq<(String, Json)>, key: Seq<char>, i: int)
    requires
        first_member_at(members, key, i),
    ensures
        member(members, key) == Some(members[i].1),
{
    let c = choose|c: int| first_member_at(members, key, c);
    lemma_first_member_unique(members, key, i, c);
}

/// A name that no member carries has no member.
pub proof fn lemma_member_absent(members: Seq<(String, Json)>, key: Seq<char>)
    requires
        forall|i: int| 0 <= i < members.len() ==> members[i].0@ != key,
    ensures
        member(members, key) is None,
{
}

/// Where some member is named `key`, a first one is.
pub proof fn lemma_first_member_exists(members: Seq<(String, Json)>, key: Seq<char>, k: int)
    requires
        0 <= k < members.len(),
        members[k].0@ == key,
    ensures
        member(members, key) is Some,
    decreases k,
{
    if forall|j: int| 0 <= j < k ==> members[j].0@ != key {
        lemma_member_is(members, key, k);
    } else {
        let j = choose|j: int| 0 <= j < k && members[j].0@ == key;
        lemma_first_member_exists(members, key, j);
    }
}

/// Appending a member changes only the lookup of a name not present before.
pub proof fn lemma_member_push(members: Seq<(String, Json)>, name: String, value: Json, key: Seq<char>)
    ensures
        member(members.push((name, value)), key) == if member(members, key) is Some || name@ != key {
            member(members, key)
        } else {
            Some(value)
        },
{
    let pushed = members.push((name, value));
    if member(members, key) is Some {
        let i = choose|i: int| first_member_at(members, key, i);
        assert(first_member_at(pushed, key, i));
        lemma_member_is(pushed, key, i);
    } else {
        assert forall|k: int| 0 <= k < members.len() implies members[k].0@ != key by {
            if members[k].0@ == key {
                lemma_first_member_exists(members, key, k);
            }
        }
        if name@ == key {
            assert(first_member_at(pushed, key, members.len() as int));
            lemma_member_is(pushed, key, members.len() as int);
        } else {
            lemma_member_absent(pushed, key);
        }
    }
}

/// Finds the first member named `key`.
pub fn find_member(members: &Vec<(String, Json)>, key: &str) -> (r: Option<usize>)
    ensures
        r matches Some(i) ==> first_member_at(members@, key@, i as int)
            && member(members@, key@) == Some(members@[i as int].1),
        r is None ==> member(members@, key@) is None,
{
    let name = String::from_str(key);
    let mut i: usize = 0;
    while i < members.len()
        invariant
            i <= members@.len(),
            name@ == key@,
            forall|j: int| 0 <= j < i ==> members@[j].0@ != key@,
        decreases members@.len() - i,
    {
        if members[i].0 == name {
            proof {
                lemma_member_is(members@, key@, i as int);
            }
            return Some(i);
        }
        i = i + 1;
    }
    proof {
        assert forall|c: int| !first_member_at(members@, key@, c) by {
            if 0 <= c < members@.len() {
                assert(members@[c].0@ != key@);
            }
        }
    }
    None
}

/// The member `key` of `j`, where `j` is an object that has one.
pub fn get_field<'a>(j: &'a Json, key: &str) -> (r: Option<&'a Json>)
    ensures
        r matches Some(v) ==> field(*j, key@) == Some(*v),
        r is None ==> field(*j, key@) is None,
{
    match j {
        Json::Object(members) => match find_member(members, key) {
            Some(i) => Some(&members[i].1),
            None => None,
        },
        _ => None,
    }
}

/// A copy of the text of the member `key` of `j`, where that member is a string.
pub fn get_str(j: &Json, key: &str) -> (r: Option<String>)
    ensures
        r matches Some(s) ==> str_field(*j, key@) == Some(s@),
        r is None ==> str_field(*j, key@) is None,
{
    match get_field(j, key) {
        Some(Json::Str(s)) => Some(s.clone()),
        _ => None,
    }
}

/// The member `key` of `j`, where it is an integer that fits in a `u32`.
pub fn get_u32(j: &Json, key: &str) -> (r: Option<u32>)
    ensures
        r == u32_field(*j, key@),
{
    match get_field(j, key) {
        Some(Json::UInt(n)) => if *n <= 0xffff_ffffu64 { Some(*n as u32) } else { None },
        Some(Json::Int(n)) => if 0 <= *n && *n <= 0xffff_ffffi64 { Some(*n as u32) } else { None },
        _ => None,
    }
}

} // verus!
