//! A plain model of a JSON document: a tree of values the decoder reads.
//! Numbers outside the signed 64-bit range, and non-integral numbers, are
//! carried as `OtherNum`; the response model never reads such a value.

use vstd::prelude::*;

use crate::text::str_eq;

verus! {

/// One member of a JSON object: a key and the value bound to it.
#[derive(Debug, PartialEq, Eq)]
pub struct Member {
    pub key: String,
    pub value: Json,
}

/// One JSON value. Object members keep the order in which they were given;
/// a key is looked up by its first occurrence.
#[derive(Debug, PartialEq, Eq)]
pub enum Json {
    Null,
    Bool(bool),
    Int(i64),
    OtherNum,
    Text(String),
    Array(Vec<Json>),
    Object(Vec<Member>),
}

/// The value under `key` among object members, by first occurrence.
pub open spec fn spec_lookup(fs: Seq<Member>, key: Seq<char>) -> Option<Json>
    decreases fs.len(),
{
    if fs.len() == 0 {
        None
    } else if fs[0].key@ == key {
        Some(fs[0].value)
    } else {
        spec_lookup(fs.drop_first(), key)
    }
}

/// Looks a key up among the members of an object.
pub fn lookup<'a>(fs: &'a Vec<Member>, key: &str) -> (r: Option<&'a Json>)
    ensures
        (match r {
            Some(j) => spec_lookup(fs@, key@) == Some(*j),
            None => spec_lookup(fs@, key@) is None,
        }),
{
    let n = fs.len();
    let mut i: usize = 0;
    proof {
        assert(fs@.skip(0) =~= fs@);
    }
    while i < n
        invariant
            n == fs@.len(),
            i <= n,
            spec_lookup(fs@, key@) == spec_lookup(fs@.skip(i as int), key@),
        decreases n - i,
    {
        let pair = &fs[i];
        proof {
            assert(fs@.skip(i as int)[0] == fs@[i as int]);
        }
        if str_eq(pair.key.as_str(), key) {
            return Some(&pair.value);
        }
        proof {
            assert(fs@.skip(i as int).drop_first() =~= fs@.skip(i as int + 1));
        }
        i += 1;
    }
    proof {
        assert(fs@.skip(n as int) =~= Seq::<Member>::empty());
    }
    None
}

/// A required textual member: its characters, when `key` is bound to a
/// JSON string; `None` otherwise.
pub open spec fn str_field(fs: Seq<Member>, key: Seq<char>) -> Option<Seq<char>> {
    match spec_lookup(fs, key) {
        Some(Json::Text(s)) => Some(s@),
        _ => None,
    }
}

/// An optional textual member: absent or null counts as present-and-empty;
/// any non-string, non-null value is a fault.
pub open spec fn opt_str_field(fs: Seq<Member>, key: Seq<char>) -> Option<
    Option<Seq<char>>,
> {
    match spec_lookup(fs, key) {
        None => Some(None),
        Some(Json::Null) => Some(None),
        Some(Json::Text(s)) => Some(Some(s@)),
        Some(_) => None,
    }
}

/// A required boolean member.
pub open spec fn bool_field(fs: Seq<Member>, key: Seq<char>) -> Option<bool> {
    match spec_lookup(fs, key) {
        Some(Json::Bool(b)) => Some(b),
        _ => None,
    }
}

/// A required integral member that fits a signed 32-bit value.
pub open spec fn i32_field(fs: Seq<Member>, key: Seq<char>) -> Option<i32> {
    match spec_lookup(fs, key) {
        Some(Json::Int(n)) => if -0x8000_0000 <= n && n <= 0x7fff_ffff {
            Some(n as i32)
        } else {
            None
        },
        _ => None,
    }
}

/// Reads a required textual member.
pub fn get_string(fs: &Vec<Member>, key: &str) -> (r: Option<String>)
    ensures
        r is Some <==> str_field(fs@, key@) is Some,
        (r matches Some(s) ==> str_field(fs@, key@) == Some(s@)),
{
    match lookup(fs, key) {
        Some(j) => match j {
            Json::Text(s) => Some(s.clone()),
            _ => None,
        },
        None => None,
    }
}

/// Reads an optional textual member; absent and null both read as `None`.
pub fn get_opt_string(fs: &Vec<Member>, key: &str) -> (r: Option<Option<String>>)
    ensures
        r is Some <==> opt_str_field(fs@, key@) is Some,
        (r matches Some(o) ==> (match o {
            Some(s) => opt_str_field(fs@, key@) == Some(Some(s@)),
            None => opt_str_field(fs@, key@) == Some(None::<Seq<char>>),
        })),
{
    match lookup(fs, key) {
        Some(j) => match j {
            Json::Null => Some(None),
            Json::Text(s) => Some(Some(s.clone())),
            _ => None,
        },
        None => Some(None),
    }
}

/// Reads a required boolean member.
pub fn get_bool(fs: &Vec<Member>, key: &str) -> (r: Option<bool>)
    ensures
        r == bool_field(fs@, key@),
{
    match lookup(fs, key) {
        Some(j) => match j {
            Json::Bool(b) => Some(*b),
            _ => None,
        },
        None => None,
    }
}

/// Reads a required integral member that must fit a signed 32-bit value.
pub fn get_i32(fs: &Vec<Member>, key: &str) -> (r: Option<i32>)
    ensures
        r == i32_field(fs@, key@),
{
    match lookup(fs, key) {
        Some(j) => match j {
            Json::Int(n) => if -0x8000_0000i64 <= *n && *n <= 0x7fff_ffffi64 {
                Some(*n as i32)
            } else {
                None
            },
            _ => None,
        },
        None => None,
    }
}

} // verus!
