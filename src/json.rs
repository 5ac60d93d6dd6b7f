use vstd::prelude::*;
use crate::decimal::{parse_u64, parsed_u64};

verus! {

/// A JSON value as it travels on the wire. Numbers keep the text of their literal,
/// so that integer amounts never pass through floating point.
#[derive(Debug, PartialEq, Eq)]
pub enum Json {
    Null,
    Bool(bool),
    Number(String),
    Str(String),
    Array(Vec<Json>),
    Object(Vec<(String, Json)>),
}

/// Why a response body could not be read as the record that was asked for.
#[derive(Debug, PartialEq, Eq)]
pub enum DecodeError {
    /// The body was not JSON at all; holds the parser's description.
    Malformed(String),
    /// A value that should be an object is something else.
    NotAnObject,
    /// A required member is absent.
    MissingField(String),
    /// A member is present but of the wrong kind or out of range.
    InvalidField(String),
}

/// The value of the first member named `key`, if any.
pub open spec fn field_of(fields: Seq<(String, Json)>, key: Seq<char>) -> Option<Json>
    decreases fields.len(),
{
    if fields.len() == 0 {
        None
    } else if fields[0].0@ == key {
        Some(fields[0].1)
    } else {
        field_of(fields.drop_first(), key)
    }
}

pub open spec fn str_field(fields: Seq<(String, Json)>, key: Seq<char>) -> Option<Seq<char>> {
    match field_of(fields, key) {
        Some(Json::Str(t)) => Some(t@),
        _ => None,
    }
}

/// An absent or null member reads as `Some(None)`; a string as `Some(Some(..))`.
pub open spec fn opt_str_field(fields: Seq<(String, Json)>, key: Seq<char>) -> Option<Option<Seq<char>>> {
    match field_of(fields, key) {
        None => Some(None),
        Some(Json::Null) => Some(None),
        Some(Json::Str(t)) => Some(Some(t@)),
        _ => None,
    }
}

/// A non-negative integer member no greater than `max`.
pub open spec fn uint_field(fields: Seq<(String, Json)>, key: Seq<char>, max: nat) -> Option<nat> {
    match field_of(fields, key) {
        Some(Json::Number(t)) => match parsed_u64(t@) {
            Some(v) => if v <= max { Some(v as nat) } else { None },
            None => None,
        },
        _ => None,
    }
}

pub open spec fn opt_uint_field(fields: Seq<(String, Json)>, key: Seq<char>) -> Option<Option<nat>> {
    match field_of(fields, key) {
        None => Some(None),
        Some(Json::Null) => Some(None),
        Some(Json::Number(t)) => match parsed_u64(t@) {
            Some(v) => Some(Some(v as nat)),
            None => None,
        },
        _ => None,
    }
}

pub open spec fn is_hex_digit(c: char) -> bool {
    ('0' <= c && c <= '9') || ('a' <= c && c <= 'f') || ('A' <= c && c <= 'F')
}

/// Hex text for exactly `nbytes` bytes.
pub open spec fn is_hex_of_len(t: Seq<char>, nbytes: nat) -> bool {
    t.len() == 2 * nbytes && forall|i: int| 0 <= i < t.len() ==> is_hex_digit(#[trigger] t[i])
}

pub open spec fn hash_field(fields: Seq<(String, Json)>, key: Seq<char>, nbytes: nat) -> Option<Seq<char>> {
    match str_field(fields, key) {
        Some(t) => if is_hex_of_len(t, nbytes) { Some(t) } else { None },
        None => None,
    }
}

pub open spec fn opt_hash_field(fields: Seq<(String, Json)>, key: Seq<char>, nbytes: nat) -> Option<Option<Seq<char>>> {
    match opt_str_field(fields, key) {
        Some(Some(t)) => if is_hex_of_len(t, nbytes) { Some(Some(t)) } else { None },
        other => other,
    }
}

pub proof fn lemma_field_of_skip(fields: Seq<(String, Json)>, key: Seq<char>, i: int)
    requires
        0 <= i <= fields.len(),
        forall|j: int| 0 <= j < i ==> (#[trigger] fields[j]).0@ != key,
    ensures
        field_of(fields, key) == field_of(fields.subrange(i, fields.len() as int), key),
    decreases i,
{
    if i > 0 {
        let rest = fields.drop_first();
        assert forall|j: int| 0 <= j < i - 1 implies (#[trigger] rest[j]).0@ != key by {
            assert(rest[j] == fields[j + 1]);
        }
        lemma_field_of_skip(rest, key, i - 1);
        assert(rest.subrange(i - 1, rest.len() as int) =~= fields.subrange(i, fields.len() as int));
    } else {
        assert(fields.subrange(0, fields.len() as int) =~= fields);
    }
}

/// The member at `i` is the first one named `key`.
pub proof fn lemma_field_at(fields: Seq<(String, Json)>, key: Seq<char>, i: int)
    requires
        0 <= i < fields.len(),
        fields[i].0@ == key,
        forall|j: int| 0 <= j < i ==> (#[trigger] fields[j]).0@ != key,
    ensures
        field_of(fields, key) == Some(fields[i].1),
{
    lemma_field_of_skip(fields, key, i);
    let rest = fields.subrange(i, fields.len() as int);
    assert(rest[0] == fields[i]);
}

/// Looks up the first member named `key`.
pub fn get_field<'a>(fields: &'a Vec<(String, Json)>, key: &str) -> (r: Option<&'a Json>)
    ensures
        match r {
            Some(v) => field_of(fields@, key@) == Some(*v),
            None => field_of(fields@, key@) is None,
        },
{
    let k = String::from_str(key);
    let mut i: usize = 0;
    while i < fields.len()
        invariant
            k@ == key@,
            i <= fields@.len(),
            forall|j: int| 0 <= j < i ==> (#[trigger] fields@[j]).0@ != key@,
        decreases fields@.len() - i,
    {
        if fields[i].0 == k {
            proof {
                lemma_field_of_skip(fields@, key@, i as int);
                let rest = fields@.subrange(i as int, fields@.len() as int);
                assert(rest[0] == fields@[i as int]);
            }
            return Some(&fields[i].1);
        }
        i = i + 1;
    }
    proof {
        lemma_field_of_skip(fields@, key@, i as int);
    }
    None
}

fn missing(key: &str) -> (r: DecodeError)
    ensures
        r matches DecodeError::MissingField(k) && k@ == key@,
{
    DecodeError::MissingField(String::from_str(key))
}

fn invalid(key: &str) -> (r: DecodeError)
    ensures
        r matches DecodeError::InvalidField(k) && k@ == key@,
{
    DecodeError::InvalidField(String::from_str(key))
}

/// Reads a required string member.
pub fn take_str(fields: &Vec<(String, Json)>, key: &str) -> (r: Result<String, DecodeError>)
    ensures
        match r {
            Ok(s) => str_field(fields@, key@) == Some(s@),
            Err(_) => str_field(fields@, key@) is None,
        },
{
    match get_field(fields, key) {
        Some(Json::Str(t)) => Ok(t.clone()),
        Some(_) => Err(invalid(key)),
        None => Err(missing(key)),
    }
}

/// Reads an optional string member; null counts as absent.
pub fn take_opt_str(fields: &Vec<(String, Json)>, key: &str) -> (r: Result<Option<String>, DecodeError>)
    ensures
        match r {
            Ok(Some(s)) => opt_str_field(fields@, key@) == Some(Some(s@)),
            Ok(None) => opt_str_field(fields@, key@) == Some(None::<Seq<char>>),
            Err(_) => opt_str_field(fields@, key@) is None,
        },
{
    match get_field(fields, key) {
        Some(Json::Str(t)) => Ok(Some(t.clone())),
        Some(Json::Null) => Ok(None),
        Some(_) => Err(invalid(key)),
        None => Ok(None),
    }
}

/// Reads a required integer member that must not exceed `max`.
pub fn take_uint(fields: &Vec<(String, Json)>, key: &str, max: u64) -> (r: Result<u64, DecodeError>)
    ensures
        match r {
            Ok(v) => uint_field(fields@, key@, max as nat) == Some(v as nat),
            Err(_) => uint_field(fields@, key@, max as nat) is None,
        },
{
    match get_field(fields, key) {
        Some(Json::Number(t)) => match parse_u64(t.as_str()) {
            Some(v) => if v <= max { Ok(v) } else { Err(invalid(key)) },
            None => Err(invalid(key)),
        },
        Some(_) => Err(invalid(key)),
        None => Err(missing(key)),
    }
}

/// Reads an optional integer member; null counts as absent.
pub fn take_opt_uint(fields: &Vec<(String, Json)>, key: &str) -> (r: Result<Option<u64>, DecodeError>)
    ensures
        match r {
            Ok(Some(v)) => opt_uint_field(fields@, key@) == Some(Some(v as nat)),
            Ok(None) => opt_uint_field(fields@, key@) == Some(None::<nat>),
            Err(_) => opt_uint_field(fields@, key@) is None,
        },
{
    match get_field(fields, key) {
        Some(Json::Number(t)) => match parse_u64(t.as_str()) {
            Some(v) => Ok(Some(v)),
            None => Err(invalid(key)),
        },
        Some(Json::Null) => Ok(None),
        Some(_) => Err(invalid(key)),
        None => Ok(None),
    }
}

/// Whether `t` is hex text for exactly `nbytes` bytes.
pub fn check_hex(t: &str, nbytes: usize) -> (r: bool)
    ensures
        r == is_hex_of_len(t@, nbytes as nat),
{
    let n = t.unicode_len();
    if nbytes > usize::MAX / 2 || n != 2 * nbytes {
        return false;
    }
    let mut i: usize = 0;
    while i < n
        invariant
            n == t@.len(),
            i <= n,
            forall|j: int| 0 <= j < i ==> is_hex_digit(#[trigger] t@[j]),
        decreases n - i,
    {
        let c = t.get_char(i);
        if !(('0' <= c && c <= '9') || ('a' <= c && c <= 'f') || ('A' <= c && c <= 'F')) {
            return false;
        }
        i = i + 1;
    }
    true
}

/// Reads a required member holding hex text for `nbytes` bytes.
pub fn take_hash(fields: &Vec<(String, Json)>, key: &str, nbytes: usize) -> (r: Result<String, DecodeError>)
    ensures
        match r {
            Ok(s) => hash_field(fields@, key@, nbytes as nat) == Some(s@),
            Err(_) => hash_field(fields@, key@, nbytes as nat) is None,
        },
{
    let t = take_str(fields, key)?;
    if check_hex(t.as_str(), nbytes) {
        Ok(t)
    } else {
        Err(invalid(key))
    }
}

/// Reads an optional member holding hex text for `nbytes` bytes.
pub fn take_opt_hash(fields: &Vec<(String, Json)>, key: &str, nbytes: usize) -> (r: Result<Option<String>, DecodeError>)
    ensures
        match r {
            Ok(Some(s)) => opt_hash_field(fields@, key@, nbytes as nat) == Some(Some(s@)),
            Ok(None) => opt_hash_field(fields@, key@, nbytes as nat) == Some(None::<Seq<char>>),
            Err(_) => opt_hash_field(fields@, key@, nbytes as nat) is None,
        },
{
    match take_opt_str(fields, key) {
        Ok(Some(t)) => if check_hex(t.as_str(), nbytes) { Ok(Some(t)) } else { Err(invalid(key)) },
        Ok(None) => Ok(None),
        Err(e) => Err(e),
    }
}

} // verus!
