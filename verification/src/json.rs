//! The parsed JSON tree that a layout is decoded from.

use vstd::prelude::*;
use crate::color::{color_from_str, parse_color, Color};
use crate::scalar::Real;

verus! {

/// A JSON value. A number is an `Integer` where it was written as a whole
/// number that fits, and a `Real` in the geometry's own number type otherwise.
#[derive(Debug, PartialEq)]
pub enum Json<T> {
    Null,
    Bool(bool),
    Integer(i64),
    Real(T),
    Text(String),
    Array(Vec<Json<T>>),
    Object(Vec<Member<T>>),
}

/// One `key: value` pair of a JSON object.
#[derive(Debug, PartialEq)]
pub struct Member<T> {
    pub key: String,
    pub value: Json<T>,
}

/// The value that an object gives to `code`: that of the last member with
/// this key, as a later pair replaces an earlier one.
pub open spec fn lookup<T>(members: Seq<Member<T>>, code: Seq<char>) -> Option<Json<T>>
    decreases members.len(),
{
    if members.len() == 0 {
        None
    } else if members.last().key@ == code {
        Some(members.last().value)
    } else {
        lookup(members.drop_last(), code)
    }
}

/// The text under `code`, if the object holds a string there.
pub open spec fn text_field<T>(members: Seq<Member<T>>, code: Seq<char>) -> Option<Seq<char>> {
    match lookup(members, code) {
        Some(Json::Text(s)) => Some(s@),
        _ => None,
    }
}

/// The truth value under `code`, if the object holds one there.
pub open spec fn flag_field<T>(members: Seq<Member<T>>, code: Seq<char>) -> Option<bool> {
    match lookup(members, code) {
        Some(Json::Bool(b)) => Some(b),
        _ => None,
    }
}

/// The whole number under `code`, if the object holds one there.
pub open spec fn integer_field<T>(members: Seq<Member<T>>, code: Seq<char>) -> Option<i64> {
    match lookup(members, code) {
        Some(Json::Integer(n)) => Some(n),
        _ => None,
    }
}

/// The number under `code` as a geometry value, if the object holds a number
/// there.
pub open spec fn real_field<T: Real>(members: Seq<Member<T>>, code: Seq<char>) -> Option<T> {
    match lookup(members, code) {
        Some(Json::Integer(n)) => Some(T::spec_from_integer(n)),
        Some(Json::Real(t)) => Some(t),
        _ => None,
    }
}

/// The colour under `code`, if the object holds a string there that denotes
/// one.
pub open spec fn color_field<T>(members: Seq<Member<T>>, code: Seq<char>) -> Option<Color> {
    match text_field(members, code) {
        Some(s) => parse_color(s),
        None => None,
    }
}

/// Looks `code` up in an object.
pub fn find<'a, T>(members: &'a Vec<Member<T>>, code: &str) -> (r: Option<&'a Json<T>>)
    ensures
        match r {
            Some(value) => lookup(members@, code@) == Some(*value),
            None => lookup(members@, code@) is None,
        },
{
    let wanted = code.to_owned();
    let mut i = members.len();
    assert(members@.take(i as int) == members@);
    while i > 0
        invariant
            i <= members.len(),
            wanted@ == code@,
            lookup(members@, code@) == lookup(members@.take(i as int), code@),
        decreases i,
    {
        i -= 1;
        assert(members@.take(i + 1).drop_last() == members@.take(i as int));
        if members[i].key == wanted {
            return Some(&members[i].value);
        }
    }
    None
}

/// Reads the text under `code`.
pub fn get_text<'a, T>(members: &'a Vec<Member<T>>, code: &str) -> (r: Option<&'a String>)
    ensures
        match r {
            Some(s) => text_field(members@, code@) == Some(s@),
            None => text_field(members@, code@) is None,
        },
{
    match find(members, code) {
        Some(Json::Text(s)) => Some(s),
        _ => None,
    }
}

/// Reads the truth value under `code`.
pub fn get_flag<T>(members: &Vec<Member<T>>, code: &str) -> (r: Option<bool>)
    ensures
        r == flag_field(members@, code@),
{
    match find(members, code) {
        Some(Json::Bool(b)) => Some(*b),
        _ => None,
    }
}

/// Reads the whole number under `code`.
pub fn get_integer<T>(members: &Vec<Member<T>>, code: &str) -> (r: Option<i64>)
    ensures
        r == integer_field(members@, code@),
{
    match find(members, code) {
        Some(Json::Integer(n)) => Some(*n),
        _ => None,
    }
}

/// Reads the number under `code` as a geometry value.
pub fn get_real<T: Real>(members: &Vec<Member<T>>, code: &str) -> (r: Option<T>)
    ensures
        r == real_field(members@, code@),
{
    match find(members, code) {
        Some(Json::Integer(n)) => Some(T::from_integer(*n)),
        Some(Json::Real(t)) => Some(*t),
        _ => None,
    }
}

/// Reads the colour under `code`.
pub fn get_color<T>(members: &Vec<Member<T>>, code: &str) -> (r: Option<Color>)
    ensures
        r == color_field(members@, code@),
{
    match get_text(members, code) {
        Some(s) => color_from_str(s.as_str()),
        None => None,
    }
}

} // verus!
