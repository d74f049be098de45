//! A closed model of the JSON values that JSON-RPC responses carry.
//!
//! The transport layer parses response bodies and hands values of this
//! type to the normalizer; all field reads below are defensive, so a
//! missing or wrong-typed field degrades to an absent value instead of
//! failing a whole response.  Numbers are kept as integers; JSON numbers
//! that are not integers carry no meaning for any consumed field and are
//! represented as `Null` by the transport layer.

use vstd::prelude::*;
use vstd::string::*;

verus! {

/// A JSON value: null, boolean, integer, string, array or object.
/// Objects keep their fields in order; a lookup returns the first match.
#[derive(Debug, PartialEq)]
pub enum JsonValue {
    Null,
    Bool(bool),
    Int(i128),
    Str(String),
    Arr(Vec<JsonValue>),
    Obj(Vec<(String, JsonValue)>),
}

/// The first value in `pairs` whose key reads as `key`.
pub open spec fn lookup(pairs: Seq<(String, JsonValue)>, key: Seq<char>) -> Option<JsonValue>
    decreases pairs.len(),
{
    if pairs.len() == 0 {
        None
    } else if pairs[0].0@ == key {
        Some(pairs[0].1)
    } else {
        lookup(pairs.drop_first(), key)
    }
}

/// The field `key` of `j`, when `j` is an object that has it.
pub open spec fn spec_get(j: JsonValue, key: Seq<char>) -> Option<JsonValue> {
    match j {
        JsonValue::Obj(pairs) => lookup(pairs@, key),
        _ => None,
    }
}

pub open spec fn spec_as_u64(j: JsonValue) -> Option<u64> {
    match j {
        JsonValue::Int(i) => if 0 <= i <= u64::MAX {
            Some(i as u64)
        } else {
            None
        },
        _ => None,
    }
}

pub open spec fn spec_as_i64(j: JsonValue) -> Option<i64> {
    match j {
        JsonValue::Int(i) => if i64::MIN <= i <= i64::MAX {
            Some(i as i64)
        } else {
            None
        },
        _ => None,
    }
}

pub open spec fn spec_as_bool(j: JsonValue) -> Option<bool> {
    match j {
        JsonValue::Bool(b) => Some(b),
        _ => None,
    }
}

pub open spec fn spec_str_of(j: JsonValue) -> Option<Seq<char>> {
    match j {
        JsonValue::Str(s) => Some(s@),
        _ => None,
    }
}

pub open spec fn spec_arr_of(j: JsonValue) -> Option<Seq<JsonValue>> {
    match j {
        JsonValue::Arr(v) => Some(v@),
        _ => None,
    }
}

pub open spec fn spec_get_u64(j: JsonValue, key: Seq<char>) -> Option<u64> {
    match spec_get(j, key) {
        Some(v) => spec_as_u64(v),
        None => None,
    }
}

pub open spec fn spec_get_i64(j: JsonValue, key: Seq<char>) -> Option<i64> {
    match spec_get(j, key) {
        Some(v) => spec_as_i64(v),
        None => None,
    }
}

pub open spec fn spec_get_bool(j: JsonValue, key: Seq<char>) -> Option<bool> {
    match spec_get(j, key) {
        Some(v) => spec_as_bool(v),
        None => None,
    }
}

pub open spec fn spec_get_str(j: JsonValue, key: Seq<char>) -> Option<Seq<char>> {
    match spec_get(j, key) {
        Some(v) => spec_str_of(v),
        None => None,
    }
}

pub open spec fn spec_has_key(j: JsonValue, key: Seq<char>) -> bool {
    spec_get(j, key) is Some
}

impl JsonValue {
    /// The field `key`, when this value is an object that has it.
    pub fn get<'a>(&'a self, key: &str) -> (r: Option<&'a JsonValue>)
        ensures
            match r {
                Some(v) => spec_get(*self, key@) == Some(*v),
                None => spec_get(*self, key@) is None,
            },
    {
        match self {
            JsonValue::Obj(pairs) => {
                let k = key.to_owned();
                let n = pairs.len();
                let mut i: usize = 0;
                proof {
                    assert(pairs@.skip(0) =~= pairs@);
                }
                while i < n
                    invariant
                        i <= n,
                        n == pairs.len(),
                        k@ == key@,
                        *self == JsonValue::Obj(*pairs),
                        lookup(pairs@, key@) == lookup(pairs@.skip(i as int), key@),
                    decreases n - i,
                {
                    proof {
                        assert(pairs@.skip(i as int)[0] == pairs@[i as int]);
                    }
                    if pairs[i].0 == k {
                        let out = &pairs[i].1;
                        proof {
                            assert(pairs@[i as int].0@ == key@);
                            assert(lookup(pairs@.skip(i as int), key@) == Some(
                                pairs@[i as int].1,
                            ));
                            assert(*out == pairs@[i as int].1);
                            assert(lookup(pairs@, key@) == Some(*out));
                            assert(spec_get(*self, key@) == Some(*out));
                        }
                        return Some(out);
                    }
                    proof {
                        assert(pairs@.skip(i as int).drop_first() =~= pairs@.skip(i + 1));
                    }
                    i = i + 1;
                }
                proof {
                    assert(pairs@.skip(n as int) =~= Seq::<(String, JsonValue)>::empty());
                }
                None
            },
            _ => None,
        }
    }

    pub fn is_null(&self) -> (r: bool)
        ensures
            r == (*self is Null),
    {
        matches!(self, JsonValue::Null)
    }

    pub fn as_u64(&self) -> (r: Option<u64>)
        ensures
            r == spec_as_u64(*self),
    {
        match self {
            JsonValue::Int(i) => {
                let v = *i;
                if 0 <= v && v <= u64::MAX as i128 {
                    Some(v as u64)
                } else {
                    None
                }
            },
            _ => None,
        }
    }

    pub fn as_i64(&self) -> (r: Option<i64>)
        ensures
            r == spec_as_i64(*self),
    {
        match self {
            JsonValue::Int(i) => {
                let v = *i;
                if i64::MIN as i128 <= v && v <= i64::MAX as i128 {
                    Some(v as i64)
                } else {
                    None
                }
            },
            _ => None,
        }
    }

    pub fn as_bool(&self) -> (r: Option<bool>)
        ensures
            r == spec_as_bool(*self),
    {
        match self {
            JsonValue::Bool(b) => Some(*b),
            _ => None,
        }
    }

    pub fn as_str(&self) -> (r: Option<&String>)
        ensures
            match r {
                Some(s) => spec_str_of(*self) == Some(s@),
                None => spec_str_of(*self) is None,
            },
    {
        match self {
            JsonValue::Str(s) => Some(s),
            _ => None,
        }
    }

    pub fn as_array(&self) -> (r: Option<&Vec<JsonValue>>)
        ensures
            match r {
                Some(a) => spec_arr_of(*self) == Some(a@),
                None => spec_arr_of(*self) is None,
            },
    {
        match self {
            JsonValue::Arr(v) => Some(v),
            _ => None,
        }
    }

    pub fn get_u64(&self, key: &str) -> (r: Option<u64>)
        ensures
            r == spec_get_u64(*self, key@),
    {
        match self.get(key) {
            Some(v) => v.as_u64(),
            None => None,
        }
    }

    pub fn get_i64(&self, key: &str) -> (r: Option<i64>)
        ensures
            r == spec_get_i64(*self, key@),
    {
        match self.get(key) {
            Some(v) => v.as_i64(),
            None => None,
        }
    }

    pub fn get_bool(&self, key: &str) -> (r: Option<bool>)
        ensures
            r == spec_get_bool(*self, key@),
    {
        match self.get(key) {
            Some(v) => v.as_bool(),
            None => None,
        }
    }

    pub fn get_str<'a>(&'a self, key: &str) -> (r: Option<&'a String>)
        ensures
            match r {
                Some(s) => spec_get_str(*self, key@) == Some(s@),
                None => spec_get_str(*self, key@) is None,
            },
    {
        match self.get(key) {
            Some(v) => v.as_str(),
            None => None,
        }
    }

    pub fn has_key(&self, key: &str) -> (r: bool)
        ensures
            r == spec_has_key(*self, key@),
    {
        match self.get(key) {
            Some(_) => true,
            None => false,
        }
    }
}

} // verus!
