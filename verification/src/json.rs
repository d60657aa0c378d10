//! The library's model of a loosely typed parameter value: a JSON-like
//! tree of plain values. A node's parameter bag is an object in this
//! model; handlers read single keys from it with type coercion and
//! defaults, so lookups that miss or find a value of the wrong shape are
//! never fatal.
//!
//! Numbers carry only the unsigned-integer range the handlers read;
//! callers map any other numeric value to `Null`, which every read
//! treats as mistyped (and so substitutes the documented default).

use vstd::prelude::*;

verus! {

/// A JSON-like value made of plain data.
pub enum JsonValue {
    Null,
    Bool(bool),
    UInt(u64),
    Str(String),
    Arr(Vec<JsonValue>),
    Obj(Vec<(String, JsonValue)>),
}

/// The value under `key` in an entry list: the first entry whose key
/// matches, if any.
pub open spec fn spec_lookup(entries: Seq<(String, JsonValue)>, key: Seq<char>) -> Option<
    JsonValue,
>
    decreases entries.len(),
{
    if entries.len() == 0 {
        None
    } else if entries[0].0@ == key {
        Some(entries[0].1)
    } else {
        spec_lookup(entries.drop_first(), key)
    }
}

/// The value under `key` in `v`: `None` unless `v` is an object with an
/// entry for `key`.
pub open spec fn spec_get(v: JsonValue, key: Seq<char>) -> Option<JsonValue> {
    match v {
        JsonValue::Obj(entries) => spec_lookup(entries@, key),
        _ => None,
    }
}

/// Looks `key` up in `v`, returning a reference to the first matching
/// entry's value when `v` is an object that has one.
pub fn json_get<'a>(v: &'a JsonValue, key: &str) -> (r: Option<&'a JsonValue>)
    ensures
        match r {
            Some(found) => spec_get(*v, key@) == Some(*found),
            None => spec_get(*v, key@) is None,
        },
{
    match v {
        JsonValue::Obj(entries) => {
            let wanted = String::from_str(key);
            let mut i: usize = 0;
            proof {
                assert(entries@.skip(0) =~= entries@);
            }
            while i < entries.len()
                invariant
                    i <= entries@.len(),
                    wanted@ == key@,
                    spec_get(*v, key@) == spec_lookup(entries@, key@),
                    spec_lookup(entries@, key@) == spec_lookup(entries@.skip(i as int), key@),
                decreases entries@.len() - i,
            {
                if entries[i].0 == wanted {
                    proof {
                        let rest = entries@.skip(i as int);
                        assert(rest.len() > 0);
                        assert(rest[0] == entries@[i as int]);
                        assert(spec_lookup(rest, key@) == Some(entries@[i as int].1));
                    }
                    let found = &entries[i].1;
                    proof {
                        assert(*found == entries@[i as int].1);
                    }
                    return Some(found);
                }
                proof {
                    assert(entries@.skip(i as int).drop_first() =~= entries@.skip(i as int + 1));
                    assert(entries@.skip(i as int)[0] == entries@[i as int]);
                }
                i = i + 1;
            }
            proof {
                assert(entries@.skip(i as int).len() == 0);
            }
            None
        },
        _ => None,
    }
}

/// Finds the index of the first entry for `key` in an entry list, so
/// that a caller owning the list can move the value out.
pub fn find_index(entries: &Vec<(String, JsonValue)>, key: &str) -> (r: Option<usize>)
    ensures
        match r {
            Some(i) => i < entries@.len() && spec_lookup(entries@, key@) == Some(
                entries@[i as int].1,
            ),
            None => spec_lookup(entries@, key@) is None,
        },
{
    let wanted = String::from_str(key);
    let mut i: usize = 0;
    proof {
        assert(entries@.skip(0) =~= entries@);
    }
    while i < entries.len()
        invariant
            i <= entries@.len(),
            wanted@ == key@,
            spec_lookup(entries@, key@) == spec_lookup(entries@.skip(i as int), key@),
        decreases entries@.len() - i,
    {
        if entries[i].0 == wanted {
            proof {
                let rest = entries@.skip(i as int);
                assert(rest[0] == entries@[i as int]);
                assert(spec_lookup(rest, key@) == Some(entries@[i as int].1));
            }
            return Some(i);
        }
        proof {
            assert(entries@.skip(i as int).drop_first() =~= entries@.skip(i as int + 1));
            assert(entries@.skip(i as int)[0] == entries@[i as int]);
        }
        i = i + 1;
    }
    proof {
        assert(entries@.skip(i as int).len() == 0);
    }
    None
}

/// The string under `key` in `data`, or `default` when the key is
/// absent or its value is not a string.
pub open spec fn spec_str_param(data: JsonValue, key: Seq<char>, default: Seq<char>) -> Seq<
    char,
> {
    match spec_get(data, key) {
        Some(JsonValue::Str(s)) => s@,
        _ => default,
    }
}

/// The unsigned integer under `key` in `data`, or `default` when the
/// key is absent or its value is not an unsigned integer.
pub open spec fn spec_u64_param(data: JsonValue, key: Seq<char>, default: u64) -> u64 {
    match spec_get(data, key) {
        Some(JsonValue::UInt(n)) => n,
        _ => default,
    }
}

/// Reads a string parameter with a default.
pub fn str_param(data: &JsonValue, key: &str, default: &str) -> (r: String)
    ensures
        r@ == spec_str_param(*data, key@, default@),
{
    match json_get(data, key) {
        Some(found) => match found {
            JsonValue::Str(s) => s.clone(),
            _ => String::from_str(default),
        },
        None => String::from_str(default),
    }
}

/// Reads an unsigned-integer parameter with a default.
pub fn u64_param(data: &JsonValue, key: &str, default: u64) -> (r: u64)
    ensures
        r == spec_u64_param(*data, key@, default),
{
    match json_get(data, key) {
        Some(found) => match found {
            JsonValue::UInt(n) => *n,
            _ => default,
        },
        None => default,
    }
}

} // verus!
