//! An in-memory model of the JSON trees the archive returns: plain values
//! only, so every traversal over them can be reasoned about. The boundary
//! that talks to the network parses its responses into this shape.

use vstd::prelude::*;

verus! {

/// A JSON number, reduced to the two readings the extraction rules use.
#[derive(Debug, Clone, Copy, PartialEq, Eq, Structural)]
pub struct JsonNumber {
    /// The exact value, when the number is an unsigned integer that fits in
    /// 64 bits.
    pub as_uint: Option<u64>,
    /// The value truncated toward zero and saturated into `u64`, as casting
    /// the number's floating-point reading does.
    pub trunc: u64,
}

/// One JSON value. Object entries keep the order in which they were parsed.
#[derive(Debug)]
pub enum JsonValue {
    Null,
    Bool(bool),
    Num(JsonNumber),
    Str(String),
    Arr(Vec<JsonValue>),
    Obj(Vec<(String, JsonValue)>),
}

/// The value under the first entry named `key`, if any.
pub open spec fn spec_obj_get(entries: Seq<(String, JsonValue)>, key: Seq<char>) -> Option<
    JsonValue,
>
    decreases entries.len(),
{
    if entries.len() == 0 {
        None
    } else if entries[0].0@ == key {
        Some(entries[0].1)
    } else {
        spec_obj_get(entries.skip(1), key)
    }
}

impl JsonValue {
    /// Member lookup: defined only on objects.
    pub open spec fn spec_get(&self, key: Seq<char>) -> Option<JsonValue> {
        match self {
            JsonValue::Obj(entries) => spec_obj_get(entries@, key),
            _ => None,
        }
    }

    pub open spec fn spec_as_u64(&self) -> Option<u64> {
        match self {
            JsonValue::Num(n) => n.as_uint,
            _ => None,
        }
    }

    /// The number truncated toward zero into a `u64`: defined on every
    /// number, as the floating-point reading is.
    pub open spec fn spec_as_trunc(&self) -> Option<u64> {
        match self {
            JsonValue::Num(n) => Some(n.trunc),
            _ => None,
        }
    }

    /// Member lookup on an object, `None` on anything else.
    #[verifier::loop_isolation(false)]
    pub fn get<'a>(&'a self, key: &str) -> (r: Option<&'a JsonValue>)
        ensures
            match r {
                Some(v) => self.spec_get(key@) == Some(*v),
                None => self.spec_get(key@) is None,
            },
    {
        match self {
            JsonValue::Obj(entries) => {
                let mut i: usize = 0;
                proof {
                    assert(entries@.skip(0) =~= entries@);
                }
                while i < entries.len()
                    invariant
                        0 <= i <= entries@.len(),
                        spec_obj_get(entries@, key@) == spec_obj_get(
                            entries@.skip(i as int),
                            key@,
                        ),
                    decreases entries@.len() - i,
                {
                    proof {
                        assert(entries@.skip(i as int)[0] == entries@[i as int]);
                        assert(entries@.skip(i as int).skip(1) =~= entries@.skip(i + 1));
                    }
                    if crate::utils::str_eq(entries[i].0.as_str(), key) {
                        return Some(&entries[i].1);
                    }
                    i = i + 1;
                }
                proof {
                    assert(entries@.skip(entries@.len() as int) =~= Seq::<(
                        String,
                        JsonValue,
                    )>::empty());
                }
                None
            },
            _ => None,
        }
    }

    /// The string payload, when the value is a string.
    pub fn as_str(&self) -> (r: Option<&str>)
        ensures
            match r {
                Some(s) => self matches JsonValue::Str(x) && x@ == s@,
                None => !(self is Str),
            },
    {
        match self {
            JsonValue::Str(s) => Some(s.as_str()),
            _ => None,
        }
    }

    /// The exact unsigned 64-bit reading, when there is one.
    pub fn as_u64(&self) -> (r: Option<u64>)
        ensures
            r == self.spec_as_u64(),
    {
        match self {
            JsonValue::Num(n) => n.as_uint,
            _ => None,
        }
    }

    /// The truncated-toward-zero reading of a number.
    pub fn as_trunc_u64(&self) -> (r: Option<u64>)
        ensures
            r == self.spec_as_trunc(),
    {
        match self {
            JsonValue::Num(n) => Some(n.trunc),
            _ => None,
        }
    }

    /// The element list, when the value is an array.
    pub fn as_array(&self) -> (r: Option<&Vec<JsonValue>>)
        ensures
            match r {
                Some(a) => self matches JsonValue::Arr(x) && x@ == a@,
                None => !(self is Arr),
            },
    {
        match self {
            JsonValue::Arr(a) => Some(a),
            _ => None,
        }
    }
}

} // verus!
