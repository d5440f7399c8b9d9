//! A model of the JSON configuration values the logger manager reads.
//!
//! Configuration arrives as JSON. The embedding program parses the raw
//! text with its JSON library and hands the result over in this value
//! type, which holds as plain data exactly what the configuration logic
//! reads: null, booleans, unsigned integers, strings, arrays, and objects
//! as key/value pair lists looked up by first match. A number that is not
//! an unsigned integer reads as no integer at all, just as the original
//! accessors report it.

use vstd::prelude::*;
use vstd::string::StringExecFns;

verus! {

/// One JSON configuration value.
#[derive(Debug)]
pub enum JsonValue {
    Null,
    Bool(bool),
    UInt(u64),
    Str(String),
    Arr(Vec<JsonValue>),
    Obj(Vec<(String, JsonValue)>),
}

/// The value stored under a key: the first pair whose key reads as `key`.
pub open spec fn spec_obj_get(pairs: Seq<(String, JsonValue)>, key: Seq<char>) -> Option<JsonValue>
    decreases pairs.len(),
{
    if pairs.len() == 0 {
        None
    } else if pairs[0].0@ == key {
        Some(pairs[0].1)
    } else {
        spec_obj_get(pairs.drop_first(), key)
    }
}

/// Looking a key up skips every leading pair with a different key.
proof fn lemma_obj_get_skip(pairs: Seq<(String, JsonValue)>, key: Seq<char>, i: int)
    requires
        0 <= i <= pairs.len(),
        forall|j: int| 0 <= j < i ==> (#[trigger] pairs[j]).0@ != key,
    ensures
        spec_obj_get(pairs, key) == spec_obj_get(pairs.skip(i), key),
    decreases i,
{
    if i > 0 {
        assert(pairs.len() > 0);
        lemma_obj_get_skip(pairs.drop_first(), key, i - 1);
        assert(pairs.drop_first().skip(i - 1) =~= pairs.skip(i));
    } else {
        assert(pairs.skip(0) =~= pairs);
    }
}

impl JsonValue {
    /// The value stored under a key, when this value is an object that
    /// holds the key.
    pub open spec fn spec_get(&self, key: Seq<char>) -> Option<JsonValue> {
        match self {
            JsonValue::Obj(pairs) => spec_obj_get(pairs@, key),
            _ => None,
        }
    }

    /// The unsigned integer this value reads as, if any.
    pub open spec fn spec_as_u64(&self) -> Option<u64> {
        match self {
            JsonValue::UInt(u) => Some(*u),
            _ => None,
        }
    }

    /// The string this value reads as, if any.
    pub open spec fn spec_as_str(&self) -> Option<Seq<char>> {
        match self {
            JsonValue::Str(s) => Some(s@),
            _ => None,
        }
    }

    /// The element list this value reads as, if any.
    pub open spec fn spec_as_array(&self) -> Option<Seq<JsonValue>> {
        match self {
            JsonValue::Arr(items) => Some(items@),
            _ => None,
        }
    }

    /// Whether this value is a string reading as `s`.
    pub open spec fn spec_is_str(&self, s: Seq<char>) -> bool {
        self.spec_as_str() == Some(s)
    }

    /// Looks a key up in this value, if it is an object.
    pub fn get<'a>(&'a self, key: &str) -> (r: Option<&'a JsonValue>)
        ensures
            match r {
                Some(v) => self.spec_get(key@) == Some(*v),
                None => self.spec_get(key@) is None,
            },
    {
        match self {
            JsonValue::Obj(pairs) => {
                let needle = String::from_str(key);
                let mut i: usize = 0;
                while i < pairs.len()
                    invariant
                        0 <= i <= pairs@.len(),
                        needle@ == key@,
                        self is Obj && self->Obj_0@ == pairs@,
                        forall|j: int| 0 <= j < i ==> (#[trigger] pairs@[j]).0@ != key@,
                    decreases pairs@.len() - i,
                {
                    if pairs[i].0 == needle {
                        proof {
                            lemma_obj_get_skip(pairs@, key@, i as int);
                            assert(pairs@.skip(i as int)[0] == pairs@[i as int]);
                        }
                        return Some(&pairs[i].1);
                    }
                    i += 1;
                }
                proof {
                    lemma_obj_get_skip(pairs@, key@, pairs@.len() as int);
                    assert(pairs@.skip(pairs@.len() as int) =~= Seq::<(
                        String,
                        JsonValue,
                    )>::empty());
                }
                None
            },
            _ => None,
        }
    }

    /// The unsigned integer this value reads as, if any.
    pub fn as_u64(&self) -> (r: Option<u64>)
        ensures
            r == self.spec_as_u64(),
    {
        match self {
            JsonValue::UInt(u) => Some(*u),
            _ => None,
        }
    }

    /// The string this value reads as, if any.
    pub fn as_str<'a>(&'a self) -> (r: Option<&'a str>)
        ensures
            match r {
                Some(s) => self.spec_as_str() == Some(s@),
                None => self.spec_as_str() is None,
            },
    {
        match self {
            JsonValue::Str(s) => Some(s.as_str()),
            _ => None,
        }
    }

    /// The element list this value reads as, if any.
    pub fn as_array<'a>(&'a self) -> (r: Option<&'a Vec<JsonValue>>)
        ensures
            match r {
                Some(items) => self.spec_as_array() == Some(items@),
                None => self.spec_as_array() is None,
            },
    {
        match self {
            JsonValue::Arr(items) => Some(items),
            _ => None,
        }
    }

    /// Whether this value is a string reading as `s`.
    pub fn is_str(&self, s: &str) -> (r: bool)
        ensures
            r == self.spec_is_str(s@),
    {
        match self {
            JsonValue::Str(own) => {
                let other = String::from_str(s);
                *own == other
            },
            _ => false,
        }
    }
}

} // verus!
