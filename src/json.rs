//! A JSON document as the gateway reads it from a provider's user-info
//! response.
use vstd::prelude::*;
use crate::primitives::str_eq;

verus! {

/// A JSON number, split the way an identity reader needs it.
pub enum JsonNumber {
    /// A non-negative integer that fits in 64 bits.
    Unsigned(u64),
    /// A negative integer that fits in 64 bits.
    Negative(i64),
    /// Any other number, by its decimal text.
    Fractional(String),
}

/// A JSON value. Object members keep the order of the document.
pub enum Json {
    Null,
    Bool(bool),
    Number(JsonNumber),
    Str(String),
    Array(Vec<Json>),
    Object(Vec<(String, Json)>),
}

/// The value of the last member named `key`, as a JSON reader keeps the last
/// of repeated names.
pub open spec fn member_of(entries: Seq<(String, Json)>, key: Seq<char>) -> Option<Json>
    decreases entries.len(),
{
    if entries.len() == 0 {
        None
    } else if entries.last().0@ == key {
        Some(entries.last().1)
    } else {
        member_of(entries.drop_last(), key)
    }
}

impl Json {
    /// The member `key` of an object; nothing for any other value.
    pub open spec fn spec_member(self, key: Seq<char>) -> Option<Json> {
        match self {
            Json::Object(entries) => member_of(entries@, key),
            _ => None,
        }
    }

    /// Looks up the member `key` of an object.
    pub fn member(&self, key: &str) -> (r: Option<&Json>)
        ensures
            match r {
                Some(v) => self.spec_member(key@) == Some(*v),
                None => self.spec_member(key@) is None,
            },
    {
        match self {
            Json::Object(entries) => {
                let mut found: Option<&Json> = None;
                let mut i: usize = 0;
                while i < entries.len()
                    invariant
                        i <= entries@.len(),
                        match found {
                            Some(v) => member_of(entries@.subrange(0, i as int), key@) == Some(*v),
                            None => member_of(entries@.subrange(0, i as int), key@) is None,
                        },
                    decreases entries@.len() - i,
                {
                    let ghost prefix = entries@.subrange(0, i as int + 1);
                    assert(prefix.drop_last() =~= entries@.subrange(0, i as int));
                    if str_eq(entries[i].0.as_str(), key) {
                        found = Some(&entries[i].1);
                    }
                    i = i + 1;
                }
                assert(entries@.subrange(0, entries@.len() as int) =~= entries@);
                found
            },
            _ => None,
        }
    }
}

} // verus!
