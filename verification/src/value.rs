use vstd::prelude::*;

verus! {

/// A numeric wire reading, carried as the IEEE-754 bit pattern of the value
/// that arrived.  The merge engine stores readings and hands them back; it
/// never computes with them, so the bit pattern is all it keeps.
#[derive(Clone, Copy, PartialEq, Eq, Structural, Debug)]
pub struct V1Num {
    pub bits: u64,
}

impl V1Num {
    pub fn from_bits(bits: u64) -> (r: V1Num)
        ensures
            r == (V1Num { bits }),
    {
        V1Num { bits }
    }

    pub fn zero() -> (r: V1Num)
        ensures
            r == (V1Num { bits: 0 }),
    {
        V1Num { bits: 0 }
    }
}

/// A loosely typed value as it appears on the wire: the payload of an update
/// record, and the raw shape an inbound message is classified from.  Objects
/// keep their fields as a list of key/value pairs in wire order.
#[derive(Debug)]
pub enum V1Value {
    Null,
    Bool(bool),
    Num(V1Num),
    Str(String),
    Array(Vec<V1Value>),
    Object(Vec<(String, V1Value)>),
}

/// The first value bound to `key` in an object's field list, if any.
pub open spec fn spec_obj_get(fields: Seq<(String, V1Value)>, key: Seq<char>) -> Option<V1Value>
    decreases fields.len(),
{
    if fields.len() == 0 {
        None
    } else if fields[0].0@ == key {
        Some(fields[0].1)
    } else {
        spec_obj_get(fields.drop_first(), key)
    }
}

impl V1Value {
    pub open spec fn spec_is_str(self) -> bool {
        self is Str
    }

    /// Looks a field up in an object's field list; the first binding wins.
    pub fn obj_get<'a>(fields: &'a Vec<(String, V1Value)>, key: &str) -> (r: Option<&'a V1Value>)
        ensures
            match r {
                Some(v) => spec_obj_get(fields@, key@) == Some(*v),
                None => spec_obj_get(fields@, key@) is None,
            },
    {
        let n = fields.len();
        proof {
            assert(fields@.skip(0) =~= fields@);
        }
        for i in 0..n
            invariant
                n == fields@.len(),
                spec_obj_get(fields@, key@) == spec_obj_get(fields@.skip(i as int), key@),
        {
            proof {
                assert(fields@.skip(i as int)[0] == fields@[i as int]);
                assert(fields@.skip(i as int).drop_first() =~= fields@.skip(i as int + 1));
            }
            if crate::strmap::str_eq(fields[i].0.as_str(), key) {
                return Some(&fields[i].1);
            }
        }
        proof {
            assert(fields@.skip(n as int) =~= Seq::<(String, V1Value)>::empty());
        }
        None
    }
}

} // verus!
