use vstd::prelude::*;
use crate::text::str_eq;

verus! {

/// One field of a JSON object: its name and its value.
pub struct JsonField {
    pub name: String,
    pub value: Json,
}

/// A JSON value, as far as this layer reads one. The bridge inspects
/// objects, arrays, strings and unsigned integers; booleans, null and all
/// other numbers occur only in positions the bridge passes through or
/// rejects, so a number that is not a `u64` is held without its value.
pub enum Json {
    Null,
    Bool(bool),
    /// A number that is a non-negative integer fitting `u64`.
    UInt(u64),
    /// Any other number (negative or fractional); never read by this layer.
    OtherNum,
    Str(String),
    Arr(Vec<Json>),
    Obj(Vec<JsonField>),
}

/// The value of the first field named `name`, if any. Later duplicates of a
/// name are shadowed by the first one, as a JSON text with repeated keys is
/// commonly read.
pub open spec fn lookup_view(fields: Seq<JsonField>, name: Seq<char>) -> Option<Json>
    decreases fields.len(),
{
    if fields.len() == 0 {
        None
    } else if fields.first().name@ == name {
        Some(fields.first().value)
    } else {
        lookup_view(fields.drop_first(), name)
    }
}

/// Finds the first field named `name` and returns a reference to its value.
pub fn lookup<'a>(fields: &'a Vec<JsonField>, name: &str) -> (r: Option<&'a Json>)
    ensures
        match r {
            Some(v) => lookup_view(fields@, name@) == Some(*v),
            None => lookup_view(fields@, name@) is None,
        },
{
    proof {
        assert(fields@.skip(0) =~= fields@);
    }
    let mut i: usize = 0;
    while i < fields.len()
        invariant
            i <= fields.len(),
            lookup_view(fields@, name@) == lookup_view(fields@.skip(i as int), name@),
        decreases fields.len() - i,
    {
        if str_eq(fields[i].name.as_str(), name) {
            proof {
                assert(fields@.skip(i as int).first() == fields@[i as int]);
            }
            return Some(&fields[i].value);
        }
        proof {
            assert(fields@.skip(i as int).drop_first() =~= fields@.skip(i as int + 1));
        }
        i += 1;
    }
    None
}

/// Finds the first field named `name`, removes it, and returns its value,
/// so that the value is owned without copying the rest of the object.
pub fn take_field(fields: &mut Vec<JsonField>, name: &str) -> (r: Option<Json>)
    ensures
        r == lookup_view(old(fields)@, name@),
{
    proof {
        assert(fields@.skip(0) =~= fields@);
    }
    let mut i: usize = 0;
    while i < fields.len()
        invariant
            i <= fields.len(),
            fields@ == old(fields)@,
            lookup_view(fields@, name@) == lookup_view(fields@.skip(i as int), name@),
        decreases fields.len() - i,
    {
        if str_eq(fields[i].name.as_str(), name) {
            proof {
                assert(fields@.skip(i as int).first() == fields@[i as int]);
            }
            let f = fields.remove(i);
            return Some(f.value);
        }
        proof {
            assert(fields@.skip(i as int).drop_first() =~= fields@.skip(i as int + 1));
        }
        i += 1;
    }
    None
}

} // verus!
