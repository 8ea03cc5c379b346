//! The attribute metadata model: named attribute trees over blobs, with
//! lookup by name and by path.
//!
//! Floating-point attribute values are carried as the raw bit patterns of
//! IEEE-754 doubles, and timestamps as plain integers: protocol logic never
//! computes on either, it only stores and routes them.

use vstd::prelude::*;

use crate::bytesutil::str_eq;

verus! {

/// A link into a content-addressed storage network: the hash space's name
/// and the hash within it.
#[derive(Debug)]
pub struct HashWebLink {
    pub hashspace: String,
    pub hash: String,
}

impl HashWebLink {
    /// A link from its parts.
    pub fn new(hashspace: &str, hash: &str) -> (r: Self)
        ensures
            r.hashspace@ == hashspace@,
            r.hash@ == hash@,
    {
        HashWebLink { hashspace: hashspace.to_owned(), hash: hash.to_owned() }
    }
}

/// A geographic position; the fields are the raw bit patterns of IEEE-754
/// doubles measuring degrees.
#[derive(Clone, Copy, Debug, PartialEq, Eq, Structural)]
pub struct GpsLocation {
    pub latitude_bits: u64,
    pub longitude_bits: u64,
}

/// The value of one attribute: a closed set of scalar kinds plus nested
/// arrays and objects.
#[derive(Debug)]
pub enum AttributeValue {
    Boolean(bool),
    Integer(i64),
    /// The raw bit pattern of an IEEE-754 double.
    FloatBits(u64),
    /// Seconds since an epoch the application chooses.
    Timestamp(u64),
    Location(GpsLocation),
    Text(String),
    Blob(Vec<u8>),
    Link(HashWebLink),
    Array(Vec<AttributeValue>),
    Object(Vec<MetaAttr>),
}

/// One named attribute.
#[derive(Debug)]
pub struct MetaAttr {
    pub name: String,
    pub value: AttributeValue,
}

impl MetaAttr {
    /// An attribute from its parts.
    pub fn new(name: &str, value: AttributeValue) -> (r: Self)
        ensures
            r.name@ == name@,
            r.value == value,
    {
        MetaAttr { name: name.to_owned(), value }
    }

    /// The attribute's name.
    pub fn name(&self) -> (r: &str)
        ensures
            r@ == self.name@,
    {
        self.name.as_str()
    }

    /// The attribute's value.
    pub fn value(&self) -> (r: &AttributeValue)
        ensures
            r == &self.value,
    {
        &self.value
    }
}

/// The value of the first attribute named `name`, or `None`.
pub open spec fn first_value_by_name(attrs: Seq<MetaAttr>, name: Seq<char>) -> Option<
    AttributeValue,
>
    decreases attrs.len(),
{
    if attrs.len() == 0 {
        None
    } else if attrs[0].name@ == name {
        Some(attrs[0].value)
    } else {
        first_value_by_name(attrs.drop_first(), name)
    }
}

/// The value an attribute path leads to: the first attribute of the first
/// name, then — for a longer path — descending through object values only.
/// An empty path leads nowhere.
pub open spec fn first_value_by_path(attrs: Seq<MetaAttr>, path: Seq<Seq<char>>) -> Option<
    AttributeValue,
>
    decreases path.len(),
{
    if path.len() == 0 {
        None
    } else {
        let first = first_value_by_name(attrs, path[0]);
        if path.len() == 1 {
            first
        } else {
            match first {
                Some(AttributeValue::Object(inner)) => first_value_by_path(
                    inner@,
                    path.drop_first(),
                ),
                _ => None,
            }
        }
    }
}

/// The value of the first attribute in `attrs` named `name`.
pub fn iter_first_attrval_by_name<'a>(attrs: &'a [MetaAttr], name: &str) -> (r: Option<
    &'a AttributeValue,
>)
    ensures
        r is Some <==> first_value_by_name(attrs@, name@) is Some,
        r matches Some(value) ==> first_value_by_name(attrs@, name@) == Some(*value),
{
    proof {
        assert(attrs@.skip(0) =~= attrs@);
    }
    let mut i: usize = 0;
    while i < attrs.len()
        invariant
            i <= attrs.len(),
            first_value_by_name(attrs@, name@) == first_value_by_name(
                attrs@.skip(i as int),
                name@,
            ),
        decreases attrs.len() - i,
    {
        proof {
            assert(attrs@.skip(i as int)[0] == attrs@[i as int]);
        }
        if str_eq(attrs[i].name.as_str(), name) {
            return Some(&attrs[i].value);
        }
        proof {
            assert(attrs@.skip(i as int).drop_first() =~= attrs@.skip(i + 1));
        }
        i += 1;
    }
    proof {
        assert(attrs@.skip(i as int).len() == 0);
    }
    None
}

/// The value the path `path` leads to in `attrs`, descending through
/// object-valued attributes.
pub fn iter_first_attrval_by_path<'a>(attrs: &'a [MetaAttr], path: &[&str]) -> (r: Option<
    &'a AttributeValue,
>)
    ensures
        r is Some <==> first_value_by_path(attrs@, path.deep_view()) is Some,
        r matches Some(value) ==> first_value_by_path(attrs@, path.deep_view()) == Some(*value),
    decreases path.len(),
{
    if path.len() == 0 {
        return None;
    }
    let first = iter_first_attrval_by_name(attrs, path[0]);
    proof {
        assert(path.deep_view()[0] == path@[0]@);
    }
    if path.len() == 1 {
        return first;
    }
    match first {
        Some(AttributeValue::Object(inner)) => {
            let tail = vstd::slice::slice_subrange(path, 1, path.len());
            proof {
                assert forall|k: int| 0 <= k < tail@.len() implies #[trigger] tail.deep_view()[k]
                    == path.deep_view().drop_first()[k] by {
                    assert(tail@[k] == path@[k + 1]);
                }
                assert(tail.deep_view() =~= path.deep_view().drop_first());
            }
            iter_first_attrval_by_path(inner.as_slice(), tail)
        },
        _ => None,
    }
}

} // verus!
