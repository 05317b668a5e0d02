//! CBOR data items, as far as the attestation format reads them.

use ciborium::value::Value;
use vstd::prelude::*;

use crate::text::str_eq;

verus! {

/// One decoded CBOR data item.
#[derive(Debug)]
pub enum CborValue {
    /// An integer from -2^64 to 2^64 - 1, the range of CBOR's two integer
    /// types.
    Integer(i128),
    /// A byte string.
    Bytes(Vec<u8>),
    /// A floating-point number, held as its IEEE 754 double-precision bits.
    Float(u64),
    /// A text string.
    Text(String),
    /// `true` or `false`.
    Bool(bool),
    /// `null` or `undefined`.
    Null,
    /// A tagged item.
    Tag(u64, Box<CborValue>),
    /// An array of items.
    Array(Vec<CborValue>),
    /// A map, as its entries in the order of the encoding.
    Mapping(Vec<(CborValue, CborValue)>),
}

/// `ciborium::value::Value`, of which the verifier sees nothing.
#[verifier::external_type_specification]
#[verifier::external_body]
pub struct ExValue(Value);

/// The item that `ciborium::de::from_reader` reads from the front of `bytes`
/// into a `ciborium::value::Value`, or `None` where it reports an error.
pub uninterp spec fn cbor_decoding(bytes: Seq<u8>) -> Option<CborValue>;

/// Rebuilds a `ciborium::value::Value` variant by variant as a [`CborValue`],
/// for [`cbor_decode`]. The integer is widened by `i128::from`, and the float
/// is kept as `f64::to_bits`. `Value::Null` falls to the last arm, as would a
/// variant that a later version of that crate adds. Nothing is claimed of the
/// result here.
#[verifier::external_body]
fn lift(value: Value) -> CborValue {
    match value {
        Value::Integer(n) => CborValue::Integer(i128::from(n)),
        Value::Bytes(b) => CborValue::Bytes(b),
        Value::Float(x) => CborValue::Float(x.to_bits()),
        Value::Text(t) => CborValue::Text(t),
        Value::Bool(b) => CborValue::Bool(b),
        Value::Tag(t, inner) => CborValue::Tag(t, Box::new(lift(*inner))),
        Value::Array(items) => CborValue::Array(items.into_iter().map(lift).collect()),
        Value::Map(m) => CborValue::Mapping(m.into_iter().map(|(k, v)| (lift(k), lift(v))).collect()),
        _ => CborValue::Null,
    }
}

/// Calls `ciborium::de::from_reader` for a `ciborium::value::Value` on `bytes`.
/// The contract only names the outcome: the same bytes always give the same
/// item, and an error of the decoder (malformed or truncated input, nesting
/// deeper than 256) is `None`. Bytes after the first item are not read.
#[verifier::external_body]
pub(crate) fn cbor_decode(bytes: &[u8]) -> (item: Option<CborValue>)
    ensures
        item == cbor_decoding(bytes@),
{
    match ciborium::de::from_reader::<Value, &[u8]>(bytes) {
        Ok(value) => Some(lift(value)),
        Err(_) => None,
    }
}

/// Whether `entry` is keyed by the text `name`.
pub open spec fn names_field(entry: (CborValue, CborValue), name: Seq<char>) -> bool {
    entry.0 matches CborValue::Text(key) && key@ == name
}

/// Whether entry `i` is the one and only entry of `entries` keyed by `name`.
pub open spec fn is_sole_field(entries: Seq<(CborValue, CborValue)>, name: Seq<char>, i: int) -> bool {
    &&& 0 <= i < entries.len()
    &&& names_field(entries[i], name)
    &&& forall|j: int| 0 <= j < entries.len() && names_field(#[trigger] entries[j], name) ==> j == i
}

/// The position of the field `name` in a map: the index of the entry keyed by
/// the text `name` where exactly one entry is, `None` where none or several are.
pub open spec fn field_index(entries: Seq<(CborValue, CborValue)>, name: Seq<char>) -> Option<int> {
    if exists|i: int| is_sole_field(entries, name, i) {
        Some(choose|i: int| is_sole_field(entries, name, i))
    } else {
        None
    }
}

/// Finds the field `name` among the entries of a map.
pub fn find_field(entries: &Vec<(CborValue, CborValue)>, name: &str) -> (found: Option<usize>)
    ensures
        match found {
            Some(i) => field_index(entries@, name@) == Some(i as int),
            None => field_index(entries@, name@) is None,
        },
{
    let mut found: Option<usize> = None;
    let mut k: usize = 0;
    while k < entries.len()
        invariant
            k <= entries@.len(),
            match found {
                Some(f) => f < k && names_field(entries@[f as int], name@) && forall|j: int|
                    0 <= j < k && names_field(#[trigger] entries@[j], name@) ==> j == f,
                None => forall|j: int| 0 <= j < k ==> !names_field(#[trigger] entries@[j], name@),
            },
        decreases entries@.len() - k,
    {
        let hit = match &entries[k].0 {
            CborValue::Text(key) => str_eq(key.as_str(), name),
            _ => false,
        };
        if hit {
            match found {
                Some(f) => {
                    assert forall|i: int| !is_sole_field(entries@, name@, i) by {
                        if is_sole_field(entries@, name@, i) {
                            assert(names_field(entries@[f as int], name@));
                            assert(names_field(entries@[k as int], name@));
                        }
                    }
                    return None;
                },
                None => {
                    found = Some(k);
                },
            }
        }
        k += 1;
    }
    proof {
        match found {
            Some(f) => {
                assert(is_sole_field(entries@, name@, f as int));
            },
            None => {
                assert forall|i: int| !is_sole_field(entries@, name@, i) by {}
            },
        }
    }
    found
}

} // verus!
