//! The raw structure that a datum holds: a tree of tagged records, lists,
//! maps, integers and byte strings.

use vstd::prelude::*;

verus! {

/// An integer of a datum: a small one, or the bytes of a large positive or
/// negative one.
#[derive(Clone, PartialEq, Eq, Debug)]
pub enum BigInt {
    Int(i128),
    BigUInt(Vec<u8>),
    BigNInt(Vec<u8>),
}

/// A tagged record: a constructor tag and its positional fields.
#[derive(PartialEq, Eq, Debug)]
pub struct Constr {
    pub tag: u64,
    pub any_constructor: Option<u64>,
    pub fields: Vec<PlutusData>,
}

/// One node of a datum.
#[derive(PartialEq, Eq, Debug)]
pub enum PlutusData {
    Constr(Constr),
    KeyValues(Vec<(PlutusData, PlutusData)>),
    BigInt(BigInt),
    BoundedBytes(Vec<u8>),
    Array(Vec<PlutusData>),
}

/// A copy of `bytes`.
pub fn copy_bytes(bytes: &Vec<u8>) -> (copy: Vec<u8>)
    ensures
        copy@ == bytes@,
{
    let mut copy: Vec<u8> = Vec::new();
    let mut i: usize = 0;
    while i < bytes.len()
        invariant
            i <= bytes.len(),
            copy@ == bytes@.subrange(0, i as int),
        decreases bytes.len() - i,
    {
        copy.push(bytes[i]);
        i += 1;
        assert(copy@ =~= bytes@.subrange(0, i as int));
    }
    assert(copy@ =~= bytes@);
    copy
}

/// Whether two byte strings hold the same bytes.
pub fn bytes_equal(a: &Vec<u8>, b: &Vec<u8>) -> (same: bool)
    ensures
        same == (a@ == b@),
{
    if a.len() != b.len() {
        return false;
    }
    let mut i: usize = 0;
    while i < a.len()
        invariant
            i <= a.len(),
            a.len() == b.len(),
            forall|j: int| 0 <= j < i ==> a@[j] == b@[j],
        decreases a.len() - i,
    {
        if a[i] != b[i] {
            return false;
        }
        i += 1;
    }
    assert(a@ =~= b@);
    true
}

} // verus!
