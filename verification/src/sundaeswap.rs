//! The pool datum of SundaeSwap, which also names the pool and its fee.

use vstd::prelude::*;
use crate::encoding::{hex_encode, hex_string};
use crate::model::{pair_of, AssetId, PoolAsset, TokenPair};
use crate::plutus::{BigInt, PlutusData};

verus! {

/// The fee of a pool as the fraction that its datum holds.
#[derive(Clone, Copy, PartialEq, Eq, Debug)]
pub struct Fee {
    pub numerator: i32,
    pub denominator: i32,
}

impl Fee {
    /// The fraction has a quotient, which is then a finite number: the
    /// denominator is not zero.
    pub open spec fn has_quotient(&self) -> bool {
        self.denominator != 0
    }

    /// Whether the fraction has a quotient.
    pub fn is_finite(&self) -> (finite: bool)
        ensures
            finite == self.has_quotient(),
    {
        self.denominator != 0
    }
}

/// A SundaeSwap pool: its assets, its fee and its identifier in hexadecimal.
#[derive(Debug, PartialEq)]
pub struct SundaePoolDatum {
    pub a: PoolAsset,
    pub b: PoolAsset,
    pub fee: Fee,
    pub pool_id: String,
}

/// What a SundaeSwap datum is, as a mathematical value.
pub struct SundaeId {
    pub a: AssetId,
    pub b: AssetId,
    pub fee: Fee,
    pub pool_id: Seq<char>,
}

impl View for SundaePoolDatum {
    type V = SundaeId;

    open spec fn view(&self) -> SundaeId {
        SundaeId { a: self.a@, b: self.b@, fee: self.fee, pool_id: self.pool_id@ }
    }
}

/// The integer that a datum node holds, if it is a small integer that fits
/// in 32 bits with sign.
pub open spec fn small_int_of(value: PlutusData) -> Option<i32> {
    match value {
        PlutusData::BigInt(BigInt::Int(n)) => {
            if -0x8000_0000 <= n <= 0x7fff_ffff {
                Some(n as i32)
            } else {
                None
            }
        },
        _ => None,
    }
}

/// The fee that a datum node holds, if it is a record whose first two fields
/// are such integers: numerator, then denominator.
pub open spec fn fee_of(value: PlutusData) -> Option<Fee> {
    match value {
        PlutusData::Constr(record) => {
            if record.fields@.len() >= 2 {
                match (small_int_of(record.fields@[0]), small_int_of(record.fields@[1])) {
                    (Some(numerator), Some(denominator)) => Some(Fee { numerator, denominator }),
                    _ => None,
                }
            } else {
                None
            }
        },
        _ => None,
    }
}

/// The pool that a SundaeSwap datum describes: a record whose first field is
/// the pair, whose second is the pool identifier as a byte string and whose
/// fourth is the fee.
pub open spec fn sundae_datum_of(value: PlutusData) -> Option<SundaeId> {
    match value {
        PlutusData::Constr(record) => {
            if record.fields@.len() >= 4 {
                match (pair_of(record.fields@[0]), record.fields@[1], fee_of(record.fields@[3])) {
                    (Some(pair), PlutusData::BoundedBytes(id), Some(fee)) => Some(
                        SundaeId { a: pair.0, b: pair.1, fee, pool_id: hex_string(id@) },
                    ),
                    _ => None,
                }
            } else {
                None
            }
        },
        _ => None,
    }
}

/// A record with fewer than four fields is not read as a pool.
pub proof fn lemma_missing_field_is_no_pool(value: PlutusData)
    requires
        value is Constr ==> value->Constr_0.fields@.len() < 4,
    ensures
        sundae_datum_of(value) is None,
{
}

/// Reads a small integer that fits in 32 bits with sign.
fn small_int(value: &PlutusData) -> (n: Option<i32>)
    ensures
        n == small_int_of(*value),
{
    if let PlutusData::BigInt(BigInt::Int(n)) = value {
        if -0x8000_0000 <= *n && *n <= 0x7fff_ffff {
            return Some(*n as i32);
        }
    }
    None
}

/// Reads a fee.
fn fee(value: &PlutusData) -> (fee: Option<Fee>)
    ensures
        fee == fee_of(*value),
{
    if let PlutusData::Constr(record) = value {
        if record.fields.len() < 2 {
            return None;
        }
        if let Some(numerator) = small_int(&record.fields[0]) {
            if let Some(denominator) = small_int(&record.fields[1]) {
                return Some(Fee { numerator, denominator });
            }
        }
    }
    None
}

impl SundaePoolDatum {
    /// Reads the datum; fails unless pair, pool identifier and fee are all
    /// there in their places.
    pub fn try_from(value: &PlutusData) -> (datum: Result<SundaePoolDatum, ()>)
        ensures
            match datum {
                Ok(found) => sundae_datum_of(*value) == Some(found@) && found.a.well_formed()
                    && found.b.well_formed(),
                Err(_) => sundae_datum_of(*value) is None,
            },
    {
        if let PlutusData::Constr(record) = value {
            if record.fields.len() < 4 {
                return Err(());
            }
            let pair = TokenPair::try_from(&record.fields[0]);
            if let Ok(pair) = pair {
                if let PlutusData::BoundedBytes(id) = &record.fields[1] {
                    if let Some(fee) = fee(&record.fields[3]) {
                        return Ok(
                            SundaePoolDatum {
                                a: pair.a,
                                b: pair.b,
                                fee,
                                pool_id: hex_encode(id),
                            },
                        );
                    }
                }
            }
        }
        Err(())
    }
}

} // verus!
