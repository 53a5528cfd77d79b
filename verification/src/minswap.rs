//! The pool datum of Minswap.

use vstd::prelude::*;
use crate::model::{pair_of, AssetId, PoolAsset, TokenPair};
use crate::plutus::PlutusData;

verus! {

/// The two assets of a Minswap pool.
pub struct MinSwapPoolDatum {
    pub a: PoolAsset,
    pub b: PoolAsset,
}

/// The pair that a Minswap datum names: the structure read as a pair.
pub open spec fn minswap_datum_of(value: PlutusData) -> Option<(AssetId, AssetId)> {
    pair_of(value)
}

impl MinSwapPoolDatum {
    /// Reads the datum; fails unless the structure is a pair of assets.
    pub fn try_from(value: &PlutusData) -> (datum: Result<MinSwapPoolDatum, ()>)
        ensures
            match datum {
                Ok(found) => minswap_datum_of(*value) == Some((found.a@, found.b@))
                    && found.a.well_formed() && found.b.well_formed(),
                Err(_) => minswap_datum_of(*value) is None,
            },
    {
        match TokenPair::try_from(value) {
            Ok(pair) => Ok(MinSwapPoolDatum { a: pair.a, b: pair.b }),
            Err(_) => Err(()),
        }
    }
}

} // verus!
