//! The pool datum of MuesliSwap.

use vstd::prelude::*;
use crate::model::{pair_of, AssetId, PoolAsset, TokenPair};
use crate::plutus::PlutusData;

verus! {

/// The two assets of a MuesliSwap pool.
pub struct MuesliSwapPoolDatum {
    pub a: PoolAsset,
    pub b: PoolAsset,
}

/// The pair that a MuesliSwap datum names: the structure read as a pair.
pub open spec fn muesliswap_datum_of(value: PlutusData) -> Option<(AssetId, AssetId)> {
    pair_of(value)
}

impl MuesliSwapPoolDatum {
    /// Reads the datum; fails unless the structure is a pair of assets.
    pub fn try_from(value: &PlutusData) -> (datum: Result<MuesliSwapPoolDatum, ()>)
        ensures
            match datum {
                Ok(found) => muesliswap_datum_of(*value) == Some((found.a@, found.b@))
                    && found.a.well_formed() && found.b.well_formed(),
                Err(_) => muesliswap_datum_of(*value) is None,
            },
    {
        match TokenPair::try_from(value) {
            Ok(pair) => Ok(MuesliSwapPoolDatum { a: pair.a, b: pair.b }),
            Err(_) => Err(()),
        }
    }
}

} // verus!
