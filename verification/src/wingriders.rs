//! The pool datum of Wingriders.

use vstd::prelude::*;
use crate::model::{pair_of, AssetId, PoolAsset, TokenPair};
use crate::plutus::PlutusData;

verus! {

/// The two assets of a Wingriders pool.
pub struct WingriderPoolDatum {
    pub a: PoolAsset,
    pub b: PoolAsset,
}

/// The pair that a Wingriders datum names: the structure read as a pair.
pub open spec fn wingriders_datum_of(value: PlutusData) -> Option<(AssetId, AssetId)> {
    pair_of(value)
}

impl WingriderPoolDatum {
    /// Reads the datum; fails unless the structure is a pair of assets.
    pub fn try_from(value: &PlutusData) -> (datum: Result<WingriderPoolDatum, ()>)
        ensures
            match datum {
                Ok(found) => wingriders_datum_of(*value) == Some((found.a@, found.b@))
                    && found.a.well_formed() && found.b.well_formed(),
                Err(_) => wingriders_datum_of(*value) is None,
            },
    {
        match TokenPair::try_from(value) {
            Ok(pair) => Ok(WingriderPoolDatum { a: pair.a, b: pair.b }),
            Err(_) => Err(()),
        }
    }
}

} // verus!
