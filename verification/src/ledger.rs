//! What the reducer reads of the ledger: outputs with their assets and
//! datums, transactions and blocks, as plain values.

use vstd::prelude::*;
use crate::plutus::{copy_bytes, PlutusData};

verus! {

/// A quantity of one asset in an output: of the native currency, or of the
/// token with the given policy and name.
#[derive(Clone, PartialEq, Eq, Debug)]
pub enum Asset {
    Ada(u64),
    NativeAsset(Vec<u8>, Vec<u8>, u64),
}

/// The datum of an output: the hash of one that a witness holds, or the
/// datum itself.
pub enum DatumOption {
    Hash(Vec<u8>),
    Data(PlutusData),
}

/// A datum among the witnesses of a transaction, with its hash.
pub struct WitnessDatum {
    pub hash: Vec<u8>,
    pub data: PlutusData,
}

/// A transaction output.
pub struct Output {
    /// The quantity of the native currency.
    pub lovelace: u64,
    /// The issued tokens, in the order of the ledger. An entry for the
    /// native currency does not belong here.
    pub non_ada_assets: Vec<Asset>,
    pub datum: Option<DatumOption>,
    /// The quotient of the fee in the datum, written as a JSON number by
    /// whoever read the output from the ledger; none where the datum holds
    /// no fee. It is used for a SundaeSwap pool only.
    pub fee_text: Option<String>,
}

/// A transaction: the outputs it consumes, each as far as it was found, the
/// outputs it produces and the datums among its witnesses.
pub struct Tx {
    pub consumed: Vec<Option<Output>>,
    pub produced: Vec<Output>,
    pub plutus_data: Vec<WitnessDatum>,
}

/// A block: its transactions in order.
pub struct Block {
    pub txs: Vec<Tx>,
}

/// All assets of an output: the native currency first, then the tokens.
pub open spec fn all_assets(utxo: Output) -> Seq<Asset> {
    seq![Asset::Ada(utxo.lovelace)] + utxo.non_ada_assets@
}

impl Asset {
    /// A copy of the entry.
    pub fn duplicate(&self) -> (copy: Asset)
        ensures
            copy.same_as(*self),
    {
        match self {
            Asset::Ada(quantity) => Asset::Ada(*quantity),
            Asset::NativeAsset(policy, name, quantity) => Asset::NativeAsset(
                copy_bytes(policy),
                copy_bytes(name),
                *quantity,
            ),
        }
    }

    /// The two entries name the same asset in the same quantity.
    pub open spec fn same_as(&self, other: Asset) -> bool {
        match (*self, other) {
            (Asset::Ada(q), Asset::Ada(r)) => q == r,
            (Asset::NativeAsset(p, n, q), Asset::NativeAsset(s, m, r)) => p@ == s@ && n@ == m@
                && q == r,
            _ => false,
        }
    }
}

impl Output {
    /// All assets of the output: the native currency first, then the tokens.
    pub fn assets(&self) -> (assets: Vec<Asset>)
        ensures
            assets@.len() == all_assets(*self).len(),
            forall|i: int| 0 <= i < assets@.len() ==> (#[trigger] assets@[i]).same_as(all_assets(*self)[i]),
    {
        let mut assets: Vec<Asset> = Vec::new();
        assets.push(Asset::Ada(self.lovelace));
        let mut i: usize = 0;
        while i < self.non_ada_assets.len()
            invariant
                i <= self.non_ada_assets.len(),
                assets@.len() == i + 1,
                forall|j: int| 0 <= j < assets@.len() ==> (#[trigger] assets@[j]).same_as(all_assets(*self)[j]),
            decreases self.non_ada_assets.len() - i,
        {
            assets.push(self.non_ada_assets[i].duplicate());
            i += 1;
        }
        assets
    }
}

} // verus!
