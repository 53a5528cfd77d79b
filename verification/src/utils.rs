//! The steps from an output to its entry: marker, datum, reserves, key and
//! value.

use vstd::prelude::*;
use vstd::string::*;
use crate::encoding::{
    hex_bytes, hex_decode, hex_encode, hex_string, is_hex_text, lemma_hex_round_trip,
};
use crate::ledger::{Asset, DatumOption, Output, Tx, WitnessDatum};
use crate::model::{
    currency_symbol_from, lemma_pair_key_symmetric, lemma_pair_swapped_once, pair_key,
    pair_swapped, text_of, AssetId, PoolAsset, TokenPair,
};
use crate::plutus::{bytes_equal, PlutusData};
use crate::text::{
    decimal_string, decimal_text, is_json_number, json_number_accepted, json_string,
    json_string_text,
};

verus! {

/// The policy of an entry in hexadecimal; empty for the native currency.
pub open spec fn policy_text(asset: Asset) -> Seq<char> {
    match asset {
        Asset::Ada(_) => Seq::empty(),
        Asset::NativeAsset(policy, _, _) => hex_string(policy@),
    }
}

/// Some entry of `assets` has the policy that `currency_symbol` writes.
pub open spec fn has_currency_symbol(currency_symbol: Seq<char>, assets: Seq<Asset>) -> bool {
    exists|i: int| 0 <= i < assets.len() && #[trigger] policy_text(assets[i]) == currency_symbol
}

/// Whether some entry of `assets` has the policy that `currency_symbol`
/// writes in lower-case hexadecimal.
pub fn contains_currency_symbol(currency_symbol: &String, assets: &Vec<Asset>) -> (found: bool)
    ensures
        found == has_currency_symbol(currency_symbol@, assets@),
{
    let mut i: usize = 0;
    while i < assets.len()
        invariant
            i <= assets.len(),
            forall|j: int| 0 <= j < i ==> #[trigger] policy_text(assets@[j]) != currency_symbol@,
        decreases assets.len() - i,
    {
        let text = match &assets[i] {
            Asset::Ada(_) => String::new(),
            Asset::NativeAsset(policy, _, _) => hex_encode(policy),
        };
        assert(text@ == policy_text(assets@[i as int]));
        if text == *currency_symbol {
            return true;
        }
        i += 1;
    }
    false
}

/// The asset that two hexadecimal texts name: the native currency where both
/// are empty, else the token whose policy of 28 bytes and whose name they
/// write.
pub open spec fn pool_asset_of(symbol: Seq<char>, name: Seq<char>) -> Option<AssetId> {
    if symbol.len() == 0 && name.len() == 0 {
        Some(AssetId::Ada)
    } else if is_hex_text(symbol) && is_hex_text(name) && hex_bytes(symbol).len() == 28 {
        Some(AssetId::Token { policy: hex_bytes(symbol), name: hex_bytes(name) })
    } else {
        None
    }
}

/// A token is read back from the hexadecimal texts of its policy and name.
pub proof fn lemma_pool_asset_round_trip(policy: Seq<u8>, name: Seq<u8>)
    requires
        policy.len() == 28,
    ensures
        pool_asset_of(hex_string(policy), hex_string(name)) == Some(
            AssetId::Token { policy, name },
        ),
{
    lemma_hex_round_trip(policy);
    lemma_hex_round_trip(name);
}

/// Reads an asset from the hexadecimal texts of its policy and name.
pub fn pool_asset_from(hex_currency_symbol: &String, hex_asset_name: &String) -> (asset: Option<
    PoolAsset,
>)
    ensures
        match asset {
            Some(found) => pool_asset_of(hex_currency_symbol@, hex_asset_name@) == Some(found@)
                && found.well_formed(),
            None => pool_asset_of(hex_currency_symbol@, hex_asset_name@) is None,
        },
{
    if hex_currency_symbol.as_str().unicode_len() == 0 && hex_asset_name.as_str().unicode_len()
        == 0 {
        return Some(PoolAsset::Ada);
    }
    if let Some(policy_bytes) = hex_decode(hex_currency_symbol.as_str()) {
        if let Some(name_bytes) = hex_decode(hex_asset_name.as_str()) {
            if let Some(policy) = currency_symbol_from(&policy_bytes) {
                return Some(PoolAsset::AssetClass(policy, name_bytes));
            }
        }
    }
    None
}

/// The first witness from `from` on whose hash is `hash`.
pub open spec fn witness_for(hash: Seq<u8>, witnesses: Seq<WitnessDatum>, from: int) -> Option<
    PlutusData,
>
    decreases witnesses.len() - from,
{
    if from < 0 || from >= witnesses.len() {
        None
    } else if witnesses[from].hash@ == hash {
        Some(witnesses[from].data)
    } else {
        witness_for(hash, witnesses, from + 1)
    }
}

/// The datum of an output: the one it holds, or the first witness of the
/// transaction with the hash it holds.
pub open spec fn datum_of(utxo: Output, tx: Tx) -> Option<PlutusData> {
    match utxo.datum {
        Some(DatumOption::Data(data)) => Some(data),
        Some(DatumOption::Hash(hash)) => witness_for(hash@, tx.plutus_data@, 0),
        None => None,
    }
}

/// Finds the datum of an output; fails where it has none or no witness has
/// its hash.
pub fn resolve_datum<'a>(utxo: &'a Output, tx: &'a Tx) -> (datum: Result<&'a PlutusData, ()>)
    ensures
        match datum {
            Ok(data) => datum_of(*utxo, *tx) == Some(*data),
            Err(_) => datum_of(*utxo, *tx) is None,
        },
{
    match &utxo.datum {
        Some(DatumOption::Data(data)) => Ok(data),
        Some(DatumOption::Hash(hash)) => {
            let mut i: usize = 0;
            while i < tx.plutus_data.len()
                invariant
                    i <= tx.plutus_data.len(),
                    utxo.datum == Some(DatumOption::Hash(*hash)),
                    witness_for(hash@, tx.plutus_data@, 0) == witness_for(
                        hash@,
                        tx.plutus_data@,
                        i as int,
                    ),
                decreases tx.plutus_data.len() - i,
            {
                if bytes_equal(&tx.plutus_data[i].hash, hash) {
                    assert(witness_for(hash@, tx.plutus_data@, i as int) == Some(
                        tx.plutus_data@[i as int].data,
                    ));
                    return Ok(&tx.plutus_data[i].data);
                }
                i += 1;
            }
            Err(())
        },
        None => Err(()),
    }
}

/// The quantity that an entry gives for an asset, if it is an entry for it.
pub open spec fn quantity_in(entry: Asset, asset: AssetId) -> Option<u64> {
    match entry {
        Asset::Ada(quantity) => match asset {
            AssetId::Ada => Some(quantity),
            _ => None,
        },
        Asset::NativeAsset(policy, name, quantity) => match asset {
            AssetId::Token { policy: wanted_policy, name: wanted_name } => {
                if policy@ == wanted_policy && name@ == wanted_name {
                    Some(quantity)
                } else {
                    None
                }
            },
            _ => None,
        },
    }
}

/// The quantity of an asset in a bundle: that of the first entry for it from
/// `from` on.
pub open spec fn amount_from(asset: AssetId, assets: Seq<Asset>, from: int) -> Option<u64>
    decreases assets.len() - from,
{
    if from < 0 || from >= assets.len() {
        None
    } else if quantity_in(assets[from], asset) is Some {
        quantity_in(assets[from], asset)
    } else {
        amount_from(asset, assets, from + 1)
    }
}

/// The quantity of an asset in a bundle, if the bundle holds it.
pub fn get_asset_amount(asset: &PoolAsset, assets: &Vec<Asset>) -> (amount: Option<u64>)
    ensures
        amount == amount_from(asset@, assets@, 0),
{
    let mut i: usize = 0;
    while i < assets.len()
        invariant
            i <= assets.len(),
            amount_from(asset@, assets@, 0) == amount_from(asset@, assets@, i as int),
        decreases assets.len() - i,
    {
        match &assets[i] {
            Asset::Ada(quantity) => {
                if let PoolAsset::Ada = asset {
                    return Some(*quantity);
                }
            },
            Asset::NativeAsset(policy, name, quantity) => {
                if let PoolAsset::AssetClass(wanted_policy, wanted_name) = asset {
                    if bytes_equal(policy, wanted_policy) && bytes_equal(name, wanted_name) {
                        return Some(*quantity);
                    }
                }
            },
        }
        i += 1;
    }
    None
}

/// The member `dex` of a value, with the comma after it, where a label is given.
pub open spec fn dex_member(dex: Option<Seq<char>>) -> Seq<char> {
    match dex {
        Some(label) => "\"dex\":"@ + json_string(label) + ","@,
        None => Seq::empty(),
    }
}

/// The member `fee` of a value, with the comma after it, where a number is
/// given.
pub open spec fn fee_member(fee: Option<Seq<char>>) -> Seq<char> {
    match fee {
        Some(number) => "\"fee\":"@ + number + ","@,
        None => Seq::empty(),
    }
}

/// The fee that is written: the given text, if it is a JSON number.
pub open spec fn accepted_fee(fee: Option<Seq<char>>) -> Option<Seq<char>> {
    match fee {
        Some(number) => if json_number_accepted(number) {
            Some(number)
        } else {
            None
        },
        None => None,
    }
}

/// The member `pool_id` of a value, with the comma after it, where an
/// identifier is given.
pub open spec fn pool_id_member(pool_id: Option<Seq<char>>) -> Seq<char> {
    match pool_id {
        Some(id) => "\"pool_id\":"@ + json_string(id) + ","@,
        None => Seq::empty(),
    }
}

/// The value of a pool as JSON text: an object with the members `dex`, `fee`
/// and `pool_id` as far as they are given, then `token_a` and `token_b`, the
/// quantities as strings of decimal digits.
pub open spec fn value_text(
    dex: Option<Seq<char>>,
    a_amount: u64,
    b_amount: u64,
    fee: Option<Seq<char>>,
    pool_id: Option<Seq<char>>,
) -> Seq<char> {
    "{"@ + dex_member(dex) + fee_member(fee) + pool_id_member(pool_id) + "\"token_a\":"@
        + json_string(decimal_string(a_amount as nat)) + ",\"token_b\":"@ + json_string(
        decimal_string(b_amount as nat),
    ) + "}"@
}

/// The value that is written for the given quantities, where both are
/// there; of the fee only a JSON number is written.
pub open spec fn value_of(
    dex: Option<Seq<char>>,
    a_amount: Option<u64>,
    b_amount: Option<u64>,
    fee: Option<Seq<char>>,
    pool_id: Option<Seq<char>>,
) -> Option<Seq<char>> {
    match (a_amount, b_amount) {
        (Some(a), Some(b)) => Some(value_text(dex, a, b, accepted_fee(fee), pool_id)),
        _ => None,
    }
}

/// Writes a member whose value is a string.
fn string_member(name: &str, value: &Option<String>) -> (text: String)
    ensures
        text@ == match *value {
            Some(s) => name@ + json_string(s@) + ","@,
            None => Seq::empty(),
        },
{
    match value {
        Some(s) => {
            let mut text = String::from_str(name);
            let quoted = json_string_text(s.as_str());
            text.append(quoted.as_str());
            text.append(",");
            text
        },
        None => String::new(),
    }
}

/// Writes the value of a pool with the given quantities. The fee, where
/// one is given, is written as it stands: it is meant to be a JSON number.
pub fn write_value(
    dex_prefix: &Option<String>,
    a_amount: u64,
    b_amount: u64,
    fee: &Option<String>,
    pool_id: &Option<String>,
) -> (value: String)
    ensures
        value@ == value_text(
            text_of(*dex_prefix),
            a_amount,
            b_amount,
            text_of(*fee),
            text_of(*pool_id),
        ),
{
    let dex = string_member("\"dex\":", dex_prefix);
    let fee_text = match fee {
        Some(number) => {
            let mut text = String::from_str("\"fee\":");
            text.append(number.as_str());
            text.append(",");
            text
        },
        None => String::new(),
    };
    let pool = string_member("\"pool_id\":", pool_id);
    let a_digits = decimal_text(a_amount);
    let a_text = json_string_text(a_digits.as_str());
    let b_digits = decimal_text(b_amount);
    let b_text = json_string_text(b_digits.as_str());
    let mut text = String::from_str("{");
    text.append(dex.as_str());
    text.append(fee_text.as_str());
    text.append(pool.as_str());
    text.append("\"token_a\":");
    text.append(a_text.as_str());
    text.append(",\"token_b\":");
    text.append(b_text.as_str());
    text.append("}");
    text
}

/// Keeps a fee that is a JSON number.
fn accept_fee(fee: Option<String>) -> (accepted: Option<String>)
    ensures
        text_of(accepted) == accepted_fee(text_of(fee)),
{
    match fee {
        Some(number) => if is_json_number(number.as_str()) {
            Some(number)
        } else {
            None
        },
        None => None,
    }
}

/// Writes the value of a pool; fails where a quantity is missing. The fee
/// is given as text and left out where that is no JSON number.
pub fn serialize_value(
    dex_prefix: &Option<String>,
    a_amount_opt: Option<u64>,
    b_amount_opt: Option<u64>,
    fee_opt: Option<String>,
    pool_id_opt: Option<String>,
) -> (value: Option<String>)
    ensures
        text_of(value) == value_of(
            text_of(*dex_prefix),
            a_amount_opt,
            b_amount_opt,
            text_of(fee_opt),
            text_of(pool_id_opt),
        ),
{
    let a_amount: u64 = match a_amount_opt {
        Some(a) => a,
        None => { return None; },
    };
    let b_amount: u64 = match b_amount_opt {
        Some(b) => b,
        None => { return None; },
    };
    let fee = accept_fee(fee_opt);
    Some(write_value(dex_prefix, a_amount, b_amount, &fee, &pool_id_opt))
}

/// The entry of a pool: its canonical key, and its value with the
/// quantities in canonical order, exchanged where the key was. None where
/// the pair has no key or a quantity is missing.
pub open spec fn key_value_of(
    pair: (AssetId, AssetId),
    dex: Option<Seq<char>>,
    a_amount: Option<u64>,
    b_amount: Option<u64>,
    fee: Option<Seq<char>>,
    pool_id: Option<Seq<char>>,
) -> Option<(Seq<char>, Seq<char>)> {
    match pair_key(pair.0, pair.1) {
        Some(key) => {
            let value = if pair_swapped(pair.0, pair.1) {
                value_of(dex, b_amount, a_amount, fee, pool_id)
            } else {
                value_of(dex, a_amount, b_amount, fee, pool_id)
            };
            match value {
                Some(value) => Some((key, value)),
                None => None,
            }
        },
        None => None,
    }
}

/// The entry of a pool does not depend on the order in which its datum
/// names the two assets, as long as each quantity stays with its asset.
pub proof fn lemma_key_value_symmetric(
    x: AssetId,
    y: AssetId,
    dex: Option<Seq<char>>,
    x_amount: Option<u64>,
    y_amount: Option<u64>,
    fee: Option<Seq<char>>,
    pool_id: Option<Seq<char>>,
)
    ensures
        key_value_of((x, y), dex, x_amount, y_amount, fee, pool_id) == key_value_of(
            (y, x),
            dex,
            y_amount,
            x_amount,
            fee,
            pool_id,
        ),
{
    lemma_pair_key_symmetric(x, y);
    if pair_key(x, y) is Some {
        lemma_pair_swapped_once(x, y);
    }
}

/// Without both quantities there is no entry.
pub proof fn lemma_missing_reserve_is_no_entry(
    pair: (AssetId, AssetId),
    dex: Option<Seq<char>>,
    a_amount: Option<u64>,
    b_amount: Option<u64>,
    fee: Option<Seq<char>>,
    pool_id: Option<Seq<char>>,
)
    requires
        a_amount is None || b_amount is None,
    ensures
        key_value_of(pair, dex, a_amount, b_amount, fee, pool_id) is None,
{
}

/// The characters of an optional entry.
pub open spec fn entry_text(entry: Option<(String, String)>) -> Option<(Seq<char>, Seq<char>)> {
    match entry {
        Some((key, value)) => Some((key@, value@)),
        None => None,
    }
}

/// Builds the entry of a pool from its pair and the quantities held of the
/// pair's two assets, both in the order of the datum.
pub fn build_key_value_pair(
    token_pair: &TokenPair,
    dex_prefix: &Option<String>,
    a_amount_opt: Option<u64>,
    b_amount_opt: Option<u64>,
    fee_opt: Option<String>,
    pool_id_opt: Option<String>,
) -> (entry: Option<(String, String)>)
    ensures
        entry_text(entry) == key_value_of(
            token_pair@,
            text_of(*dex_prefix),
            a_amount_opt,
            b_amount_opt,
            text_of(fee_opt),
            text_of(pool_id_opt),
        ),
{
    let key = match token_pair.key() {
        Some(key) => key,
        None => { return None; },
    };
    let swapped = match &token_pair.a {
        PoolAsset::Ada => false,
        PoolAsset::AssetClass(policy_a, name_a) => match &token_pair.b {
            PoolAsset::Ada => true,
            PoolAsset::AssetClass(policy_b, name_b) => {
                let id_a = crate::model::asset_text_of(policy_a, name_a);
                let id_b = crate::model::asset_text_of(policy_b, name_b);
                crate::text::text_less(id_b.as_str(), id_a.as_str())
            },
        },
    };
    let value = if swapped {
        serialize_value(dex_prefix, b_amount_opt, a_amount_opt, fee_opt, pool_id_opt)
    } else {
        serialize_value(dex_prefix, a_amount_opt, b_amount_opt, fee_opt, pool_id_opt)
    };
    match value {
        Some(value) => Some((key, value)),
        None => None,
    }
}

} // verus!
