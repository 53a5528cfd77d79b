//! Assets, token pairs and their canonical keys.

use vstd::prelude::*;
use vstd::string::*;
use crate::encoding::{hex_encode, hex_string, lemma_hex_digit_not_dot, lemma_hex_string_injective};
use crate::minswap::{MinSwapPoolDatum, minswap_datum_of};
use crate::muesliswap::{MuesliSwapPoolDatum, muesliswap_datum_of};
use crate::plutus::{bytes_equal, copy_bytes, PlutusData};
use crate::sundaeswap::{SundaePoolDatum, SundaeId, sundae_datum_of};
use crate::text::{lemma_lex_less_asymmetric, lemma_lex_less_total, lex_less, text_less};
use crate::wingriders::{WingriderPoolDatum, wingriders_datum_of};

verus! {

/// The policy identifier of an issued token: 28 bytes.
pub type CurrencySymbol = Vec<u8>;

/// The name of an issued token under its policy.
pub type AssetName = Vec<u8>;

/// What an asset is, as a mathematical value.
pub enum AssetId {
    Ada,
    Token { policy: Seq<u8>, name: Seq<u8> },
}

/// One side of a pool: the native currency or an issued token.
#[derive(Clone, PartialEq, Eq, Debug, PartialOrd, Ord)]
pub enum PoolAsset {
    Ada,
    AssetClass(CurrencySymbol, AssetName),
}

impl View for PoolAsset {
    type V = AssetId;

    open spec fn view(&self) -> AssetId {
        match *self {
            PoolAsset::Ada => AssetId::Ada,
            PoolAsset::AssetClass(policy, name) => AssetId::Token { policy: policy@, name: name@ },
        }
    }
}

/// The two assets of a pool, in the order in which its datum names them.
#[derive(Clone, PartialEq, Eq, Debug, PartialOrd, Ord)]
pub struct TokenPair {
    pub a: PoolAsset,
    pub b: PoolAsset,
}

impl View for TokenPair {
    type V = (AssetId, AssetId);

    open spec fn view(&self) -> (AssetId, AssetId) {
        (self.a@, self.b@)
    }
}

/// The characters of an optional string.
pub open spec fn text_of(s: Option<String>) -> Option<Seq<char>> {
    match s {
        Some(s) => Some(s@),
        None => None,
    }
}

/// The identity of an issued token as text: policy and name in hexadecimal,
/// with a dot between them.
pub open spec fn asset_text(policy: Seq<u8>, name: Seq<u8>) -> Seq<char> {
    hex_string(policy) + "."@ + hex_string(name)
}

/// The text that stands for an asset: empty for the native currency.
pub open spec fn asset_display(asset: AssetId) -> Seq<char> {
    match asset {
        AssetId::Ada => Seq::empty(),
        AssetId::Token { policy, name } => asset_text(policy, name),
    }
}

/// The key of a pool of the native currency and the token `policy`, `name`.
pub open spec fn native_pair_key(policy: Seq<u8>, name: Seq<u8>) -> Seq<char> {
    "_._:_"@ + asset_text(policy, name) + "_"@
}

/// The canonical key of a pair of assets, where it has one: the same for
/// both orders of the pair, and none for two assets with the same text.
pub open spec fn pair_key(a: AssetId, b: AssetId) -> Option<Seq<char>> {
    match a {
        AssetId::Ada => match b {
            AssetId::Ada => None,
            AssetId::Token { policy, name } => Some(native_pair_key(policy, name)),
        },
        AssetId::Token { policy: policy_a, name: name_a } => match b {
            AssetId::Ada => Some(native_pair_key(policy_a, name_a)),
            AssetId::Token { policy: policy_b, name: name_b } => {
                let id_a = asset_text(policy_a, name_a);
                let id_b = asset_text(policy_b, name_b);
                if lex_less(id_a, id_b) {
                    Some(id_a + ":"@ + id_b)
                } else if lex_less(id_b, id_a) {
                    Some(id_b + ":"@ + id_a)
                } else {
                    None
                }
            },
        },
    }
}

/// Whether the canonical order of a pair is the reverse of the given one.
pub open spec fn pair_swapped(a: AssetId, b: AssetId) -> bool {
    match a {
        AssetId::Ada => false,
        AssetId::Token { policy: policy_a, name: name_a } => match b {
            AssetId::Ada => true,
            AssetId::Token { policy: policy_b, name: name_b } => lex_less(
                asset_text(policy_b, name_b),
                asset_text(policy_a, name_a),
            ),
        },
    }
}

/// The asset that a datum node describes, if it describes one: a record whose
/// first two fields are byte strings, both empty for the native currency,
/// else a policy of 28 bytes and a name.
pub open spec fn asset_of(value: PlutusData) -> Option<AssetId> {
    match value {
        PlutusData::Constr(record) => {
            if record.fields@.len() >= 2 {
                match record.fields@[0] {
                    PlutusData::BoundedBytes(symbol) => match record.fields@[1] {
                        PlutusData::BoundedBytes(name) => {
                            if symbol@.len() == 0 && name@.len() == 0 {
                                Some(AssetId::Ada)
                            } else if symbol@.len() == 28 {
                                Some(AssetId::Token { policy: symbol@, name: name@ })
                            } else {
                                None
                            }
                        },
                        _ => None,
                    },
                    _ => None,
                }
            } else {
                None
            }
        },
        _ => None,
    }
}

/// The pair that a datum node describes, if it describes one: a record whose
/// first two fields each describe an asset.
pub open spec fn pair_of(value: PlutusData) -> Option<(AssetId, AssetId)> {
    match value {
        PlutusData::Constr(record) => {
            if record.fields@.len() >= 2 {
                match (asset_of(record.fields@[0]), asset_of(record.fields@[1])) {
                    (Some(a), Some(b)) => Some((a, b)),
                    _ => None,
                }
            } else {
                None
            }
        },
        _ => None,
    }
}

/// The bytes as a policy identifier, if there are 28 of them.
pub fn currency_symbol_from(str: &Vec<u8>) -> (symbol: Option<CurrencySymbol>)
    ensures
        symbol is Some <==> str@.len() == 28,
        symbol is Some ==> symbol.unwrap()@ == str@,
{
    if str.len() == 28 {
        Some(copy_bytes(str))
    } else {
        None
    }
}

/// Writes the identity of an issued token.
pub(crate) fn asset_text_of(policy: &Vec<u8>, name: &Vec<u8>) -> (text: String)
    ensures
        text@ == asset_text(policy@, name@),
{
    let mut text = hex_encode(policy);
    text.append(".");
    let name_text = hex_encode(name);
    text.append(name_text.as_str());
    text
}

/// Writes the key of a pool of the native currency and an issued token.
fn native_key_of(policy: &Vec<u8>, name: &Vec<u8>) -> (text: String)
    ensures
        text@ == native_pair_key(policy@, name@),
{
    let id = asset_text_of(policy, name);
    let mut text = String::from_str("_._:_");
    text.append(id.as_str());
    text.append("_");
    text
}

impl PoolAsset {
    /// Whether the asset is one that the ledger can hold: a policy has 28 bytes.
    pub open spec fn well_formed(&self) -> bool {
        match self@ {
            AssetId::Ada => true,
            AssetId::Token { policy, name } => policy.len() == 28,
        }
    }

    /// Reads an asset from a datum node; fails on every other shape.
    pub fn try_from(value: &PlutusData) -> (asset: Result<PoolAsset, ()>)
        ensures
            match asset {
                Ok(found) => asset_of(*value) == Some(found@) && found.well_formed(),
                Err(_) => asset_of(*value) is None,
            },
    {
        if let PlutusData::Constr(record) = value {
            if record.fields.len() < 2 {
                return Err(());
            }
            if let PlutusData::BoundedBytes(symbol) = &record.fields[0] {
                if let PlutusData::BoundedBytes(name) = &record.fields[1] {
                    if symbol.len() == 0 && name.len() == 0 {
                        return Ok(PoolAsset::Ada);
                    }
                    if let Some(policy) = currency_symbol_from(symbol) {
                        return Ok(PoolAsset::AssetClass(policy, copy_bytes(name)));
                    }
                }
            }
        }
        Err(())
    }

    /// The asset as text: empty for the native currency, else policy and
    /// name in hexadecimal with a dot between them.
    pub fn to_string(&self) -> (text: String)
        ensures
            text@ == asset_display(self@),
    {
        match self {
            PoolAsset::Ada => String::new(),
            PoolAsset::AssetClass(policy, name) => asset_text_of(policy, name),
        }
    }
}

impl TokenPair {
    /// The canonical key of the pair, if it has one.
    pub fn key(&self) -> (key: Option<String>)
        ensures
            text_of(key) == pair_key(self.a@, self.b@),
    {
        match &self.a {
            PoolAsset::Ada => match &self.b {
                PoolAsset::Ada => None,
                PoolAsset::AssetClass(policy, name) => Some(native_key_of(policy, name)),
            },
            PoolAsset::AssetClass(policy_a, name_a) => match &self.b {
                PoolAsset::Ada => Some(native_key_of(policy_a, name_a)),
                PoolAsset::AssetClass(policy_b, name_b) => {
                    let id_a = asset_text_of(policy_a, name_a);
                    let id_b = asset_text_of(policy_b, name_b);
                    if text_less(id_a.as_str(), id_b.as_str()) {
                        let mut key = id_a;
                        key.append(":");
                        key.append(id_b.as_str());
                        Some(key)
                    } else if text_less(id_b.as_str(), id_a.as_str()) {
                        let mut key = id_b;
                        key.append(":");
                        key.append(id_a.as_str());
                        Some(key)
                    } else {
                        None
                    }
                },
            },
        }
    }

    /// Reads a pair from a datum node; fails unless both assets are there.
    pub fn try_from(value: &PlutusData) -> (pair: Result<TokenPair, ()>)
        ensures
            match pair {
                Ok(found) => pair_of(*value) == Some(found@) && found.a.well_formed()
                    && found.b.well_formed(),
                Err(_) => pair_of(*value) is None,
            },
    {
        if let PlutusData::Constr(record) = value {
            if record.fields.len() < 2 {
                return Err(());
            }
            let first = PoolAsset::try_from(&record.fields[0]);
            let second = PoolAsset::try_from(&record.fields[1]);
            if let Ok(a) = first {
                if let Ok(b) = second {
                    return Ok(TokenPair { a, b });
                }
            }
        }
        Err(())
    }
}

/// The key of a pair does not depend on the order of its two assets.
pub proof fn lemma_pair_key_symmetric(x: AssetId, y: AssetId)
    ensures
        pair_key(x, y) == pair_key(y, x),
{
    if let AssetId::Token { policy: policy_x, name: name_x } = x {
        if let AssetId::Token { policy: policy_y, name: name_y } = y {
            lemma_lex_less_asymmetric(asset_text(policy_x, name_x), asset_text(policy_y, name_y));
        }
    }
}

/// A pair of one asset with itself has no key, whatever the asset.
pub proof fn lemma_pair_key_degenerate(x: AssetId)
    ensures
        pair_key(x, x) is None,
{
    if let AssetId::Token { policy, name } = x {
        lemma_lex_less_asymmetric(asset_text(policy, name), asset_text(policy, name));
    }
}

/// The text of a token determines its policy and its name.
pub proof fn lemma_asset_text_injective(
    policy_x: Seq<u8>,
    name_x: Seq<u8>,
    policy_y: Seq<u8>,
    name_y: Seq<u8>,
)
    requires
        asset_text(policy_x, name_x) == asset_text(policy_y, name_y),
    ensures
        policy_x == policy_y,
        name_x == name_y,
{
    reveal_strlit(".");
    let tx = asset_text(policy_x, name_x);
    let ty = asset_text(policy_y, name_y);
    let hx = hex_string(policy_x);
    let hy = hex_string(policy_y);
    assert(tx[hx.len() as int] == '.');
    assert(ty[hy.len() as int] == '.');
    if hx.len() < hy.len() {
        let i = hx.len() as int;
        assert(ty[i] == hy[i]);
        lemma_hex_digit_not_dot((policy_y[i / 2] / 16) as int);
        lemma_hex_digit_not_dot((policy_y[i / 2] % 16) as int);
        assert(false);
    }
    if hy.len() < hx.len() {
        let i = hy.len() as int;
        assert(tx[i] == hx[i]);
        lemma_hex_digit_not_dot((policy_x[i / 2] / 16) as int);
        lemma_hex_digit_not_dot((policy_x[i / 2] % 16) as int);
        assert(false);
    }
    assert(hx =~= tx.subrange(0, hx.len() as int));
    assert(hy =~= ty.subrange(0, hy.len() as int));
    lemma_hex_string_injective(policy_x, policy_y);
    assert(hex_string(name_x) =~= tx.subrange(hx.len() as int + 1, tx.len() as int));
    assert(hex_string(name_y) =~= ty.subrange(hy.len() as int + 1, ty.len() as int));
    lemma_hex_string_injective(name_x, name_y);
}

/// A pair has a key exactly if its two assets differ.
pub proof fn lemma_pair_key_exists(x: AssetId, y: AssetId)
    ensures
        pair_key(x, y) is Some <==> x != y,
{
    lemma_pair_key_degenerate(x);
    if let AssetId::Token { policy: policy_x, name: name_x } = x {
        if let AssetId::Token { policy: policy_y, name: name_y } = y {
            let tx = asset_text(policy_x, name_x);
            let ty = asset_text(policy_y, name_y);
            if tx == ty {
                lemma_asset_text_injective(policy_x, name_x, policy_y, name_y);
            } else {
                lemma_lex_less_total(tx, ty);
            }
        }
    }
}

/// Where a pair has a key, exactly one of its two orders is the canonical one.
pub proof fn lemma_pair_swapped_once(x: AssetId, y: AssetId)
    requires
        pair_key(x, y) is Some,
    ensures
        pair_swapped(x, y) != pair_swapped(y, x),
{
    if let AssetId::Token { policy: policy_x, name: name_x } = x {
        if let AssetId::Token { policy: policy_y, name: name_y } = y {
            lemma_lex_less_asymmetric(asset_text(policy_x, name_x), asset_text(policy_y, name_y));
        }
    }
}

/// A record with fewer than two fields is read neither as an asset nor as a pair.
pub proof fn lemma_missing_field_is_no_pair(value: PlutusData)
    requires
        value is Constr ==> value->Constr_0.fields@.len() < 2,
    ensures
        asset_of(value) is None,
        pair_of(value) is None,
{
}

/// No structure is read both as a SundaeSwap datum and as the bare pair
/// that the other three layouts consist of.
pub proof fn lemma_layouts_exclusive(value: PlutusData)
    ensures
        !(sundae_datum_of(value) is Some && pair_of(value) is Some),
        sundae_datum_of(value) is Some ==> minswap_datum_of(value) is None
            && wingriders_datum_of(value) is None && muesliswap_datum_of(value) is None,
{
}

/// An issued token: its policy and its name.
#[derive(Debug)]
pub struct AssetClass {
    currency_symbol: CurrencySymbol,
    asset_name: AssetName,
}

impl View for AssetClass {
    type V = (Seq<u8>, Seq<u8>);

    closed spec fn view(&self) -> (Seq<u8>, Seq<u8>) {
        (self.currency_symbol@, self.asset_name@)
    }
}

/// The description of a token with the given policy and name.
pub open spec fn asset_class_text(policy: Seq<u8>, name: Seq<u8>) -> Seq<char> {
    "AssetClass { policy: '"@ + hex_string(policy) + "', name: '"@ + hex_string(name) + "' }"@
}

impl AssetClass {
    /// The token with the given policy and name.
    pub fn new(currency_symbol: CurrencySymbol, asset_name: AssetName) -> (token: AssetClass)
        ensures
            token@ == (currency_symbol@, asset_name@),
    {
        AssetClass { currency_symbol, asset_name }
    }

    /// The token described for a reader, policy and name in hexadecimal.
    pub fn to_string(&self) -> (text: String)
        ensures
            text@ == asset_class_text(self@.0, self@.1),
    {
        let policy = hex_encode(&self.currency_symbol);
        let name = hex_encode(&self.asset_name);
        let mut text = String::from_str("AssetClass { policy: '");
        text.append(policy.as_str());
        text.append("', name: '");
        text.append(name.as_str());
        text.append("' }");
        text
    }
}

impl PartialEq for AssetClass {
    fn eq(&self, other: &Self) -> (same: bool) {
        bytes_equal(&self.currency_symbol, &other.currency_symbol) && bytes_equal(
            &self.asset_name,
            &other.asset_name,
        )
    }
}

impl vstd::std_specs::cmp::PartialEqSpecImpl for AssetClass {
    open spec fn obeys_eq_spec() -> bool {
        true
    }

    open spec fn eq_spec(&self, other: &Self) -> bool {
        self@ == other@
    }
}

/// What a pool datum is, as a mathematical value.
pub enum DatumId {
    Minswap(AssetId, AssetId),
    Sundaeswap(SundaeId),
    Wingriders(AssetId, AssetId),
    MuesliSwapPoolDatum(AssetId, AssetId),
}

/// The datum of a liquidity pool, by the exchange that wrote it.
pub enum LiquidityPoolDatum {
    Minswap(MinSwapPoolDatum),
    Sundaeswap(SundaePoolDatum),
    Wingriders(WingriderPoolDatum),
    MuesliSwapPoolDatum(MuesliSwapPoolDatum),
}

impl View for LiquidityPoolDatum {
    type V = DatumId;

    open spec fn view(&self) -> DatumId {
        match *self {
            LiquidityPoolDatum::Minswap(d) => DatumId::Minswap(d.a@, d.b@),
            LiquidityPoolDatum::Sundaeswap(d) => DatumId::Sundaeswap(d@),
            LiquidityPoolDatum::Wingriders(d) => DatumId::Wingriders(d.a@, d.b@),
            LiquidityPoolDatum::MuesliSwapPoolDatum(d) => DatumId::MuesliSwapPoolDatum(d.a@, d.b@),
        }
    }
}

/// The pool datum that a structure is read as: the first of the four
/// layouts, in a fixed order, that it matches.
pub open spec fn pool_datum_of(value: PlutusData) -> Option<DatumId> {
    if let Some(pair) = minswap_datum_of(value) {
        Some(DatumId::Minswap(pair.0, pair.1))
    } else if let Some(datum) = sundae_datum_of(value) {
        Some(DatumId::Sundaeswap(datum))
    } else if let Some(pair) = wingriders_datum_of(value) {
        Some(DatumId::Wingriders(pair.0, pair.1))
    } else if let Some(pair) = muesliswap_datum_of(value) {
        Some(DatumId::MuesliSwapPoolDatum(pair.0, pair.1))
    } else {
        None
    }
}

/// A structure is read as a pool datum exactly if one of the four layouts
/// reads it, and then as the first of them in their order.
pub proof fn lemma_dispatch_first_match(value: PlutusData)
    ensures
        pool_datum_of(value) is None <==> minswap_datum_of(value) is None && sundae_datum_of(
            value,
        ) is None && wingriders_datum_of(value) is None && muesliswap_datum_of(value) is None,
        minswap_datum_of(value) is Some ==> pool_datum_of(value) is Some && pool_datum_of(
            value,
        ).unwrap() is Minswap,
        minswap_datum_of(value) is None && sundae_datum_of(value) is Some ==> pool_datum_of(
            value,
        ) is Some && pool_datum_of(value).unwrap() is Sundaeswap,
{
}

impl LiquidityPoolDatum {
    /// Reads a pool datum, trying the four layouts in their fixed order.
    pub fn try_from(value: &PlutusData) -> (datum: Result<LiquidityPoolDatum, ()>)
        ensures
            match datum {
                Ok(found) => pool_datum_of(*value) == Some(found@),
                Err(_) => pool_datum_of(*value) is None,
            },
    {
        if let Ok(found) = MinSwapPoolDatum::try_from(value) {
            return Ok(LiquidityPoolDatum::Minswap(found));
        }
        if let Ok(found) = SundaePoolDatum::try_from(value) {
            return Ok(LiquidityPoolDatum::Sundaeswap(found));
        }
        if let Ok(found) = WingriderPoolDatum::try_from(value) {
            return Ok(LiquidityPoolDatum::Wingriders(found));
        }
        if let Ok(found) = MuesliSwapPoolDatum::try_from(value) {
            return Ok(LiquidityPoolDatum::MuesliSwapPoolDatum(found));
        }
        Err(())
    }
}

} // verus!
