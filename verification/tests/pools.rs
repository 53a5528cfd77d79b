use liquidity_by_token_pair::ledger::{Asset, Block, DatumOption, Output, Tx, WitnessDatum};
use liquidity_by_token_pair::minswap::MinSwapPoolDatum;
use liquidity_by_token_pair::model::{
    currency_symbol_from, AssetClass, LiquidityPoolDatum, PoolAsset, TokenPair,
};
use liquidity_by_token_pair::muesliswap::MuesliSwapPoolDatum;
use liquidity_by_token_pair::plutus::{BigInt, Constr, PlutusData};
use liquidity_by_token_pair::sundaeswap::{Fee, SundaePoolDatum};
use liquidity_by_token_pair::utils::{
    build_key_value_pair, contains_currency_symbol, get_asset_amount, pool_asset_from,
    resolve_datum, serialize_value, write_value,
};
use liquidity_by_token_pair::wingriders::WingriderPoolDatum;
use liquidity_by_token_pair::{CRDTCommand, Config, RuntimePolicy};
use pallas::ledger::primitives::babbage;
use pallas::ledger::primitives::Fragment;

const CURRENCY_SYMBOL_1: &str = "93744265ed9762d8fa52c4aacacc703aa8c81de9f6d1a59f2299235b";
const CURRENCY_SYMBOL_2: &str = "158fd94afa7ee07055ccdee0ba68637fe0e700d0e58e8d12eca5be46";
const MIN_POLICY: &str = "29d222ce763455e3d7a09a665ce554f00ac89d2e99a1a83d267170c6";
const MIN_ID: &str = "29d222ce763455e3d7a09a665ce554f00ac89d2e99a1a83d267170c6.4d494e";
const DJED_ID: &str =
    "8db269c3ec630e06ae29f74bc39edd1f87c819f1056206e879a1cd61.446a65644d6963726f555344";
const ADA_MIN_DATUM: &str = "d8799fd8799f4040ffd8799f581c29d222ce763455e3d7a09a665ce554f00ac89d2e99a1a83d267170c6434d494eff1b00004ce6fb73282200d87a80ff";
const MIN_DJED_DATUM: &str = "d8799fd8799f581c29d222ce763455e3d7a09a665ce554f00ac89d2e99a1a83d267170c6434d494effd8799f581c8db269c3ec630e06ae29f74bc39edd1f87c819f1056206e879a1cd614c446a65644d6963726f555344ff1b000000012d9b96321b000000012dc40542d8799fd8799fd8799fd8799f581caafb1196434cb837fd6f21323ca37b302dff6387e8a84b3fa28faf56ffd8799fd8799fd8799f581c52563c5410bff6a0d43ccebb7c37e1f69f5eb260552521adff33b9c2ffffffffd87a80ffffff";
const ADA_SUN_DATUM: &str = "d8799fd8799fd8799f4040ffd8799f581c9a9693a9a37912a5097918f97918d15240c92ab729a0b7c4aa144d774653554e444145ffff41081b0000105a99e0fa59d8799f031903e8ffff";

fn convert(raw: &babbage::PlutusData) -> PlutusData {
    match raw {
        babbage::PlutusData::Constr(record) => PlutusData::Constr(Constr {
            tag: record.tag,
            any_constructor: record.any_constructor,
            fields: record.fields.iter().map(convert).collect(),
        }),
        babbage::PlutusData::Map(pairs) => {
            PlutusData::KeyValues(pairs.iter().map(|(k, v)| (convert(k), convert(v))).collect())
        }
        babbage::PlutusData::BigInt(babbage::BigInt::Int(n)) => {
            PlutusData::BigInt(BigInt::Int(i128::from(*n)))
        }
        babbage::PlutusData::BigInt(babbage::BigInt::BigUInt(bytes)) => {
            PlutusData::BigInt(BigInt::BigUInt(bytes.to_vec()))
        }
        babbage::PlutusData::BigInt(babbage::BigInt::BigNInt(bytes)) => {
            PlutusData::BigInt(BigInt::BigNInt(bytes.to_vec()))
        }
        babbage::PlutusData::BoundedBytes(bytes) => PlutusData::BoundedBytes(bytes.to_vec()),
        babbage::PlutusData::Array(items) => {
            PlutusData::Array(items.iter().map(convert).collect())
        }
    }
}

fn datum(hex_pool_datum: &str) -> PlutusData {
    let data = hex::decode(hex_pool_datum).unwrap();
    let plutus_data = babbage::PlutusData::decode_fragment(&data).unwrap();
    convert(&plutus_data)
}

fn fee_text(fee: f64) -> Option<String> {
    serde_json::Number::from_f64(fee).map(|n| n.to_string())
}

fn token(policy: &str, name: &str) -> Asset {
    Asset::NativeAsset(hex::decode(policy).unwrap(), name.as_bytes().to_vec(), 0)
}

fn mock_assets() -> Vec<Asset> {
    [
        Asset::NativeAsset(hex::decode(CURRENCY_SYMBOL_1).unwrap(), "Tkn1".to_string().as_bytes().to_vec(), 1),
        Asset::NativeAsset(hex::decode(CURRENCY_SYMBOL_1).unwrap(), "Tkn2".to_string().as_bytes().to_vec(), 2),
        Asset::NativeAsset(hex::decode(CURRENCY_SYMBOL_2).unwrap(), "Tkn3".to_string().as_bytes().to_vec(), 3),
    ]
    .to_vec()
}

fn min_token() -> PoolAsset {
    pool_asset_from(&String::from(MIN_POLICY), &String::from("4d494e")).unwrap()
}

fn bytes(data: &[u8]) -> PlutusData {
    PlutusData::BoundedBytes(data.to_vec())
}

fn record(fields: Vec<PlutusData>) -> PlutusData {
    PlutusData::Constr(Constr { tag: 121, any_constructor: None, fields })
}

fn small(n: i128) -> PlutusData {
    PlutusData::BigInt(BigInt::Int(n))
}

fn sundae_record(numerator: PlutusData, denominator: PlutusData) -> PlutusData {
    let pair = record(vec![
        record(vec![bytes(&[]), bytes(&[])]),
        record(vec![bytes(&[7u8; 28]), bytes(b"SUN")]),
    ]);
    record(vec![pair, bytes(&[8]), small(1), record(vec![numerator, denominator])])
}

#[test]
fn test_decoding_pool_datum_ada_min() {
    let hex_pool_datum = "d8799fd8799f4040ffd8799f581c29d222ce763455e3d7a09a665ce554f00ac89d2e99a1a83d267170c6434d494eff1a9041264e181eff";
    let plutus_data = datum(hex_pool_datum);
    let pool_datum = MuesliSwapPoolDatum::try_from(&plutus_data).unwrap();
    assert_eq!(PoolAsset::Ada, pool_datum.a);
    let minswap_token = pool_asset_from(
        &String::from("29d222ce763455e3d7a09a665ce554f00ac89d2e99a1a83d267170c6"),
        &String::from("4d494e"),
    )
    .unwrap();
    assert_eq!(minswap_token, pool_datum.b);
}

#[test]
fn test_decoding_pool_datum_ada_sun() {
    let plutus_data = datum(ADA_SUN_DATUM);
    let pool_datum = SundaePoolDatum::try_from(&plutus_data).unwrap();
    assert_eq!(PoolAsset::Ada, pool_datum.a);

    let sundae_token = pool_asset_from(
        &String::from("9a9693a9a37912a5097918f97918d15240c92ab729a0b7c4aa144d77"),
        &String::from("53554e444145"),
    )
    .unwrap();
    assert_eq!(sundae_token, pool_datum.b);
    assert_eq!(
        f64::from(0.003),
        (pool_datum.fee.numerator as f64) / (pool_datum.fee.denominator as f64)
    );
    assert_eq!(Fee { numerator: 3, denominator: 1000 }, pool_datum.fee);
    assert_eq!("08", pool_datum.pool_id);
}

#[test]
fn test_contains_currency_symbol() {
    let mock_assets = mock_assets();
    assert_eq!(contains_currency_symbol(&CURRENCY_SYMBOL_1.to_string(), &mock_assets), true);
    assert_eq!(contains_currency_symbol(&CURRENCY_SYMBOL_2.to_string(), &mock_assets), true);
    assert_eq!(contains_currency_symbol(&"".to_string(), &mock_assets), false);
    assert_eq!(contains_currency_symbol(&"123abc".to_string(), &mock_assets), false);
}

#[test]
fn test_valid_key_for_ada_min() {
    let plutus_data = datum(ADA_MIN_DATUM);
    let token_pair = TokenPair::try_from(&plutus_data).unwrap();
    let key = token_pair.key();
    assert_eq!(true, key.is_some());
    assert_eq!(
        "_._:_29d222ce763455e3d7a09a665ce554f00ac89d2e99a1a83d267170c6.4d494e_",
        key.unwrap()
    )
}

#[test]
fn test_valid_key_for_min_ada() {
    let plutus_data = datum(ADA_MIN_DATUM);
    let tp = TokenPair::try_from(&plutus_data).unwrap();
    let token_pair = TokenPair { a: tp.b, b: tp.a };
    let key = token_pair.key();
    assert_eq!(true, key.is_some());
    assert_eq!(
        "_._:_29d222ce763455e3d7a09a665ce554f00ac89d2e99a1a83d267170c6.4d494e_",
        key.unwrap()
    )
}

#[test]
fn test_valid_key_for_same_assets() {
    let plutus_data = datum(ADA_MIN_DATUM);
    let first = TokenPair::try_from(&plutus_data).unwrap();
    let second = TokenPair::try_from(&plutus_data).unwrap();

    let tokens_twice = TokenPair { a: first.b, b: second.b };
    let key1 = tokens_twice.key();
    assert_eq!(true, key1.is_none());

    let ada_twice = TokenPair { a: first.a, b: second.a };
    let key2 = ada_twice.key();
    assert_eq!(true, key2.is_none());
}

#[test]
fn test_valid_key_for_min_djed() {
    let plutus_data = datum(MIN_DJED_DATUM);
    let token_pair = TokenPair::try_from(&plutus_data).unwrap();

    let key = token_pair.key();
    assert_eq!(true, key.is_some());
    assert_eq!("29d222ce763455e3d7a09a665ce554f00ac89d2e99a1a83d267170c6.4d494e:8db269c3ec630e06ae29f74bc39edd1f87c819f1056206e879a1cd61.446a65644d6963726f555344", key.unwrap());

    assert_eq!(
        "29d222ce763455e3d7a09a665ce554f00ac89d2e99a1a83d267170c6.4d494e",
        token_pair.a.to_string()
    );
    assert_eq!(
        "8db269c3ec630e06ae29f74bc39edd1f87c819f1056206e879a1cd61.446a65644d6963726f555344",
        token_pair.b.to_string()
    );

    let member = serialize_value(
        &Some(String::from("min")),
        Some(10),
        Some(20),
        fee_text(0.005),
        Some(String::from("08")),
    );
    assert_eq!(true, member.is_some());
    assert_eq!(
        "{\"dex\":\"min\",\"fee\":0.005,\"pool_id\":\"08\",\"token_a\":\"10\",\"token_b\":\"20\"}",
        member.unwrap()
    );

    let swapped_token_pair = TokenPair { a: token_pair.b.clone(), b: token_pair.a.clone() };

    assert_eq!(token_pair.key(), swapped_token_pair.key());
    assert_eq!(
        build_key_value_pair(
            &token_pair,
            &None,
            Some(10),
            Some(20),
            fee_text(0.005),
            Some(String::from("08"))
        ),
        build_key_value_pair(
            &swapped_token_pair,
            &None,
            Some(20),
            Some(10),
            fee_text(0.005),
            Some(String::from("08"))
        ),
    );
    assert_eq!(
        build_key_value_pair(
            &token_pair,
            &None,
            Some(10),
            Some(20),
            fee_text(0.005),
            Some(String::from("08"))
        ),
        build_key_value_pair(
            &swapped_token_pair,
            &None,
            Some(20),
            Some(10),
            fee_text(0.005),
            Some(String::from("08"))
        ),
    );
}

#[test]
fn test_invalid_key_for_ada_ada() {
    let token_pair = TokenPair { a: PoolAsset::Ada, b: PoolAsset::Ada };
    let key = token_pair.key();
    assert_eq!(true, key.is_none());
}

#[test]
fn test_get_asset() {
    assert_eq!(None, get_asset_amount(&PoolAsset::Ada, &mock_assets()));

    let asset = pool_asset_from(&String::from(CURRENCY_SYMBOL_1), &hex::encode("Tkn2")).unwrap();
    assert_eq!(Some(2), get_asset_amount(&asset, &mock_assets()));
}

#[test]
fn key_of_two_tokens_puts_the_lower_text_first() {
    let plutus_data = datum(MIN_DJED_DATUM);
    let pair = TokenPair::try_from(&plutus_data).unwrap();
    let swapped = TokenPair { a: pair.b.clone(), b: pair.a.clone() };
    let expected = format!("{}:{}", MIN_ID, DJED_ID);
    assert_eq!(Some(expected.clone()), pair.key());
    assert_eq!(Some(expected), swapped.key());
}

#[test]
fn key_of_one_token_twice_is_none() {
    let pair = TokenPair { a: min_token(), b: min_token() };
    assert_eq!(None, pair.key());
    assert_eq!(None, build_key_value_pair(&pair, &None, Some(1), Some(2), None, None));
}

#[test]
fn key_orders_a_shorter_name_before_its_extension() {
    let short = PoolAsset::AssetClass(vec![1u8; 28], vec![0xab]);
    let long = PoolAsset::AssetClass(vec![1u8; 28], vec![0xab, 0x00]);
    let policy = "01".repeat(28);
    let expected = format!("{}.ab:{}.ab00", policy, policy);
    assert_eq!(Some(expected.clone()), TokenPair { a: short.clone(), b: long.clone() }.key());
    assert_eq!(Some(expected), TokenPair { a: long, b: short }.key());
}

#[test]
fn value_keeps_each_quantity_with_its_asset() {
    let ada_first = TokenPair { a: PoolAsset::Ada, b: min_token() };
    let token_first = TokenPair { a: min_token(), b: PoolAsset::Ada };
    let key = String::from("_._:_29d222ce763455e3d7a09a665ce554f00ac89d2e99a1a83d267170c6.4d494e_");
    let value = String::from("{\"token_a\":\"10\",\"token_b\":\"20\"}");
    assert_eq!(
        Some((key.clone(), value.clone())),
        build_key_value_pair(&ada_first, &None, Some(10), Some(20), None, None)
    );
    assert_eq!(
        Some((key, value)),
        build_key_value_pair(&token_first, &None, Some(20), Some(10), None, None)
    );
}

#[test]
fn value_of_two_tokens_follows_the_key() {
    let plutus_data = datum(MIN_DJED_DATUM);
    let pair = TokenPair::try_from(&plutus_data).unwrap();
    let swapped = TokenPair { a: pair.b.clone(), b: pair.a.clone() };
    let entry = build_key_value_pair(&swapped, &None, Some(7), Some(5), None, None).unwrap();
    assert_eq!(format!("{}:{}", MIN_ID, DJED_ID), entry.0);
    assert_eq!("{\"token_a\":\"5\",\"token_b\":\"7\"}", entry.1);
}

#[test]
fn entry_needs_both_quantities() {
    let pair = TokenPair { a: PoolAsset::Ada, b: min_token() };
    assert_eq!(None, build_key_value_pair(&pair, &None, None, Some(20), None, None));
    assert_eq!(None, build_key_value_pair(&pair, &None, Some(10), None, None, None));
    assert_eq!(None, serialize_value(&None, None, Some(1), None, None));
    assert_eq!(None, serialize_value(&None, Some(1), None, None, None));
}

#[test]
fn value_holds_only_what_is_given() {
    assert_eq!(
        Some(String::from("{\"token_a\":\"0\",\"token_b\":\"18446744073709551615\"}")),
        serialize_value(&None, Some(0), Some(u64::MAX), None, None)
    );
    assert_eq!(
        Some(String::from("{\"pool_id\":\"ff\",\"token_a\":\"1\",\"token_b\":\"2\"}")),
        serialize_value(&None, Some(1), Some(2), None, Some(String::from("ff")))
    );
    assert_eq!(
        Some(String::from("{\"fee\":0.003,\"token_a\":\"1\",\"token_b\":\"2\"}")),
        serialize_value(&None, Some(1), Some(2), fee_text(3.0 / 1000.0), None)
    );
}

#[test]
fn written_value_takes_the_fee_as_it_stands() {
    assert_eq!(
        "{\"fee\":0.25,\"token_a\":\"1\",\"token_b\":\"2\"}",
        write_value(&None, 1, 2, &Some(String::from("0.25")), &None)
    );
    assert_eq!(
        "{\"dex\":\"\",\"pool_id\":\"\",\"token_a\":\"0\",\"token_b\":\"0\"}",
        write_value(&Some(String::new()), 0, 0, &None, &Some(String::new()))
    );
}

#[test]
fn value_escapes_control_characters() {
    assert_eq!(
        Some(String::from("{\"dex\":\"\\u0001\\b\\t\\f\\r\\u001f\u{7f}\u{e9}/\",\"token_a\":\"1\",\"token_b\":\"2\"}")),
        serialize_value(
            &Some(String::from("\u{1}\u{8}\t\u{c}\r\u{1f}\u{7f}\u{e9}/")),
            Some(1),
            Some(2),
            None,
            None
        )
    );
}

#[test]
fn value_escapes_its_strings() {
    assert_eq!(
        Some(String::from("{\"dex\":\"a\\\"b\\\\c\\n\",\"token_a\":\"1\",\"token_b\":\"2\"}")),
        serialize_value(&Some(String::from("a\"b\\c\n")), Some(1), Some(2), None, None)
    );
}

#[test]
fn value_leaves_out_a_fee_that_is_no_number() {
    let plain = Some(String::from("{\"token_a\":\"1\",\"token_b\":\"2\"}"));
    assert_eq!(plain, serialize_value(&None, Some(1), Some(2), fee_text(f64::NAN), None));
    assert_eq!(plain, serialize_value(&None, Some(1), Some(2), fee_text(1.0 / 0.0), None));
    assert_eq!(plain, serialize_value(&None, Some(1), Some(2), Some(String::from("NaN")), None));
    assert_eq!(plain, serialize_value(&None, Some(1), Some(2), Some(String::from("1,\"x\":2")), None));
    assert_eq!(plain, serialize_value(&None, Some(1), Some(2), Some(String::new()), None));
}

#[test]
fn value_matches_the_json_object() {
    let text = serialize_value(
        &Some(String::from("min")),
        Some(10),
        Some(20),
        fee_text(0.005),
        Some(String::from("08")),
    )
    .unwrap();
    let parsed: serde_json::Value = serde_json::from_str(&text).unwrap();
    let object = parsed.as_object().unwrap();
    assert_eq!(5, object.len());
    assert_eq!(Some("min"), object["dex"].as_str());
    assert_eq!(Some(0.005), object["fee"].as_f64());
    assert_eq!(Some("08"), object["pool_id"].as_str());
    assert_eq!(Some("10"), object["token_a"].as_str());
    assert_eq!(Some("20"), object["token_b"].as_str());
    assert_eq!(text, parsed.to_string());
}

#[test]
fn pool_asset_from_reads_hexadecimal_of_either_case() {
    assert_eq!(Some(PoolAsset::Ada), pool_asset_from(&String::new(), &String::new()));
    let lower = pool_asset_from(&String::from(MIN_POLICY), &String::from("4d494e")).unwrap();
    let upper =
        pool_asset_from(&MIN_POLICY.to_uppercase(), &String::from("4D494E")).unwrap();
    assert_eq!(lower, upper);
    assert_eq!(
        PoolAsset::AssetClass(hex::decode(MIN_POLICY).unwrap(), b"MIN".to_vec()),
        lower
    );
    assert_eq!(MIN_ID, lower.to_string());
    assert_eq!("", PoolAsset::Ada.to_string());
}

#[test]
fn pool_asset_from_refuses_what_is_no_token() {
    assert_eq!(None, pool_asset_from(&String::from(MIN_POLICY), &String::from("4d494")));
    assert_eq!(None, pool_asset_from(&String::from(MIN_POLICY), &String::from("zz")));
    assert_eq!(None, pool_asset_from(&String::from("29d2"), &String::from("4d494e")));
    assert_eq!(None, pool_asset_from(&String::new(), &String::from("4d494e")));
    assert_eq!(None, pool_asset_from(&format!("{}00", MIN_POLICY), &String::new()));
    assert!(pool_asset_from(&String::from(MIN_POLICY), &String::new()).is_some());
    assert_eq!(None, pool_asset_from(&"\u{e9}".repeat(28), &String::new()));
    assert_eq!(None, pool_asset_from(&String::from(MIN_POLICY), &String::from("\u{e9}")));
    assert_eq!(None, pool_asset_from(&String::from(MIN_POLICY), &String::from("4d 4e")));
}

#[test]
fn token_is_read_back_from_its_text() {
    let token = PoolAsset::AssetClass((0u8..28).map(|i| i * 9).collect(), vec![0, 255, 16, 1]);
    let text = token.to_string();
    let (policy, name) = text.split_once('.').unwrap();
    assert_eq!(Some(token), pool_asset_from(&policy.to_string(), &name.to_string()));
}

#[test]
fn currency_symbol_has_28_bytes() {
    assert_eq!(Some(vec![9u8; 28]), currency_symbol_from(&vec![9u8; 28]));
    assert_eq!(None, currency_symbol_from(&vec![9u8; 27]));
    assert_eq!(None, currency_symbol_from(&vec![9u8; 29]));
    assert_eq!(None, currency_symbol_from(&Vec::new()));
}

#[test]
fn asset_is_read_from_a_record_of_two_byte_strings() {
    assert_eq!(Ok(PoolAsset::Ada), PoolAsset::try_from(&record(vec![bytes(&[]), bytes(&[])])));
    assert_eq!(
        Ok(PoolAsset::AssetClass(vec![7u8; 28], Vec::new())),
        PoolAsset::try_from(&record(vec![bytes(&[7u8; 28]), bytes(&[])]))
    );
    assert_eq!(Err(()), PoolAsset::try_from(&record(vec![bytes(&[]), bytes(b"x")])));
    assert_eq!(Err(()), PoolAsset::try_from(&record(vec![bytes(&[7u8; 27]), bytes(b"x")])));
    assert_eq!(Err(()), PoolAsset::try_from(&record(vec![bytes(&[])])));
    assert_eq!(Err(()), PoolAsset::try_from(&record(vec![small(1), bytes(&[])])));
    assert_eq!(Err(()), PoolAsset::try_from(&bytes(&[])));
    assert_eq!(Err(()), PoolAsset::try_from(&PlutusData::Array(vec![bytes(&[]), bytes(&[])])));
}

#[test]
fn pair_without_a_field_is_not_read() {
    let ada = || record(vec![bytes(&[]), bytes(&[])]);
    let min = || record(vec![bytes(&[7u8; 28]), bytes(b"MIN")]);
    let whole = record(vec![ada(), min()]);
    let pair = TokenPair::try_from(&whole).unwrap();
    assert_eq!(PoolAsset::Ada, pair.a);
    assert_eq!(PoolAsset::AssetClass(vec![7u8; 28], b"MIN".to_vec()), pair.b);
    assert!(TokenPair::try_from(&record(vec![ada()])).is_err());
    assert!(TokenPair::try_from(&record(vec![min()])).is_err());
    assert!(TokenPair::try_from(&record(vec![ada(), record(vec![bytes(&[7u8; 28])])])).is_err());
    assert!(MinSwapPoolDatum::try_from(&record(vec![ada()])).is_err());
    assert!(WingriderPoolDatum::try_from(&record(vec![ada()])).is_err());
    assert!(MuesliSwapPoolDatum::try_from(&record(vec![ada()])).is_err());
    assert!(LiquidityPoolDatum::try_from(&record(vec![ada()])).is_err());
}

#[test]
fn sundae_datum_needs_pair_identifier_and_fee() {
    let pool = SundaePoolDatum::try_from(&sundae_record(small(5), small(1000))).unwrap();
    assert_eq!(PoolAsset::Ada, pool.a);
    assert_eq!(PoolAsset::AssetClass(vec![7u8; 28], b"SUN".to_vec()), pool.b);
    assert_eq!(Fee { numerator: 5, denominator: 1000 }, pool.fee);
    assert_eq!("08", pool.pool_id);

    let limits = SundaePoolDatum::try_from(&sundae_record(small(-2147483648), small(2147483647)));
    assert_eq!(Fee { numerator: i32::MIN, denominator: i32::MAX }, limits.unwrap().fee);
    assert!(SundaePoolDatum::try_from(&sundae_record(small(2147483648), small(1))).is_err());
    assert!(SundaePoolDatum::try_from(&sundae_record(small(1), small(-2147483649))).is_err());
    assert!(SundaePoolDatum::try_from(&sundae_record(bytes(&[1]), small(1))).is_err());
    let big = PlutusData::BigInt(BigInt::BigUInt(vec![1]));
    assert!(SundaePoolDatum::try_from(&sundae_record(small(1), big)).is_err());

    if let PlutusData::Constr(mut whole) = sundae_record(small(5), small(1000)) {
        whole.fields.pop();
        assert!(SundaePoolDatum::try_from(&PlutusData::Constr(whole)).is_err());
    } else {
        panic!("a record was built");
    }
    let pair = record(vec![
        record(vec![bytes(&[]), bytes(&[])]),
        record(vec![bytes(&[7u8; 28]), bytes(b"SUN")]),
    ]);
    let no_numbers = record(vec![pair, bytes(&[8]), small(1), record(vec![small(5)])]);
    assert!(SundaePoolDatum::try_from(&no_numbers).is_err());
}

#[test]
fn datum_is_read_by_one_layout_only() {
    let pair_datum = datum(ADA_MIN_DATUM);
    assert!(MinSwapPoolDatum::try_from(&pair_datum).is_ok());
    assert!(SundaePoolDatum::try_from(&pair_datum).is_err());
    assert!(matches!(LiquidityPoolDatum::try_from(&pair_datum), Ok(LiquidityPoolDatum::Minswap(_))));

    let sundae_datum = datum(ADA_SUN_DATUM);
    assert!(SundaePoolDatum::try_from(&sundae_datum).is_ok());
    assert!(MinSwapPoolDatum::try_from(&sundae_datum).is_err());
    assert!(WingriderPoolDatum::try_from(&sundae_datum).is_err());
    assert!(MuesliSwapPoolDatum::try_from(&sundae_datum).is_err());
    assert!(matches!(
        LiquidityPoolDatum::try_from(&sundae_datum),
        Ok(LiquidityPoolDatum::Sundaeswap(_))
    ));
    assert!(LiquidityPoolDatum::try_from(&small(1)).is_err());
}

#[test]
fn marker_of_the_native_currency_is_empty() {
    let assets = vec![Asset::Ada(5), token(CURRENCY_SYMBOL_1, "Tkn1")];
    assert!(contains_currency_symbol(&String::new(), &assets));
    assert!(contains_currency_symbol(&CURRENCY_SYMBOL_1.to_string(), &assets));
    assert!(!contains_currency_symbol(&CURRENCY_SYMBOL_1.to_uppercase(), &assets));
    assert!(!contains_currency_symbol(&CURRENCY_SYMBOL_2.to_string(), &assets));
    assert!(!contains_currency_symbol(&String::new(), &Vec::new()));
}

#[test]
fn amount_is_that_of_the_first_entry() {
    let policy = hex::decode(CURRENCY_SYMBOL_1).unwrap();
    let assets = vec![
        Asset::Ada(11),
        Asset::NativeAsset(policy.clone(), b"Tkn1".to_vec(), 1),
        Asset::Ada(12),
        Asset::NativeAsset(policy.clone(), b"Tkn1".to_vec(), 4),
    ];
    assert_eq!(Some(11), get_asset_amount(&PoolAsset::Ada, &assets));
    let first = PoolAsset::AssetClass(policy.clone(), b"Tkn1".to_vec());
    assert_eq!(Some(1), get_asset_amount(&first, &assets));
    let other = PoolAsset::AssetClass(policy, b"Tkn".to_vec());
    assert_eq!(None, get_asset_amount(&other, &assets));
    assert_eq!(None, get_asset_amount(&first, &Vec::new()));
}

fn output(datum: Option<DatumOption>, tokens: Vec<Asset>) -> Output {
    Output { lovelace: 1000, non_ada_assets: tokens, datum, fee_text: None }
}

#[test]
fn datum_is_found_inline_or_among_the_witnesses() {
    let tx = Tx {
        consumed: Vec::new(),
        produced: Vec::new(),
        plutus_data: vec![
            WitnessDatum { hash: vec![1u8; 32], data: small(1) },
            WitnessDatum { hash: vec![2u8; 32], data: small(2) },
            WitnessDatum { hash: vec![2u8; 32], data: small(3) },
        ],
    };
    let inline = output(Some(DatumOption::Data(small(9))), Vec::new());
    assert_eq!(Ok(&small(9)), resolve_datum(&inline, &tx));
    let by_hash = output(Some(DatumOption::Hash(vec![2u8; 32])), Vec::new());
    assert_eq!(Ok(&small(2)), resolve_datum(&by_hash, &tx));
    let unknown = output(Some(DatumOption::Hash(vec![3u8; 32])), Vec::new());
    assert_eq!(Err(()), resolve_datum(&unknown, &tx));
    assert_eq!(Err(()), resolve_datum(&output(None, Vec::new()), &tx));
}

fn pool_output(datum_hex: &str, min_quantity: u64) -> Output {
    let marker = token(CURRENCY_SYMBOL_1, "pool");
    let min = Asset::NativeAsset(hex::decode(MIN_POLICY).unwrap(), b"MIN".to_vec(), min_quantity);
    output(Some(DatumOption::Data(datum(datum_hex))), vec![marker, min])
}

fn reducer() -> liquidity_by_token_pair::Reducer {
    let config = Config {
        pool_prefix: Some(String::from("pools")),
        dex_prefix: Some(String::from("min")),
        pool_currency_symbol: String::from(CURRENCY_SYMBOL_1),
    };
    config.plugin(&RuntimePolicy { tolerate_missing: true })
}

#[test]
fn output_with_marker_datum_and_reserves_is_a_pool() {
    let reducer = reducer();
    assert_eq!(true, reducer.policy().tolerate_missing);
    assert_eq!(CURRENCY_SYMBOL_1, reducer.config().pool_currency_symbol);
    let tx = Tx { consumed: Vec::new(), produced: Vec::new(), plutus_data: Vec::new() };
    let pool = pool_output(ADA_MIN_DATUM, 77);
    assert_eq!(
        Ok((
            String::from("_._:_29d222ce763455e3d7a09a665ce554f00ac89d2e99a1a83d267170c6.4d494e_"),
            String::from("{\"dex\":\"min\",\"token_a\":\"1000\",\"token_b\":\"77\"}")
        )),
        reducer.get_key_value_pair(&tx, &pool)
    );
    assert_eq!(None, reducer.pool_fee(&tx, &pool));

    let mut unmarked = pool_output(ADA_MIN_DATUM, 77);
    unmarked.non_ada_assets.remove(0);
    assert_eq!(Err(()), reducer.get_key_value_pair(&tx, &unmarked));

    let mut without_reserve = pool_output(ADA_MIN_DATUM, 77);
    without_reserve.non_ada_assets.pop();
    assert_eq!(Err(()), reducer.get_key_value_pair(&tx, &without_reserve));

    let mut without_datum = pool_output(ADA_MIN_DATUM, 77);
    without_datum.datum = None;
    assert_eq!(Err(()), reducer.get_key_value_pair(&tx, &without_datum));

    let mut other_datum = pool_output(ADA_MIN_DATUM, 77);
    other_datum.datum = Some(DatumOption::Data(small(1)));
    assert_eq!(Err(()), reducer.get_key_value_pair(&tx, &other_datum));
}

#[test]
fn sundae_pool_carries_fee_and_identifier() {
    let reducer = reducer();
    let tx = Tx { consumed: Vec::new(), produced: Vec::new(), plutus_data: Vec::new() };
    let marker = token(CURRENCY_SYMBOL_1, "pool");
    let sun = Asset::NativeAsset(
        hex::decode("9a9693a9a37912a5097918f97918d15240c92ab729a0b7c4aa144d77").unwrap(),
        b"SUNDAE".to_vec(),
        5,
    );
    let mut pool = output(Some(DatumOption::Data(datum(ADA_SUN_DATUM))), vec![marker, sun]);
    let fee = reducer.pool_fee(&tx, &pool).unwrap();
    assert_eq!(Fee { numerator: 3, denominator: 1000 }, fee);
    pool.fee_text = fee_text((fee.numerator as f64) / (fee.denominator as f64));
    assert_eq!(
        Ok((
            String::from("_._:_9a9693a9a37912a5097918f97918d15240c92ab729a0b7c4aa144d77.53554e444145_"),
            String::from("{\"dex\":\"min\",\"fee\":0.003,\"pool_id\":\"08\",\"token_a\":\"1000\",\"token_b\":\"5\"}")
        )),
        reducer.get_key_value_pair(&tx, &pool)
    );
}

#[test]
fn fee_without_quotient_is_left_out() {
    let reducer = reducer();
    let tx = Tx { consumed: Vec::new(), produced: Vec::new(), plutus_data: Vec::new() };
    let marker = token(CURRENCY_SYMBOL_1, "pool");
    let sun = Asset::NativeAsset(vec![7u8; 28], b"SUN".to_vec(), 5);
    let data = sundae_record(small(3), small(0));
    let mut pool = output(Some(DatumOption::Data(data)), vec![marker, sun]);
    assert_eq!(None, reducer.pool_fee(&tx, &pool));
    assert_eq!(false, Fee { numerator: 3, denominator: 0 }.is_finite());
    assert_eq!(true, Fee { numerator: 0, denominator: -1 }.is_finite());
    assert_eq!(None, fee_text(3.0 / 0.0));
    pool.fee_text = Some(String::from("1.5"));
    let entry = reducer.get_key_value_pair(&tx, &pool).unwrap();
    assert_eq!(
        "{\"dex\":\"min\",\"pool_id\":\"08\",\"token_a\":\"1000\",\"token_b\":\"5\"}",
        entry.1
    );
}

#[test]
fn witness_datum_makes_a_pool() {
    let reducer = reducer();
    let mut pool = pool_output(ADA_MIN_DATUM, 9);
    pool.datum = Some(DatumOption::Hash(vec![4u8; 32]));
    let with_witness = Tx {
        consumed: Vec::new(),
        produced: Vec::new(),
        plutus_data: vec![WitnessDatum { hash: vec![4u8; 32], data: datum(ADA_MIN_DATUM) }],
    };
    assert!(reducer.get_key_value_pair(&with_witness, &pool).is_ok());
    let without = Tx { consumed: Vec::new(), produced: Vec::new(), plutus_data: Vec::new() };
    assert_eq!(Err(()), reducer.get_key_value_pair(&without, &pool));
}

#[test]
fn block_gives_removals_then_additions() {
    let reducer = reducer();
    let key = "_._:_29d222ce763455e3d7a09a665ce554f00ac89d2e99a1a83d267170c6.4d494e_";
    let first = Tx {
        consumed: vec![None, Some(pool_output(ADA_MIN_DATUM, 1)), Some(output(None, Vec::new()))],
        produced: vec![output(None, Vec::new()), pool_output(ADA_MIN_DATUM, 2)],
        plutus_data: Vec::new(),
    };
    let second = Tx {
        consumed: vec![Some(pool_output(ADA_MIN_DATUM, 2))],
        produced: vec![pool_output(ADA_MIN_DATUM, 3)],
        plutus_data: Vec::new(),
    };
    let value = |n: u64| format!("{{\"dex\":\"min\",\"token_a\":\"1000\",\"token_b\":\"{}\"}}", n);
    let prefix = Some(String::from("pools"));
    let expected = vec![
        CRDTCommand::SetRemove { prefix: prefix.clone(), key: key.to_string(), member: value(1) },
        CRDTCommand::SetAdd { prefix: prefix.clone(), key: key.to_string(), member: value(2) },
        CRDTCommand::SetRemove { prefix: prefix.clone(), key: key.to_string(), member: value(2) },
        CRDTCommand::SetAdd { prefix: prefix.clone(), key: key.to_string(), member: value(3) },
    ];
    assert_eq!(expected, reducer.reduce_block(&Block { txs: vec![first, second] }));
    assert_eq!(Vec::<CRDTCommand>::new(), reducer.reduce_block(&Block { txs: Vec::new() }));
}

#[test]
fn commands_carry_prefix_key_and_member() {
    assert_eq!(
        CRDTCommand::SetAdd { prefix: None, key: String::from("k"), member: String::from("v") },
        CRDTCommand::set_add(&None, "k", String::from("v"))
    );
    assert_eq!(
        CRDTCommand::SetRemove {
            prefix: Some(String::from("p")),
            key: String::from("k"),
            member: String::from("v")
        },
        CRDTCommand::set_remove(&Some(String::from("p")), "k", String::from("v"))
    );
}

#[test]
fn asset_class_is_described_in_hexadecimal() {
    let token = AssetClass::new(vec![0xab; 28], b"MIN".to_vec());
    assert_eq!(
        format!("AssetClass {{ policy: '{}', name: '4d494e' }}", "ab".repeat(28)),
        token.to_string()
    );
    assert!(token == AssetClass::new(vec![0xab; 28], b"MIN".to_vec()));
    assert!(token != AssetClass::new(vec![0xab; 28], b"MIM".to_vec()));
    assert!(token != AssetClass::new(vec![0xac; 28], b"MIN".to_vec()));
}
