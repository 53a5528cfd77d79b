//! Liquidity-pool reserves by token pair: decoding of pool datums, canonical
//! pair keys and the set commands that track the reserves of each pool.

use vstd::prelude::*;
use crate::ledger::{all_assets, Asset, Block, Output, Tx};
use crate::model::{pool_datum_of, text_of, AssetId, DatumId, LiquidityPoolDatum, TokenPair};
use crate::sundaeswap::Fee;
use crate::utils::{
    amount_from, build_key_value_pair, contains_currency_symbol, datum_of, get_asset_amount,
    has_currency_symbol, key_value_of, resolve_datum,
};

pub mod encoding;
pub mod ledger;
pub mod minswap;
pub mod model;
pub mod muesliswap;
pub mod plutus;
pub mod sundaeswap;
pub mod text;
pub mod utils;
pub mod wingriders;

verus! {

/// What the reducer is set up with.
pub struct Config {
    /// The namespace of the keys, if any.
    pub pool_prefix: Option<String>,
    /// The label of the exchange that each value carries, if any.
    pub dex_prefix: Option<String>,
    /// The policy, in lower-case hexadecimal, of the token that marks an
    /// output as a pool.
    pub pool_currency_symbol: String,
}

/// How the host treats a consumed output that it cannot find.
#[derive(Clone, Copy, PartialEq, Eq, Debug)]
pub struct RuntimePolicy {
    pub tolerate_missing: bool,
}

/// A command on a set of the store: add a member to the set of a key, or
/// remove it.
#[derive(Clone, PartialEq, Eq, Debug)]
pub enum CRDTCommand {
    SetAdd { prefix: Option<String>, key: String, member: String },
    SetRemove { prefix: Option<String>, key: String, member: String },
}

/// What a command is, as a mathematical value.
pub enum CommandId {
    Add { prefix: Option<Seq<char>>, key: Seq<char>, member: Seq<char> },
    Remove { prefix: Option<Seq<char>>, key: Seq<char>, member: Seq<char> },
}

impl View for CRDTCommand {
    type V = CommandId;

    open spec fn view(&self) -> CommandId {
        match *self {
            CRDTCommand::SetAdd { prefix, key, member } => CommandId::Add {
                prefix: text_of(prefix),
                key: key@,
                member: member@,
            },
            CRDTCommand::SetRemove { prefix, key, member } => CommandId::Remove {
                prefix: text_of(prefix),
                key: key@,
                member: member@,
            },
        }
    }
}

/// A copy of an optional string.
fn copy_text(text: &Option<String>) -> (copy: Option<String>)
    ensures
        text_of(copy) == text_of(*text),
{
    match text {
        Some(s) => Some(s.clone()),
        None => None,
    }
}

impl CRDTCommand {
    /// The command that adds `member` to the set of `key`.
    pub fn set_add(prefix: &Option<String>, key: &str, member: String) -> (command: CRDTCommand)
        ensures
            command@ == (CommandId::Add { prefix: text_of(*prefix), key: key@, member: member@ }),
    {
        CRDTCommand::SetAdd { prefix: copy_text(prefix), key: String::from_str(key), member }
    }

    /// The command that removes `member` from the set of `key`.
    pub fn set_remove(prefix: &Option<String>, key: &str, member: String) -> (command:
        CRDTCommand)
        ensures
            command@ == (CommandId::Remove {
                prefix: text_of(*prefix),
                key: key@,
                member: member@,
            }),
    {
        CRDTCommand::SetRemove { prefix: copy_text(prefix), key: String::from_str(key), member }
    }
}

/// The values of a sequence of commands.
pub open spec fn commands_of(commands: Seq<CRDTCommand>) -> Seq<CommandId> {
    commands.map_values(|c: CRDTCommand| c@)
}

/// The entry of a pool with the given datum in an output with the given
/// assets: fee and pool identifier belong to a SundaeSwap pool alone, and
/// the fee only where its fraction has a quotient.
pub open spec fn datum_entry(
    datum: DatumId,
    dex: Option<Seq<char>>,
    assets: Seq<Asset>,
    fee_text: Option<Seq<char>>,
) -> Option<(Seq<char>, Seq<char>)> {
    match datum {
        DatumId::Minswap(a, b) => pair_entry(a, b, dex, assets),
        DatumId::Wingriders(a, b) => pair_entry(a, b, dex, assets),
        DatumId::MuesliSwapPoolDatum(a, b) => pair_entry(a, b, dex, assets),
        DatumId::Sundaeswap(pool) => key_value_of(
            (pool.a, pool.b),
            dex,
            amount_from(pool.a, assets, 0),
            amount_from(pool.b, assets, 0),
            if pool.fee.has_quotient() {
                fee_text
            } else {
                None
            },
            Some(pool.pool_id),
        ),
    }
}

/// The entry of a pool of which only the pair is known.
pub open spec fn pair_entry(a: AssetId, b: AssetId, dex: Option<Seq<char>>, assets: Seq<Asset>)
    -> Option<(Seq<char>, Seq<char>)> {
    key_value_of((a, b), dex, amount_from(a, assets, 0), amount_from(b, assets, 0), None, None)
}

/// The entry of an output, if it is a pool: it holds the marker token, its
/// datum is found and read as a pool datum, it holds both assets of the
/// pair, and the pair has a key.
pub open spec fn entry_of(config: Config, tx: Tx, utxo: Output) -> Option<(Seq<char>, Seq<char>)> {
    if !has_currency_symbol(config.pool_currency_symbol@, utxo.non_ada_assets@) {
        None
    } else {
        match datum_of(utxo, tx) {
            Some(data) => match pool_datum_of(data) {
                Some(datum) => datum_entry(
                    datum,
                    text_of(config.dex_prefix),
                    all_assets(utxo),
                    text_of(utxo.fee_text),
                ),
                None => None,
            },
            None => None,
        }
    }
}

/// The fee that the datum of an output holds, if the output is marked as a
/// pool, its datum is read as that of a SundaeSwap pool and the fraction
/// has a quotient.
pub open spec fn fee_of_output(config: Config, tx: Tx, utxo: Output) -> Option<Fee> {
    if !has_currency_symbol(config.pool_currency_symbol@, utxo.non_ada_assets@) {
        None
    } else {
        match datum_of(utxo, tx) {
            Some(data) => match pool_datum_of(data) {
                Some(DatumId::Sundaeswap(pool)) => if pool.fee.has_quotient() {
                    Some(pool.fee)
                } else {
                    None
                },
                _ => None,
            },
            None => None,
        }
    }
}

/// `before`, then a removal for each of the first `upto` consumed outputs of
/// `tx` that was found and is a pool.
pub open spec fn with_removals(before: Seq<CommandId>, config: Config, tx: Tx, upto: int) -> Seq<
    CommandId,
>
    decreases upto,
{
    if upto <= 0 || upto > tx.consumed@.len() {
        before
    } else {
        let earlier = with_removals(before, config, tx, upto - 1);
        match tx.consumed@[upto - 1] {
            Some(utxo) => match entry_of(config, tx, utxo) {
                Some(entry) => earlier.push(
                    CommandId::Remove {
                        prefix: text_of(config.pool_prefix),
                        key: entry.0,
                        member: entry.1,
                    },
                ),
                None => earlier,
            },
            None => earlier,
        }
    }
}

/// `before`, then an addition for each of the first `upto` produced outputs
/// of `tx` that is a pool.
pub open spec fn with_additions(before: Seq<CommandId>, config: Config, tx: Tx, upto: int) -> Seq<
    CommandId,
>
    decreases upto,
{
    if upto <= 0 || upto > tx.produced@.len() {
        before
    } else {
        let earlier = with_additions(before, config, tx, upto - 1);
        match entry_of(config, tx, tx.produced@[upto - 1]) {
            Some(entry) => earlier.push(
                CommandId::Add {
                    prefix: text_of(config.pool_prefix),
                    key: entry.0,
                    member: entry.1,
                },
            ),
            None => earlier,
        }
    }
}

/// The commands of the first `upto` transactions: for each in turn, the
/// removals for what it consumes, then the additions for what it produces.
pub open spec fn block_commands(config: Config, txs: Seq<Tx>, upto: int) -> Seq<CommandId>
    decreases upto,
{
    if upto <= 0 || upto > txs.len() {
        Seq::empty()
    } else {
        let tx = txs[upto - 1];
        with_additions(
            with_removals(
                block_commands(config, txs, upto - 1),
                config,
                tx,
                tx.consumed@.len() as int,
            ),
            config,
            tx,
            tx.produced@.len() as int,
        )
    }
}

/// Two bundles with the same entries hold the same quantity of an asset.
proof fn lemma_amount_of_same_entries(asset: AssetId, xs: Seq<Asset>, ys: Seq<Asset>, from: int)
    requires
        xs.len() == ys.len(),
        forall|i: int| 0 <= i < xs.len() ==> (#[trigger] xs[i]).same_as(ys[i]),
    ensures
        amount_from(asset, xs, from) == amount_from(asset, ys, from),
    decreases xs.len() - from,
{
    if 0 <= from < xs.len() {
        assert(xs[from].same_as(ys[from]));
        lemma_amount_of_same_entries(asset, xs, ys, from + 1);
    }
}

/// Tracks the reserves of liquidity pools, by token pair.
pub struct Reducer {
    config: Config,
    policy: RuntimePolicy,
}

impl Reducer {
    /// What the reducer was set up with.
    pub closed spec fn settings(&self) -> Config {
        self.config
    }

    /// The policy that the reducer was given.
    pub closed spec fn given_policy(&self) -> RuntimePolicy {
        self.policy
    }

    /// What the reducer was set up with.
    pub fn config(&self) -> (config: &Config)
        ensures
            *config == self.settings(),
    {
        &self.config
    }

    /// The policy by which the host treats consumed outputs that it cannot find.
    pub fn policy(&self) -> (policy: RuntimePolicy)
        ensures
            policy == self.given_policy(),
    {
        self.policy
    }

    /// The fee in the datum of an output that is marked as a pool of
    /// SundaeSwap: what the host writes as a number into `fee_text`.
    pub fn pool_fee(&self, tx: &Tx, utxo: &Output) -> (fee: Option<Fee>)
        ensures
            fee == fee_of_output(self.settings(), *tx, *utxo),
    {
        if !contains_currency_symbol(&self.config.pool_currency_symbol, &utxo.non_ada_assets) {
            return None;
        }
        let data = match resolve_datum(utxo, tx) {
            Ok(data) => data,
            Err(_) => { return None; },
        };
        match LiquidityPoolDatum::try_from(data) {
            Ok(LiquidityPoolDatum::Sundaeswap(pool)) => if pool.fee.is_finite() {
                Some(pool.fee)
            } else {
                None
            },
            _ => None,
        }
    }

    /// The key and value of an output of `tx`, if the output is a pool.
    pub fn get_key_value_pair(&self, tx: &Tx, utxo: &Output) -> (entry: Result<(String, String), ()>)
        ensures
            match entry {
                Ok((key, value)) => entry_of(self.settings(), *tx, *utxo) == Some((key@, value@)),
                Err(_) => entry_of(self.settings(), *tx, *utxo) is None,
            },
    {
        if !contains_currency_symbol(&self.config.pool_currency_symbol, &utxo.non_ada_assets) {
            return Err(());
        }
        let data = match resolve_datum(utxo, tx) {
            Ok(data) => data,
            Err(_) => { return Err(()); },
        };
        let pool_datum = match LiquidityPoolDatum::try_from(data) {
            Ok(datum) => datum,
            Err(_) => { return Err(()); },
        };
        let assets = utxo.assets();
        let (pair, fee, pool_id) = match pool_datum {
            LiquidityPoolDatum::Minswap(pool) => (TokenPair { a: pool.a, b: pool.b }, None, None),
            LiquidityPoolDatum::Wingriders(pool) => (
                TokenPair { a: pool.a, b: pool.b },
                None,
                None,
            ),
            LiquidityPoolDatum::MuesliSwapPoolDatum(pool) => (
                TokenPair { a: pool.a, b: pool.b },
                None,
                None,
            ),
            LiquidityPoolDatum::Sundaeswap(pool) => (
                TokenPair { a: pool.a, b: pool.b },
                if pool.fee.is_finite() {
                    copy_text(&utxo.fee_text)
                } else {
                    None
                },
                Some(pool.pool_id),
            ),
        };
        let a_amount_opt: Option<u64> = get_asset_amount(&pair.a, &assets);
        let b_amount_opt: Option<u64> = get_asset_amount(&pair.b, &assets);
        proof {
            lemma_amount_of_same_entries(pair.a@, assets@, all_assets(*utxo), 0);
            lemma_amount_of_same_entries(pair.b@, assets@, all_assets(*utxo), 0);
        }
        match build_key_value_pair(
            &pair,
            &self.config.dex_prefix,
            a_amount_opt,
            b_amount_opt,
            fee,
            pool_id,
        ) {
            Some(entry) => Ok(entry),
            None => Err(()),
        }
    }

    /// The commands of a block, in the order in which they are to be sent:
    /// transaction by transaction, a removal for each consumed output that
    /// was found and is a pool, then an addition for each produced output
    /// that is a pool.
    pub fn reduce_block(&self, block: &Block) -> (commands: Vec<CRDTCommand>)
        ensures
            commands_of(commands@) == block_commands(
                self.settings(),
                block.txs@,
                block.txs@.len() as int,
            ),
    {
        let mut commands: Vec<CRDTCommand> = Vec::new();
        assert(commands_of(commands@) =~= Seq::<CommandId>::empty());
        let mut t: usize = 0;
        while t < block.txs.len()
            invariant
                t <= block.txs.len(),
                commands_of(commands@) == block_commands(self.settings(), block.txs@, t as int),
            decreases block.txs.len() - t,
        {
            let tx = &block.txs[t];
            let ghost before = commands_of(commands@);
            let mut c: usize = 0;
            while c < tx.consumed.len()
                invariant
                    c <= tx.consumed.len(),
                    commands_of(commands@) == with_removals(before, self.settings(), *tx, c as int),
                decreases tx.consumed.len() - c,
            {
                if let Some(utxo) = &tx.consumed[c] {
                    if let Ok((key, value)) = self.get_key_value_pair(tx, utxo) {
                        let command = CRDTCommand::set_remove(
                            &self.config.pool_prefix,
                            key.as_str(),
                            value,
                        );
                        let ghost earlier = commands_of(commands@);
                        commands.push(command);
                        assert(commands_of(commands@) =~= earlier.push(command@));
                    }
                }
                c += 1;
            }
            let ghost removed = commands_of(commands@);
            let mut p: usize = 0;
            while p < tx.produced.len()
                invariant
                    p <= tx.produced.len(),
                    commands_of(commands@) == with_additions(
                        removed,
                        self.settings(),
                        *tx,
                        p as int,
                    ),
                decreases tx.produced.len() - p,
            {
                if let Ok((key, value)) = self.get_key_value_pair(tx, &tx.produced[p]) {
                    let command = CRDTCommand::set_add(
                        &self.config.pool_prefix,
                        key.as_str(),
                        value,
                    );
                    let ghost earlier = commands_of(commands@);
                    commands.push(command);
                    assert(commands_of(commands@) =~= earlier.push(command@));
                }
                p += 1;
            }
            t += 1;
        }
        commands
    }
}

impl Config {
    /// The reducer with these settings and the given policy.
    pub fn plugin(self, policy: &RuntimePolicy) -> (reducer: Reducer)
        ensures
            reducer.settings() == self,
            reducer.given_policy() == *policy,
    {
        Reducer { config: self, policy: *policy }
    }
}

} // verus!
