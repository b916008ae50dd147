//! The parameters of the game, the price of a key, the split of a payment,
//! and the three asset configurations.

use vstd::prelude::*;
use crate::accounts::Address;
use crate::errors::FomoErrors;

verus! {

/// Share of a payment that goes to the main pool, in basis points.
pub const MAIN_FEE_BASIS_POINTS: u64 = 7000;

/// Share of a payment that goes to the pool of the key holders, in basis points.
pub const NFT_FEE_BASIS_POINTS: u64 = 2500;

/// Share of a payment that goes to the mint-fee vault, in basis points.
pub const MINT_FEE_BASIS_POINTS: u64 = 500;

/// The whole of an amount, in basis points.
pub const BASIS_POINTS: u64 = 10_000;

/// Length of the countdown that every mint re-arms.
pub const TIME_TO_CHANGE: u64 = 3 * 60 * 60;

/// The price step a new round starts with.
pub const INCREMENT_AMOUNT: u64 = 500_000;

/// The part of a key's price that does not depend on its index.
pub const BASE_PRICE: u64 = 10_000_000;

/// Royalties of the collection, in basis points.
pub const ROYALTY_BASIS_POINTS: u16 = 690;

/// The price of the key with the given index.
pub open spec fn spec_key_price(increment: u64, index: u64) -> int {
    BASE_PRICE + increment * index
}

/// The price of the key with the given index; `CalculationError` exactly when
/// it does not fit a `u64`.
pub fn key_price(increment: u64, index: u64) -> (price: Result<u64, FomoErrors>)
    ensures
        spec_key_price(increment, index) <= u64::MAX ==> price == Ok::<u64, FomoErrors>(
            spec_key_price(increment, index) as u64,
        ),
        spec_key_price(increment, index) > u64::MAX ==> price == Err::<u64, FomoErrors>(
            FomoErrors::CalculationError,
        ),
{
    match increment.checked_mul(index) {
        Some(steps) => match steps.checked_add(BASE_PRICE) {
            Some(price) => Ok(price),
            None => Err(FomoErrors::CalculationError),
        },
        None => Err(FomoErrors::CalculationError),
    }
}

/// The price never falls from one key to the next.
pub proof fn lemma_key_price_monotonic(increment: u64, earlier: u64, later: u64)
    requires
        earlier <= later,
    ensures
        spec_key_price(increment, earlier) <= spec_key_price(increment, later),
        BASE_PRICE <= spec_key_price(increment, earlier),
{
    assert(increment * earlier <= increment * later) by (nonlinear_arith)
        requires
            earlier <= later,
            0 <= increment,
    ;
    assert(0 <= increment * earlier) by (nonlinear_arith)
        requires
            0 <= increment,
            0 <= earlier,
    ;
}

/// The part of `gross` that `bps` basis points stand for, rounded down.
pub open spec fn spec_fee_share(gross: u64, bps: u64) -> int {
    (gross * bps) / (BASIS_POINTS as int)
}

/// The part of `gross` that `bps` basis points stand for, rounded down;
/// `CalculationError` exactly when `gross * bps` does not fit a `u64`.
pub fn fee_share(gross: u64, bps: u64) -> (share: Result<u64, FomoErrors>)
    ensures
        gross * bps <= u64::MAX ==> share == Ok::<u64, FomoErrors>(
            spec_fee_share(gross, bps) as u64,
        ),
        gross * bps > u64::MAX ==> share == Err::<u64, FomoErrors>(FomoErrors::CalculationError),
{
    match gross.checked_mul(bps) {
        Some(product) => Ok(product / BASIS_POINTS),
        None => Err(FomoErrors::CalculationError),
    }
}

/// One line of a fee table: so many basis points go to that account.
#[derive(Clone, Copy, Debug, PartialEq, Eq)]
pub struct FeeSplit {
    pub bps: u64,
    pub destination: Address,
}

/// Whether every line of the table can be computed on `gross` within a `u64`.
pub open spec fn spec_split_fits(gross: u64, table: Seq<FeeSplit>) -> bool {
    forall|i: int| 0 <= i < table.len() ==> gross * (#[trigger] table[i]).bps <= u64::MAX
}

/// The amounts that the lines of the table give on `gross`, in the table's order.
pub open spec fn spec_split(gross: u64, table: Seq<FeeSplit>) -> Seq<u64> {
    Seq::new(table.len(), |i: int| spec_fee_share(gross, table[i].bps) as u64)
}

/// Splits `gross` by the table: one amount per line, each rounded down on its
/// own. What the roundings and a table short of the whole leave over is not
/// handed out. `CalculationError` exactly when some line overflows.
pub fn split(gross: u64, table: &Vec<FeeSplit>) -> (amounts: Result<Vec<u64>, FomoErrors>)
    ensures
        spec_split_fits(gross, table@) ==> amounts is Ok && amounts->Ok_0@ == spec_split(
            gross,
            table@,
        ),
        !spec_split_fits(gross, table@) ==> amounts == Err::<Vec<u64>, FomoErrors>(
            FomoErrors::CalculationError,
        ),
{
    let mut amounts: Vec<u64> = Vec::new();
    let mut i: usize = 0;
    while i < table.len()
        invariant
            i <= table@.len(),
            amounts@.len() == i,
            forall|j: int| 0 <= j < i ==> gross * (#[trigger] table@[j]).bps <= u64::MAX,
            forall|j: int|
                0 <= j < i ==> (#[trigger] amounts@[j]) == spec_fee_share(gross, table@[j].bps),
        decreases table@.len() - i,
    {
        match fee_share(gross, table[i].bps) {
            Ok(amount) => {
                amounts.push(amount);
            },
            Err(e) => {
                assert(!(gross * table@[i as int].bps <= u64::MAX));
                return Err(FomoErrors::CalculationError);
            },
        }
        i += 1;
    }
    assert(amounts@ =~= spec_split(gross, table@));
    Ok(amounts)
}

/// A share is never more than the whole as long as the basis points are not.
pub proof fn lemma_fee_share_bounded(gross: u64, bps: u64)
    requires
        bps <= BASIS_POINTS,
    ensures
        0 <= spec_fee_share(gross, bps) <= gross,
{
    assert(0 <= gross * bps <= gross * 10_000) by (nonlinear_arith)
        requires
            0 <= bps <= 10_000,
            0 <= gross,
    ;
    assert((gross * bps) / 10_000 <= (gross * 10_000) / 10_000) by (nonlinear_arith)
        requires
            gross * bps <= gross * 10_000,
    ;
    assert((gross * 10_000) / 10_000 == gross) by (nonlinear_arith);
    assert(0 <= (gross * bps) / 10_000) by (nonlinear_arith)
        requires
            0 <= gross * bps,
    ;
}

/// The three shares of a mint payment never add up to more than the payment.
pub proof fn lemma_shares_within_gross(gross: u64)
    ensures
        spec_fee_share(gross, MAIN_FEE_BASIS_POINTS) + spec_fee_share(gross, NFT_FEE_BASIS_POINTS)
            + spec_fee_share(gross, MINT_FEE_BASIS_POINTS) <= gross,
{
    let g = gross as int;
    assert((g * 7000) / 10_000 + (g * 2500) / 10_000 + (g * 500) / 10_000 <= g)
        by (nonlinear_arith)
        requires
            0 <= g,
    ;
}

/// Who may change a plugin of an asset.
#[derive(Clone, Copy, Debug, PartialEq, Eq)]
pub enum PluginAuthority {
    /// The asset's owner.
    Owner,
    /// The asset's update authority.
    UpdateAuthority,
}

/// A plugin that an asset or a collection is issued with.
#[derive(Clone, Copy, Debug, PartialEq, Eq)]
pub enum Plugin {
    /// Royalties on resale, all of which go to one creator.
    Royalties { basis_points: u16, creator: Address, percentage: u8 },
    /// Whether the asset is frozen, that is, cannot be moved.
    FreezeDelegate { frozen: bool },
    /// A creator's signature on the asset.
    VerifiedCreators { address: Address, verified: bool },
}

/// A plugin together with who may change it.
#[derive(Clone, Copy, Debug, PartialEq, Eq)]
pub struct PluginAuthorityPair {
    pub plugin: Plugin,
    pub authority: Option<PluginAuthority>,
}

/// How an asset or a collection is issued: its label and its plugins.
#[derive(Clone, Debug, PartialEq, Eq)]
pub struct Config {
    pub name: String,
    pub uri: String,
    pub plugins: Vec<PluginAuthorityPair>,
}

/// A configuration as plain values.
pub struct ConfigView {
    pub name: Seq<char>,
    pub uri: Seq<char>,
    pub plugins: Seq<PluginAuthorityPair>,
}

impl View for Config {
    type V = ConfigView;

    open spec fn view(&self) -> ConfigView {
        ConfigView { name: self.name@, uri: self.uri@, plugins: self.plugins@ }
    }
}

/// The plugin that marks an asset as signed by the round.
pub open spec fn spec_round_signature(round_account: Address) -> PluginAuthorityPair {
    PluginAuthorityPair {
        plugin: Plugin::VerifiedCreators { address: round_account, verified: true },
        authority: Some(PluginAuthority::UpdateAuthority),
    }
}

/// The plugin that freezes or unfreezes an asset.
pub open spec fn spec_freeze(frozen: bool) -> PluginAuthorityPair {
    PluginAuthorityPair {
        plugin: Plugin::FreezeDelegate { frozen },
        authority: Some(PluginAuthority::UpdateAuthority),
    }
}

fn round_signature(round_account: Address) -> (pair: PluginAuthorityPair)
    ensures
        pair == spec_round_signature(round_account),
{
    PluginAuthorityPair {
        plugin: Plugin::VerifiedCreators { address: round_account, verified: true },
        authority: Some(PluginAuthority::UpdateAuthority),
    }
}

fn freeze(frozen: bool) -> (pair: PluginAuthorityPair)
    ensures
        pair == spec_freeze(frozen),
{
    PluginAuthorityPair {
        plugin: Plugin::FreezeDelegate { frozen },
        authority: Some(PluginAuthority::UpdateAuthority),
    }
}

impl Config {
    /// The collection of a round: unnamed here, with royalties that all go to
    /// the round.
    pub open spec fn spec_collection(round_account: Address) -> ConfigView {
        ConfigView {
            name: ""@,
            uri: ""@,
            plugins: seq![
                PluginAuthorityPair {
                    plugin: Plugin::Royalties {
                        basis_points: ROYALTY_BASIS_POINTS,
                        creator: round_account,
                        percentage: 100,
                    },
                    authority: Some(PluginAuthority::UpdateAuthority),
                },
            ],
        }
    }

    /// The current key of a round: frozen, and signed by the round.
    pub open spec fn spec_master(round_account: Address) -> ConfigView {
        ConfigView {
            name: "Master Key"@,
            uri: "https://purple-quickest-catshark-409.mypinata.cloud/ipfs/QmXEFnXdMLeSCtzEk8gaiEcDq18DncZ8aRduSNmDgUa2kr"@,
            plugins: seq![spec_freeze(true), spec_round_signature(round_account)],
        }
    }

    /// A superseded key of a round: free to move, and signed by the round.
    pub open spec fn spec_default(round_account: Address) -> ConfigView {
        ConfigView {
            name: "Collector Key"@,
            uri: "https://purple-quickest-catshark-409.mypinata.cloud/ipfs/QmQmaHT4SzGnRZHEf7YBRB37DCWmQvRaPgbkQmPhfKrT4i"@,
            plugins: seq![spec_freeze(false), spec_round_signature(round_account)],
        }
    }

    /// The configuration of a round's collection.
    pub fn get_collection(round_account: Address) -> (config: Config)
        ensures
            config@ == Config::spec_collection(round_account),
    {
        let mut plugins: Vec<PluginAuthorityPair> = Vec::new();
        plugins.push(
            PluginAuthorityPair {
                plugin: Plugin::Royalties {
                    basis_points: ROYALTY_BASIS_POINTS,
                    creator: round_account,
                    percentage: 100,
                },
                authority: Some(PluginAuthority::UpdateAuthority),
            },
        );
        let config = Config { name: "".to_owned(), uri: "".to_owned(), plugins };
        assert(config@.plugins =~= Config::spec_collection(round_account).plugins);
        config
    }

    /// The configuration of a round's current key.
    pub fn get_master(round_account: Address) -> (config: Config)
        ensures
            config@ == Config::spec_master(round_account),
    {
        let mut plugins: Vec<PluginAuthorityPair> = Vec::new();
        plugins.push(freeze(true));
        plugins.push(round_signature(round_account));
        let config = Config {
            name: "Master Key".to_owned(),
            uri: "https://purple-quickest-catshark-409.mypinata.cloud/ipfs/QmXEFnXdMLeSCtzEk8gaiEcDq18DncZ8aRduSNmDgUa2kr".to_owned(),
            plugins,
        };
        assert(config@.plugins =~= Config::spec_master(round_account).plugins);
        config
    }

    /// The configuration of a superseded key.
    pub fn get_default(round_account: Address) -> (config: Config)
        ensures
            config@ == Config::spec_default(round_account),
    {
        let mut plugins: Vec<PluginAuthorityPair> = Vec::new();
        plugins.push(freeze(false));
        plugins.push(round_signature(round_account));
        let config = Config {
            name: "Collector Key".to_owned(),
            uri: "https://purple-quickest-catshark-409.mypinata.cloud/ipfs/QmQmaHT4SzGnRZHEf7YBRB37DCWmQvRaPgbkQmPhfKrT4i".to_owned(),
            plugins,
        };
        assert(config@.plugins =~= Config::spec_default(round_account).plugins);
        config
    }
}

} // verus!
