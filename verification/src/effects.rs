//! What an operation asks of the world outside once it has decided: transfers
//! of value and changes to assets. The library only describes them; whoever
//! runs the operation carries them out, all or none, under the round's own
//! signature.

use vstd::prelude::*;
use crate::accounts::{Address, TokenAccount};
use crate::utils::{Config, ConfigView, PluginAuthorityPair};

verus! {

/// Move `amount` from one custody account to another.
#[derive(Clone, Copy, Debug, PartialEq, Eq)]
pub struct Transfer {
    pub from: Address,
    pub to: Address,
    pub amount: u64,
}

impl Transfer {
    /// Whether the transfer can be carried out on `account`: it draws on that
    /// account, and for no more than is there.
    pub open spec fn spec_covered_by(self, account: TokenAccount) -> bool {
        self.from == account.key && self.amount <= account.amount
    }

    /// The account the transfer draws on, once it was carried out.
    pub open spec fn spec_debit(self, account: TokenAccount) -> TokenAccount {
        TokenAccount { amount: (account.amount - self.amount) as u64, ..account }
    }

    /// The account the transfer draws on, once it was carried out.
    pub fn debit(&self, account: &TokenAccount) -> (left: TokenAccount)
        requires
            self.spec_covered_by(*account),
        ensures
            left == self.spec_debit(*account),
    {
        TokenAccount { key: account.key, owner: account.owner, amount: account.amount - self.amount }
    }
}

/// Convert `amount_in` of the payer's wrapped payment into the settlement
/// asset and put what comes out, at least `minimum_out`, into `destination`.
#[derive(Clone, Copy, Debug, PartialEq, Eq)]
pub struct Swap {
    pub destination: Address,
    pub amount_in: u64,
    pub minimum_out: u64,
}

/// Issue a new asset in a collection.
#[derive(Clone, Debug, PartialEq, Eq)]
pub struct AssetCreation {
    pub asset: Address,
    pub collection: Address,
    /// Under whose authority over the collection the asset is issued.
    pub authority: Address,
    pub payer: Address,
    pub owner: Address,
    pub config: Config,
}

/// An asset creation as plain values.
pub struct AssetCreationView {
    pub asset: Address,
    pub collection: Address,
    pub authority: Address,
    pub payer: Address,
    pub owner: Address,
    pub config: ConfigView,
}

impl View for AssetCreation {
    type V = AssetCreationView;

    open spec fn view(&self) -> AssetCreationView {
        AssetCreationView {
            asset: self.asset,
            collection: self.collection,
            authority: self.authority,
            payer: self.payer,
            owner: self.owner,
            config: self.config@,
        }
    }
}

/// Give an existing asset a new label and set whether it is frozen. Its owner
/// stays who it was.
#[derive(Clone, Debug, PartialEq, Eq)]
pub struct AssetUpdate {
    pub asset: Address,
    pub collection: Address,
    pub authority: Address,
    pub payer: Address,
    pub name: String,
    pub uri: String,
    pub frozen: bool,
}

/// An asset update as plain values.
pub struct AssetUpdateView {
    pub asset: Address,
    pub collection: Address,
    pub authority: Address,
    pub payer: Address,
    pub name: Seq<char>,
    pub uri: Seq<char>,
    pub frozen: bool,
}

impl View for AssetUpdate {
    type V = AssetUpdateView;

    open spec fn view(&self) -> AssetUpdateView {
        AssetUpdateView {
            asset: self.asset,
            collection: self.collection,
            authority: self.authority,
            payer: self.payer,
            name: self.name@,
            uri: self.uri@,
            frozen: self.frozen,
        }
    }
}

/// Retire an asset for good, on its holder's word.
#[derive(Clone, Copy, Debug, PartialEq, Eq)]
pub struct AssetBurn {
    pub asset: Address,
    pub collection: Address,
    pub holder: Address,
}

/// Create the collection that the keys of a round will belong to.
#[derive(Clone, Debug, PartialEq, Eq)]
pub struct CollectionCreation {
    pub collection: Address,
    pub payer: Address,
    pub update_authority: Address,
    pub name: String,
    pub uri: String,
    pub plugins: Vec<PluginAuthorityPair>,
}

/// A collection creation as plain values.
pub struct CollectionCreationView {
    pub collection: Address,
    pub payer: Address,
    pub update_authority: Address,
    pub name: Seq<char>,
    pub uri: Seq<char>,
    pub plugins: Seq<PluginAuthorityPair>,
}

impl View for CollectionCreation {
    type V = CollectionCreationView;

    open spec fn view(&self) -> CollectionCreationView {
        CollectionCreationView {
            collection: self.collection,
            payer: self.payer,
            update_authority: self.update_authority,
            name: self.name@,
            uri: self.uri@,
            plugins: self.plugins@,
        }
    }
}

} // verus!
