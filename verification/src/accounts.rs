//! Plain-value pictures of the accounts an operation is handed.

use vstd::prelude::*;
use vstd::std_specs::cmp::PartialEqSpecImpl;

verus! {

/// A 32-byte account address.
#[derive(Clone, Copy, Debug, Eq)]
pub struct Address {
    pub bytes: [u8; 32],
}

impl PartialEq for Address {
    fn eq(&self, other: &Address) -> (same: bool) {
        let mut i: usize = 0;
        while i < 32
            invariant
                i <= 32,
                forall|j: int| 0 <= j < i ==> self.bytes[j] == other.bytes[j],
            decreases 32 - i,
        {
            if self.bytes[i] != other.bytes[i] {
                return false;
            }
            i += 1;
        }
        proof {
            assert(self.bytes@ =~= other.bytes@);
            assert(self.bytes == other.bytes);
        }
        true
    }
}

impl PartialEqSpecImpl for Address {
    open spec fn obeys_eq_spec() -> bool {
        true
    }

    open spec fn eq_spec(&self, other: &Address) -> bool {
        self.bytes == other.bytes
    }
}

impl Address {
    /// The all-zero address, which stands for "not set".
    pub open spec fn spec_zero() -> Address {
        Address { bytes: vstd::array::spec_array_fill_for_copy_type::<u8, 32>(0u8) }
    }

    /// The all-zero address.
    pub fn zero() -> (a: Address)
        ensures
            a == Address::spec_zero(),
    {
        Address { bytes: [0u8; 32] }
    }

    /// The 32 bytes of the address.
    pub fn to_vec(&self) -> (bytes: Vec<u8>)
        ensures
            bytes@ == self.bytes@,
    {
        let mut bytes: Vec<u8> = Vec::new();
        let mut i: usize = 0;
        while i < 32
            invariant
                i <= 32,
                bytes@.len() == i,
                forall|j: int| 0 <= j < i ==> bytes@[j] == self.bytes@[j],
            decreases 32 - i,
        {
            bytes.push(self.bytes[i]);
            i += 1;
        }
        assert(bytes@ =~= self.bytes@);
        bytes
    }
}

/// The seeds of a derivation as plain bytes.
pub open spec fn spec_seed_bytes(seeds: Seq<Vec<u8>>) -> Seq<Seq<u8>> {
    Seq::new(seeds.len(), |i: int| seeds[i]@)
}

/// The address that a program derives from the given seeds, or `None` where
/// the seeds derive none.
pub uninterp spec fn derived_address(seeds: Seq<Seq<u8>>, program: Address) -> Option<Address>;

/// Derives an address with `solana_program::pubkey::Pubkey::create_program_address`.
///
/// Trusted: the result is whatever that function makes of the seeds and the
/// program's address; nothing is claimed about which seeds derive an address.
#[verifier::external_body]
pub(crate) fn derive_address(seeds: &Vec<Vec<u8>>, program: &Address) -> (derived: Option<Address>)
    ensures
        derived == derived_address(spec_seed_bytes(seeds@), *program),
{
    let parts: Vec<&[u8]> = seeds.iter().map(|s| s.as_slice()).collect();
    let program = solana_program::pubkey::Pubkey::new_from_array(program.bytes);
    match solana_program::pubkey::Pubkey::create_program_address(&parts, &program) {
        Ok(key) => Some(Address { bytes: key.to_bytes() }),
        Err(_) => None,
    }
}

/// Whether `derived` is an address at all, and the one presented.
pub open spec fn spec_is_derived(derived: Option<Address>, presented: Address) -> bool {
    derived == Some(presented)
}

/// Whether `derived` is an address at all, and the one presented.
pub fn is_derived(derived: Option<Address>, presented: &Address) -> (same: bool)
    ensures
        same == spec_is_derived(derived, *presented),
{
    match derived {
        Some(address) => address == *presented,
        None => false,
    }
}

/// A custody account: where it lives, who may spend from it and how much it
/// holds.
#[derive(Clone, Copy, Debug, PartialEq, Eq)]
pub struct TokenAccount {
    pub key: Address,
    pub owner: Address,
    pub amount: u64,
}

impl TokenAccount {
    /// Whether this is the vault that a round records at `recorded`: the
    /// addresses agree, and the record is set at all.
    pub open spec fn spec_is_vault(&self, recorded: Address) -> bool {
        self.key == recorded && recorded != Address::spec_zero()
    }

    /// Whether this is the vault that a round records at `recorded`.
    pub fn is_vault(&self, recorded: &Address) -> (matches: bool)
        ensures
            matches == self.spec_is_vault(*recorded),
    {
        self.key == *recorded && !(*recorded == Address::zero())
    }
}

/// Who may change an asset, as the asset registry records it.
#[derive(Clone, Copy, Debug, PartialEq, Eq)]
pub enum UpdateAuthority {
    /// Nobody.
    Unset,
    /// A single address.
    Address(Address),
    /// Whoever controls the named collection.
    Collection(Address),
}

/// What the asset registry records of an asset, as far as the game reads it.
#[derive(Clone, Copy, Debug, PartialEq, Eq)]
pub struct AssetRecord {
    pub owner: Address,
    pub update_authority: UpdateAuthority,
}

/// One creator's signature on an asset.
#[derive(Clone, Copy, Debug, PartialEq, Eq)]
pub struct CreatorSignature {
    pub address: Address,
    pub verified: bool,
}

/// An asset account: its address, its raw record, and the creator signatures
/// that the registry lists for it.
#[derive(Clone, Debug, PartialEq, Eq)]
pub struct AssetAccount {
    pub key: Address,
    pub data: Vec<u8>,
    pub signatures: Vec<CreatorSignature>,
}

/// The record that the asset registry's own decoder reads from the bytes of an
/// asset account, or `None` where it rejects them.
pub uninterp spec fn asset_record(data: Seq<u8>) -> Option<AssetRecord>;

/// Decodes an asset account with `mpl_core::accounts::BaseAssetV1::from_bytes`
/// and keeps the owner and the update authority.
///
/// Trusted: the result is whatever that decoder makes of the bytes; nothing is
/// claimed about which bytes it accepts.
#[verifier::external_body]
pub(crate) fn read_asset(data: &[u8]) -> (record: Option<AssetRecord>)
    ensures
        record == asset_record(data@),
{
    match mpl_core::accounts::BaseAssetV1::from_bytes(data) {
        Ok(base) => Some(AssetRecord {
            owner: Address { bytes: base.owner.to_bytes() },
            update_authority: match base.update_authority {
                mpl_core::types::UpdateAuthority::None => UpdateAuthority::Unset,
                mpl_core::types::UpdateAuthority::Address(a) => UpdateAuthority::Address(Address { bytes: a.to_bytes() }),
                mpl_core::types::UpdateAuthority::Collection(c) => UpdateAuthority::Collection(Address { bytes: c.to_bytes() }),
            },
        }),
        Err(_) => None,
    }
}

impl AssetAccount {
    /// Whether `signer` is listed among the signatures as verified.
    pub open spec fn spec_signed_by(&self, signer: Address) -> bool {
        exists|i: int|
            0 <= i < self.signatures@.len() && (#[trigger] self.signatures@[i]).verified
                && self.signatures@[i].address == signer
    }

    /// Whether `signer` is listed among the signatures as verified.
    pub fn signed_by(&self, signer: &Address) -> (found: bool)
        ensures
            found == self.spec_signed_by(*signer),
    {
        let mut i: usize = 0;
        while i < self.signatures.len()
            invariant
                i <= self.signatures@.len(),
                forall|j: int|
                    0 <= j < i ==> !((#[trigger] self.signatures@[j]).verified
                        && self.signatures@[j].address == *signer),
            decreases self.signatures@.len() - i,
        {
            if self.signatures[i].verified && self.signatures[i].address == *signer {
                return true;
            }
            i += 1;
        }
        false
    }

    /// The record of this asset, as the registry's decoder reads it.
    pub fn record(&self) -> (record: Option<AssetRecord>)
        ensures
            record == asset_record(self.data@),
    {
        read_asset(self.data.as_slice())
    }
}

} // verus!
