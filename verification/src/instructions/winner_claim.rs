//! Settling a round for its winner: once the countdown has run out, the whole
//! main pool goes to whoever holds the last key minted.

use vstd::prelude::*;
use crate::accounts::{asset_record, Address, AssetAccount, AssetRecord, TokenAccount, UpdateAuthority};
use crate::effects::Transfer;
use crate::errors::{Failure, FomoErrors};
use crate::state::{NftKey, Phase, Round};

verus! {

/// Everything the winner's claim reads.
#[derive(Clone, Debug, PartialEq, Eq)]
pub struct WinnerClaimContext {
    /// The program that the round and its keys belong to.
    pub program_id: Address,
    /// The caller.
    pub authority: Address,
    /// Who is to be paid.
    pub winner: Address,
    /// The winner's custody account, which the pool goes to.
    pub winner_ata: TokenAccount,
    /// The address presented as the round's, under which it signs.
    pub round_key: Address,
    pub round_account: Round,
    /// The asset presented as the winning key, as the asset registry holds it.
    pub asset: AssetAccount,
    /// The address presented as the key's.
    pub key_address: Address,
    /// The record presented as the round's current key.
    pub key_account: NftKey,
    /// The main pool, with its balance now.
    pub main_pool_vault: TokenAccount,
    /// The clock, read once for this operation.
    pub now: u64,
}

impl WinnerClaimContext {
    /// Whether the caller is the round's authority.
    pub open spec fn spec_authorized(&self) -> bool {
        self.authority == self.round_account.authority
    }

    /// Whether the round lives where the program derives it, the key is a key
    /// of this round and its current one, the asset is that key's, the vault
    /// is the round's main pool, and the account to be paid is the winner's.
    pub open spec fn spec_accounts_match(&self) -> bool {
        &&& self.round_account.spec_lives_at(self.program_id, self.round_key)
        &&& NftKey::spec_lives_at(
            self.round_key,
            self.key_account.key_index,
            self.key_account.bump,
            self.program_id,
            self.key_address,
        )
        &&& self.key_account.key_index == self.round_account.mint_counter
        &&& self.asset.key == self.key_account.nft_mint
        &&& self.winner_ata.owner == self.winner
        &&& self.main_pool_vault.spec_is_vault(self.round_account.main_pool_vault)
    }

    /// What the accounts handed in say of the call.
    pub open spec fn spec_check_accounts(&self) -> Result<(), Failure> {
        if !self.spec_authorized() {
            Err(Failure::Unauthorized)
        } else if !self.spec_accounts_match() {
            Err(Failure::AccountMismatch)
        } else {
            Ok(())
        }
    }

    /// What time and the registry's record of the asset must say for the claim
    /// to go on.
    pub open spec fn spec_check_record(&self, record: Option<AssetRecord>) -> Result<(), Failure> {
        if !self.round_account.spec_is_over(self.now) {
            Err(Failure::Program(FomoErrors::RoundNotOver))
        } else {
            match record {
                None => Err(Failure::AssetUnreadable),
                Some(r) => if r.update_authority != UpdateAuthority::Collection(
                    self.round_account.collection,
                ) {
                    Err(Failure::Program(FomoErrors::InvalidAsset))
                } else if !self.asset.spec_signed_by(self.round_key) {
                    Err(Failure::Program(FomoErrors::InvalidAsset))
                } else if r.owner != self.winner {
                    Err(Failure::Program(FomoErrors::InvalidOwner))
                } else {
                    Ok(())
                },
            }
        }
    }

    /// The sweep of the main pool: all that is in it, to the winner.
    pub open spec fn spec_sweep(&self) -> Transfer {
        Transfer {
            from: self.main_pool_vault.key,
            to: self.winner_ata.key,
            amount: self.main_pool_vault.amount,
        }
    }

    /// The outcome of the claim, given what the registry's record of the asset
    /// says.
    pub open spec fn spec_claim_with(&self, record: Option<AssetRecord>) -> Result<
        Transfer,
        Failure,
    > {
        if self.spec_check_accounts() is Err {
            Err(self.spec_check_accounts()->Err_0)
        } else if self.spec_check_record(record) is Err {
            Err(self.spec_check_record(record)->Err_0)
        } else {
            Ok(self.spec_sweep())
        }
    }

    /// The outcome of the claim.
    pub open spec fn spec_winner_claim(&self) -> Result<Transfer, Failure> {
        self.spec_claim_with(asset_record(self.asset.data@))
    }

    /// Checks caller and accounts: `Unauthorized` if the caller is not the
    /// round's authority, `AccountMismatch` if key, asset, vault or the account
    /// to be paid are not the right ones.
    pub fn check_accounts(&self) -> (checked: Result<(), Failure>)
        ensures
            checked == self.spec_check_accounts(),
    {
        if !(self.authority == self.round_account.authority) {
            Err(Failure::Unauthorized)
        } else if self.round_account.lives_at(&self.program_id, &self.round_key)
            && NftKey::lives_at(
            &self.round_key,
            self.key_account.key_index,
            self.key_account.bump,
            &self.program_id,
            &self.key_address,
        ) && self.key_account.key_index == self.round_account.mint_counter && self.asset.key
            == self.key_account.nft_mint && self.winner_ata.owner == self.winner
            && self.main_pool_vault.is_vault(&self.round_account.main_pool_vault) {
            Ok(())
        } else {
            Err(Failure::AccountMismatch)
        }
    }

    /// Checks time and the registry's record of the asset. The countdown must
    /// be over (else `RoundNotOver`); the record must be readable (else
    /// `AssetUnreadable`); the asset must belong to the round's collection and
    /// carry the round's verified signature (else `InvalidAsset`); it must
    /// belong to the winner named (else `InvalidOwner`).
    pub fn check_record(&self, record: Option<AssetRecord>) -> (checked: Result<(), Failure>)
        ensures
            checked == self.spec_check_record(record),
    {
        if !self.round_account.is_over(self.now) {
            return Err(Failure::Program(FomoErrors::RoundNotOver));
        }
        match record {
            None => Err(Failure::AssetUnreadable),
            Some(r) => {
                let in_collection = match r.update_authority {
                    UpdateAuthority::Collection(c) => c == self.round_account.collection,
                    _ => false,
                };
                if !in_collection {
                    Err(Failure::Program(FomoErrors::InvalidAsset))
                } else if !self.asset.signed_by(&self.round_key) {
                    Err(Failure::Program(FomoErrors::InvalidAsset))
                } else if !(r.owner == self.winner) {
                    Err(Failure::Program(FomoErrors::InvalidOwner))
                } else {
                    Ok(())
                }
            },
        }
    }

    /// Reads the asset's record from the registry's bytes and checks time and
    /// record.
    pub fn validate(&self) -> (checked: Result<(), Failure>)
        ensures
            checked == self.spec_check_record(asset_record(self.asset.data@)),
    {
        self.check_record(self.asset.record())
    }

    /// Claims the main pool for the winner, given what the registry's record
    /// of the asset says. The transfer is for the pool's whole balance, which
    /// may be nothing. The round's record is not touched.
    pub fn winner_claim_with(ctx: &WinnerClaimContext, record: Option<AssetRecord>) -> (sweep:
        Result<Transfer, Failure>)
        ensures
            sweep == ctx.spec_claim_with(record),
    {
        match ctx.check_accounts() {
            Err(e) => {
                return Err(e);
            },
            Ok(_) => {},
        }
        match ctx.check_record(record) {
            Err(e) => {
                return Err(e);
            },
            Ok(_) => {},
        }
        Ok(
            Transfer {
                from: ctx.main_pool_vault.key,
                to: ctx.winner_ata.key,
                amount: ctx.main_pool_vault.amount,
            },
        )
    }

    /// Claims the main pool for the winner: reads the asset's record, then
    /// does as `winner_claim_with`.
    pub fn winner_claim(ctx: &WinnerClaimContext) -> (sweep: Result<Transfer, Failure>)
        ensures
            sweep == ctx.spec_winner_claim(),
    {
        let record = ctx.asset.record();
        WinnerClaimContext::winner_claim_with(ctx, record)
    }
}

/// While the countdown has not passed, a claim whose accounts are in order is
/// refused with `RoundNotOver`, whatever the asset.
pub proof fn lemma_winner_claim_waits(ctx: WinnerClaimContext, record: Option<AssetRecord>)
    requires
        ctx.spec_check_accounts() is Ok,
        ctx.now <= ctx.round_account.round_close_timestamp,
    ensures
        ctx.spec_claim_with(record) == Err::<Transfer, Failure>(
            Failure::Program(FomoErrors::RoundNotOver),
        ),
{
}

/// A claim that goes through is for the pool's exact balance and empties the
/// pool. A claim made afterwards on the emptied pool goes through too, and
/// moves nothing.
pub proof fn lemma_winner_claim_drains(
    ctx: WinnerClaimContext,
    record: Option<AssetRecord>,
    later: u64,
)
    requires
        ctx.spec_claim_with(record) is Ok,
        ctx.now <= later,
    ensures
        ctx.spec_claim_with(record)->Ok_0.amount == ctx.main_pool_vault.amount,
        ctx.spec_claim_with(record)->Ok_0.spec_covered_by(ctx.main_pool_vault),
        ctx.spec_claim_with(record)->Ok_0.spec_debit(ctx.main_pool_vault).amount == 0,
        (WinnerClaimContext {
            main_pool_vault: ctx.spec_claim_with(record)->Ok_0.spec_debit(ctx.main_pool_vault),
            now: later,
            ..ctx
        }).spec_claim_with(record) == Ok::<Transfer, Failure>(
            Transfer { amount: 0, ..ctx.spec_claim_with(record)->Ok_0 },
        ),
{
}

/// The pool is paid out only from a closed round: a round that has a key and
/// whose countdown has run out.
pub proof fn lemma_winner_claim_needs_closed(ctx: WinnerClaimContext, record: Option<AssetRecord>)
    requires
        ctx.spec_claim_with(record) is Ok,
        ctx.round_account.mint_counter > 0,
    ensures
        ctx.round_account.spec_phase(ctx.now) == Phase::Closed,
{
}

} // verus!
