//! Giving a round its three vaults, once.

use vstd::prelude::*;
use crate::accounts::{Address, TokenAccount};
use crate::errors::Failure;
use crate::state::{Phase, Round, RoundCreateVaultsArgs};

verus! {

/// Everything the provisioning of the vaults reads and writes.
#[derive(Clone, Copy, Debug, PartialEq, Eq)]
pub struct CreateRoundVaultsContext {
    /// The program that the round belongs to.
    pub program_id: Address,
    /// The caller.
    pub authority: Address,
    /// The address presented as the round's, which must own the vaults.
    pub round_key: Address,
    pub round_account: Round,
    pub mint_fee_vault: TokenAccount,
    pub nft_pool_vault: TokenAccount,
    pub main_pool_vault: TokenAccount,
}

impl CreateRoundVaultsContext {
    /// Whether the caller is the round's authority.
    pub open spec fn spec_authorized(&self) -> bool {
        self.authority == self.round_account.authority
    }

    /// Whether the round lives where the program derives it and the three
    /// accounts can serve as its vaults: each lives at an address of its own
    /// that is set, and the round owns it.
    pub open spec fn spec_vaults_usable(&self) -> bool {
        &&& self.round_account.spec_lives_at(self.program_id, self.round_key)
        &&& self.mint_fee_vault.key != Address::spec_zero()
        &&& self.nft_pool_vault.key != Address::spec_zero()
        &&& self.main_pool_vault.key != Address::spec_zero()
        &&& self.mint_fee_vault.key != self.nft_pool_vault.key
        &&& self.mint_fee_vault.key != self.main_pool_vault.key
        &&& self.nft_pool_vault.key != self.main_pool_vault.key
        &&& self.mint_fee_vault.owner == self.round_key
        &&& self.nft_pool_vault.owner == self.round_key
        &&& self.main_pool_vault.owner == self.round_key
    }

    /// The outcome of the provisioning.
    pub open spec fn spec_create_vaults(&self) -> Result<(), Failure> {
        if !self.spec_authorized() {
            Err(Failure::Unauthorized)
        } else if !self.round_account.spec_vaults_unset() {
            Err(Failure::AlreadyProvisioned)
        } else if !self.spec_vaults_usable() {
            Err(Failure::AccountMismatch)
        } else {
            Ok(())
        }
    }

    /// Checks caller, round and vaults: `Unauthorized` if the caller is not the
    /// round's authority, `AlreadyProvisioned` if the round has a vault already,
    /// `AccountMismatch` if the accounts cannot serve as its vaults.
    pub fn check_accounts(&self) -> (checked: Result<(), Failure>)
        ensures
            checked == self.spec_create_vaults(),
    {
        let zero = Address::zero();
        if !(self.authority == self.round_account.authority) {
            Err(Failure::Unauthorized)
        } else if !self.round_account.vaults_unset() {
            Err(Failure::AlreadyProvisioned)
        } else if !self.round_account.lives_at(&self.program_id, &self.round_key)
            || self.mint_fee_vault.key == zero || self.nft_pool_vault.key == zero
            || self.main_pool_vault.key == zero || self.mint_fee_vault.key
            == self.nft_pool_vault.key || self.mint_fee_vault.key == self.main_pool_vault.key
            || self.nft_pool_vault.key == self.main_pool_vault.key || !(self.mint_fee_vault.owner
            == self.round_key) || !(self.nft_pool_vault.owner == self.round_key) || !(
        self.main_pool_vault.owner == self.round_key) {
            Err(Failure::AccountMismatch)
        } else {
            Ok(())
        }
    }

    /// Records the three vaults in the round. This succeeds once in the life
    /// of a round: afterwards the round has its vaults and every further call
    /// is refused. On any refusal nothing changes.
    pub fn create_vaults(ctx: &mut CreateRoundVaultsContext) -> (done: Result<(), Failure>)
        ensures
            done == old(ctx).spec_create_vaults(),
            done is Ok ==> *final(ctx) == (CreateRoundVaultsContext {
                round_account: Round {
                    mint_fee_vault: old(ctx).mint_fee_vault.key,
                    nft_pool_vault: old(ctx).nft_pool_vault.key,
                    main_pool_vault: old(ctx).main_pool_vault.key,
                    ..old(ctx).round_account
                },
                ..*old(ctx)
            }),
            done is Ok ==> !final(ctx).round_account.spec_vaults_unset(),
            done is Err ==> *final(ctx) == *old(ctx),
            old(ctx).round_account.wf() ==> final(ctx).round_account.wf(),
    {
        match ctx.check_accounts() {
            Err(e) => {
                return Err(e);
            },
            Ok(_) => {},
        }
        ctx.round_account.create_vaults(
            RoundCreateVaultsArgs {
                mint_fee_vault: ctx.mint_fee_vault.key,
                nft_pool_vault: ctx.nft_pool_vault.key,
                main_pool_vault: ctx.main_pool_vault.key,
            },
        );
        Ok(())
    }
}

/// Provisioning takes a round that has no vaults and leaves it with vaults:
/// a round without a key goes from empty to ready, and can never be
/// provisioned again as it is.
pub proof fn lemma_provisioning_moves_on(ctx: CreateRoundVaultsContext, now: u64)
    requires
        ctx.spec_create_vaults() is Ok,
        ctx.round_account.mint_counter == 0,
    ensures
        ctx.round_account.spec_phase(now) == Phase::Empty,
        (Round {
            mint_fee_vault: ctx.mint_fee_vault.key,
            nft_pool_vault: ctx.nft_pool_vault.key,
            main_pool_vault: ctx.main_pool_vault.key,
            ..ctx.round_account
        }).spec_phase(now) == Phase::VaultsReady,
        (CreateRoundVaultsContext {
            round_account: Round {
                mint_fee_vault: ctx.mint_fee_vault.key,
                nft_pool_vault: ctx.nft_pool_vault.key,
                main_pool_vault: ctx.main_pool_vault.key,
                ..ctx.round_account
            },
            ..ctx
        }).spec_create_vaults() is Err,
{
}

} // verus!
