//! Giving a round of the earlier rule set its two reserves, once.

use vstd::prelude::*;
use crate::accounts::{Address, TokenAccount};
use crate::errors::Failure;
use crate::state::round::{Round, RoundCreateReservesArgs};

verus! {

/// Everything the provisioning of the reserves reads and writes.
#[derive(Clone, Copy, Debug, PartialEq, Eq)]
pub struct CreateRoundReservesContext {
    /// The program that the round belongs to.
    pub program_id: Address,
    /// The caller.
    pub authority: Address,
    /// The address presented as the round's, which must own the reserves.
    pub round_key: Address,
    pub round_account: Round,
    pub pool_vault: TokenAccount,
    pub treasure_vault: TokenAccount,
}

impl CreateRoundReservesContext {
    /// Whether the round lives where the program derives it and the two
    /// accounts can serve as its reserves: each lives at an address of its own
    /// that is set, and the round owns it.
    pub open spec fn spec_reserves_usable(&self) -> bool {
        &&& self.round_account.spec_lives_at(self.program_id, self.round_key)
        &&& self.pool_vault.key != Address::spec_zero()
        &&& self.treasure_vault.key != Address::spec_zero()
        &&& self.pool_vault.key != self.treasure_vault.key
        &&& self.pool_vault.owner == self.round_key
        &&& self.treasure_vault.owner == self.round_key
    }

    /// The outcome of the provisioning.
    pub open spec fn spec_create_reserves(&self) -> Result<(), Failure> {
        if self.authority != self.round_account.authority {
            Err(Failure::Unauthorized)
        } else if !self.round_account.spec_reserves_unset() {
            Err(Failure::AlreadyProvisioned)
        } else if !self.spec_reserves_usable() {
            Err(Failure::AccountMismatch)
        } else {
            Ok(())
        }
    }

    /// Records the two reserves in the round. This succeeds once in the life
    /// of a round. `Unauthorized` if the caller is not the round's authority,
    /// `AlreadyProvisioned` if the round has a reserve already,
    /// `AccountMismatch` if the accounts cannot serve as its reserves. On any
    /// refusal nothing changes.
    pub fn create_reserves(ctx: &mut CreateRoundReservesContext) -> (done: Result<(), Failure>)
        ensures
            done == old(ctx).spec_create_reserves(),
            done is Ok ==> *final(ctx) == (CreateRoundReservesContext {
                round_account: Round {
                    pool_vault: old(ctx).pool_vault.key,
                    treasure_vault: old(ctx).treasure_vault.key,
                    ..old(ctx).round_account
                },
                ..*old(ctx)
            }),
            done is Ok ==> !final(ctx).round_account.spec_reserves_unset(),
            done is Err ==> *final(ctx) == *old(ctx),
            old(ctx).round_account.wf() ==> final(ctx).round_account.wf(),
    {
        let zero = Address::zero();
        if !(ctx.authority == ctx.round_account.authority) {
            return Err(Failure::Unauthorized);
        }
        if !ctx.round_account.reserves_unset() {
            return Err(Failure::AlreadyProvisioned);
        }
        if !ctx.round_account.lives_at(&ctx.program_id, &ctx.round_key) || ctx.pool_vault.key
            == zero || ctx.treasure_vault.key == zero || ctx.pool_vault.key
            == ctx.treasure_vault.key || !(ctx.pool_vault.owner == ctx.round_key) || !(
        ctx.treasure_vault.owner == ctx.round_key) {
            return Err(Failure::AccountMismatch);
        }
        ctx.round_account.create_reserves(
            RoundCreateReservesArgs {
                treasure_vault: ctx.treasure_vault.key,
                pool_vault: ctx.pool_vault.key,
            },
        );
        Ok(())
    }
}

} // verus!
