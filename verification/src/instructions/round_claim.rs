//! Settling a round of the earlier rule set for its team: once the countdown
//! has run out, the whole team vault goes to the round's authority.

use vstd::prelude::*;
use crate::accounts::{Address, TokenAccount};
use crate::effects::Transfer;
use crate::errors::{Failure, FomoErrors};
use crate::state::round::Round;

verus! {

/// Everything the team's claim reads.
#[derive(Clone, Copy, Debug, PartialEq, Eq)]
pub struct RoundClaimContext {
    /// The program that the round belongs to.
    pub program_id: Address,
    /// The caller.
    pub authority: Address,
    /// The caller's custody account, which the vault goes to.
    pub authority_ata: TokenAccount,
    /// The address presented as the round's.
    pub round_key: Address,
    pub round_account: Round,
    /// The team vault, with its balance now.
    pub team_vault: TokenAccount,
    /// The slot, read once for this operation.
    pub now: u64,
}

impl RoundClaimContext {
    /// What the accounts handed in say of the call.
    pub open spec fn spec_check_accounts(&self) -> Result<(), Failure> {
        if self.authority != self.round_account.authority {
            Err(Failure::Unauthorized)
        } else if !self.round_account.spec_lives_at(self.program_id, self.round_key)
            || self.authority_ata.owner != self.authority || !self.team_vault.spec_is_vault(
            self.round_account.team_vault,
        ) {
            Err(Failure::AccountMismatch)
        } else {
            Ok(())
        }
    }

    /// The outcome of the claim.
    pub open spec fn spec_claim(&self) -> Result<Transfer, Failure> {
        if self.spec_check_accounts() is Err {
            Err(self.spec_check_accounts()->Err_0)
        } else if !self.round_account.spec_is_over(self.now) {
            Err(Failure::Program(FomoErrors::RoundNotOver))
        } else {
            Ok(
                Transfer {
                    from: self.team_vault.key,
                    to: self.authority_ata.key,
                    amount: self.team_vault.amount,
                },
            )
        }
    }

    /// Checks caller and accounts: `Unauthorized` if the caller is not the
    /// round's authority, `AccountMismatch` if the vault or the account to be
    /// paid are not the right ones.
    pub fn check_accounts(&self) -> (checked: Result<(), Failure>)
        ensures
            checked == self.spec_check_accounts(),
    {
        if !(self.authority == self.round_account.authority) {
            Err(Failure::Unauthorized)
        } else if self.round_account.lives_at(&self.program_id, &self.round_key)
            && self.authority_ata.owner == self.authority && self.team_vault.is_vault(
            &self.round_account.team_vault,
        ) {
            Ok(())
        } else {
            Err(Failure::AccountMismatch)
        }
    }

    /// The vault can be claimed only after the countdown; before,
    /// `RoundNotOver`.
    pub fn validate(&self) -> (checked: Result<(), Failure>)
        ensures
            self.round_account.spec_is_over(self.now) ==> checked == Ok::<(), Failure>(()),
            !self.round_account.spec_is_over(self.now) ==> checked == Err::<(), Failure>(
                Failure::Program(FomoErrors::RoundNotOver),
            ),
    {
        if self.now > self.round_account.round_close_slot {
            Ok(())
        } else {
            Err(Failure::Program(FomoErrors::RoundNotOver))
        }
    }

    /// Claims the team vault for the round's authority. The transfer is for
    /// the vault's whole balance, which may be nothing.
    pub fn claim(ctx: &RoundClaimContext) -> (sweep: Result<Transfer, Failure>)
        ensures
            sweep == ctx.spec_claim(),
    {
        match ctx.check_accounts() {
            Err(e) => {
                return Err(e);
            },
            Ok(_) => {},
        }
        match ctx.validate() {
            Err(e) => {
                return Err(e);
            },
            Ok(_) => {},
        }
        Ok(
            Transfer {
                from: ctx.team_vault.key,
                to: ctx.authority_ata.key,
                amount: ctx.team_vault.amount,
            },
        )
    }
}

/// A claim that goes through is for the vault's exact balance and empties the
/// vault. A claim made afterwards on the emptied vault goes through too, and
/// moves nothing.
pub proof fn lemma_claim_drains(ctx: RoundClaimContext, later: u64)
    requires
        ctx.spec_claim() is Ok,
        ctx.now <= later,
    ensures
        ctx.spec_claim()->Ok_0.amount == ctx.team_vault.amount,
        ctx.spec_claim()->Ok_0.spec_debit(ctx.team_vault).amount == 0,
        (RoundClaimContext {
            team_vault: ctx.spec_claim()->Ok_0.spec_debit(ctx.team_vault),
            now: later,
            ..ctx
        }).spec_claim() == Ok::<Transfer, Failure>(Transfer { amount: 0, ..ctx.spec_claim()->Ok_0 }),
{
}

} // verus!
