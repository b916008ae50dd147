//! Settling a round for its authority: once the countdown has run out, the
//! whole mint-fee vault goes to the round's authority.

use vstd::prelude::*;
use crate::accounts::{Address, TokenAccount};
use crate::effects::Transfer;
use crate::errors::{Failure, FomoErrors};
use crate::state::Round;

verus! {

/// Everything the claim of the fees reads.
#[derive(Clone, Copy, Debug, PartialEq, Eq)]
pub struct FeeClaimContext {
    /// The program that the round belongs to.
    pub program_id: Address,
    /// The caller.
    pub authority: Address,
    /// The caller's custody account, which the fees go to.
    pub authority_ata: TokenAccount,
    /// The address presented as the round's.
    pub round_key: Address,
    pub round_account: Round,
    /// The mint-fee vault, with its balance now.
    pub mint_fee_vault: TokenAccount,
    /// The clock, read once for this operation.
    pub now: u64,
}

impl FeeClaimContext {
    /// Whether the caller is the round's authority.
    pub open spec fn spec_authorized(&self) -> bool {
        self.authority == self.round_account.authority
    }

    /// Whether the round lives where the program derives it, the account to
    /// be paid is the caller's and the vault is the round's mint-fee vault.
    pub open spec fn spec_accounts_match(&self) -> bool {
        &&& self.round_account.spec_lives_at(self.program_id, self.round_key)
        &&& self.authority_ata.owner == self.authority
        &&& self.mint_fee_vault.spec_is_vault(self.round_account.mint_fee_vault)
    }

    /// What the accounts handed in say of the call.
    pub open spec fn spec_check_accounts(&self) -> Result<(), Failure> {
        if !self.spec_authorized() {
            Err(Failure::Unauthorized)
        } else if !self.spec_accounts_match() {
            Err(Failure::AccountMismatch)
        } else {
            Ok(())
        }
    }

    /// The sweep of the mint-fee vault: all that is in it, to the authority.
    pub open spec fn spec_sweep(&self) -> Transfer {
        Transfer {
            from: self.mint_fee_vault.key,
            to: self.authority_ata.key,
            amount: self.mint_fee_vault.amount,
        }
    }

    /// The outcome of the claim.
    pub open spec fn spec_fee_claim(&self) -> Result<Transfer, Failure> {
        if self.spec_check_accounts() is Err {
            Err(self.spec_check_accounts()->Err_0)
        } else if !self.round_account.spec_is_over(self.now) {
            Err(Failure::Program(FomoErrors::RoundNotOver))
        } else {
            Ok(self.spec_sweep())
        }
    }

    /// Checks caller and accounts: `Unauthorized` if the caller is not the
    /// round's authority, `AccountMismatch` if the vault or the account to be
    /// paid are not the right ones.
    pub fn check_accounts(&self) -> (checked: Result<(), Failure>)
        ensures
            checked == self.spec_check_accounts(),
    {
        if !(self.authority == self.round_account.authority) {
            Err(Failure::Unauthorized)
        } else if self.round_account.lives_at(&self.program_id, &self.round_key)
            && self.authority_ata.owner == self.authority && self.mint_fee_vault.is_vault(
            &self.round_account.mint_fee_vault,
        ) {
            Ok(())
        } else {
            Err(Failure::AccountMismatch)
        }
    }

    /// The fees can be claimed only after the countdown; before, `RoundNotOver`.
    pub fn validate(&self) -> (checked: Result<(), Failure>)
        ensures
            self.round_account.spec_is_over(self.now) ==> checked == Ok::<(), Failure>(()),
            !self.round_account.spec_is_over(self.now) ==> checked == Err::<(), Failure>(
                Failure::Program(FomoErrors::RoundNotOver),
            ),
    {
        if self.round_account.is_over(self.now) {
            Ok(())
        } else {
            Err(Failure::Program(FomoErrors::RoundNotOver))
        }
    }

    /// Claims the mint fees for the round's authority. The transfer is for the
    /// vault's whole balance, which may be nothing. The round's record is not
    /// touched.
    pub fn fee_claim(ctx: &FeeClaimContext) -> (sweep: Result<Transfer, Failure>)
        ensures
            sweep == ctx.spec_fee_claim(),
    {
        match ctx.check_accounts() {
            Err(e) => {
                return Err(e);
            },
            Ok(_) => {},
        }
        match ctx.validate() {
            Err(e) => {
                return Err(e);
            },
            Ok(_) => {},
        }
        Ok(
            Transfer {
                from: ctx.mint_fee_vault.key,
                to: ctx.authority_ata.key,
                amount: ctx.mint_fee_vault.amount,
            },
        )
    }
}

/// While the countdown has not passed, a claim whose accounts are in order is
/// refused with `RoundNotOver`.
pub proof fn lemma_fee_claim_waits(ctx: FeeClaimContext)
    requires
        ctx.spec_check_accounts() is Ok,
        ctx.now <= ctx.round_account.round_close_timestamp,
    ensures
        ctx.spec_fee_claim() == Err::<Transfer, Failure>(
            Failure::Program(FomoErrors::RoundNotOver),
        ),
{
}

/// A claim that goes through is for the vault's exact balance and empties the
/// vault. A claim made afterwards on the emptied vault goes through too, and
/// moves nothing.
pub proof fn lemma_fee_claim_drains(ctx: FeeClaimContext, later: u64)
    requires
        ctx.spec_fee_claim() is Ok,
        ctx.now <= later,
    ensures
        ctx.spec_fee_claim()->Ok_0.amount == ctx.mint_fee_vault.amount,
        ctx.spec_fee_claim()->Ok_0.spec_covered_by(ctx.mint_fee_vault),
        ctx.spec_fee_claim()->Ok_0.spec_debit(ctx.mint_fee_vault).amount == 0,
        (FeeClaimContext {
            mint_fee_vault: ctx.spec_fee_claim()->Ok_0.spec_debit(ctx.mint_fee_vault),
            now: later,
            ..ctx
        }).spec_fee_claim() == Ok::<Transfer, Failure>(
            Transfer { amount: 0, ..ctx.spec_fee_claim()->Ok_0 },
        ),
{
}

} // verus!
