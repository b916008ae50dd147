//! Changing the price step of a round.

use vstd::prelude::*;
use crate::accounts::Address;
use crate::errors::Failure;
use crate::state::{Round, UpdateRoundIncrementArg};

verus! {

/// Everything a change of the price step reads and writes.
#[derive(Clone, Copy, Debug, PartialEq, Eq)]
pub struct UpdateRoundContext {
    /// The program that the round belongs to.
    pub program_id: Address,
    /// The caller.
    pub authority: Address,
    /// The address presented as the round's.
    pub round_key: Address,
    pub round_account: Round,
}

impl UpdateRoundContext {
    /// Whether the caller is the round's authority.
    pub open spec fn spec_authorized(&self) -> bool {
        self.authority == self.round_account.authority
    }

    /// What the accounts handed in say of the call.
    pub open spec fn spec_check_accounts(&self) -> Result<(), Failure> {
        if !self.spec_authorized() {
            Err(Failure::Unauthorized)
        } else if !self.round_account.spec_lives_at(self.program_id, self.round_key) {
            Err(Failure::AccountMismatch)
        } else {
            Ok(())
        }
    }

    /// Only the round's authority may change the round, else `Unauthorized`;
    /// and the round must live where the program derives it, else
    /// `AccountMismatch`.
    pub fn check_accounts(&self) -> (checked: Result<(), Failure>)
        ensures
            checked == self.spec_check_accounts(),
    {
        if !(self.authority == self.round_account.authority) {
            Err(Failure::Unauthorized)
        } else if !self.round_account.lives_at(&self.program_id, &self.round_key) {
            Err(Failure::AccountMismatch)
        } else {
            Ok(())
        }
    }

    /// Sets the round's price step to `increment_amount` and touches nothing
    /// else. Where caller or round are not in order, refuses as
    /// `check_accounts` does and changes nothing.
    pub fn update_increment(ctx: &mut UpdateRoundContext, increment_amount: u64) -> (done: Result<
        (),
        Failure,
    >)
        ensures
            done == old(ctx).spec_check_accounts(),
            done is Ok ==> *final(ctx) == (UpdateRoundContext {
                round_account: Round {
                    round_increment: increment_amount,
                    ..old(ctx).round_account
                },
                ..*old(ctx)
            }),
            done is Err ==> *final(ctx) == *old(ctx),
            old(ctx).round_account.wf() ==> final(ctx).round_account.wf(),
    {
        match ctx.check_accounts() {
            Err(e) => {
                return Err(e);
            },
            Ok(_) => {},
        }
        ctx.round_account.update_increment(
            UpdateRoundIncrementArg { round_increment: increment_amount },
        );
        Ok(())
    }
}

} // verus!
