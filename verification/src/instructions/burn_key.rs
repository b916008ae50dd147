//! Leaving a round early: a holder burns a key for an equal share of the
//! holders' pool.

use vstd::prelude::*;
use crate::accounts::{asset_record, Address, AssetAccount, AssetRecord, TokenAccount, UpdateAuthority};
use crate::effects::{AssetBurn, Transfer};
use crate::errors::{Failure, FomoErrors};
use crate::state::{NftKey, Round};

verus! {

/// Everything a burn reads and writes.
#[derive(Clone, Debug, PartialEq, Eq)]
pub struct BurnKeyContext {
    /// The program that the round and its keys belong to.
    pub program_id: Address,
    /// The caller, who says they hold the key.
    pub authority: Address,
    /// The caller's custody account, which the payout goes to.
    pub authority_ata: TokenAccount,
    /// The address presented as the round's.
    pub round_key: Address,
    pub round_account: Round,
    /// The collection presented as the round's.
    pub collection: Address,
    /// The asset to be burned, as the asset registry holds it.
    pub asset: AssetAccount,
    /// The address presented as the key's.
    pub key_address: Address,
    pub key_account: NftKey,
    /// The vault that holders are paid from, with its balance now.
    pub nft_pool_vault: TokenAccount,
}

/// What a burn asks to be carried out: pay the holder, then retire the asset.
#[derive(Clone, Copy, Debug, PartialEq, Eq)]
pub struct BurnPlan {
    pub payout: Transfer,
    pub burn: AssetBurn,
}

impl BurnKeyContext {
    /// Whether the accounts handed in are the ones the round and the key
    /// record, the round lives where the program derives it, and the key is a
    /// key of this round.
    pub open spec fn spec_accounts_match(&self) -> bool {
        &&& self.round_account.spec_lives_at(self.program_id, self.round_key)
        &&& NftKey::spec_lives_at(
            self.round_key,
            self.key_account.key_index,
            self.key_account.bump,
            self.program_id,
            self.key_address,
        )
        &&& self.authority_ata.owner == self.authority
        &&& self.collection == self.round_account.collection
        &&& self.asset.key == self.key_account.nft_mint
        &&& self.nft_pool_vault.spec_is_vault(self.round_account.nft_pool_vault)
    }

    /// What the registry's record of the asset must say for the burn to go on.
    pub open spec fn spec_check_record(&self, record: Option<AssetRecord>) -> Result<(), Failure> {
        match record {
            None => Err(Failure::AssetUnreadable),
            Some(r) => if r.update_authority != UpdateAuthority::Collection(
                self.round_account.collection,
            ) {
                Err(Failure::Program(FomoErrors::InvalidKeyAccount))
            } else if r.owner != self.authority {
                Err(Failure::Program(FomoErrors::InvalidOwner))
            } else {
                Ok(())
            },
        }
    }

    /// The payout of this burn: the pool's balance divided, rounding down, by
    /// the number of keys still held, this one included.
    pub open spec fn spec_payout(&self) -> Result<u64, FomoErrors> {
        if self.round_account.mint_counter < self.round_account.nft_burn_counter {
            Err(FomoErrors::CalculationError)
        } else if self.key_account.exited == 1 {
            Err(FomoErrors::InvalidKeyAccount)
        } else if self.round_account.mint_counter == self.round_account.nft_burn_counter {
            Err(FomoErrors::DivisionError)
        } else {
            Ok((self.nft_pool_vault.amount / ((self.round_account.mint_counter
                - self.round_account.nft_burn_counter) as u64)) as u64)
        }
    }

    /// The outcome of a burn, given what the registry's record of the asset says.
    pub open spec fn spec_burn_with(&self, record: Option<AssetRecord>) -> Result<
        BurnPlan,
        Failure,
    > {
        if !self.spec_accounts_match() {
            Err(Failure::AccountMismatch)
        } else if self.spec_check_record(record) is Err {
            Err(self.spec_check_record(record)->Err_0)
        } else {
            match self.spec_payout() {
                Err(e) => Err(Failure::Program(e)),
                Ok(amount) => Ok(
                    BurnPlan {
                        payout: Transfer {
                            from: self.nft_pool_vault.key,
                            to: self.authority_ata.key,
                            amount,
                        },
                        burn: AssetBurn {
                            asset: self.asset.key,
                            collection: self.collection,
                            holder: self.authority,
                        },
                    },
                ),
            }
        }
    }

    /// The outcome of a burn.
    pub open spec fn spec_burn_key(&self) -> Result<BurnPlan, Failure> {
        self.spec_burn_with(asset_record(self.asset.data@))
    }

    /// The context after a burn that went through: one more key burned, and
    /// this key marked as gone.
    pub open spec fn spec_burned(&self) -> BurnKeyContext {
        BurnKeyContext {
            round_account: Round {
                nft_burn_counter: (self.round_account.nft_burn_counter + 1) as u64,
                ..self.round_account
            },
            key_account: NftKey { exited: 1, ..self.key_account },
            ..*self
        }
    }

    /// Checks that the accounts handed in are the ones the round and the key
    /// record.
    pub fn check_accounts(&self) -> (checked: Result<(), Failure>)
        ensures
            self.spec_accounts_match() ==> checked == Ok::<(), Failure>(()),
            !self.spec_accounts_match() ==> checked == Err::<(), Failure>(Failure::AccountMismatch),
    {
        if self.round_account.lives_at(&self.program_id, &self.round_key) && NftKey::lives_at(
            &self.round_key,
            self.key_account.key_index,
            self.key_account.bump,
            &self.program_id,
            &self.key_address,
        ) && self.authority_ata.owner == self.authority && self.collection
            == self.round_account.collection && self.asset.key == self.key_account.nft_mint
            && self.nft_pool_vault.is_vault(&self.round_account.nft_pool_vault) {
            Ok(())
        } else {
            Err(Failure::AccountMismatch)
        }
    }

    /// Checks the registry's record of the asset: it must belong to the round's
    /// collection (else `InvalidKeyAccount`) and to the caller (else
    /// `InvalidOwner`); a record that could not be read is `AssetUnreadable`.
    pub fn check_record(&self, record: Option<AssetRecord>) -> (checked: Result<(), Failure>)
        ensures
            checked == self.spec_check_record(record),
    {
        match record {
            None => Err(Failure::AssetUnreadable),
            Some(r) => {
                let in_collection = match r.update_authority {
                    UpdateAuthority::Collection(c) => c == self.round_account.collection,
                    _ => false,
                };
                if !in_collection {
                    Err(Failure::Program(FomoErrors::InvalidKeyAccount))
                } else if !(r.owner == self.authority) {
                    Err(Failure::Program(FomoErrors::InvalidOwner))
                } else {
                    Ok(())
                }
            },
        }
    }

    /// Reads the asset's record from the registry's bytes and checks it.
    pub fn validate(&self) -> (checked: Result<(), Failure>)
        ensures
            checked == self.spec_check_record(asset_record(self.asset.data@)),
    {
        self.check_record(self.asset.record())
    }

    /// The payout of this burn. `CalculationError` if more keys were burned
    /// than minted, `InvalidKeyAccount` if this key was burned before,
    /// `DivisionError` if no key is held any more.
    pub fn payout(&self) -> (amount: Result<u64, FomoErrors>)
        ensures
            amount == self.spec_payout(),
    {
        match self.round_account.mint_counter.checked_sub(self.round_account.nft_burn_counter) {
            None => Err(FomoErrors::CalculationError),
            Some(current_holder_counter) => {
                if self.key_account.exited == 1 {
                    Err(FomoErrors::InvalidKeyAccount)
                } else {
                    match self.nft_pool_vault.amount.checked_div(current_holder_counter) {
                        None => Err(FomoErrors::DivisionError),
                        Some(avg_amount_pool) => Ok(avg_amount_pool),
                    }
                }
            },
        }
    }

    /// Burns the key, given what the registry's record of its asset says.
    ///
    /// On success the round counts one more burned key, the key is marked as
    /// gone, and the plan pays the holder and retires the asset. On any
    /// refusal nothing changes.
    pub fn burn_key_with(ctx: &mut BurnKeyContext, record: Option<AssetRecord>) -> (plan: Result<
        BurnPlan,
        Failure,
    >)
        ensures
            plan == old(ctx).spec_burn_with(record),
            plan is Ok ==> *final(ctx) == old(ctx).spec_burned(),
            plan is Ok ==> plan->Ok_0.payout.amount == old(ctx).nft_pool_vault.amount / ((old(ctx).round_account.mint_counter
                - old(ctx).round_account.nft_burn_counter) as u64),
            plan is Ok ==> final(ctx).round_account.nft_burn_counter == old(ctx).round_account.nft_burn_counter
                + 1,
            plan is Ok ==> final(ctx).key_account.spec_has_exited(),
            plan is Ok ==> plan->Ok_0.payout.spec_covered_by(old(ctx).nft_pool_vault),
            plan is Err ==> *final(ctx) == *old(ctx),
            old(ctx).round_account.wf() ==> final(ctx).round_account.wf(),
    {
        match ctx.check_accounts() {
            Err(e) => {
                return Err(e);
            },
            Ok(_) => {},
        }
        match ctx.check_record(record) {
            Err(e) => {
                return Err(e);
            },
            Ok(_) => {},
        }
        match ctx.payout() {
            Err(e) => Err(Failure::Program(e)),
            Ok(amount) => {
                let plan = BurnPlan {
                    payout: Transfer {
                        from: ctx.nft_pool_vault.key,
                        to: ctx.authority_ata.key,
                        amount,
                    },
                    burn: AssetBurn {
                        asset: ctx.asset.key,
                        collection: ctx.collection,
                        holder: ctx.authority,
                    },
                };
                ctx.round_account.nft_burn_counter = ctx.round_account.nft_burn_counter + 1;
                ctx.key_account.exited = 1;
                Ok(plan)
            },
        }
    }

    /// Burns the key: reads the asset's record, then does as `burn_key_with`.
    pub fn burn_key(ctx: &mut BurnKeyContext) -> (plan: Result<BurnPlan, Failure>)
        ensures
            plan == old(ctx).spec_burn_key(),
            plan is Ok ==> *final(ctx) == old(ctx).spec_burned(),
            plan is Err ==> *final(ctx) == *old(ctx),
            old(ctx).round_account.wf() ==> final(ctx).round_account.wf(),
    {
        let record = ctx.asset.record();
        BurnKeyContext::burn_key_with(ctx, record)
    }
}

/// The payout of a burn is never more than the pool holds.
pub proof fn lemma_payout_within_pool(ctx: BurnKeyContext)
    requires
        ctx.spec_payout() is Ok,
    ensures
        ctx.spec_payout()->Ok_0 <= ctx.nft_pool_vault.amount,
        ctx.spec_payout()->Ok_0 == ctx.nft_pool_vault.amount / ((ctx.round_account.mint_counter
            - ctx.round_account.nft_burn_counter) as u64),
{
    let holders = (ctx.round_account.mint_counter - ctx.round_account.nft_burn_counter) as int;
    let pool = ctx.nft_pool_vault.amount as int;
    assert(0 <= pool / holders <= pool) by (nonlinear_arith)
        requires
            0 <= pool,
            1 <= holders,
    ;
}

/// A burn that went through leaves the key marked as gone and the round with
/// one more burned key, and still with no more keys burned than minted.
pub proof fn lemma_burn_marks_key(ctx: BurnKeyContext, record: Option<AssetRecord>)
    requires
        ctx.spec_burn_with(record) is Ok,
    ensures
        ctx.spec_burned().key_account.spec_has_exited(),
        ctx.spec_burned().round_account.nft_burn_counter == ctx.round_account.nft_burn_counter
            + 1,
        ctx.spec_burned().round_account.wf(),
{
}

/// A key that is marked as gone is never paid again: every burn of it is
/// refused, whatever else the context holds. Where accounts and record are in
/// order and the round has burned no more keys than it minted, the refusal is
/// `InvalidKeyAccount` every time.
pub proof fn lemma_burn_only_once(ctx: BurnKeyContext, record: Option<AssetRecord>)
    requires
        ctx.key_account.spec_has_exited(),
    ensures
        ctx.spec_burn_with(record) is Err,
        ctx.spec_accounts_match() && ctx.spec_check_record(record) is Ok
            && ctx.round_account.wf() ==> ctx.spec_burn_with(record) == Err::<BurnPlan, Failure>(
            Failure::Program(FomoErrors::InvalidKeyAccount),
        ),
{
}

} // verus!
