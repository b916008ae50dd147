//! Opening a round: the round's record is filled in and its collection is
//! created.

use vstd::prelude::*;
use crate::accounts::Address;
use crate::effects::{CollectionCreation, CollectionCreationView};
use crate::errors::{Failure, FomoErrors};
use crate::state::{round_lives_at, spec_round_lives_at, Round, RoundCreateArgs};
use crate::utils::{Config, INCREMENT_AMOUNT, TIME_TO_CHANGE};

verus! {

/// Everything the opening of a round reads and writes.
#[derive(Clone, Copy, Debug, PartialEq, Eq)]
pub struct CreateRoundContext {
    /// The program that the round will belong to.
    pub program_id: Address,
    /// The caller, who becomes the round's authority.
    pub authority: Address,
    /// The address at which the round's collection will be created.
    pub collection: Address,
    /// The address presented as the one at which the round will live.
    pub round_key: Address,
    /// The round's record, still blank.
    pub round_account: Round,
    /// The bump of the round's derived address.
    pub round_bump: u8,
    /// Whether a round already lives at that address.
    pub occupied: bool,
    /// The clock, read once for this operation.
    pub now: u64,
}

impl CreateRoundContext {
    /// The round's record once the round is open: no key yet, no vault yet,
    /// the first countdown armed, the starting price step.
    pub open spec fn spec_opened(&self, seed: u64) -> Round {
        Round {
            authority: self.authority,
            seed,
            mint_counter: 0,
            nft_burn_counter: 0,
            round_close_timestamp: (self.now + TIME_TO_CHANGE) as u64,
            round_basic_mint_fee: self.round_account.round_basic_mint_fee,
            round_increment: INCREMENT_AMOUNT,
            main_pool_vault: Address::spec_zero(),
            nft_pool_vault: Address::spec_zero(),
            mint_fee_vault: Address::spec_zero(),
            collection: self.collection,
            bump: self.round_bump,
        }
    }

    /// The collection that is created for the round.
    pub open spec fn spec_collection(&self, name: Seq<char>, uri: Seq<char>) -> CollectionCreationView {
        CollectionCreationView {
            collection: self.collection,
            payer: self.authority,
            update_authority: self.round_key,
            name,
            uri,
            plugins: Config::spec_collection(self.round_key).plugins,
        }
    }

    /// The outcome of the opening, but for the collection's label.
    pub open spec fn spec_check(&self, seed: u64) -> Result<(), Failure> {
        if !spec_round_lives_at(seed, self.round_bump, self.program_id, self.round_key) {
            Err(Failure::AccountMismatch)
        } else if self.occupied {
            Err(Failure::AlreadyExists)
        } else if self.now + TIME_TO_CHANGE > u64::MAX {
            Err(Failure::Program(FomoErrors::CalculationError))
        } else {
            Ok(())
        }
    }

    /// Opens a round under `seed` and describes the collection to create for
    /// it under the given label.
    ///
    /// `AccountMismatch` if the address presented is not the one the program
    /// derives from the seed; `AlreadyExists` if a round already lives there;
    /// `CalculationError` if the first deadline does not fit a `u64`. On any
    /// refusal nothing changes.
    pub fn create_round(ctx: &mut CreateRoundContext, seed: u64, name: String, uri: String) -> (made:
        Result<CollectionCreation, Failure>)
        ensures
            made is Ok <==> old(ctx).spec_check(seed) is Ok,
            made is Err ==> made->Err_0 == old(ctx).spec_check(seed)->Err_0,
            made is Ok ==> made->Ok_0@ == old(ctx).spec_collection(name@, uri@),
            made is Ok ==> *final(ctx) == (CreateRoundContext {
                round_account: old(ctx).spec_opened(seed),
                ..*old(ctx)
            }),
            made is Ok ==> final(ctx).round_account.wf(),
            made is Ok ==> final(ctx).round_account.spec_vaults_unset(),
            made is Err ==> *final(ctx) == *old(ctx),
    {
        if !round_lives_at(seed, ctx.round_bump, &ctx.program_id, &ctx.round_key) {
            return Err(Failure::AccountMismatch);
        }
        if ctx.occupied {
            return Err(Failure::AlreadyExists);
        }
        let close = match ctx.now.checked_add(TIME_TO_CHANGE) {
            Some(c) => c,
            None => {
                return Err(Failure::Program(FomoErrors::CalculationError));
            },
        };
        ctx.round_account.create(
            RoundCreateArgs {
                seed,
                authority: ctx.authority,
                bump: ctx.round_bump,
                mint_fee_vault: Address::zero(),
                nft_pool_vault: Address::zero(),
                main_pool_vault: Address::zero(),
                round_close_timestamp: close,
                round_increment: INCREMENT_AMOUNT,
                collection: ctx.collection,
            },
        );
        let config = Config::get_collection(ctx.round_key);
        Ok(
            CollectionCreation {
                collection: ctx.collection,
                payer: ctx.authority,
                update_authority: ctx.round_key,
                name,
                uri,
                plugins: config.plugins,
            },
        )
    }
}

} // verus!
