//! The round of the earlier rule set, which counts its countdown in slots and
//! keeps a team vault, a pool vault and a treasure vault.

use vstd::prelude::*;
use crate::accounts::Address;
use crate::state::{round_lives_at, spec_round_lives_at};

verus! {

/// One instance of the game under the earlier rule set.
#[derive(Clone, Copy, Debug, PartialEq, Eq)]
pub struct Round {
    /// Who may administer the round.
    pub authority: Address,
    /// Tells this round from every other.
    pub seed: u64,
    /// How many keys were ever minted.
    pub mint_counter: u64,
    /// How many keys were burned.
    pub nft_burn_counter: u64,
    /// The slot at which the countdown runs out.
    pub round_close_slot: u64,
    pub team_vault: Address,
    pub pool_vault: Address,
    pub treasure_vault: Address,
    /// The collection all keys of the round belong to.
    pub collection: Address,
    /// The bump of the round's derived address.
    pub bump: u8,
}

/// What a new round is made from.
#[derive(Clone, Copy, Debug, PartialEq, Eq)]
pub struct RoundCreateArgs {
    pub seed: u64,
    pub round_close_slot: u64,
    pub authority: Address,
    pub bump: u8,
    pub team_vault: Address,
    pub pool_vault: Address,
    pub treasure_vault: Address,
    pub collection: Address,
}

/// The two reserves of a round.
#[derive(Clone, Copy, Debug, PartialEq, Eq)]
pub struct RoundCreateReservesArgs {
    pub pool_vault: Address,
    pub treasure_vault: Address,
}

impl Round {
    /// The invariant of every round: no more keys were burned than minted.
    pub open spec fn wf(&self) -> bool {
        self.nft_burn_counter <= self.mint_counter
    }

    /// Whether the round can be settled at slot `now`.
    pub open spec fn spec_is_over(&self, now: u64) -> bool {
        now > self.round_close_slot
    }

    /// Whether `presented` is the address that `program` derives for this
    /// round.
    pub open spec fn spec_lives_at(&self, program: Address, presented: Address) -> bool {
        spec_round_lives_at(self.seed, self.bump, program, presented)
    }

    /// Whether `presented` is the address that `program` derives for this
    /// round.
    pub fn lives_at(&self, program: &Address, presented: &Address) -> (there: bool)
        ensures
            there == self.spec_lives_at(*program, *presented),
    {
        round_lives_at(self.seed, self.bump, program, presented)
    }

    /// Whether neither reserve is set yet.
    pub open spec fn spec_reserves_unset(&self) -> bool {
        self.pool_vault == Address::spec_zero() && self.treasure_vault == Address::spec_zero()
    }

    /// Whether neither reserve is set yet.
    pub fn reserves_unset(&self) -> (unset: bool)
        ensures
            unset == self.spec_reserves_unset(),
    {
        let zero = Address::zero();
        self.pool_vault == zero && self.treasure_vault == zero
    }

    /// Fills in a new round. Both counters start at zero.
    pub fn create(&mut self, args: RoundCreateArgs)
        ensures
            *final(self) == (Round {
                authority: args.authority,
                seed: args.seed,
                mint_counter: 0,
                nft_burn_counter: 0,
                round_close_slot: args.round_close_slot,
                team_vault: args.team_vault,
                pool_vault: args.pool_vault,
                treasure_vault: args.treasure_vault,
                collection: args.collection,
                bump: args.bump,
            }),
            final(self).wf(),
    {
        self.seed = args.seed;
        self.authority = args.authority;
        self.team_vault = args.team_vault;
        self.pool_vault = args.pool_vault;
        self.treasure_vault = args.treasure_vault;
        self.bump = args.bump;
        self.mint_counter = 0;
        self.round_close_slot = args.round_close_slot;
        self.nft_burn_counter = 0;
        self.collection = args.collection;
    }

    /// Records the two reserves and touches nothing else.
    pub fn create_reserves(&mut self, args: RoundCreateReservesArgs)
        ensures
            *final(self) == (Round {
                pool_vault: args.pool_vault,
                treasure_vault: args.treasure_vault,
                ..*old(self)
            }),
            final(self).wf() == old(self).wf(),
    {
        self.pool_vault = args.pool_vault;
        self.treasure_vault = args.treasure_vault;
    }
}

} // verus!
