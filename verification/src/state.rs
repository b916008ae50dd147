//! The two records of the game: the round and its keys.

use vstd::prelude::*;
use crate::accounts::{derive_address, derived_address, is_derived, spec_is_derived, spec_seed_bytes, Address};

pub mod key;
pub mod round;

verus! {

/// The seeds of a round's address, under which the round also signs: the word
/// "round", the round's seed as eight bytes, lowest first, and the bump.
pub open spec fn spec_round_seeds(seed: u64, bump: u8) -> Seq<Seq<u8>> {
    seq![
        seq![114u8, 111u8, 117u8, 110u8, 100u8],
        vstd::bytes::spec_u64_to_le_bytes(seed),
        seq![bump],
    ]
}

/// The seeds of a round's address.
pub fn round_seeds(seed: u64, bump: u8) -> (seeds: Vec<Vec<u8>>)
    ensures
        spec_seed_bytes(seeds@) == spec_round_seeds(seed, bump),
{
    let mut word: Vec<u8> = Vec::new();
    word.push(114u8);
    word.push(111u8);
    word.push(117u8);
    word.push(110u8);
    word.push(100u8);
    let mut last: Vec<u8> = Vec::new();
    last.push(bump);
    let mut seeds: Vec<Vec<u8>> = Vec::new();
    seeds.push(word);
    seeds.push(vstd::bytes::u64_to_le_bytes(seed));
    seeds.push(last);
    assert(spec_seed_bytes(seeds@) =~= spec_round_seeds(seed, bump)) by {
        assert(seeds@[0]@ =~= seq![114u8, 111u8, 117u8, 110u8, 100u8]);
        assert(seeds@[2]@ =~= seq![bump]);
    }
    seeds
}

/// Whether `presented` is the address that `program` derives for the round
/// with this seed and bump.
pub open spec fn spec_round_lives_at(seed: u64, bump: u8, program: Address, presented: Address) -> bool {
    spec_is_derived(derived_address(spec_round_seeds(seed, bump), program), presented)
}

/// Whether `presented` is the address that `program` derives for the round
/// with this seed and bump.
pub fn round_lives_at(seed: u64, bump: u8, program: &Address, presented: &Address) -> (there: bool)
    ensures
        there == spec_round_lives_at(seed, bump, *program, *presented),
{
    let seeds = round_seeds(seed, bump);
    is_derived(derive_address(&seeds, program), presented)
}

/// Where a round stands in its life at a given time.
#[derive(Clone, Copy, Debug, PartialEq, Eq, Structural)]
pub enum Phase {
    /// Opened, without vaults and without a key.
    Empty,
    /// Has its vaults, waits for its first key.
    VaultsReady,
    /// Has a key and the countdown runs: the next key can be minted.
    Active,
    /// Has a key and the countdown has run out: no key can be minted any more.
    Closed,
}

/// One instance of the game.
#[derive(Clone, Copy, Debug, PartialEq, Eq)]
pub struct Round {
    /// Who may administer the round.
    pub authority: Address,
    /// Tells this round from every other; the round's address is derived from it.
    pub seed: u64,
    /// How many keys were ever minted; also the index of the current key.
    pub mint_counter: u64,
    /// How many keys were burned.
    pub nft_burn_counter: u64,
    /// When the countdown runs out. Every mint moves it.
    pub round_close_timestamp: u64,
    /// The base fee of a mint.
    pub round_basic_mint_fee: u64,
    /// By how much the price grows from one key to the next.
    pub round_increment: u64,
    /// The vault the winner is paid from.
    pub main_pool_vault: Address,
    /// The vault that burned keys are paid from.
    pub nft_pool_vault: Address,
    /// The vault that collects the mint fees.
    pub mint_fee_vault: Address,
    /// The collection all keys of the round belong to.
    pub collection: Address,
    /// The bump of the round's derived address.
    pub bump: u8,
}

/// What a new round is made from.
#[derive(Clone, Copy, Debug, PartialEq, Eq)]
pub struct RoundCreateArgs {
    pub seed: u64,
    pub authority: Address,
    pub bump: u8,
    pub mint_fee_vault: Address,
    pub nft_pool_vault: Address,
    pub main_pool_vault: Address,
    pub round_close_timestamp: u64,
    pub round_increment: u64,
    pub collection: Address,
}

/// The three vaults of a round.
#[derive(Clone, Copy, Debug, PartialEq, Eq)]
pub struct RoundCreateVaultsArgs {
    pub mint_fee_vault: Address,
    pub nft_pool_vault: Address,
    pub main_pool_vault: Address,
}

/// A new price step.
#[derive(Clone, Copy, Debug, PartialEq, Eq)]
pub struct UpdateRoundIncrementArg {
    pub round_increment: u64,
}

impl Round {
    /// The invariant of every round: no more keys were burned than minted.
    pub open spec fn wf(&self) -> bool {
        self.nft_burn_counter <= self.mint_counter
    }

    /// The round as storage hands it out before anything is written: all zero.
    pub open spec fn spec_default() -> Round {
        Round {
            authority: Address::spec_zero(),
            seed: 0,
            mint_counter: 0,
            nft_burn_counter: 0,
            round_close_timestamp: 0,
            round_basic_mint_fee: 0,
            round_increment: 0,
            main_pool_vault: Address::spec_zero(),
            nft_pool_vault: Address::spec_zero(),
            mint_fee_vault: Address::spec_zero(),
            collection: Address::spec_zero(),
            bump: 0,
        }
    }

    /// Whether none of the three vaults is set yet.
    pub open spec fn spec_vaults_unset(&self) -> bool {
        &&& self.main_pool_vault == Address::spec_zero()
        &&& self.nft_pool_vault == Address::spec_zero()
        &&& self.mint_fee_vault == Address::spec_zero()
    }

    /// Whether none of the three vaults is set yet.
    pub fn vaults_unset(&self) -> (unset: bool)
        ensures
            unset == self.spec_vaults_unset(),
    {
        let zero = Address::zero();
        self.main_pool_vault == zero && self.nft_pool_vault == zero && self.mint_fee_vault == zero
    }

    /// Whether keys can be minted at `now`: the countdown has not run out.
    pub open spec fn spec_is_active(&self, now: u64) -> bool {
        now < self.round_close_timestamp
    }

    /// Whether keys can be minted at `now`.
    pub fn is_active(&self, now: u64) -> (active: bool)
        ensures
            active == self.spec_is_active(now),
    {
        now < self.round_close_timestamp
    }

    /// Where the round stands in its life at `now`.
    pub open spec fn spec_phase(&self, now: u64) -> Phase {
        if self.mint_counter == 0 {
            if self.spec_vaults_unset() {
                Phase::Empty
            } else {
                Phase::VaultsReady
            }
        } else if self.spec_is_active(now) {
            Phase::Active
        } else {
            Phase::Closed
        }
    }

    /// Where the round stands in its life at `now`.
    pub fn phase(&self, now: u64) -> (phase: Phase)
        ensures
            phase == self.spec_phase(now),
    {
        if self.mint_counter == 0 {
            if self.vaults_unset() {
                Phase::Empty
            } else {
                Phase::VaultsReady
            }
        } else if self.is_active(now) {
            Phase::Active
        } else {
            Phase::Closed
        }
    }

    /// Whether the round can be settled at `now`: the countdown is behind us.
    pub open spec fn spec_is_over(&self, now: u64) -> bool {
        now > self.round_close_timestamp
    }

    /// Whether the round can be settled at `now`.
    pub fn is_over(&self, now: u64) -> (over: bool)
        ensures
            over == self.spec_is_over(now),
    {
        now > self.round_close_timestamp
    }

    /// How many keys are still held: minted and not burned.
    pub open spec fn spec_holders(&self) -> int {
        self.mint_counter - self.nft_burn_counter
    }

    /// The seeds under which the round signs.
    pub open spec fn spec_signer_seeds(&self) -> Seq<Seq<u8>> {
        spec_round_seeds(self.seed, self.bump)
    }

    /// The seeds under which the round signs.
    pub fn signer_seeds(&self) -> (seeds: Vec<Vec<u8>>)
        ensures
            spec_seed_bytes(seeds@) == self.spec_signer_seeds(),
    {
        round_seeds(self.seed, self.bump)
    }

    /// Whether `presented` is the address that `program` derives for this
    /// round.
    pub open spec fn spec_lives_at(&self, program: Address, presented: Address) -> bool {
        spec_round_lives_at(self.seed, self.bump, program, presented)
    }

    /// Whether `presented` is the address that `program` derives for this
    /// round.
    pub fn lives_at(&self, program: &Address, presented: &Address) -> (there: bool)
        ensures
            there == self.spec_lives_at(*program, *presented),
    {
        round_lives_at(self.seed, self.bump, program, presented)
    }

    /// Fills in a new round. Both counters start at zero; the base fee is left
    /// as it was.
    pub fn create(&mut self, args: RoundCreateArgs)
        ensures
            *final(self) == (Round {
                authority: args.authority,
                seed: args.seed,
                mint_counter: 0,
                nft_burn_counter: 0,
                round_close_timestamp: args.round_close_timestamp,
                round_basic_mint_fee: old(self).round_basic_mint_fee,
                round_increment: args.round_increment,
                main_pool_vault: args.main_pool_vault,
                nft_pool_vault: args.nft_pool_vault,
                mint_fee_vault: args.mint_fee_vault,
                collection: args.collection,
                bump: args.bump,
            }),
            final(self).wf(),
    {
        self.seed = args.seed;
        self.authority = args.authority;
        self.bump = args.bump;
        self.mint_fee_vault = args.mint_fee_vault;
        self.nft_pool_vault = args.nft_pool_vault;
        self.main_pool_vault = args.main_pool_vault;
        self.round_close_timestamp = args.round_close_timestamp;
        self.round_increment = args.round_increment;
        self.mint_counter = 0;
        self.nft_burn_counter = 0;
        self.collection = args.collection;
    }

    /// Records the three vaults and touches nothing else.
    pub fn create_vaults(&mut self, args: RoundCreateVaultsArgs)
        ensures
            *final(self) == (Round {
                mint_fee_vault: args.mint_fee_vault,
                nft_pool_vault: args.nft_pool_vault,
                main_pool_vault: args.main_pool_vault,
                ..*old(self)
            }),
            final(self).wf() == old(self).wf(),
    {
        self.mint_fee_vault = args.mint_fee_vault;
        self.nft_pool_vault = args.nft_pool_vault;
        self.main_pool_vault = args.main_pool_vault;
    }

    /// Sets the price step and touches nothing else.
    pub fn update_increment(&mut self, args: UpdateRoundIncrementArg)
        ensures
            *final(self) == (Round { round_increment: args.round_increment, ..*old(self) }),
            final(self).wf() == old(self).wf(),
    {
        self.round_increment = args.round_increment;
    }
}

impl Default for Round {
    fn default() -> (round: Round)
        ensures
            round == Round::spec_default(),
            round.wf(),
    {
        Round {
            authority: Address::zero(),
            seed: 0,
            mint_counter: 0,
            nft_burn_counter: 0,
            round_close_timestamp: 0,
            round_basic_mint_fee: 0,
            round_increment: 0,
            main_pool_vault: Address::zero(),
            nft_pool_vault: Address::zero(),
            mint_fee_vault: Address::zero(),
            collection: Address::zero(),
            bump: 0,
        }
    }
}

/// One minted key.
#[derive(Clone, Copy, Debug, PartialEq, Eq)]
pub struct NftKey {
    /// The asset that stands for the key.
    pub nft_mint: Address,
    /// The key's place in the mint sequence, starting at 1.
    pub key_index: u64,
    /// 0 while the key is held, 1 once it was burned for its payout.
    pub exited: u8,
    /// The bump of the key's derived address.
    pub bump: u8,
}

/// What a new key is made from.
#[derive(Clone, Copy, Debug, PartialEq, Eq)]
pub struct CreateKeyArgs {
    pub nft_mint: Address,
    pub key_index: u64,
    pub bump: u8,
}

impl NftKey {
    /// The key as storage hands it out before anything is written: all zero.
    pub open spec fn spec_default() -> NftKey {
        NftKey { nft_mint: Address::spec_zero(), key_index: 0, exited: 0, bump: 0 }
    }

    /// The seeds of a key's address: the word "key", the round's address, the
    /// key's index as eight bytes, lowest first, and the bump.
    pub open spec fn spec_seeds(round: Address, key_index: u64, bump: u8) -> Seq<Seq<u8>> {
        seq![
            seq![107u8, 101u8, 121u8],
            round.bytes@,
            vstd::bytes::spec_u64_to_le_bytes(key_index),
            seq![bump],
        ]
    }

    /// The seeds of a key's address.
    pub fn seeds(round: &Address, key_index: u64, bump: u8) -> (seeds: Vec<Vec<u8>>)
        ensures
            spec_seed_bytes(seeds@) == NftKey::spec_seeds(*round, key_index, bump),
    {
        let mut word: Vec<u8> = Vec::new();
        word.push(107u8);
        word.push(101u8);
        word.push(121u8);
        let mut last: Vec<u8> = Vec::new();
        last.push(bump);
        let mut seeds: Vec<Vec<u8>> = Vec::new();
        seeds.push(word);
        seeds.push(round.to_vec());
        seeds.push(vstd::bytes::u64_to_le_bytes(key_index));
        seeds.push(last);
        assert(spec_seed_bytes(seeds@) =~= NftKey::spec_seeds(*round, key_index, bump)) by {
            assert(seeds@[0]@ =~= seq![107u8, 101u8, 121u8]);
            assert(seeds@[3]@ =~= seq![bump]);
        }
        seeds
    }

    /// Whether `presented` is the address that `program` derives for the key
    /// of `round` with this index and bump.
    pub open spec fn spec_lives_at(
        round: Address,
        key_index: u64,
        bump: u8,
        program: Address,
        presented: Address,
    ) -> bool {
        spec_is_derived(
            derived_address(NftKey::spec_seeds(round, key_index, bump), program),
            presented,
        )
    }

    /// Whether `presented` is the address that `program` derives for the key
    /// of `round` with this index and bump.
    pub fn lives_at(
        round: &Address,
        key_index: u64,
        bump: u8,
        program: &Address,
        presented: &Address,
    ) -> (there: bool)
        ensures
            there == NftKey::spec_lives_at(*round, key_index, bump, *program, *presented),
    {
        let seeds = NftKey::seeds(round, key_index, bump);
        is_derived(derive_address(&seeds, program), presented)
    }

    /// Whether the key was burned for its payout.
    pub open spec fn spec_has_exited(&self) -> bool {
        self.exited == 1
    }

    /// Whether the key was burned for its payout.
    pub fn has_exited(&self) -> (gone: bool)
        ensures
            gone == self.spec_has_exited(),
    {
        self.exited == 1
    }

    /// Fills in a new key, which starts out held.
    pub fn create(&mut self, args: CreateKeyArgs)
        ensures
            *final(self) == (NftKey {
                nft_mint: args.nft_mint,
                key_index: args.key_index,
                exited: 0,
                bump: args.bump,
            }),
            !final(self).spec_has_exited(),
    {
        self.nft_mint = args.nft_mint;
        self.key_index = args.key_index;
        self.bump = args.bump;
        self.exited = 0;
    }
}

impl Default for NftKey {
    fn default() -> (key: NftKey)
        ensures
            key == NftKey::spec_default(),
    {
        NftKey { nft_mint: Address::zero(), key_index: 0, exited: 0, bump: 0 }
    }
}

} // verus!
