//! Starting a round: its authority is issued the first key, free of charge,
//! and the countdown begins.

use vstd::prelude::*;
use crate::accounts::{Address, TokenAccount};
use crate::effects::{AssetCreation, AssetCreationView};
use crate::errors::{Failure, FomoErrors};
use crate::state::{CreateKeyArgs, NftKey, Phase, Round};
use crate::utils::{Config, TIME_TO_CHANGE};

verus! {

/// Everything the start of a round reads and writes.
#[derive(Clone, Copy, Debug, PartialEq, Eq)]
pub struct StartRoundContext {
    /// The program that the round and its keys belong to.
    pub program_id: Address,
    /// The caller, who will own the first key.
    pub authority: Address,
    /// The asset to be issued for the first key.
    pub asset: Address,
    /// The address presented as the round's, under which it signs.
    pub round_key: Address,
    pub round_account: Round,
    /// The collection presented as the round's.
    pub collection: Address,
    /// The address at which the first key's record will live.
    pub key_address: Address,
    /// The record of the first key, still blank.
    pub key_account: NftKey,
    /// The bump of the first key's derived address.
    pub key_bump: u8,
    pub mint_fee_vault: TokenAccount,
    pub nft_pool_vault: TokenAccount,
    pub main_pool_vault: TokenAccount,
    /// The clock, read once for this operation.
    pub now: u64,
}

impl StartRoundContext {
    /// Whether the caller is the round's authority.
    pub open spec fn spec_authorized(&self) -> bool {
        self.authority == self.round_account.authority
    }

    /// Whether the round lives where the program derives it, the key's record
    /// lives where the program derives the round's next key, and the
    /// collection and the vaults handed in are the round's, which takes that
    /// the round has its vaults.
    pub open spec fn spec_accounts_match(&self) -> bool {
        &&& self.round_account.spec_lives_at(self.program_id, self.round_key)
        &&& self.round_account.mint_counter < u64::MAX ==> NftKey::spec_lives_at(
            self.round_key,
            (self.round_account.mint_counter + 1) as u64,
            self.key_bump,
            self.program_id,
            self.key_address,
        )
        &&& self.collection == self.round_account.collection
        &&& self.mint_fee_vault.spec_is_vault(self.round_account.mint_fee_vault)
        &&& self.nft_pool_vault.spec_is_vault(self.round_account.nft_pool_vault)
        &&& self.main_pool_vault.spec_is_vault(self.round_account.main_pool_vault)
    }

    /// What the accounts handed in say of the call.
    pub open spec fn spec_check_accounts(&self) -> Result<(), Failure> {
        if !self.spec_authorized() {
            Err(Failure::Unauthorized)
        } else if !self.spec_accounts_match() {
            Err(Failure::AccountMismatch)
        } else {
            Ok(())
        }
    }

    /// The first key, issued to the caller as the round's frozen, signed
    /// current key.
    pub open spec fn spec_asset_creation(&self) -> AssetCreationView {
        AssetCreationView {
            asset: self.asset,
            collection: self.collection,
            authority: self.round_key,
            payer: self.authority,
            owner: self.authority,
            config: Config::spec_master(self.round_key),
        }
    }

    /// The outcome of the start.
    pub open spec fn spec_start_round(&self) -> Result<AssetCreationView, Failure> {
        if self.spec_check_accounts() is Err {
            Err(self.spec_check_accounts()->Err_0)
        } else if self.round_account.mint_counter != 0 {
            Err(Failure::Program(FomoErrors::RoundStarted))
        } else if self.now + TIME_TO_CHANGE > u64::MAX {
            Err(Failure::Program(FomoErrors::CalculationError))
        } else {
            Ok(self.spec_asset_creation())
        }
    }

    /// The context after a start that went through: one key minted, the
    /// countdown armed, and the first key's record filled in.
    pub open spec fn spec_started(&self) -> StartRoundContext {
        StartRoundContext {
            round_account: Round {
                mint_counter: 1,
                round_close_timestamp: (self.now + TIME_TO_CHANGE) as u64,
                ..self.round_account
            },
            key_account: NftKey {
                nft_mint: self.asset,
                key_index: 1,
                exited: 0,
                bump: self.key_bump,
            },
            ..*self
        }
    }

    /// Checks caller and accounts: `Unauthorized` if the caller is not the
    /// round's authority, `AccountMismatch` if collection or vaults are not the
    /// round's.
    pub fn check_accounts(&self) -> (checked: Result<(), Failure>)
        ensures
            checked == self.spec_check_accounts(),
    {
        let next_key_there = match self.round_account.mint_counter.checked_add(1) {
            Some(next) => NftKey::lives_at(
                &self.round_key,
                next,
                self.key_bump,
                &self.program_id,
                &self.key_address,
            ),
            None => true,
        };
        if !(self.authority == self.round_account.authority) {
            Err(Failure::Unauthorized)
        } else if self.round_account.lives_at(&self.program_id, &self.round_key) && next_key_there
            && self.collection == self.round_account.collection && self.mint_fee_vault.is_vault(
            &self.round_account.mint_fee_vault,
        ) && self.nft_pool_vault.is_vault(&self.round_account.nft_pool_vault)
            && self.main_pool_vault.is_vault(&self.round_account.main_pool_vault) {
            Ok(())
        } else {
            Err(Failure::AccountMismatch)
        }
    }

    /// A round can be started only while it has no key; else `RoundStarted`.
    pub fn validate(&self) -> (checked: Result<(), Failure>)
        ensures
            self.round_account.mint_counter == 0 ==> checked == Ok::<(), Failure>(()),
            self.round_account.mint_counter != 0 ==> checked == Err::<(), Failure>(
                Failure::Program(FomoErrors::RoundStarted),
            ),
    {
        if self.round_account.mint_counter == 0 {
            Ok(())
        } else {
            Err(Failure::Program(FomoErrors::RoundStarted))
        }
    }

    /// Describes the issue of the first key.
    pub fn process_asset_creation(ctx: &StartRoundContext) -> (issue: AssetCreation)
        ensures
            issue@ == ctx.spec_asset_creation(),
    {
        let config = Config::get_master(ctx.round_key);
        AssetCreation {
            asset: ctx.asset,
            collection: ctx.collection,
            authority: ctx.round_key,
            payer: ctx.authority,
            owner: ctx.authority,
            config,
        }
    }

    /// Starts the round.
    ///
    /// On success the round has exactly one key, its countdown ends
    /// `TIME_TO_CHANGE` after now, the first key's record is filled in, and
    /// nothing is charged. On any refusal nothing changes.
    pub fn start_round(ctx: &mut StartRoundContext) -> (issue: Result<AssetCreation, Failure>)
        ensures
            issue is Ok <==> old(ctx).spec_start_round() is Ok,
            issue is Ok ==> issue->Ok_0@ == old(ctx).spec_start_round()->Ok_0,
            issue is Err ==> issue->Err_0 == old(ctx).spec_start_round()->Err_0,
            issue is Ok ==> *final(ctx) == old(ctx).spec_started(),
            issue is Err ==> *final(ctx) == *old(ctx),
            old(ctx).round_account.wf() ==> final(ctx).round_account.wf(),
    {
        match ctx.check_accounts() {
            Err(e) => {
                return Err(e);
            },
            Ok(_) => {},
        }
        match ctx.validate() {
            Err(e) => {
                return Err(e);
            },
            Ok(_) => {},
        }
        let close = match ctx.now.checked_add(TIME_TO_CHANGE) {
            Some(c) => c,
            None => {
                return Err(Failure::Program(FomoErrors::CalculationError));
            },
        };
        let current_counter: u64 = 1;
        ctx.round_account.mint_counter = 1;
        ctx.round_account.round_close_timestamp = close;
        ctx.key_account.create(
            CreateKeyArgs { nft_mint: ctx.asset, bump: ctx.key_bump, key_index: current_counter },
        );
        Ok(StartRoundContext::process_asset_creation(ctx))
    }
}

/// A start takes a round that has its vaults and no key, and leaves it
/// active with exactly one key. It cannot be started again.
pub proof fn lemma_start_moves_on(ctx: StartRoundContext)
    requires
        ctx.spec_start_round() is Ok,
    ensures
        ctx.round_account.spec_phase(ctx.now) == Phase::VaultsReady,
        ctx.spec_started().round_account.spec_phase(ctx.now) == Phase::Active,
        ctx.spec_started().round_account.mint_counter == 1,
        ctx.spec_started().key_account.key_index == 1,
        ctx.spec_started().spec_check_accounts() is Ok ==> ctx.spec_started().spec_start_round()
            == Err::<AssetCreationView, Failure>(Failure::Program(FomoErrors::RoundStarted)),
{
}

} // verus!
