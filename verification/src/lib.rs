//! An escalating-stake round game, as a state machine on plain values.
//!
//! Players mint keys at a rising price; every mint starts the countdown
//! again; whoever holds the last key when it runs out wins the main pool.
//! Holders of earlier keys may burn them for a share of a second pool.
//!
//! Each operation takes a context that holds what it reads, checks it,
//! changes the round and key records in it, and returns a description of the
//! transfers and asset changes to carry out. Nothing here moves value or
//! touches an asset itself.

use vstd::prelude::*;

pub mod accounts;
pub mod effects;
pub mod errors;
pub mod instructions;
pub mod state;
pub mod utils;

use crate::effects::{AssetCreation, CollectionCreation, Transfer};
use crate::errors::Failure;
use crate::instructions::burn_key::{BurnKeyContext, BurnPlan};
use crate::instructions::create_key::{CreateKeyContext, MintPlan};
use crate::instructions::create_round::CreateRoundContext;
use crate::instructions::create_vaults::CreateRoundVaultsContext;
use crate::instructions::fee_claim::FeeClaimContext;
use crate::instructions::start_round::StartRoundContext;
use crate::instructions::update_round::UpdateRoundContext;
use crate::instructions::winner_claim::WinnerClaimContext;
use crate::state::Round;

verus! {

/// Opens a round under `seed`; see [`CreateRoundContext::create_round`].
pub fn create_round(ctx: &mut CreateRoundContext, seed: u64, name: String, uri: String) -> (made:
    Result<CollectionCreation, Failure>)
    ensures
        made is Ok <==> old(ctx).spec_check(seed) is Ok,
        made is Err ==> made->Err_0 == old(ctx).spec_check(seed)->Err_0,
        made is Ok ==> made->Ok_0@ == old(ctx).spec_collection(name@, uri@),
        made is Ok ==> *final(ctx) == (CreateRoundContext {
            round_account: old(ctx).spec_opened(seed),
            ..*old(ctx)
        }),
        made is Ok ==> final(ctx).round_account.wf(),
        made is Err ==> *final(ctx) == *old(ctx),
{
    CreateRoundContext::create_round(ctx, seed, name, uri)
}

/// Gives a round its vaults; see [`CreateRoundVaultsContext::create_vaults`].
pub fn create_vaults(ctx: &mut CreateRoundVaultsContext) -> (done: Result<(), Failure>)
    ensures
        done == old(ctx).spec_create_vaults(),
        done is Ok ==> *final(ctx) == (CreateRoundVaultsContext {
            round_account: Round {
                mint_fee_vault: old(ctx).mint_fee_vault.key,
                nft_pool_vault: old(ctx).nft_pool_vault.key,
                main_pool_vault: old(ctx).main_pool_vault.key,
                ..old(ctx).round_account
            },
            ..*old(ctx)
        }),
        done is Err ==> *final(ctx) == *old(ctx),
        old(ctx).round_account.wf() ==> final(ctx).round_account.wf(),
{
    CreateRoundVaultsContext::create_vaults(ctx)
}

/// Starts a round; see [`StartRoundContext::start_round`].
pub fn start_round(ctx: &mut StartRoundContext) -> (issue: Result<AssetCreation, Failure>)
    ensures
        issue is Ok <==> old(ctx).spec_start_round() is Ok,
        issue is Ok ==> issue->Ok_0@ == old(ctx).spec_start_round()->Ok_0,
        issue is Err ==> issue->Err_0 == old(ctx).spec_start_round()->Err_0,
        issue is Ok ==> *final(ctx) == old(ctx).spec_started(),
        issue is Err ==> *final(ctx) == *old(ctx),
        old(ctx).round_account.wf() ==> final(ctx).round_account.wf(),
{
    StartRoundContext::start_round(ctx)
}

/// Changes the price step; see [`UpdateRoundContext::update_increment`].
pub fn update_increment(ctx: &mut UpdateRoundContext, increment_amount: u64) -> (done: Result<
    (),
    Failure,
>)
    ensures
        done == old(ctx).spec_check_accounts(),
        done is Ok ==> *final(ctx) == (UpdateRoundContext {
            round_account: Round { round_increment: increment_amount, ..old(ctx).round_account },
            ..*old(ctx)
        }),
        done is Err ==> *final(ctx) == *old(ctx),
        old(ctx).round_account.wf() ==> final(ctx).round_account.wf(),
{
    UpdateRoundContext::update_increment(ctx, increment_amount)
}

/// Mints the next key; see [`CreateKeyContext::create_key`].
pub fn create_key(ctx: &mut CreateKeyContext) -> (plan: Result<MintPlan, Failure>)
    ensures
        plan is Ok <==> old(ctx).spec_create_key() is Ok,
        plan is Ok ==> plan->Ok_0@ == old(ctx).spec_create_key()->Ok_0,
        plan is Err ==> plan->Err_0 == old(ctx).spec_create_key()->Err_0,
        plan is Ok ==> *final(ctx) == old(ctx).spec_minted(),
        plan is Err ==> *final(ctx) == *old(ctx),
        old(ctx).round_account.wf() ==> final(ctx).round_account.wf(),
{
    CreateKeyContext::create_key(ctx)
}

/// Burns a key for its payout; see [`BurnKeyContext::burn_key`].
pub fn burn_key(ctx: &mut BurnKeyContext) -> (plan: Result<BurnPlan, Failure>)
    ensures
        plan == old(ctx).spec_burn_key(),
        plan is Ok ==> *final(ctx) == old(ctx).spec_burned(),
        plan is Err ==> *final(ctx) == *old(ctx),
        old(ctx).round_account.wf() ==> final(ctx).round_account.wf(),
{
    BurnKeyContext::burn_key(ctx)
}

/// Pays the main pool to the winner; see [`WinnerClaimContext::winner_claim`].
pub fn winner_claim(ctx: &WinnerClaimContext) -> (sweep: Result<Transfer, Failure>)
    ensures
        sweep == ctx.spec_winner_claim(),
{
    WinnerClaimContext::winner_claim(ctx)
}

/// Pays the mint fees to the authority; see [`FeeClaimContext::fee_claim`].
pub fn fee_claim(ctx: &FeeClaimContext) -> (sweep: Result<Transfer, Failure>)
    ensures
        sweep == ctx.spec_fee_claim(),
{
    FeeClaimContext::fee_claim(ctx)
}

} // verus!
