//! Minting the next key: the price is charged and split over the three
//! vaults, the countdown starts again, a new current key is issued and the one
//! before it is retired to a collector's piece.

use vstd::prelude::*;
use crate::accounts::{Address, TokenAccount};
use crate::effects::{AssetCreation, AssetCreationView, AssetUpdate, AssetUpdateView, Swap, Transfer};
use crate::errors::{Failure, FomoErrors};
use crate::state::{CreateKeyArgs, NftKey, Phase, Round};
use crate::utils::{
    key_price, spec_fee_share, spec_key_price, split, Config, FeeSplit, spec_split_fits,
    MAIN_FEE_BASIS_POINTS, MINT_FEE_BASIS_POINTS, NFT_FEE_BASIS_POINTS, TIME_TO_CHANGE,
};

verus! {

/// Everything a mint reads and writes.
#[derive(Clone, Debug, PartialEq, Eq)]
pub struct CreateKeyContext {
    /// The program that the round and its keys belong to.
    pub program_id: Address,
    /// The caller, who pays and will own the new key.
    pub authority: Address,
    /// The asset to be issued for the new key.
    pub asset: Address,
    /// The asset presented as the round's current key.
    pub current_asset: Address,
    /// The address presented as the round's, under which it signs.
    pub round_key: Address,
    pub round_account: Round,
    /// The collection presented as the round's.
    pub collection: Address,
    /// The address at which the new key's record will live.
    pub key_address: Address,
    /// The record of the new key, still blank.
    pub key_account: NftKey,
    /// The bump of the new key's derived address.
    pub key_bump: u8,
    /// The address presented as the current key's.
    pub current_key_address: Address,
    /// The record presented as the round's current key.
    pub current_key_account: NftKey,
    pub mint_fee_vault: TokenAccount,
    pub nft_pool_vault: TokenAccount,
    pub main_pool_vault: TokenAccount,
    /// The caller's account for the wrapped payment.
    pub user_source_token: TokenAccount,
    /// The clock, read once for this operation.
    pub now: u64,
}

/// What a mint asks to be carried out, in this order: take the price from the
/// payer into the wrapped account, convert the three shares into the vaults,
/// issue the new key, retire the one before it.
#[derive(Clone, Debug, PartialEq, Eq)]
pub struct MintPlan {
    pub price: u64,
    pub deposit: Transfer,
    pub swaps: Vec<Swap>,
    pub issue: AssetCreation,
    pub retire: AssetUpdate,
}

/// A mint plan as plain values.
pub struct MintPlanView {
    pub price: u64,
    pub deposit: Transfer,
    pub swaps: Seq<Swap>,
    pub issue: AssetCreationView,
    pub retire: AssetUpdateView,
}

impl View for MintPlan {
    type V = MintPlanView;

    open spec fn view(&self) -> MintPlanView {
        MintPlanView {
            price: self.price,
            deposit: self.deposit,
            swaps: self.swaps@,
            issue: self.issue@,
            retire: self.retire@,
        }
    }
}

impl CreateKeyContext {
    /// Whether the round lives where the program derives it, the accounts
    /// handed in are the ones the round records, the round has a current key
    /// to supersede, and the new key's record lives where the program derives
    /// the round's next key.
    pub open spec fn spec_accounts_match(&self) -> bool {
        &&& self.round_account.spec_lives_at(self.program_id, self.round_key)
        &&& NftKey::spec_lives_at(
            self.round_key,
            self.round_account.mint_counter,
            self.current_key_account.bump,
            self.program_id,
            self.current_key_address,
        )
        &&& self.round_account.mint_counter < u64::MAX ==> NftKey::spec_lives_at(
            self.round_key,
            (self.round_account.mint_counter + 1) as u64,
            self.key_bump,
            self.program_id,
            self.key_address,
        )
        &&& self.round_account.mint_counter > 0
        &&& self.current_key_account.key_index == self.round_account.mint_counter
        &&& self.current_asset == self.current_key_account.nft_mint
        &&& self.collection == self.round_account.collection
        &&& self.user_source_token.owner == self.authority
        &&& self.mint_fee_vault.spec_is_vault(self.round_account.mint_fee_vault)
        &&& self.nft_pool_vault.spec_is_vault(self.round_account.nft_pool_vault)
        &&& self.main_pool_vault.spec_is_vault(self.round_account.main_pool_vault)
    }

    /// The fee table of a mint: which share goes to which vault.
    pub open spec fn spec_fee_table(&self) -> Seq<FeeSplit> {
        seq![
            FeeSplit { bps: MAIN_FEE_BASIS_POINTS, destination: self.main_pool_vault.key },
            FeeSplit { bps: NFT_FEE_BASIS_POINTS, destination: self.nft_pool_vault.key },
            FeeSplit { bps: MINT_FEE_BASIS_POINTS, destination: self.mint_fee_vault.key },
        ]
    }

    /// The conversions that split `total_amount` over the three vaults. No
    /// least outcome is asked of any of them.
    pub open spec fn spec_swaps(&self, total_amount: u64) -> Seq<Swap> {
        Seq::new(
            3,
            |i: int|
                Swap {
                    destination: self.spec_fee_table()[i].destination,
                    amount_in: spec_fee_share(total_amount, self.spec_fee_table()[i].bps) as u64,
                    minimum_out: 0,
                },
        )
    }

    /// The index of the key that this mint creates.
    pub open spec fn spec_next_index(&self) -> int {
        self.round_account.mint_counter + 1
    }

    /// The price of the key that this mint creates.
    pub open spec fn spec_price(&self) -> int {
        spec_key_price(self.round_account.round_increment, self.spec_next_index() as u64)
    }

    /// Whether index, price, largest share and new deadline all fit a `u64`.
    pub open spec fn spec_in_range(&self) -> bool {
        &&& self.spec_next_index() <= u64::MAX
        &&& self.spec_price() <= u64::MAX
        &&& self.spec_price() * MAIN_FEE_BASIS_POINTS <= u64::MAX
        &&& self.now + TIME_TO_CHANGE <= u64::MAX
    }

    /// The new key and the retirement of the current one.
    pub open spec fn spec_asset_creation(&self) -> (AssetCreationView, AssetUpdateView) {
        (
            AssetCreationView {
                asset: self.asset,
                collection: self.collection,
                authority: self.round_key,
                payer: self.authority,
                owner: self.authority,
                config: Config::spec_master(self.round_key),
            },
            AssetUpdateView {
                asset: self.current_asset,
                collection: self.collection,
                authority: self.round_key,
                payer: self.authority,
                name: Config::spec_default(self.round_key).name,
                uri: Config::spec_default(self.round_key).uri,
                frozen: false,
            },
        )
    }

    /// The outcome of a mint.
    pub open spec fn spec_create_key(&self) -> Result<MintPlanView, Failure> {
        if !self.spec_accounts_match() {
            Err(Failure::AccountMismatch)
        } else if !self.round_account.spec_is_active(self.now) {
            Err(Failure::Program(FomoErrors::RoundOver))
        } else if !self.spec_in_range() {
            Err(Failure::Program(FomoErrors::CalculationError))
        } else {
            Ok(
                MintPlanView {
                    price: self.spec_price() as u64,
                    deposit: Transfer {
                        from: self.authority,
                        to: self.user_source_token.key,
                        amount: self.spec_price() as u64,
                    },
                    swaps: self.spec_swaps(self.spec_price() as u64),
                    issue: self.spec_asset_creation().0,
                    retire: self.spec_asset_creation().1,
                },
            )
        }
    }

    /// The context after a mint that went through: one more key minted, the
    /// countdown started again from now, and the new key's record filled in.
    pub open spec fn spec_minted(&self) -> CreateKeyContext {
        CreateKeyContext {
            round_account: Round {
                mint_counter: self.spec_next_index() as u64,
                round_close_timestamp: (self.now + TIME_TO_CHANGE) as u64,
                ..self.round_account
            },
            key_account: NftKey {
                nft_mint: self.asset,
                key_index: self.spec_next_index() as u64,
                exited: 0,
                bump: self.key_bump,
            },
            ..*self
        }
    }

    /// Checks that the accounts handed in are the ones the round records.
    pub fn check_accounts(&self) -> (checked: Result<(), Failure>)
        ensures
            self.spec_accounts_match() ==> checked == Ok::<(), Failure>(()),
            !self.spec_accounts_match() ==> checked == Err::<(), Failure>(Failure::AccountMismatch),
    {
        let next_key_there = match self.round_account.mint_counter.checked_add(1) {
            Some(next) => NftKey::lives_at(
                &self.round_key,
                next,
                self.key_bump,
                &self.program_id,
                &self.key_address,
            ),
            None => true,
        };
        if self.round_account.lives_at(&self.program_id, &self.round_key) && NftKey::lives_at(
            &self.round_key,
            self.round_account.mint_counter,
            self.current_key_account.bump,
            &self.program_id,
            &self.current_key_address,
        ) && next_key_there && self.round_account.mint_counter > 0
            && self.current_key_account.key_index
            == self.round_account.mint_counter && self.current_asset
            == self.current_key_account.nft_mint && self.collection == self.round_account.collection
            && self.user_source_token.owner == self.authority && self.mint_fee_vault.is_vault(
            &self.round_account.mint_fee_vault,
        ) && self.nft_pool_vault.is_vault(&self.round_account.nft_pool_vault)
            && self.main_pool_vault.is_vault(&self.round_account.main_pool_vault) {
            Ok(())
        } else {
            Err(Failure::AccountMismatch)
        }
    }

    /// A key can be minted only while the countdown runs; after it, `RoundOver`.
    pub fn validate(&self) -> (checked: Result<(), Failure>)
        ensures
            self.round_account.spec_is_active(self.now) ==> checked == Ok::<(), Failure>(()),
            !self.round_account.spec_is_active(self.now) ==> checked == Err::<(), Failure>(
                Failure::Program(FomoErrors::RoundOver),
            ),
    {
        if self.round_account.is_active(self.now) {
            Ok(())
        } else {
            Err(Failure::Program(FomoErrors::RoundOver))
        }
    }

    /// The fee table of a mint.
    pub fn fee_table(&self) -> (table: Vec<FeeSplit>)
        ensures
            table@ == self.spec_fee_table(),
    {
        let mut table: Vec<FeeSplit> = Vec::new();
        table.push(FeeSplit { bps: MAIN_FEE_BASIS_POINTS, destination: self.main_pool_vault.key });
        table.push(FeeSplit { bps: NFT_FEE_BASIS_POINTS, destination: self.nft_pool_vault.key });
        table.push(FeeSplit { bps: MINT_FEE_BASIS_POINTS, destination: self.mint_fee_vault.key });
        assert(table@ =~= self.spec_fee_table());
        table
    }

    /// Splits `total_amount` over the three vaults: one conversion per line of
    /// the fee table, in its order. `CalculationError` exactly when the largest
    /// share cannot be computed within a `u64`.
    pub fn process_fee_transfers(ctx: &CreateKeyContext, total_amount: u64) -> (swaps: Result<
        Vec<Swap>,
        FomoErrors,
    >)
        ensures
            total_amount * MAIN_FEE_BASIS_POINTS <= u64::MAX ==> swaps is Ok && swaps->Ok_0@
                == ctx.spec_swaps(total_amount),
            total_amount * MAIN_FEE_BASIS_POINTS > u64::MAX ==> swaps == Err::<
                Vec<Swap>,
                FomoErrors,
            >(FomoErrors::CalculationError),
    {
        let table = ctx.fee_table();
        proof {
            if total_amount * MAIN_FEE_BASIS_POINTS <= u64::MAX {
                assert(spec_split_fits(total_amount, table@)) by {
                    assert forall|i: int| 0 <= i < table@.len() implies total_amount * (
                    #[trigger] table@[i]).bps <= u64::MAX by {
                        assert(total_amount * table@[i].bps <= total_amount * 7000)
                            by (nonlinear_arith)
                            requires
                                0 <= table@[i].bps <= 7000,
                                0 <= total_amount,
                        ;
                    }
                }
            } else {
                assert(table@[0].bps == MAIN_FEE_BASIS_POINTS);
            }
        }
        match split(total_amount, &table) {
            Err(e) => Err(FomoErrors::CalculationError),
            Ok(amounts) => {
                let mut swaps: Vec<Swap> = Vec::new();
                let mut i: usize = 0;
                while i < 3
                    invariant
                        i <= 3,
                        table@ == ctx.spec_fee_table(),
                        amounts@.len() == 3,
                        swaps@.len() == i,
                        forall|j: int|
                            0 <= j < 3 ==> (#[trigger] amounts@[j]) == spec_fee_share(
                                total_amount,
                                table@[j].bps,
                            ),
                        forall|j: int|
                            0 <= j < i ==> (#[trigger] swaps@[j]) == ctx.spec_swaps(
                                total_amount,
                            )[j],
                    decreases 3 - i,
                {
                    swaps.push(
                        Swap {
                            destination: table[i].destination,
                            amount_in: amounts[i],
                            minimum_out: 0,
                        },
                    );
                    i += 1;
                }
                assert(swaps@ =~= ctx.spec_swaps(total_amount));
                Ok(swaps)
            },
        }
    }

    /// Describes the two changes to assets that a mint makes: the new key is
    /// issued to the caller as the round's frozen, signed current key; the key
    /// before it is relabelled a collector's piece and unfrozen, and stays
    /// with whoever owns it.
    pub fn process_asset_creation(ctx: &CreateKeyContext) -> (changes: (AssetCreation, AssetUpdate))
        ensures
            changes.0@ == ctx.spec_asset_creation().0,
            changes.1@ == ctx.spec_asset_creation().1,
    {
        let config_default = Config::get_default(ctx.round_key);
        let config_master = Config::get_master(ctx.round_key);
        let issue = AssetCreation {
            asset: ctx.asset,
            collection: ctx.collection,
            authority: ctx.round_key,
            payer: ctx.authority,
            owner: ctx.authority,
            config: config_master,
        };
        let retire = AssetUpdate {
            asset: ctx.current_asset,
            collection: ctx.collection,
            authority: ctx.round_key,
            payer: ctx.authority,
            name: config_default.name,
            uri: config_default.uri,
            frozen: false,
        };
        (issue, retire)
    }

    /// Mints the next key.
    ///
    /// On success the round counts one more key, its countdown ends exactly
    /// `TIME_TO_CHANGE` after now whatever it was before, the new key's record
    /// is filled in, and the plan charges the price of the new key. On any
    /// refusal nothing changes.
    pub fn create_key(ctx: &mut CreateKeyContext) -> (plan: Result<MintPlan, Failure>)
        ensures
            plan is Ok <==> old(ctx).spec_create_key() is Ok,
            plan is Ok ==> plan->Ok_0@ == old(ctx).spec_create_key()->Ok_0,
            plan is Err ==> plan->Err_0 == old(ctx).spec_create_key()->Err_0,
            plan is Ok ==> *final(ctx) == old(ctx).spec_minted(),
            plan is Ok ==> final(ctx).round_account.mint_counter == old(ctx).round_account.mint_counter
                + 1,
            plan is Ok ==> final(ctx).round_account.round_close_timestamp == old(ctx).now
                + TIME_TO_CHANGE,
            plan is Ok ==> plan->Ok_0.price == spec_key_price(
                old(ctx).round_account.round_increment,
                final(ctx).round_account.mint_counter,
            ),
            plan is Err ==> *final(ctx) == *old(ctx),
            old(ctx).round_account.wf() ==> final(ctx).round_account.wf(),
    {
        match ctx.check_accounts() {
            Err(e) => {
                return Err(e);
            },
            Ok(_) => {},
        }
        match ctx.validate() {
            Err(e) => {
                return Err(e);
            },
            Ok(_) => {},
        }
        let current_counter = match ctx.round_account.mint_counter.checked_add(1) {
            Some(c) => c,
            None => {
                return Err(Failure::Program(FomoErrors::CalculationError));
            },
        };
        let total_amount_for_index = match key_price(
            ctx.round_account.round_increment,
            current_counter,
        ) {
            Ok(p) => p,
            Err(e) => {
                return Err(Failure::Program(FomoErrors::CalculationError));
            },
        };
        let close = match ctx.now.checked_add(TIME_TO_CHANGE) {
            Some(c) => c,
            None => {
                return Err(Failure::Program(FomoErrors::CalculationError));
            },
        };
        let swaps = match CreateKeyContext::process_fee_transfers(ctx, total_amount_for_index) {
            Ok(s) => s,
            Err(e) => {
                return Err(Failure::Program(FomoErrors::CalculationError));
            },
        };
        let (issue, retire) = CreateKeyContext::process_asset_creation(ctx);
        let plan = MintPlan {
            price: total_amount_for_index,
            deposit: Transfer {
                from: ctx.authority,
                to: ctx.user_source_token.key,
                amount: total_amount_for_index,
            },
            swaps,
            issue,
            retire,
        };
        ctx.key_account.create(
            CreateKeyArgs { nft_mint: ctx.asset, bump: ctx.key_bump, key_index: current_counter },
        );
        ctx.round_account.mint_counter = current_counter;
        ctx.round_account.round_close_timestamp = close;
        Ok(plan)
    }
}

/// Once the countdown has run out, a mint whose accounts are in order is
/// refused with `RoundOver`.
pub proof fn lemma_mint_closed(ctx: CreateKeyContext)
    requires
        ctx.spec_accounts_match(),
        ctx.round_account.round_close_timestamp <= ctx.now,
    ensures
        ctx.spec_create_key() == Err::<MintPlanView, Failure>(
            Failure::Program(FomoErrors::RoundOver),
        ),
{
}

/// A mint that goes through counts exactly one more key, starts the countdown
/// again from now whatever it was before, charges the price of the new key,
/// and leaves no more keys burned than minted. The three shares it hands out
/// never add up to more than the price.
pub proof fn lemma_mint_advances(ctx: CreateKeyContext)
    requires
        ctx.spec_create_key() is Ok,
        ctx.round_account.wf(),
    ensures
        ctx.spec_minted().round_account.mint_counter == ctx.round_account.mint_counter + 1,
        ctx.spec_minted().round_account.round_close_timestamp == ctx.now + TIME_TO_CHANGE,
        ctx.spec_minted().round_account.wf(),
        ctx.spec_minted().key_account.key_index == ctx.spec_minted().round_account.mint_counter,
        ctx.spec_create_key()->Ok_0.price == spec_key_price(
            ctx.round_account.round_increment,
            ctx.spec_minted().round_account.mint_counter,
        ),
        ctx.spec_create_key()->Ok_0.swaps.len() == 3,
        ctx.spec_create_key()->Ok_0.swaps[0].amount_in + ctx.spec_create_key()->Ok_0.swaps[1].amount_in
            + ctx.spec_create_key()->Ok_0.swaps[2].amount_in
            <= ctx.spec_create_key()->Ok_0.price,
{
    let price = ctx.spec_create_key()->Ok_0.price;
    crate::utils::lemma_shares_within_gross(price);
    crate::utils::lemma_fee_share_bounded(price, MAIN_FEE_BASIS_POINTS);
    crate::utils::lemma_fee_share_bounded(price, NFT_FEE_BASIS_POINTS);
    crate::utils::lemma_fee_share_bounded(price, MINT_FEE_BASIS_POINTS);
}

/// A mint takes an active round and leaves it active.
pub proof fn lemma_mint_keeps_active(ctx: CreateKeyContext)
    requires
        ctx.spec_create_key() is Ok,
    ensures
        ctx.round_account.spec_phase(ctx.now) == Phase::Active,
        ctx.spec_minted().round_account.spec_phase(ctx.now) == Phase::Active,
{
}

} // verus!
