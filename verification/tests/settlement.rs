use solana_program::pubkey::Pubkey;
use fomo_contract::accounts::{Address, AssetAccount, AssetRecord, CreatorSignature, TokenAccount, UpdateAuthority};
use fomo_contract::effects::Transfer;
use fomo_contract::errors::{Failure, FomoErrors};
use fomo_contract::instructions::fee_claim::FeeClaimContext;
use fomo_contract::instructions::round_claim::RoundClaimContext;
use fomo_contract::instructions::winner_claim::WinnerClaimContext;
use fomo_contract::state::{NftKey, Round};

fn addr(n: u8) -> Address {
    Address { bytes: [n; 32] }
}

fn program() -> Address {
    addr(200)
}

fn round_pda(seed: u64) -> (Address, u8) {
    let (key, bump) = Pubkey::find_program_address(
        &[b"round", &seed.to_le_bytes()],
        &Pubkey::new_from_array(program().bytes),
    );
    (Address { bytes: key.to_bytes() }, bump)
}

fn key_pda(round: Address, index: u64) -> (Address, u8) {
    let (key, bump) = Pubkey::find_program_address(
        &[b"key", &round.bytes, &index.to_le_bytes()],
        &Pubkey::new_from_array(program().bytes),
    );
    (Address { bytes: key.to_bytes() }, bump)
}

fn round_key() -> Address {
    round_pda(7).0
}

const AUTHORITY: u8 = 1;
const COLLECTION: u8 = 3;
const WINNER: u8 = 4;
const MAIN: u8 = 10;
const NFT: u8 = 11;
const FEE: u8 = 12;

fn vault(n: u8, amount: u64) -> TokenAccount {
    TokenAccount { key: addr(n), owner: round_key(), amount }
}

fn round() -> Round {
    Round {
        authority: addr(AUTHORITY),
        seed: 7,
        mint_counter: 5,
        nft_burn_counter: 2,
        round_close_timestamp: 10_000,
        round_basic_mint_fee: 0,
        round_increment: 500_000,
        main_pool_vault: addr(MAIN),
        nft_pool_vault: addr(NFT),
        mint_fee_vault: addr(FEE),
        collection: addr(COLLECTION),
        bump: round_pda(7).1,
    }
}

fn encoded_asset(owner: Address, authority_tag: u8, authority: Address) -> Vec<u8> {
    let mut data: Vec<u8> = vec![1];
    data.extend_from_slice(&owner.bytes);
    data.push(authority_tag);
    if authority_tag != 0 {
        data.extend_from_slice(&authority.bytes);
    }
    data.extend_from_slice(&(10u32).to_le_bytes());
    data.extend_from_slice(b"Master Key");
    data.extend_from_slice(&(0u32).to_le_bytes());
    data.push(1);
    data.extend_from_slice(&(77u64).to_le_bytes());
    data
}

fn fee_ctx(now: u64, balance: u64) -> FeeClaimContext {
    FeeClaimContext {
        program_id: program(),
        authority: addr(AUTHORITY),
        authority_ata: TokenAccount { key: addr(31), owner: addr(AUTHORITY), amount: 5 },
        round_key: round_key(),
        round_account: round(),
        mint_fee_vault: vault(FEE, balance),
        now,
    }
}

fn winner_ctx(now: u64, balance: u64) -> WinnerClaimContext {
    WinnerClaimContext {
        program_id: program(),
        authority: addr(AUTHORITY),
        winner: addr(WINNER),
        winner_ata: TokenAccount { key: addr(32), owner: addr(WINNER), amount: 0 },
        round_key: round_key(),
        round_account: round(),
        asset: AssetAccount {
            key: addr(25),
            data: encoded_asset(addr(WINNER), 2, addr(COLLECTION)),
            signatures: vec![CreatorSignature { address: round_key(), verified: true }],
        },
        key_address: key_pda(round_key(), 5).0,
        key_account: NftKey {
            nft_mint: addr(25),
            key_index: 5,
            exited: 0,
            bump: key_pda(round_key(), 5).1,
        },
        main_pool_vault: vault(MAIN, balance),
        now,
    }
}

#[test]
fn fee_claim_before_the_countdown_is_over_is_refused() {
    assert_eq!(
        FeeClaimContext::fee_claim(&fee_ctx(9_999, 800)),
        Err(Failure::Program(FomoErrors::RoundNotOver))
    );
    assert_eq!(
        FeeClaimContext::fee_claim(&fee_ctx(10_000, 800)),
        Err(Failure::Program(FomoErrors::RoundNotOver))
    );
    assert_eq!(
        fee_ctx(10_000, 800).validate(),
        Err(Failure::Program(FomoErrors::RoundNotOver))
    );
}

#[test]
fn fee_claim_drains_the_vault_and_then_moves_nothing() {
    let first: FeeClaimContext = fee_ctx(10_001, 800);
    let sweep: Transfer = FeeClaimContext::fee_claim(&first).unwrap();
    assert_eq!(sweep, Transfer { from: addr(FEE), to: addr(31), amount: 800 });
    let second = FeeClaimContext { mint_fee_vault: sweep.debit(&first.mint_fee_vault), now: 10_050, ..first };
    assert_eq!(second.mint_fee_vault.amount, 0);
    assert_eq!(
        FeeClaimContext::fee_claim(&second),
        Ok(Transfer { from: addr(FEE), to: addr(31), amount: 0 })
    );
}

#[test]
fn fee_claim_is_for_the_authority_only() {
    let stranger = FeeClaimContext {
        authority: addr(99),
        authority_ata: TokenAccount { key: addr(33), owner: addr(99), amount: 0 },
        ..fee_ctx(10_001, 800)
    };
    assert_eq!(FeeClaimContext::fee_claim(&stranger), Err(Failure::Unauthorized));
    let early_stranger = FeeClaimContext { now: 1, ..stranger };
    assert_eq!(FeeClaimContext::fee_claim(&early_stranger), Err(Failure::Unauthorized));
}

#[test]
fn fee_claim_refuses_accounts_that_are_not_the_rounds() {
    let other_vault = FeeClaimContext { mint_fee_vault: vault(MAIN, 800), ..fee_ctx(10_001, 800) };
    assert_eq!(FeeClaimContext::fee_claim(&other_vault), Err(Failure::AccountMismatch));
    let elsewhere = FeeClaimContext { round_key: addr(2), ..fee_ctx(10_001, 800) };
    assert_eq!(FeeClaimContext::fee_claim(&elsewhere), Err(Failure::AccountMismatch));
    let other_purse = FeeClaimContext {
        authority_ata: TokenAccount { key: addr(31), owner: addr(98), amount: 0 },
        ..fee_ctx(10_001, 800)
    };
    assert_eq!(FeeClaimContext::fee_claim(&other_purse), Err(Failure::AccountMismatch));
    assert_eq!(other_purse.check_accounts(), Err(Failure::AccountMismatch));
}

#[test]
fn winner_claim_before_the_countdown_is_over_is_refused() {
    assert_eq!(
        WinnerClaimContext::winner_claim(&winner_ctx(10_000, 5_000)),
        Err(Failure::Program(FomoErrors::RoundNotOver))
    );
    assert_eq!(
        WinnerClaimContext::winner_claim(&winner_ctx(0, 5_000)),
        Err(Failure::Program(FomoErrors::RoundNotOver))
    );
}

#[test]
fn winner_claim_drains_the_pool_and_then_moves_nothing() {
    let first: WinnerClaimContext = winner_ctx(10_001, 5_000);
    let sweep: Transfer = WinnerClaimContext::winner_claim(&first).unwrap();
    assert_eq!(sweep, Transfer { from: addr(MAIN), to: addr(32), amount: 5_000 });
    let second = WinnerClaimContext {
        main_pool_vault: sweep.debit(&first.main_pool_vault),
        now: 20_000,
        ..first
    };
    assert_eq!(
        WinnerClaimContext::winner_claim(&second),
        Ok(Transfer { from: addr(MAIN), to: addr(32), amount: 0 })
    );
}

#[test]
fn winner_claim_is_for_the_current_key_only() {
    let mut old_key: WinnerClaimContext = winner_ctx(10_001, 5_000);
    old_key.key_account.key_index = 4;
    old_key.key_account.bump = key_pda(round_key(), 4).1;
    old_key.key_address = key_pda(round_key(), 4).0;
    assert_eq!(WinnerClaimContext::winner_claim(&old_key), Err(Failure::AccountMismatch));
    let mut foreign_key: WinnerClaimContext = winner_ctx(10_001, 5_000);
    foreign_key.key_account.bump = key_pda(addr(2), 5).1;
    foreign_key.key_address = key_pda(addr(2), 5).0;
    assert_eq!(WinnerClaimContext::winner_claim(&foreign_key), Err(Failure::AccountMismatch));
    let mut elsewhere: WinnerClaimContext = winner_ctx(10_001, 5_000);
    elsewhere.program_id = addr(201);
    assert_eq!(WinnerClaimContext::winner_claim(&elsewhere), Err(Failure::AccountMismatch));
    let mut other_asset: WinnerClaimContext = winner_ctx(10_001, 5_000);
    other_asset.asset.key = addr(26);
    assert_eq!(WinnerClaimContext::winner_claim(&other_asset), Err(Failure::AccountMismatch));
    let mut other_pool: WinnerClaimContext = winner_ctx(10_001, 5_000);
    other_pool.main_pool_vault = vault(NFT, 5_000);
    assert_eq!(WinnerClaimContext::winner_claim(&other_pool), Err(Failure::AccountMismatch));
    let mut other_purse: WinnerClaimContext = winner_ctx(10_001, 5_000);
    other_purse.winner_ata.owner = addr(AUTHORITY);
    assert_eq!(WinnerClaimContext::winner_claim(&other_purse), Err(Failure::AccountMismatch));
}

#[test]
fn winner_claim_is_called_by_the_authority() {
    let mut ctx: WinnerClaimContext = winner_ctx(10_001, 5_000);
    ctx.authority = addr(WINNER);
    assert_eq!(WinnerClaimContext::winner_claim(&ctx), Err(Failure::Unauthorized));
}

#[test]
fn winner_claim_refuses_an_asset_of_another_collection() {
    let mut ctx: WinnerClaimContext = winner_ctx(10_001, 5_000);
    ctx.asset.data = encoded_asset(addr(WINNER), 2, addr(99));
    assert_eq!(
        WinnerClaimContext::winner_claim(&ctx),
        Err(Failure::Program(FomoErrors::InvalidAsset))
    );
    ctx.asset.data = encoded_asset(addr(WINNER), 1, addr(COLLECTION));
    assert_eq!(
        WinnerClaimContext::winner_claim(&ctx),
        Err(Failure::Program(FomoErrors::InvalidAsset))
    );
}

#[test]
fn winner_claim_refuses_an_asset_the_round_did_not_sign() {
    let mut unsigned: WinnerClaimContext = winner_ctx(10_001, 5_000);
    unsigned.asset.signatures = Vec::new();
    assert_eq!(
        WinnerClaimContext::winner_claim(&unsigned),
        Err(Failure::Program(FomoErrors::InvalidAsset))
    );
    let mut unverified: WinnerClaimContext = winner_ctx(10_001, 5_000);
    unverified.asset.signatures = vec![CreatorSignature { address: round_key(), verified: false }];
    assert_eq!(
        WinnerClaimContext::winner_claim(&unverified),
        Err(Failure::Program(FomoErrors::InvalidAsset))
    );
    let mut by_another: WinnerClaimContext = winner_ctx(10_001, 5_000);
    by_another.asset.signatures = vec![CreatorSignature { address: addr(98), verified: true }];
    assert_eq!(
        WinnerClaimContext::winner_claim(&by_another),
        Err(Failure::Program(FomoErrors::InvalidAsset))
    );
}

#[test]
fn winner_claim_pays_the_holder_of_the_key_and_nobody_else() {
    let mut ctx: WinnerClaimContext = winner_ctx(10_001, 5_000);
    ctx.asset.data = encoded_asset(addr(AUTHORITY), 2, addr(COLLECTION));
    assert_eq!(
        WinnerClaimContext::winner_claim(&ctx),
        Err(Failure::Program(FomoErrors::InvalidOwner))
    );
    assert_eq!(ctx.validate(), Err(Failure::Program(FomoErrors::InvalidOwner)));
}

#[test]
fn winner_claim_of_an_unreadable_asset_is_refused() {
    let mut ctx: WinnerClaimContext = winner_ctx(10_001, 5_000);
    ctx.asset.data = vec![0xff; 20];
    assert_eq!(WinnerClaimContext::winner_claim(&ctx), Err(Failure::AssetUnreadable));
}

#[test]
fn winner_claim_decides_on_the_record_it_is_given() {
    let mut ctx: WinnerClaimContext = winner_ctx(10_001, 5_000);
    ctx.asset.data = Vec::new();
    let record = AssetRecord {
        owner: addr(WINNER),
        update_authority: UpdateAuthority::Collection(addr(COLLECTION)),
    };
    assert_eq!(
        WinnerClaimContext::winner_claim_with(&ctx, Some(record)),
        Ok(Transfer { from: addr(MAIN), to: addr(32), amount: 5_000 })
    );
    assert_eq!(WinnerClaimContext::winner_claim_with(&ctx, None), Err(Failure::AssetUnreadable));
    assert_eq!(ctx.check_record(Some(record)), Ok(()));
}

#[test]
fn earlier_team_claim() {
    let r = fomo_contract::state::round::Round {
        authority: addr(AUTHORITY),
        seed: 7,
        mint_counter: 3,
        nft_burn_counter: 0,
        round_close_slot: 500,
        team_vault: addr(40),
        pool_vault: addr(41),
        treasure_vault: addr(42),
        collection: addr(COLLECTION),
        bump: round_pda(7).1,
    };
    let ctx = RoundClaimContext {
        program_id: program(),
        authority: addr(AUTHORITY),
        authority_ata: TokenAccount { key: addr(31), owner: addr(AUTHORITY), amount: 0 },
        round_key: round_key(),
        round_account: r,
        team_vault: vault(40, 900),
        now: 501,
    };
    let sweep: Transfer = RoundClaimContext::claim(&ctx).unwrap();
    assert_eq!(sweep, Transfer { from: addr(40), to: addr(31), amount: 900 });
    let again = RoundClaimContext { team_vault: sweep.debit(&ctx.team_vault), ..ctx };
    assert_eq!(RoundClaimContext::claim(&again).unwrap().amount, 0);
    let early = RoundClaimContext { now: 500, ..ctx };
    assert_eq!(RoundClaimContext::claim(&early), Err(Failure::Program(FomoErrors::RoundNotOver)));
    assert_eq!(early.validate(), Err(Failure::Program(FomoErrors::RoundNotOver)));
    let stranger = RoundClaimContext { authority: addr(99), ..ctx };
    assert_eq!(RoundClaimContext::claim(&stranger), Err(Failure::Unauthorized));
    let elsewhere = RoundClaimContext { round_key: addr(2), ..ctx };
    assert_eq!(RoundClaimContext::claim(&elsewhere), Err(Failure::AccountMismatch));
    let other = RoundClaimContext { team_vault: vault(41, 900), ..ctx };
    assert_eq!(RoundClaimContext::claim(&other), Err(Failure::AccountMismatch));
    assert_eq!(other.check_accounts(), Err(Failure::AccountMismatch));
}
