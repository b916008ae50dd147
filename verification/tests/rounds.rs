use solana_program::pubkey::Pubkey;
use fomo_contract::accounts::{Address, TokenAccount};
use fomo_contract::effects::{AssetCreation, CollectionCreation};
use fomo_contract::errors::{Failure, FomoErrors};
use fomo_contract::instructions::create_reserves::CreateRoundReservesContext;
use fomo_contract::instructions::create_round::CreateRoundContext;
use fomo_contract::instructions::create_vaults::CreateRoundVaultsContext;
use fomo_contract::instructions::start_round::StartRoundContext;
use fomo_contract::instructions::update_round::UpdateRoundContext;
use fomo_contract::state::{NftKey, Round};
use fomo_contract::utils::{Config, INCREMENT_AMOUNT, TIME_TO_CHANGE};

fn addr(n: u8) -> Address {
    Address { bytes: [n; 32] }
}

fn program() -> Address {
    addr(200)
}

fn round_pda(seed: u64) -> (Address, u8) {
    let (key, bump) = Pubkey::find_program_address(
        &[b"round", &seed.to_le_bytes()],
        &Pubkey::new_from_array(program().bytes),
    );
    (Address { bytes: key.to_bytes() }, bump)
}

fn key_pda(round: Address, index: u64) -> (Address, u8) {
    let (key, bump) = Pubkey::find_program_address(
        &[b"key", &round.bytes, &index.to_le_bytes()],
        &Pubkey::new_from_array(program().bytes),
    );
    (Address { bytes: key.to_bytes() }, bump)
}

fn round_key() -> Address {
    round_pda(7).0
}

const AUTHORITY: u8 = 1;
const COLLECTION: u8 = 3;
const MAIN: u8 = 10;
const NFT: u8 = 11;
const FEE: u8 = 12;

fn vault(n: u8, amount: u64) -> TokenAccount {
    TokenAccount { key: addr(n), owner: round_key(), amount }
}

fn opened_round() -> Round {
    Round {
        authority: addr(AUTHORITY),
        seed: 7,
        mint_counter: 0,
        nft_burn_counter: 0,
        round_close_timestamp: 1_000 + TIME_TO_CHANGE,
        round_basic_mint_fee: 0,
        round_increment: INCREMENT_AMOUNT,
        main_pool_vault: Address::zero(),
        nft_pool_vault: Address::zero(),
        mint_fee_vault: Address::zero(),
        collection: addr(COLLECTION),
        bump: round_pda(7).1,
    }
}

fn provisioned_round() -> Round {
    Round {
        main_pool_vault: addr(MAIN),
        nft_pool_vault: addr(NFT),
        mint_fee_vault: addr(FEE),
        ..opened_round()
    }
}

fn create_ctx() -> CreateRoundContext {
    CreateRoundContext {
        program_id: program(),
        authority: addr(AUTHORITY),
        collection: addr(COLLECTION),
        round_key: round_key(),
        round_account: Round::default(),
        round_bump: round_pda(7).1,
        occupied: false,
        now: 1_000,
    }
}

fn vaults_ctx() -> CreateRoundVaultsContext {
    CreateRoundVaultsContext {
        program_id: program(),
        authority: addr(AUTHORITY),
        round_key: round_key(),
        round_account: opened_round(),
        mint_fee_vault: vault(FEE, 0),
        nft_pool_vault: vault(NFT, 0),
        main_pool_vault: vault(MAIN, 0),
    }
}

fn start_ctx() -> StartRoundContext {
    StartRoundContext {
        program_id: program(),
        authority: addr(AUTHORITY),
        asset: addr(20),
        round_key: round_key(),
        round_account: provisioned_round(),
        collection: addr(COLLECTION),
        key_address: key_pda(round_key(), 1).0,
        key_account: NftKey::default(),
        key_bump: key_pda(round_key(), 1).1,
        mint_fee_vault: vault(FEE, 0),
        nft_pool_vault: vault(NFT, 0),
        main_pool_vault: vault(MAIN, 0),
        now: 5_000,
    }
}

#[test]
fn create_round_fills_the_record_and_describes_the_collection() {
    let mut ctx: CreateRoundContext = create_ctx();
    let made: CollectionCreation = CreateRoundContext::create_round(
        &mut ctx,
        7,
        String::from("Fomo"),
        String::from("https://example.invalid/c"),
    )
    .unwrap();
    assert_eq!(ctx.round_account, opened_round());
    assert_eq!(
        made,
        CollectionCreation {
            collection: addr(COLLECTION),
            payer: addr(AUTHORITY),
            update_authority: round_key(),
            name: String::from("Fomo"),
            uri: String::from("https://example.invalid/c"),
            plugins: Config::get_collection(round_key()).plugins,
        }
    );
    assert_eq!(ctx, CreateRoundContext { round_account: opened_round(), ..create_ctx() });
}

#[test]
fn create_round_refuses_an_occupied_seed() {
    let mut ctx: CreateRoundContext = CreateRoundContext { occupied: true, ..create_ctx() };
    let before: CreateRoundContext = ctx;
    assert_eq!(
        CreateRoundContext::create_round(&mut ctx, 7, String::new(), String::new()),
        Err(Failure::AlreadyExists)
    );
    assert_eq!(ctx, before);
}

#[test]
fn create_round_refuses_a_deadline_out_of_range() {
    let mut ctx: CreateRoundContext =
        CreateRoundContext { now: u64::MAX - TIME_TO_CHANGE + 1, ..create_ctx() };
    let before: CreateRoundContext = ctx;
    assert_eq!(
        CreateRoundContext::create_round(&mut ctx, 7, String::new(), String::new()),
        Err(Failure::Program(FomoErrors::CalculationError))
    );
    assert_eq!(ctx, before);
    let mut last: CreateRoundContext =
        CreateRoundContext { now: u64::MAX - TIME_TO_CHANGE, ..create_ctx() };
    assert!(CreateRoundContext::create_round(&mut last, 7, String::new(), String::new()).is_ok());
    assert_eq!(last.round_account.round_close_timestamp, u64::MAX);
}

#[test]
fn create_vaults_records_the_three_vaults() {
    let mut ctx: CreateRoundVaultsContext = vaults_ctx();
    assert_eq!(CreateRoundVaultsContext::create_vaults(&mut ctx), Ok(()));
    assert_eq!(ctx.round_account, provisioned_round());
}

#[test]
fn create_vaults_succeeds_only_once() {
    let mut ctx: CreateRoundVaultsContext = vaults_ctx();
    assert_eq!(CreateRoundVaultsContext::create_vaults(&mut ctx), Ok(()));
    let after_first: CreateRoundVaultsContext = ctx;
    ctx.mint_fee_vault = vault(30, 0);
    ctx.nft_pool_vault = vault(31, 0);
    ctx.main_pool_vault = vault(32, 0);
    assert_eq!(CreateRoundVaultsContext::create_vaults(&mut ctx), Err(Failure::AlreadyProvisioned));
    assert_eq!(ctx.round_account, after_first.round_account);
}

#[test]
fn create_vaults_is_for_the_authority_only() {
    let mut ctx: CreateRoundVaultsContext =
        CreateRoundVaultsContext { authority: addr(99), ..vaults_ctx() };
    assert_eq!(CreateRoundVaultsContext::create_vaults(&mut ctx), Err(Failure::Unauthorized));
    assert_eq!(ctx.round_account, opened_round());
}

#[test]
fn create_vaults_refuses_accounts_that_cannot_be_vaults() {
    let mut same: CreateRoundVaultsContext =
        CreateRoundVaultsContext { nft_pool_vault: vault(MAIN, 0), ..vaults_ctx() };
    assert_eq!(CreateRoundVaultsContext::create_vaults(&mut same), Err(Failure::AccountMismatch));
    let mut unset: CreateRoundVaultsContext =
        CreateRoundVaultsContext { mint_fee_vault: vault(0, 0), ..vaults_ctx() };
    assert_eq!(CreateRoundVaultsContext::create_vaults(&mut unset), Err(Failure::AccountMismatch));
    let mut foreign: CreateRoundVaultsContext = CreateRoundVaultsContext {
        main_pool_vault: TokenAccount { key: addr(MAIN), owner: addr(98), amount: 0 },
        ..vaults_ctx()
    };
    assert_eq!(CreateRoundVaultsContext::create_vaults(&mut foreign), Err(Failure::AccountMismatch));
    assert_eq!(foreign.round_account, opened_round());
}

#[test]
fn start_round_issues_the_first_key_free_of_charge() {
    let mut ctx: StartRoundContext = start_ctx();
    let issue: AssetCreation = StartRoundContext::start_round(&mut ctx).unwrap();
    assert_eq!(ctx.round_account.mint_counter, 1);
    assert_eq!(ctx.round_account.nft_burn_counter, 0);
    assert_eq!(ctx.round_account.round_close_timestamp, 5_000 + TIME_TO_CHANGE);
    assert_eq!(ctx.key_account, NftKey { nft_mint: addr(20), key_index: 1, exited: 0, bump: key_pda(round_key(), 1).1 });
    assert_eq!(
        issue,
        AssetCreation {
            asset: addr(20),
            collection: addr(COLLECTION),
            authority: round_key(),
            payer: addr(AUTHORITY),
            owner: addr(AUTHORITY),
            config: Config::get_master(round_key()),
        }
    );
    assert_eq!(
        ctx.round_account,
        Round {
            mint_counter: 1,
            round_close_timestamp: 5_000 + TIME_TO_CHANGE,
            ..provisioned_round()
        }
    );
}

#[test]
fn start_round_refuses_a_round_that_has_a_key() {
    let mut ctx: StartRoundContext = start_ctx();
    assert!(StartRoundContext::start_round(&mut ctx).is_ok());
    ctx.key_account = NftKey::default();
    ctx.asset = addr(21);
    ctx.key_address = key_pda(round_key(), 2).0;
    ctx.key_bump = key_pda(round_key(), 2).1;
    let before: StartRoundContext = ctx;
    assert_eq!(
        StartRoundContext::start_round(&mut ctx),
        Err(Failure::Program(FomoErrors::RoundStarted))
    );
    assert_eq!(ctx, before);
    assert_eq!(ctx.validate(), Err(Failure::Program(FomoErrors::RoundStarted)));
}

#[test]
fn start_round_is_for_the_authority_only() {
    let mut ctx: StartRoundContext = StartRoundContext { authority: addr(99), ..start_ctx() };
    assert_eq!(StartRoundContext::start_round(&mut ctx), Err(Failure::Unauthorized));
    assert_eq!(ctx.round_account.mint_counter, 0);
}

#[test]
fn start_round_needs_the_round_to_have_its_vaults() {
    let mut ctx: StartRoundContext = StartRoundContext {
        round_account: opened_round(),
        mint_fee_vault: vault(0, 0),
        nft_pool_vault: vault(0, 0),
        main_pool_vault: vault(0, 0),
        ..start_ctx()
    };
    assert_eq!(StartRoundContext::start_round(&mut ctx), Err(Failure::AccountMismatch));
    let mut wrong: StartRoundContext = StartRoundContext { collection: addr(77), ..start_ctx() };
    assert_eq!(StartRoundContext::start_round(&mut wrong), Err(Failure::AccountMismatch));
    let mut other: StartRoundContext = StartRoundContext { nft_pool_vault: vault(MAIN, 0), ..start_ctx() };
    assert_eq!(StartRoundContext::start_round(&mut other), Err(Failure::AccountMismatch));
}

#[test]
fn start_round_refuses_a_deadline_out_of_range() {
    let mut ctx: StartRoundContext = StartRoundContext { now: u64::MAX, ..start_ctx() };
    let before: StartRoundContext = ctx;
    assert_eq!(
        StartRoundContext::start_round(&mut ctx),
        Err(Failure::Program(FomoErrors::CalculationError))
    );
    assert_eq!(ctx, before);
}

#[test]
fn update_increment_is_a_plain_write_by_the_authority() {
    let mut ctx = UpdateRoundContext {
        program_id: program(),
        authority: addr(AUTHORITY),
        round_key: round_key(),
        round_account: provisioned_round(),
    };
    assert_eq!(UpdateRoundContext::update_increment(&mut ctx, 40_000_000), Ok(()));
    assert_eq!(ctx.round_account, Round { round_increment: 40_000_000, ..provisioned_round() });
    assert_eq!(UpdateRoundContext::update_increment(&mut ctx, 0), Ok(()));
    assert_eq!(ctx.round_account.round_increment, 0);
}

#[test]
fn update_increment_is_for_the_authority_only() {
    let mut ctx = UpdateRoundContext {
        program_id: program(),
        authority: addr(99),
        round_key: round_key(),
        round_account: provisioned_round(),
    };
    assert_eq!(UpdateRoundContext::update_increment(&mut ctx, 1), Err(Failure::Unauthorized));
    assert_eq!(ctx.round_account, provisioned_round());
    assert_eq!(ctx.check_accounts(), Err(Failure::Unauthorized));
}

#[test]
fn earlier_round_create_and_reserves() {
    let mut r = fomo_contract::state::round::Round {
        authority: Address::zero(),
        seed: 0,
        mint_counter: 5,
        nft_burn_counter: 6,
        round_close_slot: 0,
        team_vault: Address::zero(),
        pool_vault: Address::zero(),
        treasure_vault: Address::zero(),
        collection: Address::zero(),
        bump: 0,
    };
    r.create(fomo_contract::state::round::RoundCreateArgs {
        seed: 7,
        round_close_slot: 900,
        authority: addr(AUTHORITY),
        bump: round_pda(7).1,
        team_vault: addr(40),
        pool_vault: Address::zero(),
        treasure_vault: Address::zero(),
        collection: addr(COLLECTION),
    });
    assert_eq!(r.mint_counter, 0);
    assert_eq!(r.nft_burn_counter, 0);
    assert_eq!(r.round_close_slot, 900);
    assert_eq!(r.team_vault, addr(40));
    assert!(r.reserves_unset());
    let mut ctx = CreateRoundReservesContext {
        program_id: program(),
        authority: addr(AUTHORITY),
        round_key: round_key(),
        round_account: r,
        pool_vault: vault(41, 0),
        treasure_vault: vault(42, 0),
    };
    assert_eq!(CreateRoundReservesContext::create_reserves(&mut ctx), Ok(()));
    assert_eq!(ctx.round_account.pool_vault, addr(41));
    assert_eq!(ctx.round_account.treasure_vault, addr(42));
    assert_eq!(ctx.round_account.team_vault, addr(40));
    assert_eq!(
        CreateRoundReservesContext::create_reserves(&mut ctx),
        Err(Failure::AlreadyProvisioned)
    );
    let mut stranger = CreateRoundReservesContext { authority: addr(99), round_account: r, ..ctx };
    assert_eq!(CreateRoundReservesContext::create_reserves(&mut stranger), Err(Failure::Unauthorized));
    let mut same = CreateRoundReservesContext {
        round_account: r,
        treasure_vault: vault(41, 0),
        ..ctx
    };
    assert_eq!(CreateRoundReservesContext::create_reserves(&mut same), Err(Failure::AccountMismatch));
}

#[test]
fn earlier_key_create() {
    let mut k = fomo_contract::state::key::NftKey {
        nft_mint: Address::zero(),
        key_index: 0,
        exited: 1,
        bump: 0,
    };
    k.create(fomo_contract::state::key::CreateKeyArgs { nft_mint: addr(5), key_index: 4, bump: 3 });
    assert_eq!(
        k,
        fomo_contract::state::key::NftKey { nft_mint: addr(5), key_index: 4, exited: 0, bump: 3 }
    );
}

#[test]
fn create_round_refuses_an_address_not_derived_from_the_seed() {
    let mut other_seed: CreateRoundContext = create_ctx();
    let before: CreateRoundContext = other_seed;
    assert_eq!(
        CreateRoundContext::create_round(&mut other_seed, 8, String::new(), String::new()),
        Err(Failure::AccountMismatch)
    );
    assert_eq!(other_seed, before);
    let mut other_address: CreateRoundContext = CreateRoundContext { round_key: addr(2), ..create_ctx() };
    assert_eq!(
        CreateRoundContext::create_round(&mut other_address, 7, String::new(), String::new()),
        Err(Failure::AccountMismatch)
    );
    let mut other_program: CreateRoundContext = CreateRoundContext { program_id: addr(201), ..create_ctx() };
    assert_eq!(
        CreateRoundContext::create_round(&mut other_program, 7, String::new(), String::new()),
        Err(Failure::AccountMismatch)
    );
    let mut occupied_elsewhere: CreateRoundContext =
        CreateRoundContext { round_key: addr(2), occupied: true, ..create_ctx() };
    assert_eq!(
        CreateRoundContext::create_round(&mut occupied_elsewhere, 7, String::new(), String::new()),
        Err(Failure::AccountMismatch)
    );
}

#[test]
fn a_round_lives_where_the_program_derives_it() {
    let r: Round = provisioned_round();
    assert!(r.lives_at(&program(), &round_key()));
    assert!(!r.lives_at(&program(), &addr(2)));
    assert!(!r.lives_at(&addr(201), &round_key()));
    let other = Round { seed: 8, ..r };
    assert!(!other.lives_at(&program(), &round_key()));
    let wrong_bump = Round { bump: r.bump.wrapping_sub(1), ..r };
    assert!(!wrong_bump.lives_at(&program(), &round_key()));
}

#[test]
fn a_key_lives_where_the_program_derives_it() {
    let (at, bump) = key_pda(round_key(), 5);
    assert!(NftKey::lives_at(&round_key(), 5, bump, &program(), &at));
    assert!(!NftKey::lives_at(&round_key(), 6, bump, &program(), &at));
    assert!(!NftKey::lives_at(&addr(2), 5, bump, &program(), &at));
    assert!(!NftKey::lives_at(&round_key(), 5, bump, &program(), &addr(9)));
    let mut expected: Vec<Vec<u8>> = vec![b"key".to_vec(), round_key().bytes.to_vec()];
    expected.push(vec![5, 0, 0, 0, 0, 0, 0, 0]);
    expected.push(vec![bump]);
    assert_eq!(NftKey::seeds(&round_key(), 5, bump), expected);
}

#[test]
fn operations_on_a_round_that_lives_elsewhere_are_refused() {
    let mut updating = UpdateRoundContext {
        program_id: program(),
        authority: addr(AUTHORITY),
        round_key: addr(2),
        round_account: provisioned_round(),
    };
    assert_eq!(UpdateRoundContext::update_increment(&mut updating, 1), Err(Failure::AccountMismatch));
    assert_eq!(updating.round_account, provisioned_round());
    let mut provisioning: CreateRoundVaultsContext =
        CreateRoundVaultsContext { program_id: addr(201), ..vaults_ctx() };
    assert_eq!(CreateRoundVaultsContext::create_vaults(&mut provisioning), Err(Failure::AccountMismatch));
    let mut starting: StartRoundContext = StartRoundContext { round_key: addr(2), ..start_ctx() };
    assert_eq!(StartRoundContext::start_round(&mut starting), Err(Failure::AccountMismatch));
    let mut wrong_key: StartRoundContext = StartRoundContext { key_address: addr(9), ..start_ctx() };
    assert_eq!(StartRoundContext::start_round(&mut wrong_key), Err(Failure::AccountMismatch));
    assert_eq!(wrong_key.round_account.mint_counter, 0);
}
