use fomo_contract::accounts::{Address, AssetAccount, AssetRecord, CreatorSignature, TokenAccount, UpdateAuthority};
use fomo_contract::effects::Transfer;
use fomo_contract::state::{
    round_seeds, CreateKeyArgs, NftKey, Phase, Round, RoundCreateArgs, RoundCreateVaultsArgs,
    UpdateRoundIncrementArg,
};

fn addr(n: u8) -> Address {
    Address { bytes: [n; 32] }
}

fn encoded_asset(owner: Address, authority_tag: u8, authority: Address, name: &str, uri: &str) -> Vec<u8> {
    let mut data: Vec<u8> = vec![1];
    data.extend_from_slice(&owner.bytes);
    data.push(authority_tag);
    if authority_tag != 0 {
        data.extend_from_slice(&authority.bytes);
    }
    data.extend_from_slice(&(name.len() as u32).to_le_bytes());
    data.extend_from_slice(name.as_bytes());
    data.extend_from_slice(&(uri.len() as u32).to_le_bytes());
    data.extend_from_slice(uri.as_bytes());
    data.push(0);
    data
}

#[test]
fn addresses_compare_by_their_bytes() {
    let mut other: Address = addr(4);
    assert!(addr(4) == other);
    other.bytes[31] = 5;
    assert!(addr(4) != other);
    assert_eq!(Address::zero(), addr(0));
}

#[test]
fn a_vault_is_the_recorded_account_and_the_record_is_set() {
    let vault = TokenAccount { key: addr(3), owner: addr(1), amount: 0 };
    assert!(vault.is_vault(&addr(3)));
    assert!(!vault.is_vault(&addr(4)));
    let nowhere = TokenAccount { key: Address::zero(), owner: addr(1), amount: 0 };
    assert!(!nowhere.is_vault(&Address::zero()));
}

#[test]
fn asset_record_is_read_from_the_registry_bytes() {
    let asset = AssetAccount {
        key: addr(7),
        data: encoded_asset(addr(5), 2, addr(6), "Master Key", "https://example.invalid/k"),
        signatures: Vec::new(),
    };
    assert_eq!(
        asset.record(),
        Some(AssetRecord { owner: addr(5), update_authority: UpdateAuthority::Collection(addr(6)) })
    );
}

#[test]
fn asset_record_tells_the_authorities_apart() {
    let by_address = AssetAccount {
        key: addr(7),
        data: encoded_asset(addr(5), 1, addr(6), "", ""),
        signatures: Vec::new(),
    };
    assert_eq!(
        by_address.record(),
        Some(AssetRecord { owner: addr(5), update_authority: UpdateAuthority::Address(addr(6)) })
    );
    let by_nobody = AssetAccount {
        key: addr(7),
        data: encoded_asset(addr(5), 0, addr(6), "", ""),
        signatures: Vec::new(),
    };
    assert_eq!(
        by_nobody.record(),
        Some(AssetRecord { owner: addr(5), update_authority: UpdateAuthority::Unset })
    );
}

#[test]
fn unreadable_asset_has_no_record() {
    let empty = AssetAccount { key: addr(7), data: Vec::new(), signatures: Vec::new() };
    assert_eq!(empty.record(), None);
    let short = AssetAccount { key: addr(7), data: vec![1, 2, 3], signatures: Vec::new() };
    assert_eq!(short.record(), None);
    let bad_tag = AssetAccount {
        key: addr(7),
        data: encoded_asset(addr(5), 9, addr(6), "", ""),
        signatures: Vec::new(),
    };
    assert_eq!(bad_tag.record(), None);
}

#[test]
fn only_verified_signatures_count() {
    let asset = AssetAccount {
        key: addr(7),
        data: Vec::new(),
        signatures: vec![
            CreatorSignature { address: addr(1), verified: false },
            CreatorSignature { address: addr(2), verified: true },
        ],
    };
    assert!(!asset.signed_by(&addr(1)));
    assert!(asset.signed_by(&addr(2)));
    assert!(!asset.signed_by(&addr(3)));
    let unsigned = AssetAccount { key: addr(7), data: Vec::new(), signatures: Vec::new() };
    assert!(!unsigned.signed_by(&addr(2)));
}

#[test]
fn a_transfer_debits_its_source() {
    let vault = TokenAccount { key: addr(3), owner: addr(1), amount: 1_000 };
    let t = Transfer { from: addr(3), to: addr(4), amount: 400 };
    assert_eq!(t.debit(&vault), TokenAccount { key: addr(3), owner: addr(1), amount: 600 });
    let all = Transfer { from: addr(3), to: addr(4), amount: 1_000 };
    assert_eq!(all.debit(&vault).amount, 0);
}

#[test]
fn a_blank_round_is_all_zero() {
    let r: Round = Round::default();
    assert_eq!(r.mint_counter, 0);
    assert_eq!(r.nft_burn_counter, 0);
    assert_eq!(r.round_close_timestamp, 0);
    assert_eq!(r.round_increment, 0);
    assert_eq!(r.authority, Address::zero());
    assert!(r.vaults_unset());
    let k: NftKey = NftKey::default();
    assert_eq!(k, NftKey { nft_mint: Address::zero(), key_index: 0, exited: 0, bump: 0 });
}

#[test]
fn round_create_resets_both_counters() {
    let mut r: Round = Round::default();
    r.mint_counter = 9;
    r.nft_burn_counter = 4;
    r.round_basic_mint_fee = 77;
    r.create(RoundCreateArgs {
        seed: 42,
        authority: addr(1),
        bump: 254,
        mint_fee_vault: addr(2),
        nft_pool_vault: addr(3),
        main_pool_vault: addr(4),
        round_close_timestamp: 1_000,
        round_increment: 500_000,
        collection: addr(5),
    });
    assert_eq!(
        r,
        Round {
            authority: addr(1),
            seed: 42,
            mint_counter: 0,
            nft_burn_counter: 0,
            round_close_timestamp: 1_000,
            round_basic_mint_fee: 77,
            round_increment: 500_000,
            main_pool_vault: addr(4),
            nft_pool_vault: addr(3),
            mint_fee_vault: addr(2),
            collection: addr(5),
            bump: 254,
        }
    );
}

#[test]
fn round_create_vaults_touches_only_the_vaults() {
    let mut r: Round = Round::default();
    r.mint_counter = 3;
    r.seed = 8;
    let before: Round = r;
    r.create_vaults(RoundCreateVaultsArgs {
        mint_fee_vault: addr(2),
        nft_pool_vault: addr(3),
        main_pool_vault: addr(4),
    });
    assert_eq!(
        r,
        Round { mint_fee_vault: addr(2), nft_pool_vault: addr(3), main_pool_vault: addr(4), ..before }
    );
    assert!(!r.vaults_unset());
}

#[test]
fn round_update_increment_touches_only_the_increment() {
    let mut r: Round = Round::default();
    r.mint_counter = 3;
    let before: Round = r;
    r.update_increment(UpdateRoundIncrementArg { round_increment: 40_000_000 });
    assert_eq!(r, Round { round_increment: 40_000_000, ..before });
}

#[test]
fn round_is_active_strictly_before_its_deadline_and_over_strictly_after() {
    let mut r: Round = Round::default();
    r.round_close_timestamp = 100;
    assert!(r.is_active(99));
    assert!(!r.is_active(100));
    assert!(!r.is_active(101));
    assert!(!r.is_over(99));
    assert!(!r.is_over(100));
    assert!(r.is_over(101));
}

#[test]
fn round_signs_under_its_word_seed_and_bump() {
    let mut r: Round = Round::default();
    r.seed = 0x0102_0304_0506_0708;
    r.bump = 253;
    assert_eq!(
        r.signer_seeds(),
        vec![b"round".to_vec(), vec![8, 7, 6, 5, 4, 3, 2, 1], vec![253]]
    );
    assert_eq!(round_seeds(1, 0), vec![b"round".to_vec(), vec![1, 0, 0, 0, 0, 0, 0, 0], vec![0]]);
    assert_eq!(addr(6).to_vec(), vec![6u8; 32]);
}

#[test]
fn key_create_starts_out_held() {
    let mut k: NftKey = NftKey { nft_mint: addr(1), key_index: 5, exited: 1, bump: 2 };
    assert!(k.has_exited());
    k.create(CreateKeyArgs { nft_mint: addr(9), key_index: 6, bump: 3 });
    assert_eq!(k, NftKey { nft_mint: addr(9), key_index: 6, exited: 0, bump: 3 });
    assert!(!k.has_exited());
}

#[test]
fn a_round_passes_through_its_phases() {
    let mut r: Round = Round::default();
    r.round_close_timestamp = 100;
    assert_eq!(r.phase(0), Phase::Empty);
    assert_eq!(r.phase(500), Phase::Empty);
    r.create_vaults(RoundCreateVaultsArgs {
        mint_fee_vault: addr(2),
        nft_pool_vault: addr(3),
        main_pool_vault: addr(4),
    });
    assert_eq!(r.phase(0), Phase::VaultsReady);
    r.mint_counter = 1;
    assert_eq!(r.phase(99), Phase::Active);
    assert_eq!(r.phase(100), Phase::Closed);
    assert_eq!(r.phase(101), Phase::Closed);
}
