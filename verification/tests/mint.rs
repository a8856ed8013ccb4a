use anchor_lang::prelude::{Pubkey, Rent};
use anchor_lang::solana_program::instruction::Instruction;
use anchor_lang::solana_program::system_instruction;
use anchor_spl::token_2022::spl_token_2022::{
    extension::{
        confidential_transfer, confidential_transfer_fee, default_account_state,
        metadata_pointer, transfer_fee, ExtensionType,
    },
    instruction,
    solana_zk_sdk::encryption::pod::elgamal::PodElGamalPubkey,
    state::{AccountState, Mint},
};
use remittance_stablecoin::keys::{TOKEN_2022_PROGRAM_ID, TOKEN_PROGRAM_ID};
use remittance_stablecoin::{
    initialize_confidential_mint, initialize_mint, Call, InitializeConfidentialMint,
    InitializeMint, StablecoinError,
};

const PAYER: [u8; 32] = [1; 32];
const MINT: [u8; 32] = [2; 32];
const AUTHORITY: [u8; 32] = [3; 32];
const SYSTEM: [u8; 32] = [0; 32];
const FEE_KEY: [u8; 32] = [9; 32];

fn pk(k: [u8; 32]) -> Pubkey {
    Pubkey::new_from_array(k)
}

fn plain(ix: Instruction) -> Call {
    let accounts = ix.accounts.iter().map(|m| remittance_stablecoin::AccountRef { key: m.pubkey.to_bytes(), is_signer: m.is_signer, is_writable: m.is_writable }).collect();
    Call { program_id: ix.program_id.to_bytes(), accounts, data: ix.data }
}

fn assert_same(a: &Call, b: &Call) {
    assert_eq!(a.program_id, b.program_id);
    assert_eq!(a.data, b.data);
    assert_eq!(a.accounts.len(), b.accounts.len());
    for (x, y) in a.accounts.iter().zip(b.accounts.iter()) {
        assert_eq!((x.key, x.is_signer, x.is_writable), (y.key, y.is_signer, y.is_writable));
    }
}

fn accounts() -> InitializeMint {
    InitializeMint { payer: PAYER, mint: MINT, authority: AUTHORITY, token_program: TOKEN_2022_PROGRAM_ID, system_program: SYSTEM }
}

fn confidential_accounts() -> InitializeConfidentialMint {
    InitializeConfidentialMint { payer: PAYER, mint: MINT, authority: AUTHORITY, token_program: TOKEN_2022_PROGRAM_ID, system_program: SYSTEM }
}

fn public_extensions() -> Vec<ExtensionType> {
    vec![
        ExtensionType::TransferFeeConfig,
        ExtensionType::MetadataPointer,
        ExtensionType::DefaultAccountState,
        ExtensionType::MintCloseAuthority,
    ]
}

/// What Token-2022's builders make for the four extensions and the base mint.
fn expected_setup(basis_points: u16) -> Vec<Call> {
    let t = pk(TOKEN_2022_PROGRAM_ID);
    vec![
        plain(transfer_fee::instruction::initialize_transfer_fee_config(&t, &pk(MINT), Some(&pk(AUTHORITY)), Some(&pk(AUTHORITY)), basis_points, 50_000).unwrap()),
        plain(metadata_pointer::instruction::initialize(&t, &pk(MINT), Some(pk(AUTHORITY)), Some(pk(MINT))).unwrap()),
        plain(default_account_state::instruction::initialize_default_account_state(&t, &pk(MINT), &AccountState::Frozen).unwrap()),
        plain(instruction::initialize_mint_close_authority(&t, &pk(MINT), Some(&pk(AUTHORITY))).unwrap()),
    ]
}

fn expected_base() -> Call {
    plain(instruction::initialize_mint2(&pk(TOKEN_2022_PROGRAM_ID), &pk(MINT), &pk(AUTHORITY), Some(&pk(AUTHORITY)), 6).unwrap())
}

#[test]
fn initializes_the_mint_with_all_four_extensions_and_issuer_authorities() {
    let rent = Rent::default();
    let space = ExtensionType::try_calculate_account_len::<Mint>(&public_extensions()).unwrap();
    assert_eq!(InitializeMint::space().ok(), Some(space));
    let calls = initialize_mint(&accounts(), rent.minimum_balance(space), 6, 100, 50_000).ok().unwrap();
    assert_eq!(calls.len(), 6);
    let create = system_instruction::create_account(&pk(PAYER), &pk(MINT), rent.minimum_balance(space), space as u64, &pk(TOKEN_2022_PROGRAM_ID));
    assert_same(&calls[0], &plain(create));
    for (call, expected) in calls[1..5].iter().zip(expected_setup(100).iter()) {
        assert_same(call, expected);
    }
    assert_same(&calls[5], &expected_base());
}

#[test]
fn new_token_accounts_inherit_the_frozen_default() {
    let calls = accounts().calls(1, 1, 6, 100, 50_000).ok().unwrap();
    let frozen = default_account_state::instruction::initialize_default_account_state(&pk(TOKEN_2022_PROGRAM_ID), &pk(MINT), &AccountState::Frozen).unwrap();
    assert_same(&calls[3], &plain(frozen));
    let initialized = default_account_state::instruction::initialize_default_account_state(&pk(TOKEN_2022_PROGRAM_ID), &pk(MINT), &AccountState::Initialized).unwrap();
    assert_ne!(calls[3].data, initialized.data);
}

#[test]
fn accepts_zero_and_one_hundred_percent_fees_with_a_cap() {
    for basis_points in [0, 10_000] {
        let calls = initialize_mint(&accounts(), 1_000_000, 6, basis_points, 50_000).ok().unwrap();
        assert_same(&calls[1], &expected_setup(basis_points)[0]);
    }
}

#[test]
fn rejects_the_legacy_token_program_before_creating_the_mint() {
    let legacy = InitializeMint { token_program: TOKEN_PROGRAM_ID, ..accounts() };
    assert!(matches!(initialize_mint(&legacy, 1_000_000, 6, 100, 50_000), Err(StablecoinError::Program(_))));
}

#[test]
fn mint_setup_refuses_an_all_zero_issuer() {
    let zero = InitializeMint { authority: [0; 32], ..accounts() };
    assert!(matches!(zero.calls(1, 1, 6, 100, 50_000), Err(StablecoinError::Program(_))));
}

#[test]
fn creates_the_account_with_the_given_space_and_lamports() {
    let calls = accounts().calls(500, 12_345, 6, 100, 50_000).ok().unwrap();
    let create = system_instruction::create_account(&pk(PAYER), &pk(MINT), 12_345, 500, &pk(TOKEN_2022_PROGRAM_ID));
    assert_same(&calls[0], &plain(create));
}

#[test]
fn initializes_all_seven_extensions_with_manual_approval_and_issuer_authorities() {
    let rent = Rent::default();
    let mut extensions = public_extensions();
    extensions.extend([
        ExtensionType::PermanentDelegate,
        ExtensionType::ConfidentialTransferMint,
        ExtensionType::ConfidentialTransferFeeConfig,
    ]);
    let space = ExtensionType::try_calculate_account_len::<Mint>(&extensions).unwrap();
    assert_eq!(InitializeConfidentialMint::space().ok(), Some(space));
    let calls = initialize_confidential_mint(&confidential_accounts(), rent.minimum_balance(space), 6, 100, 50_000, FEE_KEY).ok().unwrap();
    assert_eq!(calls.len(), 9);
    let t = pk(TOKEN_2022_PROGRAM_ID);
    let create = system_instruction::create_account(&pk(PAYER), &pk(MINT), rent.minimum_balance(space), space as u64, &t);
    assert_same(&calls[0], &plain(create));
    for (call, expected) in calls[1..5].iter().zip(expected_setup(100).iter()) {
        assert_same(call, expected);
    }
    assert_same(&calls[5], &plain(instruction::initialize_permanent_delegate(&t, &pk(MINT), &pk(AUTHORITY)).unwrap()));
    // Manual approval: no automatic approval of new accounts, and no auditor.
    assert_same(&calls[6], &plain(confidential_transfer::instruction::initialize_mint(&t, &pk(MINT), Some(pk(AUTHORITY)), false, None).unwrap()));
    let fee_key = PodElGamalPubkey::from(FEE_KEY);
    assert_same(&calls[7], &plain(confidential_transfer_fee::instruction::initialize_confidential_transfer_fee_config(&t, &pk(MINT), Some(pk(AUTHORITY)), &fee_key).unwrap()));
    assert_same(&calls[8], &expected_base());
}

#[test]
fn rejects_the_legacy_token_program_before_creating_a_mint() {
    let legacy = InitializeConfidentialMint { token_program: TOKEN_PROGRAM_ID, ..confidential_accounts() };
    assert!(matches!(initialize_confidential_mint(&legacy, 1_000_000, 6, 100, 50_000, FEE_KEY), Err(StablecoinError::Program(_))));
}

#[test]
fn reissuing_creates_a_separate_mint_without_changing_the_original() {
    let new_mint = [7; 32];
    let reissue = InitializeConfidentialMint { mint: new_mint, ..confidential_accounts() };
    let calls = reissue.calls(1, 1, 6, 100, 50_000, FEE_KEY).ok().unwrap();
    for call in &calls {
        assert!(call.accounts.iter().all(|a| a.key != MINT));
    }
}

#[test]
fn confidential_mint_repeats_the_public_mint_set_up() {
    let public = accounts().calls(700, 99, 6, 100, 50_000).ok().unwrap();
    let confidential = confidential_accounts().calls(700, 99, 6, 100, 50_000, FEE_KEY).ok().unwrap();
    assert_eq!(confidential.len(), public.len() + 3);
    for i in 0..5 {
        assert_same(&confidential[i], &public[i]);
    }
    assert_same(confidential.last().unwrap(), public.last().unwrap());
}

#[test]
fn handler_funds_the_mint_with_the_lamports_it_is_given() {
    let space = InitializeMint::space().ok().unwrap();
    let calls = accounts().handler(4_242, 6, 100, 50_000).ok().unwrap();
    let create = system_instruction::create_account(&pk(PAYER), &pk(MINT), 4_242, space as u64, &pk(TOKEN_2022_PROGRAM_ID));
    assert_same(&calls[0], &plain(create));
    let confidential_space = InitializeConfidentialMint::space().ok().unwrap();
    let calls = confidential_accounts().handler(7_777, 6, 100, 50_000, FEE_KEY).ok().unwrap();
    let create = system_instruction::create_account(&pk(PAYER), &pk(MINT), 7_777, confidential_space as u64, &pk(TOKEN_2022_PROGRAM_ID));
    assert_same(&calls[0], &plain(create));
}

#[test]
fn set_up_instructions_carry_the_stated_bytes() {
    let calls = accounts().calls(1, 1, 6, 300, 0x0102_0304_0506_0708).ok().unwrap();
    let mut fee = vec![26, 0, 1];
    fee.extend(AUTHORITY);
    fee.push(1);
    fee.extend(AUTHORITY);
    fee.extend([0x2c, 0x01, 0x08, 0x07, 0x06, 0x05, 0x04, 0x03, 0x02, 0x01]);
    assert_eq!(calls[1].data, fee);
    let mut pointer = vec![39, 0];
    pointer.extend(AUTHORITY);
    pointer.extend(MINT);
    assert_eq!(calls[2].data, pointer);
    assert_eq!(calls[3].data, vec![28, 0, 2]);
    let mut close = vec![25, 1];
    close.extend(AUTHORITY);
    assert_eq!(calls[4].data, close);
    let mut base = vec![20, 6];
    base.extend(AUTHORITY);
    base.push(1);
    base.extend(AUTHORITY);
    assert_eq!(calls[5].data, base);
    let delegate = confidential_accounts().calls(1, 1, 6, 300, 0, FEE_KEY).ok().unwrap();
    let mut expected = vec![35];
    expected.extend(AUTHORITY);
    assert_eq!(delegate[5].data, expected);
}

#[test]
fn creation_and_confidential_set_ups_carry_the_stated_bytes() {
    let calls = confidential_accounts().calls(500, 0x0102, 6, 300, 0, FEE_KEY).ok().unwrap();
    let mut create = vec![0, 0, 0, 0, 0x02, 0x01, 0, 0, 0, 0, 0, 0, 0xf4, 0x01, 0, 0, 0, 0, 0, 0];
    create.extend(TOKEN_2022_PROGRAM_ID);
    assert_eq!(calls[0].data, create);
    let mut confidential = vec![27, 0];
    confidential.extend(AUTHORITY);
    confidential.push(0);
    confidential.extend([0u8; 32]);
    assert_eq!(calls[6].data, confidential);
    let mut fee = vec![37, 0];
    fee.extend(AUTHORITY);
    fee.extend(FEE_KEY);
    assert_eq!(calls[7].data, fee);
}
