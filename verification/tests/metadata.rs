use anchor_lang::prelude::{Pubkey, Rent};
use anchor_lang::solana_program::instruction::Instruction;
use anchor_lang::solana_program::program_option::COption;
use anchor_lang::solana_program::system_instruction;
use anchor_spl::token_2022::spl_token_2022::{
    extension::{
        default_account_state::DefaultAccountState, metadata_pointer::MetadataPointer,
        mint_close_authority::MintCloseAuthority, transfer_fee::TransferFeeConfig,
        BaseStateWithExtensions, BaseStateWithExtensionsMut, ExtensionType, StateWithExtensions,
        StateWithExtensionsMut,
    },
    state::Mint,
};
use remittance_stablecoin::instructions::initialize_metadata::rent_shortfall;
use remittance_stablecoin::keys::TOKEN_2022_PROGRAM_ID;
use remittance_stablecoin::{initialize_metadata, Call, ErrorCode, InitializeMetadata, StablecoinError};
use spl_token_metadata_interface::{instruction, state::TokenMetadata};

const PAYER: [u8; 32] = [1; 32];
const MINT: [u8; 32] = [2; 32];
const AUTHORITY: [u8; 32] = [3; 32];

fn pk(k: [u8; 32]) -> Pubkey {
    Pubkey::new_from_array(k)
}

fn plain(ix: Instruction) -> Call {
    let accounts = ix.accounts.iter().map(|m| remittance_stablecoin::AccountRef { key: m.pubkey.to_bytes(), is_signer: m.is_signer, is_writable: m.is_writable }).collect();
    Call { program_id: ix.program_id.to_bytes(), accounts, data: ix.data }
}

fn assert_same(a: &Call, b: &Call) {
    assert_eq!(a.program_id, b.program_id);
    assert_eq!(a.data, b.data);
    assert_eq!(a.accounts.len(), b.accounts.len());
    for (x, y) in a.accounts.iter().zip(b.accounts.iter()) {
        assert_eq!((x.key, x.is_signer, x.is_writable), (y.key, y.is_signer, y.is_writable));
    }
}

fn metadata(name: &str, symbol: &str, uri: &str) -> TokenMetadata {
    TokenMetadata {
        update_authority: Some(pk(AUTHORITY)).try_into().unwrap(),
        mint: pk(MINT),
        name: name.into(),
        symbol: symbol.into(),
        uri: uri.into(),
        additional_metadata: Vec::new(),
    }
}

/// The bytes of an initialized mint with this program's four extensions, and metadata if given.
fn mint_data(existing: Option<&TokenMetadata>) -> Vec<u8> {
    let mut len = ExtensionType::try_calculate_account_len::<Mint>(&[
        ExtensionType::TransferFeeConfig,
        ExtensionType::MetadataPointer,
        ExtensionType::DefaultAccountState,
        ExtensionType::MintCloseAuthority,
    ])
    .unwrap();
    if let Some(m) = existing {
        len += m.tlv_size_of().unwrap();
    }
    let mut data = vec![0u8; len];
    let mut state = StateWithExtensionsMut::<Mint>::unpack_uninitialized(&mut data).unwrap();
    state.init_extension::<TransferFeeConfig>(false).unwrap();
    state.init_extension::<MetadataPointer>(false).unwrap();
    state.init_extension::<DefaultAccountState>(false).unwrap();
    state.init_extension::<MintCloseAuthority>(false).unwrap();
    if let Some(m) = existing {
        state.init_variable_len_extension(m, false).unwrap();
    }
    state.base = Mint {
        mint_authority: COption::Some(pk(AUTHORITY)),
        supply: 0,
        decimals: 6,
        is_initialized: true,
        freeze_authority: COption::Some(pk(AUTHORITY)),
    };
    state.pack_base();
    state.init_account_type().unwrap();
    data
}

fn accounts() -> InitializeMetadata {
    InitializeMetadata { payer: PAYER, mint: MINT, authority: AUTHORITY, token_program: TOKEN_2022_PROGRAM_ID, system_program: [0; 32] }
}

fn new_len(data: &[u8], m: &TokenMetadata) -> usize {
    StateWithExtensions::<Mint>::unpack(data).unwrap().try_get_new_account_len_for_variable_len_extension(m).unwrap()
}

fn expected_initialize(name: &str, symbol: &str, uri: &str) -> Call {
    let t = pk(TOKEN_2022_PROGRAM_ID);
    plain(instruction::initialize(&t, &pk(MINT), &pk(AUTHORITY), &pk(MINT), &pk(AUTHORITY), name.into(), symbol.into(), uri.into()))
}

#[test]
fn stores_metadata_on_the_mint_and_funds_rent_without_changing_existing_extensions() {
    let rent = Rent::default();
    let data = mint_data(None);
    let name = "Remittance ₹";
    let symbol = "RUSD";
    let uri = "https://example.com/remittance.json";
    let lamports = rent.minimum_balance(data.len());
    let space = new_len(&data, &metadata(name, symbol, uri));
    assert!(space > data.len());
    assert_eq!(accounts().space(&data, &name.into(), &symbol.into(), &uri.into()).ok(), Some(space));
    let calls = initialize_metadata(&accounts(), &data, lamports, rent.minimum_balance(space), name.into(), symbol.into(), uri.into()).ok().unwrap();
    assert_eq!(calls.len(), 2);
    let shortfall = rent.minimum_balance(space) - lamports;
    assert_same(&calls[0], &plain(system_instruction::transfer(&pk(PAYER), &pk(MINT), shortfall)));
    assert_eq!(lamports + shortfall, rent.minimum_balance(space));
    assert_same(&calls[1], &expected_initialize(name, symbol, uri));
}

#[test]
fn uses_existing_rent_funding_without_adding_more_lamports() {
    let rent = Rent::default();
    let data = mint_data(None);
    let lamports = rent.minimum_balance(data.len()) + 10_000_000;
    let space = new_len(&data, &metadata("Remittance", "RUSD", "https://example.com/token.json"));
    let calls = initialize_metadata(&accounts(), &data, lamports, rent.minimum_balance(space), "Remittance".into(), "RUSD".into(), "https://example.com/token.json".into()).ok().unwrap();
    assert_eq!(calls.len(), 1);
    assert_same(&calls[0], &expected_initialize("Remittance", "RUSD", "https://example.com/token.json"));
}

#[test]
fn rejects_duplicate_initialization_without_replacing_metadata_or_funding_rent() {
    let data = mint_data(Some(&metadata("Remittance", "RUSD", "")));
    let result = initialize_metadata(&accounts(), &data, 0, 0, "Replacement name".into(), "NEW".into(), "x".repeat(300));
    assert!(matches!(result, Err(StablecoinError::Custom(ErrorCode::MetadataAlreadyInitialized))));
    let space = accounts().space(&data, &"Replacement name".into(), &"NEW".into(), &"x".repeat(300));
    assert!(matches!(space, Err(StablecoinError::Custom(ErrorCode::MetadataAlreadyInitialized))));
}

#[test]
fn metadata_refuses_an_all_zero_authority() {
    let zero = InitializeMetadata { authority: [0; 32], ..accounts() };
    let result = initialize_metadata(&zero, &mint_data(None), 0, 0, "A".into(), "B".into(), "".into());
    assert!(matches!(result, Err(StablecoinError::InvalidArgument)));
}

#[test]
fn metadata_refuses_unreadable_mint_bytes() {
    let result = initialize_metadata(&accounts(), &[7u8; 40], 0, 0, "A".into(), "B".into(), "".into());
    assert!(matches!(result, Err(StablecoinError::Program(_))));
}

#[test]
fn calls_top_up_exactly_the_shortfall() {
    let calls = accounts().calls(1_000, 400, &"A".into(), &"B".into(), &"".into());
    assert_eq!(calls.len(), 2);
    assert_eq!(calls[0].data, vec![2, 0, 0, 0, 0x58, 0x02, 0, 0, 0, 0, 0, 0]);
    assert_same(&calls[0], &plain(system_instruction::transfer(&pk(PAYER), &pk(MINT), 600)));
    let calls = accounts().calls(1_000, 1_000, &"A".into(), &"B".into(), &"".into());
    assert_eq!(calls.len(), 1);
}

#[test]
fn rent_shortfall_reaches_the_requirement() {
    assert_eq!(rent_shortfall(1_000, 400), 600);
    assert_eq!(rent_shortfall(1_000, 1_000), 0);
    assert_eq!(rent_shortfall(1_000, 5_000), 0);
    for (required, balance) in [(0u64, 0u64), (10, 3), (3, 10), (u64::MAX, 0)] {
        let top_up = rent_shortfall(required, balance);
        assert!(balance as u128 + top_up as u128 >= required as u128);
        assert_eq!(top_up == 0, balance >= required);
    }
}
