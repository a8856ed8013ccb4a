//! The program's entry points, one per instruction, each handing its arguments to the
//! instruction's handler.
use vstd::prelude::*;
use crate::call::{Call, issues, le_bytes, readonly, writable};
use crate::error::{ErrorCode, StablecoinError};
use crate::extension::spec_codes;
use crate::fee::epoch_fee;
use crate::instructions::initialize_confidential_mint::confidential_mint_extensions;
use crate::instructions::initialize_metadata::has_metadata;
use crate::instructions::initialize_mint::{mint_setup_accepted, public_mint_extensions};
use crate::instructions::{InitializeConfidentialMint, InitializeMetadata, InitializeMint, ThawAccount, Transfer};
use crate::keys::{is_zero, TOKEN_2022_PROGRAM_ID};
use crate::token_2022::{extension_codes_of, is_token_program, mint_account_len, transfer_fee_config_of};
use crate::token_metadata::mint_len_with_metadata;

verus! {

/// Creates a Token-2022 mint with transfer fees and frozen accounts by default, funded with
/// `lamports`: the rent-exempt minimum of the size that `InitializeMint::space` gives.
pub fn initialize_mint(accounts: &InitializeMint, lamports: u64, decimals: u8, transfer_fee_basis_points: u16, maximum_fee: u64) -> (r: Result<Vec<Call>, StablecoinError>)
    ensures
        mint_account_len(spec_codes(public_mint_extensions())) is None ==> r matches Err(StablecoinError::Program(_)),
        mint_account_len(spec_codes(public_mint_extensions())) is Some ==> (r is Ok <==> mint_setup_accepted(accounts.token_program, accounts.mint, accounts.authority)),
        r matches Ok(calls) ==> issues(calls@, accounts.spec_calls(mint_account_len(spec_codes(public_mint_extensions())).unwrap(), lamports, decimals, transfer_fee_basis_points, maximum_fee)),
        r matches Ok(calls) ==> {
            &&& calls@.len() == 6
            &&& calls@[1]@.data == seq![26u8, 0u8, 1u8] + accounts.authority@ + seq![1u8] + accounts.authority@
                + le_bytes(transfer_fee_basis_points as int, 2) + le_bytes(maximum_fee as int, 8)
            &&& calls@[5]@.data == seq![20u8, decimals] + accounts.authority@ + seq![1u8] + accounts.authority@
        },
        r matches Err(e) ==> e is Program,
{
    accounts.handler(lamports, decimals, transfer_fee_basis_points, maximum_fee)
}

/// Stores the token name, symbol, and URI on the mint itself. `mint_lamports` is the mint's
/// balance and `rent_exempt_lamports` the rent-exempt minimum of the size that
/// `InitializeMetadata::space` gives.
pub fn initialize_metadata(accounts: &InitializeMetadata, mint_data: &[u8], mint_lamports: u64, rent_exempt_lamports: u64, name: String, symbol: String, uri: String) -> (r: Result<Vec<Call>, StablecoinError>)
    ensures
        is_zero(accounts.authority) ==> r matches Err(StablecoinError::InvalidArgument),
        !is_zero(accounts.authority) ==> match extension_codes_of(mint_data@) {
            None => r matches Err(StablecoinError::Program(_)),
            Some(codes) => if has_metadata(codes) {
                r matches Err(StablecoinError::Custom(ErrorCode::MetadataAlreadyInitialized))
            } else {
                match mint_len_with_metadata(mint_data@, accounts.authority, accounts.mint, name@, symbol@, uri@) {
                    None => r matches Err(StablecoinError::Program(_)),
                    Some(_) => r is Ok,
                }
            },
        },
        r matches Ok(calls) ==> issues(calls@, accounts.spec_calls(rent_exempt_lamports, mint_lamports, name@, symbol@, uri@)),
{
    accounts.handler(mint_data, mint_lamports, rent_exempt_lamports, name, symbol, uri)
}

/// Lets the freeze authority approve an individual token account after KYC.
pub fn thaw_account(accounts: &ThawAccount) -> (r: Result<Vec<Call>, StablecoinError>)
    ensures
        r is Ok <==> is_token_program(accounts.token_program),
        r matches Ok(calls) ==> issues(calls@, accounts.spec_calls()),
        r matches Ok(calls) ==> calls@[0]@.accounts == seq![writable(accounts.token_account, false), readonly(accounts.mint, false), readonly(accounts.authority, true)],
        r matches Err(e) ==> e is Program,
{
    accounts.handler()
}

/// Transfers public tokens using the mint's current epoch fee configuration.
pub fn transfer(accounts: &Transfer, mint_data: &[u8], decimals: u8, epoch: u64, amount: u64) -> (r: Result<Vec<Call>, StablecoinError>)
    ensures
        match transfer_fee_config_of(mint_data@) {
            None => r matches Err(StablecoinError::Program(_)),
            Some(config) => match epoch_fee(config, epoch, amount) {
                None => r matches Err(StablecoinError::Custom(ErrorCode::FeeCalculationFailed)),
                Some(fee) => {
                    &&& r is Ok <==> accounts.token_program == TOKEN_2022_PROGRAM_ID
                    &&& r matches Ok(calls) ==> issues(calls@, accounts.spec_calls(amount, decimals, fee))
                    &&& r matches Ok(calls) ==> calls@[0]@.data.subrange(11, 19) == le_bytes(fee as int, 8)
                    &&& r matches Err(e) ==> e is Program
                },
            },
        },
        r matches Ok(calls) ==> {
            &&& calls@.len() == 1
            &&& calls@[0]@.program_id == TOKEN_2022_PROGRAM_ID
            &&& calls@[0]@.data.subrange(2, 10) == le_bytes(amount as int, 8)
            &&& calls@[0]@.data[10] == decimals
        },
{
    accounts.handler(mint_data, decimals, epoch, amount)
}

/// Creates a new mint with manual confidential approval, encrypted fees, and a permanent
/// delegate, funded with `lamports`: the rent-exempt minimum of the size that
/// `InitializeConfidentialMint::space` gives.
pub fn initialize_confidential_mint(accounts: &InitializeConfidentialMint, lamports: u64, decimals: u8, transfer_fee_basis_points: u16, maximum_fee: u64, withdraw_withheld_authority_elgamal_pubkey: [u8; 32]) -> (r: Result<Vec<Call>, StablecoinError>)
    ensures
        mint_account_len(spec_codes(confidential_mint_extensions())) is None ==> r matches Err(StablecoinError::Program(_)),
        mint_account_len(spec_codes(confidential_mint_extensions())) is Some ==> (r is Ok <==> mint_setup_accepted(accounts.token_program, accounts.mint, accounts.authority)),
        r matches Ok(calls) ==> issues(calls@, accounts.spec_calls(mint_account_len(spec_codes(confidential_mint_extensions())).unwrap(), lamports, decimals, transfer_fee_basis_points, maximum_fee, withdraw_withheld_authority_elgamal_pubkey)),
        r matches Ok(calls) ==> {
            &&& calls@.len() == 9
            &&& calls@[1]@.data == seq![26u8, 0u8, 1u8] + accounts.authority@ + seq![1u8] + accounts.authority@
                + le_bytes(transfer_fee_basis_points as int, 2) + le_bytes(maximum_fee as int, 8)
            &&& calls@[7]@.data == seq![37u8, 0u8] + accounts.authority@ + withdraw_withheld_authority_elgamal_pubkey@
            &&& calls@[8]@.data == seq![20u8, decimals] + accounts.authority@ + seq![1u8] + accounts.authority@
        },
        r matches Err(e) ==> e is Program,
{
    accounts.handler(lamports, decimals, transfer_fee_basis_points, maximum_fee, withdraw_withheld_authority_elgamal_pubkey)
}

} // verus!
