//! Trusted items for the Token-2022 instruction builders and account readers.
use vstd::prelude::*;
use anchor_lang::prelude::{AccountMeta, ProgramError, Pubkey};
use anchor_spl::token_2022::spl_token_2022::{
    self as token,
    extension::{
        confidential_transfer, confidential_transfer_fee, default_account_state,
        metadata_pointer,
        transfer_fee::{self, TransferFee, TransferFeeConfig},
        BaseStateWithExtensions, ExtensionType, StateWithExtensions,
    },
    solana_zk_sdk::encryption::pod::{auth_encryption::PodAeCiphertext, elgamal::{PodElGamalCiphertext, PodElGamalPubkey}},
    state::{AccountState, Mint},
};
use anchor_spl::token_2022::spl_token_2022::extension::confidential_transfer::instruction::inner_transfer_with_fee;
use spl_token_confidential_transfer_proof_extraction::instruction::ProofLocation::ContextStateAccount;
use crate::call::{AccountRef, Call, CallView, le_bytes, writable, readonly};
use crate::fee::{FeeConfig, FeeSchedule, epoch_fee};
use crate::keys::{Key, is_zero, SYSTEM_PROGRAM_ID, TOKEN_2022_PROGRAM_ID, TOKEN_PROGRAM_ID};

verus! {

/// The state a new token account of a mint starts in.
#[derive(Clone, Copy, Debug, PartialEq, Eq, Structural)]
pub enum DefaultState {
    Uninitialized,
    Initialized,
    Frozen,
}

/// Whether Token-2022 can store an optional key: it is absent, or not all zero.
pub open spec fn is_storable(key: Option<Key>) -> bool {
    key matches Some(k) ==> !is_zero(k)
}

/// Whether `program` is a token program that the base-mint builders accept.
pub open spec fn is_token_program(program: Key) -> bool {
    program == TOKEN_2022_PROGRAM_ID || program == TOKEN_PROGRAM_ID
}

/// Whether Token-2022 gives some extension type this number: it numbers them from 0 to 27.
pub open spec fn is_extension_code(code: u16) -> bool {
    code <= 27
}

/// The number Token-2022 gives an account state.
pub open spec fn state_code(state: DefaultState) -> u8 {
    match state {
        DefaultState::Uninitialized => 0,
        DefaultState::Initialized => 1,
        DefaultState::Frozen => 2,
    }
}

/// How Token-2022 packs an optional key into instruction data: a 1 and the key, or a 0.
pub open spec fn packed_optional_key(key: Option<Key>) -> Seq<u8> {
    match key {
        Some(k) => seq![1u8] + k@,
        None => seq![0u8],
    }
}

/// An optional non-zero key as 32 bytes: the key, or 32 zero bytes for none.
pub open spec fn pod_optional_key(key: Option<Key>) -> Seq<u8> {
    match key {
        Some(k) => k@,
        None => Seq::new(32, |i: int| 0u8),
    }
}

/// The numbers of a list of extension types, two little-endian bytes each.
pub open spec fn extension_code_bytes(codes: Seq<u16>) -> Seq<u8>
    decreases codes.len(),
{
    if codes.len() == 0 {
        seq![]
    } else {
        extension_code_bytes(codes.drop_last()) + le_bytes(codes.last() as int, 2)
    }
}

// ---------------------------------------------------------------------------------------
// What the builders issue.

/// What `transfer_fee::instruction::initialize_transfer_fee_config` builds: the transfer fee
/// extension (26), its `InitializeTransferFeeConfig` (0), both authorities, the rate and the cap.
pub open spec fn initialize_transfer_fee_config_call(program: Key, mint: Key, config_authority: Option<Key>, withdraw_authority: Option<Key>, basis_points: u16, maximum_fee: u64) -> CallView {
    CallView {
        program_id: program,
        accounts: seq![writable(mint, false)],
        data: seq![26u8, 0u8] + packed_optional_key(config_authority) + packed_optional_key(withdraw_authority)
            + le_bytes(basis_points as int, 2) + le_bytes(maximum_fee as int, 8),
    }
}

/// What `transfer_fee::instruction::transfer_checked_with_fee` builds with no multisig signers:
/// the transfer fee extension (26), its `TransferCheckedWithFee` (1), amount, decimals and fee.
pub open spec fn transfer_checked_with_fee_call(program: Key, source: Key, mint: Key, destination: Key, authority: Key, amount: u64, decimals: u8, fee: u64) -> CallView {
    CallView {
        program_id: program,
        accounts: seq![writable(source, false), readonly(mint, false), writable(destination, false), readonly(authority, true)],
        data: seq![26u8, 1u8] + le_bytes(amount as int, 8) + seq![decimals] + le_bytes(fee as int, 8),
    }
}

/// What `metadata_pointer::instruction::initialize` builds: the metadata pointer extension (39),
/// its `Initialize` (0), then the authority and the metadata address as 32 bytes each.
pub open spec fn initialize_metadata_pointer_call(program: Key, mint: Key, authority: Option<Key>, metadata_address: Option<Key>) -> CallView {
    CallView {
        program_id: program,
        accounts: seq![writable(mint, false)],
        data: seq![39u8, 0u8] + pod_optional_key(authority) + pod_optional_key(metadata_address),
    }
}

/// What `default_account_state::instruction::initialize_default_account_state` builds: the
/// default account state extension (28), its `Initialize` (0) and the state.
pub open spec fn initialize_default_account_state_call(program: Key, mint: Key, state: DefaultState) -> CallView {
    CallView {
        program_id: program,
        accounts: seq![writable(mint, false)],
        data: seq![28u8, 0u8, state_code(state)],
    }
}

/// What `instruction::initialize_mint_close_authority` builds: `InitializeMintCloseAuthority`
/// (25) and the close authority.
pub open spec fn initialize_mint_close_authority_call(program: Key, mint: Key, close_authority: Option<Key>) -> CallView {
    CallView {
        program_id: program,
        accounts: seq![writable(mint, false)],
        data: seq![25u8] + packed_optional_key(close_authority),
    }
}

/// What `instruction::initialize_permanent_delegate` builds: `InitializePermanentDelegate` (35)
/// and the delegate.
pub open spec fn initialize_permanent_delegate_call(program: Key, mint: Key, delegate: Key) -> CallView {
    CallView {
        program_id: program,
        accounts: seq![writable(mint, false)],
        data: seq![35u8] + delegate@,
    }
}

/// What `instruction::initialize_mint2` builds: `InitializeMint2` (20), the decimals, the mint
/// authority and the freeze authority.
pub open spec fn initialize_mint2_call(program: Key, mint: Key, mint_authority: Key, freeze_authority: Option<Key>, decimals: u8) -> CallView {
    CallView {
        program_id: program,
        accounts: seq![writable(mint, false)],
        data: seq![20u8, decimals] + mint_authority@ + packed_optional_key(freeze_authority),
    }
}

/// What `instruction::thaw_account` builds with no multisig signers: `ThawAccount` (11).
pub open spec fn thaw_account_call(program: Key, account: Key, mint: Key, owner: Key) -> CallView {
    CallView {
        program_id: program,
        accounts: seq![writable(account, false), readonly(mint, false), readonly(owner, true)],
        data: seq![11u8],
    }
}

/// What `instruction::reallocate` builds with no multisig signers: `Reallocate` (29) and the
/// number of each extension type, two bytes each.
pub open spec fn reallocate_call(program: Key, account: Key, payer: Key, owner: Key, extension_codes: Seq<u16>) -> CallView {
    CallView {
        program_id: program,
        accounts: seq![writable(account, false), writable(payer, true), readonly(SYSTEM_PROGRAM_ID, false), readonly(owner, true)],
        data: seq![29u8] + extension_code_bytes(extension_codes),
    }
}

/// What `confidential_transfer::instruction::initialize_mint` builds: the confidential transfer
/// extension (27), its `InitializeMint` (0), the authority as 32 bytes, the approval policy as
/// one byte, and the auditor key as 32 bytes.
pub open spec fn initialize_confidential_transfer_mint_call(program: Key, mint: Key, authority: Option<Key>, auto_approve_new_accounts: bool, auditor_elgamal_pubkey: Option<Key>) -> CallView {
    CallView {
        program_id: program,
        accounts: seq![writable(mint, false)],
        data: seq![27u8, 0u8] + pod_optional_key(authority) + seq![if auto_approve_new_accounts { 1u8 } else { 0u8 }]
            + pod_optional_key(auditor_elgamal_pubkey),
    }
}

/// What `confidential_transfer_fee::instruction::initialize_confidential_transfer_fee_config`
/// builds: the confidential transfer fee extension (37), its
/// `InitializeConfidentialTransferFeeConfig` (0), the authority as 32 bytes and the ElGamal key.
pub open spec fn initialize_confidential_transfer_fee_config_call(program: Key, mint: Key, authority: Option<Key>, withdraw_withheld_authority_elgamal_pubkey: Key) -> CallView {
    CallView {
        program_id: program,
        accounts: seq![writable(mint, false)],
        data: seq![37u8, 0u8] + pod_optional_key(authority) + withdraw_withheld_authority_elgamal_pubkey@,
    }
}

/// What `confidential_transfer::instruction::approve_account` builds with no multisig signers:
/// the confidential transfer extension (27) and its `ApproveAccount` (3).
pub open spec fn approve_account_call(program: Key, account: Key, mint: Key, authority: Key) -> CallView {
    CallView {
        program_id: program,
        accounts: seq![writable(account, false), readonly(mint, false), readonly(authority, true)],
        data: seq![27u8, 3u8],
    }
}

/// What `confidential_transfer::instruction::inner_configure_account` builds with no multisig
/// signers and the proof in a context state account: the confidential transfer extension (27),
/// its `ConfigureAccount` (2), the encrypted zero balance, the pending-credit limit and a proof
/// instruction offset of 0.
pub open spec fn configure_account_call(program: Key, account: Key, mint: Key, decryptable_zero_balance: Seq<u8>, maximum_pending_balance_credit_counter: u64, authority: Key, proof_context: Key) -> CallView {
    CallView {
        program_id: program,
        accounts: seq![writable(account, false), readonly(mint, false), readonly(proof_context, false), readonly(authority, true)],
        data: seq![27u8, 2u8] + decryptable_zero_balance + le_bytes(maximum_pending_balance_credit_counter as int, 8) + seq![0u8],
    }
}

/// What `confidential_transfer::instruction::inner_transfer_with_fee` builds with no multisig
/// signers and every proof in a context state account: the confidential transfer extension (27),
/// its `TransferWithFee` (13), the new decryptable balance, both auditor ciphertexts and five
/// proof instruction offsets of 0.
pub open spec fn transfer_with_fee_call(program: Key, source: Key, mint: Key, destination: Key, new_source_decryptable_available_balance: Seq<u8>, auditor_ciphertext_lo: Seq<u8>, auditor_ciphertext_hi: Seq<u8>, authority: Key, proofs: Seq<Key>) -> CallView {
    CallView {
        program_id: program,
        accounts: seq![
            writable(source, false), readonly(mint, false), writable(destination, false),
            readonly(proofs[0], false), readonly(proofs[1], false), readonly(proofs[2], false),
            readonly(proofs[3], false), readonly(proofs[4], false), readonly(authority, true),
        ],
        data: seq![27u8, 13u8] + new_source_decryptable_available_balance + auditor_ciphertext_lo + auditor_ciphertext_hi
            + seq![0u8, 0u8, 0u8, 0u8, 0u8],
    }
}

/// The account length that `ExtensionType::try_calculate_account_len::<Mint>` gives for the
/// extension types with these numbers, or `None` where it fails.
pub uninterp spec fn mint_account_len(extension_codes: Seq<u16>) -> Option<usize>;

/// The transfer fee settings that `StateWithExtensions::<Mint>::unpack` followed by
/// `get_extension::<TransferFeeConfig>` reads from these mint account bytes, or `None`.
pub uninterp spec fn transfer_fee_config_of(mint_data: Seq<u8>) -> Option<FeeConfig>;

/// The numbers of the extension types that `StateWithExtensions::<Mint>::unpack` followed by
/// `get_extension_types` finds in these mint account bytes, or `None`.
pub uninterp spec fn extension_codes_of(mint_data: Seq<u8>) -> Option<Seq<u16>>;

// ---------------------------------------------------------------------------------------
// Builders.

/// Calls `transfer_fee::instruction::initialize_transfer_fee_config`. It refuses any program
/// but Token-2022; otherwise it names the mint, writable, and encodes the fee settings.
#[verifier::external_body]
pub(crate) fn initialize_transfer_fee_config(program: &Key, mint: &Key, config_authority: Option<Key>, withdraw_authority: Option<Key>, basis_points: u16, maximum_fee: u64) -> (r: Result<Call, ProgramError>)
    ensures
        r is Ok <==> (*program == TOKEN_2022_PROGRAM_ID),
        r matches Ok(c) ==> c@ == initialize_transfer_fee_config_call(*program, *mint, config_authority, withdraw_authority, basis_points, maximum_fee),
{
    let (cfg, wd) = (config_authority.map(Pubkey::from), withdraw_authority.map(Pubkey::from));
    transfer_fee::instruction::initialize_transfer_fee_config(&Pubkey::from(*program), &Pubkey::from(*mint), cfg.as_ref(), wd.as_ref(), basis_points, maximum_fee)
        .map(|ix| Call { program_id: ix.program_id.to_bytes(), accounts: ix.accounts.into_iter().map(|AccountMeta { pubkey, is_signer, is_writable }| AccountRef { key: pubkey.to_bytes(), is_signer, is_writable }).collect(), data: ix.data })
}

/// Calls `transfer_fee::instruction::transfer_checked_with_fee` with no multisig signers. It
/// refuses any program but Token-2022; otherwise it names the source (writable), the mint, the
/// destination (writable) and the authority (signer), and encodes amount, decimals and fee.
#[verifier::external_body]
pub(crate) fn transfer_checked_with_fee(program: &Key, source: &Key, mint: &Key, destination: &Key, authority: &Key, amount: u64, decimals: u8, fee: u64) -> (r: Result<Call, ProgramError>)
    ensures
        r is Ok <==> (*program == TOKEN_2022_PROGRAM_ID),
        r matches Ok(c) ==> c@ == transfer_checked_with_fee_call(*program, *source, *mint, *destination, *authority, amount, decimals, fee),
{
    let p = |k: &Key| Pubkey::from(*k);
    transfer_fee::instruction::transfer_checked_with_fee(&p(program), &p(source), &p(mint), &p(destination), &p(authority), &[], amount, decimals, fee)
        .map(|ix| Call { program_id: ix.program_id.to_bytes(), accounts: ix.accounts.into_iter().map(|AccountMeta { pubkey, is_signer, is_writable }| AccountRef { key: pubkey.to_bytes(), is_signer, is_writable }).collect(), data: ix.data })
}

/// Calls `metadata_pointer::instruction::initialize`. It refuses any program but Token-2022,
/// and an authority or metadata address of all zero bytes; otherwise it names the mint, writable.
#[verifier::external_body]
pub(crate) fn initialize_metadata_pointer(program: &Key, mint: &Key, authority: Option<Key>, metadata_address: Option<Key>) -> (r: Result<Call, ProgramError>)
    ensures
        r is Ok <==> (*program == TOKEN_2022_PROGRAM_ID && is_storable(authority) && is_storable(metadata_address)),
        r matches Ok(c) ==> c@ == initialize_metadata_pointer_call(*program, *mint, authority, metadata_address),
{
    metadata_pointer::instruction::initialize(&Pubkey::from(*program), &Pubkey::from(*mint), authority.map(Pubkey::from), metadata_address.map(Pubkey::from))
        .map(|ix| Call { program_id: ix.program_id.to_bytes(), accounts: ix.accounts.into_iter().map(|AccountMeta { pubkey, is_signer, is_writable }| AccountRef { key: pubkey.to_bytes(), is_signer, is_writable }).collect(), data: ix.data })
}

/// Calls `default_account_state::instruction::initialize_default_account_state`. It refuses any
/// program but Token-2022; otherwise it names the mint, writable, and encodes the state.
#[verifier::external_body]
pub(crate) fn initialize_default_account_state(program: &Key, mint: &Key, state: DefaultState) -> (r: Result<Call, ProgramError>)
    ensures
        r is Ok <==> (*program == TOKEN_2022_PROGRAM_ID),
        r matches Ok(c) ==> c@ == initialize_default_account_state_call(*program, *mint, state),
{
    let state = match state { DefaultState::Uninitialized => AccountState::Uninitialized, DefaultState::Initialized => AccountState::Initialized, DefaultState::Frozen => AccountState::Frozen };
    default_account_state::instruction::initialize_default_account_state(&Pubkey::from(*program), &Pubkey::from(*mint), &state)
        .map(|ix| Call { program_id: ix.program_id.to_bytes(), accounts: ix.accounts.into_iter().map(|AccountMeta { pubkey, is_signer, is_writable }| AccountRef { key: pubkey.to_bytes(), is_signer, is_writable }).collect(), data: ix.data })
}

/// Calls `instruction::initialize_mint_close_authority`. It refuses any program but Token-2022;
/// otherwise it names the mint, writable, and encodes the close authority.
#[verifier::external_body]
pub(crate) fn initialize_mint_close_authority(program: &Key, mint: &Key, close_authority: Option<Key>) -> (r: Result<Call, ProgramError>)
    ensures
        r is Ok <==> (*program == TOKEN_2022_PROGRAM_ID),
        r matches Ok(c) ==> c@ == initialize_mint_close_authority_call(*program, *mint, close_authority),
{
    let close = close_authority.map(Pubkey::from);
    token::instruction::initialize_mint_close_authority(&Pubkey::from(*program), &Pubkey::from(*mint), close.as_ref())
        .map(|ix| Call { program_id: ix.program_id.to_bytes(), accounts: ix.accounts.into_iter().map(|AccountMeta { pubkey, is_signer, is_writable }| AccountRef { key: pubkey.to_bytes(), is_signer, is_writable }).collect(), data: ix.data })
}

/// Calls `instruction::initialize_permanent_delegate`. It refuses any program but Token-2022;
/// otherwise it names the mint, writable, and encodes the delegate.
#[verifier::external_body]
pub(crate) fn initialize_permanent_delegate(program: &Key, mint: &Key, delegate: &Key) -> (r: Result<Call, ProgramError>)
    ensures
        r is Ok <==> (*program == TOKEN_2022_PROGRAM_ID),
        r matches Ok(c) ==> c@ == initialize_permanent_delegate_call(*program, *mint, *delegate),
{
    token::instruction::initialize_permanent_delegate(&Pubkey::from(*program), &Pubkey::from(*mint), &Pubkey::from(*delegate))
        .map(|ix| Call { program_id: ix.program_id.to_bytes(), accounts: ix.accounts.into_iter().map(|AccountMeta { pubkey, is_signer, is_writable }| AccountRef { key: pubkey.to_bytes(), is_signer, is_writable }).collect(), data: ix.data })
}

/// Calls `instruction::initialize_mint2`. It refuses any program but Token-2022 and the legacy
/// token program; otherwise it names the mint, writable, and encodes authorities and decimals.
#[verifier::external_body]
pub(crate) fn initialize_mint2(program: &Key, mint: &Key, mint_authority: &Key, freeze_authority: Option<Key>, decimals: u8) -> (r: Result<Call, ProgramError>)
    ensures
        r is Ok <==> (is_token_program(*program)),
        r matches Ok(c) ==> c@ == initialize_mint2_call(*program, *mint, *mint_authority, freeze_authority, decimals),
{
    let freeze = freeze_authority.map(Pubkey::from);
    token::instruction::initialize_mint2(&Pubkey::from(*program), &Pubkey::from(*mint), &Pubkey::from(*mint_authority), freeze.as_ref(), decimals)
        .map(|ix| Call { program_id: ix.program_id.to_bytes(), accounts: ix.accounts.into_iter().map(|AccountMeta { pubkey, is_signer, is_writable }| AccountRef { key: pubkey.to_bytes(), is_signer, is_writable }).collect(), data: ix.data })
}

/// Calls `instruction::thaw_account` with no multisig signers. It refuses any program but
/// Token-2022 and the legacy token program; otherwise it names the account (writable), the
/// mint and the freeze authority (signer).
#[verifier::external_body]
pub(crate) fn thaw_account(program: &Key, account: &Key, mint: &Key, owner: &Key) -> (r: Result<Call, ProgramError>)
    ensures
        r is Ok <==> (is_token_program(*program)),
        r matches Ok(c) ==> c@ == thaw_account_call(*program, *account, *mint, *owner),
{
    let p = |k: &Key| Pubkey::from(*k);
    token::instruction::thaw_account(&p(program), &p(account), &p(mint), &p(owner), &[])
        .map(|ix| Call { program_id: ix.program_id.to_bytes(), accounts: ix.accounts.into_iter().map(|AccountMeta { pubkey, is_signer, is_writable }| AccountRef { key: pubkey.to_bytes(), is_signer, is_writable }).collect(), data: ix.data })
}

/// Calls `instruction::reallocate` with no multisig signers, after turning each number into its
/// extension type. It refuses any program but Token-2022 and any number that names no extension
/// type; otherwise it names the account (writable), the payer (writable, signer), the system
/// program and the owner (signer).
#[verifier::external_body]
pub(crate) fn reallocate(program: &Key, account: &Key, payer: &Key, owner: &Key, extension_codes: &[u16]) -> (r: Result<Call, ProgramError>)
    ensures
        r is Ok <==> (*program == TOKEN_2022_PROGRAM_ID && forall|i: int| 0 <= i < extension_codes@.len() ==> is_extension_code(#[trigger] extension_codes@[i])),
        r matches Ok(c) ==> c@ == reallocate_call(*program, *account, *payer, *owner, extension_codes@),
{
    let p = |k: &Key| Pubkey::from(*k);
    let types = extension_codes.iter().map(|c| ExtensionType::try_from(*c).map_err(|_| ProgramError::InvalidArgument)).collect::<Result<Vec<ExtensionType>, ProgramError>>()?;
    token::instruction::reallocate(&p(program), &p(account), &p(payer), &p(owner), &[], &types)
        .map(|ix| Call { program_id: ix.program_id.to_bytes(), accounts: ix.accounts.into_iter().map(|AccountMeta { pubkey, is_signer, is_writable }| AccountRef { key: pubkey.to_bytes(), is_signer, is_writable }).collect(), data: ix.data })
}

/// Calls `confidential_transfer::instruction::initialize_mint`. It refuses any program but
/// Token-2022, and an authority or auditor key of all zero bytes; otherwise it names the mint,
/// writable, and encodes the authority, the approval policy and the auditor.
#[verifier::external_body]
pub(crate) fn initialize_confidential_transfer_mint(program: &Key, mint: &Key, authority: Option<Key>, auto_approve_new_accounts: bool, auditor_elgamal_pubkey: Option<Key>) -> (r: Result<Call, ProgramError>)
    ensures
        r is Ok <==> (*program == TOKEN_2022_PROGRAM_ID && is_storable(authority) && is_storable(auditor_elgamal_pubkey)),
        r matches Ok(c) ==> c@ == initialize_confidential_transfer_mint_call(*program, *mint, authority, auto_approve_new_accounts, auditor_elgamal_pubkey),
{
    let auditor = auditor_elgamal_pubkey.map(PodElGamalPubkey::from);
    confidential_transfer::instruction::initialize_mint(&Pubkey::from(*program), &Pubkey::from(*mint), authority.map(Pubkey::from), auto_approve_new_accounts, auditor)
        .map(|ix| Call { program_id: ix.program_id.to_bytes(), accounts: ix.accounts.into_iter().map(|AccountMeta { pubkey, is_signer, is_writable }| AccountRef { key: pubkey.to_bytes(), is_signer, is_writable }).collect(), data: ix.data })
}

/// Calls `confidential_transfer_fee::instruction::initialize_confidential_transfer_fee_config`.
/// It refuses any program but Token-2022 and an authority of all zero bytes; otherwise it names
/// the mint, writable, and encodes the authority and the withheld-fee ElGamal key.
#[verifier::external_body]
pub(crate) fn initialize_confidential_transfer_fee_config(program: &Key, mint: &Key, authority: Option<Key>, withdraw_withheld_authority_elgamal_pubkey: &Key) -> (r: Result<Call, ProgramError>)
    ensures
        r is Ok <==> (*program == TOKEN_2022_PROGRAM_ID && is_storable(authority)),
        r matches Ok(c) ==> c@ == initialize_confidential_transfer_fee_config_call(*program, *mint, authority, *withdraw_withheld_authority_elgamal_pubkey),
{
    let key = PodElGamalPubkey::from(*withdraw_withheld_authority_elgamal_pubkey);
    confidential_transfer_fee::instruction::initialize_confidential_transfer_fee_config(&Pubkey::from(*program), &Pubkey::from(*mint), authority.map(Pubkey::from), &key)
        .map(|ix| Call { program_id: ix.program_id.to_bytes(), accounts: ix.accounts.into_iter().map(|AccountMeta { pubkey, is_signer, is_writable }| AccountRef { key: pubkey.to_bytes(), is_signer, is_writable }).collect(), data: ix.data })
}

/// Calls `confidential_transfer::instruction::approve_account` with no multisig signers. It
/// refuses any program but Token-2022; otherwise it names the account (writable), the mint and
/// the authority (signer).
#[verifier::external_body]
pub(crate) fn approve_account(program: &Key, account: &Key, mint: &Key, authority: &Key) -> (r: Result<Call, ProgramError>)
    ensures
        r is Ok <==> (*program == TOKEN_2022_PROGRAM_ID),
        r matches Ok(c) ==> c@ == approve_account_call(*program, *account, *mint, *authority),
{
    let p = |k: &Key| Pubkey::from(*k);
    confidential_transfer::instruction::approve_account(&p(program), &p(account), &p(mint), &p(authority), &[])
        .map(|ix| Call { program_id: ix.program_id.to_bytes(), accounts: ix.accounts.into_iter().map(|AccountMeta { pubkey, is_signer, is_writable }| AccountRef { key: pubkey.to_bytes(), is_signer, is_writable }).collect(), data: ix.data })
}

/// Calls `confidential_transfer::instruction::inner_configure_account` with no multisig signers
/// and the proof in a context state account. It refuses any program but Token-2022; otherwise it
/// names the account (writable), the mint, the proof context and the owner (signer).
#[verifier::external_body]
pub(crate) fn configure_account(program: &Key, account: &Key, mint: &Key, decryptable_zero_balance: &[u8; 36], maximum_pending_balance_credit_counter: u64, authority: &Key, proof_context: &Key) -> (r: Result<Call, ProgramError>)
    ensures
        r is Ok <==> (*program == TOKEN_2022_PROGRAM_ID),
        r matches Ok(c) ==> c@ == configure_account_call(*program, *account, *mint, decryptable_zero_balance@, maximum_pending_balance_credit_counter, *authority, *proof_context),
{
    let p = |k: &Key| Pubkey::from(*k);
    let proof = p(proof_context);
    confidential_transfer::instruction::inner_configure_account(&p(program), &p(account), &p(mint), &PodAeCiphertext::from(*decryptable_zero_balance), maximum_pending_balance_credit_counter, &p(authority), &[], ContextStateAccount(&proof))
        .map(|ix| Call { program_id: ix.program_id.to_bytes(), accounts: ix.accounts.into_iter().map(|AccountMeta { pubkey, is_signer, is_writable }| AccountRef { key: pubkey.to_bytes(), is_signer, is_writable }).collect(), data: ix.data })
}

/// Calls `confidential_transfer::instruction::inner_transfer_with_fee` with no multisig signers
/// and every proof in a context state account, in the order equality, transfer ciphertext
/// validity, fee sigma, fee ciphertext validity, range. It refuses any program but Token-2022;
/// otherwise it names the source (writable), the mint, the destination (writable), the five
/// proof contexts in that order and the owner (signer).
#[verifier::external_body]
pub(crate) fn transfer_with_fee(program: &Key, source: &Key, mint: &Key, destination: &Key, balance: &[u8; 36], lo: &[u8; 64], hi: &[u8; 64], authority: &Key, proofs: &[Key; 5]) -> (r: Result<Call, ProgramError>)
    ensures
        r is Ok <==> (*program == TOKEN_2022_PROGRAM_ID),
        r matches Ok(c) ==> c@ == transfer_with_fee_call(*program, *source, *mint, *destination, balance@, lo@, hi@, *authority, proofs@),
{
    let [a, b, c, d, e] = proofs.map(Pubkey::from);
    inner_transfer_with_fee(&Pubkey::from(*program), &Pubkey::from(*source), &Pubkey::from(*mint), &Pubkey::from(*destination), &PodAeCiphertext::from(*balance), &PodElGamalCiphertext::from(*lo), &PodElGamalCiphertext::from(*hi), &Pubkey::from(*authority), &[], ContextStateAccount(&a), ContextStateAccount(&b), ContextStateAccount(&c), ContextStateAccount(&d), ContextStateAccount(&e))
        .map(|ix| Call { program_id: ix.program_id.to_bytes(), accounts: ix.accounts.into_iter().map(|AccountMeta { pubkey, is_signer, is_writable }| AccountRef { key: pubkey.to_bytes(), is_signer, is_writable }).collect(), data: ix.data })
}

// ---------------------------------------------------------------------------------------
// Account lengths and account readers.

/// Calls `ExtensionType::try_calculate_account_len::<Mint>` on the extension types with these
/// numbers; a number that names no extension type fails as the calculation does.
#[verifier::external_body]
pub(crate) fn calculate_mint_len(extension_codes: &[u16]) -> (r: Result<usize, ProgramError>)
    ensures
        r is Ok <==> (mint_account_len(extension_codes@) is Some),
        r matches Ok(len) ==> mint_account_len(extension_codes@) == Some(len),
{
    let types = extension_codes.iter().map(|c| ExtensionType::try_from(*c).map_err(|_| ProgramError::InvalidArgument)).collect::<Result<Vec<ExtensionType>, ProgramError>>()?;
    ExtensionType::try_calculate_account_len::<Mint>(&types)
}

/// Calls `StateWithExtensions::<Mint>::unpack` on the mint bytes, then `get_extension` for the
/// `TransferFeeConfig`, and keeps both fee schedules.
#[verifier::external_body]
pub(crate) fn read_transfer_fee_config(mint_data: &[u8]) -> (r: Result<FeeConfig, ProgramError>)
    ensures
        r is Ok <==> (transfer_fee_config_of(mint_data@) is Some),
        r matches Ok(config) ==> transfer_fee_config_of(mint_data@) == Some(config),
{
    let state = StateWithExtensions::<Mint>::unpack(mint_data)?;
    let c = state.get_extension::<TransferFeeConfig>()?;
    let s = |f: &TransferFee| FeeSchedule { epoch: f.epoch.into(), maximum_fee: f.maximum_fee.into(), basis_points: f.transfer_fee_basis_points.into() };
    Ok(FeeConfig { older: s(&c.older_transfer_fee), newer: s(&c.newer_transfer_fee) })
}

/// Calls `StateWithExtensions::<Mint>::unpack` on the mint bytes, then `get_extension_types`,
/// and keeps the number of each type.
#[verifier::external_body]
pub(crate) fn read_extension_codes(mint_data: &[u8]) -> (r: Result<Vec<u16>, ProgramError>)
    ensures
        r is Ok <==> (extension_codes_of(mint_data@) is Some),
        r matches Ok(codes) ==> extension_codes_of(mint_data@) == Some(codes@),
{
    let state = StateWithExtensions::<Mint>::unpack(mint_data)?;
    Ok(state.get_extension_types()?.into_iter().map(u16::from).collect())
}

/// Calls `TransferFeeConfig::calculate_epoch_fee` on a config that holds these two schedules.
/// As its source shows, it takes the newer schedule from the newer schedule's epoch on and the
/// older one before it, charges nothing for a zero rate or amount, and otherwise charges
/// `amount * rate / 10000` rounded up, capped at the schedule's maximum, failing where the
/// rounded-up fee does not fit in a `u64`.
#[verifier::external_body]
pub(crate) fn calculate_epoch_fee(config: &FeeConfig, epoch: u64, amount: u64) -> (r: Option<u64>)
    ensures
        r == epoch_fee(*config, epoch, amount),
{
    let s = |f: &FeeSchedule| TransferFee { epoch: f.epoch.into(), maximum_fee: f.maximum_fee.into(), transfer_fee_basis_points: f.basis_points.into() };
    let c = TransferFeeConfig { older_transfer_fee: s(&config.older), newer_transfer_fee: s(&config.newer), ..Default::default() };
    c.calculate_epoch_fee(epoch, amount)
}

} // verus!
