use anchor_lang::prelude::Pubkey;
use anchor_lang::solana_program::instruction::Instruction;
use anchor_spl::token_2022::spl_token_2022::{
    extension::{confidential_transfer, ExtensionType},
    instruction,
    solana_zk_sdk::encryption::pod::{auth_encryption::PodAeCiphertext, elgamal::PodElGamalCiphertext},
};
use remittance_stablecoin::keys::{TOKEN_2022_PROGRAM_ID, TOKEN_PROGRAM_ID};
use remittance_stablecoin::{
    thaw_account, ApproveAccount, Call, ConfigureAccount, StablecoinError, ThawAccount,
    TransferConfidential,
};
use spl_token_confidential_transfer_proof_extraction::instruction::ProofLocation;

const MINT: [u8; 32] = [2; 32];
const AUTHORITY: [u8; 32] = [3; 32];
const ACCOUNT: [u8; 32] = [4; 32];
const OWNER: [u8; 32] = [5; 32];
const PAYER: [u8; 32] = [6; 32];
const PROOF: [u8; 32] = [7; 32];

fn pk(k: [u8; 32]) -> Pubkey {
    Pubkey::new_from_array(k)
}

fn plain(ix: Instruction) -> Call {
    let accounts = ix.accounts.iter().map(|m| remittance_stablecoin::AccountRef { key: m.pubkey.to_bytes(), is_signer: m.is_signer, is_writable: m.is_writable }).collect();
    Call { program_id: ix.program_id.to_bytes(), accounts, data: ix.data }
}

fn assert_same(a: &Call, b: &Call) {
    assert_eq!(a.program_id, b.program_id);
    assert_eq!(a.data, b.data);
    assert_eq!(a.accounts.len(), b.accounts.len());
    for (x, y) in a.accounts.iter().zip(b.accounts.iter()) {
        assert_eq!((x.key, x.is_signer, x.is_writable), (y.key, y.is_signer, y.is_writable));
    }
}

fn thaw_accounts() -> ThawAccount {
    ThawAccount { mint: MINT, token_account: ACCOUNT, authority: AUTHORITY, token_program: TOKEN_2022_PROGRAM_ID }
}

fn approve_accounts() -> ApproveAccount {
    ApproveAccount { mint: MINT, token_account: ACCOUNT, authority: AUTHORITY, token_program: TOKEN_2022_PROGRAM_ID }
}

fn configure_accounts() -> ConfigureAccount {
    ConfigureAccount { payer: PAYER, owner: OWNER, mint: MINT, token_account: ACCOUNT, proof_context: PROOF, token_program: TOKEN_2022_PROGRAM_ID, system_program: [0; 32] }
}

#[test]
fn thaws_only_the_approved_account_and_keeps_existing_and_future_accounts_frozen() {
    let calls = thaw_account(&thaw_accounts()).ok().unwrap();
    assert_eq!(calls.len(), 1);
    let expected = instruction::thaw_account(&pk(TOKEN_2022_PROGRAM_ID), &pk(ACCOUNT), &pk(MINT), &pk(AUTHORITY), &[]).unwrap();
    assert_same(&calls[0], &plain(expected));
    // Only the approved account is written; the mint, and with it the frozen default, is only read.
    let written: Vec<[u8; 32]> = calls[0].accounts.iter().filter(|a| a.is_writable).map(|a| a.key).collect();
    assert_eq!(written, vec![ACCOUNT]);
}

#[test]
fn thaw_accepts_only_token_programs() {
    let legacy = ThawAccount { token_program: TOKEN_PROGRAM_ID, ..thaw_accounts() };
    assert!(thaw_account(&legacy).is_ok());
    let other = ThawAccount { token_program: [8; 32], ..thaw_accounts() };
    assert!(matches!(thaw_account(&other), Err(StablecoinError::Program(_))));
}

#[test]
fn approves_confidential_use_without_thawing_or_changing_balances_and_keys() {
    let calls = approve_accounts().handler().ok().unwrap();
    assert_eq!(calls.len(), 1);
    let expected = confidential_transfer::instruction::approve_account(&pk(TOKEN_2022_PROGRAM_ID), &pk(ACCOUNT), &pk(MINT), &pk(AUTHORITY), &[]).unwrap();
    assert_same(&calls[0], &plain(expected));
    let thaw = instruction::thaw_account(&pk(TOKEN_2022_PROGRAM_ID), &pk(ACCOUNT), &pk(MINT), &pk(AUTHORITY), &[]).unwrap();
    assert_ne!(calls[0].data, thaw.data);
}

#[test]
fn test_approve_account_rejects_the_legacy_token_program() {
    let legacy = ApproveAccount { token_program: TOKEN_PROGRAM_ID, ..approve_accounts() };
    assert!(matches!(legacy.handler(), Err(StablecoinError::Program(_))));
}

#[test]
fn repeated_approval_is_idempotent() {
    let first = approve_accounts().handler().ok().unwrap();
    let second = approve_accounts().handler().ok().unwrap();
    assert_same(&first[0], &second[0]);
}

#[test]
fn configures_frozen_account_with_zero_balances_and_fees_but_without_approval() {
    let zero_balance = [11u8; 36];
    let calls = configure_accounts().handler(zero_balance, 65_536).ok().unwrap();
    assert_eq!(calls.len(), 2);
    let t = pk(TOKEN_2022_PROGRAM_ID);
    let reallocate = instruction::reallocate(&t, &pk(ACCOUNT), &pk(PAYER), &pk(OWNER), &[], &[ExtensionType::ConfidentialTransferAccount, ExtensionType::ConfidentialTransferFeeAmount]).unwrap();
    assert_same(&calls[0], &plain(reallocate));
    let proof = pk(PROOF);
    let configure = confidential_transfer::instruction::inner_configure_account(&t, &pk(ACCOUNT), &pk(MINT), &PodAeCiphertext::from(zero_balance), 65_536, &pk(OWNER), &[], ProofLocation::ContextStateAccount(&proof)).unwrap();
    assert_same(&calls[1], &plain(configure));
    let approve = confidential_transfer::instruction::approve_account(&t, &pk(ACCOUNT), &pk(MINT), &pk(AUTHORITY), &[]).unwrap();
    assert!(calls.iter().all(|c| c.data != approve.data));
}

#[test]
fn stores_the_owner_selected_pending_credit_limit() {
    let small = configure_accounts().handler([0u8; 36], 1).ok().unwrap();
    let large = configure_accounts().handler([0u8; 36], 65_536).ok().unwrap();
    assert_ne!(small[1].data, large[1].data);
    let t = pk(TOKEN_2022_PROGRAM_ID);
    let proof = pk(PROOF);
    let expected = confidential_transfer::instruction::inner_configure_account(&t, &pk(ACCOUNT), &pk(MINT), &PodAeCiphertext::from([0u8; 36]), 1, &pk(OWNER), &[], ProofLocation::ContextStateAccount(&proof)).unwrap();
    assert_same(&small[1], &plain(expected));
}

#[test]
fn test_configure_account_rejects_the_legacy_token_program() {
    let legacy = ConfigureAccount { token_program: TOKEN_PROGRAM_ID, ..configure_accounts() };
    assert!(matches!(legacy.handler([0u8; 36], 65_536), Err(StablecoinError::Program(_))));
}

#[test]
fn confidential_transfer_names_every_proof_in_order() {
    let accounts = TransferConfidential {
        owner: OWNER,
        mint: MINT,
        source: ACCOUNT,
        destination: [12; 32],
        equality_proof_context: [21; 32],
        ciphertext_validity_proof_context: [22; 32],
        range_proof_context: [23; 32],
        fee_sigma_proof_context: [24; 32],
        fee_ciphertext_validity_proof_context: [25; 32],
        token_program: TOKEN_2022_PROGRAM_ID,
    };
    let balance = [31u8; 36];
    let (lo, hi) = ([32u8; 64], [33u8; 64]);
    let calls = accounts.handler(balance, lo, hi).ok().unwrap();
    assert_eq!(calls.len(), 1);
    let keys = [pk([21; 32]), pk([22; 32]), pk([23; 32]), pk([24; 32]), pk([25; 32])];
    let expected = confidential_transfer::instruction::inner_transfer_with_fee(
        &pk(TOKEN_2022_PROGRAM_ID), &pk(ACCOUNT), &pk(MINT), &pk([12; 32]),
        &PodAeCiphertext::from(balance), &PodElGamalCiphertext::from(lo), &PodElGamalCiphertext::from(hi),
        &pk(OWNER), &[],
        ProofLocation::ContextStateAccount(&keys[0]),
        ProofLocation::ContextStateAccount(&keys[1]),
        ProofLocation::ContextStateAccount(&keys[3]),
        ProofLocation::ContextStateAccount(&keys[4]),
        ProofLocation::ContextStateAccount(&keys[2]),
    ).unwrap();
    assert_same(&calls[0], &plain(expected));
    let mut data = vec![27, 13];
    data.extend(balance);
    data.extend(lo);
    data.extend(hi);
    data.extend([0, 0, 0, 0, 0]);
    assert_eq!(calls[0].data, data);
    let legacy = TransferConfidential { token_program: TOKEN_PROGRAM_ID, ..accounts };
    assert!(matches!(legacy.handler(balance, lo, hi), Err(StablecoinError::Program(_))));
}

#[test]
fn account_instructions_carry_the_stated_bytes() {
    assert_eq!(thaw_accounts().handler().ok().unwrap()[0].data, vec![11]);
    assert_eq!(approve_accounts().handler().ok().unwrap()[0].data, vec![27, 3]);
    let configure = configure_accounts().handler([0u8; 36], 65_536).ok().unwrap();
    assert_eq!(configure[0].data, vec![29, 5, 0, 17, 0]);
    let mut data = vec![27, 2];
    data.extend([0u8; 36]);
    data.extend([0, 0, 1, 0, 0, 0, 0, 0, 0]);
    assert_eq!(configure[1].data, data);
}
