//! Trusted items for the system program's instruction builders.
use vstd::prelude::*;
use anchor_lang::prelude::{AccountMeta, Pubkey};
use anchor_lang::solana_program::system_instruction;
use crate::call::{AccountRef, Call, CallView, le_bytes, writable};
use crate::keys::{Key, SYSTEM_PROGRAM_ID};

verus! {

/// What `system_instruction::create_account` builds: an instruction for the system program that
/// names the funding account and the new account, both writable signers, and carries the
/// bincode encoding of `CreateAccount` (variant 0 as four bytes, then lamports, space, owner).
pub open spec fn create_account_call(from: Key, to: Key, lamports: u64, space: u64, owner: Key) -> CallView {
    CallView {
        program_id: SYSTEM_PROGRAM_ID,
        accounts: seq![writable(from, true), writable(to, true)],
        data: le_bytes(0, 4) + le_bytes(lamports as int, 8) + le_bytes(space as int, 8) + owner@,
    }
}

/// What `system_instruction::transfer` builds: an instruction for the system program that names
/// the sender, a writable signer, and the writable recipient, and carries the bincode encoding
/// of `Transfer` (variant 2 as four bytes, then lamports).
pub open spec fn system_transfer_call(from: Key, to: Key, lamports: u64) -> CallView {
    CallView {
        program_id: SYSTEM_PROGRAM_ID,
        accounts: seq![writable(from, true), writable(to, false)],
        data: le_bytes(2, 4) + le_bytes(lamports as int, 8),
    }
}

/// Calls `system_instruction::create_account`: an instruction for the system program that names
/// the funding account and the new account, both writable signers, and encodes the lamports,
/// the space and the owner.
#[verifier::external_body]
pub(crate) fn create_account(from: &Key, to: &Key, lamports: u64, space: u64, owner: &Key) -> (c: Call)
    ensures
        c@ == create_account_call(*from, *to, lamports, space, *owner),
{
    let ix = system_instruction::create_account(&Pubkey::from(*from), &Pubkey::from(*to), lamports, space, &Pubkey::from(*owner));
    Call { program_id: ix.program_id.to_bytes(), accounts: ix.accounts.into_iter().map(|AccountMeta { pubkey, is_signer, is_writable }| AccountRef { key: pubkey.to_bytes(), is_signer, is_writable }).collect(), data: ix.data }
}

/// Calls `system_instruction::transfer`: an instruction for the system program that names the
/// sender, a writable signer, and the writable recipient, and encodes the lamports.
#[verifier::external_body]
pub(crate) fn system_transfer(from: &Key, to: &Key, lamports: u64) -> (c: Call)
    ensures
        c@ == system_transfer_call(*from, *to, lamports),
{
    let ix = system_instruction::transfer(&Pubkey::from(*from), &Pubkey::from(*to), lamports);
    Call { program_id: ix.program_id.to_bytes(), accounts: ix.accounts.into_iter().map(|AccountMeta { pubkey, is_signer, is_writable }| AccountRef { key: pubkey.to_bytes(), is_signer, is_writable }).collect(), data: ix.data }
}

} // verus!
