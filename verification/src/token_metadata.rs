//! Trusted items for the token metadata interface and the mint length it needs.
use vstd::prelude::*;
use anchor_lang::prelude::{AccountMeta, ProgramError, Pubkey};
use anchor_spl::token_2022::spl_token_2022::{
    extension::{BaseStateWithExtensions, StateWithExtensions},
    state::Mint,
};
use spl_token_metadata_interface::{instruction, state::TokenMetadata};
use crate::call::{AccountRef, Call, CallView, writable, readonly};
use crate::keys::{Key, is_zero};

verus! {

/// The data of the instruction that `spl_token_metadata_interface::instruction::initialize`
/// builds: the interface's hashed discriminator, then the borsh encoding of the name, symbol
/// and URI.
pub uninterp spec fn token_metadata_initialize_data(name: Seq<char>, symbol: Seq<char>, uri: Seq<char>) -> Seq<u8>;

/// What `spl_token_metadata_interface::instruction::initialize` builds: an instruction for
/// `program` that names the metadata account (writable), the update authority, the mint and the
/// mint authority (signer).
pub open spec fn initialize_token_metadata_call(program: Key, metadata: Key, update_authority: Key, mint: Key, mint_authority: Key, name: Seq<char>, symbol: Seq<char>, uri: Seq<char>) -> CallView {
    CallView {
        program_id: program,
        accounts: seq![writable(metadata, false), readonly(update_authority, false), readonly(mint, false), readonly(mint_authority, true)],
        data: token_metadata_initialize_data(name, symbol, uri),
    }
}

/// The account length that `StateWithExtensions::<Mint>::unpack` followed by
/// `try_get_new_account_len_for_variable_len_extension` gives for these mint bytes once they
/// also hold this token metadata (with no additional fields), or `None` where either fails.
pub uninterp spec fn mint_len_with_metadata(mint_data: Seq<u8>, update_authority: Key, mint: Key, name: Seq<char>, symbol: Seq<char>, uri: Seq<char>) -> Option<usize>;

/// Calls `spl_token_metadata_interface::instruction::initialize`: an instruction for `program`
/// that names the metadata account (writable), the update authority, the mint and the mint
/// authority (signer), and encodes the name, symbol and URI.
#[verifier::external_body]
pub(crate) fn initialize_token_metadata(program: &Key, metadata: &Key, update_authority: &Key, mint: &Key, mint_authority: &Key, name: &String, symbol: &String, uri: &String) -> (c: Call)
    ensures
        c@ == initialize_token_metadata_call(*program, *metadata, *update_authority, *mint, *mint_authority, name@, symbol@, uri@),
        c@.data == token_metadata_initialize_data(name@, symbol@, uri@),
{
    let p = |k: &Key| Pubkey::from(*k);
    let ix = instruction::initialize(&p(program), &p(metadata), &p(update_authority), &p(mint), &p(mint_authority), name.clone(), symbol.clone(), uri.clone());
    Call { program_id: ix.program_id.to_bytes(), accounts: ix.accounts.into_iter().map(|AccountMeta { pubkey, is_signer, is_writable }| AccountRef { key: pubkey.to_bytes(), is_signer, is_writable }).collect(), data: ix.data }
}

/// Builds the `TokenMetadata` for this mint (update authority, mint, name, symbol, URI, no
/// additional fields), then calls `StateWithExtensions::<Mint>::unpack` on the mint bytes and
/// `try_get_new_account_len_for_variable_len_extension` with it. The update authority is never
/// all zero bytes, so turning it into an optional non-zero key cannot fail.
#[verifier::external_body]
pub(crate) fn calculate_mint_len_with_metadata(mint_data: &[u8], update_authority: &Key, mint: &Key, name: &String, symbol: &String, uri: &String) -> (r: Result<usize, ProgramError>)
    requires
        !is_zero(*update_authority),
    ensures
        r is Ok <==> (mint_len_with_metadata(mint_data@, *update_authority, *mint, name@, symbol@, uri@) is Some),
        r matches Ok(len) ==> mint_len_with_metadata(mint_data@, *update_authority, *mint, name@, symbol@, uri@) == Some(len),
{
    let update_authority = Some(Pubkey::from(*update_authority)).try_into()?;
    let metadata = TokenMetadata { update_authority, mint: Pubkey::from(*mint), name: name.clone(), symbol: symbol.clone(), uri: uri.clone(), additional_metadata: Vec::new() };
    StateWithExtensions::<Mint>::unpack(mint_data)?.try_get_new_account_len_for_variable_len_extension(&metadata)
}

} // verus!
