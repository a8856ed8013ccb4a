use vstd::prelude::*;
use crate::call::{Call, CallView, call_views, issues, le_bytes, lemma_issues_its_views, readonly, writable};
use crate::error::{ErrorCode, StablecoinError};
use crate::extension::{ExtensionKind, contains_code};
use crate::instructions::initialize_mint::InitializeMint;
use crate::keys::{Key, is_zero, is_zero_key, SYSTEM_PROGRAM_ID};
use crate::token_2022::initialize_metadata_pointer_call;
use crate::system::{system_transfer, system_transfer_call};
use crate::token_2022::{extension_codes_of, read_extension_codes};
use crate::token_metadata::{
    calculate_mint_len_with_metadata, initialize_token_metadata, initialize_token_metadata_call,
    token_metadata_initialize_data,
    mint_len_with_metadata,
};

verus! {

/// The accounts of `initialize_metadata`.
#[derive(Clone, Copy, Debug)]
pub struct InitializeMetadata {
    /// Funds whatever rent the larger mint account still lacks.
    pub payer: Key,
    /// The mint, whose metadata pointer points at itself.
    pub mint: Key,
    /// The mint authority, which also becomes the metadata update authority.
    pub authority: Key,
    pub token_program: Key,
    pub system_program: Key,
}

/// The lamports an account holding `balance` still needs to reach `required`.
pub open spec fn spec_rent_shortfall(required: u64, balance: u64) -> u64 {
    if required > balance {
        (required - balance) as u64
    } else {
        0
    }
}

/// The lamports an account holding `balance` still needs to reach `required`: the difference,
/// or nothing when it already holds enough.
pub fn rent_shortfall(required: u64, balance: u64) -> (r: u64)
    ensures
        r == spec_rent_shortfall(required, balance),
{
    required.saturating_sub(balance)
}

/// Topping an account up by its shortfall brings it to the requirement, and nothing is paid to
/// an account that already meets it.
pub proof fn lemma_top_up_reaches_requirement(required: u64, balance: u64)
    ensures
        balance + spec_rent_shortfall(required, balance) >= required,
        spec_rent_shortfall(required, balance) == 0 <==> balance >= required,
        balance < required ==> balance + spec_rent_shortfall(required, balance) == required,
{
}

/// Whether the mint bytes already carry token metadata.
pub open spec fn has_metadata(codes: Seq<u16>) -> bool {
    codes.contains(ExtensionKind::TokenMetadata.spec_code())
}

impl InitializeMetadata {
    /// The instructions that store the metadata: a transfer from the payer of the rent the
    /// mint lacks, only when it lacks some; then the metadata itself, with the mint authority
    /// as update authority.
    pub open spec fn spec_calls(self, rent_exempt_lamports: u64, mint_lamports: u64, name: Seq<char>, symbol: Seq<char>, uri: Seq<char>) -> Seq<CallView> {
        let top_up = spec_rent_shortfall(rent_exempt_lamports, mint_lamports);
        (if top_up > 0 { seq![system_transfer_call(self.payer, self.mint, top_up)] } else { seq![] })
            + seq![initialize_token_metadata_call(self.token_program, self.mint, self.authority, self.mint, self.authority, name, symbol, uri)]
    }

    /// The instructions that store the metadata once the mint needs `rent_exempt_lamports` and
    /// holds `mint_lamports`.
    pub fn calls(&self, rent_exempt_lamports: u64, mint_lamports: u64, name: &String, symbol: &String, uri: &String) -> (r: Vec<Call>)
        ensures
            issues(r@, self.spec_calls(rent_exempt_lamports, mint_lamports, name@, symbol@, uri@)),
    {
        let mut calls: Vec<Call> = Vec::new();
        let additional_lamports: u64 = rent_shortfall(rent_exempt_lamports, mint_lamports);
        if additional_lamports > 0 {
            calls.push(system_transfer(&self.payer, &self.mint, additional_lamports));
        }
        calls.push(initialize_token_metadata(&self.token_program, &self.mint, &self.authority, &self.mint, &self.authority, name, symbol, uri));
        assert(call_views(calls@) =~= self.spec_calls(rent_exempt_lamports, mint_lamports, name@, symbol@, uri@));
        proof { lemma_issues_its_views(calls@); }
        calls
    }

    /// The size of the mint once it holds this metadata. Fails with `InvalidArgument` for an
    /// all-zero authority, with the reader's error for unreadable mint bytes, and with
    /// `MetadataAlreadyInitialized` when the mint already has metadata.
    pub fn space(&self, mint_data: &[u8], name: &String, symbol: &String, uri: &String) -> (r: Result<usize, StablecoinError>)
        ensures
            is_zero(self.authority) ==> r matches Err(StablecoinError::InvalidArgument),
            !is_zero(self.authority) ==> match extension_codes_of(mint_data@) {
                None => r matches Err(StablecoinError::Program(_)),
                Some(codes) => if has_metadata(codes) {
                    r matches Err(StablecoinError::Custom(ErrorCode::MetadataAlreadyInitialized))
                } else {
                    match mint_len_with_metadata(mint_data@, self.authority, self.mint, name@, symbol@, uri@) {
                        None => r matches Err(StablecoinError::Program(_)),
                        Some(space) => r == Ok::<usize, StablecoinError>(space),
                    }
                },
            },
    {
        if is_zero_key(&self.authority) {
            return Err(StablecoinError::InvalidArgument);
        }
        let codes = match read_extension_codes(mint_data) {
            Ok(codes) => codes,
            Err(e) => return Err(StablecoinError::Program(e)),
        };
        if contains_code(codes.as_slice(), ExtensionKind::TokenMetadata.code()) {
            return Err(StablecoinError::Custom(ErrorCode::MetadataAlreadyInitialized));
        }
        match calculate_mint_len_with_metadata(mint_data, &self.authority, &self.mint, name, symbol, uri) {
            Ok(space) => Ok(space),
            Err(e) => Err(StablecoinError::Program(e)),
        }
    }

    /// Stores the token name, symbol, and URI on the mint itself. Token-2022 reallocates the
    /// mint; the payer only funds the rent shortfall of the larger account. The program passes
    /// the mint's current lamports and, as `rent_exempt_lamports`, the rent-exempt minimum of
    /// the size that `space` gives.
    pub fn handler(&self, mint_data: &[u8], mint_lamports: u64, rent_exempt_lamports: u64, name: String, symbol: String, uri: String) -> (r: Result<Vec<Call>, StablecoinError>)
        ensures
            is_zero(self.authority) ==> r matches Err(StablecoinError::InvalidArgument),
            !is_zero(self.authority) ==> match extension_codes_of(mint_data@) {
                None => r matches Err(StablecoinError::Program(_)),
                Some(codes) => if has_metadata(codes) {
                    r matches Err(StablecoinError::Custom(ErrorCode::MetadataAlreadyInitialized))
                } else {
                    match mint_len_with_metadata(mint_data@, self.authority, self.mint, name@, symbol@, uri@) {
                        None => r matches Err(StablecoinError::Program(_)),
                        Some(_) => r is Ok,
                    }
                },
            },
            r matches Ok(calls) ==> issues(calls@, self.spec_calls(rent_exempt_lamports, mint_lamports, name@, symbol@, uri@)),
    {
        match self.space(mint_data, &name, &symbol, &uri) {
            Ok(_) => {},
            Err(e) => return Err(e),
        }
        Ok(self.calls(rent_exempt_lamports, mint_lamports, &name, &symbol, &uri))
    }
}

/// The metadata lands where the mint creation pointed: for a mint created by `initialize_mint`
/// and the same mint, issuer and token program, the pointer set up at creation names the mint
/// itself as metadata address with the issuer as its authority, and `initialize_metadata`
/// writes the metadata into that same account with the issuer as update authority.
pub proof fn lemma_metadata_is_stored_where_the_pointer_points(
    creation: InitializeMint,
    storage: InitializeMetadata,
    space: usize,
    lamports: u64,
    decimals: u8,
    transfer_fee_basis_points: u16,
    maximum_fee: u64,
    rent_exempt_lamports: u64,
    mint_lamports: u64,
    name: Seq<char>,
    symbol: Seq<char>,
    uri: Seq<char>,
)
    requires
        storage.mint == creation.mint,
        storage.authority == creation.authority,
        storage.token_program == creation.token_program,
    ensures
        creation.spec_calls(space, lamports, decimals, transfer_fee_basis_points, maximum_fee)[2]
            == initialize_metadata_pointer_call(creation.token_program, creation.mint, Some(creation.authority), Some(creation.mint)),
        storage.spec_calls(rent_exempt_lamports, mint_lamports, name, symbol, uri).last()
            == initialize_token_metadata_call(creation.token_program, creation.mint, creation.authority, creation.mint, creation.authority, name, symbol, uri),
{
}

/// Storing metadata tops the mint up from the payer by exactly what it lacks, and only when it
/// lacks something: when the mint holds less than the rent-exempt amount, the first instruction
/// is a system transfer (2) of the difference from the payer (signer) to the mint; otherwise
/// there is none. The last instruction is the token metadata `initialize` for the token
/// program, with the mint itself as the metadata account (writable), the authority as update
/// authority, the mint, and the authority as signing mint authority, carrying the name, symbol
/// and URI in that order.
pub proof fn lemma_metadata_bytes(accounts: InitializeMetadata, rent_exempt_lamports: u64, mint_lamports: u64, name: Seq<char>, symbol: Seq<char>, uri: Seq<char>)
    ensures ({
        let calls = accounts.spec_calls(rent_exempt_lamports, mint_lamports, name, symbol, uri);
        &&& mint_lamports < rent_exempt_lamports ==> {
            &&& calls.len() == 2
            &&& calls[0].program_id == SYSTEM_PROGRAM_ID
            &&& calls[0].accounts == seq![writable(accounts.payer, true), writable(accounts.mint, false)]
            &&& calls[0].data == le_bytes(2, 4) + le_bytes(rent_exempt_lamports - mint_lamports, 8)
        }
        &&& mint_lamports >= rent_exempt_lamports ==> calls.len() == 1
        &&& calls.last().program_id == accounts.token_program
        &&& calls.last().accounts == seq![writable(accounts.mint, false), readonly(accounts.authority, false), readonly(accounts.mint, false), readonly(accounts.authority, true)]
        &&& calls.last().data == token_metadata_initialize_data(name, symbol, uri)
    }),
{
}

} // verus!
