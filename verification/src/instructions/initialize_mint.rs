use vstd::prelude::*;
use crate::call::{Call, CallView, call_views, issues, le_bytes, lemma_issues_its_views, writable};
use crate::error::StablecoinError;
use crate::extension::{ExtensionKind, codes, spec_codes};
use crate::keys::{Key, is_zero, SYSTEM_PROGRAM_ID, TOKEN_2022_PROGRAM_ID};
use crate::system::{create_account, create_account_call};
use crate::token_2022::{
    DefaultState, calculate_mint_len, initialize_default_account_state,
    initialize_default_account_state_call, initialize_metadata_pointer,
    initialize_metadata_pointer_call, initialize_mint2, initialize_mint2_call,
    initialize_mint_close_authority, initialize_mint_close_authority_call,
    initialize_transfer_fee_config, initialize_transfer_fee_config_call, mint_account_len,
};

verus! {

/// The accounts of `initialize_mint`.
#[derive(Clone, Copy, Debug)]
pub struct InitializeMint {
    /// Funds the new mint account.
    pub payer: Key,
    /// The new mint; it signs its own creation.
    pub mint: Key,
    /// Controls issuance, freezing, fees, the metadata pointer, and mint closure.
    pub authority: Key,
    pub token_program: Key,
    pub system_program: Key,
}

/// The extensions of a public mint, in the order they are set up.
pub open spec fn public_mint_extensions() -> Seq<ExtensionKind> {
    seq![
        ExtensionKind::TransferFeeConfig,
        ExtensionKind::MetadataPointer,
        ExtensionKind::DefaultAccountState,
        ExtensionKind::MintCloseAuthority,
    ]
}

/// The four extension set-ups that every mint of this program gets, in order: transfer fees
/// configured and withdrawn by the issuer, a metadata pointer to the mint itself, new accounts
/// frozen by default, and the issuer as close authority.
pub open spec fn extension_setup_calls(token_program: Key, mint: Key, authority: Key, transfer_fee_basis_points: u16, maximum_fee: u64) -> Seq<CallView> {
    seq![
        initialize_transfer_fee_config_call(token_program, mint, Some(authority), Some(authority), transfer_fee_basis_points, maximum_fee),
        initialize_metadata_pointer_call(token_program, mint, Some(authority), Some(mint)),
        initialize_default_account_state_call(token_program, mint, DefaultState::Frozen),
        initialize_mint_close_authority_call(token_program, mint, Some(authority)),
    ]
}

/// The base-mint set-up that ends every mint creation: the issuer mints and freezes.
pub open spec fn base_mint_call(token_program: Key, mint: Key, authority: Key, decimals: u8) -> CallView {
    initialize_mint2_call(token_program, mint, authority, Some(authority), decimals)
}

/// Whether Token-2022's builders accept this mint set-up: Token-2022 is the token program, and
/// neither the issuer nor the mint is the all-zero key.
pub open spec fn mint_setup_accepted(token_program: Key, mint: Key, authority: Key) -> bool {
    token_program == TOKEN_2022_PROGRAM_ID && !is_zero(authority) && !is_zero(mint)
}

impl InitializeMint {
    /// The instructions that create and set up the mint: create the account with `space` bytes
    /// and `lamports`, owned by the token program; the four extensions; then the base mint.
    pub open spec fn spec_calls(self, space: usize, lamports: u64, decimals: u8, transfer_fee_basis_points: u16, maximum_fee: u64) -> Seq<CallView> {
        seq![create_account_call(self.payer, self.mint, lamports, space as u64, self.token_program)]
            + extension_setup_calls(self.token_program, self.mint, self.authority, transfer_fee_basis_points, maximum_fee)
            + seq![base_mint_call(self.token_program, self.mint, self.authority, decimals)]
    }

    /// The extensions of the new mint.
    pub fn extensions() -> (r: Vec<ExtensionKind>)
        ensures
            r@ == public_mint_extensions(),
    {
        let r = vec![
            ExtensionKind::TransferFeeConfig,
            ExtensionKind::MetadataPointer,
            ExtensionKind::DefaultAccountState,
            ExtensionKind::MintCloseAuthority,
        ];
        assert(r@ == public_mint_extensions());
        r
    }

    /// The size of the new mint account, with room for its four extensions.
    pub fn space() -> (r: Result<usize, StablecoinError>)
        ensures
            r is Ok <==> (mint_account_len(spec_codes(public_mint_extensions())) is Some),
            r matches Ok(space) ==> mint_account_len(spec_codes(public_mint_extensions())) == Some(space),
            r matches Err(e) ==> e is Program,
    {
        let kinds = Self::extensions();
        let list = codes(kinds.as_slice());
        match calculate_mint_len(list.as_slice()) {
            Ok(space) => Ok(space),
            Err(e) => Err(StablecoinError::Program(e)),
        }
    }

    /// The instructions that create the mint with `space` bytes and `lamports`, set up its
    /// extensions before the base mint, and make the issuer every authority.
    pub fn calls(&self, space: usize, lamports: u64, decimals: u8, transfer_fee_basis_points: u16, maximum_fee: u64) -> (r: Result<Vec<Call>, StablecoinError>)
        ensures
            r is Ok <==> mint_setup_accepted(self.token_program, self.mint, self.authority),
            r matches Ok(calls) ==> issues(calls@, self.spec_calls(space, lamports, decimals, transfer_fee_basis_points, maximum_fee)),
            r matches Ok(calls) ==> {
                &&& calls@.len() == 6
                &&& calls@[1]@.data == seq![26u8, 0u8, 1u8] + self.authority@ + seq![1u8] + self.authority@
                    + le_bytes(transfer_fee_basis_points as int, 2) + le_bytes(maximum_fee as int, 8)
                &&& calls@[5]@.data == seq![20u8, decimals] + self.authority@ + seq![1u8] + self.authority@
            },
            r matches Err(e) ==> e is Program,
    {
        proof { lemma_mint_creation_bytes(*self, space, lamports, decimals, transfer_fee_basis_points, maximum_fee); }
        let tp = &self.token_program;
        let mut calls: Vec<Call> = Vec::new();
        calls.push(create_account(&self.payer, &self.mint, lamports, space as u64, tp));
        match initialize_transfer_fee_config(tp, &self.mint, Some(self.authority), Some(self.authority), transfer_fee_basis_points, maximum_fee) {
            Ok(c) => calls.push(c),
            Err(e) => return Err(StablecoinError::Program(e)),
        }
        match initialize_metadata_pointer(tp, &self.mint, Some(self.authority), Some(self.mint)) {
            Ok(c) => calls.push(c),
            Err(e) => return Err(StablecoinError::Program(e)),
        }
        match initialize_default_account_state(tp, &self.mint, DefaultState::Frozen) {
            Ok(c) => calls.push(c),
            Err(e) => return Err(StablecoinError::Program(e)),
        }
        match initialize_mint_close_authority(tp, &self.mint, Some(self.authority)) {
            Ok(c) => calls.push(c),
            Err(e) => return Err(StablecoinError::Program(e)),
        }
        match initialize_mint2(tp, &self.mint, &self.authority, Some(self.authority), decimals) {
            Ok(c) => calls.push(c),
            Err(e) => return Err(StablecoinError::Program(e)),
        }
        assert(call_views(calls@) =~= self.spec_calls(space, lamports, decimals, transfer_fee_basis_points, maximum_fee));
        proof { lemma_issues_its_views(calls@); }
        Ok(calls)
    }

    /// Creates a Token-2022 mint with transfer fees and frozen accounts by default: sizes the
    /// account for its four extensions, funds it with `lamports` and sets it up. The program
    /// passes the rent-exempt minimum of the size that `space` gives. The maximum fee is
    /// expressed in raw token units.
    pub fn handler(&self, lamports: u64, decimals: u8, transfer_fee_basis_points: u16, maximum_fee: u64) -> (r: Result<Vec<Call>, StablecoinError>)
        ensures
            mint_account_len(spec_codes(public_mint_extensions())) is None ==> r matches Err(StablecoinError::Program(_)),
            mint_account_len(spec_codes(public_mint_extensions())) is Some ==> (r is Ok <==> mint_setup_accepted(self.token_program, self.mint, self.authority)),
            r matches Ok(calls) ==> issues(calls@, self.spec_calls(mint_account_len(spec_codes(public_mint_extensions())).unwrap(), lamports, decimals, transfer_fee_basis_points, maximum_fee)),
            r matches Ok(calls) ==> {
                &&& calls@.len() == 6
                &&& calls@[1]@.data == seq![26u8, 0u8, 1u8] + self.authority@ + seq![1u8] + self.authority@
                    + le_bytes(transfer_fee_basis_points as int, 2) + le_bytes(maximum_fee as int, 8)
                &&& calls@[5]@.data == seq![20u8, decimals] + self.authority@ + seq![1u8] + self.authority@
            },
            r matches Err(e) ==> e is Program,
    {
        let space: usize = match Self::space() {
            Ok(space) => space,
            Err(e) => return Err(e),
        };
        self.calls(space, lamports, decimals, transfer_fee_basis_points, maximum_fee)
    }
}

/// Creating a public mint issues six instructions, byte for byte. First the system program
/// creates the mint account, paid by the payer and signed by both, with the lamports and space
/// given and the token program as owner. Then, each for the token program on the mint alone: the
/// transfer fee settings with the issuer as both fee authorities and the rate and cap given; a
/// metadata pointer to the mint itself with the issuer as its authority; frozen (2) as the
/// default state of new accounts; the issuer as close authority; and last the base mint with
/// the decimals given and the issuer as mint and freeze authority.
pub proof fn lemma_mint_creation_bytes(accounts: InitializeMint, space: usize, lamports: u64, decimals: u8, transfer_fee_basis_points: u16, maximum_fee: u64)
    ensures ({
        let calls = accounts.spec_calls(space, lamports, decimals, transfer_fee_basis_points, maximum_fee);
        let issuer = accounts.authority@;
        &&& calls.len() == 6
        &&& calls[0].program_id == SYSTEM_PROGRAM_ID
        &&& calls[0].accounts == seq![writable(accounts.payer, true), writable(accounts.mint, true)]
        &&& calls[0].data == le_bytes(0, 4) + le_bytes(lamports as int, 8) + le_bytes((space as u64) as int, 8) + accounts.token_program@
        &&& forall|i: int| 1 <= i < 6 ==> #[trigger] calls[i].program_id == accounts.token_program
        &&& forall|i: int| 1 <= i < 6 ==> #[trigger] calls[i].accounts == seq![writable(accounts.mint, false)]
        &&& calls[1].data == seq![26u8, 0u8, 1u8] + issuer + seq![1u8] + issuer
            + le_bytes(transfer_fee_basis_points as int, 2) + le_bytes(maximum_fee as int, 8)
        &&& calls[2].data == seq![39u8, 0u8] + issuer + accounts.mint@
        &&& calls[3].data == seq![28u8, 0u8, 2u8]
        &&& calls[4].data == seq![25u8, 1u8] + issuer
        &&& calls[5].data == seq![20u8, decimals] + issuer + seq![1u8] + issuer
    }),
{
    let calls = accounts.spec_calls(space, lamports, decimals, transfer_fee_basis_points, maximum_fee);
    let issuer = accounts.authority@;
    assert(calls[1].data =~= seq![26u8, 0u8, 1u8] + issuer + seq![1u8] + issuer
        + le_bytes(transfer_fee_basis_points as int, 2) + le_bytes(maximum_fee as int, 8));
    assert(calls[2].data =~= seq![39u8, 0u8] + issuer + accounts.mint@);
    assert(calls[4].data =~= seq![25u8, 1u8] + issuer);
    assert(calls[5].data =~= seq![20u8, decimals] + issuer + seq![1u8] + issuer);
}

} // verus!
