use vstd::prelude::*;
use crate::call::{Call, CallView, call_views, issues, le_bytes, lemma_issues_its_views, writable};
use crate::error::StablecoinError;
use crate::extension::{ExtensionKind, codes, spec_codes};
use crate::instructions::initialize_mint::{
    InitializeMint, base_mint_call, extension_setup_calls, lemma_mint_creation_bytes, mint_setup_accepted,
};
use crate::keys::{Key, SYSTEM_PROGRAM_ID};
use crate::system::{create_account, create_account_call};
use crate::token_2022::{
    DefaultState, calculate_mint_len, initialize_confidential_transfer_fee_config,
    initialize_confidential_transfer_fee_config_call, initialize_confidential_transfer_mint,
    initialize_confidential_transfer_mint_call, initialize_default_account_state,
    initialize_metadata_pointer, initialize_mint2, initialize_mint_close_authority,
    initialize_permanent_delegate, initialize_permanent_delegate_call,
    initialize_transfer_fee_config, mint_account_len,
};

verus! {

/// The accounts of `initialize_confidential_mint`.
#[derive(Clone, Copy, Debug)]
pub struct InitializeConfidentialMint {
    /// Funds the new mint account.
    pub payer: Key,
    /// The new mint; it signs its own creation.
    pub mint: Key,
    /// The issuer: every authority of the mint, its permanent delegate, and the authority that
    /// approves accounts for confidential transfers.
    pub authority: Key,
    pub token_program: Key,
    pub system_program: Key,
}

/// The extensions of a confidential mint, in the order they are set up.
pub open spec fn confidential_mint_extensions() -> Seq<ExtensionKind> {
    seq![
        ExtensionKind::TransferFeeConfig,
        ExtensionKind::MetadataPointer,
        ExtensionKind::DefaultAccountState,
        ExtensionKind::MintCloseAuthority,
        ExtensionKind::PermanentDelegate,
        ExtensionKind::ConfidentialTransferMint,
        ExtensionKind::ConfidentialTransferFeeConfig,
    ]
}

/// The three confidential extensions, in order: the issuer as permanent delegate; confidential
/// transfers approved by the issuer one account at a time, with no auditor; and encrypted fees
/// that the holder of the given ElGamal key withdraws.
pub open spec fn confidential_setup_calls(token_program: Key, mint: Key, authority: Key, withdraw_withheld_authority_elgamal_pubkey: Key) -> Seq<CallView> {
    seq![
        initialize_permanent_delegate_call(token_program, mint, authority),
        initialize_confidential_transfer_mint_call(token_program, mint, Some(authority), false, None),
        initialize_confidential_transfer_fee_config_call(token_program, mint, Some(authority), withdraw_withheld_authority_elgamal_pubkey),
    ]
}

impl InitializeConfidentialMint {
    /// The instructions that create and set up the mint: create the account; the four
    /// extensions of every mint; the three confidential ones; then the base mint.
    pub open spec fn spec_calls(self, space: usize, lamports: u64, decimals: u8, transfer_fee_basis_points: u16, maximum_fee: u64, withdraw_withheld_authority_elgamal_pubkey: Key) -> Seq<CallView> {
        seq![create_account_call(self.payer, self.mint, lamports, space as u64, self.token_program)]
            + extension_setup_calls(self.token_program, self.mint, self.authority, transfer_fee_basis_points, maximum_fee)
            + confidential_setup_calls(self.token_program, self.mint, self.authority, withdraw_withheld_authority_elgamal_pubkey)
            + seq![base_mint_call(self.token_program, self.mint, self.authority, decimals)]
    }

    /// The extensions of the new mint.
    pub fn extensions() -> (r: Vec<ExtensionKind>)
        ensures
            r@ == confidential_mint_extensions(),
    {
        let r = vec![
            ExtensionKind::TransferFeeConfig,
            ExtensionKind::MetadataPointer,
            ExtensionKind::DefaultAccountState,
            ExtensionKind::MintCloseAuthority,
            ExtensionKind::PermanentDelegate,
            ExtensionKind::ConfidentialTransferMint,
            ExtensionKind::ConfidentialTransferFeeConfig,
        ];
        assert(r@ == confidential_mint_extensions());
        r
    }

    /// The size of the new mint account, with room for its seven extensions.
    pub fn space() -> (r: Result<usize, StablecoinError>)
        ensures
            r is Ok <==> (mint_account_len(spec_codes(confidential_mint_extensions())) is Some),
            r matches Ok(space) ==> mint_account_len(spec_codes(confidential_mint_extensions())) == Some(space),
            r matches Err(e) ==> e is Program,
    {
        let kinds = Self::extensions();
        let list = codes(kinds.as_slice());
        match calculate_mint_len(list.as_slice()) {
            Ok(space) => Ok(space),
            Err(e) => Err(StablecoinError::Program(e)),
        }
    }

    /// The instructions that create the mint with `space` bytes and `lamports` and set it up.
    pub fn calls(&self, space: usize, lamports: u64, decimals: u8, transfer_fee_basis_points: u16, maximum_fee: u64, withdraw_withheld_authority_elgamal_pubkey: [u8; 32]) -> (r: Result<Vec<Call>, StablecoinError>)
        ensures
            r is Ok <==> mint_setup_accepted(self.token_program, self.mint, self.authority),
            r matches Ok(calls) ==> issues(calls@, self.spec_calls(space, lamports, decimals, transfer_fee_basis_points, maximum_fee, withdraw_withheld_authority_elgamal_pubkey)),
            r matches Ok(calls) ==> {
                &&& calls@.len() == 9
                &&& calls@[1]@.data == seq![26u8, 0u8, 1u8] + self.authority@ + seq![1u8] + self.authority@
                    + le_bytes(transfer_fee_basis_points as int, 2) + le_bytes(maximum_fee as int, 8)
                &&& calls@[7]@.data == seq![37u8, 0u8] + self.authority@ + withdraw_withheld_authority_elgamal_pubkey@
                &&& calls@[8]@.data == seq![20u8, decimals] + self.authority@ + seq![1u8] + self.authority@
            },
            r matches Err(e) ==> e is Program,
    {
        proof { lemma_confidential_mint_creation_bytes(*self, space, lamports, decimals, transfer_fee_basis_points, maximum_fee, withdraw_withheld_authority_elgamal_pubkey); }
        let tp = &self.token_program;
        let mut calls: Vec<Call> = Vec::new();
        calls.push(create_account(&self.payer, &self.mint, lamports, space as u64, tp));
        match initialize_transfer_fee_config(tp, &self.mint, Some(self.authority), Some(self.authority), transfer_fee_basis_points, maximum_fee) {
            Ok(c) => calls.push(c),
            Err(e) => return Err(StablecoinError::Program(e)),
        }
        match initialize_metadata_pointer(tp, &self.mint, Some(self.authority), Some(self.mint)) {
            Ok(c) => calls.push(c),
            Err(e) => return Err(StablecoinError::Program(e)),
        }
        match initialize_default_account_state(tp, &self.mint, DefaultState::Frozen) {
            Ok(c) => calls.push(c),
            Err(e) => return Err(StablecoinError::Program(e)),
        }
        match initialize_mint_close_authority(tp, &self.mint, Some(self.authority)) {
            Ok(c) => calls.push(c),
            Err(e) => return Err(StablecoinError::Program(e)),
        }
        match initialize_permanent_delegate(tp, &self.mint, &self.authority) {
            Ok(c) => calls.push(c),
            Err(e) => return Err(StablecoinError::Program(e)),
        }
        match initialize_confidential_transfer_mint(tp, &self.mint, Some(self.authority), false, None) {
            Ok(c) => calls.push(c),
            Err(e) => return Err(StablecoinError::Program(e)),
        }
        match initialize_confidential_transfer_fee_config(tp, &self.mint, Some(self.authority), &withdraw_withheld_authority_elgamal_pubkey) {
            Ok(c) => calls.push(c),
            Err(e) => return Err(StablecoinError::Program(e)),
        }
        match initialize_mint2(tp, &self.mint, &self.authority, Some(self.authority), decimals) {
            Ok(c) => calls.push(c),
            Err(e) => return Err(StablecoinError::Program(e)),
        }
        assert(call_views(calls@) =~= self.spec_calls(space, lamports, decimals, transfer_fee_basis_points, maximum_fee, withdraw_withheld_authority_elgamal_pubkey));
        proof { lemma_issues_its_views(calls@); }
        Ok(calls)
    }

    /// Creates a new mint with manual confidential approval, encrypted fees, and a permanent
    /// delegate: sizes the account for its seven extensions, funds it with `lamports` and sets
    /// it up. The program passes the rent-exempt minimum of the size that `space` gives.
    pub fn handler(&self, lamports: u64, decimals: u8, transfer_fee_basis_points: u16, maximum_fee: u64, withdraw_withheld_authority_elgamal_pubkey: [u8; 32]) -> (r: Result<Vec<Call>, StablecoinError>)
        ensures
            mint_account_len(spec_codes(confidential_mint_extensions())) is None ==> r matches Err(StablecoinError::Program(_)),
            mint_account_len(spec_codes(confidential_mint_extensions())) is Some ==> (r is Ok <==> mint_setup_accepted(self.token_program, self.mint, self.authority)),
            r matches Ok(calls) ==> issues(calls@, self.spec_calls(mint_account_len(spec_codes(confidential_mint_extensions())).unwrap(), lamports, decimals, transfer_fee_basis_points, maximum_fee, withdraw_withheld_authority_elgamal_pubkey)),
            r matches Ok(calls) ==> {
                &&& calls@.len() == 9
                &&& calls@[1]@.data == seq![26u8, 0u8, 1u8] + self.authority@ + seq![1u8] + self.authority@
                    + le_bytes(transfer_fee_basis_points as int, 2) + le_bytes(maximum_fee as int, 8)
                &&& calls@[7]@.data == seq![37u8, 0u8] + self.authority@ + withdraw_withheld_authority_elgamal_pubkey@
                &&& calls@[8]@.data == seq![20u8, decimals] + self.authority@ + seq![1u8] + self.authority@
            },
            r matches Err(e) ==> e is Program,
    {
        let space: usize = match Self::space() {
            Ok(space) => space,
            Err(e) => return Err(e),
        };
        self.calls(space, lamports, decimals, transfer_fee_basis_points, maximum_fee, withdraw_withheld_authority_elgamal_pubkey)
    }
}

/// A confidential mint is set up exactly like a public mint of the same accounts and fee
/// settings (the same account creation, the same four extensions, the same base mint), with
/// the three confidential extensions set up after the four and before the base mint.
pub proof fn lemma_confidential_mint_extends_public_mint(
    accounts: InitializeMint,
    space: usize,
    lamports: u64,
    decimals: u8,
    transfer_fee_basis_points: u16,
    maximum_fee: u64,
    withdraw_withheld_authority_elgamal_pubkey: Key,
)
    ensures ({
        let confidential = InitializeConfidentialMint {
            payer: accounts.payer,
            mint: accounts.mint,
            authority: accounts.authority,
            token_program: accounts.token_program,
            system_program: accounts.system_program,
        };
        let public = accounts.spec_calls(space, lamports, decimals, transfer_fee_basis_points, maximum_fee);
        let full = confidential.spec_calls(space, lamports, decimals, transfer_fee_basis_points, maximum_fee, withdraw_withheld_authority_elgamal_pubkey);
        &&& full.len() == public.len() + 3
        &&& full.subrange(0, 5) == public.subrange(0, 5)
        &&& full.subrange(5, 8) == confidential_setup_calls(accounts.token_program, accounts.mint, accounts.authority, withdraw_withheld_authority_elgamal_pubkey)
        &&& full.last() == public.last()
    }),
{
    let confidential = InitializeConfidentialMint {
        payer: accounts.payer,
        mint: accounts.mint,
        authority: accounts.authority,
        token_program: accounts.token_program,
        system_program: accounts.system_program,
    };
    let public = accounts.spec_calls(space, lamports, decimals, transfer_fee_basis_points, maximum_fee);
    let full = confidential.spec_calls(space, lamports, decimals, transfer_fee_basis_points, maximum_fee, withdraw_withheld_authority_elgamal_pubkey);
    assert(full.subrange(0, 5) =~= public.subrange(0, 5));
    assert(full.subrange(5, 8) =~= confidential_setup_calls(accounts.token_program, accounts.mint, accounts.authority, withdraw_withheld_authority_elgamal_pubkey));
}

/// Creating a confidential mint issues nine instructions. The account creation and the first
/// four extensions are byte for byte those of a public mint (see
/// `lemma_mint_creation_bytes`); then, each for the token program on the mint alone: the issuer
/// as permanent delegate; confidential transfers with the issuer as authority, manual approval
/// (0) and no auditor (32 zero bytes); encrypted fees with the issuer as authority and the
/// caller's ElGamal key, byte for byte, as the withheld-fee key; and last the base mint with the
/// decimals given and the issuer as mint and freeze authority.
pub proof fn lemma_confidential_mint_creation_bytes(
    accounts: InitializeConfidentialMint,
    space: usize,
    lamports: u64,
    decimals: u8,
    transfer_fee_basis_points: u16,
    maximum_fee: u64,
    withdraw_withheld_authority_elgamal_pubkey: Key,
)
    ensures ({
        let calls = accounts.spec_calls(space, lamports, decimals, transfer_fee_basis_points, maximum_fee, withdraw_withheld_authority_elgamal_pubkey);
        let issuer = accounts.authority@;
        &&& calls.len() == 9
        &&& calls[0].program_id == SYSTEM_PROGRAM_ID
        &&& calls[0].accounts == seq![writable(accounts.payer, true), writable(accounts.mint, true)]
        &&& calls[0].data == le_bytes(0, 4) + le_bytes(lamports as int, 8) + le_bytes((space as u64) as int, 8) + accounts.token_program@
        &&& forall|i: int| 1 <= i < 9 ==> #[trigger] calls[i].program_id == accounts.token_program
        &&& forall|i: int| 1 <= i < 9 ==> #[trigger] calls[i].accounts == seq![writable(accounts.mint, false)]
        &&& calls[1].data == seq![26u8, 0u8, 1u8] + issuer + seq![1u8] + issuer
            + le_bytes(transfer_fee_basis_points as int, 2) + le_bytes(maximum_fee as int, 8)
        &&& calls[2].data == seq![39u8, 0u8] + issuer + accounts.mint@
        &&& calls[3].data == seq![28u8, 0u8, 2u8]
        &&& calls[4].data == seq![25u8, 1u8] + issuer
        &&& calls[5].data == seq![35u8] + issuer
        &&& calls[6].data == seq![27u8, 0u8] + issuer + seq![0u8] + Seq::new(32, |i: int| 0u8)
        &&& calls[7].data == seq![37u8, 0u8] + issuer + withdraw_withheld_authority_elgamal_pubkey@
        &&& calls[8].data == seq![20u8, decimals] + issuer + seq![1u8] + issuer
    }),
{
    let public = InitializeMint {
        payer: accounts.payer,
        mint: accounts.mint,
        authority: accounts.authority,
        token_program: accounts.token_program,
        system_program: accounts.system_program,
    };
    lemma_confidential_mint_extends_public_mint(public, space, lamports, decimals, transfer_fee_basis_points, maximum_fee, withdraw_withheld_authority_elgamal_pubkey);
    lemma_mint_creation_bytes(public, space, lamports, decimals, transfer_fee_basis_points, maximum_fee);
    let calls = accounts.spec_calls(space, lamports, decimals, transfer_fee_basis_points, maximum_fee, withdraw_withheld_authority_elgamal_pubkey);
    let pcalls = public.spec_calls(space, lamports, decimals, transfer_fee_basis_points, maximum_fee);
    let issuer = accounts.authority@;
    assert forall|i: int| 0 <= i < 5 implies calls[i] == pcalls[i] by {
        assert(calls[i] == calls.subrange(0, 5)[i]);
        assert(pcalls[i] == pcalls.subrange(0, 5)[i]);
    }
    assert(calls[8] == pcalls[5]);
    assert(calls[5].data =~= seq![35u8] + issuer);
    assert(calls[6].data =~= seq![27u8, 0u8] + issuer + seq![0u8] + Seq::new(32, |i: int| 0u8));
    assert(calls[7].data =~= seq![37u8, 0u8] + issuer + withdraw_withheld_authority_elgamal_pubkey@);
}

} // verus!
