use vstd::prelude::*;
use crate::call::{Call, CallView, call_views, issues, lemma_issues_its_views, readonly, writable};
use crate::error::StablecoinError;
use crate::keys::{Key, TOKEN_2022_PROGRAM_ID};
use crate::token_2022::{transfer_with_fee, transfer_with_fee_call};

verus! {

/// The accounts of `transfer_confidential`.
#[derive(Clone, Copy, Debug)]
pub struct TransferConfidential {
    /// Owns the source account and signs.
    pub owner: Key,
    pub mint: Key,
    pub source: Key,
    pub destination: Key,
    /// Token-2022 validates the equality proof against the source balance.
    pub equality_proof_context: Key,
    /// Token-2022 validates transfer ciphertexts against the sender and recipient keys.
    pub ciphertext_validity_proof_context: Key,
    /// Token-2022 validates the U256 range proof against the transfer commitments.
    pub range_proof_context: Key,
    /// Token-2022 verifies the percentage-with-cap proof against the active fee schedule.
    pub fee_sigma_proof_context: Key,
    /// Token-2022 verifies fee ciphertext validity for the recipient and fee authority.
    pub fee_ciphertext_validity_proof_context: Key,
    pub token_program: Key,
}

impl TransferConfidential {
    /// The proof contexts in the order Token-2022 reads them: equality, transfer ciphertext
    /// validity, fee sigma, fee ciphertext validity, range.
    pub open spec fn spec_proofs(self) -> Seq<Key> {
        seq![
            self.equality_proof_context,
            self.ciphertext_validity_proof_context,
            self.fee_sigma_proof_context,
            self.fee_ciphertext_validity_proof_context,
            self.range_proof_context,
        ]
    }

    /// The one instruction of a confidential transfer with fee.
    pub open spec fn spec_calls(self, new_source_decryptable_available_balance: Seq<u8>, transfer_amount_auditor_ciphertext_lo: Seq<u8>, transfer_amount_auditor_ciphertext_hi: Seq<u8>) -> Seq<CallView> {
        seq![transfer_with_fee_call(self.token_program, self.source, self.mint, self.destination, new_source_decryptable_available_balance, transfer_amount_auditor_ciphertext_lo, transfer_amount_auditor_ciphertext_hi, self.owner, self.spec_proofs())]
    }

    /// Transfers confidential tokens with an encrypted fee, every proof already verified into
    /// its context account.
    pub fn handler(&self, new_source_decryptable_available_balance: [u8; 36], transfer_amount_auditor_ciphertext_lo: [u8; 64], transfer_amount_auditor_ciphertext_hi: [u8; 64]) -> (r: Result<Vec<Call>, StablecoinError>)
        ensures
            r is Ok <==> self.token_program == TOKEN_2022_PROGRAM_ID,
            r matches Ok(calls) ==> issues(calls@, self.spec_calls(new_source_decryptable_available_balance@, transfer_amount_auditor_ciphertext_lo@, transfer_amount_auditor_ciphertext_hi@)),
            r matches Ok(calls) ==> {
                &&& calls@.len() == 1
                &&& calls@[0]@.data.subrange(2, 38) == new_source_decryptable_available_balance@
                &&& calls@[0]@.data.subrange(38, 102) == transfer_amount_auditor_ciphertext_lo@
                &&& calls@[0]@.data.subrange(102, 166) == transfer_amount_auditor_ciphertext_hi@
            },
            r matches Err(e) ==> e is Program,
    {
        proof { lemma_confidential_transfer_bytes(*self, new_source_decryptable_available_balance@, transfer_amount_auditor_ciphertext_lo@, transfer_amount_auditor_ciphertext_hi@); }
        let proofs: [Key; 5] = [
            self.equality_proof_context,
            self.ciphertext_validity_proof_context,
            self.fee_sigma_proof_context,
            self.fee_ciphertext_validity_proof_context,
            self.range_proof_context,
        ];
        assert(proofs@ == self.spec_proofs());
        let call = match transfer_with_fee(&self.token_program, &self.source, &self.mint, &self.destination, &new_source_decryptable_available_balance, &transfer_amount_auditor_ciphertext_lo, &transfer_amount_auditor_ciphertext_hi, &self.owner, &proofs) {
            Ok(call) => call,
            Err(e) => return Err(StablecoinError::Program(e)),
        };
        let mut calls: Vec<Call> = Vec::new();
        calls.push(call);
        assert(call_views(calls@) =~= self.spec_calls(new_source_decryptable_available_balance@, transfer_amount_auditor_ciphertext_lo@, transfer_amount_auditor_ciphertext_hi@));
        proof { lemma_issues_its_views(calls@); }
        Ok(calls)
    }
}

/// A confidential transfer issues one instruction: the confidential transfer extension's
/// `TransferWithFee` (27, 13) for the token program, on the source (writable), the mint (read
/// only), the destination (writable), the five proof contexts in the order equality, transfer
/// ciphertext validity, fee sigma, fee ciphertext validity, range (each read only), and the
/// owner (signer). Its data carries the new decryptable balance and both auditor ciphertexts
/// byte for byte, in that order, then five proof offsets of 0.
pub proof fn lemma_confidential_transfer_bytes(accounts: TransferConfidential, new_source_decryptable_available_balance: Seq<u8>, transfer_amount_auditor_ciphertext_lo: Seq<u8>, transfer_amount_auditor_ciphertext_hi: Seq<u8>)
    requires
        new_source_decryptable_available_balance.len() == 36,
        transfer_amount_auditor_ciphertext_lo.len() == 64,
        transfer_amount_auditor_ciphertext_hi.len() == 64,
    ensures ({
        let calls = accounts.spec_calls(new_source_decryptable_available_balance, transfer_amount_auditor_ciphertext_lo, transfer_amount_auditor_ciphertext_hi);
        &&& calls.len() == 1
        &&& calls[0].program_id == accounts.token_program
        &&& calls[0].accounts == seq![
            writable(accounts.source, false), readonly(accounts.mint, false), writable(accounts.destination, false),
            readonly(accounts.equality_proof_context, false), readonly(accounts.ciphertext_validity_proof_context, false),
            readonly(accounts.fee_sigma_proof_context, false), readonly(accounts.fee_ciphertext_validity_proof_context, false),
            readonly(accounts.range_proof_context, false), readonly(accounts.owner, true),
        ]
        &&& calls[0].data.len() == 171
        &&& calls[0].data[0] == 27u8
        &&& calls[0].data[1] == 13u8
        &&& calls[0].data.subrange(2, 38) == new_source_decryptable_available_balance
        &&& calls[0].data.subrange(38, 102) == transfer_amount_auditor_ciphertext_lo
        &&& calls[0].data.subrange(102, 166) == transfer_amount_auditor_ciphertext_hi
        &&& calls[0].data.subrange(166, 171) == seq![0u8, 0u8, 0u8, 0u8, 0u8]
    }),
{
    let data = accounts.spec_calls(new_source_decryptable_available_balance, transfer_amount_auditor_ciphertext_lo, transfer_amount_auditor_ciphertext_hi)[0].data;
    assert(data.subrange(2, 38) =~= new_source_decryptable_available_balance);
    assert(data.subrange(38, 102) =~= transfer_amount_auditor_ciphertext_lo);
    assert(data.subrange(102, 166) =~= transfer_amount_auditor_ciphertext_hi);
    assert(data.subrange(166, 171) =~= seq![0u8, 0u8, 0u8, 0u8, 0u8]);
}

} // verus!
