use vstd::prelude::*;
use crate::call::{Call, CallView, call_views, issues, le_bytes, lemma_issues_its_views, readonly, writable};
use crate::error::StablecoinError;
use crate::extension::{ExtensionKind, codes, spec_codes};
use crate::keys::{Key, SYSTEM_PROGRAM_ID, TOKEN_2022_PROGRAM_ID};
use crate::token_2022::{configure_account, configure_account_call, extension_code_bytes, reallocate, reallocate_call};

verus! {

/// The accounts of `configure_account`.
#[derive(Clone, Copy, Debug)]
pub struct ConfigureAccount {
    /// Funds the larger token account.
    pub payer: Key,
    /// Owns the token account and signs.
    pub owner: Key,
    pub mint: Key,
    pub token_account: Key,
    /// Holds the verified public-key validity proof.
    pub proof_context: Key,
    pub token_program: Key,
    pub system_program: Key,
}

/// The extensions a token account needs for confidential transfers with fees, in order.
pub open spec fn confidential_account_extensions() -> Seq<ExtensionKind> {
    seq![ExtensionKind::ConfidentialTransferAccount, ExtensionKind::ConfidentialTransferFeeAmount]
}

impl ConfigureAccount {
    /// The two instructions: make room in the token account for the confidential extensions,
    /// paid by the payer and signed by the owner; then configure it with the owner's encrypted
    /// zero balance, pending-credit limit and verified proof.
    pub open spec fn spec_calls(self, decryptable_zero_balance: Seq<u8>, maximum_pending_balance_credit_counter: u64) -> Seq<CallView> {
        seq![
            reallocate_call(self.token_program, self.token_account, self.payer, self.owner, spec_codes(confidential_account_extensions())),
            configure_account_call(self.token_program, self.token_account, self.mint, decryptable_zero_balance, maximum_pending_balance_credit_counter, self.owner, self.proof_context),
        ]
    }

    /// The owner supplies a verified public-key proof and an off-chain AES encryption of zero.
    pub fn handler(&self, decryptable_zero_balance: [u8; 36], maximum_pending_balance_credit_counter: u64) -> (r: Result<Vec<Call>, StablecoinError>)
        ensures
            r is Ok <==> self.token_program == TOKEN_2022_PROGRAM_ID,
            r matches Ok(calls) ==> issues(calls@, self.spec_calls(decryptable_zero_balance@, maximum_pending_balance_credit_counter)),
            r matches Ok(calls) ==> {
                &&& calls@.len() == 2
                &&& calls@[1]@.data.subrange(2, 38) == decryptable_zero_balance@
                &&& calls@[1]@.data.subrange(38, 46) == le_bytes(maximum_pending_balance_credit_counter as int, 8)
            },
            r matches Err(e) ==> e is Program,
    {
        proof { lemma_configure_account_bytes(*self, decryptable_zero_balance@, maximum_pending_balance_credit_counter); }
        let kinds = vec![ExtensionKind::ConfidentialTransferAccount, ExtensionKind::ConfidentialTransferFeeAmount];
        assert(kinds@ == confidential_account_extensions());
        let list = codes(kinds.as_slice());
        let reallocate_call = match reallocate(&self.token_program, &self.token_account, &self.payer, &self.owner, list.as_slice()) {
            Ok(call) => call,
            Err(e) => return Err(StablecoinError::Program(e)),
        };
        let configure = match configure_account(&self.token_program, &self.token_account, &self.mint, &decryptable_zero_balance, maximum_pending_balance_credit_counter, &self.owner, &self.proof_context) {
            Ok(call) => call,
            Err(e) => return Err(StablecoinError::Program(e)),
        };
        let mut calls: Vec<Call> = Vec::new();
        calls.push(reallocate_call);
        calls.push(configure);
        assert(call_views(calls@) =~= self.spec_calls(decryptable_zero_balance@, maximum_pending_balance_credit_counter));
        proof { lemma_issues_its_views(calls@); }
        Ok(calls)
    }
}

/// Configuring an account issues two instructions for the token program. The first makes room
/// in the token account for the confidential transfer account (5) and fee amount (17)
/// extensions, paid by the payer and signed by the owner. The second is the confidential
/// transfer extension's `ConfigureAccount` (27, 2) on the token account, the mint (read only),
/// the proof context (read only) and the owner (signer); its data carries the owner's encrypted
/// zero balance byte for byte, then the pending-credit limit in eight little-endian bytes, then
/// a proof offset of 0 (the proof is in the context account).
pub proof fn lemma_configure_account_bytes(accounts: ConfigureAccount, decryptable_zero_balance: Seq<u8>, maximum_pending_balance_credit_counter: u64)
    requires
        decryptable_zero_balance.len() == 36,
    ensures ({
        let calls = accounts.spec_calls(decryptable_zero_balance, maximum_pending_balance_credit_counter);
        &&& calls.len() == 2
        &&& calls[0].program_id == accounts.token_program
        &&& calls[0].accounts == seq![writable(accounts.token_account, false), writable(accounts.payer, true), readonly(SYSTEM_PROGRAM_ID, false), readonly(accounts.owner, true)]
        &&& calls[0].data == seq![29u8, 5u8, 0u8, 17u8, 0u8]
        &&& calls[1].program_id == accounts.token_program
        &&& calls[1].accounts == seq![writable(accounts.token_account, false), readonly(accounts.mint, false), readonly(accounts.proof_context, false), readonly(accounts.owner, true)]
        &&& calls[1].data.len() == 47
        &&& calls[1].data[0] == 27u8
        &&& calls[1].data[1] == 2u8
        &&& calls[1].data.subrange(2, 38) == decryptable_zero_balance
        &&& calls[1].data.subrange(38, 46) == le_bytes(maximum_pending_balance_credit_counter as int, 8)
        &&& calls[1].data[46] == 0u8
    }),
{
    let calls = accounts.spec_calls(decryptable_zero_balance, maximum_pending_balance_credit_counter);
    reveal_with_fuel(extension_code_bytes, 3);
    vstd::arithmetic::power::lemma_pow0(256);
    vstd::arithmetic::power::lemma_pow1(256);
    let exts = spec_codes(confidential_account_extensions());
    assert(exts =~= seq![5u16, 17u16]);
    assert(exts.drop_last() =~= seq![5u16]);
    assert(exts.drop_last().drop_last() =~= Seq::<u16>::empty());
    assert(le_bytes(5, 2) =~= seq![5u8, 0u8]);
    assert(le_bytes(17, 2) =~= seq![17u8, 0u8]);
    assert(calls[0].data =~= seq![29u8, 5u8, 0u8, 17u8, 0u8]);
    assert(calls[1].data.subrange(2, 38) =~= decryptable_zero_balance);
    assert(calls[1].data.subrange(38, 46) =~= le_bytes(maximum_pending_balance_credit_counter as int, 8));
}

} // verus!
