use vstd::prelude::*;
use crate::call::{Call, CallView, call_views, issues, lemma_issues_its_views, readonly, writable};
use crate::error::StablecoinError;
use crate::keys::{Key, TOKEN_2022_PROGRAM_ID};
use crate::token_2022::{approve_account, approve_account_call};

verus! {

/// The accounts of `approve_account`.
#[derive(Clone, Copy, Debug)]
pub struct ApproveAccount {
    pub mint: Key,
    /// The token account to approve for confidential transfers.
    pub token_account: Key,
    /// Token-2022 checks this signer against the confidential-transfer mint authority.
    pub authority: Key,
    pub token_program: Key,
}

impl ApproveAccount {
    /// The one instruction that approves the account for confidential transfers.
    pub open spec fn spec_calls(self) -> Seq<CallView> {
        seq![approve_account_call(self.token_program, self.token_account, self.mint, self.authority)]
    }

    /// Approves confidential use without thawing the account or changing its balances: the
    /// only instruction is the approval, signed by the authority.
    pub fn handler(&self) -> (r: Result<Vec<Call>, StablecoinError>)
        ensures
            r is Ok <==> self.token_program == TOKEN_2022_PROGRAM_ID,
            r matches Ok(calls) ==> issues(calls@, self.spec_calls()),
            r matches Err(e) ==> e is Program,
    {
        let call = match approve_account(&self.token_program, &self.token_account, &self.mint, &self.authority) {
            Ok(call) => call,
            Err(e) => return Err(StablecoinError::Program(e)),
        };
        let mut calls: Vec<Call> = Vec::new();
        calls.push(call);
        assert(call_views(calls@) =~= self.spec_calls());
        proof { lemma_issues_its_views(calls@); }
        Ok(calls)
    }
}

/// Approving issues one instruction, the confidential transfer extension's `ApproveAccount`
/// (27, 3) for the token program, on the token account (writable), the mint (read only) and the
/// authority (signer). It carries no other data, so it neither thaws the account nor moves a
/// balance.
pub proof fn lemma_approve_bytes(accounts: ApproveAccount)
    ensures ({
        let calls = accounts.spec_calls();
        &&& calls.len() == 1
        &&& calls[0].program_id == accounts.token_program
        &&& calls[0].accounts == seq![writable(accounts.token_account, false), readonly(accounts.mint, false), readonly(accounts.authority, true)]
        &&& calls[0].data == seq![27u8, 3u8]
    }),
{
}

} // verus!
