use vstd::prelude::*;
use crate::call::{Call, CallView, call_views, issues, lemma_issues_its_views, readonly, writable};
use crate::error::StablecoinError;
use crate::keys::Key;
use crate::token_2022::{is_token_program, thaw_account, thaw_account_call};

verus! {

/// The accounts of `thaw_account`.
#[derive(Clone, Copy, Debug)]
pub struct ThawAccount {
    pub mint: Key,
    /// The token account to thaw.
    pub token_account: Key,
    /// The mint's freeze authority.
    pub authority: Key,
    pub token_program: Key,
}

impl ThawAccount {
    /// The one instruction that thaws the token account, signed by the freeze authority.
    pub open spec fn spec_calls(self) -> Seq<CallView> {
        seq![thaw_account_call(self.token_program, self.token_account, self.mint, self.authority)]
    }

    /// Thaws one account after KYC without changing the mint's frozen default: the only
    /// instruction touches this token account, and the mint only as a read-only account.
    pub fn handler(&self) -> (r: Result<Vec<Call>, StablecoinError>)
        ensures
            r is Ok <==> is_token_program(self.token_program),
            r matches Ok(calls) ==> issues(calls@, self.spec_calls()),
            r matches Ok(calls) ==> calls@[0]@.accounts == seq![writable(self.token_account, false), readonly(self.mint, false), readonly(self.authority, true)],
            r matches Err(e) ==> e is Program,
    {
        let call = match thaw_account(&self.token_program, &self.token_account, &self.mint, &self.authority) {
            Ok(call) => call,
            Err(e) => return Err(StablecoinError::Program(e)),
        };
        let mut calls: Vec<Call> = Vec::new();
        calls.push(call);
        assert(call_views(calls@) =~= self.spec_calls());
        proof { lemma_issues_its_views(calls@); }
        Ok(calls)
    }
}

/// Thawing issues one instruction, `ThawAccount` (11) for the token program, on the token
/// account (writable), the mint (read only) and the freeze authority (signer): nothing else is
/// thawed, and the mint's default state is untouched.
pub proof fn lemma_thaw_bytes(accounts: ThawAccount)
    ensures ({
        let calls = accounts.spec_calls();
        &&& calls.len() == 1
        &&& calls[0].program_id == accounts.token_program
        &&& calls[0].accounts == seq![writable(accounts.token_account, false), readonly(accounts.mint, false), readonly(accounts.authority, true)]
        &&& calls[0].data == seq![11u8]
    }),
{
}

} // verus!
