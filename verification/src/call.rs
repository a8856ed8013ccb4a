use vstd::prelude::*;
use vstd::arithmetic::power::pow;
use crate::keys::Key;

verus! {

/// One account that an instruction names, with the privileges it asks for.
#[derive(Clone, Copy, Debug)]
pub struct AccountRef {
    pub key: Key,
    pub is_signer: bool,
    pub is_writable: bool,
}

/// An instruction for another program: which program, which accounts, which bytes.
#[derive(Clone, Debug)]
pub struct Call {
    pub program_id: Key,
    pub accounts: Vec<AccountRef>,
    pub data: Vec<u8>,
}

/// The value of a [`Call`].
pub struct CallView {
    pub program_id: Key,
    pub accounts: Seq<AccountRef>,
    pub data: Seq<u8>,
}

impl View for Call {
    type V = CallView;

    open spec fn view(&self) -> CallView {
        CallView { program_id: self.program_id, accounts: self.accounts@, data: self.data@ }
    }
}

/// An account the instruction writes to.
pub open spec fn writable(key: Key, is_signer: bool) -> AccountRef {
    AccountRef { key, is_signer, is_writable: true }
}

/// An account the instruction only reads.
pub open spec fn readonly(key: Key, is_signer: bool) -> AccountRef {
    AccountRef { key, is_signer, is_writable: false }
}

/// The `width` bytes of `value` in little-endian order.
pub open spec fn le_bytes(value: int, width: nat) -> Seq<u8> {
    Seq::new(width, |i: int| ((value / pow(256, i as nat)) % 256) as u8)
}

/// The values of a list of calls, in order.
pub open spec fn call_views(calls: Seq<Call>) -> Seq<CallView> {
    calls.map_values(|c: Call| c@)
}

/// Whether `calls` are, one for one and in order, the instructions `views`.
pub open spec fn issues(calls: Seq<Call>, views: Seq<CallView>) -> bool {
    &&& calls.len() == views.len()
    &&& forall|i: int| 0 <= i < calls.len() ==> #[trigger] calls[i]@ == views[i]
}

/// A list of calls issues exactly its own values.
pub proof fn lemma_issues_its_views(calls: Seq<Call>)
    ensures
        issues(calls, call_views(calls)),
{
}

} // verus!
