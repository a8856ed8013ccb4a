use vstd::prelude::*;
use crate::call::{Call, CallView, call_views, issues, le_bytes, lemma_issues_its_views};
use crate::error::{ErrorCode, StablecoinError};
use crate::fee::epoch_fee;
use crate::keys::{Key, TOKEN_2022_PROGRAM_ID};
use crate::token_2022::{
    calculate_epoch_fee, read_transfer_fee_config, transfer_checked_with_fee,
    transfer_checked_with_fee_call, transfer_fee_config_of,
};

verus! {

/// The accounts of `transfer`.
#[derive(Clone, Copy, Debug)]
pub struct Transfer {
    /// Owns the source account and signs the transfer.
    pub owner: Key,
    pub mint: Key,
    pub source: Key,
    pub destination: Key,
    pub token_program: Key,
}

/// The fee the mint described by `mint_data` charges on `amount` during `epoch`, if the mint
/// can be read and the fee computed.
pub open spec fn spec_transfer_fee(mint_data: Seq<u8>, epoch: u64, amount: u64) -> Option<u64> {
    match transfer_fee_config_of(mint_data) {
        Some(config) => epoch_fee(config, epoch, amount),
        None => None,
    }
}

/// The fee that the mint described by `mint_data` charges on a transfer of `amount` during
/// `epoch`. Fails with the reader's error when the mint bytes hold no transfer fee settings,
/// and with `FeeCalculationFailed` when the fee does not fit in a `u64`.
pub fn transfer_fee(mint_data: &[u8], epoch: u64, amount: u64) -> (r: Result<u64, StablecoinError>)
    ensures
        match transfer_fee_config_of(mint_data@) {
            None => r matches Err(StablecoinError::Program(_)),
            Some(config) => match epoch_fee(config, epoch, amount) {
                None => r matches Err(StablecoinError::Custom(ErrorCode::FeeCalculationFailed)),
                Some(fee) => r == Ok::<u64, StablecoinError>(fee),
            },
        },
{
    let config = match read_transfer_fee_config(mint_data) {
        Ok(config) => config,
        Err(e) => return Err(StablecoinError::Program(e)),
    };
    match calculate_epoch_fee(&config, epoch, amount) {
        Some(fee) => Ok(fee),
        None => Err(StablecoinError::Custom(ErrorCode::FeeCalculationFailed)),
    }
}

impl Transfer {
    /// The one instruction of a public transfer: a checked transfer of the gross `amount` that
    /// declares `fee` as withheld from it.
    pub open spec fn spec_calls(self, amount: u64, decimals: u8, fee: u64) -> Seq<CallView> {
        seq![transfer_checked_with_fee_call(self.token_program, self.source, self.mint, self.destination, self.owner, amount, decimals, fee)]
    }

    /// Transfers public tokens using the mint's current epoch fee configuration: the fee that
    /// Token-2022 will withhold is computed from the mint and passed along so that the transfer
    /// fails should the two disagree.
    pub fn handler(&self, mint_data: &[u8], decimals: u8, epoch: u64, amount: u64) -> (r: Result<Vec<Call>, StablecoinError>)
        ensures
            match transfer_fee_config_of(mint_data@) {
                None => r matches Err(StablecoinError::Program(_)),
                Some(config) => match epoch_fee(config, epoch, amount) {
                    None => r matches Err(StablecoinError::Custom(ErrorCode::FeeCalculationFailed)),
                    Some(fee) => {
                        &&& r is Ok <==> self.token_program == TOKEN_2022_PROGRAM_ID
                        &&& r matches Ok(calls) ==> issues(calls@, self.spec_calls(amount, decimals, fee))
                        &&& r matches Ok(calls) ==> calls@[0]@.data.subrange(11, 19) == le_bytes(fee as int, 8)
                        &&& r matches Err(e) ==> e is Program
                    },
                },
            },
            r matches Ok(calls) ==> {
                &&& calls@.len() == 1
                &&& calls@[0]@.program_id == TOKEN_2022_PROGRAM_ID
                &&& calls@[0]@.data.subrange(2, 10) == le_bytes(amount as int, 8)
                &&& calls@[0]@.data[10] == decimals
            },
    {
        let fee: u64 = match transfer_fee(mint_data, epoch, amount) {
            Ok(fee) => fee,
            Err(e) => return Err(e),
        };
        let call = match transfer_checked_with_fee(&self.token_program, &self.source, &self.mint, &self.destination, &self.owner, amount, decimals, fee) {
            Ok(call) => call,
            Err(e) => return Err(StablecoinError::Program(e)),
        };
        let mut calls: Vec<Call> = Vec::new();
        calls.push(call);
        assert(call_views(calls@) =~= self.spec_calls(amount, decimals, fee));
        proof {
            lemma_issues_its_views(calls@);
            lemma_transfer_carries_amount_decimals_and_fee(*self, amount, decimals, fee);
        }
        Ok(calls)
    }
}

/// A public transfer issues exactly one instruction: Token-2022's transfer fee extension (26),
/// its `TransferCheckedWithFee` (1), then the gross amount in eight little-endian bytes, the
/// decimals the caller gives, and the fee in eight little-endian bytes. So the decimals and the
/// fee Token-2022 checks are the caller's own, whatever they are.
pub proof fn lemma_transfer_carries_amount_decimals_and_fee(accounts: Transfer, amount: u64, decimals: u8, fee: u64)
    ensures ({
        let calls = accounts.spec_calls(amount, decimals, fee);
        &&& calls.len() == 1
        &&& calls[0].program_id == accounts.token_program
        &&& calls[0].data.len() == 19
        &&& calls[0].data[0] == 26u8
        &&& calls[0].data[1] == 1u8
        &&& calls[0].data.subrange(2, 10) == le_bytes(amount as int, 8)
        &&& calls[0].data[10] == decimals
        &&& calls[0].data.subrange(11, 19) == le_bytes(fee as int, 8)
    }),
{
    let data = accounts.spec_calls(amount, decimals, fee)[0].data;
    assert(data.subrange(2, 10) =~= le_bytes(amount as int, 8));
    assert(data.subrange(11, 19) =~= le_bytes(fee as int, 8));
}

} // verus!
