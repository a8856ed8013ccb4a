use vstd::prelude::*;
use anchor_lang::prelude::ProgramError;

verus! {

/// Token-2022 and the runtime report failures with this error type.
#[verifier::external_type_specification]
#[verifier::external_body]
pub struct ExProgramError(ProgramError);

/// The errors this program defines for itself.
#[derive(Clone, Copy, Debug, PartialEq, Eq, Structural)]
pub enum ErrorCode {
    /// The mint already carries a token metadata extension.
    MetadataAlreadyInitialized,
    /// The mint's transfer fee for the current epoch could not be computed.
    FeeCalculationFailed,
}

/// The number of the first error a program defines for itself.
pub const ERROR_CODE_OFFSET: u32 = 6000;

impl ErrorCode {
    /// The number under which the error is reported: the offset plus its position.
    pub open spec fn spec_number(self) -> u32 {
        match self {
            ErrorCode::MetadataAlreadyInitialized => 6000,
            ErrorCode::FeeCalculationFailed => 6001,
        }
    }

    /// The number under which the error is reported: the offset plus its position.
    pub fn number(&self) -> (r: u32)
        ensures
            r == self.spec_number(),
    {
        match self {
            ErrorCode::MetadataAlreadyInitialized => ERROR_CODE_OFFSET,
            ErrorCode::FeeCalculationFailed => ERROR_CODE_OFFSET + 1,
        }
    }

    /// The message reported with the error.
    pub fn message(&self) -> (r: &'static str)
        ensures
            self is MetadataAlreadyInitialized ==> r@ == "The mint metadata has already been initialized"@,
            self is FeeCalculationFailed ==> r@ == "The transfer fee could not be calculated"@,
    {
        match self {
            ErrorCode::MetadataAlreadyInitialized => "The mint metadata has already been initialized",
            ErrorCode::FeeCalculationFailed => "The transfer fee could not be calculated",
        }
    }
}

/// Why an instruction of this program fails.
pub enum StablecoinError {
    /// One of the program's own errors.
    Custom(ErrorCode),
    /// An error that Token-2022 reported while reading an account or building an instruction.
    Program(ProgramError),
    /// An update authority of all zero bytes, which Token-2022 cannot store.
    InvalidArgument,
}

} // verus!
