//! A Token-2022 stablecoin for remittances: mints with transfer fees, metadata and accounts
//! frozen until the issuer approves them, and optional confidential transfers. Each instruction
//! is worked out here as the list of instructions it issues to Token-2022 and the system
//! program; the program that runs on chain issues them in order.
pub mod call;
pub mod error;
pub mod extension;
pub mod fee;
pub mod instructions;
pub mod keys;
pub mod program;
pub mod system;
pub mod token_2022;
pub mod token_metadata;

pub use call::{AccountRef, Call};
pub use error::{ErrorCode, StablecoinError};
pub use instructions::{
    ApproveAccount, ConfigureAccount, InitializeConfidentialMint, InitializeMetadata,
    InitializeMint, ThawAccount, Transfer, TransferConfidential,
};
pub use instructions::transfer::transfer_fee;
pub use program::{initialize_confidential_mint, initialize_metadata, initialize_mint, thaw_account, transfer};
