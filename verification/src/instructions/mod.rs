pub mod approve_account;
pub mod configure_account;
pub mod initialize_confidential_mint;
pub mod initialize_metadata;
pub mod initialize_mint;
pub mod thaw_account;
pub mod transfer;
pub mod transfer_confidential;

pub use approve_account::ApproveAccount;
pub use configure_account::ConfigureAccount;
pub use initialize_confidential_mint::InitializeConfidentialMint;
pub use initialize_metadata::InitializeMetadata;
pub use initialize_mint::InitializeMint;
pub use thaw_account::ThawAccount;
pub use transfer::Transfer;
pub use transfer_confidential::TransferConfidential;
