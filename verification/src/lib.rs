//! Client-side account data decoding for a ledger RPC client.
//!
//! An account fetched over RPC carries its byte contents in one of several
//! wire encodings: a legacy base58 string, a tagged base58 / base64 /
//! base64+zstd blob, or an already-parsed structured document. This crate
//! models that container, recovers the raw bytes where they are recoverable,
//! reports the account's data size, and rebuilds a concrete account value
//! from the container together with the account's metadata.

pub mod account;
pub mod account_data;
pub mod codecs;
pub mod pubkey;

pub use account::Account;
pub use account::AccountFactory;
pub use account::UiAccount;
pub use account::UiDataSliceConfig;
pub use account_data::ParsedAccount;
pub use account_data::UiAccountData;
pub use account_data::UiAccountEncoding;
pub use pubkey::Pubkey;
