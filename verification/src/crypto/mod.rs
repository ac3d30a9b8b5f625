//! Cryptographic helpers used by IEEE 802.11.
pub mod michael;
pub use michael::{michael, michael_block_function};
pub mod crypto_header;
pub use crypto_header::{CryptoHeader, CryptoWrapper, MicState};
pub mod key_mgmt;
pub mod eapol;
pub mod encap;
