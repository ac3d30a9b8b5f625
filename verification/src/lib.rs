//! Parsing, serialization and key management for IEEE 802.11 frames and elements.
pub mod common;
pub mod crypto;
pub mod elements;
pub mod frames;
