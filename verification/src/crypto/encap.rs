//! Encapsulation of frames for encryption.
use vstd::prelude::*;

verus! {

/// A frame that can be encapsulated, and thus gives the additional authenticated data (AAD) to
/// protect.
pub trait Encapsulatable {
    /// Generate the additional authenticated data (AAD) into `buffer`, returning its length.
    fn generate_aad(&self, buffer: &mut [u8; 30]) -> usize;
}

} // verus!
