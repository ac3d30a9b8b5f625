//! Association identifiers.
use vstd::prelude::*;

verus! {

/// An association ID.
///
/// This can **only** be constructed through [Self::new_checked], to make it impossible to create
/// invalid AID's.
/// # Note
/// This currently only valid for a non-S1G and non-DMG STA, due to the bounds imposed on the AID.
#[derive(Clone, Copy, Debug, PartialEq, Eq, Hash, Structural)]
pub struct AssociationID(u16);

/// The lowest valid AID.
pub const MIN_AID: u16 = 1;

/// The highest valid AID.
pub const MAX_AID: u16 = 2007;

/// The two top bits, which are always set.
const AID_PADDING: u16 = 0xc000;

impl AssociationID {
    /// The fourteen AID bits.
    pub closed spec fn spec_aid(self) -> u16 {
        self.0 % 0x4000
    }

    /// The sixteen bits of the field.
    pub closed spec fn spec_bits(self) -> u16 {
        self.0
    }

    /// Creates a new [AssociationID] and performs bounds checks.
    ///
    /// Returns [None] if `aid` is outside `1..=2007`.
    pub fn new_checked(aid: u16) -> (r: Option<Self>)
        ensures
            r is Some <==> MIN_AID <= aid <= MAX_AID,
            r matches Some(id) ==> id.spec_aid() == aid && id.spec_bits() == 0xc000 + aid,
    {
        if aid >= MIN_AID && aid <= MAX_AID {
            Some(Self::new_unchecked(aid))
        } else {
            None
        }
    }

    /// Creates a new [AssociationID] without checking the bounds.
    ///
    /// Only the fourteen low bits of `aid` are kept.
    pub fn new_unchecked(aid: u16) -> (r: Self)
        ensures
            r.spec_aid() == aid % 0x4000,
            r.spec_bits() == 0xc000 + aid % 0x4000,
    {
        AssociationID(AID_PADDING + aid % 0x4000)
    }

    /// Get the AID.
    pub fn aid(&self) -> (r: u16)
        ensures
            r == self.spec_aid(),
    {
        self.0 % 0x4000
    }

    /// Convert into bits.
    pub fn into_bits(self) -> (r: u16)
        ensures
            r == self.spec_bits(),
    {
        self.0
    }
}

} // verus!
