//! Types which are a facade for the actual element types, hiding the generics and lifetimes
//! that some of them take.
use crate::elements::ht::{HTCapabilitiesElement, HTOperationElement};
use crate::elements::ibss_parameter_set::IBSSParameterSetElement;
use crate::elements::rates::{ExtendedSupportedRatesElement, SupportedRatesElement};
use crate::elements::rsn::RSNElement;
use crate::elements::ssid::SSIDElement;
use crate::elements::{BSSLoadElement, Element, VendorSpecificElement};
use vstd::prelude::*;

verus! {

/// Stands for an element type, whatever the lifetime of the bytes it is read from.
pub trait ElementTypeRepr {
    /// The element type.
    type ElementType<'a>: Element;
}

/// Stands for the SSID element.
pub struct SSIDRepr;

impl ElementTypeRepr for SSIDRepr {
    type ElementType<'a> = SSIDElement<'a>;
}

/// Stands for the supported rates element.
pub struct SupportedRatesRepr;

impl ElementTypeRepr for SupportedRatesRepr {
    type ElementType<'a> = SupportedRatesElement;
}

/// Stands for the IBSS parameter set element.
pub struct IBSSParameterSetRepr;

impl ElementTypeRepr for IBSSParameterSetRepr {
    type ElementType<'a> = IBSSParameterSetElement;
}

/// Stands for the BSS load element.
pub struct BSSLoadRepr;

impl ElementTypeRepr for BSSLoadRepr {
    type ElementType<'a> = BSSLoadElement;
}

/// Stands for the HT capabilities element.
pub struct HTCapabilitiesRepr;

impl ElementTypeRepr for HTCapabilitiesRepr {
    type ElementType<'a> = HTCapabilitiesElement;
}

/// Stands for the extended supported rates element.
pub struct ExtendedSupportedRatesRepr;

impl ElementTypeRepr for ExtendedSupportedRatesRepr {
    type ElementType<'a> = ExtendedSupportedRatesElement;
}

/// Stands for the HT operation element.
pub struct HTOperationRepr;

impl ElementTypeRepr for HTOperationRepr {
    type ElementType<'a> = HTOperationElement;
}

/// Stands for the RSN element.
pub struct RSNRepr;

impl ElementTypeRepr for RSNRepr {
    type ElementType<'a> = RSNElement;
}

/// Stands for a vendor specific element.
pub struct VendorSpecificRepr;

impl ElementTypeRepr for VendorSpecificRepr {
    type ElementType<'a> = VendorSpecificElement<&'a [u8]>;
}

} // verus!
