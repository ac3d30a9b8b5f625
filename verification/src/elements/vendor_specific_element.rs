//! The vendor specific element.
use crate::common::wire::{push_bytes, slice_range, write_all, Error};
use crate::elements::{Element, ElementID};
use vstd::prelude::*;

verus! {

/// Check if `bytes` starts with `prefix`.
pub fn starts_with(bytes: &[u8], prefix: &[u8]) -> (r: bool)
    ensures
        r == prefix@.is_prefix_of(bytes@),
{
    if prefix.len() > bytes.len() {
        return false;
    }
    let mut i: usize = 0;
    while i < prefix.len()
        invariant
            i <= prefix@.len() <= bytes@.len(),
            forall|k: int| 0 <= k < i ==> prefix@[k] == bytes@[k],
        decreases prefix@.len() - i,
    {
        if prefix[i] != bytes[i] {
            return false;
        }
        i = i + 1;
    }
    true
}

/// The vendor specific element carries information, which is not defined in IEEE 802.11, but
/// rather by individual vendors.
///
/// Vendor specific elements are prefixed with an OUI and potentially more bytes identifying the
/// specific type. Due to this, the identifier isn't parsed while reading and remains part of the
/// payload slice. This must be taken in to account, when using the payload.
/// When creating a new [VendorSpecificElement], the [Self::new_prefixed] method should be used.
#[derive(Clone, Copy, Debug, PartialEq, Eq, Hash)]
pub struct VendorSpecificElement<Payload> {
    payload: Payload,
}

impl<Payload> VendorSpecificElement<Payload> {
    /// The payload.
    pub closed spec fn spec_payload(&self) -> Payload {
        self.payload
    }

    /// The payload.
    pub fn get_payload(&self) -> (r: &Payload)
        ensures
            *r == self.spec_payload(),
    {
        &self.payload
    }

    /// The payload, for changing it in place.
    pub fn get_payload_mut(&mut self) -> (r: &mut Payload)
        ensures
            *r == old(self).spec_payload(),
            final(self).spec_payload() == *final(r),
    {
        &mut self.payload
    }
}

impl<'a> VendorSpecificElement<&'a [u8]> {
    /// Returns the truncated payload, if it starts with the specified prefix.
    pub fn get_payload_if_prefix_matches(&self, prefix: &'static [u8]) -> (r: Option<&'a [u8]>)
        ensures
            r is Some <==> prefix@.is_prefix_of(self.spec_payload()@),
            r matches Some(rest) ==> rest@ == self.spec_payload()@.skip(prefix@.len() as int),
    {
        if starts_with(self.payload, prefix) {
            Some(slice_range(self.payload, prefix.len(), self.payload.len()))
        } else {
            None
        }
    }

    /// Read an element body: all of it is the payload.
    pub fn try_from_ctx(from: &'a [u8]) -> (r: Result<(Self, usize), Error>)
        ensures
            r matches Ok((e, n)) && e.spec_payload()@ == from@ && n == from@.len(),
    {
        Ok((VendorSpecificElement { payload: from }, from.len()))
    }

    /// The serialized body.
    pub fn to_bytes(&self) -> (r: Vec<u8>)
        ensures
            r@ == self.spec_payload()@,
    {
        let mut out = Vec::new();
        push_bytes(&mut out, self.payload);
        out
    }

    /// The length of the serialized body.
    pub fn measure_with(&self) -> (r: usize)
        ensures
            r == self.spec_payload()@.len(),
    {
        self.payload.len()
    }
}

/// A payload of a [VendorSpecificElement], prefixed with an identifier.
#[derive(Clone, Copy, Debug, PartialEq, Eq, Hash)]
pub struct PrefixedVendorPayload<Payload> {
    /// The identifier written before the payload.
    pub prefix: &'static [u8],
    /// The payload.
    pub payload: Payload,
}

impl<InnerPayload> VendorSpecificElement<PrefixedVendorPayload<InnerPayload>> {
    /// A vendor specific element whose payload is `payload` behind `prefix`.
    pub fn new_prefixed(prefix: &'static [u8], payload: InnerPayload) -> (r: Self)
        ensures
            r.spec_payload() == (PrefixedVendorPayload { prefix, payload }),
    {
        VendorSpecificElement { payload: PrefixedVendorPayload { prefix, payload } }
    }
}

impl<'a> VendorSpecificElement<PrefixedVendorPayload<&'a [u8]>> {
    /// The serialized body: the prefix, then the payload.
    pub fn to_bytes(&self) -> (r: Vec<u8>)
        ensures
            r@ == self.spec_payload().prefix@ + self.spec_payload().payload@,
    {
        let mut out = Vec::new();
        push_bytes(&mut out, self.payload.prefix);
        push_bytes(&mut out, self.payload.payload);
        out
    }

    /// Write the body to the start of `buf`, returning the number of bytes written.
    pub fn try_into_ctx(&self, buf: &mut [u8]) -> (r: Result<usize, Error>)
        ensures
            final(buf)@.len() == old(buf)@.len(),
            ({
                let bytes = self.spec_payload().prefix@ + self.spec_payload().payload@;
                &&& bytes.len() <= old(buf)@.len() ==> r == Ok::<usize, Error>(bytes.len() as usize)
                    && final(buf)@ == bytes + old(buf)@.skip(bytes.len() as int)
                &&& bytes.len() > old(buf)@.len() ==> r == Err::<usize, Error>(Error::TooShort)
            }),
    {
        let bytes = self.to_bytes();
        write_all(buf, bytes.as_slice())
    }
}

impl<'b> Element for VendorSpecificElement<&'b [u8]> {
    type ReadType<'a> = VendorSpecificElement<&'a [u8]>;

    open spec fn spec_body(&self) -> Seq<u8> {
        self.spec_payload()@
    }

    fn body_bytes(&self) -> (r: Vec<u8>) {
        self.to_bytes()
    }

    open spec fn spec_element_id() -> ElementID {
        ElementID::Id(0xdd)
    }

    open spec fn spec_read<'a>(body: Seq<u8>, r: Option<VendorSpecificElement<&'a [u8]>>) -> bool {
        r matches Some(e) && e.spec_payload()@ == body
    }

    fn element_id() -> (r: ElementID) {
        ElementID::Id(0xdd)
    }

    fn read<'a>(body: &'a [u8]) -> (r: Option<VendorSpecificElement<&'a [u8]>>) {
        match VendorSpecificElement::<&'a [u8]>::try_from_ctx(body) {
            Ok((e, _)) => Some(e),
            Err(_) => None,
        }
    }
}

} // verus!
