//! The element chain: elements of distinct types, written one after the other, without
//! storing more than the elements themselves.
//!
//! A chain starts at an [ElementChainEnd]; appending an element to a chain gives a longer chain,
//! whose [ElementChainLink]s hold the earlier elements.
use crate::common::wire::{push_bytes, write_all, Error};
use crate::elements::{spec_element_bytes, write_element, Element};
use vstd::prelude::*;

verus! {

/// The bytes of the element `e`: the header its ID calls for, then its body.
pub open spec fn element_bytes<E: Element>(e: E) -> Seq<u8> {
    spec_element_bytes(E::spec_element_id(), e.spec_body())
}

/// Whether the element `e` can be written with its header: it can be written, and its body fits
/// the length byte of the header.
pub open spec fn element_fits<E: Element>(e: E) -> bool {
    &&& e.spec_writable()
    &&& E::spec_element_id().spec_header_length() - 2 + e.spec_body().len() <= 255
}

/// A chain of elements, written one after the other.
pub trait ElementChain: Sized {
    /// The bytes of the chain: each element with its header, in order.
    spec fn spec_chain_bytes(&self) -> Seq<u8>;

    /// Whether each element of the chain can be written with its header.
    spec fn spec_chain_fits(&self) -> bool;

    /// The bytes of the chain: each element with its header, in order.
    fn to_bytes(&self) -> (r: Vec<u8>)
        requires
            self.spec_chain_fits(),
        ensures
            r@ == self.spec_chain_bytes(),
    ;

    /// The length of the written chain.
    fn measure_with(&self) -> (r: usize)
        requires
            self.spec_chain_fits(),
            self.spec_chain_bytes().len() <= usize::MAX,
        ensures
            r == self.spec_chain_bytes().len(),
    ;

    /// Write the chain to the start of `buf`, returning the number of bytes written.
    ///
    /// Fails with [Error::TooShort], and writes nothing, if `buf` can't hold the chain.
    fn try_into_ctx(&self, buf: &mut [u8]) -> (r: Result<usize, Error>)
        requires
            self.spec_chain_fits(),
        ensures
            final(buf)@.len() == old(buf)@.len(),
            ({
                let bytes = self.spec_chain_bytes();
                &&& bytes.len() <= old(buf)@.len() ==> r == Ok::<usize, Error>(bytes.len() as usize)
                    && final(buf)@ == bytes + old(buf)@.skip(bytes.len() as int)
                &&& bytes.len() > old(buf)@.len() ==> r == Err::<usize, Error>(Error::TooShort)
                    && final(buf)@ == old(buf)@
            }),
    ;
}

/// A chain to which an element of type `Appendee` can be appended.
pub trait ChainElement<Appendee: Element>: ElementChain {
    /// The chain produced by appending an element to this chain.
    type Appended: ElementChain;

    /// Append an element to the chain.
    fn append(self, value: Appendee) -> (r: Self::Appended)
        ensures
            r.spec_chain_bytes() == self.spec_chain_bytes() + element_bytes(value),
            r.spec_chain_fits() == (self.spec_chain_fits() && element_fits(value)),
    ;
}

/// The end of a chain: its last element.
///
/// Counterintuitively it's the point where you create a new chain.
#[derive(Clone, Copy, Default, Debug, PartialEq, Eq, Hash)]
pub struct ElementChainEnd<Inner> {
    /// The last element of the chain.
    pub inner: Inner,
}

impl<Inner: Element> ElementChainEnd<Inner> {
    /// A chain of the one element `inner`.
    pub fn new(inner: Inner) -> (r: Self)
        ensures
            r.inner == inner,
    {
        Self { inner }
    }
}

/// A link in the element chain: an element and the rest of the chain.
#[derive(Clone, Copy, Default, Debug, PartialEq, Eq, Hash)]
pub struct ElementChainLink<Inner, Child> {
    /// The current element.
    pub inner: Inner,
    /// The next element.
    pub next: Child,
}

/// The element with its header.
fn element_with_header<E: Element>(e: &E) -> (r: Vec<u8>)
    requires
        element_fits(*e),
    ensures
        r@ == element_bytes(*e),
{
    let body = e.body_bytes();
    write_element(E::element_id(), body.as_slice())
}

impl<Inner: Element> ElementChain for ElementChainEnd<Inner> {
    open spec fn spec_chain_bytes(&self) -> Seq<u8> {
        element_bytes(self.inner)
    }

    open spec fn spec_chain_fits(&self) -> bool {
        element_fits(self.inner)
    }

    fn to_bytes(&self) -> (r: Vec<u8>) {
        element_with_header(&self.inner)
    }

    fn measure_with(&self) -> (r: usize) {
        self.to_bytes().len()
    }

    fn try_into_ctx(&self, buf: &mut [u8]) -> (r: Result<usize, Error>) {
        let bytes = self.to_bytes();
        write_all(buf, bytes.as_slice())
    }
}

impl<Inner: Element, Child: ElementChain> ElementChain for ElementChainLink<Inner, Child> {
    open spec fn spec_chain_bytes(&self) -> Seq<u8> {
        element_bytes(self.inner) + self.next.spec_chain_bytes()
    }

    open spec fn spec_chain_fits(&self) -> bool {
        element_fits(self.inner) && self.next.spec_chain_fits()
    }

    fn to_bytes(&self) -> (r: Vec<u8>) {
        let mut out = element_with_header(&self.inner);
        let rest = self.next.to_bytes();
        push_bytes(&mut out, rest.as_slice());
        out
    }

    fn measure_with(&self) -> (r: usize) {
        self.to_bytes().len()
    }

    fn try_into_ctx(&self, buf: &mut [u8]) -> (r: Result<usize, Error>) {
        let bytes = self.to_bytes();
        write_all(buf, bytes.as_slice())
    }
}

impl<Inner: Element, Appendee: Element> ChainElement<Appendee> for ElementChainEnd<Inner> {
    type Appended = ElementChainLink<Inner, ElementChainEnd<Appendee>>;

    fn append(self, value: Appendee) -> (r: ElementChainLink<Inner, ElementChainEnd<Appendee>>) {
        ElementChainLink { inner: self.inner, next: ElementChainEnd { inner: value } }
    }
}

impl<Inner: Element, Appendee: Element, Child: ChainElement<Appendee>> ChainElement<Appendee> for
    ElementChainLink<Inner, Child> {
    type Appended = ElementChainLink<Inner, Child::Appended>;

    fn append(self, value: Appendee) -> (r: ElementChainLink<Inner, Child::Appended>) {
        let next = self.next.append(value);
        ElementChainLink { inner: self.inner, next }
    }
}

} // verus!
