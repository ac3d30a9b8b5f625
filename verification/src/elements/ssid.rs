//! The SSID element and the elements that share its encoding.
use crate::common::wire::{slice_range, write_all, Error};
use crate::elements::ElementID;
use core::marker::PhantomData;
use crate::elements::Element;
use vstd::prelude::*;
use vstd::string::StringSliceAdditionalSpecFns;
use vstd::utf8::valid_utf8;

verus! {

/// Calls `core::str::from_utf8`, which, as its documentation says, succeeds exactly when `bytes`
/// are valid UTF-8, and then gives a string slice of those bytes.
#[verifier::external_body]
pub(crate) fn str_from_utf8(bytes: &[u8]) -> (r: Option<&str>)
    ensures
        r is Some <==> valid_utf8(bytes@),
        r matches Some(s) ==> s.spec_bytes() == bytes@,
{
    match core::str::from_utf8(bytes) {
        Ok(s) => Some(s),
        Err(_) => None,
    }
}

/// The actual type of an SSID element.
///
/// This is used to differentiate between SSID and MeshID, which share the exact same element
/// encoding.
pub trait SSIDLikeElementType {
    /// The ID of the element.
    spec fn spec_element_id() -> ElementID;

    /// The ID of the element.
    fn element_id() -> (r: ElementID)
        ensures
            r == Self::spec_element_id(),
    ;
}

/// Common functionality for [SSIDElement] and [MeshIDElement]: an identifier of at most 32
/// bytes.
#[derive(Debug, PartialEq, Eq, Hash)]
pub struct SSIDLikeElement<'a, Type: SSIDLikeElementType> {
    ssid: &'a str,
    _phantom: PhantomData<Type>,
}

impl<'a, Type: SSIDLikeElementType> Clone for SSIDLikeElement<'a, Type> {
    fn clone(&self) -> (r: Self)
        ensures
            r.spec_ssid() == self.spec_ssid(),
    {
        SSIDLikeElement { ssid: self.ssid, _phantom: PhantomData }
    }
}

impl<'a, Type: SSIDLikeElementType> SSIDLikeElement<'a, Type> {
    /// The identifier.
    pub closed spec fn spec_ssid(&self) -> &'a str {
        self.ssid
    }

    /// Create a new SSID element.
    ///
    /// This returns [None] if `ssid` is longer than 32 bytes.
    pub fn const_new(ssid: &'a str) -> (r: Option<Self>)
        ensures
            r is Some <==> ssid.spec_bytes().len() <= 32,
            r matches Some(e) ==> e.spec_ssid() == ssid,
    {
        Self::new(ssid)
    }

    /// Create a new SSID element.
    ///
    /// This returns [None] if `ssid` is longer than 32 bytes.
    pub fn new(ssid: &'a str) -> (r: Option<Self>)
        ensures
            r is Some <==> ssid.spec_bytes().len() <= 32,
            r matches Some(e) ==> e.spec_ssid() == ssid,
    {
        if ssid.as_bytes().len() <= 32 {
            Some(Self { ssid, _phantom: PhantomData })
        } else {
            None
        }
    }

    /// Create an element without checking the length of `ssid`.
    pub fn new_unchecked(ssid: &'a str) -> (r: Self)
        ensures
            r.spec_ssid() == ssid,
    {
        Self { ssid, _phantom: PhantomData }
    }

    /// Get the SSID as a [str] reference.
    pub fn ssid(&self) -> (r: &'a str)
        ensures
            r == self.spec_ssid(),
    {
        self.ssid
    }

    /// Take the SSID.
    pub fn take_ssid(self) -> (r: &'a str)
        ensures
            r == self.spec_ssid(),
    {
        self.ssid
    }

    /// Check if the SSID is hidden, which it is if it is empty.
    pub fn is_hidden(&self) -> (r: bool)
        ensures
            r == (self.spec_ssid()@.len() == 0),
    {
        self.ssid.is_empty()
    }

    /// Return the length in bytes.
    pub fn length_in_bytes(&self) -> (r: usize)
        ensures
            r == self.spec_ssid().spec_bytes().len(),
    {
        self.ssid.as_bytes().len()
    }

    /// Read the element body: all of it is the identifier, which must be valid UTF-8 of at most
    /// 32 bytes.
    pub fn try_from_ctx(from: &'a [u8]) -> (r: Result<(Self, usize), Error>)
        ensures
            from@.len() > 32 ==> r == Err::<(Self, usize), Error>(Error::TooBig),
            from@.len() <= 32 && !valid_utf8(from@) ==> r == Err::<(Self, usize), Error>(
                Error::BadInput,
            ),
            from@.len() <= 32 && valid_utf8(from@) ==> (r matches Ok((e, n)) && n == from@.len()
                && e.spec_ssid().spec_bytes() == from@),
    {
        if from.len() > 32 {
            return Err(Error::TooBig);
        }
        match str_from_utf8(from) {
            Some(ssid) => Ok((Self::new_unchecked(ssid), from.len())),
            None => Err(Error::BadInput),
        }
    }

    /// The length of the serialized body.
    pub fn measure_with(&self) -> (r: usize)
        ensures
            r == self.spec_ssid().spec_bytes().len(),
    {
        self.length_in_bytes()
    }

    /// Write the identifier to the start of `buf`.
    pub fn try_into_ctx(&self, buf: &mut [u8]) -> (r: Result<usize, Error>)
        ensures
            final(buf)@.len() == old(buf)@.len(),
            ({
                let bytes = self.spec_ssid().spec_bytes();
                &&& bytes.len() <= old(buf)@.len() ==> r == Ok::<usize, Error>(bytes.len() as usize)
                    && final(buf)@ == bytes + old(buf)@.skip(bytes.len() as int)
                &&& bytes.len() > old(buf)@.len() ==> r == Err::<usize, Error>(Error::TooShort)
            }),
    {
        write_all(buf, self.ssid.as_bytes())
    }
}

/// Marks the SSID element.
#[derive(Clone, Copy, Debug, Default, PartialEq, Eq, PartialOrd, Ord, Hash)]
pub struct SSIDElementType;

impl SSIDLikeElementType for SSIDElementType {
    open spec fn spec_element_id() -> ElementID {
        ElementID::Id(0x00)
    }

    fn element_id() -> (r: ElementID) {
        ElementID::Id(0x00)
    }
}

/// The SSID element holds the human-readable identifier of a BSS.
pub type SSIDElement<'a> = SSIDLikeElement<'a, SSIDElementType>;

/// Marks the mesh ID element.
#[derive(Clone, Copy, Debug, Default, PartialEq, Eq, PartialOrd, Ord, Hash)]
pub struct MeshIDElementType;

impl SSIDLikeElementType for MeshIDElementType {
    open spec fn spec_element_id() -> ElementID {
        ElementID::Id(0x72)
    }

    fn element_id() -> (r: ElementID) {
        ElementID::Id(0x72)
    }
}

/// An element is hidden exactly when its identifier takes no bytes: [SSIDLikeElement::is_hidden]
/// holds exactly when [SSIDLikeElement::length_in_bytes] is zero.
pub proof fn lemma_hidden_iff_no_bytes<'a, Type: SSIDLikeElementType>(e: SSIDLikeElement<'a, Type>)
    ensures
        (e.spec_ssid()@.len() == 0) == (e.spec_ssid().spec_bytes().len() == 0),
{
    let chars = e.spec_ssid()@;
    if chars.len() > 0 {
        assert(e.spec_ssid().spec_bytes() == vstd::utf8::encode_scalar(chars[0] as u32)
            + vstd::utf8::encode_utf8(chars.drop_first()));
        assert(vstd::utf8::encode_scalar(chars[0] as u32).len() >= 1);
    }
}

/// Reading the written body of an element with an identifier of at most 32 bytes gives back
/// the identifier, whatever reading gives.
pub proof fn lemma_ssid_roundtrip<'a, 'b, Type: SSIDLikeElementType>(
    e: SSIDLikeElement<'a, Type>,
    r: Option<SSIDLikeElement<'b, Type>>,
)
    requires
        e.spec_ssid().spec_bytes().len() <= 32,
        <SSIDLikeElement<'a, Type> as Element>::spec_read(e.spec_ssid().spec_bytes(), r),
    ensures
        r matches Some(x) && x.spec_ssid()@ == e.spec_ssid()@,
{
    vstd::utf8::encode_utf8_valid_utf8(e.spec_ssid()@);
    if let Some(x) = r {
        vstd::utf8::encode_utf8_decode_utf8(x.spec_ssid()@);
        vstd::utf8::encode_utf8_decode_utf8(e.spec_ssid()@);
    }
}

impl<'b, Type: SSIDLikeElementType> Element for SSIDLikeElement<'b, Type> {
    type ReadType<'a> = SSIDLikeElement<'a, Type>;

    open spec fn spec_body(&self) -> Seq<u8> {
        self.spec_ssid().spec_bytes()
    }

    fn body_bytes(&self) -> (r: Vec<u8>) {
        let mut out: Vec<u8> = Vec::new();
        crate::common::wire::push_bytes(&mut out, self.ssid.as_bytes());
        out
    }

    open spec fn spec_element_id() -> ElementID {
        Type::spec_element_id()
    }

    open spec fn spec_read<'a>(body: Seq<u8>, r: Option<SSIDLikeElement<'a, Type>>) -> bool {
        match r {
            None => body.len() > 32 || !valid_utf8(body),
            Some(e) => body.len() <= 32 && valid_utf8(body) && e.spec_ssid().spec_bytes() == body,
        }
    }

    fn element_id() -> (r: ElementID) {
        Type::element_id()
    }

    fn read<'a>(body: &'a [u8]) -> (r: Option<SSIDLikeElement<'a, Type>>) {
        match SSIDLikeElement::<'a, Type>::try_from_ctx(body) {
            Ok((e, _)) => Some(e),
            Err(_) => None,
        }
    }
}

} // verus!
