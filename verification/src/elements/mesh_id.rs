//! The mesh ID element.
use crate::common::wire::{write_all, Error};
use crate::elements::ssid::str_from_utf8;
use crate::elements::ElementID;
use crate::elements::Element;
use crate::common::wire::push_bytes;
use vstd::prelude::*;
use vstd::string::StringSliceAdditionalSpecFns;
use vstd::utf8::valid_utf8;

verus! {

/// The Mesh ID element holds the human-readable identifier of a mesh BSS, of at most 32 bytes.
#[derive(Clone, Copy, Debug, PartialEq, Eq, Hash)]
pub struct MeshIDElement<'a> {
    mesh_id: &'a str,
}

impl<'a> MeshIDElement<'a> {
    /// The mesh ID.
    pub closed spec fn spec_mesh_id(&self) -> &'a str {
        self.mesh_id
    }

    /// Create a new Mesh ID element.
    ///
    /// This returns [None] if `mesh_id` is longer than 32 bytes.
    pub fn const_new(mesh_id: &'a str) -> (r: Option<Self>)
        ensures
            r is Some <==> mesh_id.spec_bytes().len() <= 32,
            r matches Some(e) ==> e.spec_mesh_id() == mesh_id,
    {
        Self::new(mesh_id)
    }

    /// Create a new Mesh ID element.
    ///
    /// This returns [None] if `mesh_id` is longer than 32 bytes.
    pub fn new(mesh_id: &'a str) -> (r: Option<Self>)
        ensures
            r is Some <==> mesh_id.spec_bytes().len() <= 32,
            r matches Some(e) ==> e.spec_mesh_id() == mesh_id,
    {
        if mesh_id.as_bytes().len() <= 32 {
            Some(Self { mesh_id })
        } else {
            None
        }
    }

    /// Create an element without checking the length of `mesh_id`.
    pub fn new_unchecked(mesh_id: &'a str) -> (r: Self)
        ensures
            r.spec_mesh_id() == mesh_id,
    {
        Self { mesh_id }
    }

    /// Get the mesh ID as a [str] reference.
    pub fn mesh_id(&self) -> (r: &'a str)
        ensures
            r == self.spec_mesh_id(),
    {
        self.mesh_id
    }

    /// Take the mesh ID.
    pub fn take_mesh_id(self) -> (r: &'a str)
        ensures
            r == self.spec_mesh_id(),
    {
        self.mesh_id
    }

    /// Check if the mesh ID is empty.
    pub fn is_empty(&self) -> (r: bool)
        ensures
            r == (self.spec_mesh_id()@.len() == 0),
    {
        self.mesh_id.is_empty()
    }

    /// Return the length in bytes.
    pub fn length_in_bytes(&self) -> (r: usize)
        ensures
            r == self.spec_mesh_id().spec_bytes().len(),
    {
        self.mesh_id.as_bytes().len()
    }

    /// Read the element body: all of it is the mesh ID, which must be valid UTF-8 of at most 32
    /// bytes.
    pub fn try_from_ctx(from: &'a [u8]) -> (r: Result<(Self, usize), Error>)
        ensures
            from@.len() > 32 ==> r == Err::<(Self, usize), Error>(Error::TooBig),
            from@.len() <= 32 && !valid_utf8(from@) ==> r == Err::<(Self, usize), Error>(
                Error::BadInput,
            ),
            from@.len() <= 32 && valid_utf8(from@) ==> (r matches Ok((e, n)) && n == from@.len()
                && e.spec_mesh_id().spec_bytes() == from@),
    {
        if from.len() > 32 {
            return Err(Error::TooBig);
        }
        match str_from_utf8(from) {
            Some(mesh_id) => Ok((Self::new_unchecked(mesh_id), from.len())),
            None => Err(Error::BadInput),
        }
    }

    /// The length of the serialized body.
    pub fn measure_with(&self) -> (r: usize)
        ensures
            r == self.spec_mesh_id().spec_bytes().len(),
    {
        self.length_in_bytes()
    }

    /// Write the mesh ID to the start of `buf`.
    pub fn try_into_ctx(&self, buf: &mut [u8]) -> (r: Result<usize, Error>)
        ensures
            final(buf)@.len() == old(buf)@.len(),
            ({
                let bytes = self.spec_mesh_id().spec_bytes();
                &&& bytes.len() <= old(buf)@.len() ==> r == Ok::<usize, Error>(bytes.len() as usize)
                    && final(buf)@ == bytes + old(buf)@.skip(bytes.len() as int)
                &&& bytes.len() > old(buf)@.len() ==> r == Err::<usize, Error>(Error::TooShort)
            }),
    {
        write_all(buf, self.mesh_id.as_bytes())
    }
}

impl<'b> Element for MeshIDElement<'b> {
    type ReadType<'a> = MeshIDElement<'a>;

    open spec fn spec_body(&self) -> Seq<u8> {
        self.spec_mesh_id().spec_bytes()
    }

    fn body_bytes(&self) -> (r: Vec<u8>) {
        let mut out: Vec<u8> = Vec::new();
        push_bytes(&mut out, self.mesh_id.as_bytes());
        out
    }

    open spec fn spec_element_id() -> ElementID {
        ElementID::Id(114)
    }

    open spec fn spec_read<'a>(body: Seq<u8>, r: Option<MeshIDElement<'a>>) -> bool {
        match r {
            None => body.len() > 32 || !valid_utf8(body),
            Some(e) => body.len() <= 32 && valid_utf8(body) && e.spec_mesh_id().spec_bytes() == body,
        }
    }

    fn element_id() -> (r: ElementID) {
        ElementID::Id(114)
    }

    fn read<'a>(body: &'a [u8]) -> (r: Option<MeshIDElement<'a>>) {
        match MeshIDElement::try_from_ctx(body) {
            Ok((e, _)) => Some(e),
            Err(_) => None,
        }
    }
}


/// Reading the written body of a mesh ID element of at most 32 bytes gives back its mesh ID,
/// whatever reading gives.
pub proof fn lemma_mesh_id_roundtrip<'a, 'b>(e: MeshIDElement<'a>, r: Option<MeshIDElement<'b>>)
    requires
        e.spec_mesh_id().spec_bytes().len() <= 32,
        <MeshIDElement as Element>::spec_read(e.spec_mesh_id().spec_bytes(), r),
    ensures
        r matches Some(x) && x.spec_mesh_id()@ == e.spec_mesh_id()@,
{
    vstd::utf8::encode_utf8_valid_utf8(e.spec_mesh_id()@);
    if let Some(x) = r {
        vstd::utf8::encode_utf8_decode_utf8(x.spec_mesh_id()@);
        vstd::utf8::encode_utf8_decode_utf8(e.spec_mesh_id()@);
    }
}

} // verus!
