//! Elements: the tagged fields carried in the bodies of frames.
use crate::common::wire::{push_bytes, slice_range, write_all, Error};
use vstd::prelude::*;

pub mod bss_load;
pub mod element_chain;
pub mod ht;
pub mod ibss_parameter_set;
pub mod kde;
pub mod mesh_configuration;
pub mod mesh_id;
pub mod mesh_peering_management;
pub mod vendor_specific_element;
pub mod owe_transition;
pub mod rates;
pub mod rsn;
pub mod ssid;
pub mod tim;
pub mod types;
pub mod vht;

pub use bss_load::BSSLoadElement;
pub use vendor_specific_element::{starts_with, PrefixedVendorPayload, VendorSpecificElement};

verus! {

/// An element identifier.
#[derive(Clone, Copy, Debug, PartialEq, Eq, Hash)]
pub enum ElementID {
    /// A normal ID.
    Id(u8),
    /// An extension ID.
    /// This implies, that the normal ID is 255.
    ExtId(u8),
    /// A vendor specific element, whose payload starts with `prefix`.
    VendorSpecific { prefix: &'static [u8] },
}

/// The ID byte of elements with an extension ID.
pub const EXT_ELEMENT_ID: u8 = 0xff;

/// The ID byte of vendor specific elements.
pub const VENDOR_SPECIFIC_ELEMENT_ID: u8 = 0xdd;

impl ElementID {
    /// The ID byte used for matching.
    pub open spec fn spec_id(&self) -> u8 {
        match self {
            ElementID::Id(id) => *id,
            ElementID::ExtId(_) => EXT_ELEMENT_ID,
            ElementID::VendorSpecific { .. } => VENDOR_SPECIFIC_ELEMENT_ID,
        }
    }

    /// The length of the header written in front of the body of such an element.
    pub open spec fn spec_header_length(&self) -> int {
        match self {
            ElementID::Id(_) => 2,
            ElementID::ExtId(_) => 3,
            ElementID::VendorSpecific { prefix } => 2 + prefix@.len() as int,
        }
    }

    /// Checks if this element ID is an extended element ID.
    pub fn is_ext(&self) -> (r: bool)
        ensures
            r == self is ExtId,
    {
        match self {
            ElementID::ExtId(_) => true,
            _ => false,
        }
    }

    /// Returns the ID used for matching.
    ///
    /// If [Self::is_ext] is true, this returns 255.
    pub fn id(&self) -> (r: u8)
        ensures
            r == self.spec_id(),
    {
        match self {
            ElementID::Id(id) => *id,
            ElementID::ExtId(_) => EXT_ELEMENT_ID,
            ElementID::VendorSpecific { .. } => VENDOR_SPECIFIC_ELEMENT_ID,
        }
    }

    /// Returns the extended ID.
    ///
    /// If [Self::is_ext] is false, this returns None.
    pub fn ext_id(&self) -> (r: Option<u8>)
        ensures
            r == (match self {
                ElementID::ExtId(ext_id) => Some(*ext_id),
                _ => None::<u8>,
            }),
    {
        match self {
            ElementID::ExtId(ext_id) => Some(*ext_id),
            _ => None,
        }
    }

    /// Returns the prefix of a vendor specific element ID.
    pub fn vendor_prefix(&self) -> (r: Option<&'static [u8]>)
        ensures
            r == (match self {
                ElementID::VendorSpecific { prefix } => Some(*prefix),
                _ => None::<&'static [u8]>,
            }),
    {
        match self {
            ElementID::VendorSpecific { prefix } => Some(*prefix),
            _ => None,
        }
    }

    /// The length of the header written in front of the body of such an element.
    pub fn element_header_length(&self) -> (r: usize)
        requires
            self.spec_header_length() <= usize::MAX,
        ensures
            r == self.spec_header_length(),
    {
        match self {
            ElementID::Id(_) => 2,
            ElementID::ExtId(_) => 3,
            ElementID::VendorSpecific { prefix } => 2 + prefix.len(),
        }
    }
}

/// A raw extension element body: the extension ID and the rest.
#[derive(Clone, Copy, Debug, PartialEq, Eq, Hash)]
pub struct RawIEEE80211ExtElement<'a> {
    /// The extension ID.
    pub ext_id: u8,
    /// The body after the extension ID.
    pub slice: &'a [u8],
}

impl<'a> RawIEEE80211ExtElement<'a> {
    /// Read the extension ID and take the rest as the body.
    ///
    /// Only the extension ID counts as read.
    pub fn try_from_ctx(from: &'a [u8]) -> (r: Result<(Self, usize), Error>)
        ensures
            from@.len() == 0 ==> r == Err::<(Self, usize), Error>(Error::TooShort),
            from@.len() > 0 ==> (r matches Ok((e, n)) && n == 1 && e.ext_id == from@[0] && e.slice@
                == from@.skip(1)),
    {
        if from.len() == 0 {
            return Err(Error::TooShort);
        }
        Ok((RawIEEE80211ExtElement { ext_id: from[0], slice: slice_range(from, 1, from.len()) }, 1))
    }

    /// The length of the serialized body: the extension ID and the rest.
    pub fn measure_with(&self) -> (r: usize)
        requires
            self.slice@.len() + 1 <= usize::MAX,
        ensures
            r == self.slice@.len() + 1,
    {
        self.slice.len() + 1
    }

    /// Write the extension ID and the rest to the start of `buf`.
    pub fn try_into_ctx(&self, buf: &mut [u8]) -> (r: Result<usize, Error>)
        ensures
            final(buf)@.len() == old(buf)@.len(),
            ({
                let bytes = seq![self.ext_id] + self.slice@;
                &&& bytes.len() <= old(buf)@.len() ==> r == Ok::<usize, Error>(bytes.len() as usize)
                    && final(buf)@ == bytes + old(buf)@.skip(bytes.len() as int)
                &&& bytes.len() > old(buf)@.len() ==> r == Err::<usize, Error>(Error::TooShort)
            }),
    {
        let mut bytes: Vec<u8> = Vec::new();
        bytes.push(self.ext_id);
        push_bytes(&mut bytes, self.slice);
        assert(bytes@ =~= seq![self.ext_id] + self.slice@);
        write_all(buf, bytes.as_slice())
    }
}

/// Reading a written extension element gives back its extension ID and its body.
pub proof fn lemma_ext_element_roundtrip(ext_id: u8, body: Seq<u8>)
    ensures
        (seq![ext_id] + body).len() > 0,
        (seq![ext_id] + body)[0] == ext_id,
        (seq![ext_id] + body).skip(1) == body,
{
    assert((seq![ext_id] + body).skip(1) =~= body);
}

/// An extension element body with a typed payload: the extension ID, then the payload.
#[derive(Clone, Copy, Debug, PartialEq, Eq, Hash)]
pub struct TypedIEEE80211ExtElement<Payload> {
    /// The extension ID.
    pub ext_id: u8,
    /// The payload.
    pub payload: Payload,
}

/// A raw element: the ID byte and the body, as read from a frame.
#[derive(Clone, Copy, Debug, PartialEq, Eq, Hash)]
pub struct RawIEEE80211Element<'a> {
    /// The ID byte.
    pub tlv_type: u8,
    /// The body of the element.
    pub slice: &'a [u8],
}

impl<'a> View for RawIEEE80211Element<'a> {
    type V = (u8, Seq<u8>);

    open spec fn view(&self) -> (u8, Seq<u8>) {
        (self.tlv_type, self.slice@)
    }
}

/// `s` starts with a complete element: an ID byte, a length byte and that many bytes of body.
pub open spec fn raw_element_fits(s: Seq<u8>) -> bool {
    s.len() >= 2 && s.len() >= 2 + s[1]
}

/// The elements at the start of `s`, read one after another until the rest is no complete
/// element.
pub open spec fn raw_elements(s: Seq<u8>) -> Seq<(u8, Seq<u8>)>
    decreases s.len(),
{
    if raw_element_fits(s) {
        seq![(s[0], s.subrange(2, 2 + s[1]))] + raw_elements(s.skip(2 + s[1]))
    } else {
        seq![]
    }
}

/// The bytes of an element with ID byte `tlv_type` and body `body`.
pub open spec fn raw_element_bytes(tlv_type: u8, body: Seq<u8>) -> Seq<u8> {
    seq![tlv_type, body.len() as u8] + body
}

impl<'a> RawIEEE80211Element<'a> {
    /// Read an element from the start of `from`.
    ///
    /// Fails with [Error::TooShort] unless `from` starts with a complete element.
    pub fn try_from_ctx(from: &'a [u8]) -> (r: Result<(Self, usize), Error>)
        ensures
            r is Ok <==> raw_element_fits(from@),
            r is Err ==> r == Err::<(Self, usize), Error>(Error::TooShort),
            r matches Ok((e, n)) ==> e@ == (from@[0], from@.subrange(2, 2 + from@[1])) && n == 2
                + from@[1],
    {
        if from.len() < 2 {
            return Err(Error::TooShort);
        }
        let length = from[1] as usize;
        if from.len() - 2 < length {
            return Err(Error::TooShort);
        }
        let slice = slice_range(from, 2, 2 + length);
        Ok((RawIEEE80211Element { tlv_type: from[0], slice }, 2 + length))
    }

    /// The serialized element.
    pub fn to_bytes(&self) -> (r: Vec<u8>)
        requires
            self.slice@.len() <= 255,
        ensures
            r@ == raw_element_bytes(self.tlv_type, self.slice@),
    {
        let mut out = Vec::new();
        out.push(self.tlv_type);
        out.push(self.slice.len() as u8);
        push_bytes(&mut out, self.slice);
        assert(out@ =~= raw_element_bytes(self.tlv_type, self.slice@));
        out
    }
}

/// Reading an element that was written with a body of at most 255 bytes gives back its ID byte
/// and body, and reading continues after it.
pub proof fn lemma_raw_element_roundtrip(tlv_type: u8, body: Seq<u8>, rest: Seq<u8>)
    requires
        body.len() <= 255,
    ensures
        raw_elements(raw_element_bytes(tlv_type, body) + rest) == seq![(tlv_type, body)]
            + raw_elements(rest),
{
    let s = raw_element_bytes(tlv_type, body) + rest;
    assert(s[1] == body.len());
    assert(s.subrange(2, 2 + s[1]) =~= body);
    assert(s.skip(2 + s[1]) =~= rest);
}

/// An iterator reading elements from a byte slice, until there's no more left.
pub struct ReadIterator<'a> {
    /// The bytes not read yet, or [None] once reading failed.
    pub bytes: Option<&'a [u8]>,
}

impl<'a> ReadIterator<'a> {
    /// The elements that are left to read.
    pub open spec fn remaining(&self) -> Seq<(u8, Seq<u8>)> {
        match self.bytes {
            Some(bytes) => raw_elements(bytes@),
            None => seq![],
        }
    }

    /// Start reading at the beginning of `bytes`.
    pub fn new(bytes: &'a [u8]) -> (r: Self)
        ensures
            r.bytes == Some(bytes),
            r.remaining() == raw_elements(bytes@),
    {
        ReadIterator { bytes: Some(bytes) }
    }

    /// Read the next element.
    ///
    /// Once the bytes hold no complete element, reading stops for good.
    pub fn next(&mut self) -> (r: Option<RawIEEE80211Element<'a>>)
        ensures
            old(self).remaining().len() == 0 ==> r is None && final(self).remaining().len() == 0,
            old(self).remaining().len() > 0 ==> (r matches Some(e) && e@ == old(
                self,
            ).remaining()[0]) && final(self).remaining() == old(self).remaining().drop_first(),
    {
        match self.bytes {
            Some(bytes) => match RawIEEE80211Element::try_from_ctx(bytes) {
                Ok((element, offset)) => {
                    let (_, rest) = bytes.split_at(offset);
                    self.bytes = Some(rest);
                    assert(raw_elements(bytes@).drop_first() =~= raw_elements(rest@));
                    Some(element)
                },
                Err(_) => {
                    self.bytes = None;
                    None
                },
            },
            None => None,
        }
    }

    /// The number of bytes left to read.
    pub fn len(&self) -> (r: usize)
        ensures
            r == (match self.bytes {
                Some(bytes) => bytes@.len(),
                None => 0,
            }),
    {
        match self.bytes {
            Some(bytes) => bytes.len(),
            None => 0,
        }
    }
}

/// The vendor specific element ID with the prefix `prefix`.
pub open spec fn vendor_specific_id(prefix: Seq<u8>) -> ElementID {
    ElementID::VendorSpecific { prefix: choose|p: &'static [u8]| p@ == prefix }
}

/// A vendor specific element ID is the one its prefix names.
pub proof fn lemma_vendor_specific_id(prefix: &'static [u8])
    ensures
        vendor_specific_id(prefix@) == (ElementID::VendorSpecific { prefix }),
{
    let chosen = choose|p: &'static [u8]| p@ == prefix@;
    assert(chosen@ == prefix@);
    assert(chosen =~= prefix);
}

/// A type of element: its ID, and how the body of an element with that ID is read.
pub trait Element: Sized {
    /// The type returned by reading this element.
    type ReadType<'a>;

    /// The ID of this element.
    spec fn spec_element_id() -> ElementID;

    /// Whether `r` is what reading the element body `body` gives; [None] where reading fails.
    spec fn spec_read<'a>(body: Seq<u8>, r: Option<Self::ReadType<'a>>) -> bool;

    /// Whether the element body `body` can be read at all, without indexing out of bounds.
    open spec fn spec_readable(body: Seq<u8>) -> bool {
        true
    }

    /// The ID of this element.
    fn element_id() -> (r: ElementID)
        ensures
            r == Self::spec_element_id(),
    ;

    /// The body of this element, as it is written.
    spec fn spec_body(&self) -> Seq<u8>;

    /// Whether this element can be written.
    open spec fn spec_writable(&self) -> bool {
        true
    }

    /// The body of this element, as it is written.
    fn body_bytes(&self) -> (r: Vec<u8>)
        requires
            self.spec_writable(),
        ensures
            r@ == self.spec_body(),
    ;

    /// Read the element body `body`.
    fn read<'a>(body: &'a [u8]) -> (r: Option<Self::ReadType<'a>>)
        requires
            Self::spec_readable(body@),
        ensures
            Self::spec_read(body@, r),
    ;
}

/// The raw element `e` has the ID `element_id`.
///
/// An extension ID matches the first body byte of an element with ID byte 255; a vendor
/// specific ID matches an element with ID byte 221 whose body starts with the prefix.
pub open spec fn spec_element_id_matches(e: (u8, Seq<u8>), element_id: ElementID) -> bool {
    match element_id {
        ElementID::Id(id) => id == e.0,
        ElementID::ExtId(ext_id) => e.0 == EXT_ELEMENT_ID && e.1.len() >= 1 && e.1[0] == ext_id,
        ElementID::VendorSpecific { prefix } => e.0 == VENDOR_SPECIFIC_ELEMENT_ID
            && prefix@.is_prefix_of(e.1),
    }
}

/// The body of the element with ID `element_id` that the raw element `e` carries: after the
/// extension ID, or after the vendor prefix.
pub open spec fn spec_element_body(e: (u8, Seq<u8>), element_id: ElementID) -> Option<Seq<u8>> {
    match element_id {
        ElementID::Id(_) => Some(e.1),
        ElementID::ExtId(_) => if e.1.len() >= 1 {
            Some(e.1.skip(1))
        } else {
            None
        },
        ElementID::VendorSpecific { prefix } => if prefix@.len() <= e.1.len() {
            Some(e.1.skip(prefix@.len() as int))
        } else {
            None
        },
    }
}

/// The bytes of an element with ID `element_id` and body `body`: the header that the ID calls
/// for, then the body.
pub open spec fn spec_element_bytes(element_id: ElementID, body: Seq<u8>) -> Seq<u8> {
    match element_id {
        ElementID::Id(id) => raw_element_bytes(id, body),
        ElementID::ExtId(ext_id) => raw_element_bytes(EXT_ELEMENT_ID, seq![ext_id] + body),
        ElementID::VendorSpecific { prefix } => raw_element_bytes(
            VENDOR_SPECIFIC_ELEMENT_ID,
            prefix@ + body,
        ),
    }
}

/// Write an element with ID `element_id` and body `body`.
pub fn write_element(element_id: ElementID, body: &[u8]) -> (r: Vec<u8>)
    requires
        element_id.spec_header_length() - 2 + body@.len() <= 255,
    ensures
        r@ == spec_element_bytes(element_id, body@),
{
    let mut out = Vec::new();
    match element_id {
        ElementID::Id(id) => {
            out.push(id);
            out.push(body.len() as u8);
        },
        ElementID::ExtId(ext_id) => {
            out.push(EXT_ELEMENT_ID);
            out.push((body.len() + 1) as u8);
            out.push(ext_id);
        },
        ElementID::VendorSpecific { prefix } => {
            out.push(VENDOR_SPECIFIC_ELEMENT_ID);
            out.push((body.len() + prefix.len()) as u8);
            push_bytes(&mut out, prefix);
        },
    }
    push_bytes(&mut out, body);
    assert(out@ =~= spec_element_bytes(element_id, body@));
    out
}

/// An element written with [write_element] is the first element read back, it matches its ID,
/// and its body is the written body.
pub proof fn lemma_written_element_is_found(element_id: ElementID, body: Seq<u8>, rest: Seq<u8>)
    requires
        element_id.spec_header_length() - 2 + body.len() <= 255,
    ensures
        ({
            let elements = raw_elements(spec_element_bytes(element_id, body) + rest);
            &&& elements.len() >= 1
            &&& spec_element_id_matches(elements[0], element_id)
            &&& spec_element_body(elements[0], element_id) == Some(body)
            &&& elements.drop_first() == raw_elements(rest)
        }),
{
    match element_id {
        ElementID::Id(id) => {
            lemma_raw_element_roundtrip(id, body, rest);
        },
        ElementID::ExtId(ext_id) => {
            lemma_raw_element_roundtrip(EXT_ELEMENT_ID, seq![ext_id] + body, rest);
            assert((seq![ext_id] + body).skip(1) =~= body);
        },
        ElementID::VendorSpecific { prefix } => {
            lemma_raw_element_roundtrip(VENDOR_SPECIFIC_ELEMENT_ID, prefix@ + body, rest);
            assert((prefix@ + body).skip(prefix@.len() as int) =~= body);
            assert(prefix@.is_prefix_of(prefix@ + body));
        },
    }
    let elements = raw_elements(spec_element_bytes(element_id, body) + rest);
    assert(elements.drop_first() =~= raw_elements(rest));
}

/// A container, which contains the elements of a frame.
///
/// It can be used to extract different elements from the body of a frame.
#[derive(Clone, Copy, Debug, PartialEq, Eq, Hash)]
pub struct ReadElements<'bytes> {
    /// The bytes of the elements.
    pub bytes: &'bytes [u8],
}

/// Whether `r` is what reading the element of type `E` that the raw element `e` carries gives.
pub open spec fn parsed_as<'a, E: Element>(e: (u8, Seq<u8>), r: Option<E::ReadType<'a>>) -> bool {
    match spec_element_body(e, E::spec_element_id()) {
        Some(body) => E::spec_read(body, r),
        None => r is None,
    }
}

/// Whether the element of type `E` that the raw element `e` carries can be read at all.
pub open spec fn readable_as<E: Element>(e: (u8, Seq<u8>)) -> bool {
    match spec_element_body(e, E::spec_element_id()) {
        Some(body) => E::spec_readable(body),
        None => true,
    }
}

/// Whether all the elements of type `E` among the raw elements of `bytes` can be read at all.
pub open spec fn all_readable_as<E: Element>(bytes: Seq<u8>) -> bool {
    let m = matching_elements(bytes, E::spec_element_id());
    forall|i: int| 0 <= i < m.len() ==> #[trigger] readable_as::<E>(m[i])
}

/// The values of the [Some]s in `s`, in order.
pub open spec fn somes<T>(s: Seq<Option<T>>) -> Seq<T>
    decreases s.len(),
{
    if s.len() == 0 {
        Seq::empty()
    } else {
        let rest = somes(s.drop_last());
        match s.last() {
            Some(x) => rest.push(x),
            None => rest,
        }
    }
}

/// The raw elements of `bytes` that match `element_id`, in order.
pub open spec fn matching_elements(bytes: Seq<u8>, element_id: ElementID) -> Seq<(u8, Seq<u8>)> {
    raw_elements(bytes).filter(|e: (u8, Seq<u8>)| spec_element_id_matches(e, element_id))
}

impl<'bytes> ReadElements<'bytes> {
    /// Check if the provided [RawIEEE80211Element] matches with the [ElementID].
    pub fn element_id_matches(raw_element: &RawIEEE80211Element<'bytes>, element_id: ElementID) -> (r:
        bool)
        ensures
            r == spec_element_id_matches(raw_element@, element_id),
    {
        match element_id {
            ElementID::Id(id) => id == raw_element.tlv_type,
            ElementID::ExtId(ext_id) => raw_element.tlv_type == EXT_ELEMENT_ID
                && raw_element.slice.len() >= 1 && raw_element.slice[0] == ext_id,
            ElementID::VendorSpecific { prefix } => raw_element.tlv_type
                == VENDOR_SPECIFIC_ELEMENT_ID && starts_with(raw_element.slice, prefix),
        }
    }

    /// The body of the element with ID `element_id` that `raw_element` carries.
    ///
    /// Returns [None] if the raw element is too short to hold the extension ID or the vendor
    /// prefix.
    pub fn raw_element_body(raw_element: RawIEEE80211Element<'bytes>, element_id: ElementID) -> (r:
        Option<&'bytes [u8]>)
        ensures
            r matches Some(body) ==> spec_element_body(raw_element@, element_id) == Some(body@),
            r is None ==> spec_element_body(raw_element@, element_id) is None,
    {
        let slice = raw_element.slice;
        match element_id {
            ElementID::Id(_) => Some(slice),
            ElementID::ExtId(_) => if slice.len() >= 1 {
                Some(slice_range(slice, 1, slice.len()))
            } else {
                None
            },
            ElementID::VendorSpecific { prefix } => if prefix.len() <= slice.len() {
                Some(slice_range(slice, prefix.len(), slice.len()))
            } else {
                None
            },
        }
    }

    /// Returns an iterator over the raw elements.
    pub fn raw_element_iterator(self) -> (r: ReadIterator<'bytes>)
        ensures
            r.remaining() == raw_elements(self.bytes@),
    {
        ReadIterator::new(self.bytes)
    }

    /// Returns the raw elements which match the specified [ElementID], in order.
    pub fn get_matching_elements_raw(self, element_id: ElementID) -> (r: Vec<
        RawIEEE80211Element<'bytes>,
    >)
        ensures
            r@.map_values(|e: RawIEEE80211Element<'bytes>| e@) == matching_elements(
                self.bytes@,
                element_id,
            ),
    {
        let ghost pred = |e: (u8, Seq<u8>)| spec_element_id_matches(e, element_id);
        let ghost all = raw_elements(self.bytes@);
        let ghost mut done: Seq<(u8, Seq<u8>)> = seq![];
        let mut iter = self.raw_element_iterator();
        let mut out: Vec<RawIEEE80211Element<'bytes>> = Vec::new();
        loop
            invariant
                all == raw_elements(self.bytes@),
                pred == (|e: (u8, Seq<u8>)| spec_element_id_matches(e, element_id)),
                all == done + iter.remaining(),
                out@.map_values(|e: RawIEEE80211Element<'bytes>| e@) == done.filter(pred),
            ensures
                out@.map_values(|e: RawIEEE80211Element<'bytes>| e@) == all.filter(pred),
            decreases iter.remaining().len(),
        {
            let ghost before = iter.remaining();
            match iter.next() {
                Some(element) => {
                    let ghost new_done = done.push(element@);
                    assert(new_done.drop_last() =~= done);
                    proof {
                        reveal(Seq::filter);
                    }
                    assert(all =~= new_done + iter.remaining());
                    if Self::element_id_matches(&element, element_id) {
                        out.push(element);
                        assert(out@.map_values(|e: RawIEEE80211Element<'bytes>| e@) =~= done.filter(
                            pred,
                        ).push(element@));
                    } else {
                        assert(out@.map_values(|e: RawIEEE80211Element<'bytes>| e@) =~= done.filter(
                            pred,
                        ));
                    }
                    proof {
                        done = new_done;
                    }
                },
                None => {
                    assert(all =~= done);
                    break ;
                },
            }
        }
        out
    }

    /// Returns the first raw element, which matches the specified [ElementID].
    pub fn get_first_element_raw(self, element_id: ElementID) -> (r: Option<
        RawIEEE80211Element<'bytes>,
    >)
        ensures
            r is None <==> matching_elements(self.bytes@, element_id).len() == 0,
            r matches Some(e) ==> e@ == matching_elements(self.bytes@, element_id)[0],
    {
        let matching = self.get_matching_elements_raw(element_id);
        proof {
            assert(matching@.map_values(|e: RawIEEE80211Element<'bytes>| e@).len()
                == matching@.len());
        }
        if matching.len() == 0 {
            None
        } else {
            Some(matching[0])
        }
    }

    /// Read the element of type `ElementType` that `raw_element` carries.
    pub fn parse_raw_element<ElementType: Element>(raw_element: RawIEEE80211Element<'bytes>) -> (r:
        Option<ElementType::ReadType<'bytes>>)
        requires
            readable_as::<ElementType>(raw_element@),
        ensures
            match spec_element_body(raw_element@, ElementType::spec_element_id()) {
                Some(body) => ElementType::spec_read(body, r),
                None => r is None,
            },
    {
        match Self::raw_element_body(raw_element, ElementType::element_id()) {
            Some(body) => ElementType::read(body),
            None => None,
        }
    }

    /// Returns the elements of type `ElementType`, in order: those with its ID that can be
    /// read.
    pub fn get_matching_elements<ElementType: Element>(self) -> (r: Vec<ElementType::ReadType<'bytes>>)
        requires
            all_readable_as::<ElementType>(self.bytes@),
        ensures
            exists|outcomes: Seq<Option<ElementType::ReadType<'bytes>>>|
                #![trigger somes(outcomes)]
                {
                    let m = matching_elements(self.bytes@, ElementType::spec_element_id());
                    &&& outcomes.len() == m.len()
                    &&& forall|i: int|
                        0 <= i < m.len() ==> #[trigger] parsed_as::<ElementType>(m[i], outcomes[i])
                    &&& r@ == somes(outcomes)
                },
    {
        let raw = self.get_matching_elements_raw(ElementType::element_id());
        let ghost m = matching_elements(self.bytes@, ElementType::spec_element_id());
        let ghost mut outcomes: Seq<Option<ElementType::ReadType<'bytes>>> = Seq::empty();
        let mut out: Vec<ElementType::ReadType<'bytes>> = Vec::new();
        let mut i: usize = 0;
        while i < raw.len()
            invariant
                i <= raw@.len(),
                raw@.map_values(|e: RawIEEE80211Element<'bytes>| e@) == m,
                outcomes.len() == i,
                m == matching_elements(self.bytes@, ElementType::spec_element_id()),
                all_readable_as::<ElementType>(self.bytes@),
                forall|j: int| 0 <= j < i ==> #[trigger] parsed_as::<ElementType>(m[j], outcomes[j]),
                out@ == somes(outcomes),
            decreases raw@.len() - i,
        {
            assert(raw@.map_values(|e: RawIEEE80211Element<'bytes>| e@)[i as int] == raw@[i as int]@);
            assert(readable_as::<ElementType>(m[i as int]));
            let parsed = Self::parse_raw_element::<ElementType>(raw[i]);
            let ghost new_outcomes = outcomes.push(parsed);
            assert(new_outcomes.drop_last() =~= outcomes);
            match parsed {
                Some(element) => {
                    out.push(element);
                },
                None => {},
            }
            proof {
                assert forall|j: int| 0 <= j < i + 1 implies #[trigger] parsed_as::<ElementType>(
                    m[j],
                    new_outcomes[j],
                ) by {
                    if j < i {
                        assert(new_outcomes[j] == outcomes[j]);
                    }
                }
                outcomes = new_outcomes;
            }
            i = i + 1;
        }
        assert(somes(outcomes) == out@);
        out
    }

    /// Returns the first element of type `ElementType`: the first with its ID that can be read.
    pub fn get_first_element<ElementType: Element>(self) -> (r: Option<ElementType::ReadType<'bytes>>)
        requires
            all_readable_as::<ElementType>(self.bytes@),
        ensures
            ({
                let m = matching_elements(self.bytes@, ElementType::spec_element_id());
                &&& r is None ==> forall|i: int|
                    0 <= i < m.len() ==> #[trigger] parsed_as::<ElementType>(m[i], None)
                &&& r is Some ==> exists|i: int|
                    0 <= i < m.len() && #[trigger] parsed_as::<ElementType>(m[i], r) && forall|j: int|
                        0 <= j < i ==> #[trigger] parsed_as::<ElementType>(m[j], None)
            }),
    {
        let raw = self.get_matching_elements_raw(ElementType::element_id());
        let ghost m = matching_elements(self.bytes@, ElementType::spec_element_id());
        let mut i: usize = 0;
        while i < raw.len()
            invariant
                i <= raw@.len(),
                m == matching_elements(self.bytes@, ElementType::spec_element_id()),
                all_readable_as::<ElementType>(self.bytes@),
                raw@.map_values(|e: RawIEEE80211Element<'bytes>| e@) == m,
                forall|j: int| 0 <= j < i ==> #[trigger] parsed_as::<ElementType>(m[j], None),
            decreases raw@.len() - i,
        {
            assert(raw@.map_values(|e: RawIEEE80211Element<'bytes>| e@)[i as int] == raw@[i as int]@);
            assert(readable_as::<ElementType>(m[i as int]));
            let parsed = Self::parse_raw_element::<ElementType>(raw[i]);
            if parsed.is_some() {
                assert(parsed_as::<ElementType>(m[i as int], parsed));
                return parsed;
            }
            i = i + 1;
        }
        None
    }

    /// Wrap all of `from`.
    pub fn try_from_ctx(from: &'bytes [u8]) -> (r: Result<(Self, usize), Error>)
        ensures
            r matches Ok((e, n)) && e.bytes == from && n == from@.len(),
    {
        Ok((ReadElements { bytes: from }, from.len()))
    }

    /// Write the elements to the start of `buf`, returning the number of bytes written.
    pub fn try_into_ctx(self, buf: &mut [u8]) -> (r: Result<usize, Error>)
        ensures
            final(buf)@.len() == old(buf)@.len(),
            self.bytes@.len() <= old(buf)@.len() ==> r == Ok::<usize, Error>(
                self.bytes@.len() as usize,
            ) && final(buf)@ == self.bytes@ + old(buf)@.skip(self.bytes@.len() as int),
            self.bytes@.len() > old(buf)@.len() ==> r == Err::<usize, Error>(Error::TooShort),
    {
        write_all(buf, self.bytes)
    }

    /// The length of the elements.
    pub fn measure_with(&self) -> (r: usize)
        ensures
            r == self.bytes@.len(),
    {
        self.bytes.len()
    }
}

/// The element IDs that the standard gives: SSID 0, supported rates 1, TIM 5, IBSS parameter set
/// 6, BSS load 11, HT capabilities 45, RSN 48, extended supported rates 50, HT operation 61, mesh
/// configuration 113, mesh ID 114, mesh peering management 117, VHT capabilities 191, VHT
/// operation 192, vendor specific 221.
pub proof fn lemma_element_ids<'a>()
    ensures
        <crate::elements::ssid::SSIDElement<'a> as Element>::spec_element_id() == ElementID::Id(0u8),
        <crate::elements::rates::SupportedRatesElement as Element>::spec_element_id() == ElementID::Id(1u8),
        <crate::elements::tim::TIMElement<&'a [u8]> as Element>::spec_element_id() == ElementID::Id(5u8),
        <crate::elements::ibss_parameter_set::IBSSParameterSetElement as Element>::spec_element_id() == ElementID::Id(6u8),
        <crate::elements::bss_load::BSSLoadElement as Element>::spec_element_id() == ElementID::Id(11u8),
        <crate::elements::ht::HTCapabilitiesElement as Element>::spec_element_id() == ElementID::Id(45u8),
        <crate::elements::rsn::RSNElement as Element>::spec_element_id() == ElementID::Id(48u8),
        <crate::elements::rates::ExtendedSupportedRatesElement as Element>::spec_element_id() == ElementID::Id(50u8),
        <crate::elements::ht::HTOperationElement as Element>::spec_element_id() == ElementID::Id(61u8),
        <crate::elements::mesh_configuration::MeshConfigurationElement as Element>::spec_element_id() == ElementID::Id(113u8),
        <crate::elements::mesh_id::MeshIDElement<'a> as Element>::spec_element_id() == ElementID::Id(114u8),
        <crate::elements::mesh_peering_management::MeshPeeringManagement as Element>::spec_element_id() == ElementID::Id(117u8),
        <crate::elements::vht::VHTCapabilitiesElement as Element>::spec_element_id() == ElementID::Id(191u8),
        <crate::elements::vht::VHTOperationElement as Element>::spec_element_id() == ElementID::Id(192u8),
        <crate::elements::vendor_specific_element::VendorSpecificElement<&'a [u8]> as Element>::spec_element_id() == ElementID::Id(221u8),
{
}

} // verus!
