//! The Mesh Peering Management element.
use crate::common::reason::IEEE80211Reason;
use crate::common::wire::{
    le_u16, push_u16_le, read_u16_le, u16_le_bytes, write_all, Error,
};
use crate::elements::ElementID;
use crate::elements::Element;
use vstd::prelude::*;

verus! {

/// The protocol used for mesh peering.
#[derive(Clone, Copy, Debug, PartialEq, Eq, Hash, Structural)]
pub enum MeshPeeringProtocolIdentifier {
    MeshPeeringManagementProtocol,
    AuthenticatedMeshPeeringExchangeProtocol,
    VendorSpecific,
    /// A value without a name.
    Unknown(u16),
}

impl MeshPeeringProtocolIdentifier {
    /// The variant that `value` encodes.
    pub open spec fn spec_from_bits(value: u16) -> Self {
        match value {
            0 => MeshPeeringProtocolIdentifier::MeshPeeringManagementProtocol,
            1 => MeshPeeringProtocolIdentifier::AuthenticatedMeshPeeringExchangeProtocol,
            255 => MeshPeeringProtocolIdentifier::VendorSpecific,
            x => MeshPeeringProtocolIdentifier::Unknown(x),
        }
    }

    /// The encoding of this variant.
    pub open spec fn spec_into_bits(self) -> u16 {
        match self {
            MeshPeeringProtocolIdentifier::MeshPeeringManagementProtocol => 0,
            MeshPeeringProtocolIdentifier::AuthenticatedMeshPeeringExchangeProtocol => 1,
            MeshPeeringProtocolIdentifier::VendorSpecific => 255,
            MeshPeeringProtocolIdentifier::Unknown(x) => x,
        }
    }

    /// Decode a variant from its representation.
    pub fn from_bits(value: u16) -> (r: Self)
        ensures
            r == Self::spec_from_bits(value),
            r.spec_into_bits() == value,
    {
        match value {
            0 => MeshPeeringProtocolIdentifier::MeshPeeringManagementProtocol,
            1 => MeshPeeringProtocolIdentifier::AuthenticatedMeshPeeringExchangeProtocol,
            255 => MeshPeeringProtocolIdentifier::VendorSpecific,
            x => MeshPeeringProtocolIdentifier::Unknown(x),
        }
    }

    /// Encode this variant.
    pub fn into_bits(self) -> (r: u16)
        ensures
            r == self.spec_into_bits(),
    {
        match self {
            MeshPeeringProtocolIdentifier::MeshPeeringManagementProtocol => 0,
            MeshPeeringProtocolIdentifier::AuthenticatedMeshPeeringExchangeProtocol => 1,
            MeshPeeringProtocolIdentifier::VendorSpecific => 255,
            MeshPeeringProtocolIdentifier::Unknown(x) => x,
        }
    }
}

/// The largest number of bytes that follow the local link ID.
pub const MAX_REST_LEN: usize = 20;

/// The bytes following the local link ID in an element of an Open frame.
pub open spec fn open_rest(pmk: Option<Seq<u8>>) -> Seq<u8> {
    match pmk {
        Some(key) => key,
        None => seq![],
    }
}

/// The bytes following the local link ID in an element of a Confirm frame.
pub open spec fn confirm_rest(peer_link_id: u16, pmk: Option<Seq<u8>>) -> Seq<u8> {
    u16_le_bytes(peer_link_id) + open_rest(pmk)
}

/// The bytes following the local link ID in an element of a Close frame.
pub open spec fn close_rest(peer_link_id: Option<u16>, reason_code: u16, pmk: Option<Seq<u8>>) -> Seq<
    u8,
> {
    let head = match peer_link_id {
        Some(id) => u16_le_bytes(id),
        None => seq![],
    };
    head + u16_le_bytes(reason_code) + open_rest(pmk)
}

/// The fields of an Open element: the PMK, if the rest is empty or sixteen bytes long.
pub open spec fn parse_open_rest(rest: Seq<u8>) -> Option<Option<Seq<u8>>> {
    if rest.len() == 0 {
        Some(None)
    } else if rest.len() == 16 {
        Some(Some(rest))
    } else {
        None
    }
}

/// The fields of a Confirm element: the peer link ID and the PMK, if the rest is two or eighteen
/// bytes long.
pub open spec fn parse_confirm_rest(rest: Seq<u8>) -> Option<(u16, Option<Seq<u8>>)> {
    if rest.len() == 2 {
        Some((le_u16(rest, 0), None))
    } else if rest.len() == 18 {
        Some((le_u16(rest, 0), Some(rest.subrange(2, 18))))
    } else {
        None
    }
}

/// The fields of a Close element: the peer link ID, the reason code and the PMK, if the rest is
/// two, four, eighteen or twenty bytes long.
pub open spec fn parse_close_rest(rest: Seq<u8>) -> Option<(Option<u16>, u16, Option<Seq<u8>>)> {
    if rest.len() == 2 {
        Some((None, le_u16(rest, 0), None))
    } else if rest.len() == 4 {
        Some((Some(le_u16(rest, 0)), le_u16(rest, 2), None))
    } else if rest.len() == 18 {
        Some((None, le_u16(rest, 0), Some(rest.subrange(2, 18))))
    } else if rest.len() == 20 {
        Some((Some(le_u16(rest, 0)), le_u16(rest, 2), Some(rest.subrange(4, 20))))
    } else {
        None
    }
}

/// The Mesh Peering Management element is used to manage a mesh peering with a neighbor mesh STA.
#[derive(Clone, Copy, Debug)]
pub struct MeshPeeringManagement {
    /// The protocol used for the peering.
    pub mesh_peering_protocol_identifier: MeshPeeringProtocolIdentifier,
    /// The link ID of the sender.
    pub local_link_id: u16,
    rest: [u8; 20],
    rest_len: usize,
}

/// The fields of a [MeshPeeringManagement] element, as read for a specific frame.
pub struct ParsedMeshPeeringManagement {
    /// The protocol used for the peering.
    pub mesh_peering_protocol_identifier: MeshPeeringProtocolIdentifier,
    /// The link ID of the sender.
    pub local_link_id: u16,
    /// The link ID of the receiver.
    pub peer_link_id: Option<u16>,
    /// Why the peering is closed.
    pub reason_code: Option<IEEE80211Reason>,
    /// The pairwise master key.
    pub pmk: Option<[u8; 16]>,
}

/// The view of an optional key.
pub open spec fn key_view(pmk: Option<[u8; 16]>) -> Option<Seq<u8>> {
    match pmk {
        Some(key) => Some(key@),
        None => None,
    }
}

/// Append `pmk`, if there is one, to `rest` at `offset`.
fn put_key(rest: &mut [u8; 20], offset: usize, pmk: Option<[u8; 16]>) -> (end: usize)
    requires
        offset <= 4,
    ensures
        end == offset + open_rest(key_view(pmk)).len(),
        final(rest)@.take(end as int) == old(rest)@.take(offset as int) + open_rest(key_view(pmk)),
{
    match pmk {
        Some(key) => {
            let mut i: usize = 0;
            while i < 16
                invariant
                    i <= 16,
                    offset <= 4,
                    rest@.take(offset + i) == old(rest)@.take(offset as int) + key@.take(i as int),
                decreases 16 - i,
            {
                let ghost prev = rest@;
                rest[offset + i] = key[i];
                assert(rest@.take(offset + i + 1) =~= prev.take(offset + i).push(key@[i as int]));
                assert(key@.take(i + 1) =~= key@.take(i as int).push(key@[i as int]));
                i = i + 1;
                assert(rest@.take(offset + i) =~= old(rest)@.take(offset as int) + key@.take(
                    i as int,
                ));
            }
            assert(key@.take(16) =~= key@);
            offset + 16
        },
        None => {
            assert(open_rest(key_view(pmk)) =~= seq![]);
            assert(rest@.take(offset as int) =~= old(rest)@.take(offset as int) + seq![]);
            offset
        },
    }
}

/// Append the two bytes of `value`, least significant first, to `rest` at `offset`.
fn put_u16(rest: &mut [u8; 20], offset: usize, value: u16) -> (end: usize)
    requires
        offset <= 18,
    ensures
        end == offset + 2,
        final(rest)@.take(end as int) == old(rest)@.take(offset as int) + u16_le_bytes(value),
{
    rest[offset] = (value % 256) as u8;
    rest[offset + 1] = (value / 256) as u8;
    assert(rest@.take(offset + 2) =~= old(rest)@.take(offset as int) + u16_le_bytes(value));
    offset + 2
}

/// Read the sixteen bytes of `rest` at `offset`.
fn get_key(rest: &[u8; 20], offset: usize) -> (key: [u8; 16])
    requires
        offset <= 4,
    ensures
        key@ == rest@.subrange(offset as int, offset + 16),
{
    let mut key = [0u8; 16];
    let mut i: usize = 0;
    while i < 16
        invariant
            i <= 16,
            offset <= 4,
            forall|k: int| 0 <= k < i ==> key@[k] == rest@[offset + k],
        decreases 16 - i,
    {
        key[i] = rest[offset + i];
        i = i + 1;
    }
    assert(key@ =~= rest@.subrange(offset as int, offset + 16));
    key
}

impl MeshPeeringManagement {
    #[verifier::type_invariant]
    spec fn rest_len_in_range(self) -> bool {
        self.rest_len <= MAX_REST_LEN
    }

    /// The protocol used for the peering.
    pub closed spec fn spec_protocol(self) -> MeshPeeringProtocolIdentifier {
        self.mesh_peering_protocol_identifier
    }

    /// The link ID of the sender.
    pub closed spec fn spec_local_link_id(self) -> u16 {
        self.local_link_id
    }

    /// The bytes that follow the local link ID.
    pub closed spec fn spec_rest(self) -> Seq<u8> {
        self.rest@.take(self.rest_len as int)
    }

    /// The element for an Open frame.
    pub fn new_open(
        mesh_peering_protocol_identifier: MeshPeeringProtocolIdentifier,
        local_link_id: u16,
        pmk: Option<[u8; 16]>,
    ) -> (r: Self)
        ensures
            r.spec_protocol() == mesh_peering_protocol_identifier,
            r.spec_local_link_id() == local_link_id,
            r.spec_rest() == open_rest(key_view(pmk)),
    {
        let mut rest = [0u8; 20];
        let end = put_key(&mut rest, 0, pmk);
        assert(rest@.take(end as int) =~= open_rest(key_view(pmk)));
        Self { mesh_peering_protocol_identifier, local_link_id, rest, rest_len: end }
    }

    /// The element for a Confirm frame.
    pub fn new_confirm(
        mesh_peering_protocol_identifier: MeshPeeringProtocolIdentifier,
        local_link_id: u16,
        peer_link_id: u16,
        pmk: Option<[u8; 16]>,
    ) -> (r: Self)
        ensures
            r.spec_protocol() == mesh_peering_protocol_identifier,
            r.spec_local_link_id() == local_link_id,
            r.spec_rest() == confirm_rest(peer_link_id, key_view(pmk)),
    {
        let mut rest = [0u8; 20];
        let ghost start = rest@;
        let offset = put_u16(&mut rest, 0, peer_link_id);
        let ghost middle = rest@;
        let end = put_key(&mut rest, offset, pmk);
        assert(rest@.take(end as int) =~= confirm_rest(peer_link_id, key_view(pmk)));
        Self { mesh_peering_protocol_identifier, local_link_id, rest, rest_len: end }
    }

    /// The element for a Close frame.
    pub fn new_close(
        mesh_peering_protocol_identifier: MeshPeeringProtocolIdentifier,
        local_link_id: u16,
        peer_link_id: Option<u16>,
        reason_code: IEEE80211Reason,
        pmk: Option<[u8; 16]>,
    ) -> (r: Self)
        ensures
            r.spec_protocol() == mesh_peering_protocol_identifier,
            r.spec_local_link_id() == local_link_id,
            r.spec_rest() == close_rest(peer_link_id, reason_code.spec_into_bits(), key_view(pmk)),
    {
        let mut rest = [0u8; 20];
        let mut offset: usize = 0;
        match peer_link_id {
            Some(id) => {
                offset = put_u16(&mut rest, 0, id);
            },
            None => {},
        }
        let ghost first = rest@.take(offset as int);
        let offset2 = put_u16(&mut rest, offset, reason_code.into_bits());
        let end = put_key(&mut rest, offset2, pmk);
        assert(rest@.take(end as int) =~= close_rest(
            peer_link_id,
            reason_code.spec_into_bits(),
            key_view(pmk),
        ));
        Self { mesh_peering_protocol_identifier, local_link_id, rest, rest_len: end }
    }

    /// Read the element as it appears in an Open frame.
    ///
    /// Returns [None] unless the element carries nothing or just a PMK after the local link ID.
    pub fn parse_as_open(&self) -> (r: Option<ParsedMeshPeeringManagement>)
        ensures
            r is Some <==> parse_open_rest(self.spec_rest()) is Some,
            r matches Some(p) ==> {
                &&& p.mesh_peering_protocol_identifier == self.spec_protocol()
                &&& p.local_link_id == self.spec_local_link_id()
                &&& p.peer_link_id is None
                &&& p.reason_code is None
                &&& parse_open_rest(self.spec_rest()) == Some(key_view(p.pmk))
            },
    {
        proof {
            use_type_invariant(self);
        }
        let pmk = if self.rest_len == 0 {
            None
        } else if self.rest_len == 16 {
            Some(get_key(&self.rest, 0))
        } else {
            return None;
        };
        proof {
            if self.rest_len == 16 {
                assert(self.rest@.subrange(0, 16) =~= self.spec_rest());
            }
        }
        Some(
            ParsedMeshPeeringManagement {
                mesh_peering_protocol_identifier: self.mesh_peering_protocol_identifier,
                local_link_id: self.local_link_id,
                peer_link_id: None,
                reason_code: None,
                pmk,
            },
        )
    }

    /// Read the element as it appears in a Confirm frame.
    ///
    /// Returns [None] unless the element carries a peer link ID and optionally a PMK after the
    /// local link ID.
    pub fn parse_as_confirm(&self) -> (r: Option<ParsedMeshPeeringManagement>)
        ensures
            r is Some <==> parse_confirm_rest(self.spec_rest()) is Some,
            r matches Some(p) ==> {
                &&& p.mesh_peering_protocol_identifier == self.spec_protocol()
                &&& p.local_link_id == self.spec_local_link_id()
                &&& p.reason_code is None
                &&& p.peer_link_id matches Some(id) && parse_confirm_rest(self.spec_rest()) == Some(
                    (id, key_view(p.pmk)),
                )
            },
    {
        proof {
            use_type_invariant(self);
        }
        if self.rest_len != 2 && self.rest_len != 18 {
            return None;
        }
        let peer_link_id = read_u16_le(&self.rest, 0);
        let pmk = if self.rest_len == 18 {
            Some(get_key(&self.rest, 2))
        } else {
            None
        };
        proof {
            assert(le_u16(self.rest@, 0) == le_u16(self.spec_rest(), 0));
            if self.rest_len == 18 {
                assert(self.rest@.subrange(2, 18) =~= self.spec_rest().subrange(2, 18));
            }
        }
        Some(
            ParsedMeshPeeringManagement {
                mesh_peering_protocol_identifier: self.mesh_peering_protocol_identifier,
                local_link_id: self.local_link_id,
                peer_link_id: Some(peer_link_id),
                reason_code: None,
                pmk,
            },
        )
    }

    /// Read the element as it appears in a Close frame.
    ///
    /// Returns [None] unless the element carries, after the local link ID, an optional peer link
    /// ID, a reason code and an optional PMK.
    pub fn parse_as_close(&self) -> (r: Option<ParsedMeshPeeringManagement>)
        ensures
            r is Some <==> parse_close_rest(self.spec_rest()) is Some,
            r matches Some(p) ==> {
                &&& p.mesh_peering_protocol_identifier == self.spec_protocol()
                &&& p.local_link_id == self.spec_local_link_id()
                &&& parse_close_rest(self.spec_rest()) matches Some((peer, bits, pmk))
                    && p.peer_link_id == peer && p.reason_code == Some(
                    IEEE80211Reason::spec_from_bits(bits),
                ) && key_view(p.pmk) == pmk
            },
    {
        proof {
            use_type_invariant(self);
        }
        let len = self.rest_len;
        if len != 2 && len != 4 && len != 18 && len != 20 {
            return None;
        }
        let has_peer_link_id = len == 4 || len == 20;
        let has_pmk = len == 18 || len == 20;
        let reason_offset: usize = if has_peer_link_id {
            2
        } else {
            0
        };
        let peer_link_id = if has_peer_link_id {
            Some(read_u16_le(&self.rest, 0))
        } else {
            None
        };
        let reason_code = IEEE80211Reason::from_bits(read_u16_le(&self.rest, reason_offset));
        let pmk = if has_pmk {
            Some(get_key(&self.rest, reason_offset + 2))
        } else {
            None
        };
        proof {
            let rest = self.spec_rest();
            assert(le_u16(self.rest@, 0) == le_u16(rest, 0));
            assert(le_u16(self.rest@, reason_offset as int) == le_u16(rest, reason_offset as int));
            if has_pmk {
                assert(self.rest@.subrange(reason_offset + 2, reason_offset + 18) =~= rest.subrange(
                    reason_offset + 2,
                    reason_offset + 18,
                ));
            }
        }
        Some(
            ParsedMeshPeeringManagement {
                mesh_peering_protocol_identifier: self.mesh_peering_protocol_identifier,
                local_link_id: self.local_link_id,
                peer_link_id,
                reason_code: Some(reason_code),
                pmk,
            },
        )
    }

    /// All twenty bytes that can follow the local link ID, including unused ones.
    pub closed spec fn spec_rest_buffer(self) -> Seq<u8> {
        self.rest@
    }

    /// Read an element body.
    ///
    /// Fails with [Error::TooShort] on fewer than four bytes. The bytes after the local link
    /// ID become the rest of the element; the returned length counts only the first four bytes.
    pub fn try_from_ctx(from: &[u8]) -> (r: Result<(Self, usize), Error>)
        requires
            from@.len() >= 4 ==> from@.len() <= 4 + MAX_REST_LEN,
        ensures
            from@.len() < 4 ==> r == Err::<(Self, usize), Error>(Error::TooShort),
            from@.len() >= 4 ==> (r matches Ok((m, n)) && n == 4 && m.spec_protocol()
                == MeshPeeringProtocolIdentifier::spec_from_bits(le_u16(from@, 0))
                && m.spec_local_link_id() == le_u16(from@, 2) && m.spec_rest() == from@.skip(4)
                && m.spec_rest_buffer() == from@.skip(4) + Seq::new(
                (24 - from@.len()) as nat,
                |i: int| 0u8,
            )),
    {
        if from.len() < 4 {
            return Err(Error::TooShort);
        }
        let mesh_peering_protocol_identifier = MeshPeeringProtocolIdentifier::from_bits(
            read_u16_le(from, 0),
        );
        let local_link_id = read_u16_le(from, 2);
        let mut rest = [0u8; 20];
        let rest_len = from.len() - 4;
        let mut i: usize = 0;
        while i < rest_len
            invariant
                rest_len == from@.len() - 4,
                rest_len <= 20,
                i <= rest_len,
                forall|k: int| 0 <= k < i ==> rest@[k] == from@[4 + k],
                forall|k: int| i <= k < 20 ==> rest@[k] == 0,
            decreases rest_len - i,
        {
            rest[i] = from[4 + i];
            i = i + 1;
        }
        assert(rest@.take(rest_len as int) =~= from@.skip(4));
        assert(rest@ =~= from@.skip(4) + Seq::new((24 - from@.len()) as nat, |i: int| 0u8));
        Ok((Self { mesh_peering_protocol_identifier, local_link_id, rest, rest_len }, 4))
    }

    /// The serialized element body: the protocol identifier, the local link ID and all twenty
    /// bytes that can follow, including unused ones.
    pub fn to_bytes(&self) -> (r: Vec<u8>)
        ensures
            r@ == u16_le_bytes(self.spec_protocol().spec_into_bits()) + u16_le_bytes(
                self.spec_local_link_id(),
            ) + self.spec_rest_buffer(),
    {
        let mut out: Vec<u8> = Vec::new();
        push_u16_le(&mut out, self.mesh_peering_protocol_identifier.into_bits());
        push_u16_le(&mut out, self.local_link_id);
        let ghost start = out@;
        let mut i: usize = 0;
        while i < 20
            invariant
                i <= 20,
                out@ == start + self.rest@.take(i as int),
            decreases 20 - i,
        {
            out.push(self.rest[i]);
            i = i + 1;
            assert(out@ =~= start + self.rest@.take(i as int));
        }
        assert(self.rest@.take(20) =~= self.rest@);
        out
    }

    /// Write the element body to the start of `buf`, returning the number of bytes written.
    pub fn try_into_ctx(self, buf: &mut [u8]) -> (r: Result<usize, Error>)
        ensures
            final(buf)@.len() == old(buf)@.len(),
            old(buf)@.len() >= 24 ==> r == Ok::<usize, Error>(24) && final(buf)@ == u16_le_bytes(
                self.spec_protocol().spec_into_bits(),
            ) + u16_le_bytes(self.spec_local_link_id()) + self.spec_rest_buffer() + old(buf)@.skip(
                24,
            ),
            old(buf)@.len() < 24 ==> r == Err::<usize, Error>(Error::TooShort),
    {
        let bytes = self.to_bytes();
        write_all(buf, bytes.as_slice())
    }

    /// The length of the element body: four bytes and the rest.
    pub fn measure_with(&self) -> (r: usize)
        ensures
            r == 4 + self.spec_rest().len(),
    {
        proof {
            use_type_invariant(self);
        }
        4 + self.rest_len
    }
}

/// An Open element reads back as an Open element with the same PMK.
pub proof fn lemma_open_roundtrip(pmk: Option<Seq<u8>>)
    requires
        pmk matches Some(key) ==> key.len() == 16,
    ensures
        parse_open_rest(open_rest(pmk)) == Some(pmk),
{
}

/// A Confirm element reads back as a Confirm element with the same peer link ID and PMK.
pub proof fn lemma_confirm_roundtrip(peer_link_id: u16, pmk: Option<Seq<u8>>)
    requires
        pmk matches Some(key) ==> key.len() == 16,
    ensures
        parse_confirm_rest(confirm_rest(peer_link_id, pmk)) == Some((peer_link_id, pmk)),
{
    let rest = confirm_rest(peer_link_id, pmk);
    assert(rest.subrange(0, 2) =~= u16_le_bytes(peer_link_id));
    crate::common::wire::lemma_u16_at(rest, 0, peer_link_id);
    if pmk is Some {
        assert(rest.subrange(2, 18) =~= pmk->0);
    }
}

/// A Close element reads back as a Close element with the same peer link ID, reason code and
/// PMK.
pub proof fn lemma_close_roundtrip(peer_link_id: Option<u16>, reason_code: u16, pmk: Option<Seq<u8>>)
    requires
        pmk matches Some(key) ==> key.len() == 16,
    ensures
        parse_close_rest(close_rest(peer_link_id, reason_code, pmk)) == Some(
            (peer_link_id, reason_code, pmk),
        ),
{
    let rest = close_rest(peer_link_id, reason_code, pmk);
    let o: int = if peer_link_id is Some {
        2
    } else {
        0
    };
    if peer_link_id is Some {
        assert(rest.subrange(0, 2) =~= u16_le_bytes(peer_link_id->0));
        crate::common::wire::lemma_u16_at(rest, 0, peer_link_id->0);
    }
    assert(rest.subrange(o, o + 2) =~= u16_le_bytes(reason_code));
    crate::common::wire::lemma_u16_at(rest, o, reason_code);
    if pmk is Some {
        assert(rest.subrange(o + 2, o + 18) =~= pmk->0);
    }
}

impl Element for MeshPeeringManagement {
    type ReadType<'a> = MeshPeeringManagement;

    open spec fn spec_body(&self) -> Seq<u8> {
        u16_le_bytes(self.spec_protocol().spec_into_bits()) + u16_le_bytes(self.spec_local_link_id())
            + self.spec_rest_buffer()
    }

    fn body_bytes(&self) -> (r: Vec<u8>) {
        self.to_bytes()
    }

    open spec fn spec_element_id() -> ElementID {
        ElementID::Id(117)
    }

    open spec fn spec_read<'a>(body: Seq<u8>, r: Option<MeshPeeringManagement>) -> bool {
        match r {
            None => body.len() < 4,
            Some(m) => body.len() >= 4 && m.spec_protocol() == MeshPeeringProtocolIdentifier::spec_from_bits(
                le_u16(body, 0),
            ) && m.spec_local_link_id() == le_u16(body, 2) && m.spec_rest() == body.skip(4)
                && m.spec_rest_buffer() == body.skip(4) + Seq::new(
                (24 - body.len()) as nat,
                |i: int| 0u8,
            ),
        }
    }

    open spec fn spec_readable(body: Seq<u8>) -> bool {
        body.len() >= 4 ==> body.len() <= 4 + MAX_REST_LEN
    }

    fn element_id() -> (r: ElementID) {
        ElementID::Id(117)
    }

    fn read<'a>(body: &'a [u8]) -> (r: Option<MeshPeeringManagement>) {
        match MeshPeeringManagement::try_from_ctx(body) {
            Ok((e, _)) => Some(e),
            Err(_) => None,
        }
    }
}

/// The numbering of [MeshPeeringProtocolIdentifier]: each named value is read from its own number and written as that
/// number, and any other number is kept as an unknown value.
pub proof fn lemma_mesh_peering_protocol_identifier_numbering(value: u16)
    ensures
        (MeshPeeringProtocolIdentifier::spec_from_bits(value) == MeshPeeringProtocolIdentifier::MeshPeeringManagementProtocol) == (value == 0),
        (MeshPeeringProtocolIdentifier::spec_from_bits(value) == MeshPeeringProtocolIdentifier::AuthenticatedMeshPeeringExchangeProtocol) == (value == 1),
        (MeshPeeringProtocolIdentifier::spec_from_bits(value) == MeshPeeringProtocolIdentifier::VendorSpecific) == (value == 255),
        MeshPeeringProtocolIdentifier::MeshPeeringManagementProtocol.spec_into_bits() == 0,
        MeshPeeringProtocolIdentifier::AuthenticatedMeshPeeringExchangeProtocol.spec_into_bits() == 1,
        MeshPeeringProtocolIdentifier::VendorSpecific.spec_into_bits() == 255,
        (MeshPeeringProtocolIdentifier::spec_from_bits(value) == MeshPeeringProtocolIdentifier::Unknown(value)) == !(
            value == 0 || value == 1 || value == 255),
{
}

} // verus!
