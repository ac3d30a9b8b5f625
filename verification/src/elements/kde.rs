//! Key data encapsulations (KDEs), carried in the key data of EAPOL key frames.
use crate::common::bits::{fits_u16, get_bits_u16, lemma_set_bits_u16, set_bits_u16};
use crate::common::wire::{
    be_u32, le_u16, lemma_u16_roundtrip, lemma_u32_roundtrip, push_bytes, push_u16_le, push_u32_be, read_u16_le, read_u32_be, slice_range,
    u16_le_bytes, u32_be_bytes, write_all, Error,
};
use crate::elements::rsn::IEEE80211PMKID;
use crate::elements::ElementID;
use crate::elements::{lemma_vendor_specific_id, vendor_specific_id, Element};
use vstd::prelude::*;

verus! {

/// The ID of the KDE with the IEEE OUI and data type `selector`.
pub open spec fn kde_id(selector: u8) -> Seq<u8> {
    seq![0x00u8, 0x0f, 0xac, selector]
}

/// A MAC address.
#[derive(Clone, Copy, Debug, PartialEq, Eq, Hash)]
pub struct MacAddressKde(pub [u8; 6]);

impl MacAddressKde {
    /// The length of the serialized KDE.
    pub fn measure_with(&self) -> (r: usize)
        ensures
            r == 6,
    {
        6
    }

    /// Read the KDE from its first 6 bytes.
    pub fn try_from_ctx(from: &[u8]) -> (r: Result<(Self, usize), Error>)
        ensures
            from@.len() < 6 ==> r == Err::<(Self, usize), Error>(Error::TooShort),
            from@.len() >= 6 ==> (r matches Ok((k, n)) && n == 6 && k.0@ == from@.take(6)),
    {
        if from.len() < 6 {
            return Err(Error::TooShort);
        }
        let mut bytes = [0u8; 6];
        let mut i: usize = 0;
        while i < 6
            invariant
                from@.len() >= 6,
                i <= 6,
                forall|k: int| 0 <= k < i ==> bytes@[k] == from@[k],
            decreases 6 - i,
        {
            bytes[i] = from[i];
            i = i + 1;
        }
        assert(bytes@ =~= from@.take(6));
        Ok((MacAddressKde(bytes), 6))
    }

    /// Write the KDE to the start of `buf`.
    pub fn try_into_ctx(self, buf: &mut [u8]) -> (r: Result<usize, Error>)
        ensures
            final(buf)@.len() == old(buf)@.len(),
            6 <= old(buf)@.len() ==> r == Ok::<usize, Error>(6) && final(buf)@ == self.0@ + old(
                buf,
            )@.skip(6),
            6 > old(buf)@.len() ==> r == Err::<usize, Error>(Error::TooShort),
    {
        write_all(buf, self.0.as_slice())
    }
}

/// A nonce.
#[derive(Clone, Copy, Debug, PartialEq, Eq, Hash)]
pub struct NonceKde(pub [u8; 32]);

impl NonceKde {
    /// The length of the serialized KDE.
    pub fn measure_with(&self) -> (r: usize)
        ensures
            r == 32,
    {
        32
    }

    /// Read the KDE from its first 32 bytes.
    pub fn try_from_ctx(from: &[u8]) -> (r: Result<(Self, usize), Error>)
        ensures
            from@.len() < 32 ==> r == Err::<(Self, usize), Error>(Error::TooShort),
            from@.len() >= 32 ==> (r matches Ok((k, n)) && n == 32 && k.0@ == from@.take(32)),
    {
        if from.len() < 32 {
            return Err(Error::TooShort);
        }
        let mut bytes = [0u8; 32];
        let mut i: usize = 0;
        while i < 32
            invariant
                from@.len() >= 32,
                i <= 32,
                forall|k: int| 0 <= k < i ==> bytes@[k] == from@[k],
            decreases 32 - i,
        {
            bytes[i] = from[i];
            i = i + 1;
        }
        assert(bytes@ =~= from@.take(32));
        Ok((NonceKde(bytes), 32))
    }

    /// Write the KDE to the start of `buf`.
    pub fn try_into_ctx(self, buf: &mut [u8]) -> (r: Result<usize, Error>)
        ensures
            final(buf)@.len() == old(buf)@.len(),
            32 <= old(buf)@.len() ==> r == Ok::<usize, Error>(32) && final(buf)@ == self.0@ + old(
                buf,
            )@.skip(32),
            32 > old(buf)@.len() ==> r == Err::<usize, Error>(Error::TooShort),
    {
        write_all(buf, self.0.as_slice())
    }
}

/// A PMKID.
#[derive(Clone, Copy, Debug, PartialEq, Eq, Hash)]
pub struct PmkidKde(pub IEEE80211PMKID);

impl PmkidKde {
    /// The length of the serialized KDE.
    pub fn measure_with(&self) -> (r: usize)
        ensures
            r == 16,
    {
        16
    }

    /// Read the KDE from its first sixteen bytes.
    pub fn try_from_ctx(from: &[u8]) -> (r: Result<(Self, usize), Error>)
        ensures
            from@.len() < 16 ==> r == Err::<(Self, usize), Error>(Error::TooShort),
            from@.len() >= 16 ==> (r matches Ok((k, n)) && n == 16 && k.0.0@ == from@.take(16)),
    {
        match IEEE80211PMKID::try_from_ctx(from) {
            Ok((p, n)) => Ok((PmkidKde(p), n)),
            Err(e) => Err(e),
        }
    }

    /// Write the KDE to the start of `buf`.
    pub fn try_into_ctx(self, buf: &mut [u8]) -> (r: Result<usize, Error>)
        ensures
            final(buf)@.len() == old(buf)@.len(),
            16 <= old(buf)@.len() ==> r == Ok::<usize, Error>(16) && final(buf)@ == self.0.0@ + old(
                buf,
            )@.skip(16),
            16 > old(buf)@.len() ==> r == Err::<usize, Error>(Error::TooShort),
    {
        self.0.try_into_ctx(buf)
    }
}

/// A key lifetime, in seconds.
#[derive(Clone, Copy, Debug, PartialEq, Eq, Hash, Structural)]
pub struct LifetimeKde(pub u32);

impl LifetimeKde {
    /// The length of the serialized KDE.
    pub fn measure_with(&self) -> (r: usize)
        ensures
            r == 4,
    {
        4
    }

    /// Read the big-endian lifetime from the first four bytes.
    pub fn try_from_ctx(from: &[u8]) -> (r: Result<(Self, usize), Error>)
        ensures
            from@.len() < 4 ==> r == Err::<(Self, usize), Error>(Error::TooShort),
            from@.len() >= 4 ==> r == Ok::<(Self, usize), Error>((LifetimeKde(be_u32(from@, 0)), 4)),
    {
        if from.len() < 4 {
            return Err(Error::TooShort);
        }
        Ok((LifetimeKde(read_u32_be(from, 0)), 4))
    }

    /// Write the big-endian lifetime to the start of `buf`.
    pub fn try_into_ctx(self, buf: &mut [u8]) -> (r: Result<usize, Error>)
        ensures
            final(buf)@.len() == old(buf)@.len(),
            4 <= old(buf)@.len() ==> r == Ok::<usize, Error>(4) && final(buf)@ == u32_be_bytes(self.0)
                + old(buf)@.skip(4),
            4 > old(buf)@.len() ==> r == Err::<usize, Error>(Error::TooShort),
    {
        let mut bytes: Vec<u8> = Vec::new();
        push_u32_be(&mut bytes, self.0);
        write_all(buf, bytes.as_slice())
    }
}

/// Information about a group temporal key (GTK).
#[derive(Clone, Copy, Debug, PartialEq, Eq, Hash, Structural)]
pub struct GtkInfo(pub u16);

impl GtkInfo {
    /// A value with every field at its default.
    pub fn new() -> (r: Self)
        ensures
            r.0 == 0x0,
    {
        Self(0x0)
    }

    /// Wrap the raw bits.
    pub fn from_bits(bits: u16) -> (r: Self)
        ensures
            r.0 == bits,
    {
        Self(bits)
    }

    /// Every field mask fits in the backing integer.
    proof fn lemma_masks_fit()
        by (bit_vector)
        ensures
            fits_u16(0, 0x3),
            fits_u16(2, 0x1),
            (0x3u16 << 0u16) & (0x1u16 << 2u16) == 0,
            (0x1u16 << 2u16) & (0x3u16 << 0u16) == 0,
            1u16 & 1u16 == 1,
            0u16 & 1u16 == 0,
    {
    }

    /// The raw bits.
    pub fn into_bits(self) -> (r: u16)
        ensures
            r == self.0,
    {
        self.0
    }

    /// The ID of the group key.
    pub open spec fn spec_key_id(self) -> u8 {
        get_bits_u16(self.0, 0, 0x3) as u8
    }

    /// The ID of the group key.
    pub fn key_id(&self) -> (r: u8)
        ensures
            r == self.spec_key_id(),
    {
        ((self.0 >> 0) & 0x3) as u8
    }

    /// Returns a copy with the field replaced by `value`.
    pub fn with_key_id(self, value: u8) -> (r: Self)
        ensures
            r.0 == set_bits_u16(self.0, 0, 0x3, (value as u16)),
            r.spec_key_id() == ((value as u16) & 0x3) as u8,
            r.spec_tx() == self.spec_tx(),
    {
        let v: u16 = value as u16;
        proof {
            Self::lemma_masks_fit();
            lemma_set_bits_u16(self.0, 0, 0x3, v, 0, 0x3);
            lemma_set_bits_u16(self.0, 0, 0x3, v, 2, 0x1);
        }
        Self((self.0 & !(0x3u16 << 0u16)) | ((v & 0x3) << 0u16))
    }

    /// The key is used for transmission.
    pub open spec fn spec_tx(self) -> bool {
        get_bits_u16(self.0, 2, 1) == 1
    }

    /// The key is used for transmission.
    pub fn tx(&self) -> (r: bool)
        ensures
            r == self.spec_tx(),
    {
        (self.0 >> 2) & 1 == 1
    }

    /// Returns a copy with the field replaced by `value`.
    pub fn with_tx(self, value: bool) -> (r: Self)
        ensures
            r.0 == set_bits_u16(self.0, 2, 0x1, (if value {
                1u16
            } else {
                0u16
            })),
            r.spec_tx() == value,
            r.spec_key_id() == self.spec_key_id(),
    {
        let v: u16 = if value {
            1
        } else {
            0
        };
        proof {
            Self::lemma_masks_fit();
            lemma_set_bits_u16(self.0, 2, 0x1, v, 2, 0x1);
            lemma_set_bits_u16(self.0, 2, 0x1, v, 0, 0x3);
        }
        Self((self.0 & !(0x1u16 << 2u16)) | ((v & 0x1) << 2u16))
    }
}

/// A group temporal key (GTK), with its information.
#[derive(Clone, Copy, Debug, PartialEq, Eq, Hash)]
pub struct GtkKde<'a> {
    /// Information about the GTK.
    pub gtk_info: GtkInfo,
    /// The GTK.
    pub gtk: &'a [u8],
}

impl<'a> GtkKde<'a> {
    /// Read the KDE: two bytes of information, then the key, which takes the rest.
    pub fn try_from_ctx(from: &'a [u8]) -> (r: Result<(Self, usize), Error>)
        ensures
            from@.len() < 2 ==> r == Err::<(Self, usize), Error>(Error::TooShort),
            from@.len() >= 2 ==> (r matches Ok((k, n)) && n == from@.len() && k.gtk_info.0 == le_u16(
                from@,
                0,
            ) && k.gtk@ == from@.skip(2)),
    {
        if from.len() < 2 {
            return Err(Error::TooShort);
        }
        let gtk_info = GtkInfo::from_bits(read_u16_le(from, 0));
        let gtk = slice_range(from, 2, from.len());
        Ok((GtkKde { gtk_info, gtk }, from.len()))
    }

    /// The length of the serialized KDE.
    pub fn measure_with(&self) -> (r: usize)
        requires
            self.gtk@.len() + 2 <= usize::MAX,
        ensures
            r == 2 + self.gtk@.len(),
    {
        2 + self.gtk.len()
    }

    /// The serialized KDE.
    pub open spec fn spec_bytes(&self) -> Seq<u8> {
        u16_le_bytes(self.gtk_info.0) + self.gtk@
    }

    /// Write the KDE to the start of `buf`.
    pub fn try_into_ctx(&self, buf: &mut [u8]) -> (r: Result<usize, Error>)
        ensures
            final(buf)@.len() == old(buf)@.len(),
            ({
                let bytes = self.spec_bytes();
                &&& bytes.len() <= old(buf)@.len() ==> r == Ok::<usize, Error>(bytes.len() as usize)
                    && final(buf)@ == bytes + old(buf)@.skip(bytes.len() as int)
                &&& bytes.len() > old(buf)@.len() ==> r == Err::<usize, Error>(Error::TooShort)
            }),
    {
        let mut bytes: Vec<u8> = Vec::new();
        push_u16_le(&mut bytes, self.gtk_info.into_bits());
        push_bytes(&mut bytes, self.gtk);
        write_all(buf, bytes.as_slice())
    }
}

impl Element for MacAddressKde {
    type ReadType<'a> = MacAddressKde;

    open spec fn spec_body(&self) -> Seq<u8> {
        self.0@
    }

    fn body_bytes(&self) -> (r: Vec<u8>) {
        let mut out: Vec<u8> = Vec::new();
        push_bytes(&mut out, self.0.as_slice());
        out
    }

    open spec fn spec_element_id() -> ElementID {
        vendor_specific_id(kde_id(3))
    }

    open spec fn spec_read<'a>(body: Seq<u8>, r: Option<MacAddressKde>) -> bool {
        match r {
            None => body.len() < 6,
            Some(k) => body.len() >= 6 && k.0@ == body.take(6),
        }
    }

    fn element_id() -> (r: ElementID) {
        let prefix: &'static [u8] = &[0x00u8, 0x0f, 0xac, 3];
        proof {
            assert(prefix@ == kde_id(3));
            lemma_vendor_specific_id(prefix);
        }
        ElementID::VendorSpecific { prefix }
    }

    fn read<'a>(body: &'a [u8]) -> (r: Option<MacAddressKde>) {
        match MacAddressKde::try_from_ctx(body) {
            Ok((e, _)) => Some(e),
            Err(_) => None,
        }
    }
}

impl Element for NonceKde {
    type ReadType<'a> = NonceKde;

    open spec fn spec_body(&self) -> Seq<u8> {
        self.0@
    }

    fn body_bytes(&self) -> (r: Vec<u8>) {
        let mut out: Vec<u8> = Vec::new();
        push_bytes(&mut out, self.0.as_slice());
        out
    }

    open spec fn spec_element_id() -> ElementID {
        vendor_specific_id(kde_id(6))
    }

    open spec fn spec_read<'a>(body: Seq<u8>, r: Option<NonceKde>) -> bool {
        match r {
            None => body.len() < 32,
            Some(k) => body.len() >= 32 && k.0@ == body.take(32),
        }
    }

    fn element_id() -> (r: ElementID) {
        let prefix: &'static [u8] = &[0x00u8, 0x0f, 0xac, 6];
        proof {
            assert(prefix@ == kde_id(6));
            lemma_vendor_specific_id(prefix);
        }
        ElementID::VendorSpecific { prefix }
    }

    fn read<'a>(body: &'a [u8]) -> (r: Option<NonceKde>) {
        match NonceKde::try_from_ctx(body) {
            Ok((e, _)) => Some(e),
            Err(_) => None,
        }
    }
}

impl Element for PmkidKde {
    type ReadType<'a> = PmkidKde;

    open spec fn spec_body(&self) -> Seq<u8> {
        self.0.0@
    }

    fn body_bytes(&self) -> (r: Vec<u8>) {
        let mut out: Vec<u8> = Vec::new();
        push_bytes(&mut out, self.0.0.as_slice());
        out
    }

    open spec fn spec_element_id() -> ElementID {
        vendor_specific_id(kde_id(4))
    }

    open spec fn spec_read<'a>(body: Seq<u8>, r: Option<PmkidKde>) -> bool {
        match r {
            None => body.len() < 16,
            Some(k) => body.len() >= 16 && k.0.0@ == body.take(16),
        }
    }

    fn element_id() -> (r: ElementID) {
        let prefix: &'static [u8] = &[0x00u8, 0x0f, 0xac, 4];
        proof {
            assert(prefix@ == kde_id(4));
            lemma_vendor_specific_id(prefix);
        }
        ElementID::VendorSpecific { prefix }
    }

    fn read<'a>(body: &'a [u8]) -> (r: Option<PmkidKde>) {
        match PmkidKde::try_from_ctx(body) {
            Ok((e, _)) => Some(e),
            Err(_) => None,
        }
    }
}

impl Element for LifetimeKde {
    type ReadType<'a> = LifetimeKde;

    open spec fn spec_body(&self) -> Seq<u8> {
        u32_be_bytes(self.0)
    }

    fn body_bytes(&self) -> (r: Vec<u8>) {
        let mut out: Vec<u8> = Vec::new();
        push_u32_be(&mut out, self.0);
        out
    }

    open spec fn spec_element_id() -> ElementID {
        vendor_specific_id(kde_id(7))
    }

    open spec fn spec_read<'a>(body: Seq<u8>, r: Option<LifetimeKde>) -> bool {
        r == if body.len() < 4 {
            None
        } else {
            Some(LifetimeKde(be_u32(body, 0)))
        }
    }

    fn element_id() -> (r: ElementID) {
        let prefix: &'static [u8] = &[0x00u8, 0x0f, 0xac, 7];
        proof {
            assert(prefix@ == kde_id(7));
            lemma_vendor_specific_id(prefix);
        }
        ElementID::VendorSpecific { prefix }
    }

    fn read<'a>(body: &'a [u8]) -> (r: Option<LifetimeKde>) {
        match LifetimeKde::try_from_ctx(body) {
            Ok((e, _)) => Some(e),
            Err(_) => None,
        }
    }
}

impl<'b> Element for GtkKde<'b> {
    type ReadType<'a> = GtkKde<'a>;

    open spec fn spec_body(&self) -> Seq<u8> {
        self.spec_bytes()
    }

    fn body_bytes(&self) -> (r: Vec<u8>) {
        let mut out: Vec<u8> = Vec::new();
        push_u16_le(&mut out, self.gtk_info.0);
        push_bytes(&mut out, self.gtk);
        out
    }

    open spec fn spec_element_id() -> ElementID {
        vendor_specific_id(kde_id(1))
    }

    open spec fn spec_read<'a>(body: Seq<u8>, r: Option<GtkKde<'a>>) -> bool {
        match r {
            None => body.len() < 2,
            Some(k) => body.len() >= 2 && k.gtk_info.0 == le_u16(body, 0) && k.gtk@ == body.skip(2),
        }
    }

    fn element_id() -> (r: ElementID) {
        let prefix: &'static [u8] = &[0x00u8, 0x0f, 0xac, 1];
        proof {
            assert(prefix@ == kde_id(1));
            lemma_vendor_specific_id(prefix);
        }
        ElementID::VendorSpecific { prefix }
    }

    fn read<'a>(body: &'a [u8]) -> (r: Option<GtkKde<'a>>) {
        match GtkKde::try_from_ctx(body) {
            Ok((e, _)) => Some(e),
            Err(_) => None,
        }
    }
}


/// Reading a written MAC address KDE gives it back, whatever reading gives.
pub proof fn lemma_mac_address_kde_roundtrip(k: MacAddressKde, r: Option<MacAddressKde>)
    requires
        <MacAddressKde as Element>::spec_read(k.0@, r),
    ensures
        r == Some(k),
{
    assert(k.0@.take(6) =~= k.0@);
    if let Some(x) = r {
        assert(x.0 =~= k.0);
    }
}

/// Reading a written nonce KDE gives it back, whatever reading gives.
pub proof fn lemma_nonce_kde_roundtrip(k: NonceKde, r: Option<NonceKde>)
    requires
        <NonceKde as Element>::spec_read(k.0@, r),
    ensures
        r == Some(k),
{
    assert(k.0@.take(32) =~= k.0@);
    if let Some(x) = r {
        assert(x.0 =~= k.0);
    }
}

/// Reading a written PMKID KDE gives it back, whatever reading gives.
pub proof fn lemma_pmkid_kde_roundtrip(k: PmkidKde, r: Option<PmkidKde>)
    requires
        <PmkidKde as Element>::spec_read(k.0.0@, r),
    ensures
        r == Some(k),
{
    assert(k.0.0@.take(16) =~= k.0.0@);
    if let Some(x) = r {
        assert(x.0.0 =~= k.0.0);
    }
}

/// Reading a written lifetime KDE gives it back.
pub proof fn lemma_lifetime_kde_roundtrip(k: LifetimeKde)
    ensures
        <LifetimeKde as Element>::spec_read(u32_be_bytes(k.0), Some(k)),
{
    lemma_u32_roundtrip(k.0, Seq::empty(), Seq::empty());
    assert(Seq::<u8>::empty() + u32_be_bytes(k.0) + Seq::<u8>::empty() =~= u32_be_bytes(k.0));
}

/// Reading a written GTK KDE gives back its information and its key, whatever reading gives.
pub proof fn lemma_gtk_kde_roundtrip<'a, 'b>(k: GtkKde<'a>, r: Option<GtkKde<'b>>)
    requires
        <GtkKde as Element>::spec_read(k.spec_bytes(), r),
    ensures
        r matches Some(x) && x.gtk_info == k.gtk_info && x.gtk@ == k.gtk@,
{
    lemma_u16_roundtrip(k.gtk_info.0, Seq::empty(), k.gtk@);
    assert(Seq::<u8>::empty() + u16_le_bytes(k.gtk_info.0) + k.gtk@ =~= k.spec_bytes());
    assert(k.spec_bytes().skip(2) =~= k.gtk@);
}

} // verus!
