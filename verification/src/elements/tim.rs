//! The Traffic Indication Map (TIM).
//!
//! The TIM was introduced as a power saving mechanism, to allow STAs to enter a low power mode,
//! in which they only occasionally switch on their receiver to listen for beacons. When a STA is
//! in this low power mode, it looks at the TIM inside the received beacon, to see if traffic is
//! buffered for itself. A Delivery Traffic Indication Map (DTIM) is the same as a normal TIM,
//! except that it is transmitted only in some beacon frames. At every DTIM, buffered multicast
//! MPDUs are transmitted.
use crate::common::aid::{AssociationID, MAX_AID};
use crate::common::bits::{
    fits_u8, get_bits_u8, lemma_set_bit, lemma_set_bits_u8, lemma_test_bit, set_bits_u8,
};
use crate::common::wire::{push_bytes, slice_range, write_all, Error};
use crate::elements::ElementID;
use crate::elements::Element;
use vstd::prelude::*;

verus! {

/// The bitmap control field of a [TIMElement].
#[derive(Clone, Copy, Debug, PartialEq, Eq, Hash, Structural)]
pub struct TIMBitmapControl(pub u8);

impl TIMBitmapControl {
    /// A value with every field at its default.
    pub fn new() -> (r: Self)
        ensures
            r.0 == 0x0,
    {
        Self(0x0)
    }

    /// Wrap the raw bits.
    pub fn from_bits(bits: u8) -> (r: Self)
        ensures
            r.0 == bits,
    {
        Self(bits)
    }

    /// Every field mask fits in the backing integer.
    proof fn lemma_masks_fit()
        by (bit_vector)
        ensures
            fits_u8(0, 0x1),
            fits_u8(1, 0x7f),
            (0x1u8 << 0u8) & (0x7fu8 << 1u8) == 0,
            (0x7fu8 << 1u8) & (0x1u8 << 0u8) == 0,
            1u8 & 1u8 == 1,
            0u8 & 1u8 == 0,
    {
    }

    /// The raw bits.
    pub fn into_bits(self) -> (r: u8)
        ensures
            r == self.0,
    {
        self.0
    }

    /// Indicates, if multicast traffic is buffered at the AP.
    pub open spec fn spec_traffic_indicator(self) -> bool {
        get_bits_u8(self.0, 0, 1) == 1
    }

    /// Indicates, if multicast traffic is buffered at the AP.
    pub fn traffic_indicator(&self) -> (r: bool)
        ensures
            r == self.spec_traffic_indicator(),
    {
        (self.0 >> 0) & 1 == 1
    }

    /// Returns a copy with the field replaced by `value`.
    pub fn with_traffic_indicator(self, value: bool) -> (r: Self)
        ensures
            r.0 == set_bits_u8(self.0, 0, 0x1, (if value {
                1u8
            } else {
                0u8
            })),
            r.spec_traffic_indicator() == value,
            r.spec_bitmap_offset() == self.spec_bitmap_offset(),
    {
        let v: u8 = if value {
            1
        } else {
            0
        };
        proof {
            Self::lemma_masks_fit();
            lemma_set_bits_u8(self.0, 0, 0x1, v, 0, 0x1);
            lemma_set_bits_u8(self.0, 0, 0x1, v, 1, 0x7f);
        }
        Self((self.0 & !(0x1u8 << 0u8)) | ((v & 0x1) << 0u8))
    }

    /// This is the offset of the bitmap, which is equal to N1 divided by two.
    pub open spec fn spec_bitmap_offset(self) -> u8 {
        get_bits_u8(self.0, 1, 0x7f) as u8
    }

    /// This is the offset of the bitmap, which is equal to N1 divided by two.
    pub fn bitmap_offset(&self) -> (r: u8)
        ensures
            r == self.spec_bitmap_offset(),
    {
        ((self.0 >> 1) & 0x7f) as u8
    }

    /// Returns a copy with the field replaced by `value`.
    pub fn with_bitmap_offset(self, value: u8) -> (r: Self)
        ensures
            r.0 == set_bits_u8(self.0, 1, 0x7f, (value as u8)),
            r.spec_bitmap_offset() == ((value as u8) & 0x7f) as u8,
            r.spec_traffic_indicator() == self.spec_traffic_indicator(),
    {
        let v: u8 = value as u8;
        proof {
            Self::lemma_masks_fit();
            lemma_set_bits_u8(self.0, 1, 0x7f, v, 1, 0x7f);
            lemma_set_bits_u8(self.0, 1, 0x7f, v, 0, 0x1);
        }
        Self((self.0 & !(0x7fu8 << 1u8)) | ((v & 0x7f) << 1u8))
    }

    /// Get N1 from the bitmap offset.
    ///
    /// This just multiplies the bitmap offset with two.
    pub open spec fn spec_n1(self) -> u8 {
        (self.spec_bitmap_offset() * 2) as u8
    }

    /// Get N1 from the bitmap offset.
    ///
    /// This just multiplies the bitmap offset with two.
    pub fn n1(&self) -> (r: u8)
        ensures
            r == self.spec_n1(),
            r == self.spec_bitmap_offset() * 2,
    {
        let offset = self.bitmap_offset();
        proof {
            let b = self.0;
            assert(((b >> 1u8) & 0x7fu8) <= 0x7f) by (bit_vector);
        }
        offset * 2
    }

    /// Set the bitmap offset, with N1.
    pub fn set_n1(&mut self, n1: u8)
        ensures
            final(self).spec_bitmap_offset() == n1 / 2,
            final(self).spec_traffic_indicator() == old(self).spec_traffic_indicator(),
    {
        proof {
            assert((n1 / 2) & 0x7fu8 == n1 / 2) by (bit_vector);
        }
        *self = self.with_bitmap_offset(n1 / 2);
    }

    /// Set the bitmap offset, with N1.
    pub fn with_n1(self, n1: u8) -> (r: Self)
        ensures
            r.spec_bitmap_offset() == n1 / 2,
            r.spec_traffic_indicator() == self.spec_traffic_indicator(),
    {
        proof {
            assert((n1 / 2) & 0x7fu8 == n1 / 2) by (bit_vector);
        }
        self.with_bitmap_offset(n1 / 2)
    }
}


/// The bytes of a partial virtual bitmap.
pub trait BitmapBytes {
    /// The bitmap can hand out its bytes.
    spec fn bitmap_valid(&self) -> bool;

    /// The bytes of the bitmap.
    spec fn spec_bitmap_bytes(&self) -> Seq<u8>;

    /// What [Self::bitmap_measure] reports as the serialized length.
    spec fn spec_bitmap_measure(&self) -> int;

    /// The bytes of the bitmap.
    fn bitmap_bytes(&self) -> (r: &[u8])
        requires
            self.bitmap_valid(),
        ensures
            r@ == self.spec_bitmap_bytes(),
    ;

    /// The serialized length of the bitmap.
    fn bitmap_measure(&self) -> (r: usize)
        requires
            self.bitmap_valid(),
        ensures
            r == self.spec_bitmap_measure(),
    ;
}

impl<'a> BitmapBytes for &'a [u8] {
    open spec fn bitmap_valid(&self) -> bool {
        true
    }

    open spec fn spec_bitmap_bytes(&self) -> Seq<u8> {
        (*self)@
    }

    open spec fn spec_bitmap_measure(&self) -> int {
        (*self)@.len() as int
    }

    fn bitmap_bytes(&self) -> (r: &[u8]) {
        *self
    }

    fn bitmap_measure(&self) -> (r: usize) {
        self.len()
    }
}

/// A static bitmap for the [TIMBitmap].
///
/// This holds the partial virtual bitmap in a fixed size array, from its first byte (octet N1
/// of the virtual bitmap) on, together with the index of its last byte in the array (N2 - N1).
#[derive(Clone, Copy, Debug, PartialEq, Eq, Hash)]
pub struct StaticBitmap(pub [u8; 251], pub usize);

impl StaticBitmap {
    /// The bytes of the partial virtual bitmap: up to and including the last.
    pub fn as_bytes(&self) -> (r: &[u8])
        requires
            self.1 < 251,
        ensures
            r@ == self.0@.take(self.1 + 1),
    {
        slice_range(self.0.as_slice(), 0, self.1 + 1)
    }

    /// The serialized length of this bitmap: its bytes up to and including the last.
    pub fn measure_with(&self) -> (r: usize)
        requires
            self.1 < 251,
        ensures
            r == self.1 + 1,
    {
        self.1 + 1
    }

    /// Write the bytes of the partial virtual bitmap to the start of `buf`.
    pub fn try_into_ctx(self, buf: &mut [u8]) -> (r: Result<usize, Error>)
        requires
            self.1 < 251,
        ensures
            final(buf)@.len() == old(buf)@.len(),
            self.1 + 1 <= old(buf)@.len() ==> r == Ok::<usize, Error>((self.1 + 1) as usize)
                && final(buf)@ == self.0@.take(self.1 + 1) + old(buf)@.skip(self.1 + 1),
            self.1 + 1 > old(buf)@.len() ==> r == Err::<usize, Error>(Error::TooShort),
    {
        write_all(buf, self.as_bytes())
    }
}

impl Default for StaticBitmap {
    fn default() -> (r: Self)
        ensures
            r.0@ == Seq::new(251, |i: int| 0u8),
            r.1 == 0,
    {
        let r = StaticBitmap([0u8; 251], 0);
        assert(r.0@ =~= Seq::new(251, |i: int| 0u8));
        r
    }
}

impl BitmapBytes for StaticBitmap {
    open spec fn bitmap_valid(&self) -> bool {
        self.1 < 251
    }

    open spec fn spec_bitmap_bytes(&self) -> Seq<u8> {
        self.0@.take(self.1 + 1)
    }

    open spec fn spec_bitmap_measure(&self) -> int {
        self.1 + 1
    }

    fn bitmap_bytes(&self) -> (r: &[u8]) {
        self.as_bytes()
    }

    fn bitmap_measure(&self) -> (r: usize) {
        self.measure_with()
    }
}

/// A bitmap over a shared array, holding N1 and N2, the first and the last byte in use.
#[derive(Clone, Copy, Debug, PartialEq, Eq, Hash)]
pub struct ConstBitmap(pub &'static [u8; 251], pub usize, pub usize);

impl ConstBitmap {
    /// The bytes from N1 up to and including N2.
    pub fn as_bytes(&self) -> (r: &'static [u8])
        requires
            self.1 <= self.2 < 251,
        ensures
            r@ == self.0@.subrange(self.1 as int, self.2 + 1),
    {
        slice_range(self.0.as_slice(), self.1, self.2 + 1)
    }

    /// The length of the bytes in use.
    pub fn measure_with(&self) -> (r: usize)
        requires
            self.1 <= self.2 < 251,
        ensures
            r == self.2 + 1 - self.1,
    {
        self.as_bytes().len()
    }

    /// Write the bytes in use to the start of `buf`.
    pub fn try_into_ctx(self, buf: &mut [u8]) -> (r: Result<usize, Error>)
        requires
            self.1 <= self.2 < 251,
        ensures
            final(buf)@.len() == old(buf)@.len(),
            ({
                let bytes = self.0@.subrange(self.1 as int, self.2 + 1);
                &&& bytes.len() <= old(buf)@.len() ==> r == Ok::<usize, Error>(bytes.len() as usize)
                    && final(buf)@ == bytes + old(buf)@.skip(bytes.len() as int)
                &&& bytes.len() > old(buf)@.len() ==> r == Err::<usize, Error>(Error::TooShort)
            }),
    {
        write_all(buf, self.as_bytes())
    }
}

impl BitmapBytes for ConstBitmap {
    open spec fn bitmap_valid(&self) -> bool {
        self.1 <= self.2 < 251
    }

    open spec fn spec_bitmap_bytes(&self) -> Seq<u8> {
        self.0@.subrange(self.1 as int, self.2 + 1)
    }

    open spec fn spec_bitmap_measure(&self) -> int {
        self.2 + 1 - self.1
    }

    fn bitmap_bytes(&self) -> (r: &[u8]) {
        self.as_bytes()
    }

    fn bitmap_measure(&self) -> (r: usize) {
        self.measure_with()
    }
}


/// Bit `a` of the bitmap `bytes`, counting from the least significant bit of the first byte.
pub open spec fn bitmap_bit(bytes: Seq<u8>, a: int) -> bool {
    (bytes[a / 8] >> ((a % 8) as u8)) & 1u8 == 1u8
}

/// The AIDs that the first `k` bits of `bytes` mark, where bit `a` stands for AID `base + a`.
///
/// AIDs outside `1..=2007`, AID zero among them, are left out.
pub open spec fn marked_aids(bytes: Seq<u8>, base: int, k: int) -> Seq<u16>
    decreases k,
{
    if k <= 0 {
        Seq::empty()
    } else {
        let prev = marked_aids(bytes, base, k - 1);
        let a = k - 1;
        if bitmap_bit(bytes, a) && 1 <= base + a <= MAX_AID {
            prev.push((base + a) as u16)
        } else {
            prev
        }
    }
}

/// The AIDs for which the partial virtual bitmap `bytes`, starting at byte N1, marks buffered
/// traffic.
pub open spec fn buffered_aids(bytes: Seq<u8>, n1: u8) -> Seq<u16> {
    marked_aids(bytes, n1 * 8, (bytes.len() * 8) as int)
}

/// The AID values of a list of [AssociationID]s.
pub open spec fn aid_values(ids: Seq<AssociationID>) -> Seq<u16> {
    ids.map_values(|id: AssociationID| id.spec_aid())
}

/// The complete bitmap of a [TIMElement], including the [TIMBitmapControl].
///
/// It is advised to construct it with [Self::new_static] or [Self::new_raw], and to read it
/// with [Self::aid_iter].
#[derive(Clone, Copy, Debug, Hash)]
pub struct TIMBitmap<Bitmap> {
    bitmap_control: TIMBitmapControl,
    partial_virtual_bitmap: Option<Bitmap>,
}

impl<Bitmap> TIMBitmap<Bitmap> {
    /// The bitmap control field.
    pub closed spec fn spec_control(&self) -> TIMBitmapControl {
        self.bitmap_control
    }

    /// The partial virtual bitmap.
    pub closed spec fn spec_bitmap(&self) -> Option<Bitmap> {
        self.partial_virtual_bitmap
    }

    /// Returns the traffic indicator bit.
    pub fn traffic_indicator(&self) -> (r: bool)
        ensures
            r == self.spec_control().spec_traffic_indicator(),
    {
        self.bitmap_control.traffic_indicator()
    }

    /// Creates a [TIMBitmap], without performing any checks.
    pub fn new_unchecked(bitmap_control: TIMBitmapControl, partial_virtual_bitmap: Option<Bitmap>) -> (r: Self)
        ensures
            r.spec_control() == bitmap_control,
            r.spec_bitmap() == partial_virtual_bitmap,
    {
        Self { bitmap_control, partial_virtual_bitmap }
    }
}

impl<Bitmap: BitmapBytes> TIMBitmap<Bitmap> {
    /// The bitmap, if present, can hand out its bytes.
    pub open spec fn bitmap_wf(&self) -> bool {
        self.spec_bitmap() matches Some(b) ==> b.bitmap_valid()
    }

    /// Creates a new [TIMBitmap] from raw values.
    ///
    /// Returns [None], if the length of the bitmap plus N1 is larger than 251, and [Some] in all
    /// other cases.
    pub fn new_raw(bitmap_control: TIMBitmapControl, partial_virtual_bitmap: Option<Bitmap>) -> (r: Option<Self>)
        requires
            partial_virtual_bitmap matches Some(b) ==> b.bitmap_valid(),
        ensures
            r is None <==> (partial_virtual_bitmap matches Some(b)
                && b.spec_bitmap_bytes().len() + bitmap_control.spec_n1() > 251),
            r matches Some(t) ==> t.spec_control() == bitmap_control
                && t.spec_bitmap() == partial_virtual_bitmap,
    {
        if let Some(ref b) = partial_virtual_bitmap {
            let bytes = b.bitmap_bytes();
            if bytes.len() > 251 || bytes.len() + bitmap_control.n1() as usize > 251 {
                return None;
            }
        }
        Some(Self { bitmap_control, partial_virtual_bitmap })
    }

    /// Returns the [AssociationID]s for which traffic is buffered, in increasing order.
    ///
    /// AID zero isn't included, since it isn't a valid [AssociationID]. Returns [None] if there is
    /// no partial virtual bitmap.
    pub fn aid_iter(&self) -> (r: Option<Vec<AssociationID>>)
        requires
            self.bitmap_wf(),
            self.spec_bitmap() matches Some(b) ==> self.spec_control().spec_n1() * 8
                + b.spec_bitmap_bytes().len() * 8 <= 0x10000,
        ensures
            r is Some <==> self.spec_bitmap() is Some,
            r matches Some(ids) ==> aid_values(ids@) == buffered_aids(
                self.spec_bitmap()->0.spec_bitmap_bytes(),
                self.spec_control().spec_n1(),
            ),
    {
        match &self.partial_virtual_bitmap {
            None => None,
            Some(b) => {
                let bytes = b.bitmap_bytes();
                let n1 = self.bitmap_control.n1();
                let base: u16 = n1 as u16 * 8;
                let ghost gbase: int = n1 * 8;
                let end: usize = bytes.len() * 8;
                let mut ids: Vec<AssociationID> = Vec::new();
                let mut aid: usize = 0;
                assert(aid_values(ids@) =~= marked_aids(bytes@, gbase, 0));
                while aid < end
                    invariant
                        0 <= aid <= end,
                        end == bytes@.len() * 8,
                        base == gbase,
                        gbase + end <= 0x10000,
                        aid_values(ids@) == marked_aids(bytes@, gbase, aid as int),
                    decreases end - aid,
                {
                    let ghost old_ids = ids@;
                    let byte = bytes[aid / 8];
                    let bit = (aid % 8) as u8;
                    proof {
                        lemma_test_bit(byte, bit);
                    }
                    if byte & (1u8 << bit) != 0 {
                        if let Some(id) = AssociationID::new_checked(base + aid as u16) {
                            ids.push(id);
                            assert(aid_values(ids@) =~= aid_values(old_ids).push(id.spec_aid()));
                        }
                    }
                    aid = aid + 1;
                }
                Some(ids)
            },
        }
    }
}


/// The lowest byte index among the non-zero AIDs in `ids`, or 251 if there is none.
pub open spec fn lowest_byte(ids: Seq<AssociationID>) -> int
    decreases ids.len(),
{
    if ids.len() == 0 {
        251
    } else {
        let m = lowest_byte(ids.drop_last());
        let a = ids.last().spec_aid() as int;
        if a != 0 && a / 8 < m {
            a / 8
        } else {
            m
        }
    }
}

/// The highest byte index among the AIDs in `ids`, or zero if there is none.
pub open spec fn highest_byte(ids: Seq<AssociationID>) -> int
    decreases ids.len(),
{
    if ids.len() == 0 {
        0
    } else {
        let m = highest_byte(ids.drop_last());
        let a = ids.last().spec_aid() as int;
        if a / 8 > m {
            a / 8
        } else {
            m
        }
    }
}

/// AID `a` is one of the first `n` entries of `ids`.
pub open spec fn aid_listed(ids: Seq<AssociationID>, n: int, a: int) -> bool {
    exists|k: int| 0 <= k < n && #[trigger] ids[k].spec_aid() == a
}

/// The entries of `ids` that [TIMBitmap::new_static] takes: at most 2007.
pub open spec fn taken_aids(ids: Seq<AssociationID>) -> Seq<AssociationID> {
    if ids.len() > MAX_AID {
        ids.take(MAX_AID as int)
    } else {
        ids
    }
}


/// The first octet of the virtual bitmap that [TIMBitmap::new_static] keeps for `ids`: N1, the
/// octet of the lowest non-zero AID rounded down to an even number, or zero if there is none.
pub open spec fn static_n1(ids: Seq<AssociationID>) -> int {
    let n1 = lowest_byte(ids);
    if n1 == 251 {
        0
    } else {
        n1 - n1 % 2
    }
}

/// `t` is the bitmap that [TIMBitmap::new_static] builds from `multicast` and `association_ids`:
/// the traffic indicator tells of multicast traffic, and the partial virtual bitmap runs from
/// octet N1 to the octet of the highest AID, with bit `a` set exactly for AID `8 * N1 + a`, and
/// bit one of the first octet set as well when multicast traffic is buffered and the lowest
/// non-zero AID lies in octet zero.
pub open spec fn is_static_bitmap_of(
    t: TIMBitmap<StaticBitmap>,
    multicast: bool,
    association_ids: Seq<AssociationID>,
) -> bool {
    let ids = taken_aids(association_ids);
    let start = static_n1(ids);
    &&& t.spec_control().spec_traffic_indicator() == multicast
    &&& t.spec_control().spec_bitmap_offset() == start / 2
    &&& t.spec_bitmap() matches Some(b) && b.1 == highest_byte(ids) - start && b.1 < 251 && forall|a: int|
        0 <= a < 2008 ==> (#[trigger] bitmap_bit(b.0@, a) <==> (aid_listed(ids, ids.len() as int, start * 8 + a)
            || (a == 1 && multicast && lowest_byte(ids) == 0)))
}

/// What the bits of a bitmap give back: each AID that [marked_aids] lists is marked, in
/// increasing order, and each marked AID in range is listed.
pub proof fn lemma_marked_aids(bytes: Seq<u8>, base: int, k: int)
    requires
        0 <= base,
    ensures
        forall|i: int, j: int|
            0 <= i < j < marked_aids(bytes, base, k).len() ==> marked_aids(bytes, base, k)[i]
                < marked_aids(bytes, base, k)[j],
        forall|i: int|
            0 <= i < marked_aids(bytes, base, k).len() ==> {
                let y = #[trigger] marked_aids(bytes, base, k)[i] as int;
                &&& 0 <= y - base < k
                &&& 1 <= y <= MAX_AID
                &&& bitmap_bit(bytes, y - base)
            },
        forall|a: int|
            0 <= a < k && #[trigger] bitmap_bit(bytes, a) && 1 <= base + a <= MAX_AID
                ==> marked_aids(bytes, base, k).contains((base + a) as u16),
    decreases k,
{
    if k > 0 {
        lemma_marked_aids(bytes, base, k - 1);
        let prev = marked_aids(bytes, base, k - 1);
        let r = marked_aids(bytes, base, k);
        assert forall|a: int|
            0 <= a < k && #[trigger] bitmap_bit(bytes, a) && 1 <= base + a <= MAX_AID
                implies r.contains((base + a) as u16) by {
            if a < k - 1 {
                let idx = choose|idx: int| 0 <= idx < prev.len() && prev[idx] == (base + a) as u16;
                assert(r[idx] == (base + a) as u16);
            } else {
                assert(r[prev.len() as int] == (base + a) as u16);
            }
        }
    }
}

/// The lowest and highest byte bound every listed AID.
proof fn lemma_byte_bounds(ids: Seq<AssociationID>)
    requires
        forall|k: int| 0 <= k < ids.len() ==> #[trigger] ids[k].spec_aid() <= MAX_AID,
    ensures
        0 <= highest_byte(ids) < 251,
        0 <= lowest_byte(ids) <= 251,
        forall|k: int|
            0 <= k < ids.len() ==> #[trigger] ids[k].spec_aid() / 8 <= highest_byte(ids),
        forall|k: int|
            0 <= k < ids.len() && #[trigger] ids[k].spec_aid() != 0 ==> lowest_byte(ids)
                <= ids[k].spec_aid() / 8,
        (forall|k: int| 0 <= k < ids.len() ==> #[trigger] ids[k].spec_aid() == 0) ==> highest_byte(
            ids,
        ) == 0,
        lowest_byte(ids) < 251 ==> exists|k: int|
            0 <= k < ids.len() && #[trigger] ids[k].spec_aid() != 0 && ids[k].spec_aid() / 8
                == lowest_byte(ids),
    decreases ids.len(),
{
    if ids.len() > 0 {
        let init = ids.drop_last();
        assert forall|k: int| 0 <= k < init.len() implies #[trigger] init[k].spec_aid() <= MAX_AID by {
            assert(init[k] == ids[k]);
        }
        lemma_byte_bounds(init);
        assert forall|k: int| 0 <= k < ids.len() implies #[trigger] ids[k].spec_aid() / 8
            <= highest_byte(ids) by {
            if k < init.len() {
                assert(init[k] == ids[k]);
            }
        }
        assert forall|k: int| 0 <= k < ids.len() && #[trigger] ids[k].spec_aid() != 0 implies lowest_byte(ids)
            <= ids[k].spec_aid() / 8 by {
            if k < init.len() {
                assert(init[k] == ids[k]);
            }
        }
        if forall|k: int| 0 <= k < ids.len() ==> #[trigger] ids[k].spec_aid() == 0 {
            assert forall|k: int| 0 <= k < init.len() implies #[trigger] init[k].spec_aid() == 0 by {
                assert(init[k] == ids[k]);
            }
            assert(ids.last() == ids[ids.len() - 1]);
        }
        let last = ids.len() - 1;
        assert(ids.last() == ids[last]);
        if lowest_byte(ids) < 251 {
            let a = ids[last].spec_aid() as int;
            if !(a != 0 && a / 8 < lowest_byte(init)) {
                let k = choose|k: int|
                    0 <= k < init.len() && #[trigger] init[k].spec_aid() != 0 && init[k].spec_aid() / 8
                        == lowest_byte(init);
                assert(init[k] == ids[k]);
            }
        }
    }
}

/// Reading back a bitmap that [TIMBitmap::new_static] built gives the non-zero AIDs it was
/// given, each once and in increasing order; and AID one too, when multicast traffic is
/// buffered and the lowest non-zero AID lies in octet zero, since that bit then marks it.
pub proof fn lemma_static_bitmap_lists_aids(
    t: TIMBitmap<StaticBitmap>,
    multicast: bool,
    association_ids: Seq<AssociationID>,
)
    requires
        forall|k: int|
            0 <= k < taken_aids(association_ids).len() ==> #[trigger] taken_aids(association_ids)[k].spec_aid()
                <= MAX_AID,
        is_static_bitmap_of(t, multicast, association_ids),
    ensures
        ({
            let ids = taken_aids(association_ids);
            let b = t.spec_bitmap()->0;
            let listed = buffered_aids(b.spec_bitmap_bytes(), t.spec_control().spec_n1());
            &&& t.bitmap_wf()
            &&& t.spec_control().spec_n1() * 8 + b.spec_bitmap_bytes().len() * 8 <= 0x10000
            &&& forall|i: int, j: int| 0 <= i < j < listed.len() ==> listed[i] < listed[j]
            &&& forall|x: u16| listed.contains(x) <==> ((x != 0 && aid_listed(ids, ids.len() as int, x as int))
                || (x == 1 && multicast && lowest_byte(ids) == 0))
        }),
{
    let ids = taken_aids(association_ids);
    let b = t.spec_bitmap()->0;
    let bytes = b.spec_bitmap_bytes();
    let n1 = t.spec_control().spec_n1();
    lemma_byte_bounds(ids);
    let start = static_n1(ids);
    assert(n1 == start);
    let base = n1 * 8;
    let k = (bytes.len() * 8) as int;
    lemma_marked_aids(bytes, base, k);
    let listed = buffered_aids(bytes, n1);
    assert(listed == marked_aids(bytes, base, k));
    assert forall|a: int| 0 <= a < k implies bitmap_bit(bytes, a) == #[trigger] bitmap_bit(b.0@, a) by {
        assert(bytes[a / 8] == b.0@[a / 8]);
    }
    assert forall|x: u16| listed.contains(x) <==> ((x != 0 && aid_listed(ids, ids.len() as int, x as int))
        || (x == 1 && multicast && lowest_byte(ids) == 0)) by {
        if listed.contains(x) {
            let idx = choose|idx: int| 0 <= idx < listed.len() && listed[idx] == x;
            let a = listed[idx] - base;
            assert(bitmap_bit(b.0@, a));
        }
        if x == 1 && multicast && lowest_byte(ids) == 0 {
            assert(base == 0);
            assert(0 < k);
            assert(bitmap_bit(b.0@, 1));
            assert(bitmap_bit(bytes, 1));
        }
        if x != 0 && aid_listed(ids, ids.len() as int, x as int) {
            let kk = choose|kk: int| 0 <= kk < ids.len() && #[trigger] ids[kk].spec_aid() == x;
            assert(ids[kk].spec_aid() / 8 <= highest_byte(ids));
            assert(lowest_byte(ids) <= ids[kk].spec_aid() / 8);
            let a = x - base;
            assert(0 <= a < k);
            assert(bitmap_bit(b.0@, a));
            assert(bitmap_bit(bytes, a));
            assert(base + a == x);
        }
    }
}

impl TIMBitmap<StaticBitmap> {
    /// Create a static [TIMBitmap], with a bit set for each of `association_ids`.
    ///
    /// N1 is the octet of the lowest non-zero AID, rounded down to an even number, and the
    /// partial virtual bitmap runs from octet N1 to the octet of the highest AID. Multicast
    /// traffic is signalled by the traffic indicator, and, if the lowest non-zero AID lies in
    /// octet zero, by bit one of that octet as well. If more than 2007 [AssociationID]s are
    /// present, any remaining are ignored.
    pub fn new_static(multicast_traffic_buffered: bool, association_ids: &[AssociationID]) -> (r:
        TIMBitmap<StaticBitmap>)
        requires
            forall|k: int|
                0 <= k < taken_aids(association_ids@).len() ==> #[trigger] taken_aids(
                    association_ids@,
                )[k].spec_aid() <= MAX_AID,
        ensures
            is_static_bitmap_of(r, multicast_traffic_buffered, association_ids@),
    {
        let ghost ids = taken_aids(association_ids@);
        let count: usize = if association_ids.len() > MAX_AID as usize {
            MAX_AID as usize
        } else {
            association_ids.len()
        };
        assert(ids.len() == count);
        let mut virtual_bitmap = [0u8; 251];
        let mut n1: usize = 251;
        let mut n2: usize = 0;
        let mut i: usize = 0;
        proof {
            assert forall|a: int| 0 <= a < 2008 implies !#[trigger] bitmap_bit(virtual_bitmap@, a) by {
                let z = virtual_bitmap@[a / 8];
                let s = (a % 8) as u8;
                assert(z == 0);
                assert((0u8 >> s) & 1u8 == 0u8) by (bit_vector);
            }
            assert(ids.take(0) =~= Seq::<AssociationID>::empty());
        }
        while i < count
            invariant
                i <= count == ids.len(),
                ids == taken_aids(association_ids@),
                forall|k: int| 0 <= k < ids.len() ==> #[trigger] ids[k].spec_aid() <= MAX_AID,
                n1 == lowest_byte(ids.take(i as int)),
                n2 == highest_byte(ids.take(i as int)),
                n1 <= 251,
                n2 < 251,
                forall|a: int|
                    0 <= a < 2008 ==> (#[trigger] bitmap_bit(virtual_bitmap@, a) <==> aid_listed(
                        ids,
                        i as int,
                        a,
                    )),
            decreases count - i,
        {
            let aid = association_ids[i].aid();
            assert(ids[i as int] == association_ids@[i as int]);
            let byte_index: usize = aid as usize / 8;
            let bit_index: u8 = (aid % 8) as u8;
            let ghost before = virtual_bitmap@;
            virtual_bitmap[byte_index] = virtual_bitmap[byte_index] | (1u8 << bit_index);
            proof {
                assert forall|a: int| 0 <= a < 2008 implies (#[trigger] bitmap_bit(
                    virtual_bitmap@,
                    a,
                ) <==> aid_listed(ids, i + 1, a)) by {
                    assert(bitmap_bit(before, a) == aid_listed(ids, i as int, a));
                    assert(ids[i as int].spec_aid() == aid);
                    if a / 8 == byte_index {
                        lemma_set_bit(before[a / 8], bit_index, (a % 8) as u8);
                    } else {
                        assert(virtual_bitmap@[a / 8] == before[a / 8]);
                    }
                    if aid_listed(ids, i + 1, a) && a != aid {
                        let k = choose|k: int| 0 <= k < i + 1 && #[trigger] ids[k].spec_aid() == a;
                        assert(aid_listed(ids, i as int, a));
                    }
                    if a == aid {
                        assert(ids[i as int].spec_aid() == a);
                    }
                    if aid_listed(ids, i as int, a) {
                        let k = choose|k: int| 0 <= k < i && #[trigger] ids[k].spec_aid() == a;
                        assert(ids[k].spec_aid() == a);
                    }
                }
                assert(ids.take(i + 1).drop_last() =~= ids.take(i as int));
            }
            if byte_index < n1 && aid != 0 {
                n1 = byte_index;
            }
            if byte_index > n2 {
                n2 = byte_index;
            }
            i = i + 1;
        }
        assert(ids.take(count as int) =~= ids);
        proof {
            lemma_byte_bounds(ids);
        }
        let start: usize = if n1 == 251 {
            0
        } else {
            n1 - n1 % 2
        };
        assert(start == static_n1(ids));
        proof {
            if n1 < 251 {
                let k = choose|k: int|
                    0 <= k < ids.len() && #[trigger] ids[k].spec_aid() != 0 && ids[k].spec_aid() / 8
                        == lowest_byte(ids);
                assert(ids[k].spec_aid() / 8 <= highest_byte(ids));
            }
        }
        let last: usize = n2 - start;
        let mut partial_virtual_bitmap = [0u8; 251];
        let mut j: usize = 0;
        while j <= last
            invariant
                start + last < 251,
                j <= last + 1,
                forall|q: int|
                    0 <= q < 251 ==> #[trigger] partial_virtual_bitmap@[q] == if q < j {
                        virtual_bitmap@[start + q]
                    } else {
                        0u8
                    },
            decreases last + 1 - j,
        {
            partial_virtual_bitmap[j] = virtual_bitmap[start + j];
            j = j + 1;
        }
        proof {
            assert forall|a: int| 0 <= a < 2008 implies (#[trigger] bitmap_bit(
                partial_virtual_bitmap@,
                a,
            ) <==> aid_listed(ids, ids.len() as int, start * 8 + a)) by {
                let q = a / 8;
                if q <= last {
                    let v = start * 8 + a;
                    assert(v / 8 == start + q && v % 8 == a % 8);
                    assert(partial_virtual_bitmap@[q] == virtual_bitmap@[start + q]);
                    assert(bitmap_bit(virtual_bitmap@, v) == aid_listed(ids, ids.len() as int, v));
                } else {
                    let z = partial_virtual_bitmap@[q];
                    let sh = (a % 8) as u8;
                    assert(z == 0);
                    assert((0u8 >> sh) & 1u8 == 0u8) by (bit_vector);
                    if aid_listed(ids, ids.len() as int, start * 8 + a) {
                        let k = choose|k: int|
                            0 <= k < ids.len() && #[trigger] ids[k].spec_aid() == start * 8 + a;
                        assert(ids[k].spec_aid() / 8 <= highest_byte(ids));
                    }
                }
            }
        }
        let ghost shifted = partial_virtual_bitmap@;
        if n1 == 0 && multicast_traffic_buffered {
            partial_virtual_bitmap[0] = partial_virtual_bitmap[0] | (1u8 << 1u8);
            proof {
                assert forall|a: int| 0 <= a < 2008 implies (#[trigger] bitmap_bit(
                    partial_virtual_bitmap@,
                    a,
                ) <==> (aid_listed(ids, ids.len() as int, start * 8 + a) || a == 1)) by {
                    assert(bitmap_bit(shifted, a) == aid_listed(ids, ids.len() as int, start * 8 + a));
                    if a / 8 == 0 {
                        lemma_set_bit(shifted[0], 1u8, (a % 8) as u8);
                    } else {
                        assert(partial_virtual_bitmap@[a / 8] == shifted[a / 8]);
                    }
                }
            }
        }
        let control = TIMBitmapControl::new().with_traffic_indicator(multicast_traffic_buffered).with_n1(
            start as u8,
        );
        TIMBitmap {
            bitmap_control: control,
            partial_virtual_bitmap: Some(StaticBitmap(partial_virtual_bitmap, last)),
        }
    }
}


impl<'a> TIMBitmap<&'a [u8]> {
    /// Read a bitmap: the control byte, then the partial virtual bitmap, which takes the rest.
    pub fn try_from_ctx(from: &'a [u8]) -> (r: Result<(Self, usize), Error>)
        ensures
            from@.len() == 0 ==> r == Err::<(Self, usize), Error>(Error::TooShort),
            from@.len() > 0 ==> (r matches Ok((t, n)) && n == from@.len() && t.spec_control().0
                == from@[0] && t.spec_bitmap() is Some && t.spec_bitmap()->0@ == from@.skip(1)),
    {
        if from.len() == 0 {
            return Err(Error::TooShort);
        }
        let bitmap_control = TIMBitmapControl::from_bits(from[0]);
        let partial_virtual_bitmap = Some(slice_range(from, 1, from.len()));
        Ok((Self { bitmap_control, partial_virtual_bitmap }, from.len()))
    }
}

impl<Bitmap: BitmapBytes> TIMBitmap<Bitmap> {
    /// The serialized bitmap: the control byte, then the partial virtual bitmap if there is one.
    pub open spec fn spec_bytes(&self) -> Seq<u8> {
        seq![self.spec_control().0] + match self.spec_bitmap() {
            Some(b) => b.spec_bitmap_bytes(),
            None => Seq::empty(),
        }
    }

    /// The length this bitmap reports: one byte of control, plus what the bitmap reports.
    pub open spec fn spec_measure(&self) -> int {
        1 + match self.spec_bitmap() {
            Some(b) => b.spec_bitmap_measure(),
            None => 0,
        }
    }

    /// The length this bitmap reports when serialized.
    pub fn measure_with(&self) -> (r: usize)
        requires
            self.bitmap_wf(),
            self.spec_measure() <= usize::MAX,
        ensures
            r == self.spec_measure(),
    {
        match &self.partial_virtual_bitmap {
            Some(b) => 1 + b.bitmap_measure(),
            None => 1,
        }
    }

    /// The serialized bitmap.
    pub fn to_bytes(&self) -> (r: Vec<u8>)
        requires
            self.bitmap_wf(),
        ensures
            r@ == self.spec_bytes(),
    {
        let mut out: Vec<u8> = Vec::new();
        out.push(self.bitmap_control.into_bits());
        if let Some(b) = &self.partial_virtual_bitmap {
            push_bytes(&mut out, b.bitmap_bytes());
        }
        proof {
            if self.spec_bitmap() is None {
                assert(out@ =~= self.spec_bytes());
            }
        }
        out
    }

    /// Write the bitmap to the start of `buf`, returning the number of bytes written.
    pub fn try_into_ctx(self, buf: &mut [u8]) -> (r: Result<usize, Error>)
        requires
            self.bitmap_wf(),
        ensures
            final(buf)@.len() == old(buf)@.len(),
            ({
                let bytes = self.spec_bytes();
                &&& bytes.len() <= old(buf)@.len() ==> r == Ok::<usize, Error>(bytes.len() as usize)
                    && final(buf)@ == bytes + old(buf)@.skip(bytes.len() as int)
                &&& bytes.len() > old(buf)@.len() ==> r == Err::<usize, Error>(Error::TooShort)
            }),
    {
        let bytes = self.to_bytes();
        write_all(buf, bytes.as_slice())
    }
}

/// The Traffic Indication Map (TIM) element holds information, about the STAs, for which traffic
/// is buffered at the AP.
///
/// If the `dtim_count` field is larger than `dtim_period`, an error is returned, when
/// reading or writing.
#[derive(Clone, Copy, Debug, Hash)]
pub struct TIMElement<Bitmap> {
    /// The amount of beacon intervals until the next DTIM.
    pub dtim_count: u8,
    /// The number of beacon intervals between successive DTIMs.
    pub dtim_period: u8,
    /// The bitmap indicates the STAs, for which traffic is buffered.
    pub bitmap: Option<TIMBitmap<Bitmap>>,
}

impl<Bitmap> Default for TIMElement<Bitmap> {
    fn default() -> (r: Self)
        ensures
            r.dtim_count == 0,
            r.dtim_period == 0,
            r.bitmap is None,
    {
        TIMElement { dtim_count: 0, dtim_period: 0, bitmap: None }
    }
}

impl<Bitmap> TIMElement<Bitmap> {
    /// Check if the DTIM parameters are valid: the count may not exceed the period.
    pub fn check_dtim_parameters(dtim_period: u8, dtim_count: u8) -> (r: Result<(), Error>)
        ensures
            r is Err <==> dtim_period < dtim_count,
            r matches Err(e) ==> e == Error::BadInput,
    {
        if dtim_period < dtim_count {
            Err(Error::BadInput)
        } else {
            Ok(())
        }
    }
}

impl<'a> TIMElement<&'a [u8]> {
    /// Read the element body: the DTIM count and period, then a bitmap if any bytes are left.
    ///
    /// A DTIM count larger than the DTIM period is refused.
    pub fn try_from_ctx(from: &'a [u8]) -> (r: Result<(Self, usize), Error>)
        ensures
            from@.len() < 2 ==> r == Err::<(Self, usize), Error>(Error::TooShort),
            from@.len() >= 2 && from@[1] < from@[0] ==> r == Err::<(Self, usize), Error>(
                Error::BadInput,
            ),
            from@.len() >= 2 && from@[1] >= from@[0] ==> (r matches Ok((e, n)) && e.dtim_count
                == from@[0] && e.dtim_period == from@[1] && (if from@.len() == 2 {
                e.bitmap is None && n == 2
            } else {
                n == from@.len() && e.bitmap is Some && e.bitmap->0.spec_control().0 == from@[2]
                    && e.bitmap->0.spec_bitmap() is Some && e.bitmap->0.spec_bitmap()->0@ == from@.skip(3)
            })),
    {
        if from.len() < 2 {
            return Err(Error::TooShort);
        }
        let dtim_count = from[0];
        let dtim_period = from[1];
        Self::check_dtim_parameters(dtim_period, dtim_count)?;
        let rest = slice_range(from, 2, from.len());
        let (bitmap, offset) = match TIMBitmap::try_from_ctx(rest) {
            Ok((bitmap, n)) => {
                assert(rest@.skip(1) =~= from@.skip(3));
                (Some(bitmap), 2 + n)
            },
            Err(_) => (None, 2),
        };
        Ok((TIMElement { dtim_count, dtim_period, bitmap }, offset))
    }
}

impl<Bitmap: BitmapBytes> TIMElement<Bitmap> {
    /// The bitmap, if present, can hand out its bytes.
    pub open spec fn element_wf(&self) -> bool {
        self.bitmap matches Some(t) ==> t.bitmap_wf()
    }

    /// The serialized body: the DTIM count and period, then the bitmap if there is one.
    pub open spec fn spec_bytes(&self) -> Seq<u8> {
        seq![self.dtim_count, self.dtim_period] + match self.bitmap {
            Some(t) => t.spec_bytes(),
            None => Seq::empty(),
        }
    }

    /// The length this element reports: two bytes, plus what the bitmap reports.
    pub open spec fn spec_measure(&self) -> int {
        2 + match self.bitmap {
            Some(t) => t.spec_measure(),
            None => 0,
        }
    }

    /// The length this element reports when serialized.
    pub fn measure_with(&self) -> (r: usize)
        requires
            self.element_wf(),
            self.spec_measure() <= usize::MAX,
        ensures
            r == self.spec_measure(),
    {
        match &self.bitmap {
            Some(t) => 2 + t.measure_with(),
            None => 2,
        }
    }

    /// The serialized body.
    pub fn to_bytes(&self) -> (r: Vec<u8>)
        requires
            self.element_wf(),
        ensures
            r@ == self.spec_bytes(),
    {
        let mut out: Vec<u8> = Vec::new();
        out.push(self.dtim_count);
        out.push(self.dtim_period);
        if let Some(t) = &self.bitmap {
            let bytes = t.to_bytes();
            push_bytes(&mut out, bytes.as_slice());
        }
        proof {
            if self.bitmap is None {
                assert(out@ =~= self.spec_bytes());
            }
        }
        out
    }

    /// Write the body to the start of `buf`, returning the number of bytes written.
    ///
    /// A DTIM count larger than the DTIM period is refused, and nothing is written.
    pub fn try_into_ctx(self, buf: &mut [u8]) -> (r: Result<usize, Error>)
        requires
            self.element_wf(),
        ensures
            final(buf)@.len() == old(buf)@.len(),
            self.dtim_period < self.dtim_count ==> r == Err::<usize, Error>(Error::BadInput)
                && final(buf)@ == old(buf)@,
            ({
                let bytes = self.spec_bytes();
                &&& self.dtim_period >= self.dtim_count && bytes.len() <= old(buf)@.len() ==> r
                    == Ok::<usize, Error>(bytes.len() as usize) && final(buf)@ == bytes + old(
                    buf,
                )@.skip(bytes.len() as int)
                &&& self.dtim_period >= self.dtim_count && bytes.len() > old(buf)@.len() ==> r
                    == Err::<usize, Error>(Error::TooShort)
            }),
    {
        if self.dtim_period < self.dtim_count {
            return Err(Error::BadInput);
        }
        let bytes = self.to_bytes();
        write_all(buf, bytes.as_slice())
    }
}

impl<Bitmap: BitmapBytes> Element for TIMElement<Bitmap> {
    type ReadType<'a> = TIMElement<&'a [u8]>;

    open spec fn spec_body(&self) -> Seq<u8> {
        self.spec_bytes()
    }

    open spec fn spec_writable(&self) -> bool {
        self.element_wf()
    }

    fn body_bytes(&self) -> (r: Vec<u8>) {
        self.to_bytes()
    }

    open spec fn spec_element_id() -> ElementID {
        ElementID::Id(5)
    }

    open spec fn spec_read<'a>(body: Seq<u8>, r: Option<TIMElement<&'a [u8]>>) -> bool {
        match r {
            None => body.len() < 2 || body[1] < body[0],
            Some(e) => body.len() >= 2 && body[1] >= body[0] && e.dtim_count == body[0] && e.dtim_period
                == body[1] && if body.len() == 2 {
                e.bitmap is None
            } else {
                &&& e.bitmap is Some
                &&& e.bitmap->0.spec_control().0 == body[2]
                &&& e.bitmap->0.spec_bitmap() is Some
                &&& e.bitmap->0.spec_bitmap()->0@ == body.skip(3)
            },
        }
    }

    fn element_id() -> (r: ElementID) {
        ElementID::Id(5)
    }

    fn read<'a>(body: &'a [u8]) -> (r: Option<TIMElement<&'a [u8]>>) {
        match TIMElement::<&'a [u8]>::try_from_ctx(body) {
            Ok((e, _)) => Some(e),
            Err(_) => None,
        }
    }
}


/// Whether `a` and `b` hold the same bytes.
fn bytes_equal(a: &[u8], b: &[u8]) -> (r: bool)
    ensures
        r == (a@ == b@),
{
    if a.len() != b.len() {
        return false;
    }
    let mut i: usize = 0;
    while i < a.len()
        invariant
            i <= a@.len(),
            a@.len() == b@.len(),
            forall|j: int| 0 <= j < i ==> a@[j] == b@[j],
        decreases a@.len() - i,
    {
        if a[i] != b[i] {
            return false;
        }
        i = i + 1;
    }
    assert(a@ =~= b@);
    true
}

impl<Bitmap: BitmapBytes> TIMBitmap<Bitmap> {
    /// The bytes of the partial virtual bitmap, if there is one.
    pub open spec fn spec_bitmap_bytes_opt(&self) -> Option<Seq<u8>> {
        match self.spec_bitmap() {
            Some(b) => Some(b.spec_bitmap_bytes()),
            None => None,
        }
    }

    /// Two bitmaps are equal if their control fields are, and their partial virtual bitmaps hold
    /// the same bytes, whatever holds them.
    pub fn eq<Rhs: BitmapBytes>(&self, other: &TIMBitmap<Rhs>) -> (r: bool)
        requires
            self.bitmap_wf(),
            other.bitmap_wf(),
        ensures
            r == (self.spec_control() == other.spec_control() && self.spec_bitmap_bytes_opt()
                == other.spec_bitmap_bytes_opt()),
    {
        if self.bitmap_control.0 != other.bitmap_control.0 {
            return false;
        }
        match (&self.partial_virtual_bitmap, &other.partial_virtual_bitmap) {
            (Some(a), Some(b)) => bytes_equal(a.bitmap_bytes(), b.bitmap_bytes()),
            (None, None) => true,
            _ => false,
        }
    }
}

impl<Bitmap: BitmapBytes> TIMElement<Bitmap> {
    /// Two elements are equal if their DTIM count and period are, and both have no bitmap or
    /// equal ones.
    pub fn eq<Rhs: BitmapBytes>(&self, other: &TIMElement<Rhs>) -> (r: bool)
        requires
            self.bitmap matches Some(b) ==> b.bitmap_wf(),
            other.bitmap matches Some(b) ==> b.bitmap_wf(),
        ensures
            r == (self.dtim_count == other.dtim_count && self.dtim_period == other.dtim_period
                && match (self.bitmap, other.bitmap) {
                (Some(a), Some(b)) => a.spec_control() == b.spec_control() && a.spec_bitmap_bytes_opt()
                    == b.spec_bitmap_bytes_opt(),
                (None, None) => true,
                _ => false,
            }),
    {
        self.dtim_count == other.dtim_count && self.dtim_period == other.dtim_period && match (
            &self.bitmap,
            &other.bitmap,
        ) {
            (Some(a), Some(b)) => a.eq(b),
            (None, None) => true,
            _ => false,
        }
    }
}


/// Reading a written TIM element gives back its DTIM count and period and its bitmap, control
/// and bytes, whatever reading gives: for a DTIM count that doesn't exceed the period, and a
/// bitmap, if there is one, that holds a partial virtual bitmap.
pub proof fn lemma_tim_element_roundtrip<'a, Bitmap: BitmapBytes>(
    e: TIMElement<Bitmap>,
    r: Option<TIMElement<&'a [u8]>>,
)
    requires
        e.dtim_count <= e.dtim_period,
        e.bitmap matches Some(b) ==> b.spec_bitmap() is Some,
        <TIMElement<Bitmap> as Element>::spec_read(e.spec_bytes(), r),
    ensures
        r matches Some(x) && x.dtim_count == e.dtim_count && x.dtim_period == e.dtim_period
            && match (x.bitmap, e.bitmap) {
            (Some(a), Some(b)) => a.spec_control() == b.spec_control() && a.spec_bitmap_bytes_opt()
                == b.spec_bitmap_bytes_opt(),
            (None, None) => true,
            _ => false,
        },
{
    let s = e.spec_bytes();
    assert(s[0] == e.dtim_count);
    assert(s[1] == e.dtim_period);
    if let Some(b) = e.bitmap {
        assert(s[2] == b.spec_control().0);
        assert(s.skip(3) =~= b.spec_bitmap()->0.spec_bitmap_bytes());
        let x = r->0;
        assert(x.bitmap->0.spec_control() == b.spec_control());
    }
}

} // verus!
