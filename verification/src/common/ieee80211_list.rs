//! A list of fixed size items, read from bytes with a sixteen bit count before them.
use crate::common::wire::{le_u16, lemma_u16_roundtrip, push_bytes, push_u16_le, read_u16_le, slice_range, u16_le_bytes, write_all, Error};
use core::marker::PhantomData;
use vstd::prelude::*;

verus! {

/// An item of a list, read from the start of some bytes.
pub trait ListItem: Sized {
    /// What reading an item from the start of `bytes` gives: the item and the number of bytes
    /// it takes; [None] where reading fails.
    spec fn spec_read_item(bytes: Seq<u8>) -> Option<(Self, nat)>;

    /// The number of bytes an item takes when written.
    spec fn spec_item_size() -> nat;

    /// The number of bytes an item takes when written.
    fn item_size() -> (r: usize)
        ensures
            r == Self::spec_item_size(),
    ;

    /// Read an item from the start of `bytes`, returning it and the number of bytes it takes.
    fn read_item(bytes: &[u8]) -> (r: Option<(Self, usize)>)
        ensures
            match Self::spec_read_item(bytes@) {
                Some((x, n)) => r matches Some((y, m)) && y == x && m == n,
                None => r is None,
            },
            r matches Some((_, m)) ==> 1 <= m <= bytes@.len(),
    ;
}

/// The items read one after the other from `bytes`, until reading fails.
pub open spec fn list_items<T: ListItem>(bytes: Seq<u8>) -> Seq<T>
    decreases bytes.len(),
{
    match T::spec_read_item(bytes) {
        Some((x, n)) => if 1 <= n <= bytes.len() {
            seq![x] + list_items::<T>(bytes.skip(n as int))
        } else {
            Seq::empty()
        },
        None => Seq::empty(),
    }
}

/// A list of items, as it is represented in IEEE 802.11: a count of type `ElementCountType`,
/// then the items.
pub trait IEEE80211List<InnerItem, ElementCountType> {
    /// The list can hand out its items and count.
    spec fn spec_list_valid(&self) -> bool;

    /// The items of the list.
    spec fn spec_items(&self) -> Seq<InnerItem>;

    /// The number of items, as the count holds it.
    spec fn spec_element_count(&self) -> ElementCountType;

    /// The size in bytes of the list when written out.
    spec fn spec_size_in_bytes(&self) -> int;

    /// Returns the number of items in the list.
    fn element_count(&self) -> (r: ElementCountType)
        requires
            self.spec_list_valid(),
        ensures
            r == self.spec_element_count(),
    ;

    /// Returns the items of the list.
    fn iter(&self) -> (r: Vec<InnerItem>)
        requires
            self.spec_list_valid(),
        ensures
            r@ == self.spec_items(),
    ;

    /// Returns the size in bytes of the list when written out.
    fn size_in_bytes(&self) -> (r: usize)
        requires
            self.spec_list_valid(),
            self.spec_size_in_bytes() <= usize::MAX,
        ensures
            r == self.spec_size_in_bytes(),
    ;
}

impl<InnerItem: ListItem + Copy> IEEE80211List<InnerItem, u16> for Vec<InnerItem> {
    open spec fn spec_list_valid(&self) -> bool {
        true
    }

    open spec fn spec_items(&self) -> Seq<InnerItem> {
        self@
    }

    open spec fn spec_element_count(&self) -> u16 {
        (self@.len() % 0x1_0000) as u16
    }

    open spec fn spec_size_in_bytes(&self) -> int {
        2 + (InnerItem::spec_item_size() * self@.len()) as int
    }

    fn element_count(&self) -> (r: u16) {
        (self.len() % 0x1_0000) as u16
    }

    fn iter(&self) -> (r: Vec<InnerItem>) {
        let mut out: Vec<InnerItem> = Vec::new();
        let mut i: usize = 0;
        while i < self.len()
            invariant
                i <= self@.len(),
                out@ == self@.take(i as int),
            decreases self@.len() - i,
        {
            out.push(self[i]);
            i = i + 1;
            assert(out@ =~= self@.take(i as int));
        }
        assert(self@.take(self@.len() as int) =~= self@);
        out
    }

    fn size_in_bytes(&self) -> (r: usize) {
        let size = InnerItem::item_size();
        let n = self.len();
        proof {
            assert(size * n <= 2 + size * n);
        }
        2 + size * n
    }
}

/// A list of items of `ITEM_SIZE` bytes each, kept as the bytes it was read from.
///
/// The count before the items is of type `ElementCountType`; reading and writing are provided
/// for a count of sixteen bits, little-endian.
pub struct IEEE80211ReadList<'a, InnerItem, ElementCountType, const ITEM_SIZE: usize> {
    /// The bytes of the items.
    pub bytes: &'a [u8],
    /// Marks the item and count types.
    pub _phantom: PhantomData<(InnerItem, ElementCountType)>,
}

impl<'a, InnerItem, ElementCountType, const ITEM_SIZE: usize> Clone for IEEE80211ReadList<
    'a,
    InnerItem,
    ElementCountType,
    ITEM_SIZE,
> {
    fn clone(&self) -> (r: Self)
        ensures
            r.bytes == self.bytes,
    {
        IEEE80211ReadList { bytes: self.bytes, _phantom: PhantomData }
    }
}

impl<'a, InnerItem, const ITEM_SIZE: usize> IEEE80211ReadList<'a, InnerItem, u16, ITEM_SIZE> {
    /// A list over `bytes`.
    pub fn new(bytes: &'a [u8]) -> (r: Self)
        ensures
            r.bytes == bytes,
    {
        IEEE80211ReadList { bytes, _phantom: PhantomData }
    }

    /// The number of whole items.
    pub fn element_count(&self) -> (r: u16)
        requires
            ITEM_SIZE > 0,
        ensures
            r == ((self.bytes@.len() as int) / (ITEM_SIZE as int)) % 0x1_0000,
    {
        ((self.bytes.len() / ITEM_SIZE) % 0x1_0000) as u16
    }

    /// The size of the serialized list: the count and the items.
    pub fn size_in_bytes(&self) -> (r: usize)
        requires
            self.bytes@.len() + 2 <= usize::MAX,
        ensures
            r == 2 + self.bytes@.len(),
    {
        2 + self.bytes.len()
    }

    /// The length this list reports: the bytes of the items.
    pub fn measure_with(&self) -> (r: usize)
        ensures
            r == self.bytes@.len(),
    {
        self.bytes.len()
    }

    /// Read the count, then as many items.
    pub fn try_from_ctx(from: &'a [u8]) -> (r: Result<(Self, usize), Error>)
        ensures
            from@.len() < 2 ==> r == Err::<(Self, usize), Error>(Error::TooShort),
            from@.len() >= 2 && from@.len() < 2 + le_u16(from@, 0) * ITEM_SIZE ==> r == Err::<
                (Self, usize),
                Error,
            >(Error::TooShort),
            from@.len() >= 2 + le_u16(from@, 0) * ITEM_SIZE ==> (r matches Ok((l, n)) && l.bytes@
                == from@.subrange(2, 2 + le_u16(from@, 0) * ITEM_SIZE) && n == 2 + le_u16(from@, 0)
                * ITEM_SIZE),
    {
        if from.len() < 2 {
            return Err(Error::TooShort);
        }
        let count = read_u16_le(from, 0) as usize;
        if ITEM_SIZE > 0 && count > (from.len() - 2) / ITEM_SIZE {
            proof {
                assert(count * ITEM_SIZE > from@.len() - 2) by (nonlinear_arith)
                    requires
                        count > (from@.len() - 2) / (ITEM_SIZE as int),
                        ITEM_SIZE > 0,
                ;
            }
            return Err(Error::TooShort);
        }
        proof {
            if ITEM_SIZE > 0 {
                assert(count * ITEM_SIZE <= from@.len() - 2) by (nonlinear_arith)
                    requires
                        count <= (from@.len() - 2) / (ITEM_SIZE as int),
                        ITEM_SIZE > 0,
                        from@.len() >= 2,
                ;
            }
        }
        let n = count * ITEM_SIZE;
        Ok((IEEE80211ReadList { bytes: slice_range(from, 2, 2 + n), _phantom: PhantomData }, 2 + n))
    }

    /// Write the count of whole items, cut to sixteen bits, then the bytes.
    pub fn try_into_ctx(&self, buf: &mut [u8]) -> (r: Result<usize, Error>)
        requires
            ITEM_SIZE > 0,
        ensures
            final(buf)@.len() == old(buf)@.len(),
            ({
                let bytes = u16_le_bytes((((self.bytes@.len() as int) / (ITEM_SIZE as int)) % 0x1_0000) as u16)
                    + self.bytes@;
                &&& bytes.len() <= old(buf)@.len() ==> r == Ok::<usize, Error>(bytes.len() as usize)
                    && final(buf)@ == bytes + old(buf)@.skip(bytes.len() as int)
                &&& bytes.len() > old(buf)@.len() ==> r == Err::<usize, Error>(Error::TooShort)
            }),
    {
        let mut bytes: Vec<u8> = Vec::new();
        push_u16_le(&mut bytes, self.element_count());
        push_bytes(&mut bytes, self.bytes);
        write_all(buf, bytes.as_slice())
    }
}


impl<'a, InnerItem: ListItem, ElementCountType, const ITEM_SIZE: usize> IEEE80211ReadList<
    'a,
    InnerItem,
    ElementCountType,
    ITEM_SIZE,
> {
    /// The items of the list, read one after the other until reading fails.
    pub fn iter(&self) -> (r: Vec<InnerItem>)
        ensures
            r@ == list_items::<InnerItem>(self.bytes@),
    {
        let mut out: Vec<InnerItem> = Vec::new();
        let mut offset: usize = 0;
        assert(self.bytes@.skip(0) =~= self.bytes@);
        assert(out@ + list_items::<InnerItem>(self.bytes@) =~= list_items::<InnerItem>(self.bytes@));
        loop
            invariant
                offset <= self.bytes@.len(),
                out@ + list_items::<InnerItem>(self.bytes@.skip(offset as int)) == list_items::<
                    InnerItem,
                >(self.bytes@),
            ensures
                out@ == list_items::<InnerItem>(self.bytes@),
            decreases self.bytes@.len() - offset,
        {
            let rest = slice_range(self.bytes, offset, self.bytes.len());
            assert(rest@ == self.bytes@.skip(offset as int));
            match InnerItem::read_item(rest) {
                Some((item, n)) => {
                    assert(rest@.skip(n as int) =~= self.bytes@.skip(offset + n));
                    assert(out@.push(item) + list_items::<InnerItem>(rest@.skip(n as int)) =~= out@
                        + list_items::<InnerItem>(rest@));
                    out.push(item);
                    offset = offset + n;
                },
                None => {
                    assert(out@ + list_items::<InnerItem>(rest@) =~= out@);
                    break ;
                },
            }
        }
        out
    }
}


/// Reading a written list gives back its bytes, when they are whole items and fewer than 65536
/// of them.
pub proof fn lemma_read_list_roundtrip(bytes: Seq<u8>, item_size: int, rest: Seq<u8>)
    requires
        item_size > 0,
        (bytes.len() as int) % item_size == 0,
        (bytes.len() as int) / item_size < 0x1_0000,
    ensures
        ({
            let written = u16_le_bytes(((bytes.len() as int) / item_size) as u16) + bytes + rest;
            &&& le_u16(written, 0) * item_size == bytes.len()
            &&& written.subrange(2, 2 + bytes.len() as int) == bytes
        }),
{
    let count = ((bytes.len() as int) / item_size) as u16;
    lemma_u16_roundtrip(count, Seq::empty(), bytes + rest);
    let written = u16_le_bytes(count) + bytes + rest;
    assert(Seq::<u8>::empty() + u16_le_bytes(count) + (bytes + rest) =~= written);
    assert(written.subrange(2, 2 + bytes.len() as int) =~= bytes);
    assert(count * item_size == bytes.len()) by (nonlinear_arith)
        requires
            item_size > 0,
            (bytes.len() as int) % item_size == 0,
            count == (bytes.len() as int) / item_size,
    ;
}


impl<'a, InnerItem: ListItem, const ITEM_SIZE: usize> IEEE80211List<InnerItem, u16> for IEEE80211ReadList<
    'a,
    InnerItem,
    u16,
    ITEM_SIZE,
> {
    open spec fn spec_list_valid(&self) -> bool {
        ITEM_SIZE > 0
    }

    open spec fn spec_items(&self) -> Seq<InnerItem> {
        list_items::<InnerItem>(self.bytes@)
    }

    open spec fn spec_element_count(&self) -> u16 {
        (((self.bytes@.len() as int) / (ITEM_SIZE as int)) % 0x1_0000) as u16
    }

    open spec fn spec_size_in_bytes(&self) -> int {
        2 + self.bytes@.len() as int
    }

    fn element_count(&self) -> (r: u16) {
        IEEE80211ReadList::<'a, InnerItem, u16, ITEM_SIZE>::element_count(self)
    }

    fn iter(&self) -> (r: Vec<InnerItem>) {
        IEEE80211ReadList::<'a, InnerItem, u16, ITEM_SIZE>::iter(self)
    }

    fn size_in_bytes(&self) -> (r: usize) {
        IEEE80211ReadList::<'a, InnerItem, u16, ITEM_SIZE>::size_in_bytes(self)
    }
}

} // verus!
