//! The supported rates and extended supported rates elements.
use crate::common::bits::{fits_u8, get_bits_u8, lemma_set_bits_u8, set_bits_u8};
use crate::common::wire::{write_all, Error};
use crate::elements::ElementID;
use crate::elements::Element;
use vstd::prelude::*;
use vstd::std_specs::cmp::PartialEqSpecImpl;

verus! {

/// Data rate encoded as specified in IEEE 802.11.
#[derive(Clone, Copy, Debug, PartialEq, Eq, Hash, Structural)]
pub struct EncodedRate(pub u8);

impl EncodedRate {
    /// A value with every field at its default.
    pub fn new() -> (r: Self)
        ensures
            r.0 == 0x0,
    {
        Self(0x0)
    }

    /// Wrap the raw bits.
    pub fn from_bits(bits: u8) -> (r: Self)
        ensures
            r.0 == bits,
    {
        Self(bits)
    }

    /// Every field mask fits in the backing integer.
    proof fn lemma_masks_fit()
        by (bit_vector)
        ensures
            fits_u8(0, 0x7f),
            fits_u8(7, 0x1),
            (0x7fu8 << 0u8) & (0x1u8 << 7u8) == 0,
            (0x1u8 << 7u8) & (0x7fu8 << 0u8) == 0,
            1u8 & 1u8 == 1,
            0u8 & 1u8 == 0,
    {
    }

    /// The raw bits.
    pub fn into_bits(self) -> (r: u8)
        ensures
            r == self.0,
    {
        self.0
    }

    /// The value of the data rate, in units of 500 kbps.
    pub open spec fn spec_rate(self) -> u8 {
        get_bits_u8(self.0, 0, 0x7f) as u8
    }

    /// The value of the data rate, in units of 500 kbps.
    pub fn rate(&self) -> (r: u8)
        ensures
            r == self.spec_rate(),
    {
        ((self.0 >> 0) & 0x7f) as u8
    }

    /// Returns a copy with the field replaced by `value`.
    pub fn with_rate(self, value: u8) -> (r: Self)
        ensures
            r.0 == set_bits_u8(self.0, 0, 0x7f, (value as u8)),
            r.spec_rate() == ((value as u8) & 0x7f) as u8,
            r.spec_is_b() == self.spec_is_b(),
    {
        let v: u8 = value as u8;
        proof {
            Self::lemma_masks_fit();
            lemma_set_bits_u8(self.0, 0, 0x7f, v, 0, 0x7f);
            lemma_set_bits_u8(self.0, 0, 0x7f, v, 7, 0x1);
        }
        Self((self.0 & !(0x7fu8 << 0u8)) | ((v & 0x7f) << 0u8))
    }

    /// Is the data rate IEEE 802.11b.
    pub open spec fn spec_is_b(self) -> bool {
        get_bits_u8(self.0, 7, 1) == 1
    }

    /// Is the data rate IEEE 802.11b.
    pub fn is_b(&self) -> (r: bool)
        ensures
            r == self.spec_is_b(),
    {
        (self.0 >> 7) & 1 == 1
    }

    /// Returns a copy with the field replaced by `value`.
    pub fn with_is_b(self, value: bool) -> (r: Self)
        ensures
            r.0 == set_bits_u8(self.0, 7, 0x1, (if value {
                1u8
            } else {
                0u8
            })),
            r.spec_is_b() == value,
            r.spec_rate() == self.spec_rate(),
    {
        let v: u8 = if value {
            1
        } else {
            0
        };
        proof {
            Self::lemma_masks_fit();
            lemma_set_bits_u8(self.0, 7, 0x1, v, 7, 0x1);
            lemma_set_bits_u8(self.0, 7, 0x1, v, 0, 0x7f);
        }
        Self((self.0 & !(0x1u8 << 7u8)) | ((v & 0x1) << 7u8))
    }
}

impl EncodedRate {
    /// Returns the data rate in kbps.
    pub fn rate_in_kbps(&self) -> (r: usize)
        ensures
            r == self.spec_rate() * 500,
    {
        let rate = self.rate();
        proof {
            let b = self.0;
            assert(((b >> 0u8) & 0x7fu8) as u8 <= 0x7f) by (bit_vector);
        }
        rate as usize * 500
    }

    /// Creates a rate from its speed in kbps, with the IEEE 802.11b flag.
    ///
    /// The speed is divided by 500 and cut to the seven bits of the rate.
    pub fn from_rate_in_kbps(rate: usize, is_b: bool) -> (r: Self)
        ensures
            r.spec_rate() == ((rate / 500) % 256) % 128,
            r.spec_is_b() == is_b,
    {
        let units = ((rate / 500) % 256) as u8;
        proof {
            assert(units & 0x7fu8 == units % 128) by (bit_vector);
        }
        Self::new().with_rate(units).with_is_b(is_b)
    }
}

/// The bytes of a list of rates.
pub open spec fn rate_bytes(rates: Seq<EncodedRate>) -> Seq<u8> {
    rates.map_values(|r: EncodedRate| r.0)
}

/// Read each byte as a rate.
fn read_rates(from: &[u8]) -> (r: Vec<EncodedRate>)
    ensures
        rate_bytes(r@) == from@,
{
    let mut out: Vec<EncodedRate> = Vec::new();
    let mut i: usize = 0;
    while i < from.len()
        invariant
            i <= from@.len(),
            rate_bytes(out@) == from@.take(i as int),
        decreases from@.len() - i,
    {
        let ghost prev = out@;
        out.push(EncodedRate(from[i]));
        assert(rate_bytes(out@) =~= rate_bytes(prev).push(from@[i as int]));
        i = i + 1;
        assert(rate_bytes(out@) =~= from@.take(i as int));
    }
    assert(from@.take(i as int) =~= from@);
    out
}

/// Write the bytes of the first `n` rates to the start of `buf`.
fn write_rates(rates: &Vec<EncodedRate>, n: usize, buf: &mut [u8]) -> (r: Result<usize, Error>)
    requires
        n <= rates@.len(),
    ensures
        final(buf)@.len() == old(buf)@.len(),
        ({
            let bytes = rate_bytes(rates@.take(n as int));
            &&& bytes.len() <= old(buf)@.len() ==> r == Ok::<usize, Error>(bytes.len() as usize)
                && final(buf)@ == bytes + old(buf)@.skip(bytes.len() as int)
            &&& bytes.len() > old(buf)@.len() ==> r == Err::<usize, Error>(Error::TooShort)
        }),
{
    let mut bytes: Vec<u8> = Vec::new();
    let mut i: usize = 0;
    while i < n
        invariant
            i <= n <= rates@.len(),
            bytes@ == rate_bytes(rates@.take(i as int)),
        decreases n - i,
    {
        bytes.push(rates[i].0);
        i = i + 1;
        assert(bytes@ =~= rate_bytes(rates@.take(i as int)));
    }
    write_all(buf, bytes.as_slice())
}

/// Whether `a` and `b` hold the same rates, in the same order.
fn rates_equal(a: &Vec<EncodedRate>, b: &Vec<EncodedRate>) -> (r: bool)
    ensures
        r == (a@ == b@),
{
    if a.len() != b.len() {
        return false;
    }
    let mut i: usize = 0;
    while i < a.len()
        invariant
            i <= a@.len(),
            a@.len() == b@.len(),
            forall|j: int| 0 <= j < i ==> a@[j] == b@[j],
        decreases a@.len() - i,
    {
        if a[i].0 != b[i].0 {
            assert(a@[i as int] != b@[i as int]);
            return false;
        }
        i = i + 1;
    }
    assert(a@ =~= b@);
    true
}

/// An element containing the rates supported by the AP.
///
/// There must be no more than eight rates present, since anything after that is left out when
/// writing.
#[derive(Clone, Debug, Hash)]
pub struct SupportedRatesElement {
    supported_rates: Vec<EncodedRate>,
}

impl SupportedRatesElement {
    /// The rates.
    pub closed spec fn spec_rates(&self) -> Seq<EncodedRate> {
        self.supported_rates@
    }

    /// Create the element without checking the number of rates.
    pub fn new_unchecked(supported_rates: Vec<EncodedRate>) -> (r: Self)
        ensures
            r.spec_rates() == supported_rates@,
    {
        Self { supported_rates }
    }

    /// Create a new element.
    ///
    /// This returns [None], if more than 8 rates are supplied.
    pub fn new(supported_rates: Vec<EncodedRate>) -> (r: Option<Self>)
        ensures
            r is Some <==> supported_rates@.len() <= 8,
            r matches Some(e) ==> e.spec_rates() == supported_rates@,
    {
        if supported_rates.len() <= 8 {
            Some(Self::new_unchecked(supported_rates))
        } else {
            None
        }
    }

    /// The rates.
    pub fn supported_rates(&self) -> (r: &Vec<EncodedRate>)
        ensures
            r@ == self.spec_rates(),
    {
        &self.supported_rates
    }

    /// Read the element body: each byte is a rate, and there may be at most 8.
    pub fn try_from_ctx(from: &[u8]) -> (r: Result<(Self, usize), Error>)
        ensures
            from@.len() > 8 ==> r == Err::<(Self, usize), Error>(Error::TooBig),
            from@.len() <= 8 ==> (r matches Ok((e, n)) && n == from@.len() && rate_bytes(
                e.spec_rates(),
            ) == from@),
    {
        if from.len() > 8 {
            return Err(Error::TooBig);
        }
        Ok((Self { supported_rates: read_rates(from) }, from.len()))
    }

    /// The length this element reports: one byte per rate.
    pub fn measure_with(&self) -> (r: usize)
        ensures
            r == self.spec_rates().len(),
    {
        self.supported_rates.len()
    }

    /// The bytes this element writes.
    pub open spec fn spec_bytes(&self) -> Seq<u8> {
        rate_bytes(self.spec_rates().take(if self.spec_rates().len() > 8 { 8 } else { self.spec_rates().len() as int }))
    }

    /// Write the first eight rates to the start of `buf`.
    pub fn try_into_ctx(&self, buf: &mut [u8]) -> (r: Result<usize, Error>)
        ensures
            final(buf)@.len() == old(buf)@.len(),
            ({
                let bytes = self.spec_bytes();
                &&& bytes.len() <= old(buf)@.len() ==> r == Ok::<usize, Error>(bytes.len() as usize)
                    && final(buf)@ == bytes + old(buf)@.skip(bytes.len() as int)
                &&& bytes.len() > old(buf)@.len() ==> r == Err::<usize, Error>(Error::TooShort)
            }),
    {
        let n = if self.supported_rates.len() > 8 { 8 } else { self.supported_rates.len() };
        write_rates(&self.supported_rates, n, buf)
    }
}

/// An element containing rates supported by the peer, beyond the first eight.
#[derive(Clone, Debug, Hash)]
pub struct ExtendedSupportedRatesElement {
    supported_rates: Vec<EncodedRate>,
}

impl ExtendedSupportedRatesElement {
    /// The rates.
    pub closed spec fn spec_rates(&self) -> Seq<EncodedRate> {
        self.supported_rates@
    }

    /// Create the element without checking the number of rates.
    pub fn new_unchecked(supported_rates: Vec<EncodedRate>) -> (r: Self)
        ensures
            r.spec_rates() == supported_rates@,
    {
        Self { supported_rates }
    }

    /// Create a new element.
    ///
    /// This returns [None], if more than 251 rates are supplied.
    pub fn new(supported_rates: Vec<EncodedRate>) -> (r: Option<Self>)
        ensures
            r is Some <==> supported_rates@.len() <= 251,
            r matches Some(e) ==> e.spec_rates() == supported_rates@,
    {
        if supported_rates.len() <= 251 {
            Some(Self::new_unchecked(supported_rates))
        } else {
            None
        }
    }

    /// The rates.
    pub fn supported_rates(&self) -> (r: &Vec<EncodedRate>)
        ensures
            r@ == self.spec_rates(),
    {
        &self.supported_rates
    }

    /// Read the element body: each byte is a rate, and there may be at most 255.
    pub fn try_from_ctx(from: &[u8]) -> (r: Result<(Self, usize), Error>)
        ensures
            from@.len() > 255 ==> r == Err::<(Self, usize), Error>(Error::TooBig),
            from@.len() <= 255 ==> (r matches Ok((e, n)) && n == from@.len() && rate_bytes(
                e.spec_rates(),
            ) == from@),
    {
        if from.len() > 255 {
            return Err(Error::TooBig);
        }
        Ok((Self { supported_rates: read_rates(from) }, from.len()))
    }

    /// The length this element reports: one byte per rate.
    pub fn measure_with(&self) -> (r: usize)
        ensures
            r == self.spec_rates().len(),
    {
        self.supported_rates.len()
    }

    /// The bytes this element writes.
    pub open spec fn spec_bytes(&self) -> Seq<u8> {
        rate_bytes(self.spec_rates().take(self.spec_rates().len() as int))
    }

    /// Write the rates to the start of `buf`.
    pub fn try_into_ctx(&self, buf: &mut [u8]) -> (r: Result<usize, Error>)
        ensures
            final(buf)@.len() == old(buf)@.len(),
            ({
                let bytes = self.spec_bytes();
                &&& bytes.len() <= old(buf)@.len() ==> r == Ok::<usize, Error>(bytes.len() as usize)
                    && final(buf)@ == bytes + old(buf)@.skip(bytes.len() as int)
                &&& bytes.len() > old(buf)@.len() ==> r == Err::<usize, Error>(Error::TooShort)
            }),
    {
        let n = self.supported_rates.len();
        write_rates(&self.supported_rates, n, buf)
    }
}

impl Element for SupportedRatesElement {
    type ReadType<'a> = SupportedRatesElement;

    open spec fn spec_body(&self) -> Seq<u8> {
        self.spec_bytes()
    }

    fn body_bytes(&self) -> (r: Vec<u8>) {
        let mut out: Vec<u8> = Vec::new();
        let n = if self.supported_rates.len() > 8 {
            8
        } else {
            self.supported_rates.len()
        };
        let mut i: usize = 0;
        while i < n
            invariant
                n <= self.supported_rates@.len(),
                i <= n,
                n == if self.spec_rates().len() > 8 {
                    8 as int
                } else {
                    self.spec_rates().len() as int
                },
                out@ == rate_bytes(self.spec_rates().take(i as int)),
            decreases n - i,
        {
            out.push(self.supported_rates[i].0);
            i = i + 1;
            assert(out@ =~= rate_bytes(self.spec_rates().take(i as int)));
        }
        out
    }

    open spec fn spec_element_id() -> ElementID {
        ElementID::Id(0x01)
    }

    open spec fn spec_read<'a>(body: Seq<u8>, r: Option<SupportedRatesElement>) -> bool {
        match r {
            None => body.len() > 8,
            Some(e) => body.len() <= 8 && rate_bytes(e.spec_rates()) == body,
        }
    }

    fn element_id() -> (r: ElementID) {
        ElementID::Id(0x01)
    }

    fn read<'a>(body: &'a [u8]) -> (r: Option<SupportedRatesElement>) {
        match SupportedRatesElement::try_from_ctx(body) {
            Ok((e, _)) => Some(e),
            Err(_) => None,
        }
    }
}

impl Element for ExtendedSupportedRatesElement {
    type ReadType<'a> = ExtendedSupportedRatesElement;

    open spec fn spec_body(&self) -> Seq<u8> {
        self.spec_bytes()
    }

    fn body_bytes(&self) -> (r: Vec<u8>) {
        let mut out: Vec<u8> = Vec::new();
        let n = self.supported_rates.len();
        let mut i: usize = 0;
        while i < n
            invariant
                n <= self.supported_rates@.len(),
                i <= n,
                n == self.spec_rates().len(),
                out@ == rate_bytes(self.spec_rates().take(i as int)),
            decreases n - i,
        {
            out.push(self.supported_rates[i].0);
            i = i + 1;
            assert(out@ =~= rate_bytes(self.spec_rates().take(i as int)));
        }
        out
    }

    open spec fn spec_element_id() -> ElementID {
        ElementID::Id(0x32)
    }

    open spec fn spec_read<'a>(body: Seq<u8>, r: Option<ExtendedSupportedRatesElement>) -> bool {
        match r {
            None => body.len() > 255,
            Some(e) => body.len() <= 255 && rate_bytes(e.spec_rates()) == body,
        }
    }

    fn element_id() -> (r: ElementID) {
        ElementID::Id(0x32)
    }

    fn read<'a>(body: &'a [u8]) -> (r: Option<ExtendedSupportedRatesElement>) {
        match ExtendedSupportedRatesElement::try_from_ctx(body) {
            Ok((e, _)) => Some(e),
            Err(_) => None,
        }
    }
}


impl PartialEq for SupportedRatesElement {
    /// Two elements are equal if they hold the same rates.
    fn eq(&self, other: &Self) -> (r: bool) {
        rates_equal(&self.supported_rates, &other.supported_rates)
    }
}

impl PartialEqSpecImpl for SupportedRatesElement {
    open spec fn obeys_eq_spec() -> bool {
        true
    }

    open spec fn eq_spec(&self, other: &Self) -> bool {
        self.spec_rates() == other.spec_rates()
    }
}

impl PartialEq for ExtendedSupportedRatesElement {
    /// Two elements are equal if they hold the same rates.
    fn eq(&self, other: &Self) -> (r: bool) {
        rates_equal(&self.supported_rates, &other.supported_rates)
    }
}

impl PartialEqSpecImpl for ExtendedSupportedRatesElement {
    open spec fn obeys_eq_spec() -> bool {
        true
    }

    open spec fn eq_spec(&self, other: &Self) -> bool {
        self.spec_rates() == other.spec_rates()
    }
}


/// Rates are told apart by their bytes.
proof fn lemma_rate_bytes_injective(a: Seq<EncodedRate>, b: Seq<EncodedRate>)
    requires
        rate_bytes(a) == rate_bytes(b),
    ensures
        a == b,
{
    assert(a.len() == rate_bytes(a).len());
    assert(b.len() == rate_bytes(b).len());
    assert forall|i: int| 0 <= i < a.len() implies a[i] == b[i] by {
        assert(rate_bytes(a)[i] == a[i].0);
        assert(rate_bytes(b)[i] == b[i].0);
    }
    assert(a =~= b);
}

/// Reading the body written for a supported rates element of at most eight rates gives back its
/// rates, whatever reading gives.
pub proof fn lemma_supported_rates_roundtrip(e: SupportedRatesElement, r: Option<SupportedRatesElement>)
    requires
        e.spec_rates().len() <= 8,
        <SupportedRatesElement as Element>::spec_read(e.spec_bytes(), r),
    ensures
        r matches Some(x) && x.spec_rates() == e.spec_rates(),
{
    assert(e.spec_rates().take(e.spec_rates().len() as int) =~= e.spec_rates());
    if let Some(x) = r {
        lemma_rate_bytes_injective(x.spec_rates(), e.spec_rates());
    }
}

/// Reading the body written for an extended supported rates element of at most 255 rates gives
/// back its rates, whatever reading gives.
pub proof fn lemma_extended_supported_rates_roundtrip(
    e: ExtendedSupportedRatesElement,
    r: Option<ExtendedSupportedRatesElement>,
)
    requires
        e.spec_rates().len() <= 255,
        <ExtendedSupportedRatesElement as Element>::spec_read(e.spec_bytes(), r),
    ensures
        r matches Some(x) && x.spec_rates() == e.spec_rates(),
{
    assert(e.spec_rates().take(e.spec_rates().len() as int) =~= e.spec_rates());
    if let Some(x) = r {
        lemma_rate_bytes_injective(x.spec_rates(), e.spec_rates());
    }
}

} // verus!
