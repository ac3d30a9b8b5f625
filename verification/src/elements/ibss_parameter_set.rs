//! The IBSS parameter set element.
use crate::common::wire::{le_u16, lemma_u16_roundtrip, push_u16_le, read_u16_le, u16_le_bytes, write_all, Error};
use crate::elements::ElementID;
use core::time::Duration;
use crate::elements::Element;
use vstd::prelude::*;

verus! {

/// The length of a time unit (TU), in microseconds.
pub const TU_MICROS: u64 = 1024;

/// The whole microseconds of a duration, as `core::time::Duration::as_micros` gives them.
pub uninterp spec fn duration_micros(d: Duration) -> u128;

/// Calls `core::time::Duration::from_micros`, which gives a duration of `micros` microseconds:
/// its whole microseconds are `micros`.
#[verifier::external_body]
fn duration_from_micros(micros: u64) -> (r: Duration)
    ensures
        duration_micros(r) == micros as u128,
{
    Duration::from_micros(micros)
}

/// Calls `core::time::Duration::as_micros`, which gives the whole microseconds of `duration`.
#[verifier::external_body]
fn duration_as_micros(duration: Duration) -> (r: u128)
    ensures
        r == duration_micros(duration),
{
    duration.as_micros()
}

/// The IBSS parameter set element holds the ATIM window of an IBSS.
#[derive(Clone, Copy, Debug, Default, PartialEq, Eq, Hash, PartialOrd, Ord, Structural)]
pub struct IBSSParameterSetElement {
    /// The ATIM window, in time units.
    pub atim_window: u16,
}

impl IBSSParameterSetElement {
    /// The ATIM window in microseconds: 1024 per time unit.
    pub fn atim_window_in_micros(&self) -> (r: u64)
        ensures
            r == self.atim_window * 1024,
    {
        TU_MICROS * self.atim_window as u64
    }

    /// The ATIM window as a [Duration] of 1024 microseconds per time unit.
    pub fn atim_window_in_tu(&self) -> (r: Duration)
        ensures
            duration_micros(r) == self.atim_window * 1024,
    {
        duration_from_micros(self.atim_window_in_micros())
    }

    /// The element whose ATIM window is `micros` microseconds, in whole time units, cut to
    /// sixteen bits.
    pub fn from_atim_window_micros(micros: u128) -> (r: Self)
        ensures
            r.atim_window == (micros / 1024) % 0x1_0000,
    {
        IBSSParameterSetElement { atim_window: ((micros / 1024) % 0x1_0000) as u16 }
    }

    /// The element whose ATIM window is the duration, in whole time units, cut to sixteen bits.
    pub fn new(atim_window_duration: Duration) -> (r: Self)
        ensures
            r.atim_window == (duration_micros(atim_window_duration) / 1024) % 0x1_0000,
    {
        Self::from_atim_window_micros(duration_as_micros(atim_window_duration))
    }

    /// The length of the serialized body.
    pub fn measure_with(&self) -> (r: usize)
        ensures
            r == 2,
    {
        2
    }

    /// Read the ATIM window from the first two bytes.
    pub fn try_from_ctx(from: &[u8]) -> (r: Result<(Self, usize), Error>)
        ensures
            from@.len() < 2 ==> r == Err::<(Self, usize), Error>(Error::TooShort),
            from@.len() >= 2 ==> r == Ok::<(Self, usize), Error>(
                (IBSSParameterSetElement { atim_window: le_u16(from@, 0) }, 2),
            ),
    {
        if from.len() < 2 {
            return Err(Error::TooShort);
        }
        Ok((IBSSParameterSetElement { atim_window: read_u16_le(from, 0) }, 2))
    }

    /// Write the ATIM window to the start of `buf`.
    pub fn try_into_ctx(self, buf: &mut [u8]) -> (r: Result<usize, Error>)
        ensures
            final(buf)@.len() == old(buf)@.len(),
            2 <= old(buf)@.len() ==> r == Ok::<usize, Error>(2) && final(buf)@ == u16_le_bytes(
                self.atim_window,
            ) + old(buf)@.skip(2),
            2 > old(buf)@.len() ==> r == Err::<usize, Error>(Error::TooShort),
    {
        let mut bytes: Vec<u8> = Vec::new();
        push_u16_le(&mut bytes, self.atim_window);
        write_all(buf, bytes.as_slice())
    }
}

impl Element for IBSSParameterSetElement {
    type ReadType<'a> = IBSSParameterSetElement;

    open spec fn spec_body(&self) -> Seq<u8> {
        u16_le_bytes(self.atim_window)
    }

    fn body_bytes(&self) -> (r: Vec<u8>) {
        let mut out: Vec<u8> = Vec::new();
        push_u16_le(&mut out, self.atim_window);
        out
    }

    open spec fn spec_element_id() -> ElementID {
        ElementID::Id(0x06)
    }

    open spec fn spec_read<'a>(body: Seq<u8>, r: Option<IBSSParameterSetElement>) -> bool {
        r == if body.len() < 2 {
            None
        } else {
            Some(IBSSParameterSetElement { atim_window: le_u16(body, 0) })
        }
    }

    fn element_id() -> (r: ElementID) {
        ElementID::Id(0x06)
    }

    fn read<'a>(body: &'a [u8]) -> (r: Option<IBSSParameterSetElement>) {
        match IBSSParameterSetElement::try_from_ctx(body) {
            Ok((e, _)) => Some(e),
            Err(_) => None,
        }
    }
}


/// Reading a written element body gives the element back.
pub proof fn lemma_ibss_parameter_set_roundtrip(e: IBSSParameterSetElement)
    ensures
        <IBSSParameterSetElement as Element>::spec_read(u16_le_bytes(e.atim_window), Some(e)),
{
    lemma_u16_roundtrip(e.atim_window, Seq::empty(), Seq::empty());
    assert(Seq::<u8>::empty() + u16_le_bytes(e.atim_window) + Seq::<u8>::empty() =~= u16_le_bytes(
        e.atim_window,
    ));
}

} // verus!
