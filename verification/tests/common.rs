use ieee80211::common::aid::{MAX_AID, MIN_AID};
use ieee80211::common::wire::Error;
use ieee80211::common::ieee80211_list::IEEE80211List;
use ieee80211::common::{
    attach_fcs, strip_and_validate_fcs, AssociationID, Empty, FrameControlField, IEEE80211ReadList,
};
use ieee80211::elements::rsn::{IEEE80211CipherSuiteSelector, IEEE80211PMKID};
use ieee80211::frames::IEEE80211Frame;

#[test]
fn association_id_bounds() {
    assert!(AssociationID::new_checked(0).is_none());
    assert!(AssociationID::new_checked(MIN_AID).is_some());
    assert!(AssociationID::new_checked(MAX_AID).is_some());
    assert!(AssociationID::new_checked(2008).is_none());
    let aid = AssociationID::new_checked(42).unwrap();
    assert_eq!(aid.aid(), 42);
    assert_eq!(aid.into_bits(), 0xc000 | 42);
}

#[test]
fn fcs_attach_then_validate() {
    let mut buf = [0u8; 12];
    buf[..8].copy_from_slice(b"IEEE8021");
    let mut offset = 8;
    assert_eq!(attach_fcs(&mut buf, &mut offset), Ok(4));
    assert_eq!(offset, 12);
    assert_eq!(u32::from_le_bytes([buf[8], buf[9], buf[10], buf[11]]), crc32fast::hash(b"IEEE8021"));
    assert_eq!(strip_and_validate_fcs(&buf), Ok(&b"IEEE8021"[..]));
    buf[0] ^= 1;
    assert_eq!(strip_and_validate_fcs(&buf), Err(Error::BadInput));
    let mut short = [0u8; 10];
    let mut at = 8;
    assert_eq!(attach_fcs(&mut short, &mut at), Err(Error::TooShort));
    assert_eq!(at, 8);
}

#[test]
fn frame_roundtrip_with_fcs() {
    let frame = IEEE80211Frame { fcf: FrameControlField::from_bits(0x0080), body: vec![1, 2, 3] };
    let bytes = frame.to_bytes();
    assert_eq!(bytes.len(), frame.measure_with());
    assert_eq!(&bytes[..5], &[0x80, 0x00, 1, 2, 3]);
    assert!(strip_and_validate_fcs(&bytes).is_ok());
    let (read, len) = IEEE80211Frame::try_from_ctx(&bytes).unwrap();
    assert_eq!(len, bytes.len() - 4);
    assert_eq!(read, frame);
}

#[test]
fn read_list() {
    let bytes = [2u8, 0, 1, 2, 3, 4, 5, 6, 7, 8, 9];
    let (list, len) = IEEE80211ReadList::<u32, u16, 4>::try_from_ctx(&bytes).unwrap();
    assert_eq!(len, 10);
    assert_eq!(list.bytes, &bytes[2..10]);
    assert_eq!(list.element_count(), 2);
    assert_eq!(list.size_in_bytes(), 10);
    let mut buf = [0u8; 10];
    assert_eq!(list.try_into_ctx(&mut buf), Ok(10));
    assert_eq!(&buf[..], &bytes[..10]);
    assert!(matches!(
        IEEE80211ReadList::<u32, u16, 4>::try_from_ctx(&[3, 0, 1, 2]),
        Err(Error::TooShort)
    ));
}

#[test]
fn empty_takes_no_bytes() {
    assert_eq!(Empty::try_from_ctx(&[1, 2, 3]), Ok((Empty, 0)));
    let mut buf = [7u8; 2];
    assert_eq!(Empty.try_into_ctx(&mut buf), Ok(0));
    assert_eq!(buf, [7, 7]);
}

#[test]
fn read_list_items() {
    let bytes = [2u8, 0, 0x00, 0x0f, 0xac, 0x04, 0x00, 0x0f, 0xac, 0x02, 0xff];
    let (list, len) =
        IEEE80211ReadList::<IEEE80211CipherSuiteSelector, u16, 4>::try_from_ctx(&bytes).unwrap();
    assert_eq!(len, 10);
    assert_eq!(
        list.iter(),
        vec![IEEE80211CipherSuiteSelector::Ccmp128, IEEE80211CipherSuiteSelector::Tkip]
    );
    // A partial item at the end is left out.
    let partial = IEEE80211ReadList::<IEEE80211CipherSuiteSelector, u16, 4>::new(&bytes[2..9]);
    assert_eq!(partial.iter(), vec![IEEE80211CipherSuiteSelector::Ccmp128]);
    let pmkids = [7u8; 32];
    let list = IEEE80211ReadList::<IEEE80211PMKID, u16, 16>::new(&pmkids);
    assert_eq!(list.iter(), vec![IEEE80211PMKID([7; 16]), IEEE80211PMKID([7; 16])]);
}

#[test]
fn lists_as_ieee80211_lists() {
    let suites = vec![IEEE80211CipherSuiteSelector::Ccmp128, IEEE80211CipherSuiteSelector::Gcmp256];
    assert_eq!(IEEE80211List::element_count(&suites), 2);
    assert_eq!(IEEE80211List::size_in_bytes(&suites), 2 + 2 * 4);
    assert_eq!(IEEE80211List::iter(&suites), suites);
    let bytes = [0x00u8, 0x0f, 0xac, 0x04, 0x00, 0x0f, 0xac, 0x09];
    let read = IEEE80211ReadList::<IEEE80211CipherSuiteSelector, u16, 4>::new(&bytes);
    assert_eq!(IEEE80211List::element_count(&read), 2);
    assert_eq!(IEEE80211List::size_in_bytes(&read), 10);
    assert_eq!(IEEE80211List::iter(&read), suites);
}
