use ieee80211::common::wire::Error;
use ieee80211::common::AssociationID;
use ieee80211::elements::ht::{
    generate_supported_rx_mcs_set, AMpduParameters, ASELCapability, HTExtendedCapabilities,
    TransmitBeamformingCapabilities, HTCapabilitiesElement, HTCapabilitiesInfo, HTOperationElement,
    HTOperationInformation, SecondaryChannelOffset, SmPwSave, SupportedMCSSet,
    SupportedMCSSetFlags,
};
use ieee80211::elements::ibss_parameter_set::IBSSParameterSetElement;
use ieee80211::elements::kde::{GtkInfo, GtkKde, LifetimeKde, NonceKde, PmkidKde};
use ieee80211::elements::mesh_id::MeshIDElement;
use ieee80211::elements::owe_transition::{BandAndChannelInfo, OWETransitionModeElement};
use ieee80211::elements::rates::{EncodedRate, ExtendedSupportedRatesElement, SupportedRatesElement};
use ieee80211::elements::rsn::{
    IEEE80211AKMType, IEEE80211CipherSuiteSelector, IEEE80211PMKID, OptionalFeatureConfig,
    RSNCapabilities, RSNElement,
};
use ieee80211::elements::ssid::{SSIDElement, SSIDElementType, SSIDLikeElement};
use ieee80211::elements::tim::{TIMBitmap, TIMBitmapControl, TIMElement};
use ieee80211::elements::vht::{VHTMCSMap, VHTMCSSupport};
use ieee80211::elements::element_chain::{ChainElement, ElementChain, ElementChainEnd};
use ieee80211::elements::kde::MacAddressKde;
use ieee80211::elements::types::{BSSLoadRepr, ElementTypeRepr, SSIDRepr};
use ieee80211::elements::{
    write_element, BSSLoadElement, Element, ElementID, RawIEEE80211ExtElement, ReadElements,
};

fn aids(values: &[u16]) -> Vec<AssociationID> {
    values.iter().map(|v| AssociationID::new_checked(*v).unwrap()).collect()
}

fn aid_values(ids: &[AssociationID]) -> Vec<u16> {
    ids.iter().map(|id| id.aid()).collect()
}

#[test]
fn tim_static_bitmap_lists_low_aids() {
    let bitmap = TIMBitmap::new_static(false, &aids(&[10, 3, 1, 3]));
    assert!(!bitmap.traffic_indicator());
    assert_eq!(aid_values(&bitmap.aid_iter().unwrap()), vec![1, 3, 10]);
}

#[test]
fn tim_static_bitmap_without_aids_is_empty() {
    let bitmap = TIMBitmap::new_static(false, &[]);
    assert_eq!(bitmap.aid_iter().unwrap(), vec![]);
}

#[test]
fn tim_static_bitmap_multicast_marks_bit_one() {
    // With the lowest AID in octet zero, multicast traffic also sets bit one of that octet.
    let bitmap = TIMBitmap::new_static(true, &aids(&[5]));
    assert!(bitmap.traffic_indicator());
    assert_eq!(aid_values(&bitmap.aid_iter().unwrap()), vec![1, 5]);
    assert_eq!(bitmap.to_bytes(), vec![1, 0b0010_0010]);
    // With the lowest AID further up, only the traffic indicator tells of multicast traffic.
    let high = TIMBitmap::new_static(true, &aids(&[42]));
    assert!(high.traffic_indicator());
    assert_eq!(aid_values(&high.aid_iter().unwrap()), vec![42]);
}

#[test]
fn tim_static_bitmap_gives_back_high_aids() {
    let bitmap = TIMBitmap::new_static(false, &aids(&[42, 69, 1337]));
    assert!(!bitmap.traffic_indicator());
    assert_eq!(aid_values(&bitmap.aid_iter().unwrap()), vec![42, 69, 1337]);
    // AID 42 lies in octet 5, so N1 is 4 and the bitmap runs from octet 4 to octet 167.
    let bytes = bitmap.to_bytes();
    assert_eq!(bytes[0], 4);
    assert_eq!(bytes.len(), 1 + 164);
    assert_eq!(bitmap.measure_with(), bytes.len());
    assert_eq!(bytes[1], 0);
    assert_eq!(bytes[2], 1 << 2);
}

#[test]
fn tim_aid_iter_reads_first_bit() {
    let bytes = [0x01u8];
    let bitmap = TIMBitmap::new_raw(TIMBitmapControl::new().with_n1(2), Some(&bytes[..])).unwrap();
    assert_eq!(aid_values(&bitmap.aid_iter().unwrap()), vec![16]);
    // AID zero is never listed.
    let zero = TIMBitmap::new_raw(TIMBitmapControl::new(), Some(&bytes[..])).unwrap();
    assert_eq!(zero.aid_iter().unwrap(), vec![]);
}

#[test]
fn tim_control_n1() {
    let control = TIMBitmapControl::new().with_n1(7);
    assert_eq!(control.n1(), 6);
    assert_eq!(control.bitmap_offset(), 3);
    let mut other = TIMBitmapControl::new().with_traffic_indicator(true);
    other.set_n1(10);
    assert_eq!(other.n1(), 10);
    assert!(other.traffic_indicator());
}

#[test]
fn tim_raw_bitmap_bounds() {
    let bytes = [0u8; 200];
    assert!(TIMBitmap::new_raw(TIMBitmapControl::new().with_n1(50), Some(&bytes[..])).is_some());
    assert!(TIMBitmap::new_raw(TIMBitmapControl::new().with_n1(52), Some(&bytes[..])).is_none());
}

#[test]
fn tim_element_roundtrip() {
    let body = [2u8, 3, 0b0000_0010, 0b0000_0110, 0b1000_0000];
    let (element, len) = TIMElement::try_from_ctx(&body).unwrap();
    assert_eq!(len, 5);
    assert_eq!(element.dtim_count, 2);
    assert_eq!(element.dtim_period, 3);
    let bitmap = element.bitmap.unwrap();
    // N1 is two, so the bitmap starts at AID 16.
    assert_eq!(aid_values(&bitmap.aid_iter().unwrap()), vec![17, 18, 31]);
    assert_eq!(element.to_bytes(), body.to_vec());
    assert_eq!(element.measure_with(), 5);
}

#[test]
fn tim_element_dtim_check() {
    assert!(matches!(TIMElement::try_from_ctx(&[4, 3]), Err(Error::BadInput)));
    assert!(matches!(TIMElement::try_from_ctx(&[4]), Err(Error::TooShort)));
    let (element, len) = TIMElement::try_from_ctx(&[1, 3]).unwrap();
    assert_eq!(len, 2);
    assert!(element.bitmap.is_none());
    let bad: TIMElement<&[u8]> = TIMElement { dtim_count: 5, dtim_period: 1, bitmap: None };
    let mut buf = [0u8; 8];
    assert_eq!(bad.try_into_ctx(&mut buf), Err(Error::BadInput));
    assert_eq!(TIMElement::<&[u8]>::check_dtim_parameters(3, 3), Ok(()));
}

fn wpa2_personal() -> RSNElement {
    RSNElement::new()
        .with_group_data_cipher_suite(IEEE80211CipherSuiteSelector::Ccmp128)
        .with_pairwise_cipher_suite_list(vec![IEEE80211CipherSuiteSelector::Ccmp128])
        .with_akm_list(vec![IEEE80211AKMType::Psk])
}

#[test]
fn rsn_wpa2_personal_bytes() {
    let bytes = wpa2_personal().to_bytes();
    assert_eq!(
        bytes,
        vec![
            0x01, 0x00, 0x00, 0x0f, 0xac, 0x04, 0x01, 0x00, 0x00, 0x0f, 0xac, 0x04, 0x01, 0x00, 0x00,
            0x0f, 0xac, 0x02
        ]
    );
    let (read, len) = RSNElement::try_from_ctx(&bytes).unwrap();
    assert_eq!(len, bytes.len());
    assert_eq!(read.group_data_cipher_suite, Some(IEEE80211CipherSuiteSelector::Ccmp128));
    assert_eq!(read.pairwise_cipher_suite_list, Some(vec![IEEE80211CipherSuiteSelector::Ccmp128]));
    assert_eq!(read.akm_list, Some(vec![IEEE80211AKMType::Psk]));
    assert!(read.rsn_capbilities.is_none());
}

#[test]
fn rsn_full_roundtrip() {
    let element = wpa2_personal()
        .with_rsn_capabilities(
            RSNCapabilities::new().with_mfp_config(OptionalFeatureConfig::Capable),
        )
        .with_pmkid_list(vec![IEEE80211PMKID([7; 16]), IEEE80211PMKID([9; 16])])
        .with_group_management_cipher_suite(IEEE80211CipherSuiteSelector::BipCmac128);
    let bytes = element.to_bytes();
    let (read, len) = RSNElement::try_from_ctx(&bytes).unwrap();
    assert_eq!(len, bytes.len());
    assert_eq!(read.rsn_capbilities, element.rsn_capbilities);
    assert_eq!(read.pmkid_list, element.pmkid_list);
    assert_eq!(read.group_management_cipher_suite, Some(IEEE80211CipherSuiteSelector::BipCmac128));
    // Each PMKID counts sixteen bytes.
    assert_eq!(element.measure_with(), 2 + 4 + 6 + 6 + 2 + 2 + 2 * 16 + 4);
    assert_eq!(element.measure_with(), bytes.len());
}

#[test]
fn rsn_single_pmkid_layout() {
    let element = RSNElement::new().with_pmkid_list(vec![IEEE80211PMKID([0; 16])]);
    assert_eq!(element.measure_with(), 30);
    let mut buf = [0xffu8; 64];
    assert_eq!(element.try_into_ctx(&mut buf), Ok(30));
    assert_eq!(&buf[..14], &[0x01, 0x00, 0x00, 0x0f, 0xac, 0x04, 0, 0, 0, 0, 0, 0, 0x01, 0x00]);
    assert_eq!(&buf[14..30], &[0u8; 16]);
    let (read, len) = RSNElement::try_from_ctx(&buf[..30]).unwrap();
    assert_eq!(len, 30);
    assert_eq!(read.pmkid_list, Some(vec![IEEE80211PMKID([0; 16])]));
    assert_eq!(read.group_management_cipher_suite, None);
}

#[test]
fn rsn_builders_fill_defaults() {
    let element = RSNElement::new().with_group_management_cipher_suite(IEEE80211CipherSuiteSelector::Gcmp256);
    assert_eq!(element.group_data_cipher_suite, Some(IEEE80211CipherSuiteSelector::Ccmp128));
    assert_eq!(element.pairwise_cipher_suite_list, Some(vec![]));
    assert_eq!(element.akm_list, Some(vec![]));
    assert_eq!(element.rsn_capbilities, Some(RSNCapabilities::new()));
    assert_eq!(element.pmkid_list, Some(vec![]));
}

#[test]
fn rsn_errors_and_truncation() {
    assert!(matches!(RSNElement::try_from_ctx(&[1]), Err(Error::TooShort)));
    assert!(matches!(RSNElement::try_from_ctx(&[2, 0]), Err(Error::BadInput)));
    let (read, len) = RSNElement::try_from_ctx(&[1, 0, 0x00, 0x0f, 0xac, 0x02, 5, 0]).unwrap();
    // The pairwise list doesn't fit, so reading stops after its count.
    assert_eq!(len, 8);
    assert_eq!(read.group_data_cipher_suite, Some(IEEE80211CipherSuiteSelector::Tkip));
    assert!(read.pairwise_cipher_suite_list.is_none());
}

#[test]
fn cipher_suite_selectors() {
    assert_eq!(
        IEEE80211CipherSuiteSelector::with_cipher_suite_selector(0x04ac0f00),
        IEEE80211CipherSuiteSelector::Ccmp128
    );
    assert_eq!(IEEE80211CipherSuiteSelector::Ccmp128.cipher_suite_selector(), 0x04ac0f00);
    let unknown = IEEE80211CipherSuiteSelector::with_cipher_suite_selector(0x01f2506f);
    assert_eq!(unknown, IEEE80211CipherSuiteSelector::Unknown { cipher_suite_selector: 0x01f2506f });
    assert_eq!(unknown.cipher_suite_selector(), 0x01f2506f);
    assert_eq!(IEEE80211CipherSuiteSelector::Ccmp128.tk_len(), Some(16));
    assert_eq!(IEEE80211CipherSuiteSelector::Tkip.tk_len(), Some(32));
    assert_eq!(IEEE80211CipherSuiteSelector::Wep40.tk_len(), Some(5));
    assert_eq!(IEEE80211CipherSuiteSelector::Wep104.tk_len(), Some(13));
    assert_eq!(IEEE80211CipherSuiteSelector::Tkip.mic_len(), Some(8));
    assert_eq!(IEEE80211CipherSuiteSelector::Gcmp256.mic_len(), Some(16));
    assert_eq!(IEEE80211CipherSuiteSelector::Wep40.mic_len(), None);
    assert_eq!(unknown.tk_len(), None);
}

#[test]
fn akm_key_lengths() {
    assert_eq!(IEEE80211AKMType::Psk.kck_len(), Some(16));
    assert_eq!(IEEE80211AKMType::WpaSha384SuiteB.kck_len(), Some(24));
    assert_eq!(IEEE80211AKMType::FilsSha384Aes512.kek_len(), Some(64));
    assert_eq!(IEEE80211AKMType::FTOverFilsSha256Aes256.kck2_len(), Some(16));
    assert_eq!(IEEE80211AKMType::FTOverFilsSha384Aes512.kek2_len(), Some(32));
    assert_eq!(IEEE80211AKMType::FilsSha256Aes256.key_mic_len(), Some(0));
    assert_eq!(IEEE80211AKMType::Sae.key_mic_len(), Some(16));
    assert_eq!(IEEE80211AKMType::NoAKM.key_mic_len(), None);
}

#[test]
fn optional_feature_config_bits() {
    assert_eq!(OptionalFeatureConfig::from_bits(OptionalFeatureConfig::Capable.into_bits()), OptionalFeatureConfig::Capable);
    for config in [
        OptionalFeatureConfig::Disabled,
        OptionalFeatureConfig::Capable,
        OptionalFeatureConfig::Required,
        OptionalFeatureConfig::Invalid,
    ] {
        assert_eq!(OptionalFeatureConfig::from_bits(config.into_bits()), config);
    }
    for bits in 0u8..4 {
        assert_eq!(OptionalFeatureConfig::from_bits(bits).into_bits(), bits);
    }
    assert_eq!(OptionalFeatureConfig::from_bits(0b111), OptionalFeatureConfig::Required);
    let capabilities = RSNCapabilities::new().with_mfp_config(OptionalFeatureConfig::Required);
    assert_eq!(capabilities.mfp_config(), OptionalFeatureConfig::Required);
    assert!(OptionalFeatureConfig::Required.is_compatible(&OptionalFeatureConfig::Required));
    assert!(OptionalFeatureConfig::Capable.is_compatible(&OptionalFeatureConfig::Capable));
    assert!(OptionalFeatureConfig::Required.is_compatible(&OptionalFeatureConfig::Capable));
    assert!(OptionalFeatureConfig::Capable.is_compatible(&OptionalFeatureConfig::Required));
    assert!(OptionalFeatureConfig::Capable.is_compatible(&OptionalFeatureConfig::Disabled));
    assert!(OptionalFeatureConfig::Disabled.is_compatible(&OptionalFeatureConfig::Disabled));
    assert!(!OptionalFeatureConfig::Required.is_compatible(&OptionalFeatureConfig::Disabled));
    assert!(!OptionalFeatureConfig::Disabled.is_compatible(&OptionalFeatureConfig::Required));
}

#[test]
fn ssid_element() {
    let ssid: SSIDElement = SSIDLikeElement::<SSIDElementType>::new("OpenRF").unwrap();
    assert_eq!(ssid.ssid(), "OpenRF");
    assert_eq!(ssid.length_in_bytes(), 6);
    assert!(!ssid.is_hidden());
    assert!(SSIDElement::new("Some unreasonably long SSID, for whatever reason.").is_none());
    let (read, len) = SSIDElement::try_from_ctx(b"OpenRF").unwrap();
    assert_eq!((read.ssid(), len), ("OpenRF", 6));
    assert!(matches!(SSIDElement::try_from_ctx(&[0xff, 0xfe]), Err(Error::BadInput)));
    assert!(matches!(SSIDElement::try_from_ctx(&[b'a'; 33]), Err(Error::TooBig)));
    assert!(SSIDElement::new("").unwrap().is_hidden());
    assert_eq!(SSIDElement::element_id(), ElementID::Id(0));
}

#[test]
fn mesh_id_element() {
    let mesh_id = MeshIDElement::new("meshtest").unwrap();
    assert_eq!(mesh_id.mesh_id(), "meshtest");
    let mut buf = [0u8; 8];
    assert_eq!(mesh_id.try_into_ctx(&mut buf), Ok(8));
    assert_eq!(&buf, b"meshtest");
    assert_eq!(MeshIDElement::element_id(), ElementID::Id(114));
}

#[test]
fn rates() {
    let rate = EncodedRate::from_rate_in_kbps(1500, true);
    assert_eq!(rate.rate(), 3);
    assert!(rate.is_b());
    assert_eq!(rate.rate_in_kbps(), 1500);
    let nine: Vec<EncodedRate> = (1..10).map(|r| EncodedRate::from_rate_in_kbps(r * 500, false)).collect();
    assert!(SupportedRatesElement::new(nine.clone()).is_none());
    let element = SupportedRatesElement::new_unchecked(nine.clone());
    let mut buf = [0u8; 16];
    assert_eq!(element.try_into_ctx(&mut buf), Ok(8));
    assert_eq!(&buf[..8], &[1, 2, 3, 4, 5, 6, 7, 8]);
    assert!(matches!(SupportedRatesElement::try_from_ctx(&[1; 9]), Err(Error::TooBig)));
    let extended = ExtendedSupportedRatesElement::new(nine).unwrap();
    assert_eq!(extended.try_into_ctx(&mut buf), Ok(9));
    let (read, len) = ExtendedSupportedRatesElement::try_from_ctx(&buf[..9]).unwrap();
    assert_eq!(len, 9);
    assert_eq!(read.supported_rates().len(), 9);
}

#[test]
fn ibss_parameter_set() {
    let element = IBSSParameterSetElement { atim_window: 3 };
    assert_eq!(element.atim_window_in_micros(), 3072);
    assert_eq!(element.atim_window_in_tu(), std::time::Duration::from_micros(3072));
    assert_eq!(IBSSParameterSetElement::new(std::time::Duration::from_micros(5000)).atim_window, 4);
    assert_eq!(IBSSParameterSetElement::try_from_ctx(&[0x34, 0x12]), Ok((IBSSParameterSetElement { atim_window: 0x1234 }, 2)));
}

#[test]
fn ht_capabilities_roundtrip() {
    let element = HTCapabilitiesElement {
        ht_capabilities_info: HTCapabilitiesInfo::new()
            .with_sm_power_save(SmPwSave::Disabled)
            .with_short_gi_20mhz(true),
        ampdu_parameters: AMpduParameters::new(),
        supported_mcs_set: SupportedMCSSet {
            supported_rx_mcs_set: generate_supported_rx_mcs_set(&[true; 8]),
            supported_rx_mcs_set_flags: SupportedMCSSetFlags::new().with_tx_mcs_set_defined(true),
        },
        extended_capabilities: HTExtendedCapabilities::new(),
        transmit_beamforming_capabilities: TransmitBeamformingCapabilities::new(),
        asel_capability: ASELCapability::new(),
    };
    let bytes = element.to_bytes();
    assert_eq!(bytes.len(), 26);
    let (read, len) = HTCapabilitiesElement::try_from_ctx(&bytes).unwrap();
    assert_eq!(len, 26);
    assert_eq!(read, element);
    assert!(matches!(HTCapabilitiesElement::try_from_ctx(&bytes[..25]), Err(Error::TooShort)));
}

#[test]
fn mcs_set_indices() {
    let set = generate_supported_rx_mcs_set(&[true, false, true]);
    assert_eq!(set, [0b101, 0, 0, 0, 0, 0, 0, 0, 0, 0]);
    let mcs = SupportedMCSSet { supported_rx_mcs_set: set, supported_rx_mcs_set_flags: SupportedMCSSetFlags::new() };
    let indices = mcs.supported_rx_mcs_indices();
    assert_eq!(indices.len(), 80);
    assert_eq!(&indices[..4], &[true, false, true, false]);
    let all = generate_supported_rx_mcs_set(&[true; 100]);
    assert_eq!(all, [0xff, 0xff, 0xff, 0xff, 0xff, 0xff, 0xff, 0xff, 0xff, 0x0f]);
}

#[test]
fn ht_operation_parse() {
    let mut body = vec![6u8, 0x09, 0x00, 0x00, 0x00, 0x00];
    body.extend_from_slice(&[0xff; 10]);
    body.extend_from_slice(&[0, 0, 0, 0]);
    let (read, len) = HTOperationElement::try_from_ctx(&body).unwrap();
    assert_eq!(len, 22);
    assert_eq!(read.primary_channel, 6);
    assert_eq!(read.ht_operation_information.secondary_channel_offset(), SecondaryChannelOffset::Above);
    assert!(read.ht_operation_information.rifs_permitted());
    let element = HTOperationElement {
        primary_channel: 1,
        ht_operation_information: HTOperationInformation::from_bits(0x0102_0304_0506_0708),
        basic_ht_mcs_set: SupportedMCSSet::default(),
    };
    let written = element.to_bytes();
    // The five low-order bytes of the operation information are written, least significant first.
    assert_eq!(&written[..6], &[1, 0x08, 0x07, 0x06, 0x05, 0x04]);
    assert_eq!(written.len(), 22);
    let (reread, _) = HTOperationElement::try_from_ctx(&written).unwrap();
    assert_eq!(reread.ht_operation_information.into_bits(), 0x04_0506_0708);
}

#[test]
fn ht_operation_roundtrip() {
    let element = HTOperationElement {
        primary_channel: 11,
        ht_operation_information: HTOperationInformation::from_bits(1),
        basic_ht_mcs_set: SupportedMCSSet {
            supported_rx_mcs_set: [1, 2, 3, 4, 5, 6, 7, 8, 9, 10],
            supported_rx_mcs_set_flags: SupportedMCSSetFlags::new(),
        },
    };
    let written = element.to_bytes();
    assert_eq!(&written[..6], &[11, 1, 0, 0, 0, 0]);
    let mut buf = [0xffu8; 22];
    assert_eq!(element.try_into_ctx(&mut buf), Ok(22));
    assert_eq!(&buf[..], &written[..]);
    let (read, len) = HTOperationElement::try_from_ctx(&buf).unwrap();
    assert_eq!(len, 22);
    assert_eq!(read, element);
}

#[test]
fn mcs_set_flags_tx_definition() {
    let undefined = SupportedMCSSetFlags::new();
    assert!(undefined.is_tx_mcs_undefined());
    assert!(!undefined.is_tx_rx_mcs_defined_equal());
    let equal = undefined.with_tx_mcs_set_defined(true);
    assert!(!equal.is_tx_mcs_undefined());
    assert!(equal.is_tx_rx_mcs_defined_equal());
    assert!(!equal.may_tx_mcs_set_differ_from_rx());
    let differ = equal
        .with_tx_rx_mcs_set_not_equal(true)
        .with_tx_maximum_number_spatial_streams_supported(1)
        .with_tx_unequal_modulation_supported(true);
    assert!(!differ.is_tx_mcs_undefined());
    assert!(!differ.is_tx_rx_mcs_defined_equal());
    assert!(differ.may_tx_mcs_set_differ_from_rx());
}

#[test]
fn owe_transition_roundtrip() {
    let element = OWETransitionModeElement {
        bssid: [1, 2, 3, 4, 5, 6],
        ssid: "owe",
        band_and_channel_info: Some(BandAndChannelInfo { band: 81, channel: 6 }),
    };
    let bytes = element.to_bytes();
    assert_eq!(bytes, vec![1, 2, 3, 4, 5, 6, 3, b'o', b'w', b'e', 81, 6]);
    let (read, len) = OWETransitionModeElement::try_from_ctx(&bytes).unwrap();
    assert_eq!(len, bytes.len());
    assert_eq!(read, element);
    let (no_info, len) = OWETransitionModeElement::try_from_ctx(&bytes[..11]).unwrap();
    assert_eq!(len, 10);
    assert!(no_info.band_and_channel_info.is_none());
    assert!(matches!(OWETransitionModeElement::try_from_ctx(&bytes[..8]), Err(Error::TooShort)));
}

#[test]
fn kdes() {
    let (gtk, len) = GtkKde::try_from_ctx(&[0x05, 0x00, 1, 2, 3]).unwrap();
    assert_eq!(len, 5);
    assert_eq!(gtk.gtk_info.key_id(), 1);
    assert!(gtk.gtk_info.tx());
    assert_eq!(gtk.gtk, &[1, 2, 3]);
    let mut buf = [0u8; 4];
    assert_eq!(LifetimeKde(0x01020304).try_into_ctx(&mut buf), Ok(4));
    assert_eq!(buf, [1, 2, 3, 4]);
}

#[test]
fn ext_element_and_matching() {
    let (ext, len) = RawIEEE80211ExtElement::try_from_ctx(&[35, 1, 2]).unwrap();
    assert_eq!((ext.ext_id, ext.slice, len), (35, &[1u8, 2][..], 1));
    let mut bytes = write_element(ElementID::Id(0), b"ssid");
    bytes.extend(write_element(ElementID::ExtId(35), &[9, 9]));
    bytes.extend(write_element(ElementID::Id(0), b"two"));
    let elements = ReadElements { bytes: &bytes };
    let ssids = elements.get_matching_elements_raw(ElementID::Id(0));
    assert_eq!(ssids.len(), 2);
    assert_eq!(ssids[1].slice, b"two");
    let ext = elements.get_first_element_raw(ElementID::ExtId(35)).unwrap();
    assert_eq!(ext.slice, &[35, 9, 9]);
    assert!(elements.get_first_element_raw(ElementID::Id(1)).is_none());
}

#[test]
fn typed_elements_are_found_and_read() {
    let mut bytes = write_element(ElementID::Id(0), b"first");
    bytes.extend(write_element(ElementID::Id(0x0b), &[0x02, 0x01, 0x80, 0x10, 0x00]));
    bytes.extend(write_element(ElementID::Id(0), b"second"));
    let elements = ReadElements { bytes: &bytes };
    let ssid = elements.get_first_element::<SSIDElement>().unwrap();
    assert_eq!(ssid.ssid(), "first");
    let ssids = elements.get_matching_elements::<SSIDElement>();
    assert_eq!(ssids.len(), 2);
    assert_eq!(ssids[1].ssid(), "second");
    let load = elements.get_first_element::<BSSLoadElement>().unwrap();
    assert_eq!(load.station_count, 0x0102);
    assert_eq!(load.channel_utilization, 0x80);
    assert_eq!(load.available_admission_capacity, 0x0010);
    assert!(elements.get_first_element::<IBSSParameterSetElement>().is_none());
}

#[test]
fn unreadable_typed_elements_are_skipped() {
    // An SSID that isn't UTF-8 can't be read; the next one is found instead.
    let mut bytes = write_element(ElementID::Id(0), &[0xff, 0xfe]);
    bytes.extend(write_element(ElementID::Id(0), b"valid"));
    let elements = ReadElements { bytes: &bytes };
    assert_eq!(elements.get_first_element::<SSIDElement>().unwrap().ssid(), "valid");
    assert_eq!(elements.get_matching_elements::<SSIDElement>().len(), 1);
    let raw = elements.get_first_element_raw(ElementID::Id(0)).unwrap();
    assert!(ReadElements::parse_raw_element::<SSIDElement>(raw).is_none());
}

#[test]
fn vendor_specific_typed_elements_skip_their_prefix() {
    let id = MacAddressKde::element_id();
    let bytes = write_element(id, &[1, 2, 3, 4, 5, 6]);
    assert_eq!(&bytes[..6], &[0xdd, 10, 0x00, 0x0f, 0xac, 3]);
    let elements = ReadElements { bytes: &bytes };
    let kde = elements.get_first_element::<MacAddressKde>().unwrap();
    assert_eq!(kde.0, [1, 2, 3, 4, 5, 6]);
    assert!(elements.get_first_element::<LifetimeKde>().is_none());
}

#[test]
fn tim_elements_compare_across_bitmap_types() {
    let element = TIMElement {
        dtim_count: 1,
        dtim_period: 3,
        bitmap: Some(TIMBitmap::new_static(false, &aids(&[2, 9]))),
    };
    let bytes = element.to_bytes();
    let (read, _) = TIMElement::<&[u8]>::try_from_ctx(&bytes).unwrap();
    assert!(read.eq(&element));
    assert!(element.eq(&read));
    let fewer = TIMElement {
        dtim_count: 1,
        dtim_period: 3,
        bitmap: Some(TIMBitmap::new_static(false, &aids(&[2]))),
    };
    assert!(!fewer.eq(&element));
    let without: TIMElement<&[u8]> = TIMElement { dtim_count: 1, dtim_period: 3, bitmap: None };
    assert!(!without.eq(&element));
    assert!(without.eq(&without));
}

#[test]
fn rsn_elements_compare_by_fields() {
    let element = wpa2_personal().with_pmkid_list(vec![IEEE80211PMKID([7; 16])]);
    let bytes = element.to_bytes();
    let (read, _) = RSNElement::try_from_ctx(&bytes).unwrap();
    assert!(read == element);
    assert!(wpa2_personal() != element);
    let other_pmkid = wpa2_personal().with_pmkid_list(vec![IEEE80211PMKID([8; 16])]);
    assert!(other_pmkid != element);
    let other_akm = RSNElement::new()
        .with_group_data_cipher_suite(IEEE80211CipherSuiteSelector::Ccmp128)
        .with_pairwise_cipher_suite_list(vec![IEEE80211CipherSuiteSelector::Ccmp128])
        .with_akm_list(vec![IEEE80211AKMType::Sae]);
    assert!(other_akm != wpa2_personal());
}

#[test]
fn rates_elements_compare_by_rates() {
    let rates = vec![EncodedRate::from_bits(0x82), EncodedRate::from_bits(0x0c)];
    let a = SupportedRatesElement::new(rates.clone()).unwrap();
    let b = SupportedRatesElement::new(rates.clone()).unwrap();
    assert!(a == b);
    let c = SupportedRatesElement::new(vec![EncodedRate::from_bits(0x82)]).unwrap();
    assert!(a != c);
    let e = ExtendedSupportedRatesElement::new(rates).unwrap();
    assert!(e == ExtendedSupportedRatesElement::new_unchecked(vec![
        EncodedRate::from_bits(0x82),
        EncodedRate::from_bits(0x0c)
    ]));
}

#[test]
fn kde_roundtrips() {
    let mut buf = [0u8; 40];
    assert_eq!(MacAddressKde([1, 2, 3, 4, 5, 6]).try_into_ctx(&mut buf), Ok(6));
    assert_eq!(MacAddressKde::try_from_ctx(&buf[..6]), Ok((MacAddressKde([1, 2, 3, 4, 5, 6]), 6)));
    assert_eq!(NonceKde([9; 32]).try_into_ctx(&mut buf), Ok(32));
    assert_eq!(NonceKde::try_from_ctx(&buf[..32]), Ok((NonceKde([9; 32]), 32)));
    assert_eq!(PmkidKde(IEEE80211PMKID([4; 16])).try_into_ctx(&mut buf), Ok(16));
    assert_eq!(
        PmkidKde::try_from_ctx(&buf[..16]),
        Ok((PmkidKde(IEEE80211PMKID([4; 16])), 16))
    );
    assert_eq!(LifetimeKde(43200).try_into_ctx(&mut buf), Ok(4));
    assert_eq!(LifetimeKde::try_from_ctx(&buf[..4]), Ok((LifetimeKde(43200), 4)));
    let gtk = GtkKde { gtk_info: GtkInfo::new().with_key_id(2).with_tx(true), gtk: &[7; 16] };
    assert_eq!(gtk.try_into_ctx(&mut buf), Ok(18));
    let (read, len) = GtkKde::try_from_ctx(&buf[..18]).unwrap();
    assert_eq!(len, 18);
    assert_eq!(read.gtk_info, gtk.gtk_info);
    assert_eq!(read.gtk, gtk.gtk);
}

#[test]
fn ibss_and_mesh_id_roundtrips() {
    let element = IBSSParameterSetElement { atim_window: 0xbeef };
    let mut buf = [0u8; 32];
    assert_eq!(element.try_into_ctx(&mut buf), Ok(2));
    assert_eq!(IBSSParameterSetElement::try_from_ctx(&buf[..2]), Ok((element, 2)));
    let mesh_id = MeshIDElement::new("mesh-é").unwrap();
    assert_eq!(mesh_id.try_into_ctx(&mut buf), Ok(7));
    let (read, len) = MeshIDElement::try_from_ctx(&buf[..7]).unwrap();
    assert_eq!(len, 7);
    assert_eq!(read.mesh_id(), "mesh-é");
}

#[test]
fn supported_rates_roundtrip() {
    let rates: Vec<EncodedRate> =
        [0x82u8, 0x84, 0x8b, 0x96, 0x0c, 0x12, 0x18, 0x24].iter().map(|b| EncodedRate::from_bits(*b)).collect();
    let element = SupportedRatesElement::new(rates.clone()).unwrap();
    let mut buf = [0u8; 8];
    assert_eq!(element.try_into_ctx(&mut buf), Ok(8));
    let (read, len) = SupportedRatesElement::try_from_ctx(&buf).unwrap();
    assert_eq!(len, 8);
    assert_eq!(read.supported_rates(), &rates);
}

#[test]
fn ext_element_roundtrip() {
    let element = RawIEEE80211ExtElement { ext_id: 35, slice: &[1, 2, 3] };
    let mut buf = [0u8; 4];
    assert_eq!(element.try_into_ctx(&mut buf), Ok(4));
    let (read, _) = RawIEEE80211ExtElement::try_from_ctx(&buf).unwrap();
    assert_eq!(read, element);
}

#[test]
fn element_chain_writes_its_elements_in_order() {
    let chain = ElementChainEnd::new(SSIDElement::new("OpenRF").unwrap())
        .append(IBSSParameterSetElement { atim_window: 5 })
        .append(BSSLoadElement {
            station_count: 3,
            channel_utilization: 0x40,
            available_admission_capacity: 0x0102,
        });
    let mut expected = write_element(ElementID::Id(0), b"OpenRF");
    expected.extend(write_element(ElementID::Id(6), &[5, 0]));
    expected.extend(write_element(ElementID::Id(0x0b), &[3, 0, 0x40, 0x02, 0x01]));
    assert_eq!(chain.to_bytes(), expected);
    assert_eq!(chain.measure_with(), expected.len());
    let mut buf = vec![0u8; expected.len()];
    assert_eq!(chain.try_into_ctx(&mut buf), Ok(expected.len()));
    assert_eq!(buf, expected);
    let mut short = vec![0u8; expected.len() - 1];
    assert_eq!(chain.try_into_ctx(&mut short), Err(Error::TooShort));
    let elements = ReadElements { bytes: &expected };
    assert_eq!(elements.get_first_element::<SSIDElement>().unwrap().ssid(), "OpenRF");
    assert_eq!(elements.get_first_element::<BSSLoadElement>().unwrap().station_count, 3);
}

#[test]
fn element_type_reprs_stand_for_their_elements() {
    let bytes = write_element(ElementID::Id(0), b"repr");
    let elements = ReadElements { bytes: &bytes };
    let ssid = elements
        .get_first_element::<<SSIDRepr as ElementTypeRepr>::ElementType<'_>>()
        .unwrap();
    assert_eq!(ssid.ssid(), "repr");
    assert_eq!(<BSSLoadRepr as ElementTypeRepr>::ElementType::element_id(), ElementID::Id(0x0b));
}

#[test]
fn tim_static_bitmap_single_high_aid() {
    // AID 42 sits in octet five, so N1 is four and the bitmap holds octets four and five.
    let bitmap = TIMBitmap::new_static(false, &aids(&[42]));
    assert_eq!(aid_values(&bitmap.aid_iter().unwrap()), vec![42]);
    assert_eq!(bitmap.to_bytes(), vec![4, 0, 1 << 2]);
}

#[test]
fn vht_mcs_map_from_ranges() {
    let map = VHTMCSMap::from_vht_mcs_iter(&[
        VHTMCSSupport::ZeroToNine,
        VHTMCSSupport::NotSupported,
        VHTMCSSupport::Unknown(5),
    ]);
    // Each range takes two bits; an unknown value keeps its two low bits.
    assert_eq!(map.0, 0b01_11_10);
    assert_eq!(map.vht_mcs_support_for_nss(1), Some(VHTMCSSupport::ZeroToNine));
    assert_eq!(map.vht_mcs_support_for_nss(2), Some(VHTMCSSupport::NotSupported));
    assert_eq!(map.vht_mcs_support_for_nss(3), Some(VHTMCSSupport::ZeroToEight));
    assert_eq!(map.vht_mcs_support_for_nss(4), Some(VHTMCSSupport::ZeroToSeven));
    assert_eq!(map.vht_mcs_support_for_nss(9), None);
}

#[test]
fn rsn_presets() {
    let wpa2 = RSNElement::WPA2_PERSONAL();
    assert_eq!(wpa2.group_data_cipher_suite, Some(IEEE80211CipherSuiteSelector::Ccmp128));
    assert_eq!(wpa2.pairwise_cipher_suite_list, Some(vec![IEEE80211CipherSuiteSelector::Ccmp128]));
    assert_eq!(wpa2.akm_list, Some(vec![IEEE80211AKMType::Psk]));
    assert!(wpa2.rsn_capbilities.is_none());
    let mixed = RSNElement::WPA_WPA2_PERSONAL();
    assert_eq!(
        mixed.pairwise_cipher_suite_list,
        Some(vec![IEEE80211CipherSuiteSelector::Tkip, IEEE80211CipherSuiteSelector::Ccmp128])
    );
    assert_eq!(RSNElement::WPA_PERSONAL().group_data_cipher_suite, Some(IEEE80211CipherSuiteSelector::Tkip));
    assert_eq!(
        RSNElement::WPA2_WPA3_PERSONAL().akm_list,
        Some(vec![IEEE80211AKMType::Psk, IEEE80211AKMType::Sae])
    );
    let wpa3 = RSNElement::WPA3_PERSONAL();
    assert_eq!(wpa3.rsn_capbilities.unwrap().mfp_config(), OptionalFeatureConfig::Required);
    assert_eq!(wpa3.pmkid_list, Some(vec![]));
    assert_eq!(wpa3.group_management_cipher_suite, Some(IEEE80211CipherSuiteSelector::BipCmac128));
    let owe = RSNElement::OWE();
    assert_eq!(owe.akm_list, Some(vec![IEEE80211AKMType::OpportunisticWirelessEncryption]));
    assert_eq!(owe.rsn_capbilities.unwrap().mfp_config(), OptionalFeatureConfig::Required);
    assert!(owe.pmkid_list.is_none());
    let bytes = wpa3.to_bytes();
    let (read, len) = RSNElement::try_from_ctx(&bytes).unwrap();
    assert_eq!(len, bytes.len());
    assert_eq!(read.rsn_capbilities, wpa3.rsn_capbilities);
    assert_eq!(read.group_management_cipher_suite, wpa3.group_management_cipher_suite);
}
