use hmac::{Hmac, Mac};
use ieee80211::crypto::eapol::{
    EapolDataFrame, EapolKeyFrame, EapolSnapPayload, KeyDescriptorVersion, KeyInformation,
};
use ieee80211::crypto::key_mgmt::{
    derive_ptk, deserialize_eapol_data_frame, generate_pmkid, map_passphrase_to_psk, HmacHash,
    partition_ptk, prf, prf_iter, serialize_eapol_data_frame, wrap_eapol_key_data,
    EapolSerdeError, KeyManagementError,
};
use ieee80211::crypto::{michael, CryptoHeader};
use ieee80211::common::wire::Error;
use ieee80211::elements::rsn::{IEEE80211AKMType, IEEE80211CipherSuiteSelector};
use ieee80211::elements::ReadElements;

fn hex(s: &str) -> Vec<u8> {
    (0..s.len() / 2)
        .map(|i| u8::from_str_radix(&s[2 * i..2 * i + 2], 16).unwrap())
        .collect()
}

#[test]
fn michael_test_vectors() {
    assert_eq!(michael(0, b""), 0x82925c1ca1d130b8);
    assert_eq!(michael(0x82925c1ca1d130b8, b"M"), 0x434721ca40639b3f);
    assert_eq!(michael(0x434721ca40639b3f, b"Mi"), 0xe8f9becae97e5d29);
    assert_eq!(michael(0xe8f9becae97e5d29, b"Mic"), 0x90038fc6cf13c1db);
    assert_eq!(michael(0x90038fc6cf13c1db, b"Mich"), 0xd55e100510128986);
    assert_eq!(michael(0xd55e100510128986, b"Michael"), 0x0a942b124ecaa546);
}

#[test]
fn crypto_header_bounds() {
    assert!(CryptoHeader::new(0xffff_ffff_ffff, 3).is_some());
    assert!(CryptoHeader::new(0x1_0000_0000_0000, 3).is_none());
    assert!(CryptoHeader::new(1, 4).is_none());
}

#[test]
fn crypto_header_roundtrip() {
    let header = CryptoHeader::new(0x0123_4567_89ab, 2).unwrap();
    let bytes = header.to_bytes();
    assert_eq!(bytes.len(), 8);
    let (read, len) = CryptoHeader::try_from_ctx(&bytes).unwrap();
    assert_eq!(len, 8);
    assert_eq!(read.packet_number(), 0x0123_4567_89ab);
    assert_eq!(read.key_id(), 2);
}

#[test]
fn prf_ieee_test_vector() {
    // IEEE 802.11 test vector for the PRF with HMAC-SHA-1.
    let key = [0x0bu8; 20];
    let mut output = [0u8; 24];
    prf(&key, "prefix", b"Hi There", &mut output);
    assert_eq!(output.to_vec(), hex("bcd4c650b30b9684951829e0d75f9d54b862175ed9f00606"));
}

#[test]
fn prf_iter_concatenates_chunks() {
    let key = [0x0bu8; 20];
    let mut whole = [0u8; 48];
    let mut chunked = [0u8; 48];
    prf(&key, "prefix", b"Hi There", &mut whole);
    let chunks: [&[u8]; 3] = [b"Hi", b" ", b"There"];
    prf_iter(&key, "prefix", &chunks, &mut chunked);
    assert_eq!(whole, chunked);
}

#[test]
fn prf_shorter_output_is_prefix() {
    let key = [0x0bu8; 20];
    let mut long = [0u8; 64];
    let mut short = [0u8; 30];
    prf(&key, "prefix", b"Hi There", &mut long);
    prf(&key, "prefix", b"Hi There", &mut short);
    assert_eq!(&long[..30], &short[..]);
}

#[test]
fn passphrase_to_psk_test_vector() {
    let mut psk = [0u8; 32];
    map_passphrase_to_psk("password", "IEEE", &mut psk);
    assert_eq!(
        psk.to_vec(),
        hex("f42c6fc52df0ebef9ebb4b90b38a5f902e83fe1b135a70e23aed762e9710a12e")
    );
}

#[test]
fn derive_ptk_is_symmetric() {
    let pmk = [0x11u8; 32];
    let a = [0x00, 0x01, 0x02, 0x03, 0x04, 0x05];
    let b = [0x10, 0x11, 0x12, 0x13, 0x14, 0x15];
    let an = [0x20u8; 32];
    let sn = [0x30u8; 32];
    let mut ptk1 = [0u8; 48];
    let mut ptk2 = [0u8; 48];
    derive_ptk(&pmk, &a, &b, &an, &sn, &mut ptk1);
    derive_ptk(&pmk, &b, &a, &sn, &an, &mut ptk2);
    assert_eq!(ptk1, ptk2);
    // The data is the smaller address, the larger one, the smaller nonce, the larger one.
    let mut data = Vec::new();
    data.extend_from_slice(&a);
    data.extend_from_slice(&b);
    data.extend_from_slice(&an);
    data.extend_from_slice(&sn);
    let mut expected = [0u8; 48];
    prf(&pmk, "Pairwise key expansion", &data, &mut expected);
    assert_eq!(ptk1, expected);
}

#[test]
fn partition_ptk_lengths() {
    let ptk: Vec<u8> = (0..48).collect();
    let (kck, kek, tk) =
        partition_ptk(&ptk, IEEE80211AKMType::Psk, IEEE80211CipherSuiteSelector::Ccmp128).unwrap();
    assert_eq!(kck, &ptk[0..16]);
    assert_eq!(kek, &ptk[16..32]);
    assert_eq!(tk, &ptk[32..48]);
    assert!(partition_ptk(&ptk[..47], IEEE80211AKMType::Psk, IEEE80211CipherSuiteSelector::Ccmp128)
        .is_none());
    assert!(partition_ptk(&ptk, IEEE80211AKMType::NoAKM, IEEE80211CipherSuiteSelector::Ccmp128)
        .is_none());
    assert!(partition_ptk(
        &ptk,
        IEEE80211AKMType::Psk,
        IEEE80211CipherSuiteSelector::UseGroupCipherSuite
    )
    .is_none());
}

#[test]
fn pmkid_is_sixteen_bytes_of_hmac() {
    let mut a = [0u8; 16];
    let mut b = [0u8; 16];
    generate_pmkid(HmacHash::Sha1, &[1, 2, 3], &[0; 6], &[1; 6], &mut a);
    generate_pmkid(HmacHash::Sha1, &[1, 2, 3], &[0; 6], &[1; 6], &mut b);
    assert_eq!(a, b);
    let mut c = [0u8; 16];
    generate_pmkid(HmacHash::Sha1, &[1, 2, 3], &[0; 6], &[2; 6], &mut c);
    assert_ne!(a, c);
    let mut message = b"PMK Name".to_vec();
    message.extend_from_slice(&[0; 6]);
    message.extend_from_slice(&[1; 6]);
    let mut sha1 = <Hmac<sha1::Sha1> as Mac>::new_from_slice(&[1, 2, 3]).unwrap();
    sha1.update(&message);
    assert_eq!(&a[..], &sha1.finalize().into_bytes()[..16]);
    let mut d = [0u8; 16];
    generate_pmkid(HmacHash::Sha256, &[1, 2, 3], &[0; 6], &[1; 6], &mut d);
    let mut sha256 = <Hmac<sha2::Sha256> as Mac>::new_from_slice(&[1, 2, 3]).unwrap();
    sha256.update(&message);
    assert_eq!(&d[..], &sha256.finalize().into_bytes()[..16]);
    let mut e = [0u8; 16];
    generate_pmkid(HmacHash::Sha384, &[1, 2, 3], &[0; 6], &[1; 6], &mut e);
    let mut sha384 = <Hmac<sha2::Sha384> as Mac>::new_from_slice(&[1, 2, 3]).unwrap();
    sha384.update(&message);
    assert_eq!(&e[..], &sha384.finalize().into_bytes()[..16]);
}

#[test]
fn key_wrap_output_length() {
    let kek = [0x42u8; 16];
    let key_data = [0xddu8; 22];
    let mut output = [0u8; 32];
    assert_eq!(wrap_eapol_key_data(&kek, &key_data, &mut output), Ok(()));
    assert_ne!(output, [0u8; 32]);
    let mut wrong = [0u8; 31];
    assert_eq!(
        wrap_eapol_key_data(&kek, &key_data, &mut wrong),
        Err(KeyManagementError::InvalidOutputLength)
    );
    assert_eq!(wrong, [0u8; 31]);
}

fn sample_key_frame<'a>(mic: &'a [u8], key_data: &'a [u8]) -> EapolKeyFrame<'a> {
    EapolKeyFrame {
        key_information: KeyInformation::new()
            .with_key_descriptor_version(KeyDescriptorVersion::AesHmacSha1)
            .with_is_pairwise(true)
            .with_key_ack(true),
        key_length: 16,
        key_replay_counter: 1,
        key_nonce: [0xaa; 32],
        key_iv: 0x0102_0304_0506_0708_090a_0b0c_0d0e_0f10,
        key_rsc: 7,
        key_mic: mic,
        key_data: ReadElements { bytes: key_data },
    }
}

#[test]
fn eapol_key_frame_roundtrip() {
    let mic = [0x55u8; 16];
    let key_data = [0xdd, 0x02, 0x00, 0x0f];
    let frame = sample_key_frame(&mic, &key_data);
    let bytes = frame.to_bytes();
    assert_eq!(bytes.len(), frame.measure_with());
    assert_eq!(bytes.len(), 83 + 16 + 4);
    assert_eq!(&bytes[..4], &[2, 3, 0, 83 + 16 + 4 - 4]);
    let (read, len) = EapolKeyFrame::try_from_ctx(&bytes, IEEE80211AKMType::Psk).unwrap();
    assert_eq!(len, bytes.len());
    assert_eq!(read, frame);
}

#[test]
fn eapol_key_frame_errors() {
    let mic = [0x55u8; 16];
    let frame = sample_key_frame(&mic, &[]);
    let mut bytes = frame.to_bytes();
    assert!(matches!(
        EapolKeyFrame::try_from_ctx(&bytes, IEEE80211AKMType::NoAKM),
        Err(Error::BadInput)
    ));
    assert!(matches!(
        EapolKeyFrame::try_from_ctx(&bytes[..50], IEEE80211AKMType::Psk),
        Err(Error::TooShort)
    ));
    bytes[1] = 0;
    assert!(matches!(
        EapolKeyFrame::try_from_ctx(&bytes, IEEE80211AKMType::Psk),
        Err(Error::BadInput)
    ));
}

const DATA_HEADER: [u8; 24] = [
    0x08, 0x02, 0x3a, 0x01, 0x00, 0x11, 0x22, 0x33, 0x44, 0x55, 0x66, 0x77, 0x88, 0x99, 0xaa,
    0xbb, 0x66, 0x77, 0x88, 0x99, 0xaa, 0xbb, 0x10, 0x00,
];

fn protected_key_frame<'a>(mic: &'a [u8], key_data: &'a [u8]) -> EapolKeyFrame<'a> {
    EapolKeyFrame {
        key_information: KeyInformation::new()
            .with_key_descriptor_version(KeyDescriptorVersion::AesHmacSha1)
            .with_is_pairwise(true)
            .with_key_ack(true)
            .with_key_mic(true)
            .with_secure(true)
            .with_encrypted_key_data(true),
        ..sample_key_frame(mic, key_data)
    }
}

fn data_frame<'a>(payload: EapolKeyFrame<'a>) -> EapolDataFrame<'a> {
    EapolDataFrame {
        header: &DATA_HEADER,
        payload: Some(EapolSnapPayload {
            oui: [0, 0, 0],
            ether_type: 0x888e,
            payload,
        }),
    }
}

#[test]
fn eapol_data_frame_serialize_then_deserialize() {
    let kck = [0x11u8; 16];
    let kek = [0x22u8; 16];
    let mic = [0u8; 16];
    let key_data: Vec<u8> = (0..16).collect();
    let frame = data_frame(protected_key_frame(&mic, &key_data));
    let mut buffer = [0u8; 256];
    let mut temp = [0u8; 64];
    let written =
        serialize_eapol_data_frame(Some(&kck), Some(&kek), frame, &mut buffer, &mut temp).unwrap();
    // Sixteen bytes of key data are already padded; wrapping adds eight.
    assert_eq!(written, 24 + 8 + 83 + 16 + 24);
    let kf = 24 + 8;
    assert_eq!(&buffer[kf + 2..kf + 4], &[0, (83 + 16 + 24 - 4) as u8]);
    assert_eq!(&buffer[kf + 97..kf + 99], &[0, 24]);
    assert_ne!(&buffer[kf + 99..kf + 115], key_data.as_slice());
    assert_ne!(&buffer[kf + 81..kf + 97], &[0u8; 16]);

    let mut temp = [0u8; 64];
    let read = deserialize_eapol_data_frame(
        Some(&kck),
        Some(&kek),
        &mut buffer[..written],
        &mut temp,
        IEEE80211AKMType::Psk,
        false,
        24,
    )
    .unwrap();
    assert_eq!(read.key_data.bytes, key_data.as_slice());
    assert_eq!(read.key_nonce, [0xaa; 32]);
    assert_eq!(read.key_replay_counter, 1);
    assert!(read.key_information.encrypted_key_data());
}

#[test]
fn eapol_data_frame_padding_is_unwrapped_with_the_key_data() {
    let kck = [0x11u8; 16];
    let kek = [0x22u8; 16];
    let mic = [0u8; 16];
    let key_data = [0x30, 0x02, 0x01, 0x00, 0x01];
    let frame = data_frame(protected_key_frame(&mic, &key_data));
    let mut buffer = [0u8; 256];
    let mut temp = [0u8; 64];
    let written =
        serialize_eapol_data_frame(Some(&kck), Some(&kek), frame, &mut buffer, &mut temp).unwrap();
    // Five bytes are padded to sixteen, then wrapped to twenty four.
    assert_eq!(written, 24 + 8 + 83 + 16 + 24);
    let read = deserialize_eapol_data_frame(
        Some(&kck),
        Some(&kek),
        &mut buffer[..written],
        &mut temp,
        IEEE80211AKMType::Psk,
        false,
        24,
    )
    .unwrap();
    let mut padded = key_data.to_vec();
    padded.push(0xdd);
    padded.resize(16, 0);
    assert_eq!(read.key_data.bytes, padded.as_slice());
}

#[test]
fn eapol_data_frame_wrong_kck_fails_the_mic() {
    let mic = [0u8; 16];
    let key_data = [0x30u8; 16];
    let frame = data_frame(protected_key_frame(&mic, &key_data));
    let mut buffer = [0u8; 256];
    let mut temp = [0u8; 64];
    let written =
        serialize_eapol_data_frame(Some(&[1; 16]), Some(&[2; 16]), frame, &mut buffer, &mut temp)
            .unwrap();
    let read = deserialize_eapol_data_frame(
        Some(&[3; 16]),
        Some(&[2; 16]),
        &mut buffer[..written],
        &mut temp,
        IEEE80211AKMType::Psk,
        false,
        24,
    );
    assert!(matches!(read, Err(EapolSerdeError::InvalidMic)));
}

#[test]
fn eapol_data_frame_serialize_errors() {
    let mic = [0u8; 16];
    let key_data = [0x30u8; 16];
    let mut buffer = [0u8; 256];
    let mut temp = [0u8; 64];
    let no_payload = EapolDataFrame {
        header: &DATA_HEADER,
        payload: None,
    };
    assert!(matches!(
        serialize_eapol_data_frame(None, None, no_payload, &mut buffer, &mut temp),
        Err(EapolSerdeError::NoPayload)
    ));
    let mut short_temp = [0u8; 23];
    assert!(matches!(
        serialize_eapol_data_frame(
            Some(&[1; 16]),
            Some(&[2; 16]),
            data_frame(protected_key_frame(&mic, &key_data)),
            &mut buffer,
            &mut short_temp
        ),
        Err(EapolSerdeError::TemporaryBufferToShort)
    ));
    assert!(matches!(
        serialize_eapol_data_frame(
            Some(&[1; 16]),
            None,
            data_frame(protected_key_frame(&mic, &key_data)),
            &mut buffer,
            &mut temp
        ),
        Err(EapolSerdeError::MissingKey)
    ));
    let mut short_buffer = [0u8; 100];
    assert!(matches!(
        serialize_eapol_data_frame(
            Some(&[1; 16]),
            Some(&[2; 16]),
            data_frame(protected_key_frame(&mic, &key_data)),
            &mut short_buffer,
            &mut temp
        ),
        Err(EapolSerdeError::BufferTooShort)
    ));
    // Room for the frame, but not for the eight bytes that wrapping adds.
    let mut tight_buffer = [0u8; 24 + 8 + 83 + 16 + 16];
    assert!(matches!(
        serialize_eapol_data_frame(
            Some(&[1; 16]),
            Some(&[2; 16]),
            data_frame(protected_key_frame(&mic, &key_data)),
            &mut tight_buffer,
            &mut temp
        ),
        Err(EapolSerdeError::BufferTooShort)
    ));
}

#[test]
fn eapol_data_frame_plain_serialization_is_the_frame() {
    let mic = [0x55u8; 16];
    let key_data = [0xdd, 0x02, 0x00, 0x0f];
    let frame = data_frame(sample_key_frame(&mic, &key_data));
    let mut buffer = [0u8; 256];
    let mut temp = [0u8; 24];
    let written = serialize_eapol_data_frame(None, None, frame, &mut buffer, &mut temp).unwrap();
    let bytes = frame.to_bytes();
    assert_eq!(written, bytes.len());
    assert_eq!(&buffer[..written], bytes.as_slice());
    assert_eq!(&buffer[24..32], &[0xaa, 0xaa, 0x03, 0, 0, 0, 0x88, 0x8e]);
}

#[test]
fn eapol_data_frame_deserialize_errors() {
    let mic = [0x55u8; 16];
    let key_data = [0xdd, 0x02, 0x00, 0x0f];
    let frame = data_frame(sample_key_frame(&mic, &key_data));
    let mut bytes = frame.to_bytes();
    let mut temp = [0u8; 64];
    let mut copy = bytes.clone();
    let read = deserialize_eapol_data_frame(
        None,
        None,
        &mut copy,
        &mut temp,
        IEEE80211AKMType::Psk,
        false,
        24,
    )
    .unwrap();
    assert_eq!(read.key_data.bytes, &key_data);
    let mut copy = bytes.clone();
    assert!(matches!(
        deserialize_eapol_data_frame(
            None,
            None,
            &mut copy,
            &mut temp,
            IEEE80211AKMType::NoAKM,
            false,
            24
        ),
        Err(EapolSerdeError::UnknownAkmSuite)
    ));
    bytes[31] = 0x00;
    assert!(matches!(
        deserialize_eapol_data_frame(
            None,
            None,
            &mut bytes,
            &mut temp,
            IEEE80211AKMType::Psk,
            false,
            24
        ),
        Err(EapolSerdeError::EtherTypeNotEapol)
    ));
}

#[test]
fn eapol_data_frame_early_errors_leave_the_buffer() {
    let mic = [0u8; 16];
    let key_data = [0x30u8; 16];
    let mut buffer = [0x5au8; 256];
    let mut short_temp = [0u8; 23];
    assert!(matches!(
        serialize_eapol_data_frame(
            Some(&[1; 16]),
            Some(&[2; 16]),
            data_frame(protected_key_frame(&mic, &key_data)),
            &mut buffer,
            &mut short_temp
        ),
        Err(EapolSerdeError::TemporaryBufferToShort)
    ));
    assert_eq!(buffer, [0x5au8; 256]);
    let mut temp = [0u8; 64];
    let no_payload = EapolDataFrame {
        header: &DATA_HEADER,
        payload: None,
    };
    assert!(matches!(
        serialize_eapol_data_frame(None, None, no_payload, &mut buffer, &mut temp),
        Err(EapolSerdeError::NoPayload)
    ));
    assert_eq!(buffer, [0x5au8; 256]);
    let mut short_buffer = [0x5au8; 100];
    assert!(matches!(
        serialize_eapol_data_frame(
            Some(&[1; 16]),
            Some(&[2; 16]),
            data_frame(protected_key_frame(&mic, &key_data)),
            &mut short_buffer,
            &mut temp
        ),
        Err(EapolSerdeError::BufferTooShort)
    ));
    assert_eq!(short_buffer, [0x5au8; 100]);
}

#[test]
fn eapol_data_frame_temp_buffer_too_short_for_wrapped_key_data() {
    // Twenty bytes of key data pad to twenty-four and wrap to thirty-two: a temporary buffer of
    // twenty-four bytes is too short for that.
    let mic = [0u8; 16];
    let key_data = [0x30u8; 20];
    let mut buffer = [0u8; 256];
    let mut temp = [0u8; 24];
    assert!(matches!(
        serialize_eapol_data_frame(
            Some(&[1; 16]),
            Some(&[2; 16]),
            data_frame(protected_key_frame(&mic, &key_data)),
            &mut buffer,
            &mut temp
        ),
        Err(EapolSerdeError::TemporaryBufferToShort)
    ));
    let mut temp = [0u8; 32];
    assert!(serialize_eapol_data_frame(
        Some(&[1; 16]),
        Some(&[2; 16]),
        data_frame(protected_key_frame(&mic, &key_data)),
        &mut buffer,
        &mut temp
    )
    .is_ok());
}

#[test]
fn eapol_data_frame_missing_kck_for_mic() {
    let mic = [0u8; 16];
    let key_data = [0x30u8; 16];
    let mut buffer = [0u8; 256];
    let mut temp = [0u8; 64];
    assert!(matches!(
        serialize_eapol_data_frame(
            None,
            Some(&[2; 16]),
            data_frame(protected_key_frame(&mic, &key_data)),
            &mut buffer,
            &mut temp
        ),
        Err(EapolSerdeError::MissingKey)
    ));
}

#[test]
fn eapol_deserialize_buffer_shorter_than_fcs() {
    let mut buffer = [0u8; 3];
    let mut temp = [0u8; 0];
    assert!(matches!(
        deserialize_eapol_data_frame(None, None, &mut buffer, &mut temp, IEEE80211AKMType::Psk, true, 24),
        Err(EapolSerdeError::BufferTooShort)
    ));
    let mut buffer = [0u8; 10];
    assert!(matches!(
        deserialize_eapol_data_frame(None, None, &mut buffer, &mut temp, IEEE80211AKMType::Psk, false, 24),
        Err(EapolSerdeError::BufferTooShort)
    ));
}

#[test]
fn eapol_data_frame_mic_only_serialize_then_deserialize() {
    let kck = [0x11u8; 16];
    let mic = [0u8; 16];
    let key_data = [0xdd, 0x02, 0x00, 0x0f];
    let key_frame = EapolKeyFrame {
        key_information: KeyInformation::new()
            .with_key_descriptor_version(KeyDescriptorVersion::AesHmacSha1)
            .with_is_pairwise(true)
            .with_key_mic(true),
        ..sample_key_frame(&mic, &key_data)
    };
    let frame = data_frame(key_frame);
    let unprotected = frame.to_bytes();
    let mut buffer = [0u8; 256];
    let mut temp = [0u8; 24];
    let written = serialize_eapol_data_frame(Some(&kck), None, frame, &mut buffer, &mut temp).unwrap();
    assert_eq!(written, unprotected.len());
    let kf = 24 + 8;
    let mut expected = <Hmac<sha1::Sha1> as Mac>::new_from_slice(&kck).unwrap();
    expected.update(&unprotected[kf..]);
    let expected = expected.finalize().into_bytes();
    assert_eq!(&buffer[kf + 81..kf + 97], &expected[..16]);
    let set_mic: Vec<u8> = buffer[kf + 81..kf + 97].to_vec();

    let read = deserialize_eapol_data_frame(
        Some(&kck),
        None,
        &mut buffer[..written],
        &mut temp,
        IEEE80211AKMType::Psk,
        false,
        24,
    )
    .unwrap();
    assert_eq!(read.key_mic, set_mic.as_slice());
    assert_eq!(read.key_data.bytes, &key_data);
    assert!(read.key_information.key_mic());
    assert!(!read.key_information.encrypted_key_data());
}
