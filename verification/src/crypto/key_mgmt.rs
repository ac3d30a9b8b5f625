//! Cryptographic key management: the PRF, PTK derivation, PMKIDs, passphrase mapping and key
//! wrapping.
use crate::common::wire::{be_u16, read_u16_be, slice_range, u16_be_bytes};
use crate::common::wire::{lemma_subrange_of, lemma_u16_at, write_all};
use crate::crypto::eapol::{
    eapol_data_frame_bytes, eapol_fixed_fields, eapol_key_body, eapol_key_frame_bytes, lemma_eapol_data_frame_fields,
    lemma_eapol_data_frame_layout, lemma_eapol_key_frame_parts, lemma_eapol_key_frame_roundtrip,
    parse_eapol_key_frame, EAPOL_2004_PROTOCOL_VERSION, EAPOL_KEY_MESSAGE_TYPE, EapolDataFrame, EapolKeyFrame, EapolKeyFrameView,
    KeyInformation,
};
use crate::elements::rsn::{IEEE80211AKMType, IEEE80211CipherSuiteSelector};
use aes_kw::Error as KeyWrapError;
use hmac::{Hmac, Mac};
use sha1::Sha1;
use sha2::{Sha256, Sha384};
use vstd::string::StringSliceAdditionalSpecFns;
use vstd::prelude::*;

verus! {

/// HMAC-SHA-1 function
pub type HSha1 = Hmac<Sha1>;

/// HMAC-SHA-256 function
pub type HSha256 = Hmac<Sha256>;

/// HMAC-SHA-384 function
pub type HSha384 = Hmac<Sha384>;

/// The HMAC-SHA-1 code of `message` under `key`.
pub uninterp spec fn hmac_sha1(key: Seq<u8>, message: Seq<u8>) -> Seq<u8>;

/// Calls `hmac::Hmac<sha1::Sha1>`: keyed with `key`, which `hmac` accepts at any length, fed
/// `message`, and finalized into its twenty bytes.
///
/// The contract names the result: that it is HMAC-SHA-1 is left to `hmac` and `sha1`.
#[verifier::external_body]
fn hmac_sha1_digest(key: &[u8], message: &[u8]) -> (r: [u8; 20])
    ensures
        r@ == hmac_sha1(key@, message@),
{
    let mut mac = <HSha1 as Mac>::new_from_slice(key).unwrap();
    mac.update(message);
    mac.finalize().into_bytes().into()
}


/// The bytes of the data chunks, one after the other.
pub open spec fn concat_chunks(chunks: Seq<Seq<u8>>) -> Seq<u8>
    decreases chunks.len(),
{
    if chunks.len() == 0 {
        Seq::empty()
    } else {
        concat_chunks(chunks.drop_last()) + chunks.last()
    }
}

/// The first `n` chunks are the first `n - 1` and then chunk `n - 1`.
proof fn lemma_concat_step(c: Seq<Seq<u8>>, n: int)
    requires
        0 < n <= c.len(),
    ensures
        concat_chunks(c.take(n)) == concat_chunks(c.take(n - 1)) + c[n - 1],
{
    assert(c.take(n).drop_last() =~= c.take(n - 1));
}

/// The bytes of each chunk in `data`.
pub open spec fn chunk_views(data: Seq<&[u8]>) -> Seq<Seq<u8>> {
    data.map_values(|c: &[u8]| c@)
}

/// The message of the PRF for output block `i`: the label, a zero byte, the data and the block
/// counter, as one byte.
pub open spec fn prf_message(label: Seq<u8>, data: Seq<u8>, i: int) -> Seq<u8> {
    label + seq![0u8] + data + seq![(i % 256) as u8]
}

/// The first `len` bytes of the PRF (IEEE 802.11-2020, 12.7.1.2) with HMAC-SHA-1: the twenty
/// byte blocks of HMAC-SHA-1 over each counter value, one after the other.
pub open spec fn prf_output(key: Seq<u8>, label: Seq<u8>, data: Seq<u8>, len: nat) -> Seq<u8> {
    Seq::new(len, |j: int| hmac_sha1(key, prf_message(label, data, j / 20))[j % 20])
}

/// A shorter output of the PRF is the start of a longer one, for the same key, label and data.
pub proof fn lemma_prf_output_prefix(key: Seq<u8>, label: Seq<u8>, data: Seq<u8>, n: nat, m: nat)
    requires
        n <= m,
    ensures
        prf_output(key, label, data, n) == prf_output(key, label, data, m).take(n as int),
{
    assert(prf_output(key, label, data, n) =~= prf_output(key, label, data, m).take(n as int));
}

/// Pseudo Random Function (PRF) over several chunks of data.
///
/// This is the same as [prf], with the data given as chunks, which are concatenated. The output
/// is filled block by block with HMAC-SHA-1 of the label, a zero byte, the data and the block
/// counter; the last block is cut to the remaining length.
pub fn prf_iter(key: &[u8], label: &str, data: &[&[u8]], output: &mut [u8])
    ensures
        final(output)@ == prf_output(
            key@,
            label.spec_bytes(),
            concat_chunks(chunk_views(data@)),
            old(output)@.len(),
        ),
{
    let ghost data_bytes = concat_chunks(chunk_views(data@));
    let mut prefix: Vec<u8> = Vec::new();
    let label_bytes = label.as_bytes();
    let mut k: usize = 0;
    while k < label_bytes.len()
        invariant
            k <= label_bytes@.len(),
            prefix@ == label_bytes@.take(k as int),
        decreases label_bytes@.len() - k,
    {
        prefix.push(label_bytes[k]);
        k = k + 1;
        assert(prefix@ =~= label_bytes@.take(k as int));
    }
    prefix.push(0u8);
    let ghost head = prefix@;
    assert(head =~= label.spec_bytes() + seq![0u8]);
    let mut c: usize = 0;
    while c < data.len()
        invariant
            c <= data@.len(),
            prefix@ == head + concat_chunks(chunk_views(data@).take(c as int)),
        decreases data@.len() - c,
    {
        let chunk = data[c];
        let mut b: usize = 0;
        let ghost before = prefix@;
        while b < chunk.len()
            invariant
                b <= chunk@.len(),
                prefix@ == before + chunk@.take(b as int),
            decreases chunk@.len() - b,
        {
            prefix.push(chunk[b]);
            b = b + 1;
            assert(prefix@ =~= before + chunk@.take(b as int));
        }
        assert(chunk@.take(b as int) =~= chunk@);
        assert(chunk_views(data@).take(c + 1).drop_last() =~= chunk_views(data@).take(c as int));
        assert(chunk_views(data@)[c as int] == chunk@);
        c = c + 1;
    }
    assert(chunk_views(data@).take(c as int) =~= chunk_views(data@));
    let ghost out_len = output@.len();
    let mut written: usize = 0;
    let mut i: usize = 0;
    while written < output.len()
        invariant
            written <= output.len() == out_len,
            written == 20 * i || written == output.len(),
            prefix@ == label.spec_bytes() + seq![0u8] + data_bytes,
            forall|j: int|
                0 <= j < written ==> output@[j] == prf_output(
                    key@,
                    label.spec_bytes(),
                    data_bytes,
                    out_len,
                )[j],
        decreases output@.len() - written,
    {
        let mut message = prefix.clone();
        message.push((i % 256) as u8);
        proof {
            assert(message@ =~= prf_message(label.spec_bytes(), data_bytes, i as int));
        }
        let digest = hmac_sha1_digest(key, message.as_slice());
        let mut m: usize = 0;
        while m < 20 && written + m < output.len()
            invariant
                m <= 20,
                written + m <= output.len() == out_len,
                written == 20 * i,
                digest@ == hmac_sha1(key@, prf_message(label.spec_bytes(), data_bytes, i as int)),
                forall|j: int|
                    0 <= j < written + m ==> output@[j] == prf_output(
                        key@,
                        label.spec_bytes(),
                        data_bytes,
                        out_len,
                    )[j],
            decreases 20 - m,
        {
            output[written + m] = digest[m];
            proof {
                let j = written + m;
                assert(j / 20 == i as int && j % 20 == m as int);
            }
            m = m + 1;
        }
        written = written + m;
        i = i + 1;
    }
    assert(output@ =~= prf_output(key@, label.spec_bytes(), data_bytes, out_len));
}

/// Pseudo Random Function (PRF)
///
/// Implemented according to 12.7.1.2 IEEE 802.11-2020. This is the default PRF, with HMAC-SHA-1.
pub fn prf(key: &[u8], label: &str, data: &[u8], output: &mut [u8])
    ensures
        final(output)@ == prf_output(key@, label.spec_bytes(), data@, old(output)@.len()),
{
    let chunks: [&[u8]; 1] = [data];
    proof {
        let cv = chunk_views(chunks@);
        assert(chunks@[0] == data);
        assert(cv.len() == 1 && cv[0] == data@);
        assert(cv.drop_last() =~= Seq::<Seq<u8>>::empty());
        assert(concat_chunks(cv.drop_last()) =~= Seq::<u8>::empty());
        assert(cv.last() == data@);
        assert(concat_chunks(cv) == concat_chunks(cv.drop_last()) + cv.last());
        assert(concat_chunks(cv) =~= data@);
    }
    prf_iter(key, label, chunks.as_slice(), output);
}


/// `a` comes before `b` in lexicographic order.
pub open spec fn lex_less(a: Seq<u8>, b: Seq<u8>) -> bool
    decreases a.len(),
{
    if a.len() == 0 {
        b.len() > 0
    } else if b.len() == 0 {
        false
    } else if a[0] != b[0] {
        a[0] < b[0]
    } else {
        lex_less(a.skip(1), b.skip(1))
    }
}

/// The pair in lexicographic order: `(a, b)` if `a` comes first, else `(b, a)`.
pub open spec fn lex_sorted(a: Seq<u8>, b: Seq<u8>) -> (Seq<u8>, Seq<u8>) {
    if lex_less(a, b) {
        (a, b)
    } else {
        (b, a)
    }
}

/// Sort two byte slices lexicographically.
///
/// The first slice in the returned tuple is lexicographically smaller than the second one, unless
/// both are equal, in which case it's `b`.
fn sort_lexicographically<'a>(a: &'a [u8], b: &'a [u8]) -> (r: (&'a [u8], &'a [u8]))
    ensures
        (r.0@, r.1@) == lex_sorted(a@, b@),
{
    let mut i: usize = 0;
    assert(a@.skip(0) =~= a@);
    assert(b@.skip(0) =~= b@);
    while i < a.len() && i < b.len()
        invariant
            i <= a@.len(),
            i <= b@.len(),
            lex_less(a@, b@) == lex_less(a@.skip(i as int), b@.skip(i as int)),
        decreases a@.len() - i,
    {
        assert(a@.skip(i as int)[0] == a@[i as int]);
        assert(b@.skip(i as int)[0] == b@[i as int]);
        if a[i] != b[i] {
            if a[i] < b[i] {
                return (a, b);
            } else {
                return (b, a);
            }
        }
        assert(a@.skip(i as int).skip(1) =~= a@.skip(i + 1));
        assert(b@.skip(i as int).skip(1) =~= b@.skip(i + 1));
        i = i + 1;
    }
    if a.len() < b.len() {
        (a, b)
    } else {
        (b, a)
    }
}

/// The data of the PTK derivation: the two addresses, then the two nonces, each pair in
/// lexicographic order.
pub open spec fn ptk_data(aa: Seq<u8>, spa: Seq<u8>, anonce: Seq<u8>, snonce: Seq<u8>) -> Seq<u8> {
    let addresses = lex_sorted(aa, spa);
    let nonces = lex_sorted(anonce, snonce);
    addresses.0 + addresses.1 + nonces.0 + nonces.1
}

/// Lexicographic order is a strict total order: of two different byte strings, exactly one comes
/// first.
pub proof fn lemma_lex_less_total(a: Seq<u8>, b: Seq<u8>)
    ensures
        lex_less(a, b) ==> !lex_less(b, a),
        a != b && !lex_less(a, b) ==> lex_less(b, a),
    decreases a.len(),
{
    if a.len() == 0 && b.len() == 0 {
        assert(a =~= b);
    } else if a.len() > 0 && b.len() > 0 && a[0] == b[0] {
        lemma_lex_less_total(a.skip(1), b.skip(1));
        if a.skip(1) == b.skip(1) {
            assert(a =~= seq![a[0]] + a.skip(1));
            assert(b =~= seq![b[0]] + b.skip(1));
        }
    }
}

/// The data of the PTK derivation doesn't depend on which side is which: swapping the addresses
/// and the nonces gives the same data, so both sides derive the same PTK.
pub proof fn lemma_ptk_data_symmetric(aa: Seq<u8>, spa: Seq<u8>, anonce: Seq<u8>, snonce: Seq<u8>)
    ensures
        ptk_data(aa, spa, anonce, snonce) == ptk_data(spa, aa, snonce, anonce),
{
    lemma_lex_less_total(aa, spa);
    lemma_lex_less_total(anonce, snonce);
}

/// Derive a Pairwise Transient Key (PTK)
///
/// This derives the PTK from a PMK and the authenticator and supplicant address and nonce, with
/// the PRF under the label "Pairwise key expansion".
pub fn derive_ptk(
    pmk: &[u8],
    authenticator_address: &[u8; 6],
    supplicant_address: &[u8; 6],
    authenticator_nonce: &[u8; 32],
    supplicant_nonce: &[u8; 32],
    ptk: &mut [u8],
)
    ensures
        final(ptk)@ == prf_output(
            pmk@,
            "Pairwise key expansion".spec_bytes(),
            ptk_data(
                authenticator_address@,
                supplicant_address@,
                authenticator_nonce@,
                supplicant_nonce@,
            ),
            old(ptk)@.len(),
        ),
{
    let (min_address, max_address) = sort_lexicographically(
        authenticator_address.as_slice(),
        supplicant_address.as_slice(),
    );
    let (min_nonce, max_nonce) = sort_lexicographically(
        authenticator_nonce.as_slice(),
        supplicant_nonce.as_slice(),
    );
    let data: [&[u8]; 4] = [min_address, max_address, min_nonce, max_nonce];
    proof {
        let cv = chunk_views(data@);
        assert(cv.len() == 4);
        assert(data@[0] == min_address && data@[1] == max_address && data@[2] == min_nonce
            && data@[3] == max_nonce);
        assert(cv.take(0) =~= Seq::<Seq<u8>>::empty());
        lemma_concat_step(cv, 1);
        lemma_concat_step(cv, 2);
        lemma_concat_step(cv, 3);
        lemma_concat_step(cv, 4);
        assert(cv.take(4) =~= cv);
        assert(concat_chunks(cv) =~= min_address@ + max_address@ + min_nonce@ + max_nonce@);
    }
    prf_iter(pmk, "Pairwise key expansion", data.as_slice(), ptk);
}

/// The three parts of a PTK, if the suites give their lengths and the PTK holds them all.
pub open spec fn spec_partition_ptk(
    ptk: Seq<u8>,
    akm_suite: IEEE80211AKMType,
    cipher_suite: IEEE80211CipherSuiteSelector,
) -> Option<(Seq<u8>, Seq<u8>, Seq<u8>)> {
    match (akm_suite.spec_kck_len(), akm_suite.spec_kek_len(), cipher_suite.spec_tk_len()) {
        (Some(kck), Some(kek), Some(tk)) => if kck + kek + tk <= ptk.len() {
            Some(
                (
                    ptk.take(kck as int),
                    ptk.subrange(kck as int, kck + kek),
                    ptk.subrange(kck + kek, kck + kek + tk),
                ),
            )
        } else {
            None
        },
        _ => None,
    }
}

/// Partition a PTK into KCK, KEK and TK
///
/// This will return [None], if either the AKM or Cipher suite are unknown, or the provided PTK is
/// too short. If the PTK is longer than the KCK, KEK and TK together, the excess data is left
/// out.
pub fn partition_ptk(
    ptk: &[u8],
    akm_suite: IEEE80211AKMType,
    cipher_suite: IEEE80211CipherSuiteSelector,
) -> (r: Option<(&[u8], &[u8], &[u8])>)
    ensures
        match spec_partition_ptk(ptk@, akm_suite, cipher_suite) {
            Some((kck, kek, tk)) => r matches Some((a, b, c)) && a@ == kck && b@ == kek && c@ == tk,
            None => r is None,
        },
{
    let kck_len = akm_suite.kck_len()?;
    let kek_len = akm_suite.kek_len()?;
    let tk_len = cipher_suite.tk_len()?;
    if kck_len > ptk.len() {
        return None;
    }
    let (kck, kek_and_tk) = ptk.split_at(kck_len);
    if kek_len > kek_and_tk.len() {
        return None;
    }
    let (kek, tk) = kek_and_tk.split_at(kek_len);
    if tk_len > tk.len() {
        return None;
    }
    let (tk, _) = tk.split_at(tk_len);
    assert(kek_and_tk@ =~= ptk@.skip(kck_len as int));
    Some((kck, kek, tk))
}


/// The label of the PMKID derivation.
pub open spec fn pmk_name_label() -> Seq<u8> {
    "PMK Name".spec_bytes()
}

/// The hash function of an HMAC: SHA-1 ([HSha1]), SHA-256 ([HSha256]) or SHA-384 ([HSha384]).
#[derive(Clone, Copy, Debug, PartialEq, Eq, Hash, Structural)]
pub enum HmacHash {
    Sha1,
    Sha256,
    Sha384,
}

/// The HMAC-SHA-256 code of `message` under `key`.
pub uninterp spec fn hmac_sha256(key: Seq<u8>, message: Seq<u8>) -> Seq<u8>;

/// Calls `hmac::Hmac<sha2::Sha256>`: keyed with `key`, which `hmac` accepts at any length, fed
/// `message`, and finalized into its thirty-two bytes.
///
/// The contract names the result: that it is HMAC-SHA-256 is left to `hmac` and `sha2`.
#[verifier::external_body]
fn hmac_sha256_digest(key: &[u8], message: &[u8]) -> (r: Vec<u8>)
    ensures
        r@ == hmac_sha256(key@, message@),
        r@.len() == 32,
{
    let mut mac = <HSha256 as Mac>::new_from_slice(key).unwrap();
    mac.update(message);
    mac.finalize().into_bytes().to_vec()
}

/// The HMAC-SHA-384 code of `message` under `key`.
pub uninterp spec fn hmac_sha384(key: Seq<u8>, message: Seq<u8>) -> Seq<u8>;

/// Calls `hmac::Hmac<sha2::Sha384>`: keyed with `key`, which `hmac` accepts at any length, fed
/// `message`, and finalized into its forty-eight bytes.
///
/// The contract names the result: that it is HMAC-SHA-384 is left to `hmac` and `sha2`.
#[verifier::external_body]
fn hmac_sha384_digest(key: &[u8], message: &[u8]) -> (r: Vec<u8>)
    ensures
        r@ == hmac_sha384(key@, message@),
        r@.len() == 48,
{
    let mut mac = <HSha384 as Mac>::new_from_slice(key).unwrap();
    mac.update(message);
    mac.finalize().into_bytes().to_vec()
}

/// The HMAC code of `message` under `key`, with the hash `hash`.
pub open spec fn hmac_with(hash: HmacHash, key: Seq<u8>, message: Seq<u8>) -> Seq<u8> {
    match hash {
        HmacHash::Sha1 => hmac_sha1(key, message),
        HmacHash::Sha256 => hmac_sha256(key, message),
        HmacHash::Sha384 => hmac_sha384(key, message),
    }
}

/// The HMAC code of `message` under `key`, with the hash `hash`: twenty, thirty-two or
/// forty-eight bytes.
fn hmac_digest(hash: HmacHash, key: &[u8], message: &[u8]) -> (r: Vec<u8>)
    ensures
        r@ == hmac_with(hash, key@, message@),
        r@.len() >= 20,
{
    match hash {
        HmacHash::Sha1 => {
            let d = hmac_sha1_digest(key, message);
            let mut out: Vec<u8> = Vec::new();
            let mut i: usize = 0;
            while i < 20
                invariant
                    i <= 20,
                    out@ == d@.take(i as int),
                decreases 20 - i,
            {
                out.push(d[i]);
                i = i + 1;
                assert(out@ =~= d@.take(i as int));
            }
            assert(d@.take(20) =~= d@);
            out
        },
        HmacHash::Sha256 => hmac_sha256_digest(key, message),
        HmacHash::Sha384 => hmac_sha384_digest(key, message),
    }
}

/// Generate the Pairwise Master Key Identifier (PMKID)
///
/// The PMKID is the first sixteen bytes of the HMAC, with the hash `hash`, under `key`, of
/// "PMK Name", the authenticator address and the supplicant address.
pub fn generate_pmkid(
    hash: HmacHash,
    key: &[u8],
    authenticator_address: &[u8; 6],
    supplicant_address: &[u8; 6],
    output: &mut [u8; 16],
)
    ensures
        final(output)@ == hmac_with(
            hash,
            key@,
            pmk_name_label() + authenticator_address@ + supplicant_address@,
        ).take(16),
{
    let mut message: Vec<u8> = Vec::new();
    let label = "PMK Name".as_bytes();
    let mut k: usize = 0;
    while k < label.len()
        invariant
            k <= label@.len(),
            message@ == label@.take(k as int),
        decreases label@.len() - k,
    {
        message.push(label[k]);
        k = k + 1;
        assert(message@ =~= label@.take(k as int));
    }
    assert(label@.take(k as int) =~= label@);
    let mut a: usize = 0;
    while a < 6
        invariant
            a <= 6,
            message@ == label@ + authenticator_address@.take(a as int),
        decreases 6 - a,
    {
        message.push(authenticator_address[a]);
        a = a + 1;
        assert(message@ =~= label@ + authenticator_address@.take(a as int));
    }
    assert(authenticator_address@.take(6) =~= authenticator_address@);
    let mut b: usize = 0;
    while b < 6
        invariant
            b <= 6,
            message@ == label@ + authenticator_address@ + supplicant_address@.take(b as int),
        decreases 6 - b,
    {
        message.push(supplicant_address[b]);
        b = b + 1;
        assert(message@ =~= label@ + authenticator_address@ + supplicant_address@.take(b as int));
    }
    assert(supplicant_address@.take(6) =~= supplicant_address@);
    let digest = hmac_digest(hash, key, message.as_slice());
    let mut i: usize = 0;
    while i < 16
        invariant
            i <= 16,
            digest@ == hmac_with(hash, key@, pmk_name_label() + authenticator_address@ + supplicant_address@),
            digest@.len() >= 20,
            forall|j: int| 0 <= j < i ==> output@[j] == digest@[j],
        decreases 16 - i,
    {
        output[i] = digest[i];
        i = i + 1;
    }
    assert(output@ =~= digest@.take(16));
}

/// The PBKDF2 key, with HMAC-SHA-1 as its PRF, of `len` bytes from `password` and `salt`.
pub uninterp spec fn pbkdf2_hmac_sha1(password: Seq<u8>, salt: Seq<u8>, rounds: u32, len: nat) -> Seq<u8>;

/// Calls `pbkdf2::pbkdf2_hmac::<sha1::Sha1>`, which fills `res` with the PBKDF2 key of
/// `password` and `salt` after `rounds` rounds.
///
/// The contract names the result by the arguments and the length of `res`, and states that the
/// length is kept: that it is PBKDF2 is left to `pbkdf2`.
#[verifier::external_body]
fn pbkdf2_sha1(password: &[u8], salt: &[u8], rounds: u32, res: &mut [u8])
    ensures
        final(res)@ == pbkdf2_hmac_sha1(password@, salt@, rounds, old(res)@.len()),
        final(res)@.len() == old(res)@.len(),
{
    pbkdf2::pbkdf2_hmac::<Sha1>(password, salt, rounds, res)
}

/// Maps a passphrase to a PSK, as specified in Annex J of IEEE 802.11-2020.
///
/// The length of `output` is the length of the PSK. This is used by WPA2.
pub fn map_passphrase_to_psk(passphrase: &str, ssid: &str, output: &mut [u8])
    ensures
        final(output)@ == pbkdf2_hmac_sha1(
            passphrase.spec_bytes(),
            ssid.spec_bytes(),
            4096,
            old(output)@.len(),
        ),
{
    pbkdf2_sha1(passphrase.as_bytes(), ssid.as_bytes(), 4096, output);
}

/// An error related to cryptographic key management operation.
#[derive(Clone, Copy, Debug, PartialEq, Eq, PartialOrd, Ord, Hash, Structural)]
pub enum KeyManagementError {
    /// The key was too short.
    InvalidKeyLength,
    /// The output slice length didn't match the output size of the algorithm.
    InvalidOutputLength,
    /// The provided scratch buffer was too short.
    ScratchBufferTooShort,
}

/// The error of `aes_kw`.
#[verifier::external_type_specification]
#[verifier::external_body]
pub struct ExKeyWrapError(KeyWrapError);

/// The result of the AES key wrap with padding (RFC 5649) of `data` under the 128 bit key `kek`.
pub uninterp spec fn aes_key_wrap_with_padding(kek: Seq<u8>, data: Seq<u8>) -> Seq<u8>;

/// Calls `aes_kw::KekAes128::wrap_with_padding`.
///
/// As its source shows, it fails, and writes nothing, unless `data` has at most `u32::MAX`
/// bytes and `out` is exactly as long as `data` rounded up to eight bytes, plus eight; else it
/// fills `out` with the wrapped data, which the contract names by the key and the data.
#[verifier::external_body]
fn aes128_wrap_with_padding(kek: &[u8; 16], data: &[u8], out: &mut [u8]) -> (r: Result<(), KeyWrapError>)
    ensures
        final(out)@.len() == old(out)@.len(),
        r is Ok <==> (data@.len() <= u32::MAX && old(out)@.len() == ((data@.len() + 7) / 8) * 8 + 8),
        r is Ok ==> final(out)@ == aes_key_wrap_with_padding(kek@, data@),
        r is Err ==> final(out)@ == old(out)@,
{
    aes_kw::KekAes128::from(*kek).wrap_with_padding(data, out)
}

/// Wrap the EAPOL key data using the NIST AES Key-Wrap algorithm with padding.
///
/// The `key_data` slice should contain the entire Key Data segment of the EAPOL Key frame.
/// This assumes a 128 bit KEK. Fails with [KeyManagementError::InvalidOutputLength], and leaves
/// `output` as it was, unless `output` is as long as `key_data` rounded up to eight bytes, plus
/// eight, and `key_data` has at most `u32::MAX` bytes.
pub fn wrap_eapol_key_data(kek: &[u8; 16], key_data: &[u8], output: &mut [u8]) -> (r: Result<(), KeyManagementError>)
    ensures
        r is Ok <==> (key_data@.len() <= u32::MAX && old(output)@.len() == ((key_data@.len() + 7) / 8)
            * 8 + 8),
        r is Ok ==> final(output)@ == aes_key_wrap_with_padding(kek@, key_data@),
        r matches Err(e) ==> e == KeyManagementError::InvalidOutputLength && final(output)@ == old(output)@,
{
    match aes128_wrap_with_padding(kek, key_data, output) {
        Ok(()) => Ok(()),
        Err(_) => Err(KeyManagementError::InvalidOutputLength),
    }
}

/// An error related to EAPOL frame serialization.
#[derive(Debug)]
pub enum EapolSerdeError {
    /// The provided output buffer was too short.
    BufferTooShort,
    /// The provided temporary buffer was too short.
    TemporaryBufferToShort,
    /// The data frame didn't contain a payload.
    NoPayload,
    /// A needed key wasn't provided.
    MissingKey,
    /// Deserializing the key frame failed.
    KeyFrameDeserializationFailure,
    /// The used AKM suite is unknown.
    UnknownAkmSuite,
    /// The MIC in the frame didn't match the calculated MIC.
    InvalidMic,
    /// The ether type wasn't EAPOL.
    EtherTypeNotEapol,
}


/// Calls `llc_rs::EtherType::into_bits` on `EtherType::Eapol`, which its source defines as
/// 0x888e.
#[verifier::external_body]
fn eapol_ether_type() -> (r: u16)
    ensures
        r == 0x888e,
{
    llc_rs::EtherType::Eapol.into_bits()
}

/// The result of the AES key unwrap (RFC 3394) of `data` under the 128 bit key `kek`, or
/// [None] if its integrity check fails.
pub uninterp spec fn aes_key_unwrap(kek: Seq<u8>, data: Seq<u8>) -> Option<Seq<u8>>;

/// Calls `aes_kw::KekAes128::unwrap`.
///
/// As its source shows, it fails unless `data` is a multiple of eight bytes, at least eight,
/// and `out` is eight bytes shorter than `data`; else it fills `out` with the unwrapped data and
/// fails exactly when the integrity check fails. The contract names the result by the key and
/// the data, and leaves what `out` holds after a failure unsaid.
#[verifier::external_body]
fn aes128_unwrap(kek: &[u8; 16], data: &[u8], out: &mut [u8]) -> (r: Result<(), KeyWrapError>)
    ensures
        final(out)@.len() == old(out)@.len(),
        r is Ok <==> (data@.len() % 8 == 0 && data@.len() >= 8 && old(out)@.len() == data@.len() - 8
            && aes_key_unwrap(kek@, data@) is Some),
        r is Ok ==> final(out)@ == aes_key_unwrap(kek@, data@)->0,
{
    aes_kw::KekAes128::from(*kek).unwrap(data, out)
}

/// The optional key `k` by its bytes.
pub open spec fn key_bytes(k: Option<&[u8; 16]>) -> Option<Seq<u8>> {
    match k {
        Some(k) => Some(k@),
        None => None,
    }
}

/// The first `n` bytes of `s`: `n` bytes long, whatever the length of `s`.
pub open spec fn first_bytes(s: Seq<u8>, n: int) -> Seq<u8> {
    Seq::new(n as nat, |i: int| s[i])
}

/// The message whose HMAC-SHA-1 is the MIC of an EAPOL key frame at `kf` with a MIC of `m`
/// bytes: the frame with its MIC field zeroed, up to the end of `s`.
pub open spec fn eapol_mic_message(s: Seq<u8>, kf: int, m: int) -> Seq<u8> {
    s.subrange(kf, kf + 81) + Seq::new(((m / 8) * 8) as nat, |i: int| 0u8) + s.subrange(
        kf + 81 + m,
        s.len() as int,
    )
}

/// The buffer after its key data is replaced by `plain`, eight bytes shorter than the wrapped
/// key data: the key data length and the packet body length are lowered, and the last eight
/// bytes are cut.
pub open spec fn eapol_decrypted(s: Seq<u8>, kf: int, m: int, plain: Seq<u8>) -> Seq<u8> {
    let off = kf + 81 + m;
    let kdl = be_u16(s, off) as int;
    s.subrange(0, kf + 2) + u16_be_bytes(((s.len() - 8 - kf - 4) % 0x1_0000) as u16) + s.subrange(
        kf + 4,
        off,
    ) + u16_be_bytes((kdl - 8) as u16) + plain + s.subrange(off + 2 + kdl - 8, s.len() - 8)
}

/// Checking and decrypting the EAPOL key frame in the frame `s`, whose data frame header is `h`
/// bytes long: the LLC header must carry the EAPOL ether type, the MIC, if the key information
/// calls for one, must be the HMAC-SHA-1 of the frame under the KCK, and encrypted key data is
/// unwrapped with the KEK.
pub open spec fn eapol_process(
    kck: Option<Seq<u8>>,
    kek: Option<Seq<u8>>,
    s: Seq<u8>,
    akm_suite: IEEE80211AKMType,
    h: int,
) -> Result<Seq<u8>, EapolSerdeError> {
    let kf = h + 8;
    if s.len() < h + 8 {
        Err(EapolSerdeError::BufferTooShort)
    } else if be_u16(s, h + 6) != 0x888e {
        Err(EapolSerdeError::EtherTypeNotEapol)
    } else if s.len() < kf + 7 {
        Err(EapolSerdeError::BufferTooShort)
    } else {
        let key_information = KeyInformation(be_u16(s, kf + 5));
        match akm_suite.spec_key_mic_len() {
            None => Err(EapolSerdeError::UnknownAkmSuite),
            Some(mic_len) => {
                let m = mic_len as int;
                if key_information.spec_key_mic() && kck is None {
                    Err(EapolSerdeError::MissingKey)
                } else if key_information.spec_key_mic() && s.len() < kf + 81 + m {
                    Err(EapolSerdeError::BufferTooShort)
                } else if key_information.spec_key_mic() && s.subrange(kf + 81, kf + 81 + m)
                    != first_bytes(hmac_sha1(kck->0, eapol_mic_message(s, kf, m)), m) {
                    Err(EapolSerdeError::InvalidMic)
                } else if !key_information.spec_encrypted_key_data() {
                    Ok(s)
                } else if s.len() < kf + 83 + m {
                    Err(EapolSerdeError::BufferTooShort)
                } else if kek is None {
                    Err(EapolSerdeError::MissingKey)
                } else {
                    let off = kf + 81 + m;
                    let kdl = be_u16(s, off) as int;
                    match aes_key_unwrap(kek->0, s.subrange(off + 2, off + 2 + kdl)) {
                        Some(plain) => if kdl % 8 == 0 {
                            Ok(eapol_decrypted(s, kf, m, plain))
                        } else {
                            Err(EapolSerdeError::TemporaryBufferToShort)
                        },
                        None => Err(EapolSerdeError::TemporaryBufferToShort),
                    }
                }
            },
        }
    }
}

/// The EAPOL key frame that [deserialize_eapol_data_frame] reads from the frame `s`.
pub open spec fn eapol_deserialize(
    kck: Option<Seq<u8>>,
    kek: Option<Seq<u8>>,
    s: Seq<u8>,
    akm_suite: IEEE80211AKMType,
    h: int,
) -> Result<EapolKeyFrameView, EapolSerdeError> {
    match eapol_process(kck, kek, s, akm_suite, h) {
        Err(e) => Err(e),
        Ok(p) => match parse_eapol_key_frame(p.skip(h + 8), akm_suite) {
            Ok((v, n)) => Ok(v),
            Err(_) => Err(EapolSerdeError::KeyFrameDeserializationFailure),
        },
    }
}

/// The inputs on which reading an EAPOL data frame would index out of bounds or compute a MIC
/// longer than HMAC-SHA-1 gives: a key information field that starts past the end, a MIC of more
/// than twenty bytes to check, key data that runs past the end, or key data shorter than eight
/// bytes or longer than the temporary buffer plus eight.
pub open spec fn eapol_deserialize_out_of_bounds(
    has_kck: bool,
    has_kek: bool,
    s: Seq<u8>,
    temp_len: int,
    akm_suite: IEEE80211AKMType,
    h: int,
) -> bool {
    let kf = h + 8;
    if s.len() < h + 8 || be_u16(s, h + 6) != 0x888e {
        false
    } else if s.len() < kf + 5 {
        true
    } else if s.len() < kf + 7 {
        false
    } else {
        let key_information = KeyInformation(be_u16(s, kf + 5));
        match akm_suite.spec_key_mic_len() {
            None => false,
            Some(mic_len) => {
                let m = mic_len as int;
                let off = kf + 81 + m;
                ||| key_information.spec_key_mic() && has_kck && s.len() >= off && m > 20
                ||| key_information.spec_encrypted_key_data() && s.len() >= off + 2 && (s.len() < off
                    + 2 + be_u16(s, off) || (has_kek && (be_u16(s, off) < 8 || temp_len < be_u16(s, off)
                    - 8)))
            },
        }
    }
}

/// Write `x`, most significant byte first, at `at`.
fn write_u16_be_at(buf: &mut [u8], at: usize, x: u16)
    requires
        at + 2 <= old(buf)@.len(),
    ensures
        final(buf)@ == old(buf)@.take(at as int) + u16_be_bytes(x) + old(buf)@.skip(at + 2),
{
    buf[at] = (x / 256) as u8;
    buf[at + 1] = (x % 256) as u8;
    assert(buf@ =~= old(buf)@.take(at as int) + u16_be_bytes(x) + old(buf)@.skip(at + 2));
}

/// Check the MIC of the EAPOL key frame at `kf` within the first `n0` bytes of `buffer`.
fn eapol_check_mic(kck: &[u8; 16], buffer: &[u8], n0: usize, kf: usize, mic_len: usize) -> (r: Result<
    (),
    EapolSerdeError,
>)
    requires
        n0 <= buffer@.len(),
        kf + 7 <= n0,
        mic_len <= 64,
        n0 >= kf + 81 + mic_len ==> mic_len <= 20,
    ensures
        ({
            let s = buffer@.take(n0 as int);
            let m = mic_len as int;
            if s.len() < kf + 81 + m {
                r == Err::<(), EapolSerdeError>(EapolSerdeError::BufferTooShort)
            } else if s.subrange(kf + 81, kf + 81 + m) != first_bytes(
                hmac_sha1(kck@, eapol_mic_message(s, kf as int, m)),
                m,
            ) {
                r == Err::<(), EapolSerdeError>(EapolSerdeError::InvalidMic)
            } else {
                r == Ok::<(), EapolSerdeError>(())
            }
        }),
{
    let ghost s = buffer@.take(n0 as int);
    if n0 - kf < 81 || n0 - kf - 81 < mic_len {
        return Err(EapolSerdeError::BufferTooShort);
    }
    let mut message: Vec<u8> = Vec::new();
    push_slice(&mut message, slice_range(buffer, kf, kf + 81));
    let zeros = (mic_len / 8) * 8;
    let mut z: usize = 0;
    let ghost head = message@;
    while z < zeros
        invariant
            z <= zeros,
            message@ == head + Seq::new(z as nat, |i: int| 0u8),
        decreases zeros - z,
    {
        message.push(0u8);
        z = z + 1;
        assert(message@ =~= head + Seq::new(z as nat, |i: int| 0u8));
    }
    push_slice(&mut message, slice_range(buffer, kf + 81 + mic_len, n0));
    assert(message@ =~= eapol_mic_message(s, kf as int, mic_len as int));
    let key = kck.as_slice();
    let digest = hmac_sha1_digest(key, message.as_slice());
    assert(digest@ == hmac_sha1(kck@, eapol_mic_message(s, kf as int, mic_len as int)));
    let provided = slice_range(buffer, kf + 81, kf + 81 + mic_len);
    assert(provided@ =~= s.subrange(kf + 81, kf + 81 + mic_len));
    let mut k: usize = 0;
    while k < mic_len
        invariant
            mic_len <= 20,
            k <= mic_len,
            provided@.len() == mic_len,
            provided@ == s.subrange(kf + 81, kf + 81 + mic_len),
            digest@ == hmac_sha1(kck@, eapol_mic_message(s, kf as int, mic_len as int)),
            s == buffer@.take(n0 as int),
            s.len() >= kf + 81 + mic_len,
            forall|j: int| 0 <= j < k ==> provided@[j] == digest@[j],
        decreases mic_len - k,
    {
        if provided[k] != digest[k] {
            assert(provided@[k as int] != first_bytes(digest@, mic_len as int)[k as int]);
            assert(provided@ != first_bytes(digest@, mic_len as int));
            return Err(EapolSerdeError::InvalidMic);
        }
        k = k + 1;
    }
    assert(provided@ =~= first_bytes(digest@, mic_len as int));
    Ok(())
}

/// Unwrap the key data of the EAPOL key frame at `kf` within the first `n0` bytes of `buffer`
/// into the buffer, by way of `temp_buffer`, returning the new end of the frame.
fn eapol_unwrap_key_data(
    kek: &[u8; 16],
    buffer: &mut [u8],
    temp_buffer: &mut [u8],
    n0: usize,
    kf: usize,
    mic_len: usize,
) -> (r: Result<usize, EapolSerdeError>)
    requires
        n0 <= old(buffer)@.len(),
        kf + 83 + mic_len <= n0,
        kf + 83 + mic_len + be_u16(old(buffer)@, kf + 81 + mic_len) <= n0,
        be_u16(old(buffer)@, kf + 81 + mic_len) >= 8,
        old(temp_buffer)@.len() >= be_u16(old(buffer)@, kf + 81 + mic_len) - 8,
    ensures
        final(buffer)@.len() == old(buffer)@.len(),
        ({
            let s = old(buffer)@.take(n0 as int);
            let off = kf + 81 + mic_len;
            let kdl = be_u16(s, off) as int;
            match aes_key_unwrap(kek@, s.subrange(off + 2, off + 2 + kdl)) {
                Some(plain) => if kdl % 8 == 0 {
                    &&& r == Ok::<usize, EapolSerdeError>((n0 - 8) as usize)
                    &&& final(buffer)@.len() == old(buffer)@.len()
                    &&& final(buffer)@.take(n0 - 8) == eapol_decrypted(s, kf as int, mic_len as int, plain)
                } else {
                    r == Err::<usize, EapolSerdeError>(EapolSerdeError::TemporaryBufferToShort)
                },
                None => r == Err::<usize, EapolSerdeError>(EapolSerdeError::TemporaryBufferToShort),
            }
        }),
{
    let ghost s = buffer@.take(n0 as int);
    let off = kf + 81 + mic_len;
    let kdl = read_u16_be(buffer, off) as usize;
    assert(be_u16(buffer@, off as int) == be_u16(s, off as int)) by {
        assert(buffer@.subrange(off as int, off + 2) =~= s.subrange(off as int, off + 2));
    }
    let plain_len = kdl - 8;
    let key_data = slice_range(buffer, off + 2, off + 2 + kdl);
    assert(key_data@ =~= s.subrange(off + 2, off + 2 + kdl));
    let (out, _) = temp_buffer.split_at_mut(plain_len);
    if aes128_unwrap(kek, key_data, out).is_err() {
        return Err(EapolSerdeError::TemporaryBufferToShort);
    }
    let ghost plain = out@;
    let ghost before = buffer@;
    write_u16_be_at(buffer, off, plain_len as u16);
    let mut i: usize = 0;
    let ghost mid = buffer@;
    while i < plain_len
        invariant
            i <= plain_len,
            plain_len + off + 2 <= n0,
            n0 <= buffer@.len(),
            out@ == plain,
            plain.len() == plain_len,
            buffer@.len() == mid.len(),
            forall|j: int| 0 <= j < buffer@.len() && !(off + 2 <= j < off + 2 + i) ==> buffer@[j] == mid[j],
            forall|j: int| 0 <= j < i ==> buffer@[off + 2 + j] == plain[j],
        decreases plain_len - i,
    {
        buffer[off + 2 + i] = out[i];
        i = i + 1;
    }
    let new_len = n0 - 8;
    let ghost mid2 = buffer@;
    let field = ((new_len - kf - 4) % 0x1_0000) as u16;
    write_u16_be_at(buffer, kf + 2, field);
    proof {
        let d = eapol_decrypted(s, kf as int, mic_len as int, plain);
        let o = off as int;
        let pl = plain_len as int;
        assert(before == old(buffer)@);
        assert(d.len() == new_len);
        assert(mid == before.take(o) + u16_be_bytes(plain_len as u16) + before.skip(o + 2));
        assert(buffer@ == mid2.take(kf + 2) + u16_be_bytes(field) + mid2.skip(kf + 4));
        assert forall|j: int| 0 <= j < new_len implies #[trigger] buffer@[j] == d[j] by {
            if j < kf + 2 {
                assert(buffer@[j] == mid2[j]);
                assert(mid2[j] == mid[j]);
                assert(mid[j] == before[j]);
                assert(d[j] == s[j]);
            } else if j < kf + 4 {
                assert(buffer@[j] == u16_be_bytes(field)[j - kf - 2]);
                assert(d[j] == u16_be_bytes(field)[j - kf - 2]);
            } else if j < o {
                assert(buffer@[j] == mid2[j]);
                assert(mid2[j] == mid[j]);
                assert(mid[j] == before[j]);
                assert(d[j] == s[j]);
            } else if j < o + 2 {
                assert(buffer@[j] == mid2[j]);
                assert(mid2[j] == mid[j]);
                assert(mid[j] == u16_be_bytes(plain_len as u16)[j - o]);
                assert(d[j] == u16_be_bytes(plain_len as u16)[j - o]);
            } else if j < o + 2 + pl {
                assert(buffer@[j] == mid2[j]);
                assert(mid2[j] == plain[j - o - 2]);
                assert(d[j] == plain[j - o - 2]);
            } else {
                assert(buffer@[j] == mid2[j]);
                assert(mid2[j] == mid[j]);
                assert(mid[j] == before[j]);
                assert(d[j] == s[j]);
            }
        }
        assert(buffer@.take(new_len as int) =~= d);
    }
    Ok(new_len)
}

/// Check the ether type and the MIC of the EAPOL key frame in the first `n0` bytes of `buffer`,
/// and unwrap its key data, returning where the frame now ends.
#[verifier::spinoff_prover]
#[verifier::rlimit(60)]
fn eapol_prepare(
    kck: Option<&[u8; 16]>,
    kek: Option<&[u8; 16]>,
    buffer: &mut [u8],
    temp_buffer: &mut [u8],
    akm_suite: IEEE80211AKMType,
    n0: usize,
    header_length: usize,
) -> (r: Result<usize, EapolSerdeError>)
    requires
        n0 <= old(buffer)@.len(),
        !eapol_deserialize_out_of_bounds(
            kck is Some,
            kek is Some,
            old(buffer)@.take(n0 as int),
            old(temp_buffer)@.len() as int,
            akm_suite,
            header_length as int,
        ),
    ensures
        final(buffer)@.len() == old(buffer)@.len(),
        ({
            let s = old(buffer)@.take(n0 as int);
            match eapol_process(key_bytes(kck), key_bytes(kek), s, akm_suite, header_length as int) {
                Ok(p) => r matches Ok(end) && header_length + 8 <= end <= n0 && final(buffer)@.take(
                    end as int,
                ) == p,
                Err(e) => r == Err::<usize, EapolSerdeError>(e),
            }
        }),
{
    let ghost s = old(buffer)@.take(n0 as int);
    let h = header_length;
    if n0 < h || n0 - h < 8 {
        return Err(EapolSerdeError::BufferTooShort);
    }
    let ether_type = read_u16_be(buffer, h + 6);
    assert(be_u16(buffer@, h + 6) == be_u16(s, h + 6)) by {
        assert(buffer@.subrange(h + 6, h + 8) =~= s.subrange(h + 6, h + 8));
    }
    if ether_type != eapol_ether_type() {
        return Err(EapolSerdeError::EtherTypeNotEapol);
    }
    let kf = h + 8;
    if n0 - kf < 7 {
        return Err(EapolSerdeError::BufferTooShort);
    }
    let key_information = KeyInformation::from_bits(read_u16_be(buffer, kf + 5));
    assert(be_u16(buffer@, kf + 5) == be_u16(s, kf + 5)) by {
        assert(buffer@.subrange(kf + 5, kf + 7) =~= s.subrange(kf + 5, kf + 7));
    }
    let mic_len = match akm_suite.key_mic_len() {
        Some(m) => m,
        None => {
            return Err(EapolSerdeError::UnknownAkmSuite);
        },
    };
    if key_information.key_mic() {
        match kck {
            Some(k) => {
                let checked = eapol_check_mic(k, buffer, n0, kf, mic_len);
                if let Err(e) = checked {
                    return Err(e);
                }
            },
            None => {
                return Err(EapolSerdeError::MissingKey);
            },
        }
    }
    if !key_information.encrypted_key_data() {
        assert(buffer@.take(n0 as int) =~= s);
        return Ok(n0);
    }
    if n0 - kf < 83 || n0 - kf - 83 < mic_len {
        return Err(EapolSerdeError::BufferTooShort);
    }
    let off = kf + 81 + mic_len;
    assert(be_u16(buffer@, off as int) == be_u16(s, off as int)) by {
        assert(buffer@.subrange(off as int, off + 2) =~= s.subrange(off as int, off + 2));
    }
    match kek {
        Some(k) => eapol_unwrap_key_data(k, buffer, temp_buffer, n0, kf, mic_len),
        None => Err(EapolSerdeError::MissingKey),
    }
}

/// Decrypt, verify and deserialize an EAPOL data frame.
///
/// The data frame header, which is `header_length` bytes long, is followed by an LLC header
/// with the EAPOL ether type and the EAPOL key frame. If `with_fcs` is set, the last four bytes
/// are the FCS, which is left out; a buffer shorter than the FCS gives
/// [EapolSerdeError::BufferTooShort]. If the key information calls for a MIC, it is checked with
/// the KCK; encrypted key data is unwrapped with the KEK into the buffer, by way of
/// `temp_buffer`, and the lengths in the frame are lowered to match.
pub fn deserialize_eapol_data_frame<'a>(
    kck: Option<&[u8; 16]>,
    kek: Option<&[u8; 16]>,
    buffer: &'a mut [u8],
    temp_buffer: &mut [u8],
    akm_suite: IEEE80211AKMType,
    with_fcs: bool,
    header_length: usize,
) -> (r: Result<EapolKeyFrame<'a>, EapolSerdeError>)
    requires
        (!with_fcs || old(buffer)@.len() >= 4) ==> !eapol_deserialize_out_of_bounds(
            kck is Some,
            kek is Some,
            old(buffer)@.take(old(buffer)@.len() - if with_fcs { 4int } else { 0 }),
            old(temp_buffer)@.len() as int,
            akm_suite,
            header_length as int,
        ),
    ensures
        with_fcs && old(buffer)@.len() < 4 ==> r == Err::<EapolKeyFrame<'a>, EapolSerdeError>(EapolSerdeError::BufferTooShort),
        (!with_fcs || old(buffer)@.len() >= 4) ==> ({
            let s = old(buffer)@.take(old(buffer)@.len() - if with_fcs { 4int } else { 0 });
            match eapol_deserialize(key_bytes(kck), key_bytes(kek), s, akm_suite, header_length as int) {
                Ok(v) => r matches Ok(f) && f@ == v,
                Err(e) => r matches Err(err) && err == e,
            }
        }),
{
    if with_fcs && buffer.len() < 4 {
        return Err(EapolSerdeError::BufferTooShort);
    }
    let n0: usize = if with_fcs {
        buffer.len() - 4
    } else {
        buffer.len()
    };
    let end = match eapol_prepare(kck, kek, buffer, temp_buffer, akm_suite, n0, header_length) {
        Ok(end) => end,
        Err(e) => {
            return Err(e);
        },
    };
    let ghost p = buffer@.take(end as int);
    let shared: &'a [u8] = buffer;
    let frame_bytes = slice_range(shared, header_length + 8, end);
    assert(frame_bytes@ =~= p.skip(header_length + 8));
    match EapolKeyFrame::try_from_ctx(frame_bytes, akm_suite) {
        Ok((frame, _)) => Ok(frame),
        Err(_) => Err(EapolSerdeError::KeyFrameDeserializationFailure),
    }
}

/// The result of the AES key wrap (RFC 3394) of `data` under the 128 bit key `kek`.
pub uninterp spec fn aes_key_wrap(kek: Seq<u8>, data: Seq<u8>) -> Seq<u8>;

/// Calls `aes_kw::KekAes128::wrap`.
///
/// As its source shows, it fails, and writes nothing, unless `data` is a multiple of eight
/// bytes and `out` is eight bytes longer; else it fills `out` with the wrapped data, which the
/// contract names by the key and the data. Unwrapping undoes wrapping (the source's `unwrap`
/// runs the same rounds backwards and finds the initial value again), so the contract also
/// states that unwrapping what was written with the same key gives back `data`.
#[verifier::external_body]
fn aes128_wrap(kek: &[u8; 16], data: &[u8], out: &mut [u8]) -> (r: Result<(), KeyWrapError>)
    ensures
        final(out)@.len() == old(out)@.len(),
        r is Ok <==> (data@.len() % 8 == 0 && old(out)@.len() == data@.len() + 8),
        r is Ok ==> final(out)@ == aes_key_wrap(kek@, data@),
        r is Ok ==> aes_key_unwrap(kek@, final(out)@) == Some(data@),
        r is Err ==> final(out)@ == old(out)@,
{
    aes_kw::KekAes128::from(*kek).wrap(data, out)
}

/// The length of `kdl` bytes of key data, padded for key wrapping: at least sixteen, and a
/// multiple of eight.
pub open spec fn padded_key_data_len(kdl: int) -> int {
    if kdl < 16 {
        16
    } else if kdl % 8 != 0 {
        kdl / 8 * 8 + 8
    } else {
        kdl
    }
}

/// The key data at `kd_start`, padded: if its length isn't already padded, a 0xdd byte and zeros
/// follow it.
pub open spec fn padded_key_data(mem: Seq<u8>, kd_start: int, kdl: int) -> Seq<u8> {
    let padded = padded_key_data_len(kdl);
    if padded != kdl {
        mem.subrange(kd_start, kd_start + kdl) + seq![0xddu8] + Seq::new(
            (padded - kdl - 1) as nat,
            |i: int| 0u8,
        )
    } else {
        mem.subrange(kd_start, kd_start + kdl)
    }
}

/// The key data `d`, padded: if its length isn't already padded, a 0xdd byte and zeros follow
/// it.
pub open spec fn pad_key_data(d: Seq<u8>) -> Seq<u8> {
    let kdl = d.len() as int;
    let padded = padded_key_data_len(kdl);
    if padded != kdl {
        d + seq![0xddu8] + Seq::new((padded - kdl - 1) as nat, |i: int| 0u8)
    } else {
        d
    }
}

/// The buffer after the key data of the key frame at `start`, with a MIC of `m` bytes, is
/// replaced by `wrapped`, and the key data length and packet body length are raised to match.
pub open spec fn eapol_wrapped(mem: Seq<u8>, start: int, m: int, wrapped: Seq<u8>) -> Seq<u8> {
    let kd_len_off = start + 81 + m;
    let kd_start = kd_len_off + 2;
    mem.take(start + 2) + u16_be_bytes(((77 + m + 2 + wrapped.len()) % 0x1_0000) as u16) + mem.subrange(
        start + 4,
        kd_len_off,
    ) + u16_be_bytes((wrapped.len() % 0x1_0000) as u16) + wrapped + mem.skip(kd_start + wrapped.len())
}

/// Padding and wrapping the `kdl` bytes of key data of the key frame at `start`, with a MIC of
/// `m` bytes, in a buffer holding `mem` of which `w` bytes were written, with a temporary buffer
/// of `temp_len` bytes. Gives the new content of the buffer and the new number of bytes written.
pub open spec fn eapol_wrap_stage(
    kek: Option<Seq<u8>>,
    mem: Seq<u8>,
    start: int,
    m: int,
    kdl: int,
    w: int,
    temp_len: int,
) -> Result<(Seq<u8>, int), EapolSerdeError> {
    let kd_start = start + 83 + m;
    let padded = padded_key_data_len(kdl);
    if mem.len() - kd_start < padded {
        Err(EapolSerdeError::BufferTooShort)
    } else {
        match kek {
            None => Err(EapolSerdeError::MissingKey),
            Some(k) => if temp_len < padded + 8 {
                Err(EapolSerdeError::TemporaryBufferToShort)
            } else if mem.len() - kd_start < padded + 8 {
                Err(EapolSerdeError::BufferTooShort)
            } else {
                Ok(
                    (
                        eapol_wrapped(mem, start, m, aes_key_wrap(k, padded_key_data(mem, kd_start, kdl))),
                        w + padded + 8 - kdl,
                    ),
                )
            },
        }
    }
}

/// Setting the MIC of the key frame at `start`, in a buffer holding `mem` of which `w` bytes
/// were written, to the first sixteen bytes of the HMAC-SHA-1 of the key frame under the KCK.
pub open spec fn eapol_mic_stage(kck: Option<Seq<u8>>, mem: Seq<u8>, start: int, w: int) -> Result<
    (Seq<u8>, int),
    EapolSerdeError,
> {
    match kck {
        None => Err(EapolSerdeError::MissingKey),
        Some(k) => Ok(
            (mem.take(start + 81) + first_bytes(hmac_sha1(k, mem.subrange(start, w)), 16) + mem.skip(start + 97), w),
        ),
    }
}

/// The key data stage of writing a key frame: if there's key data and it is to be encrypted,
/// it is padded and wrapped, else nothing changes.
pub open spec fn eapol_key_data_stage(
    kek: Option<Seq<u8>>,
    mem: Seq<u8>,
    start: int,
    m: int,
    kdl: int,
    encrypted: bool,
    w: int,
    temp_len: int,
) -> Result<(Seq<u8>, int), EapolSerdeError> {
    if kdl != 0 && encrypted {
        eapol_wrap_stage(kek, mem, start, m, kdl, w, temp_len)
    } else {
        Ok((mem, w))
    }
}

/// What follows the writing of a key frame at `start`, with a MIC of `m` bytes and a key data
/// length field of `kdl`, into a buffer now holding `mem` of which `w` bytes were written: the
/// key data stage, then, if the key information calls for it, the MIC.
pub open spec fn eapol_protect(
    kck: Option<Seq<u8>>,
    kek: Option<Seq<u8>>,
    mem: Seq<u8>,
    start: int,
    m: int,
    kdl: int,
    encrypted: bool,
    key_mic: bool,
    w: int,
    temp_len: int,
) -> Result<(Seq<u8>, int), EapolSerdeError> {
    match eapol_key_data_stage(kek, mem, start, m, kdl, encrypted, w, temp_len) {
        Err(e) => Err(e),
        Ok((mem1, w1)) => if key_mic {
            eapol_mic_stage(kck, mem1, start, w1)
        } else {
            Ok((mem1, w1))
        },
    }
}

/// The inputs on which [eapol_protect] would index out of bounds: a MIC to set that isn't
/// sixteen bytes long or that would cover more than the buffer holds (wrapped key data longer
/// than its 16 bit length field tells).
pub open spec fn eapol_protect_out_of_bounds(
    has_kck: bool,
    kek: Option<Seq<u8>>,
    mem: Seq<u8>,
    start: int,
    m: int,
    kdl: int,
    encrypted: bool,
    key_mic: bool,
    w: int,
    temp_len: int,
) -> bool {
    key_mic && has_kck && match eapol_key_data_stage(kek, mem, start, m, kdl, encrypted, w, temp_len) {
        Ok((_, w1)) => m != 16 || w1 > mem.len(),
        Err(_) => false,
    }
}

/// Writing an EAPOL data frame into a buffer that held `ob`: the frame is written, encrypted key
/// data is padded and wrapped with the KEK, and the MIC, if the key information calls for one, is
/// set with the KCK. Gives the new content of the buffer and the number of bytes written.
pub open spec fn eapol_serialize(
    kck: Option<Seq<u8>>,
    kek: Option<Seq<u8>>,
    f: EapolDataFrame,
    ob: Seq<u8>,
    temp_len: int,
) -> Result<(Seq<u8>, int), EapolSerdeError> {
    if temp_len < 24 {
        Err(EapolSerdeError::TemporaryBufferToShort)
    } else {
        match f.payload {
            None => Err(EapolSerdeError::NoPayload),
            Some(p) => {
                let b0 = eapol_data_frame_bytes(f);
                if ob.len() < b0.len() {
                    Err(EapolSerdeError::BufferTooShort)
                } else {
                    let v = p.payload@;
                    eapol_protect(
                        kck,
                        kek,
                        b0 + ob.skip(b0.len() as int),
                        (f.header@.len() + 8) as int,
                        v.6.len() as int,
                        (v.7.len() % 0x1_0000) as int,
                        v.0.spec_encrypted_key_data(),
                        v.0.spec_key_mic(),
                        b0.len() as int,
                        temp_len,
                    )
                }
            },
        }
    }
}

/// The inputs on which writing an EAPOL data frame would index out of bounds (see
/// [eapol_protect_out_of_bounds]).
pub open spec fn eapol_serialize_out_of_bounds(
    kck: Option<Seq<u8>>,
    kek: Option<Seq<u8>>,
    f: EapolDataFrame,
    ob: Seq<u8>,
    temp_len: int,
) -> bool {
    match f.payload {
        None => false,
        Some(p) => {
            let b0 = eapol_data_frame_bytes(f);
            let v = p.payload@;
            if temp_len < 24 || ob.len() < b0.len() {
                false
            } else {
                eapol_protect_out_of_bounds(
                    kck is Some,
                    kek,
                    b0 + ob.skip(b0.len() as int),
                    (f.header@.len() + 8) as int,
                    v.6.len() as int,
                    (v.7.len() % 0x1_0000) as int,
                    v.0.spec_encrypted_key_data(),
                    v.0.spec_key_mic(),
                    b0.len() as int,
                    temp_len,
                )
            }
        },
    }
}

/// Pad the `kdl` bytes of key data at `kd_start` to `padded` bytes: a 0xdd byte and zeros
/// follow it, if it isn't padded already.
fn eapol_pad_key_data(buffer: &mut [u8], kd_start: usize, kdl: usize, padded: usize)
    requires
        padded == padded_key_data_len(kdl as int),
        kd_start + padded <= old(buffer)@.len() <= isize::MAX,
    ensures
        final(buffer)@.len() == old(buffer)@.len(),
        final(buffer)@.subrange(kd_start as int, kd_start + padded) == padded_key_data(
            old(buffer)@,
            kd_start as int,
            kdl as int,
        ),
        forall|j: int|
            0 <= j < final(buffer)@.len() && !(kd_start <= j < kd_start + padded) ==> final(buffer)@[j]
                == old(buffer)@[j],
{
    let ghost mem0 = buffer@;
    if padded != kdl {
        buffer[kd_start + kdl] = 0xdd;
        let mut z = kd_start + kdl + 1;
        while z < kd_start + padded
            invariant
                kd_start + kdl + 1 <= z <= kd_start + padded <= buffer.len(),
                buffer@.len() == mem0.len(),
                forall|j: int| 0 <= j < kd_start + kdl ==> buffer@[j] == mem0[j],
                buffer@[kd_start + kdl] == 0xdd,
                forall|j: int| kd_start + kdl + 1 <= j < z ==> buffer@[j] == 0,
                forall|j: int| kd_start + padded <= j < buffer@.len() ==> buffer@[j] == mem0[j],
            decreases kd_start + padded - z,
        {
            buffer[z] = 0;
            z = z + 1;
        }
    }
    assert(buffer@.subrange(kd_start as int, kd_start + padded) =~= padded_key_data(
        mem0,
        kd_start as int,
        kdl as int,
    ));
}

/// Put the wrapped key data `wrapped` in place of the key data of the key frame at `start`, with
/// a MIC of `mic_len` bytes, and raise the key data length and packet body length to match.
fn eapol_install_wrapped(buffer: &mut [u8], wrapped: &[u8], start: usize, mic_len: usize)
    requires
        start + 83 + mic_len + wrapped@.len() <= old(buffer)@.len() <= isize::MAX,
    ensures
        final(buffer)@ == eapol_wrapped(old(buffer)@, start as int, mic_len as int, wrapped@),
{
    let ghost mem0 = buffer@;
    let kd_len_off = start + 81 + mic_len;
    let kd_start = kd_len_off + 2;
    let wrapped_len = wrapped.len();
    let mut i: usize = 0;
    while i < wrapped_len
        invariant
            i <= wrapped_len == wrapped@.len(),
            kd_start + wrapped_len <= buffer.len(),
            buffer@.len() == mem0.len(),
            forall|j: int| 0 <= j < kd_start ==> buffer@[j] == mem0[j],
            forall|j: int| kd_start + i <= j < buffer@.len() ==> buffer@[j] == mem0[j],
            forall|j: int| 0 <= j < i ==> buffer@[kd_start + j] == wrapped@[j],
        decreases wrapped_len - i,
    {
        buffer[kd_start + i] = wrapped[i];
        i = i + 1;
    }
    let ghost copied = buffer@;
    write_u16_be_at(buffer, kd_len_off, (wrapped_len % 0x1_0000) as u16);
    let ghost len_written = buffer@;
    write_u16_be_at(buffer, start + 2, ((77 + mic_len + 2 + wrapped_len) % 0x1_0000) as u16);
    proof {
        let e = eapol_wrapped(mem0, start as int, mic_len as int, wrapped@);
        assert forall|j: int| 0 <= j < buffer@.len() implies #[trigger] buffer@[j] == e[j] by {
            if j < start + 2 {
                assert(buffer@[j] == len_written[j]);
                assert(len_written[j] == copied[j]);
            } else if j < start + 4 {
            } else if j < kd_len_off {
                assert(buffer@[j] == len_written[j]);
                assert(len_written[j] == copied[j]);
            } else if j < kd_start {
                assert(buffer@[j] == len_written[j]);
            } else if j < kd_start + wrapped_len {
                assert(buffer@[j] == len_written[j]);
                assert(len_written[j] == copied[j]);
                assert(copied[j] == wrapped@[j - kd_start]);
            } else {
                assert(buffer@[j] == len_written[j]);
                assert(len_written[j] == copied[j]);
            }
        }
        assert(buffer@ =~= e);
    }
}

/// Pad the key data at `start + 83 + mic_len` and wrap it with the KEK, by way of
/// `temp_buffer`, returning the new number of bytes written.
#[verifier::spinoff_prover]
#[verifier::rlimit(60)]
fn eapol_pad_and_wrap(
    kek: Option<&[u8; 16]>,
    buffer: &mut [u8],
    temp_buffer: &mut [u8],
    start: usize,
    mic_len: usize,
    kdl: usize,
    written: usize,
) -> (r: Result<usize, EapolSerdeError>)
    requires
        start + 83 + mic_len + kdl <= written <= old(buffer)@.len() <= isize::MAX,
        1 <= kdl < 0x1_0000,
    ensures
        final(buffer)@.len() == old(buffer)@.len(),
        final(temp_buffer)@.len() == old(temp_buffer)@.len(),
        r is Ok ==> key_bytes(kek) is Some && key_wrap_inverts(
            key_bytes(kek)->0,
            padded_key_data(old(buffer)@, start + 83 + mic_len, kdl as int),
        ),
        match eapol_wrap_stage(
            key_bytes(kek),
            old(buffer)@,
            start as int,
            mic_len as int,
            kdl as int,
            written as int,
            old(temp_buffer)@.len() as int,
        ) {
            Ok((mem, w)) => r == Ok::<usize, EapolSerdeError>(w as usize) && final(buffer)@ == mem,
            Err(e) => r == Err::<usize, EapolSerdeError>(e),
        },
{
    let ghost mem0 = buffer@;
    let kd_start = start + 83 + mic_len;
    proof {
        assert(kdl & !0b111usize == kdl / 8 * 8) by (bit_vector);
    }
    let padded = if kdl < 16 {
        16
    } else if kdl % 8 != 0 {
        (kdl & !0b111) + 8
    } else {
        kdl
    };
    if buffer.len() - kd_start < padded {
        return Err(EapolSerdeError::BufferTooShort);
    }
    eapol_pad_key_data(buffer, kd_start, kdl, padded);
    let ghost after_pad = buffer@;
    let k = match kek {
        Some(k) => k,
        None => {
            return Err(EapolSerdeError::MissingKey);
        },
    };
    let wrapped_len = padded + 8;
    if temp_buffer.len() < wrapped_len {
        return Err(EapolSerdeError::TemporaryBufferToShort);
    }
    let (out, _) = temp_buffer.split_at_mut(wrapped_len);
    let wrap = aes128_wrap(k, slice_range(buffer, kd_start, kd_start + padded), out);
    assert(wrap is Ok);
    if buffer.len() - kd_start < wrapped_len {
        return Err(EapolSerdeError::BufferTooShort);
    }
    eapol_install_wrapped(buffer, out, start, mic_len);
    proof {
        let wrapped = out@;
        let kd_len_off = start + 81 + mic_len;
        assert(eapol_wrapped(after_pad, start as int, mic_len as int, wrapped) =~= eapol_wrapped(
            mem0,
            start as int,
            mic_len as int,
            wrapped,
        ));
    }
    Ok(written + (wrapped_len - kdl))
}

/// Set the MIC of the key frame at `start` to the first sixteen bytes of the HMAC-SHA-1, under
/// the KCK, of the key frame as written, by way of `temp_buffer`.
fn eapol_set_mic(
    kck: Option<&[u8; 16]>,
    buffer: &mut [u8],
    temp_buffer: &mut [u8],
    start: usize,
    written: usize,
) -> (r: Result<usize, EapolSerdeError>)
    requires
        kck is Some ==> start + 97 <= written <= old(buffer)@.len(),
        old(temp_buffer)@.len() >= 20,
    ensures
        match eapol_mic_stage(key_bytes(kck), old(buffer)@, start as int, written as int) {
            Ok((mem, w)) => r == Ok::<usize, EapolSerdeError>(w as usize) && final(buffer)@ == mem,
            Err(e) => r == Err::<usize, EapolSerdeError>(e),
        },
{
    let kck = match kck {
        Some(k) => k,
        None => {
            return Err(EapolSerdeError::MissingKey);
        },
    };
    let ghost ob = buffer@;
    let digest = hmac_sha1_digest(kck.as_slice(), slice_range(buffer, start, written));
    let mut i: usize = 0;
    while i < 20
        invariant
            i <= 20,
            temp_buffer@.len() >= 20,
            forall|j: int| 0 <= j < i ==> temp_buffer@[j] == digest@[j],
        decreases 20 - i,
    {
        temp_buffer[i] = digest[i];
        i = i + 1;
    }
    let mut k: usize = 0;
    while k < 16
        invariant
            k <= 16,
            start + 97 <= buffer.len(),
            buffer@.len() == ob.len(),
            temp_buffer@.len() >= 20,
            forall|j: int| 0 <= j < 20 ==> temp_buffer@[j] == digest@[j],
            forall|j: int| 0 <= j < buffer@.len() && !(start + 81 <= j < start + 81 + k) ==> buffer@[j]
                == ob[j],
            forall|j: int| 0 <= j < k ==> buffer@[start + 81 + j] == digest@[j],
        decreases 16 - k,
    {
        buffer[start + 81 + k] = temp_buffer[k];
        k = k + 1;
    }
    assert(buffer@ =~= ob.take(start + 81) + first_bytes(digest@, 16) + ob.skip(start + 97));
    Ok(written)
}

/// Pad and wrap the key data and set the MIC of the key frame at `start`, as its key
/// information calls for, returning the new number of bytes written.
fn eapol_protect_frame(
    kck: Option<&[u8; 16]>,
    kek: Option<&[u8; 16]>,
    buffer: &mut [u8],
    temp_buffer: &mut [u8],
    start: usize,
    mic_len: usize,
    kdl: usize,
    key_information: KeyInformation,
    written: usize,
) -> (r: Result<usize, EapolSerdeError>)
    requires
        start + 83 + mic_len + kdl <= written <= old(buffer)@.len() <= isize::MAX,
        kdl < 0x1_0000,
        old(temp_buffer)@.len() >= 24,
        !eapol_protect_out_of_bounds(
            kck is Some,
            key_bytes(kek),
            old(buffer)@,
            start as int,
            mic_len as int,
            kdl as int,
            key_information.spec_encrypted_key_data(),
            key_information.spec_key_mic(),
            written as int,
            old(temp_buffer)@.len() as int,
        ),
    ensures
        r is Ok && kdl != 0 && key_information.spec_encrypted_key_data() ==> key_bytes(kek) is Some
            && key_wrap_inverts(
            key_bytes(kek)->0,
            padded_key_data(old(buffer)@, start + 83 + mic_len, kdl as int),
        ),
        match eapol_protect(
            key_bytes(kck),
            key_bytes(kek),
            old(buffer)@,
            start as int,
            mic_len as int,
            kdl as int,
            key_information.spec_encrypted_key_data(),
            key_information.spec_key_mic(),
            written as int,
            old(temp_buffer)@.len() as int,
        ) {
            Ok((mem, w)) => r == Ok::<usize, EapolSerdeError>(w as usize) && final(buffer)@ == mem,
            Err(e) => r == Err::<usize, EapolSerdeError>(e),
        },
{
    let mut written = written;
    if kdl != 0 && key_information.encrypted_key_data() {
        match eapol_pad_and_wrap(kek, buffer, temp_buffer, start, mic_len, kdl, written) {
            Ok(w) => {
                written = w;
            },
            Err(e) => {
                return Err(e);
            },
        }
    }
    if key_information.key_mic() {
        eapol_set_mic(kck, buffer, temp_buffer, start, written)
    } else {
        Ok(written)
    }
}

/// Serialize the provided EAPOL data frame into `buffer`, returning the number of bytes
/// written.
///
/// Encrypted key data is padded and wrapped with the KEK, and the MIC is set with the KCK, if
/// the key information calls for them. `temp_buffer` needs to be at least 24 bytes long, and as
/// long as the padded key data plus eight, else [EapolSerdeError::TemporaryBufferToShort] is
/// returned. Errors found before the frame is written leave `buffer` as it was.
#[verifier::spinoff_prover]
#[verifier::rlimit(80)]
pub fn serialize_eapol_data_frame(
    kck: Option<&[u8; 16]>,
    kek: Option<&[u8; 16]>,
    eapol_data_frame: EapolDataFrame,
    buffer: &mut [u8],
    temp_buffer: &mut [u8],
) -> (r: Result<usize, EapolSerdeError>)
    requires
        old(buffer)@.len() <= isize::MAX,
        eapol_data_frame.payload matches Some(p) ==> eapol_data_frame.header@.len() + 91
            + p.payload.key_mic@.len() <= usize::MAX,
        !eapol_serialize_out_of_bounds(
            key_bytes(kck),
            key_bytes(kek),
            eapol_data_frame,
            old(buffer)@,
            old(temp_buffer)@.len() as int,
        ),
    ensures
        match eapol_serialize(
            key_bytes(kck),
            key_bytes(kek),
            eapol_data_frame,
            old(buffer)@,
            old(temp_buffer)@.len() as int,
        ) {
            Ok((mem, w)) => r == Ok::<usize, EapolSerdeError>(w as usize) && final(buffer)@ == mem,
            Err(e) => r == Err::<usize, EapolSerdeError>(e),
        },
        old(temp_buffer)@.len() < 24 || eapol_data_frame.payload is None || old(buffer)@.len()
            < eapol_data_frame_bytes(eapol_data_frame).len() ==> final(buffer)@ == old(buffer)@,
        ({
            let v = eapol_data_frame.payload->0.payload@;
            r is Ok && eapol_data_frame.payload is Some && v.0.spec_encrypted_key_data() && 0
                < v.7.len() < 0x1_0000 ==> key_bytes(kek) is Some && key_wrap_inverts(
                key_bytes(kek)->0,
                pad_key_data(v.7),
            )
        }),
{
    if temp_buffer.len() < 24 {
        return Err(EapolSerdeError::TemporaryBufferToShort);
    }
    let p = match &eapol_data_frame.payload {
        Some(p) => p,
        None => {
            return Err(EapolSerdeError::NoPayload);
        },
    };
    let mic_len = p.payload.key_mic.len();
    let start = eapol_data_frame.header.len() + 8;
    let key_information = p.payload.key_information;
    let bytes = eapol_data_frame.to_bytes();
    let ghost ob = buffer@;
    let written = match write_all(buffer, bytes.as_slice()) {
        Ok(w) => w,
        Err(_) => {
            return Err(EapolSerdeError::BufferTooShort);
        },
    };
    let ghost mem0 = buffer@;
    let kd_len_off = start + 81 + mic_len;
    proof {
        let v = p.payload@;
        lemma_eapol_data_frame_layout(eapol_data_frame);
        assert(mem0.subrange(0, bytes@.len() as int) =~= bytes@);
        lemma_subrange_of(mem0, 0, bytes@, kd_len_off as int, kd_len_off + 2);
        crate::common::wire::lemma_u16_at(mem0, kd_len_off as int, (v.7.len() % 0x1_0000) as u16);
    }
    let kdl = read_u16_be(buffer, kd_len_off) as usize;
    proof {
        let v = p.payload@;
        let b0 = eapol_data_frame_bytes(eapol_data_frame);
        let kd_start = kd_len_off + 2;
        lemma_eapol_data_frame_fields(eapol_data_frame);
        if 0 < v.7.len() < 0x1_0000 {
            assert(mem0.subrange(0, b0.len() as int) =~= b0);
            lemma_subrange_of(mem0, 0, b0, kd_start as int, kd_start + v.7.len());
            assert(padded_key_data(mem0, kd_start as int, kdl as int) =~= pad_key_data(v.7));
        }
    }
    let ghost args = (
        key_bytes(kck),
        key_bytes(kek),
        mem0,
        start as int,
        mic_len as int,
        kdl as int,
        key_information.spec_encrypted_key_data(),
        key_information.spec_key_mic(),
        written as int,
    );
    assert(eapol_serialize(key_bytes(kck), key_bytes(kek), eapol_data_frame, ob, temp_buffer@.len() as int)
        == eapol_protect(args.0, args.1, args.2, args.3, args.4, args.5, args.6, args.7, args.8,
        temp_buffer@.len() as int));
    eapol_protect_frame(kck, kek, buffer, temp_buffer, start, mic_len, kdl, key_information, written)
}

/// Append all of `bytes`.
fn push_slice(out: &mut Vec<u8>, bytes: &[u8])
    ensures
        final(out)@ == old(out)@ + bytes@,
{
    crate::common::wire::push_bytes(out, bytes);
}



/// The facts about a frame `s` that make it read back as the key frame `v` with MIC `mic` and
/// key data `plain`: the key frame stands at `h + 8` after the EAPOL ether type, its MIC of
/// sixteen bytes is what the KCK gives, and its key data is `wrapped`, which the KEK unwraps to
/// `plain`.
pub open spec fn eapol_protected_layout(
    kck: Seq<u8>,
    kek: Seq<u8>,
    s: Seq<u8>,
    h: int,
    v: EapolKeyFrameView,
    mic: Seq<u8>,
    wrapped: Seq<u8>,
    plain: Seq<u8>,
) -> bool {
    &&& 0 <= h
    &&& v.3.len() == 32
    &&& v.0.spec_key_mic()
    &&& v.0.spec_encrypted_key_data()
    &&& wrapped.len() == plain.len() + 8
    &&& plain.len() % 8 == 0
    &&& 95 + plain.len() < 0x1_0000
    &&& s.len() == h + 107 + wrapped.len()
    &&& be_u16(s, h + 6) == 0x888e
    &&& s.subrange(h + 8, h + 10) == seq![EAPOL_2004_PROTOCOL_VERSION, EAPOL_KEY_MESSAGE_TYPE]
    &&& s.subrange(h + 12, h + 89) == eapol_fixed_fields(v)
    &&& s.subrange(h + 89, h + 105) == mic
    &&& mic == first_bytes(hmac_sha1(kck, eapol_mic_message(s, h + 8, 16)), 16)
    &&& s.subrange(h + 105, h + 107) == u16_be_bytes(wrapped.len() as u16)
    &&& s.subrange(h + 107, h + 107 + wrapped.len()) == wrapped
    &&& aes_key_unwrap(kek, wrapped) == Some(plain)
}

/// Checking and decrypting such a frame: the MIC checks out and the key data is unwrapped.
#[verifier::spinoff_prover]
proof fn lemma_eapol_process_protected(
    kck: Seq<u8>,
    kek: Seq<u8>,
    s: Seq<u8>,
    akm_suite: IEEE80211AKMType,
    h: int,
    v: EapolKeyFrameView,
    mic: Seq<u8>,
    wrapped: Seq<u8>,
    plain: Seq<u8>,
)
    requires
        akm_suite.spec_key_mic_len() == Some(16usize),
        eapol_protected_layout(kck, kek, s, h, v, mic, wrapped, plain),
    ensures
        eapol_process(Some(kck), Some(kek), s, akm_suite, h) == Ok::<Seq<u8>, EapolSerdeError>(
            eapol_decrypted(s, h + 8, 16, plain),
        ),
{
    let kf = h + 8;
    let fixed = eapol_fixed_fields(v);
    lemma_subrange_of(s, kf + 4, fixed, 1, 3);
    assert(fixed.subrange(1, 3) =~= u16_be_bytes(v.0.0));
    lemma_u16_at(s, kf + 5, v.0.0);
    assert(KeyInformation(be_u16(s, kf + 5)) == v.0);
    let l = wrapped.len() as int;
    lemma_u16_at(s, kf + 97, l as u16);
    assert(be_u16(s, kf + 97) == l);
}

/// The decrypted frame holds, from `h + 8` on, the key frame with the MIC and the unwrapped key
/// data.
#[verifier::spinoff_prover]
proof fn lemma_eapol_decrypted_protected(
    kck: Seq<u8>,
    kek: Seq<u8>,
    s: Seq<u8>,
    h: int,
    v: EapolKeyFrameView,
    mic: Seq<u8>,
    wrapped: Seq<u8>,
    plain: Seq<u8>,
)
    requires
        eapol_protected_layout(kck, kek, s, h, v, mic, wrapped, plain),
    ensures
        eapol_decrypted(s, h + 8, 16, plain).skip(h + 8) == eapol_key_frame_bytes(
            (v.0, v.1, v.2, v.3, v.4, v.5, mic, plain),
        ),
{
    let kf = h + 8;
    let l = wrapped.len() as int;
    lemma_u16_at(s, kf + 97, l as u16);
    let d = eapol_decrypted(s, kf, 16, plain);
    let v2: EapolKeyFrameView = (v.0, v.1, v.2, v.3, v.4, v.5, mic, plain);
    let k2 = eapol_key_frame_bytes(v2);
    lemma_eapol_key_frame_parts(v2);
    assert(eapol_fixed_fields(v2) == eapol_fixed_fields(v));
    let t = d.skip(kf);
    assert(t.len() == k2.len());
    assert forall|j: int| 0 <= j < t.len() implies #[trigger] t[j] == k2[j] by {
        if j < 2 {
            assert(t[j] == s[kf + j]);
            assert(s[kf + j] == s.subrange(kf, kf + 2)[j]);
            assert(k2[j] == k2.subrange(0, 2)[j]);
        } else if j < 4 {
            assert(k2[j] == k2.subrange(2, 4)[j - 2]);
        } else if j < 81 {
            assert(t[j] == s[kf + j]);
            assert(s[kf + j] == s.subrange(kf + 4, kf + 81)[j - 4]);
            assert(k2[j] == k2.subrange(4, 81)[j - 4]);
        } else if j < 97 {
            assert(t[j] == s[kf + j]);
            assert(s[kf + j] == s.subrange(kf + 81, kf + 97)[j - 81]);
            assert(k2[j] == k2.subrange(81, 97)[j - 81]);
        } else if j < 99 {
            assert(k2[j] == k2.subrange(97, 99)[j - 97]);
        } else {
            assert(k2[j] == k2.subrange(99, 99 + plain.len() as int)[j - 99]);
        }
    }
    assert(t =~= k2);
}

/// A serialized key frame with a MIC of sixteen bytes and a packet body that fits sixteen bits
/// reads as itself.
#[verifier::spinoff_prover]
proof fn lemma_eapol_key_frame_reads(t: Seq<u8>, v: EapolKeyFrameView, akm_suite: IEEE80211AKMType)
    requires
        akm_suite.spec_key_mic_len() == Some(16usize),
        v.3.len() == 32,
        v.6.len() == 16,
        95 + v.7.len() < 0x1_0000,
        t == eapol_key_frame_bytes(v),
    ensures
        parse_eapol_key_frame(t, akm_suite) is Ok,
        parse_eapol_key_frame(t, akm_suite)->Ok_0.0 == v,
{
    assert(eapol_key_body(v).len() == 95 + v.7.len());
    lemma_eapol_key_frame_roundtrip(v, akm_suite);
}

/// Reading a frame that checks out and decrypts to `d`, in which the key frame `v` stands at
/// `h + 8`, gives `v`.
#[verifier::spinoff_prover]
proof fn lemma_eapol_deserialize_of(
    kck: Option<Seq<u8>>,
    kek: Option<Seq<u8>>,
    s: Seq<u8>,
    akm_suite: IEEE80211AKMType,
    h: int,
    d: Seq<u8>,
    v: EapolKeyFrameView,
)
    requires
        eapol_process(kck, kek, s, akm_suite, h) == Ok::<Seq<u8>, EapolSerdeError>(d),
        parse_eapol_key_frame(d.skip(h + 8), akm_suite) is Ok,
        parse_eapol_key_frame(d.skip(h + 8), akm_suite)->Ok_0.0 == v,
    ensures
        eapol_deserialize(kck, kek, s, akm_suite, h) == Ok::<EapolKeyFrameView, EapolSerdeError>(v),
{
}

/// Reading such a frame gives the key frame with the MIC and the unwrapped key data.
proof fn lemma_eapol_deserialize_protected(
    kck: Seq<u8>,
    kek: Seq<u8>,
    s: Seq<u8>,
    akm_suite: IEEE80211AKMType,
    h: int,
    v: EapolKeyFrameView,
    mic: Seq<u8>,
    wrapped: Seq<u8>,
    plain: Seq<u8>,
)
    requires
        akm_suite.spec_key_mic_len() == Some(16usize),
        eapol_protected_layout(kck, kek, s, h, v, mic, wrapped, plain),
    ensures
        eapol_deserialize(Some(kck), Some(kek), s, akm_suite, h) == Ok::<
            EapolKeyFrameView,
            EapolSerdeError,
        >((v.0, v.1, v.2, v.3, v.4, v.5, mic, plain)),
{
    let v2: EapolKeyFrameView = (v.0, v.1, v.2, v.3, v.4, v.5, mic, plain);
    let d = eapol_decrypted(s, h + 8, 16, plain);
    lemma_eapol_process_protected(kck, kek, s, akm_suite, h, v, mic, wrapped, plain);
    lemma_eapol_decrypted_protected(kck, kek, s, h, v, mic, wrapped, plain);
    lemma_eapol_key_frame_reads(d.skip(h + 8), v2, akm_suite);
    lemma_eapol_deserialize_of(Some(kck), Some(kek), s, akm_suite, h, d, v2);
}


/// Wrapping `d` with the key `kek` gives eight more bytes, which unwrap to `d`.
pub open spec fn key_wrap_inverts(kek: Seq<u8>, d: Seq<u8>) -> bool {
    &&& aes_key_wrap(kek, d).len() == d.len() + 8
    &&& aes_key_unwrap(kek, aes_key_wrap(kek, d)) == Some(d)
}

/// The padded length of key data is a multiple of eight, at least sixteen, at least as long as
/// the key data and at most sixteen bytes longer.
proof fn lemma_padded_key_data_len(kdl: int)
    requires
        0 <= kdl,
    ensures
        padded_key_data_len(kdl) % 8 == 0,
        kdl <= padded_key_data_len(kdl) <= kdl + 16,
        padded_key_data_len(kdl) >= 16,
{
    if kdl >= 16 && kdl % 8 != 0 {
        assert((kdl / 8 * 8 + 8) % 8 == 0) by (nonlinear_arith);
        assert(kdl / 8 * 8 <= kdl < kdl / 8 * 8 + 8) by (nonlinear_arith);
    }
}

/// A buffer after a protected key frame at `h + 8`, whose MIC of sixteen bytes is zero, was
/// written to it, its key data wrapped to `wrapped` and the MIC set with the KCK, cut to what
/// was written, reads back as that frame.
#[verifier::spinoff_prover]
#[verifier::rlimit(60)]
proof fn lemma_eapol_serialized_layout(
    kck: Seq<u8>,
    kek: Seq<u8>,
    mem0: Seq<u8>,
    h: int,
    v: EapolKeyFrameView,
    wrapped: Seq<u8>,
    plain: Seq<u8>,
)
    requires
        0 <= h,
        v.3.len() == 32,
        v.0.spec_key_mic(),
        v.0.spec_encrypted_key_data(),
        v.6 == Seq::new(16, |i: int| 0u8),
        wrapped.len() == plain.len() + 8,
        plain.len() % 8 == 0,
        103 + plain.len() < 0x1_0000,
        mem0.len() >= h + 107 + wrapped.len(),
        be_u16(mem0, h + 6) == 0x888e,
        mem0.subrange(h + 8, h + 10) == seq![EAPOL_2004_PROTOCOL_VERSION, EAPOL_KEY_MESSAGE_TYPE],
        mem0.subrange(h + 12, h + 89) == eapol_fixed_fields(v),
        mem0.subrange(h + 89, h + 105) == v.6,
        aes_key_unwrap(kek, wrapped) == Some(plain),
    ensures
        ({
            let kf = h + 8;
            let mem1 = eapol_wrapped(mem0, kf, 16, wrapped);
            let w = kf + 99 + wrapped.len();
            let mic = first_bytes(hmac_sha1(kck, mem1.subrange(kf, w)), 16);
            let mem = mem1.take(kf + 81) + mic + mem1.skip(kf + 97);
            eapol_protected_layout(kck, kek, mem.take(w), h, v, mic, wrapped, plain)
        }),
{
    let kf = h + 8;
    let l = wrapped.len() as int;
    let mem1 = eapol_wrapped(mem0, kf, 16, wrapped);
    let w = kf + 99 + l;
    let mic = first_bytes(hmac_sha1(kck, mem1.subrange(kf, w)), 16);
    let mem = mem1.take(kf + 81) + mic + mem1.skip(kf + 97);
    let s = mem.take(w);
    assert(mem1.len() == mem0.len());
    assert(mem.len() == mem0.len());
    assert(s.len() == h + 107 + l);
    assert forall|j: int| 0 <= j < kf + 2 implies #[trigger] s[j] == mem0[j] by {
        assert(s[j] == mem1[j]);
    }
    assert forall|j: int| kf + 4 <= j < kf + 81 implies #[trigger] s[j] == mem0[j] by {
        assert(s[j] == mem1[j]);
    }
    assert forall|j: int| kf + 81 <= j < kf + 97 implies #[trigger] s[j] == mic[j - kf - 81] by {
    }
    assert forall|j: int| kf + 97 <= j < w implies #[trigger] s[j] == mem1[j] by {
    }
    assert(be_u16(s, h + 6) == be_u16(mem0, h + 6));
    assert(s.subrange(kf, kf + 2) =~= mem0.subrange(kf, kf + 2));
    assert(s.subrange(kf + 4, kf + 81) =~= mem0.subrange(kf + 4, kf + 81));
    assert(s.subrange(kf + 81, kf + 97) =~= mic);
    assert(s.subrange(kf + 97, kf + 99) =~= u16_be_bytes(l as u16));
    assert(s.subrange(kf + 99, kf + 99 + l) =~= wrapped);
    assert(eapol_mic_message(s, kf, 16) =~= mem1.subrange(kf, w)) by {
        assert(mem1.subrange(kf + 81, kf + 97) =~= mem0.subrange(kf + 81, kf + 97));
    }
}


/// A data frame whose EAPOL key frame is protected: it carries the EAPOL ether type, its key
/// information calls for a MIC and encrypted key data, its MIC of sixteen bytes is zero before
/// it is set, it has key data, and its packet body, with the key data padded and wrapped, fits a
/// sixteen bit length.
pub open spec fn eapol_protected_frame(f: EapolDataFrame) -> bool {
    match f.payload {
        Some(p) => {
            let v = p.payload@;
            &&& p.ether_type == 0x888e
            &&& v.0.spec_key_mic()
            &&& v.0.spec_encrypted_key_data()
            &&& v.6 == Seq::new(16, |i: int| 0u8)
            &&& 0 < v.7.len()
            &&& 103 + padded_key_data_len(v.7.len() as int) < 0x1_0000
        },
        None => false,
    }
}

/// Reading what was written for a protected key frame, with the same KCK and KEK and an AKM
/// suite whose MIC is sixteen bytes long, gives back the key frame, with the MIC that writing
/// set and the key data padded: the MIC checks out and the key data unwraps. This holds where
/// the key wrap of the padded key data undoes as the key wrap does; writing the frame states
/// that it does.
#[verifier::spinoff_prover]
#[verifier::rlimit(60)]
pub proof fn lemma_eapol_serialize_then_deserialize(
    kck: Seq<u8>,
    kek: Seq<u8>,
    f: EapolDataFrame,
    ob: Seq<u8>,
    temp_len: int,
    akm_suite: IEEE80211AKMType,
)
    requires
        eapol_protected_frame(f),
        akm_suite.spec_key_mic_len() == Some(16usize),
        eapol_serialize(Some(kck), Some(kek), f, ob, temp_len) is Ok,
        key_wrap_inverts(kek, pad_key_data(f.payload->0.payload@.7)),
    ensures
        ({
            let (mem, w) = eapol_serialize(Some(kck), Some(kek), f, ob, temp_len)->Ok_0;
            let v = f.payload->0.payload@;
            let kf = f.header@.len() + 8int;
            eapol_deserialize(Some(kck), Some(kek), mem.take(w), akm_suite, f.header@.len() as int)
                == Ok::<EapolKeyFrameView, EapolSerdeError>(
                (v.0, v.1, v.2, v.3, v.4, v.5, mem.subrange(kf + 81, kf + 97), pad_key_data(v.7)),
            )
        }),
{
    let p = f.payload->0;
    let v = p.payload@;
    let h = f.header@.len() as int;
    let kf = h + 8;
    let k = v.7.len() as int;
    let b0 = eapol_data_frame_bytes(f);
    let mem0 = b0 + ob.skip(b0.len() as int);
    lemma_eapol_data_frame_fields(f);
    lemma_padded_key_data_len(k);
    assert(mem0.subrange(0, b0.len() as int) =~= b0);
    assert(mem0[h + 6] == b0[h + 6]);
    assert(mem0[h + 7] == b0[h + 7]);
    lemma_subrange_of(mem0, 0, b0, kf, kf + 2);
    lemma_subrange_of(mem0, 0, b0, kf + 4, kf + 81);
    lemma_subrange_of(mem0, 0, b0, kf + 81, kf + 97);
    lemma_subrange_of(mem0, 0, b0, kf + 99, kf + 99 + k);
    let plain = pad_key_data(v.7);
    assert(padded_key_data(mem0, kf + 99, k) =~= plain);
    let wrapped = aes_key_wrap(kek, plain);
    lemma_eapol_serialized_layout(kck, kek, mem0, h, v, wrapped, plain);
    let mem1 = eapol_wrapped(mem0, kf, 16, wrapped);
    let w = kf + 99 + wrapped.len();
    let mic = first_bytes(hmac_sha1(kck, mem1.subrange(kf, w)), 16);
    let mem = mem1.take(kf + 81) + mic + mem1.skip(kf + 97);
    assert(eapol_serialize(Some(kck), Some(kek), f, ob, temp_len) == Ok::<
        (Seq<u8>, int),
        EapolSerdeError,
    >((mem, w)));
    lemma_eapol_deserialize_protected(kck, kek, mem.take(w), akm_suite, h, v, mic, wrapped, plain);
    assert(mem.subrange(kf + 81, kf + 97) =~= mem.take(w).subrange(kf + 81, kf + 97));
}


/// Reading what was written for a key frame that calls for neither a MIC nor encrypted key
/// data, with an AKM suite whose MIC is as long as the frame's, gives back the key frame, when
/// the frame carries the EAPOL ether type and its packet body fits a sixteen bit length.
#[verifier::spinoff_prover]
#[verifier::rlimit(40)]
pub proof fn lemma_eapol_plain_serialize_then_deserialize(
    kck: Option<Seq<u8>>,
    kek: Option<Seq<u8>>,
    f: EapolDataFrame,
    ob: Seq<u8>,
    temp_len: int,
    akm_suite: IEEE80211AKMType,
)
    requires
        f.payload is Some,
        f.payload->0.ether_type == 0x888e,
        !f.payload->0.payload@.0.spec_key_mic(),
        !f.payload->0.payload@.0.spec_encrypted_key_data(),
        akm_suite.spec_key_mic_len() == Some(f.payload->0.payload@.6.len() as usize),
        eapol_key_body(f.payload->0.payload@).len() < 0x1_0000,
        eapol_serialize(kck, kek, f, ob, temp_len) is Ok,
    ensures
        ({
            let (mem, w) = eapol_serialize(kck, kek, f, ob, temp_len)->Ok_0;
            eapol_deserialize(kck, kek, mem.take(w), akm_suite, f.header@.len() as int) == Ok::<
                EapolKeyFrameView,
                EapolSerdeError,
            >(f.payload->0.payload@)
        }),
{
    let p = f.payload->0;
    let v = p.payload@;
    let h = f.header@.len() as int;
    let kf = h + 8;
    let b0 = eapol_data_frame_bytes(f);
    let mem0 = b0 + ob.skip(b0.len() as int);
    lemma_eapol_data_frame_fields(f);
    lemma_eapol_key_frame_parts(v);
    let s = mem0.take(b0.len() as int);
    assert(s =~= b0);
    let fixed = eapol_fixed_fields(v);
    lemma_subrange_of(s, kf + 4, fixed, 1, 3);
    assert(fixed.subrange(1, 3) =~= u16_be_bytes(v.0.0));
    lemma_u16_at(s, kf + 5, v.0.0);
    assert(KeyInformation(be_u16(s, kf + 5)) == v.0);
    assert(eapol_process(kck, kek, s, akm_suite, h) == Ok::<Seq<u8>, EapolSerdeError>(s));
    let k = eapol_key_frame_bytes(v);
    assert(s.skip(kf) =~= k);
    lemma_eapol_key_frame_roundtrip(v, akm_suite);
    lemma_eapol_deserialize_of(kck, kek, s, akm_suite, h, s, v);
}

/// Reading what was written for a key frame that calls for a MIC but not for encrypted key data
/// (as messages two and four of the 4-way handshake do), with the same KCK and an AKM suite whose
/// MIC is sixteen bytes long, gives back the key frame with the MIC that writing set: the MIC is
/// the HMAC-SHA-1, under the KCK, of the key frame as written with its MIC zero, and it checks
/// out. This holds when the frame carries the EAPOL ether type, its MIC of sixteen bytes is zero
/// before it is set, and its packet body fits a sixteen bit length.
#[verifier::spinoff_prover]
#[verifier::rlimit(60)]
pub proof fn lemma_eapol_mic_serialize_then_deserialize(
    kck: Seq<u8>,
    kek: Option<Seq<u8>>,
    f: EapolDataFrame,
    ob: Seq<u8>,
    temp_len: int,
    akm_suite: IEEE80211AKMType,
)
    requires
        f.payload is Some,
        f.payload->0.ether_type == 0x888e,
        f.payload->0.payload@.0.spec_key_mic(),
        !f.payload->0.payload@.0.spec_encrypted_key_data(),
        f.payload->0.payload@.6 == Seq::new(16, |i: int| 0u8),
        akm_suite.spec_key_mic_len() == Some(16usize),
        95 + f.payload->0.payload@.7.len() < 0x1_0000,
        eapol_serialize(Some(kck), kek, f, ob, temp_len) is Ok,
    ensures
        ({
            let (mem, w) = eapol_serialize(Some(kck), kek, f, ob, temp_len)->Ok_0;
            let v = f.payload->0.payload@;
            let kf = f.header@.len() + 8int;
            let mic = mem.subrange(kf + 81, kf + 97);
            &&& mic == first_bytes(hmac_sha1(kck, eapol_key_frame_bytes(v)), 16)
            &&& eapol_deserialize(Some(kck), kek, mem.take(w), akm_suite, f.header@.len() as int)
                == Ok::<EapolKeyFrameView, EapolSerdeError>((v.0, v.1, v.2, v.3, v.4, v.5, mic, v.7))
        }),
{
    let p = f.payload->0;
    let v = p.payload@;
    let h = f.header@.len() as int;
    let kf = h + 8;
    let b0 = eapol_data_frame_bytes(f);
    let w = b0.len() as int;
    let mem0 = b0 + ob.skip(w);
    lemma_eapol_data_frame_fields(f);
    lemma_eapol_key_frame_parts(v);
    let k = eapol_key_frame_bytes(v);
    assert(mem0.take(w) =~= b0);
    assert(b0.skip(kf) =~= k);
    assert(mem0.subrange(kf, w) =~= k);
    let mic = first_bytes(hmac_sha1(kck, k), 16);
    let mem = mem0.take(kf + 81) + mic + mem0.skip(kf + 97);
    assert(eapol_serialize(Some(kck), kek, f, ob, temp_len) == Ok::<(Seq<u8>, int), EapolSerdeError>(
        (mem, w),
    ));
    let s = mem.take(w);
    assert(s.len() == w);
    assert forall|j: int| 0 <= j < w && !(kf + 81 <= j < kf + 97) implies #[trigger] s[j] == b0[j] by {
        assert(mem0[j] == b0[j]);
    }
    assert(s.subrange(kf + 81, kf + 97) =~= mic);
    assert(mem.subrange(kf + 81, kf + 97) =~= mic);
    let fixed = eapol_fixed_fields(v);
    assert(s.subrange(kf + 4, kf + 81) =~= b0.subrange(kf + 4, kf + 81));
    lemma_subrange_of(s, kf + 4, fixed, 1, 3);
    assert(fixed.subrange(1, 3) =~= u16_be_bytes(v.0.0));
    lemma_u16_at(s, kf + 5, v.0.0);
    assert(KeyInformation(be_u16(s, kf + 5)) == v.0);
    assert(be_u16(s, h + 6) == be_u16(b0, h + 6));
    assert(b0.subrange(kf + 81, kf + 97) == v.6);
    assert(eapol_mic_message(s, kf, 16) =~= k) by {
        assert forall|j: int| 0 <= j < k.len() implies #[trigger] eapol_mic_message(s, kf, 16)[j]
            == k[j] by {
            assert(k[j] == b0[kf + j]);
            if 81 <= j < 97 {
                assert(b0[kf + j] == b0.subrange(kf + 81, kf + 97)[j - 81]);
            }
        }
    }
    assert(eapol_process(Some(kck), kek, s, akm_suite, h) == Ok::<Seq<u8>, EapolSerdeError>(s));
    let v2: EapolKeyFrameView = (v.0, v.1, v.2, v.3, v.4, v.5, mic, v.7);
    let k2 = eapol_key_frame_bytes(v2);
    lemma_eapol_key_frame_parts(v2);
    assert(eapol_fixed_fields(v2) == fixed);
    assert(s.skip(kf) =~= k2) by {
        assert forall|j: int| 0 <= j < k2.len() implies #[trigger] s.skip(kf)[j] == k2[j] by {
            if j < 2 {
                assert(k2[j] == k2.subrange(0, 2)[j]);
                assert(k[j] == k.subrange(0, 2)[j]);
            } else if j < 4 {
                assert(k2[j] == k2.subrange(2, 4)[j - 2]);
                assert(k[j] == k.subrange(2, 4)[j - 2]);
            } else if j < 81 {
                assert(k2[j] == k2.subrange(4, 81)[j - 4]);
                assert(k[j] == k.subrange(4, 81)[j - 4]);
            } else if j < 97 {
                assert(k2[j] == k2.subrange(81, 97)[j - 81]);
            } else if j < 99 {
                assert(k2[j] == k2.subrange(97, 99)[j - 97]);
                assert(k[j] == k.subrange(97, 99)[j - 97]);
            } else {
                assert(k2[j] == k2.subrange(99, 99 + v.7.len() as int)[j - 99]);
                assert(k[j] == k.subrange(99, 99 + v.7.len() as int)[j - 99]);
            }
            assert(k[j] == b0[kf + j]);
        }
    }
    lemma_eapol_key_frame_reads(s.skip(kf), v2, akm_suite);
    lemma_eapol_deserialize_of(Some(kck), kek, s, akm_suite, h, s, v2);
}

/// Where the keys of a PTK stand. For an AKM suite with a KCK and a KEK of sixteen bytes (WPA,
/// PSK, the FT, SHA-256, TDLS, SAE, AP PeerKey and Suite B SHA-256 suites), the KCK is bytes 0 to
/// 16, the KEK bytes 16 to 32, and the TK follows: 32 bytes for TKIP, GCMP-256, CCMP-256,
/// BIP-GMAC-256 and BIP-CMAC-256, and 16 bytes for CCMP-128, BIP-CMAC-128, GCMP-128 and
/// BIP-GMAC-128. For the Suite B SHA-384 suites, the KCK is 24 bytes and the KEK 32. A PTK too
/// short for the three keys gives none.
pub proof fn lemma_partition_ptk_layout(
    ptk: Seq<u8>,
    akm_suite: IEEE80211AKMType,
    cipher_suite: IEEE80211CipherSuiteSelector,
)
    ensures
        (akm_suite is Wpa || akm_suite is Psk || akm_suite is FTOverIEEE8021X || akm_suite is FTUsingPsk
            || akm_suite is WpaSha256 || akm_suite is PskSha256 || akm_suite is Tdls || akm_suite is Sae
            || akm_suite is FTUsingSae || akm_suite is APPeerKey || akm_suite is WpaSha256SuiteB) && (cipher_suite is Tkip || cipher_suite is Gcmp256 || cipher_suite is Ccmp256 || cipher_suite
            is BIPGcmp256 || cipher_suite is BIPCcmp256) ==> spec_partition_ptk(ptk, akm_suite, cipher_suite) == (if ptk.len() >= 64 {
            Some((ptk.subrange(0, 16), ptk.subrange(16, 32), ptk.subrange(32, 64)))
        } else {
            None
        }),
        (akm_suite is Wpa || akm_suite is Psk || akm_suite is FTOverIEEE8021X || akm_suite is FTUsingPsk
            || akm_suite is WpaSha256 || akm_suite is PskSha256 || akm_suite is Tdls || akm_suite is Sae
            || akm_suite is FTUsingSae || akm_suite is APPeerKey || akm_suite is WpaSha256SuiteB) && (cipher_suite is Ccmp128 || cipher_suite is BipCmac128 || cipher_suite is Gcmp128 || cipher_suite
            is BIPGcmp128) ==> spec_partition_ptk(ptk, akm_suite, cipher_suite) == (if ptk.len() >= 48 {
            Some((ptk.subrange(0, 16), ptk.subrange(16, 32), ptk.subrange(32, 48)))
        } else {
            None
        }),
        (akm_suite is WpaSha384SuiteB || akm_suite is FTOverIEEE8021XSha384) && (cipher_suite is Tkip || cipher_suite is Gcmp256 || cipher_suite is Ccmp256 || cipher_suite
            is BIPGcmp256 || cipher_suite is BIPCcmp256) ==> spec_partition_ptk(ptk, akm_suite, cipher_suite) == (if ptk.len() >= 88 {
            Some((ptk.subrange(0, 24), ptk.subrange(24, 56), ptk.subrange(56, 88)))
        } else {
            None
        }),
        (akm_suite is WpaSha384SuiteB || akm_suite is FTOverIEEE8021XSha384) && (cipher_suite is Ccmp128 || cipher_suite is BipCmac128 || cipher_suite is Gcmp128 || cipher_suite
            is BIPGcmp128) ==> spec_partition_ptk(ptk, akm_suite, cipher_suite) == (if ptk.len() >= 72 {
            Some((ptk.subrange(0, 24), ptk.subrange(24, 56), ptk.subrange(56, 72)))
        } else {
            None
        }),
{
    crate::elements::rsn::lemma_akm_key_lengths(akm_suite);
    crate::elements::rsn::lemma_cipher_suite_key_lengths(cipher_suite);
    assert(ptk.take(16) =~= ptk.subrange(0, 16));
    assert(ptk.take(24) =~= ptk.subrange(0, 24));
}

} // verus!
