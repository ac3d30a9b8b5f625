# ieee80211

A library for reading and writing IEEE 802.11 frames, elements and the EAPOL key frames of
the RSN handshake, verified with Verus.

- `src/common`: the frame control field, association IDs, status and reason codes, the FCS,
  and the byte-level reading and writing everything else is stated over.
- `src/elements`: the tagged elements (SSID, rates, TIM, RSN, HT, VHT, mesh, KDEs, ...), the
  `Element` trait that finds and reads them among raw elements, and their read/write laws.
- `src/crypto`: Michael, the CCMP/TKIP crypto header, the EAPOL key frame, and key management:
  the PRF, PTK derivation, PMKIDs, passphrase mapping, AES key wrapping, and the writing and
  reading of EAPOL data frames, with laws that reading undoes writing for frames with neither a
  MIC nor encrypted key data, with a MIC only, and with both (given a zero MIC field before
  writing).
- `src/frames.rs`: a generic frame with its FCS.
- `app/`: text forms that need floating point.

The outside crates (`crc32fast`, `hmac`, `sha1`, `pbkdf2`, `aes-kw`, `llc-rs`) are called
through small trusted wrappers whose contracts name their results; `sha2` supplies SHA-256 and
SHA-384 for the HMACs that PMKIDs can be generated with. `mac-parser` is listed but not used:
MAC addresses are plain `[u8; 6]` arrays.

Reading borrows from the input where the element allows it (string slices, bitmaps, raw
element bodies). Writing builds the serialized bytes in a `Vec` and copies them into the
caller's buffer, so, unlike a zero-copy writer, it allocates.
