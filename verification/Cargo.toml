[package]
name = "ieee80211"
version = "0.1.0"
edition = "2021"
publish = false

[dependencies]
crc32fast = "=1.5.4"
hmac = "=0.12.1"
sha1 = "=0.10.7"
sha2 = "=0.10.9"
pbkdf2 = "=0.12.2"
aes-kw = "=0.2.1"
llc-rs = "=0.1.3"
mac-parser = "=0.2.0"
