//! Key generation: a fresh x25519 keypair, both halves base64-encoded.

use vstd::prelude::*;

verus! {

/// Whether `wireguard_keys::Privkey::parse` accepts this text as a private
/// key: 44 characters of standard or url-safe base64 encoding 32 bytes.
pub uninterp spec fn parses_as_privkey(s: Seq<char>) -> bool;

/// The base64 public key that `wireguard_keys::Privkey::pubkey` derives from
/// the private key written in `s`; a function of the key bytes alone.
pub uninterp spec fn pubkey_of(s: Seq<char>) -> Seq<char>;

/// Relies on wireguard_keys::Privkey::generate, which draws a fresh key from
/// the operating system's secure random source, and to_base64, which encodes
/// its 32 bytes as 44 characters of padded base64; Privkey::parse accepts
/// exactly such 44-character encodings again.
#[verifier::external_body]
pub(crate) fn generate_privkey_base64() -> (r: String)
    ensures
        r@.len() == 44,
        parses_as_privkey(r@),
{
    wireguard_keys::Privkey::generate().to_base64()
}

/// Relies on wireguard_keys::Privkey::pubkey, which derives the public
/// counterpart of a private key deterministically from its bytes; the
/// argument is decoded with Privkey::parse and the result encoded with
/// to_base64.
#[verifier::external_body]
pub(crate) fn derive_pubkey_base64(s: &str) -> (r: String)
    requires
        parses_as_privkey(s@),
    ensures
        r@ == pubkey_of(s@),
        r@.len() == 44,
{
    let key: wireguard_keys::Privkey = s.parse().unwrap();
    key.pubkey().to_base64()
}

} // verus!
