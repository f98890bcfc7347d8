//! The key agent: holds a secp256k1 private key as lowercase hex and exposes
//! the derived public key and a deterministic signing operation, both through
//! trusted wrappers around the `sessionless` crate.

use vstd::prelude::*;
use sessionless::hex::IntoHex;
use sessionless::hex::FromHex;

verus! {

/// Whether `c` is a lowercase hexadecimal digit.
pub open spec fn is_lower_hex_char(c: char) -> bool {
    ('0' <= c && c <= '9') || ('a' <= c && c <= 'f')
}

/// Whether every character of `s` is a lowercase hexadecimal digit.
pub open spec fn is_lower_hex(s: Seq<char>) -> bool {
    forall|i: int| 0 <= i < s.len() ==> is_lower_hex_char(s[i])
}

/// Whether `sessionless::PrivateKey::from_hex` accepts `sk`: hex text that
/// decodes to 32 bytes forming a valid secp256k1 scalar.
pub uninterp spec fn valid_key_hex(sk: Seq<char>) -> bool;

/// The lowercase hex form of the compressed (33-byte) public key derived
/// from the private key whose hex form is `sk`. Derivation depends on the
/// key alone.
pub uninterp spec fn pub_key_hex_of(sk: Seq<char>) -> Seq<char>;

/// The lowercase hex form of the compact (64-byte) ECDSA signature of `msg`
/// under the private key whose hex form is `sk`. The scheme is deterministic
/// (RFC 6979 nonces over a Keccak-256 digest), so the result depends on the
/// key and message alone.
pub uninterp spec fn sign_hex_of(sk: Seq<char>, msg: Seq<char>) -> Seq<char>;

/// A private signing key, stored as the hex text that
/// `sessionless::PrivateKey::from_hex` accepts. The key is never mutated
/// after construction.
pub struct SigningKey {
    hex: String,
}

impl SigningKey {
    /// The hex form of the private key.
    pub closed spec fn hex_spec(&self) -> Seq<char> {
        self.hex@
    }

    #[verifier::type_invariant]
    spec fn wf(self) -> bool {
        valid_key_hex(self.hex@)
    }

    /// Relies on `sessionless::Sessionless::new`: generates a fresh key pair
    /// from the operating system's entropy source, and on `IntoHex` for
    /// `PrivateKey`: 32 secret bytes become 64 lowercase hex characters.
    #[verifier::external_body]
    pub fn generate() -> (r: SigningKey)
        ensures
            r.hex_spec().len() == 64,
            is_lower_hex(r.hex_spec()),
    {
        let ctx = sessionless::Sessionless::new();
        SigningKey { hex: ctx.private_key().to_hex() }
    }

    /// Relies on `sessionless::PrivateKey::from_hex`: returns `Ok` exactly
    /// when `s` is hex text decoding to a valid secp256k1 scalar.
    #[verifier::external_body]
    pub fn from_hex(s: &str) -> (r: Option<SigningKey>)
        ensures
            r matches Some(k) ==> k.hex_spec() == s@,
            r is Some <==> valid_key_hex(s@),
    {
        match sessionless::PrivateKey::from_hex(s) {
            Ok(_) => Some(SigningKey { hex: s.to_owned() }),
            Err(_) => None,
        }
    }

    /// The hex text this key was built from.
    pub fn to_hex(&self) -> (r: String)
        ensures
            r@ == self.hex_spec(),
    {
        self.hex.clone()
    }

    /// Relies on `sessionless::Sessionless::from_private_key` and
    /// `public_key`, with `IntoHex` for `PublicKey`: the compressed SEC1
    /// form, 33 bytes as 66 lowercase hex characters, derived from the key
    /// alone. Cannot fail: every `SigningKey` holds a decodable key.
    #[verifier::external_body]
    pub fn public_key_hex(&self) -> (r: String)
        ensures
            r@ == pub_key_hex_of(self.hex_spec()),
            r@.len() == 66,
            is_lower_hex(r@),
    {
        let key = sessionless::PrivateKey::from_hex(self.hex.as_str())
            .expect("a SigningKey always holds a decodable private key");
        let ctx = sessionless::Sessionless::from_private_key(key);
        ctx.public_key().to_hex()
    }

    /// Relies on `sessionless::Sessionless::sign`: a deterministic ECDSA
    /// signature (RFC 6979 nonces) over the Keccak-256 digest of the
    /// message, with `IntoHex` for `Signature`: the 64-byte compact form as
    /// 128 lowercase hex characters. Cannot fail: every `SigningKey` holds a
    /// decodable key.
    #[verifier::external_body]
    pub fn sign_hex(&self, message: &str) -> (r: String)
        ensures
            r@ == sign_hex_of(self.hex_spec(), message@),
            r@.len() == 128,
            is_lower_hex(r@),
    {
        let key = sessionless::PrivateKey::from_hex(self.hex.as_str())
            .expect("a SigningKey always holds a decodable private key");
        let ctx = sessionless::Sessionless::from_private_key(key);
        ctx.sign(message).to_hex()
    }
}

} // verus!
