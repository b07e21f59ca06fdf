//! The hash algorithm tag and the keyed-hash (HMAC) primitive behind it.

use vstd::prelude::*;

verus! {

/// The hash function used inside HMAC, and the text emitted for it in the
/// provisioning URL.
#[derive(Clone, Copy, Debug, PartialEq, Eq, Structural)]
pub enum Algorithm {
    SHA256,
    SHA512,
}

/// The HMAC-SHA-256 digest of `msg` under `key`: a pure function of the two
/// byte sequences, left abstract here and computed by the `hmac` crate.
pub uninterp spec fn hmac_sha256_of(key: Seq<u8>, msg: Seq<u8>) -> Seq<u8>;

/// The HMAC-SHA-512 digest of `msg` under `key`: a pure function of the two
/// byte sequences, left abstract here and computed by the `hmac` crate.
pub uninterp spec fn hmac_sha512_of(key: Seq<u8>, msg: Seq<u8>) -> Seq<u8>;

/// Relies on `hmac::Hmac<sha2::Sha256>`: the digest depends only on key and
/// message, and is 32 bytes long (the SHA-256 output size). `new_from_slice`
/// accepts keys of any length for HMAC, so the `unwrap` cannot fail.
#[verifier::external_body]
fn hmac_sha256(key: &[u8], msg: &[u8]) -> (r: Vec<u8>)
    ensures
        r@ == hmac_sha256_of(key@, msg@),
        r@.len() == 32,
{
    let mut mac = <hmac::Hmac<sha2::Sha256> as hmac::KeyInit>::new_from_slice(key).unwrap();
    hmac::Mac::update(&mut mac, msg);
    hmac::Mac::finalize(mac).into_bytes().to_vec()
}

/// Relies on `hmac::Hmac<sha2::Sha512>`: the digest depends only on key and
/// message, and is 64 bytes long (the SHA-512 output size). `new_from_slice`
/// accepts keys of any length for HMAC, so the `unwrap` cannot fail.
#[verifier::external_body]
fn hmac_sha512(key: &[u8], msg: &[u8]) -> (r: Vec<u8>)
    ensures
        r@ == hmac_sha512_of(key@, msg@),
        r@.len() == 64,
{
    let mut mac = <hmac::Hmac<sha2::Sha512> as hmac::KeyInit>::new_from_slice(key).unwrap();
    hmac::Mac::update(&mut mac, msg);
    hmac::Mac::finalize(mac).into_bytes().to_vec()
}

/// The digest that `alg` assigns to `(key, msg)`.
pub open spec fn spec_hmac(alg: Algorithm, key: Seq<u8>, msg: Seq<u8>) -> Seq<u8> {
    match alg {
        Algorithm::SHA256 => hmac_sha256_of(key, msg),
        Algorithm::SHA512 => hmac_sha512_of(key, msg),
    }
}

/// The digest length of `alg`, in bytes.
pub open spec fn digest_len(alg: Algorithm) -> nat {
    match alg {
        Algorithm::SHA256 => 32,
        Algorithm::SHA512 => 64,
    }
}

/// The text that names `alg` in a provisioning URL.
pub open spec fn spec_alg_name(alg: Algorithm) -> Seq<char> {
    match alg {
        Algorithm::SHA256 => "SHA256"@,
        Algorithm::SHA512 => "SHA512"@,
    }
}

impl Algorithm {
    /// Compute the raw HMAC digest of `data` under `key` with this algorithm.
    pub fn sign(&self, key: &[u8], data: &[u8]) -> (r: Vec<u8>)
        ensures
            r@ == spec_hmac(*self, key@, data@),
            r@.len() == digest_len(*self),
    {
        match self {
            Algorithm::SHA256 => hmac_sha256(key, data),
            Algorithm::SHA512 => hmac_sha512(key, data),
        }
    }

    /// The algorithm's name as written in the provisioning URL.
    pub fn name(&self) -> (r: &'static str)
        ensures
            r@ == spec_alg_name(*self),
    {
        match self {
            Algorithm::SHA256 => "SHA256",
            Algorithm::SHA512 => "SHA512",
        }
    }
}

} // verus!
