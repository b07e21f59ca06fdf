//! The shared secret: raw bytes, Base32 import/export, random generation.

use vstd::prelude::*;

verus! {

/// The shared key: an opaque byte sequence. Engines require at least 16
/// bytes at construction, but a shorter secret may exist transiently.
#[derive(Debug)]
pub struct Secret(pub Vec<u8>);

/// Importing a secret from malformed Base32 text fails with this error.
#[derive(Clone, Copy, Debug, PartialEq, Eq, Structural)]
pub enum DecodeError {
    InvalidBase32,
}

/// The unpadded RFC 4648 Base32 encoding of `bytes`: a pure function of the
/// bytes, left abstract here and computed by the `base32` crate.
pub uninterp spec fn base32_of(bytes: Seq<u8>) -> Seq<char>;

/// What the unpadded RFC 4648 Base32 decoder makes of `text`: `None` on
/// malformed input, otherwise the decoded bytes. A pure function of the
/// text, left abstract here and computed by the `base32` crate.
pub uninterp spec fn base32_decoded(text: Seq<char>) -> Option<Seq<u8>>;

/// Relies on `base32::encode` with `Alphabet::Rfc4648 { padding: false }`:
/// the output depends only on the input bytes.
#[verifier::external_body]
fn base32_encode(data: &[u8]) -> (r: String)
    ensures
        r@ == base32_of(data@),
{
    base32::encode(base32::Alphabet::Rfc4648 { padding: false }, data)
}

/// Relies on `base32::decode` with `Alphabet::Rfc4648 { padding: false }`:
/// it returns `None` exactly on input it cannot decode, and the decoded
/// bytes depend only on the input text.
#[verifier::external_body]
fn base32_decode(text: &str) -> (r: Option<Vec<u8>>)
    ensures
        match r {
            Some(v) => base32_decoded(text@) == Some(v@),
            None => base32_decoded(text@) is None,
        },
{
    base32::decode(base32::Alphabet::Rfc4648 { padding: false }, text)
}

/// Relies on `fastrand::u8` over the full range, which draws one byte from
/// the thread-local generator; nothing is promised of the value.
#[verifier::external_body]
fn random_byte() -> u8 {
    fastrand::u8(..)
}

impl Secret {
    /// Draw a fresh 20-byte secret from the process-wide random source.
    pub fn new() -> (r: Secret)
        ensures
            r.0@.len() == 20,
    {
        let mut bytes: Vec<u8> = Vec::new();
        let mut i: usize = 0;
        while i < 20
            invariant
                i <= 20,
                bytes@.len() == i,
            decreases 20 - i,
        {
            bytes.push(random_byte());
            i = i + 1;
        }
        Secret(bytes)
    }

    /// Import a secret from its unpadded Base32 text form. Succeeds exactly
    /// when the decoder accepts the text, and never substitutes a default.
    pub fn from(secret: &str) -> (r: Result<Secret, DecodeError>)
        ensures
            match r {
                Ok(s) => base32_decoded(secret@) == Some(s.0@),
                Err(_) => base32_decoded(secret@) is None,
            },
    {
        match base32_decode(secret) {
            Some(bytes) => Ok(Secret(bytes)),
            None => Err(DecodeError::InvalidBase32),
        }
    }

    /// The unpadded Base32 text form of this secret.
    pub fn get_base32(&self) -> (r: String)
        ensures
            r@ == base32_of(self.0@),
    {
        base32_encode(self.0.as_slice())
    }
}

} // verus!
