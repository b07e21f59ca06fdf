//! The TOTP engine: configuration, code generation by dynamic truncation,
//! sliding-window verification, and the provisioning URL.

use vstd::prelude::*;
use vstd::arithmetic::div_mod::lemma_div_by_multiple;
use vstd::arithmetic::div_mod::lemma_fundamental_div_mod;
use vstd::arithmetic::div_mod::lemma_fundamental_div_mod_converse;
use vstd::arithmetic::div_mod::lemma_mod_division_less_than_divisor;
use vstd::arithmetic::mul::lemma_mul_inequality;
use vstd::string::StrSliceExecFns;
use vstd::string::StringExecFns;

use crate::algorithm::Algorithm;
use crate::algorithm::digest_len;
use crate::algorithm::spec_alg_name;
use crate::algorithm::spec_hmac;
use crate::digits::dec_render;
use crate::digits::dec_seq;
use crate::digits::lemma_dec_seq_len;
use crate::digits::pow10;
use crate::secret::Secret;
use crate::secret::base32_of;

verus! {

/// An engine configuration the constructors refuse.
#[derive(Clone, Copy, Debug, PartialEq, Eq, Structural)]
pub enum ConfigError {
    /// The secret holds fewer than 16 bytes.
    SecretTooShort,
    /// The issuer or account label contains `:`, the URL field delimiter.
    ReservedCharacter,
    /// The digit count lies outside 6 through 8.
    DigitsOutOfRange,
}

/// A TOTP engine: a shared secret with the configuration that turns a Unix
/// timestamp into a short numeric code.
#[derive(Debug)]
pub struct TOTP {
    pub alg: Algorithm,
    pub digits: usize,
    pub skew: u8,
    pub step: u64,
    pub secret: Secret,
    pub issuer: String,
    pub account: String,
}

/// Byte `i` of the 8-byte big-endian serialization of `n`.
pub open spec fn be_byte(n: u64, i: int) -> u8 {
    ((n >> (((7 - i) * 8) as u64)) & 0xff) as u8
}

/// The 8-byte big-endian serialization of `n`.
pub open spec fn be_bytes_of(n: u64) -> Seq<u8> {
    Seq::new(8, |i: int| be_byte(n, i))
}

/// Dynamic truncation (RFC 4226): the low 4 bits of the last digest byte
/// pick an offset; the 4 bytes there, read big-endian with the sign bit
/// cleared, are the truncated value.
pub open spec fn truncated_value(digest: Seq<u8>) -> u32 {
    let offset = (digest.last() & 15) as int;
    let b0 = digest[offset] as u32;
    let b1 = digest[offset + 1] as u32;
    let b2 = digest[offset + 2] as u32;
    let b3 = digest[offset + 3] as u32;
    ((b0 << 24u32) | (b1 << 16u32) | (b2 << 8u32) | b3) & 0x7fff_ffffu32
}

/// The code the engine assigns to a counter value: the truncated HMAC of
/// the counter's big-endian bytes, reduced to `digits` decimal digits.
pub open spec fn code_at(e: TOTP, counter: u64) -> Seq<char> {
    let digest = spec_hmac(e.alg, e.secret.0@, be_bytes_of(counter));
    dec_seq(truncated_value(digest) as int % pow10(e.digits as nat) as int, e.digits as nat)
}

/// The counter for a timestamp: the number of whole steps elapsed.
pub open spec fn spec_counter(e: TOTP, time: u64) -> u64 {
    time / e.step
}

/// The code generated for a timestamp.
pub open spec fn spec_generate(e: TOTP, time: u64) -> Seq<char> {
    code_at(e, spec_counter(e, time))
}

/// The code of the `i`-th window slot around `time`: slot `e.skew` is the
/// timestamp's own step, lower slots lie before it, higher ones after.
pub open spec fn window_code(e: TOTP, time: u64, i: int) -> Seq<char> {
    code_at(e, ((spec_counter(e, time) - e.skew) + i) as u64)
}

/// Whether `token` matches any of the `2 * skew + 1` window slots around
/// `time`.
pub open spec fn spec_verify(e: TOTP, token: Seq<char>, time: u64) -> bool {
    exists|i: int| 0 <= i <= 2 * (e.skew as int) && #[trigger] window_code(e, time, i) == token
}

/// The provisioning URL for an engine.
pub open spec fn spec_url(e: TOTP) -> Seq<char> {
    "otpauth://totp/"@ + e.issuer@ + ":"@ + e.account@ + "?issuer="@ + e.issuer@ + "&secret="@
        + base32_of(e.secret.0@) + "&digits="@ + dec_seq(e.digits as int, 1) + "&algorithm="@
        + spec_alg_name(e.alg)
}

/// Serialize `n` as 8 big-endian bytes.
fn counter_bytes(n: u64) -> (r: Vec<u8>)
    ensures
        r@ == be_bytes_of(n),
{
    let mut r: Vec<u8> = Vec::new();
    let mut i: usize = 0;
    while i < 8
        invariant
            i <= 8,
            r@.len() == i,
            forall|j: int| 0 <= j < i ==> r@[j] == be_byte(n, j),
        decreases 8 - i,
    {
        let shift: u64 = ((7 - i) as u64) * 8;
        let masked: u64 = (n >> shift) & 0xff;
        assert((n >> shift) & 0xff < 256) by (bit_vector);
        r.push(masked as u8);
        i = i + 1;
    }
    assert(r@ =~= be_bytes_of(n));
    r
}

/// Apply dynamic truncation to a digest of at least 20 bytes.
fn truncate(digest: &Vec<u8>) -> (r: u32)
    requires
        digest@.len() >= 20,
    ensures
        r == truncated_value(digest@),
{
    let last: u8 = digest[digest.len() - 1];
    assert(last & 15 < 16) by (bit_vector);
    let offset: usize = (last & 15) as usize;
    let b0 = digest[offset];
    let b1 = digest[offset + 1];
    let b2 = digest[offset + 2];
    let b3 = digest[offset + 3];
    let v: u32 = ((b0 as u32) << 24u32) | ((b1 as u32) << 16u32) | ((b2 as u32) << 8u32)
        | (b3 as u32);
    v & 0x7fff_ffff
}

/// The power of ten that reduces a truncated value to `d` decimal digits.
fn pow10_exec(d: usize) -> (r: u32)
    requires
        6 <= d <= 8,
    ensures
        r == pow10(d as nat),
        r >= 1,
{
    proof {
        reveal_with_fuel(pow10, 9);
    }
    if d == 6 {
        1_000_000
    } else if d == 7 {
        10_000_000
    } else {
        100_000_000
    }
}

/// Whether `s` contains the reserved label delimiter `:`.
fn contains_colon(s: &str) -> (r: bool)
    ensures
        r == s@.contains(':'),
{
    let n = s.unicode_len();
    let mut i: usize = 0;
    while i < n
        invariant
            i <= n,
            n == s@.len(),
            forall|j: int| 0 <= j < i ==> s@[j] != ':',
        decreases n - i,
    {
        if s.get_char(i) == ':' {
            assert(s@.contains(':')) by {
                assert(s@[i as int] == ':');
            }
            return true;
        }
        i = i + 1;
    }
    assert(!s@.contains(':'));
    false
}

impl TOTP {
    /// The configuration invariant every engine operation assumes: the
    /// secret is long enough, the labels are free of `:`, the digit count
    /// lies in 6 through 8, the step is positive, and the skew is small
    /// enough that the window size fits its arithmetic.
    pub open spec fn wf(self) -> bool {
        &&& self.secret.0@.len() >= 16
        &&& !self.issuer@.contains(':')
        &&& !self.account@.contains(':')
        &&& 6 <= self.digits <= 8
        &&& 1 <= self.step
        &&& self.skew <= 127
    }

    /// Build an engine with the default configuration: SHA-256, 6 digits,
    /// skew 1, 30-second step. Rejects a secret under 16 bytes and labels
    /// containing `:`, in that order.
    pub fn new(secret: Secret, issuer: String, account: String) -> (r: Result<TOTP, ConfigError>)
        ensures
            r == (if secret.0@.len() < 16 {
                Err::<TOTP, ConfigError>(ConfigError::SecretTooShort)
            } else if issuer@.contains(':') || account@.contains(':') {
                Err::<TOTP, ConfigError>(ConfigError::ReservedCharacter)
            } else {
                Ok::<TOTP, ConfigError>(
                    (TOTP {
                        alg: Algorithm::SHA256,
                        digits: 6,
                        skew: 1,
                        step: 30,
                        secret,
                        issuer,
                        account,
                    }),
                )
            }),
            r is Ok ==> r->Ok_0.wf(),
    {
        if secret.0.len() < 16 {
            Err(ConfigError::SecretTooShort)
        } else if contains_colon(issuer.as_str()) || contains_colon(account.as_str()) {
            Err(ConfigError::ReservedCharacter)
        } else {
            Ok(
                TOTP {
                    alg: Algorithm::SHA256,
                    digits: 6,
                    skew: 1,
                    step: 30,
                    secret,
                    issuer,
                    account,
                },
            )
        }
    }

    /// Build an engine with an explicit configuration. Rejects, in order, a
    /// secret under 16 bytes, labels containing `:`, and a digit count
    /// outside 6 through 8.
    pub fn new_with_config(
        alg: Algorithm,
        digits: usize,
        skew: u8,
        step: u64,
        secret: Secret,
        issuer: String,
        account: String,
    ) -> (r: Result<TOTP, ConfigError>)
        requires
            1 <= step,
            skew <= 127,
        ensures
            r == (if secret.0@.len() < 16 {
                Err::<TOTP, ConfigError>(ConfigError::SecretTooShort)
            } else if issuer@.contains(':') || account@.contains(':') {
                Err::<TOTP, ConfigError>(ConfigError::ReservedCharacter)
            } else if digits < 6 || digits > 8 {
                Err::<TOTP, ConfigError>(ConfigError::DigitsOutOfRange)
            } else {
                Ok::<TOTP, ConfigError>(
                    (TOTP { alg, digits, skew, step, secret, issuer, account }),
                )
            }),
            r is Ok ==> r->Ok_0.wf(),
    {
        if secret.0.len() < 16 {
            Err(ConfigError::SecretTooShort)
        } else if contains_colon(issuer.as_str()) || contains_colon(account.as_str()) {
            Err(ConfigError::ReservedCharacter)
        } else if digits < 6 || digits > 8 {
            Err(ConfigError::DigitsOutOfRange)
        } else {
            Ok(TOTP { alg, digits, skew, step, secret, issuer, account })
        }
    }

    /// The HMAC digest of the counter for `time`.
    fn sign(&self, time: u64) -> (r: Vec<u8>)
        requires
            1 <= self.step,
        ensures
            r@ == spec_hmac(self.alg, self.secret.0@, be_bytes_of(spec_counter(*self, time))),
            r@.len() == digest_len(self.alg),
    {
        let counter: u64 = time / self.step;
        let data = counter_bytes(counter);
        self.alg.sign(self.secret.0.as_slice(), data.as_slice())
    }

    /// Generate the code for `time`: always exactly `digits` decimal
    /// characters, zero-padded, and a pure function of the engine
    /// configuration and the counter `time / step`.
    pub fn generate(&self, time: u64) -> (r: String)
        requires
            1 <= self.step,
            6 <= self.digits <= 8,
        ensures
            r@ == spec_generate(*self, time),
            r@.len() == self.digits,
    {
        let digest = self.sign(time);
        let t = truncate(&digest);
        let m = pow10_exec(self.digits);
        dec_render(t % m, self.digits)
    }

    /// Check `token` against the `2 * skew + 1` codes of the window around
    /// `time`, returning true exactly when one matches.
    pub fn verify(&self, token: &str, time: u64) -> (r: bool)
        requires
            1 <= self.step,
            6 <= self.digits <= 8,
            self.skew <= 127,
            self.skew as u64 <= time / self.step,
            time as int + (self.skew as int) * (self.step as int) <= u64::MAX as int,
        ensures
            r == spec_verify(*self, token@, time),
    {
        let q: u64 = time / self.step;
        let basestep: u64 = q - (self.skew as u64);
        let tok: String = token.to_owned();
        let window: u64 = 2 * (self.skew as u64) + 1;
        let mut i: u64 = 0;
        while i < window
            invariant
                1 <= self.step,
                6 <= self.digits <= 8,
                self.skew <= 127,
                q == time / self.step,
                self.skew as u64 <= q,
                time as int + (self.skew as int) * (self.step as int) <= u64::MAX as int,
                basestep == q - self.skew as u64,
                window == 2 * (self.skew as u64) + 1,
                i <= window,
                tok@ == token@,
                forall|j: int| 0 <= j < i ==> window_code(*self, time, j) != token@,
            decreases window - i,
        {
            proof {
                let t = time as int;
                let s = self.step as int;
                let k = self.skew as int;
                let c = basestep as int + i as int;
                lemma_fundamental_div_mod(t, s);
                lemma_mod_division_less_than_divisor(t, s);
                assert(s * (q as int) <= t);
                lemma_mul_inequality(1, s, q as int);
                lemma_mul_inequality(1, s, k);
                assert(q as int * s == s * (q as int)) by (nonlinear_arith);
                assert(k * s == s * k) by (nonlinear_arith);
                assert(c <= q as int + k);
                lemma_mul_inequality(c, q as int + k, s);
                assert((q as int + k) * s == s * (q as int) + k * s) by (nonlinear_arith);
                assert(c * s <= t + k * s);
            }
            let counter: u64 = basestep + i;
            let step_time: u64 = counter * self.step;
            proof {
                lemma_div_by_multiple(counter as int, self.step as int);
                assert(step_time as int / (self.step as int) == counter as int);
            }
            let g = self.generate(step_time);
            if g == tok {
                assert(window_code(*self, time, i as int) == token@);
                return true;
            }
            i = i + 1;
        }
        false
    }

    /// The provisioning URL for this engine, in the exact field order
    /// authenticator apps expect. The time step is not emitted: consumers
    /// assume the default 30 seconds.
    pub fn get_url(&self) -> (r: String)
        requires
            6 <= self.digits <= 8,
        ensures
            r@ == spec_url(*self),
    {
        let mut url = String::new();
        url.append("otpauth://totp/");
        url.append(self.issuer.as_str());
        url.append(":");
        url.append(self.account.as_str());
        url.append("?issuer=");
        url.append(self.issuer.as_str());
        url.append("&secret=");
        let b32 = self.secret.get_base32();
        url.append(b32.as_str());
        url.append("&digits=");
        let d = dec_render(self.digits as u32, 1);
        url.append(d.as_str());
        url.append("&algorithm=");
        url.append(self.alg.name());
        proof {
            assert(url@ =~= spec_url(*self));
        }
        url
    }
}

/// Law: generation is deterministic. Two codes generated from the same
/// engine and timestamp are equal.
pub proof fn lemma_generate_deterministic(e: TOTP, time: u64, r1: Seq<char>, r2: Seq<char>)
    requires
        r1 == spec_generate(e, time),
        r2 == spec_generate(e, time),
    ensures
        r1 == r2,
{
}

/// Law: the code depends on the timestamp only through its counter. Two
/// timestamps in the same step yield the same code.
pub proof fn lemma_same_step_same_code(e: TOTP, t1: u64, t2: u64)
    requires
        t1 / e.step == t2 / e.step,
    ensures
        spec_generate(e, t1) == spec_generate(e, t2),
{
}

/// Law: a generated code always has exactly `digits` characters.
pub proof fn lemma_code_width(e: TOTP, time: u64)
    ensures
        spec_generate(e, time).len() == e.digits,
{
    let digest = spec_hmac(e.alg, e.secret.0@, be_bytes_of(spec_counter(e, time)));
    lemma_dec_seq_len(
        truncated_value(digest) as int % pow10(e.digits as nat) as int,
        e.digits as nat,
    );
}

/// Law: with skew 1 and a 30-second step, the code generated at `t` is
/// accepted by verification at `t` itself, one step earlier, and one step
/// later.
pub proof fn lemma_window_accepts(e: TOTP, t: u64)
    requires
        e.skew == 1,
        e.step == 30,
        60 <= t,
        t as int + 30 <= u64::MAX as int,
    ensures
        spec_verify(e, spec_generate(e, t), t),
        spec_verify(e, spec_generate(e, t), (t - 30) as u64),
        spec_verify(e, spec_generate(e, t), (t + 30) as u64),
{
    let tok = spec_generate(e, t);
    let q = spec_counter(e, t) as int;
    lemma_fundamental_div_mod(t as int, 30);
    lemma_mod_division_less_than_divisor(t as int, 30);
    let r = t as int % 30;
    assert(t as int == 30 * q + r);
    lemma_fundamental_div_mod_converse(t as int - 30, 30, q - 1, r);
    lemma_fundamental_div_mod_converse(t as int + 30, 30, q + 1, r);
    assert(spec_counter(e, (t - 30) as u64) as int == q - 1);
    assert(spec_counter(e, (t + 30) as u64) as int == q + 1);
    assert(window_code(e, t, 1) == tok);
    assert(window_code(e, (t - 30) as u64, 2) == tok);
    assert(window_code(e, (t + 30) as u64, 0) == tok);
}

} // verus!
