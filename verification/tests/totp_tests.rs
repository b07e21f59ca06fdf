use totp::Algorithm;
use totp::ConfigError;
use totp::DecodeError;
use totp::Secret;
use totp::TOTP;

/// The RFC 6238 test seed for HMAC-SHA-256: 32 ASCII bytes.
fn seed32() -> Vec<u8> {
    b"12345678901234567890123456789012".to_vec()
}

/// The RFC 6238 test seed for HMAC-SHA-512: 64 ASCII bytes.
fn seed64() -> Vec<u8> {
    b"1234567890123456789012345678901234567890123456789012345678901234".to_vec()
}

fn default_engine(secret_bytes: Vec<u8>) -> TOTP {
    TOTP::new(Secret(secret_bytes), "Iss".to_string(), "acc".to_string()).unwrap()
}

#[test]
fn generate_is_deterministic() {
    let e = default_engine(seed32());
    let a = e.generate(1111);
    let b = e.generate(1111);
    assert_eq!(a, b);
}

#[test]
fn same_step_same_code() {
    let e = default_engine(seed32());
    assert_eq!(e.generate(60), e.generate(89));
    assert_eq!(e.generate(0), e.generate(29));
}

#[test]
fn code_width_is_exact() {
    for digits in [6usize, 7, 8] {
        let e = TOTP::new_with_config(
            Algorithm::SHA256,
            digits,
            1,
            30,
            Secret(seed32()),
            "Iss".to_string(),
            "acc".to_string(),
        )
        .unwrap();
        for k in 0..50u64 {
            let code = e.generate(k * 30);
            assert_eq!(code.len(), digits);
            assert!(code.chars().all(|c| c.is_ascii_digit()));
        }
    }
}

#[test]
fn short_codes_are_zero_padded() {
    let e = default_engine(seed32());
    let mut found_leading_zero = false;
    for k in 0..2000u64 {
        let code = e.generate(k * 30);
        assert_eq!(code.len(), 6);
        if code.starts_with('0') {
            found_leading_zero = true;
            break;
        }
    }
    assert!(found_leading_zero);
}

#[test]
fn window_acceptance() {
    let e = default_engine(seed32());
    let code = e.generate(90);
    assert!(e.verify(&code, 90));
    assert!(e.verify(&code, 60));
    assert!(e.verify(&code, 120));
    assert!(!e.verify(&code, 180));
}

#[test]
fn rejection_on_tamper() {
    let e = default_engine(seed32());
    let code = e.generate(90);
    for idx in 0..code.len() {
        let mut tampered = String::new();
        for (j, c) in code.chars().enumerate() {
            if j == idx {
                tampered.push(if c == '0' { '1' } else { '0' });
            } else {
                tampered.push(c);
            }
        }
        assert_ne!(tampered, code);
        assert!(!e.verify(&tampered, 90));
    }
}

#[test]
fn url_shape() {
    let e = TOTP {
        alg: Algorithm::SHA256,
        digits: 6,
        skew: 1,
        step: 30,
        secret: Secret(vec![0x48, 0x65, 0x6C, 0x6C, 0x6F]),
        issuer: "Iss".to_string(),
        account: "acc".to_string(),
    };
    assert_eq!(
        e.get_url(),
        "otpauth://totp/Iss:acc?issuer=Iss&secret=JBSWY3DP&digits=6&algorithm=SHA256"
    );
}

#[test]
fn url_names_sha512_and_digit_count() {
    let e = TOTP::new_with_config(
        Algorithm::SHA512,
        8,
        1,
        30,
        Secret(seed64()),
        "Iss".to_string(),
        "acc".to_string(),
    )
    .unwrap();
    let url = e.get_url();
    assert!(url.ends_with("&digits=8&algorithm=SHA512"));
    assert!(url.starts_with("otpauth://totp/Iss:acc?issuer=Iss&secret="));
}

#[test]
fn known_answer_sha256() {
    // RFC 6238 appendix B, SHA-256 row for time 59: counter 1, eight-digit
    // code 46119246; the low six digits survive the narrower reduction.
    let e = default_engine(seed32());
    assert_eq!(e.generate(59), "119246");
    let e8 = TOTP::new_with_config(
        Algorithm::SHA256,
        8,
        1,
        30,
        Secret(seed32()),
        "Iss".to_string(),
        "acc".to_string(),
    )
    .unwrap();
    assert_eq!(e8.generate(59), "46119246");
}

#[test]
fn known_answer_sha512() {
    // RFC 6238 appendix B, SHA-512 row for time 59: eight-digit code 90693936.
    let e8 = TOTP::new_with_config(
        Algorithm::SHA512,
        8,
        1,
        30,
        Secret(seed64()),
        "Iss".to_string(),
        "acc".to_string(),
    )
    .unwrap();
    assert_eq!(e8.generate(59), "90693936");
}

#[test]
fn construction_rejects_short_secret() {
    let r = TOTP::new(Secret(vec![0u8; 10]), "Iss".to_string(), "acc".to_string());
    assert!(matches!(r, Err(ConfigError::SecretTooShort)));
}

#[test]
fn construction_rejects_reserved_character() {
    let r = TOTP::new(Secret(seed32()), "I:ss".to_string(), "acc".to_string());
    assert!(matches!(r, Err(ConfigError::ReservedCharacter)));
    let r = TOTP::new(Secret(seed32()), "Iss".to_string(), "a:cc".to_string());
    assert!(matches!(r, Err(ConfigError::ReservedCharacter)));
}

#[test]
fn construction_rejects_bad_digit_count() {
    for digits in [0usize, 5, 9, 100] {
        let r = TOTP::new_with_config(
            Algorithm::SHA256,
            digits,
            1,
            30,
            Secret(seed32()),
            "Iss".to_string(),
            "acc".to_string(),
        );
        assert!(matches!(r, Err(ConfigError::DigitsOutOfRange)));
    }
}

#[test]
fn secret_from_base32() {
    let s = Secret::from("JBSWY3DP").unwrap();
    assert_eq!(s.0, vec![0x48, 0x65, 0x6C, 0x6C, 0x6F]);
}

#[test]
fn secret_from_rejects_malformed_text() {
    let r = Secret::from("!!!!");
    assert!(matches!(r, Err(DecodeError::InvalidBase32)));
}

#[test]
fn secret_round_trips_through_base32() {
    let s = Secret(vec![0x48, 0x65, 0x6C, 0x6C, 0x6F]);
    assert_eq!(s.get_base32(), "JBSWY3DP");
    let back = Secret::from(&s.get_base32()).unwrap();
    assert_eq!(back.0, s.0);
}

#[test]
fn fresh_secret_has_twenty_bytes() {
    let a = Secret::new();
    let b = Secret::new();
    assert_eq!(a.0.len(), 20);
    assert_eq!(b.0.len(), 20);
    assert_ne!(a.0, b.0);
}

#[test]
fn algorithm_names() {
    assert_eq!(Algorithm::SHA256.name(), "SHA256");
    assert_eq!(Algorithm::SHA512.name(), "SHA512");
}
