use argon2::password_hash::{PasswordHasher, SaltString};
use argon2::{Algorithm, Argon2, Params, Version};
use argonia::engine::{accepts_derivation, decode, verify_password, verify_record};
use argonia::error::VerifyError;
use argonia::record::HashRecord;
use argonia::verify;

const M256_T2_P1: &str =
    "$argon2id$v=19$m=256,t=2,p=1$c29tZXNhbHQ$nf65EOgLrQMR/uIPnA4rEsF5h7TKyQwu9U1bMCHGi/4";
const M256_T2_P2: &str =
    "$argon2id$v=19$m=256,t=2,p=2$c29tZXNhbHQ$bQk8UB/VmZZF4Oo79iDXuL5/0ttZwg2f/5U52iv1cDc";
const M256_T2_P1_KEY: [u8; 32] = [
    0x9d, 0xfe, 0xb9, 0x10, 0xe8, 0x0b, 0xad, 0x03, 0x11, 0xfe, 0xe2, 0x0f, 0x9c, 0x0e, 0x2b,
    0x12, 0xc1, 0x79, 0x87, 0xb4, 0xca, 0xc9, 0x0c, 0x2e, 0xf5, 0x4d, 0x5b, 0x30, 0x21, 0xc6,
    0x8b, 0xfe,
];

#[test]
fn known_hash_with_other_cost_parameters_verifies() {
    assert_eq!(verify(M256_T2_P1, "password"), Ok(true));
    assert_eq!(verify(M256_T2_P2, "password"), Ok(true));
}

#[test]
fn known_hash_rejects_another_password() {
    assert_eq!(verify(M256_T2_P1, "passwore"), Ok(false));
    assert_eq!(verify(M256_T2_P1, ""), Ok(false));
    assert_eq!(verify(M256_T2_P2, "Password"), Ok(false));
}

#[test]
fn cost_parameters_are_read_from_the_string() {
    let key_of_one_lane = M256_T2_P1.rsplit('$').next().unwrap();
    let two_lanes = format!("$argon2id$v=19$m=256,t=2,p=2$c29tZXNhbHQ${}", key_of_one_lane);
    assert_eq!(verify(&two_lanes, "password"), Ok(false));
    let three_passes = format!("$argon2id$v=19$m=256,t=3,p=1$c29tZXNhbHQ${}", key_of_one_lane);
    assert_eq!(verify(&three_passes, "password"), Ok(false));
    let more_memory = format!("$argon2id$v=19$m=257,t=2,p=1$c29tZXNhbHQ${}", key_of_one_lane);
    assert_eq!(verify(&more_memory, "password"), Ok(false));
}

#[test]
fn hash_made_elsewhere_with_other_cost_parameters_verifies() {
    let params = Params::new(64, 3, 2, Some(24)).unwrap();
    let context = Argon2::new(Algorithm::Argon2id, Version::V0x13, params);
    let salt = SaltString::encode_b64(b"a salt of 20 bytes..").unwrap();
    let hashed = context
        .hash_password("correct horse".as_bytes(), &salt)
        .unwrap()
        .to_string();
    assert!(hashed.starts_with("$argon2id$v=19$m=64,t=3,p=2$"));
    assert_eq!(verify(&hashed, "correct horse"), Ok(true));
    assert_eq!(verify(&hashed, "correct horses"), Ok(false));
    assert_eq!(verify_password(b"correct horse", &hashed), Ok(true));
}

#[test]
fn verification_gives_the_same_answer_each_time() {
    assert_eq!(verify(M256_T2_P1, "password"), verify(M256_T2_P1, "password"));
    assert_eq!(verify(M256_T2_P1, "x"), verify(M256_T2_P1, "x"));
    assert_eq!(verify("$argon2id", "x"), verify("$argon2id", "x"));
}

#[test]
fn decode_reads_every_field() {
    let record = decode(M256_T2_P1).unwrap();
    assert_eq!(record.config().memory_cost(), 256);
    assert_eq!(record.config().time_cost(), 2);
    assert_eq!(record.config().parallelism_cost(), 1);
    assert_eq!(record.config().output_length(), Some(32));
    assert_eq!(record.salt(), b"somesalt");
    assert_eq!(record.key(), &M256_T2_P1_KEY[..]);
    assert_eq!(decode(M256_T2_P2).unwrap().config().parallelism_cost(), 2);
}

#[test]
fn record_put_together_by_hand_verifies() {
    let record = HashRecord::new(256, 2, 1, b"somesalt".to_vec(), M256_T2_P1_KEY.to_vec()).unwrap();
    assert!(verify_record(b"password", &record));
    assert!(!verify_record(b"passwore", &record));
    let mut key = M256_T2_P1_KEY.to_vec();
    key[31] ^= 1;
    let record = HashRecord::new(256, 2, 1, b"somesalt".to_vec(), key).unwrap();
    assert!(!verify_record(b"password", &record));
    let record = HashRecord::new(256, 2, 1, b"somesalt".to_vec(), M256_T2_P1_KEY[..31].to_vec())
        .unwrap();
    assert!(!verify_record(b"password", &record));
}

#[test]
fn key_of_a_length_that_no_phc_string_carries_never_matches() {
    let record = HashRecord::new(256, 2, 1, b"somesalt".to_vec(), vec![0u8; 4]).unwrap();
    assert!(!verify_record(b"password", &record));
    let record = HashRecord::new(256, 2, 1, b"somesalt".to_vec(), vec![0u8; 65]).unwrap();
    assert!(!verify_record(b"password", &record));
}

#[test]
fn other_variants_are_malformed() {
    assert_eq!(
        verify(
            "$argon2i$v=19$m=256,t=2,p=1$c29tZXNhbHQ$iekCn0Y3spW+sCcFanM2xBT63UP2sghkUoHLIUpWRS8",
            "password"
        ),
        Err(VerifyError::MalformedHash)
    );
    assert_eq!(
        verify(
            "$argon2d$v=19$m=256,t=2,p=1$c29tZXNhbHQ$nf65EOgLrQMR/uIPnA4rEsF5h7TKyQwu9U1bMCHGi/4",
            "password"
        ),
        Err(VerifyError::MalformedHash)
    );
    assert_eq!(
        verify(
            "$pbkdf2-sha256$v=19$m=256,t=2,p=1$c29tZXNhbHQ$nf65EOgLrQMR/uIPnA4rEsF5h7TKyQwu9U1bMCHGi/4",
            "password"
        ),
        Err(VerifyError::MalformedHash)
    );
}

#[test]
fn other_versions_are_malformed() {
    assert_eq!(
        verify(
            "$argon2id$v=16$m=256,t=2,p=1$c29tZXNhbHQ$nf65EOgLrQMR/uIPnA4rEsF5h7TKyQwu9U1bMCHGi/4",
            "password"
        ),
        Err(VerifyError::MalformedHash)
    );
    assert_eq!(
        verify(
            "$argon2id$v=20$m=256,t=2,p=1$c29tZXNhbHQ$nf65EOgLrQMR/uIPnA4rEsF5h7TKyQwu9U1bMCHGi/4",
            "password"
        ),
        Err(VerifyError::MalformedHash)
    );
    assert_eq!(
        verify(
            "$argon2id$m=256,t=2,p=1$c29tZXNhbHQ$nf65EOgLrQMR/uIPnA4rEsF5h7TKyQwu9U1bMCHGi/4",
            "password"
        ),
        Err(VerifyError::MalformedHash)
    );
}

#[test]
fn parameters_other_than_m_t_p_in_order_are_malformed() {
    let key = "nf65EOgLrQMR/uIPnA4rEsF5h7TKyQwu9U1bMCHGi/4";
    for params in [
        "t=2,m=256,p=1",
        "m=256,t=2",
        "m=256,p=1,t=2",
        "m=256,t=2,p=1,keyid=AAAA",
        "m=256,t=2,p=1,data=AAAA",
        "m=256,m=256,p=1",
        "m=0256,t=2,p=1",
        "m=256,t=02,p=1",
        "m=256,t=2,p=",
        "m=256,t=2,p=x",
        "m=4294967296,t=2,p=1",
        "m=256,t=-2,p=1",
    ] {
        let encoded = format!("$argon2id$v=19${}$c29tZXNhbHQ${}", params, key);
        assert_eq!(
            verify(&encoded, "password"),
            Err(VerifyError::MalformedHash),
            "{}",
            params
        );
    }
    let without = format!("$argon2id$v=19$c29tZXNhbHQ${}", key);
    assert_eq!(verify(&without, "password"), Err(VerifyError::MalformedHash));
}

#[test]
fn cost_parameters_that_the_algorithm_refuses_are_malformed() {
    let key = "nf65EOgLrQMR/uIPnA4rEsF5h7TKyQwu9U1bMCHGi/4";
    for params in [
        "m=7,t=2,p=1",
        "m=15,t=2,p=2",
        "m=256,t=0,p=1",
        "m=256,t=2,p=0",
        "m=4294967295,t=2,p=16777216",
    ] {
        let encoded = format!("$argon2id$v=19${}$c29tZXNhbHQ${}", params, key);
        assert_eq!(
            verify(&encoded, "password"),
            Err(VerifyError::MalformedHash),
            "{}",
            params
        );
    }
    let smallest = format!("$argon2id$v=19$m=8,t=1,p=1$c29tZXNhbHQ${}", key);
    assert_eq!(verify(&smallest, "password"), Ok(false));
    let two_lanes = format!("$argon2id$v=19$m=16,t=1,p=2$c29tZXNhbHQ${}", key);
    assert_eq!(verify(&two_lanes, "password"), Ok(false));
}

#[test]
fn truncated_or_corrupt_strings_are_malformed() {
    for encoded in [
        "$argon2id$v=19$m=256,t=2,p=1$c29tZXNhbHQ",
        "$argon2id$v=19$m=256,t=2,p=1",
        "$argon2id$v=19",
        "$argon2id",
        "$",
        "argon2id$v=19$m=256,t=2,p=1$c29tZXNhbHQ$nf65EOgLrQMR/uIPnA4rEsF5h7TKyQwu9U1bMCHGi/4",
        "$argon2id$v=19$m=256,t=2,p=1$c29tZXNhbHQ$nf65EOgLrQMR/uIPnA4rEsF5h7TKyQwu9U1bMCHGi/4$",
        "$argon2id$v=19$m=256,t=2,p=1$c29tZXNhbHQ$nf65EOgLrQMR/uIPnA4rEsF5h7TKyQwu9U1bMCHGi/4$x",
        "$argon2id$v=19$m=256,t=2,p=1$c29tZXNhbHQ$nf65EOgLrQMR/uIPnA4rEsF5h7TKyQwu9U1bMCHGi_4",
        "$argon2id$v=19$m=256,t=2,p=1$c29tZXNhbHQ$nf65EOgLrQ",
        "$argon2id$v=19$m=256,t=2,p=1$c29tZQ$nf65EOgLrQMR/uIPnA4rEsF5h7TKyQwu9U1bMCHGi/4",
        "$argon2id$v=19$m=256,t=2,p=1$c29t.XNhbHQ$nf65EOgLrQMR/uIPnA4rEsF5h7TKyQwu9U1bMCHGi/4",
        "$Argon2id$v=19$m=256,t=2,p=1$c29tZXNhbHQ$nf65EOgLrQMR/uIPnA4rEsF5h7TKyQwu9U1bMCHGi/4",
    ] {
        assert_eq!(
            verify(encoded, "password"),
            Err(VerifyError::MalformedHash),
            "{}",
            encoded
        );
        assert!(decode(encoded).is_none(), "{}", encoded);
    }
}

#[test]
fn malformed_hash_has_a_message() {
    assert_eq!(
        VerifyError::MalformedHash.message(),
        "not a well-formed Argon2id hash string"
    );
}

#[test]
fn only_the_stored_key_is_accepted() {
    let record = HashRecord::new(256, 2, 1, b"somesalt".to_vec(), M256_T2_P1_KEY.to_vec()).unwrap();
    assert!(accepts_derivation(
        &record,
        &Some((M256_T2_P1_KEY.to_vec(), String::new()))
    ));
    assert!(accepts_derivation(
        &record,
        &Some((M256_T2_P1_KEY.to_vec(), M256_T2_P2.to_string()))
    ));
    let mut other = M256_T2_P1_KEY.to_vec();
    other[17] ^= 0x80;
    assert!(!accepts_derivation(&record, &Some((other, String::new()))));
    assert!(!accepts_derivation(
        &record,
        &Some((M256_T2_P1_KEY[..31].to_vec(), String::new()))
    ));
    assert!(!accepts_derivation(&record, &Some((Vec::new(), String::new()))));
    assert!(!accepts_derivation(&record, &None));
}
