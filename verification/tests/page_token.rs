use base64::engine::general_purpose::{STANDARD, URL_SAFE};
use base64::Engine;
use bb8_todos::api::paging::{Msg, PageToken};
use bb8_todos::error::Error;
use bb8_todos::signer::{Signer, Verifier};

// The first two key pairs of RFC 8032, section 7.1.
const SEED_1: [u8; 32] = [
    0x9d, 0x61, 0xb1, 0x9d, 0xef, 0xfd, 0x5a, 0x60, 0xba, 0x84, 0x4a, 0xf4, 0x92, 0xec, 0x2c, 0xc4,
    0x44, 0x49, 0xc5, 0x69, 0x7b, 0x32, 0x69, 0x19, 0x70, 0x3b, 0xac, 0x03, 0x1c, 0xae, 0x7f, 0x60,
];
const PUBLIC_1: [u8; 32] = [
    0xd7, 0x5a, 0x98, 0x01, 0x82, 0xb1, 0x0a, 0xb7, 0xd5, 0x4b, 0xfe, 0xd3, 0xc9, 0x64, 0x07, 0x3a,
    0x0e, 0xe1, 0x72, 0xf3, 0xda, 0xa6, 0x23, 0x25, 0xaf, 0x02, 0x1a, 0x68, 0xf7, 0x07, 0x51, 0x1a,
];
const PUBLIC_2: [u8; 32] = [
    0x3d, 0x40, 0x17, 0xc3, 0xe8, 0x43, 0x89, 0x5a, 0x92, 0xb7, 0x0a, 0xa7, 0x4d, 0x1b, 0x7e, 0xbc,
    0x9c, 0x98, 0x2c, 0xcf, 0x2e, 0xc4, 0x96, 0x8c, 0xc0, 0xcd, 0x55, 0xf1, 0x2a, 0xf4, 0x66, 0x0c,
];
const SIGNATURE_OF_NOTHING_1: [u8; 64] = [
    0xe5, 0x56, 0x43, 0x00, 0xc3, 0x60, 0xac, 0x72, 0x90, 0x86, 0xe2, 0xcc, 0x80, 0x6e, 0x82, 0x8a,
    0x84, 0x87, 0x7f, 0x1e, 0xb8, 0xe5, 0xd9, 0x74, 0xd8, 0x73, 0xe0, 0x65, 0x22, 0x49, 0x01, 0x55,
    0x5f, 0xb8, 0x82, 0x15, 0x90, 0xa3, 0x3b, 0xac, 0xc6, 0x1e, 0x39, 0x70, 0x1c, 0xf9, 0xb4, 0x6b,
    0xd2, 0x5b, 0xf5, 0xf0, 0x59, 0x5b, 0xbe, 0x24, 0x65, 0x51, 0x41, 0x43, 0x8e, 0x7a, 0x10, 0x0b,
];

fn pem(kind: &str, prefix: &[u8], key: &[u8]) -> String {
    let mut der = prefix.to_vec();
    der.extend_from_slice(key);
    format!(
        "-----BEGIN {kind} KEY-----\n{}\n-----END {kind} KEY-----\n",
        STANDARD.encode(der)
    )
}

fn private_pem(seed: &[u8; 32]) -> String {
    let prefix = [
        0x30, 0x2e, 0x02, 0x01, 0x00, 0x30, 0x05, 0x06, 0x03, 0x2b, 0x65, 0x70, 0x04, 0x22, 0x04,
        0x20,
    ];
    pem("PRIVATE", &prefix, seed)
}

fn public_pem(key: &[u8; 32]) -> String {
    let prefix = [0x30, 0x2a, 0x30, 0x05, 0x06, 0x03, 0x2b, 0x65, 0x70, 0x03, 0x21, 0x00];
    pem("PUBLIC", &prefix, key)
}

fn first_signer() -> Signer {
    Signer::new(private_pem(&SEED_1)).expect("the key of the RFC is a key")
}

fn verifying_one() -> Verifier {
    Verifier::new(public_pem(&PUBLIC_1)).expect("the key of the RFC is a key")
}

fn verifying_two() -> Verifier {
    Verifier::new(public_pem(&PUBLIC_2)).expect("the key of the RFC is a key")
}

fn rejected(result: Result<i32, Error>) -> bool {
    match result {
        Err(Error::InvalidArgs { messages }) => {
            messages == vec!["invalid/expired page token".to_string()]
        }
        _ => false,
    }
}

const NOON: u128 = 1_700_000_000_000;

#[test]
fn signature_is_the_one_of_the_rfc() {
    let sig = first_signer().sign(&[]).expect("signing never fails");
    assert_eq!(sig, SIGNATURE_OF_NOTHING_1.to_vec());
}

#[test]
fn verifier_takes_the_signature_of_the_rfc() {
    assert!(verifying_one().verify(&[], &SIGNATURE_OF_NOTHING_1).is_ok());
}

#[test]
fn verifier_refuses_another_message() {
    let checked = verifying_one().verify(&[0], &SIGNATURE_OF_NOTHING_1);
    match checked {
        Err(Error::Internal { message }) => assert_eq!(message, "signature error"),
        _ => panic!("a signature of nothing is no signature of a zero"),
    }
}

#[test]
fn verifier_refuses_a_truncated_signature() {
    assert!(verifying_one().verify(&[], &SIGNATURE_OF_NOTHING_1[..63]).is_err());
    assert!(verifying_one().verify(&[], &[]).is_err());
}

#[test]
fn verifier_refuses_a_signature_of_another_key() {
    assert!(verifying_two().verify(&[], &SIGNATURE_OF_NOTHING_1).is_err());
}

#[test]
fn signer_refuses_text_that_is_no_key() {
    match Signer::new("no key at all".to_string()) {
        Err(Error::Internal { message }) => assert_eq!(message, "invalid signing key pem"),
        _ => panic!("this text is no key"),
    }
    assert!(Signer::new(public_pem(&PUBLIC_1)).is_err());
}

#[test]
fn verifier_refuses_text_that_is_no_key() {
    match Verifier::new(String::new()) {
        Err(Error::Internal { message }) => assert_eq!(message, "invalid public key pem"),
        _ => panic!("no text is no key"),
    }
    assert!(Verifier::new(private_pem(&SEED_1)).is_err());
}

#[test]
fn message_is_id_then_time_little_endian() {
    let bytes = Msg::bytes(1, 2);
    let mut expected = vec![1u8, 0, 0, 0, 2];
    expected.extend_from_slice(&[0u8; 15]);
    assert_eq!(bytes, expected);
    let bytes = Msg::bytes(-2, 0x0102_0304_0506_0708_090a_0b0c_0d0e_0f10);
    assert_eq!(
        bytes,
        vec![
            0xfe, 0xff, 0xff, 0xff, 0x10, 0x0f, 0x0e, 0x0d, 0x0c, 0x0b, 0x0a, 0x09, 0x08, 0x07,
            0x06, 0x05, 0x04, 0x03, 0x02, 0x01
        ]
    );
}

#[test]
fn record_is_message_length_signature() {
    let token = PageToken { id: 7, ts: 258, sig: vec![9, 8, 7] };
    let mut expected = vec![7u8, 0, 0, 0, 2, 1];
    expected.extend_from_slice(&[0u8; 14]);
    expected.extend_from_slice(&[3, 0, 0, 0, 9, 8, 7]);
    assert_eq!(token.to_bytes(), expected);
    let back = PageToken::from_bytes(&expected).expect("a record");
    assert_eq!((back.id, back.ts, back.sig), (7, 258, vec![9, 8, 7]));
}

#[test]
fn record_with_bytes_missing_or_left_over_is_none() {
    let bytes = PageToken { id: 7, ts: 258, sig: vec![9, 8, 7] }.to_bytes();
    assert!(PageToken::from_bytes(&bytes[..bytes.len() - 1]).is_none());
    assert!(PageToken::from_bytes(&bytes[..23]).is_none());
    assert!(PageToken::from_bytes(&[]).is_none());
    let mut longer = bytes.clone();
    longer.push(0);
    assert!(PageToken::from_bytes(&longer).is_none());
}

#[test]
fn record_with_an_empty_signature_is_a_record() {
    let bytes = PageToken { id: -1, ts: u128::MAX, sig: vec![] }.to_bytes();
    assert_eq!(bytes.len(), 24);
    let back = PageToken::from_bytes(&bytes).expect("a record");
    assert_eq!((back.id, back.ts, back.sig), (-1, u128::MAX, vec![]));
}

#[test]
fn token_text_is_base64_of_the_record() {
    let text = PageToken::encode_at(&first_signer(), 3, NOON).expect("a token");
    let token = PageToken::new_at(&first_signer(), 3, NOON);
    assert_eq!(token.sig.len(), 64);
    assert_eq!(token.sig, first_signer().sign(&Msg::bytes(3, NOON)).expect("signing never fails"));
    assert_eq!(text, URL_SAFE.encode(token.to_bytes()));
    assert_eq!(text.len(), 120);
    assert!(text.ends_with("=="));
    assert!(text.starts_with("AwAAAA"));
}

#[test]
fn round_trip_at_a_given_time() {
    for id in [1, 2, 3, 100, i32::MAX] {
        let text = PageToken::encode_at(&first_signer(), id, NOON);
        assert!(text.is_some());
        assert_eq!(PageToken::decode_at(&verifying_one(), text, NOON + 5).ok(), Some(id));
    }
}

#[test]
fn round_trip_by_the_clock() {
    for id in [1, 42, i32::MAX] {
        let text = PageToken::encode(&first_signer(), id);
        assert_eq!(PageToken::decode(&verifying_one(), text).ok(), Some(id));
    }
}

#[test]
fn no_token_for_an_id_that_names_no_row() {
    for id in [0, -1, -42, i32::MIN] {
        assert_eq!(PageToken::encode(&first_signer(), id), None);
        assert_eq!(PageToken::encode_at(&first_signer(), id, NOON), None);
    }
}

#[test]
fn no_token_is_the_first_page() {
    assert_eq!(PageToken::decode(&verifying_one(), None).ok(), Some(1));
    assert_eq!(PageToken::decode_at(&verifying_one(), None, 0).ok(), Some(1));
    assert_eq!(PageToken::decode_at(&verifying_two(), None, u128::MAX).ok(), Some(1));
}

#[test]
fn token_is_good_for_one_hour_and_no_longer() {
    let text = PageToken::encode_at(&first_signer(), 5, NOON);
    assert_eq!(PageToken::decode_at(&verifying_one(), text.clone(), NOON).ok(), Some(5));
    assert_eq!(PageToken::decode_at(&verifying_one(), text.clone(), NOON + 3_600_000).ok(), Some(5));
    assert!(rejected(PageToken::decode_at(&verifying_one(), text.clone(), NOON + 3_600_001)));
    assert!(rejected(PageToken::decode_at(&verifying_one(), text, u128::MAX)));
}

#[test]
fn token_issued_long_ago_is_rejected_by_the_clock() {
    let text = PageToken::encode_at(&first_signer(), 5, NOON);
    assert!(rejected(PageToken::decode(&verifying_one(), text)));
}

#[test]
fn token_of_a_clock_that_runs_ahead_is_taken() {
    let text = PageToken::encode_at(&first_signer(), 5, NOON + 1);
    assert_eq!(PageToken::decode_at(&verifying_one(), text, NOON).ok(), Some(5));
}

#[test]
fn expired_token_says_so_when_verified() {
    let token = PageToken::new_at(&first_signer(), 5, NOON);
    assert!(token.verify_at(&verifying_one(), NOON + 3_600_000).is_ok());
    match token.verify_at(&verifying_one(), NOON + 3_600_001) {
        Err(Error::InvalidArgs { messages }) => {
            assert_eq!(messages, vec!["page token expired".to_string()])
        }
        _ => panic!("the token is too old"),
    }
    assert!(PageToken::new(&first_signer(), 5).verify(&verifying_one()).is_ok());
}

#[test]
fn token_with_any_signature_byte_flipped_is_rejected() {
    let token = PageToken::new_at(&first_signer(), 9, NOON);
    for at in 0..token.sig.len() {
        for bit in 0..8 {
            let mut sig = token.sig.clone();
            sig[at] ^= 1 << bit;
            let forged = PageToken { id: 9, ts: NOON, sig };
            assert!(forged.verify_at(&verifying_one(), NOON).is_err());
            let text = URL_SAFE.encode(forged.to_bytes());
            assert!(rejected(PageToken::decode_at(&verifying_one(), Some(text), NOON)));
        }
    }
}

#[test]
fn token_with_any_record_byte_flipped_is_rejected() {
    let bytes = PageToken::new_at(&first_signer(), 9, NOON).to_bytes();
    for at in 0..bytes.len() {
        let mut altered = bytes.clone();
        altered[at] ^= 0x01;
        let text = URL_SAFE.encode(altered);
        assert!(rejected(PageToken::decode_at(&verifying_one(), Some(text), NOON)));
    }
}

#[test]
fn token_with_any_character_changed_is_rejected() {
    let text = PageToken::encode_at(&first_signer(), 9, NOON).expect("a token");
    for at in 0..text.len() {
        let mut chars: Vec<char> = text.chars().collect();
        chars[at] = if chars[at] == 'A' { 'B' } else { 'A' };
        let altered: String = chars.into_iter().collect();
        assert!(rejected(PageToken::decode_at(&verifying_one(), Some(altered), NOON)));
    }
}

#[test]
fn token_for_another_id_needs_its_own_signature() {
    let token = PageToken::new_at(&first_signer(), 9, NOON);
    let forged = PageToken { id: 10, ts: NOON, sig: token.sig.clone() };
    let text = URL_SAFE.encode(forged.to_bytes());
    assert!(rejected(PageToken::decode_at(&verifying_one(), Some(text), NOON)));
    let renewed = PageToken { id: 9, ts: NOON + 1, sig: token.sig };
    let text = URL_SAFE.encode(renewed.to_bytes());
    assert!(rejected(PageToken::decode_at(&verifying_one(), Some(text), NOON)));
}

#[test]
fn token_of_another_key_is_rejected() {
    let text = PageToken::encode_at(&first_signer(), 9, NOON);
    assert!(rejected(PageToken::decode_at(&verifying_two(), text, NOON)));
}

#[test]
fn text_that_is_no_token_is_rejected() {
    for text in ["", "!!!", "AAAA", "AAA", "AA=A", "not a token", "é", "AwAAAA=="] {
        let outcome = PageToken::decode_at(&verifying_one(), Some(text.to_string()), NOON);
        assert!(rejected(outcome), "{text:?} is no token");
    }
}

#[test]
fn text_without_its_padding_is_rejected() {
    let text = PageToken::encode_at(&first_signer(), 9, NOON).expect("a token");
    let bare = text.trim_end_matches('=').to_string();
    assert!(rejected(PageToken::decode_at(&verifying_one(), Some(bare), NOON)));
    let spaced = format!("{text}\n");
    assert!(rejected(PageToken::decode_at(&verifying_one(), Some(spaced), NOON)));
}

#[test]
fn text_with_loose_trailing_bits_is_rejected() {
    // 88 bytes leave one byte for the last group, so its second character
    // carries four unused bits, which have to be zero.
    let text = PageToken::encode_at(&first_signer(), 9, NOON).expect("a token");
    let mut chars: Vec<char> = text.chars().collect();
    let at = chars.len() - 3;
    let table = "ABCDEFGHIJKLMNOPQRSTUVWXYZabcdefghijklmnopqrstuvwxyz0123456789-_";
    let value = table.find(chars[at]).expect("a base64 character");
    assert_eq!(value % 16, 0);
    chars[at] = table.chars().nth(value + 1).expect("a base64 character");
    let altered: String = chars.into_iter().collect();
    assert!(rejected(PageToken::decode_at(&verifying_one(), Some(altered), NOON)));
}

#[test]
fn judged_token_keeps_the_fault_of_its_signature() {
    let token = PageToken { id: 5, ts: NOON, sig: vec![] };
    let signed = Err(Error::internal("signature error".to_string()));
    match token.judge(signed, NOON) {
        Err(Error::Internal { message }) => assert_eq!(message, "signature error"),
        _ => panic!("a bad signature stays bad"),
    }
    let signed = Err(Error::not_found("elsewhere".to_string()));
    match token.judge(signed, NOON + 4_000_000) {
        Err(Error::NotFound { message }) => assert_eq!(message, "elsewhere"),
        _ => panic!("the fault that came in goes out"),
    }
}

#[test]
fn judged_token_is_good_for_one_hour() {
    let token = PageToken { id: 5, ts: NOON, sig: vec![] };
    assert!(token.judge(Ok(()), NOON).is_ok());
    assert!(token.judge(Ok(()), NOON - 1).is_ok());
    assert!(token.judge(Ok(()), 0).is_ok());
    assert!(token.judge(Ok(()), NOON + 3_600_000).is_ok());
    match token.judge(Ok(()), NOON + 3_600_001) {
        Err(Error::InvalidArgs { messages }) => {
            assert_eq!(messages, vec!["page token expired".to_string()])
        }
        _ => panic!("the token is too old"),
    }
    let oldest = PageToken { id: 5, ts: 0, sig: vec![] };
    assert!(oldest.judge(Ok(()), u128::MAX).is_err());
    let newest = PageToken { id: 5, ts: u128::MAX, sig: vec![] };
    assert!(newest.judge(Ok(()), 0).is_ok());
}

#[test]
fn token_is_checked_by_the_clock() {
    let fresh = PageToken::new(&first_signer(), 5);
    assert!(fresh.verify(&verifying_one()).is_ok());
    let old = PageToken::new_at(&first_signer(), 5, NOON);
    match old.verify(&verifying_one()) {
        Err(Error::InvalidArgs { messages }) => {
            assert_eq!(messages, vec!["page token expired".to_string()])
        }
        _ => panic!("the token is too old"),
    }
    let forged = PageToken { id: 6, ts: fresh.ts, sig: fresh.sig.clone() };
    match forged.verify(&verifying_one()) {
        Err(Error::Internal { message }) => assert_eq!(message, "signature error"),
        _ => panic!("the signature is of another id"),
    }
    match fresh.verify(&verifying_two()) {
        Err(Error::Internal { message }) => assert_eq!(message, "signature error"),
        _ => panic!("the signature is of another key"),
    }
}

#[test]
fn token_with_a_signature_of_another_length_is_rejected() {
    let token = PageToken::new_at(&first_signer(), 9, NOON);
    for len in [0usize, 1, 32, 63, 65, 128] {
        let mut sig = token.sig.clone();
        sig.resize(len, 0);
        let forged = PageToken { id: 9, ts: NOON, sig };
        let text = URL_SAFE.encode(forged.to_bytes());
        assert!(rejected(PageToken::decode_at(&verifying_one(), Some(text), NOON)));
    }
}
