use pulsar_core_contract::storage::assert_transition;
use pulsar_core_contract::types::MAX_STRING_LEN;
use pulsar_core_contract::validation::{
    base32_value, crc16_xmodem, decode_base32, validate_amount, validate_string_len,
    validate_strkey_ed25519_public_key, STRKEY_LEN,
};
use pulsar_core_contract::Error;
use pulsar_core_contract::TransactionStatus::{Completed, Confirmed, Failed, Pending, Refunded};

const VALID_1: &str = "GA3D5KRYM6CB7OWQ6TWYRR3Z4T7GNZLKERYNZGGA5SOAOPIFY6YQHES5";
const VALID_2: &str = "GA7QYNF7SOWQ3GLR2BGMZEHXAVIRZA4KVWLTJJFC7MGXUA74P7UJVSGZ";
const INVALID_VERSION: &str = "G47QYNF7SOWQ3GLR2BGMZEHXAVIRZA4KVWLTJJFC7MGXUA74P7UJVP2I";

#[test]
fn validate_string_len_accepts_exactly_max_length() {
    let s = "a".repeat(MAX_STRING_LEN as usize);
    assert!(validate_string_len(&s).is_ok());
}

#[test]
fn validate_string_len_rejects_over_max_length() {
    let s = "a".repeat(MAX_STRING_LEN as usize + 1);
    assert!(validate_string_len(&s).is_err());
}

#[test]
fn validate_amount_rejects_negative() {
    assert!(validate_amount(-1).is_err());
}

#[test]
fn validate_amount_accepts_positive() {
    assert!(validate_amount(1).is_ok());
}

#[test]
fn accepts_known_valid_strkeys() {
    assert!(validate_strkey_ed25519_public_key(&VALID_1.to_string()).is_ok());
    assert!(validate_strkey_ed25519_public_key(&VALID_2.to_string()).is_ok());
}

#[test]
fn rejects_wrong_length() {
    let short = "GAAAAAAAACGC6".to_string();
    assert!(validate_strkey_ed25519_public_key(&short).is_err());
}

#[test]
fn rejects_bad_version_byte() {
    assert!(validate_strkey_ed25519_public_key(&INVALID_VERSION.to_string()).is_err());
}

#[test]
fn rejects_bad_checksum() {
    let mut buf: Vec<u8> = VALID_1.as_bytes().to_vec();
    let last = buf.len() - 1;
    buf[last] = if buf[last] == b'5' { b'6' } else { b'5' };
    let corrupted = String::from_utf8(buf).unwrap();
    assert!(validate_strkey_ed25519_public_key(&corrupted).is_err());
}

#[test]
fn rejects_correct_length_strkeys_with_an_invalid_alphabet_char() {
    for bad_char in ['0', '1', '8', '9', 'a', '!', '_'] {
        for pos in [0usize, 1, 27, 54, 55] {
            let mut chars: Vec<char> = VALID_1.chars().collect();
            chars[pos] = bad_char;
            let s: String = chars.into_iter().collect();
            assert_eq!(s.len(), STRKEY_LEN);
            assert_eq!(validate_strkey_ed25519_public_key(&s), Err(Error::InvalidStrkey));
        }
    }
}

#[test]
fn rejects_every_wrong_length_strkey_prefix_or_extension() {
    for len in 0..=120usize {
        if len == STRKEY_LEN {
            continue;
        }
        let s: String = VALID_1.chars().cycle().take(len).collect();
        assert_eq!(validate_strkey_ed25519_public_key(&s), Err(Error::InvalidStrkey));
    }
}

#[test]
fn empty_string_is_rejected_and_multibyte_length_counts_bytes() {
    assert_eq!(validate_string_len(&String::new()), Err(Error::InvalidInput));
    // 128 two-byte characters are 256 bytes; one more is 258.
    let ok = "é".repeat(128);
    assert_eq!(validate_string_len(&ok), Ok(()));
    let too_long = "é".repeat(129);
    assert_eq!(validate_string_len(&too_long), Err(Error::InvalidInput));
}

#[test]
fn validate_amount_rejects_zero() {
    assert_eq!(validate_amount(0), Err(Error::InvalidInput));
    assert_eq!(validate_amount(i128::MAX), Ok(()));
    assert_eq!(validate_amount(i128::MIN), Err(Error::InvalidInput));
}

#[test]
fn base32_alphabet_values() {
    assert_eq!(base32_value(b'A'), Some(0));
    assert_eq!(base32_value(b'Z'), Some(25));
    assert_eq!(base32_value(b'2'), Some(26));
    assert_eq!(base32_value(b'7'), Some(31));
    assert_eq!(base32_value(b'1'), None);
    assert_eq!(base32_value(b'8'), None);
    assert_eq!(base32_value(b'a'), None);
    assert_eq!(base32_value(b'='), None);
}

#[test]
fn decode_base32_known_bytes() {
    let mut input = [b'A'; STRKEY_LEN];
    assert_eq!(decode_base32(&input), Some([0u8; 35]));
    input = [b'7'; STRKEY_LEN];
    assert_eq!(decode_base32(&input), Some([0xFFu8; 35]));
    // "ME" spells 0b01100 0b00100: the first byte is 0b01100001 = 'a'.
    input = [b'A'; STRKEY_LEN];
    input[0] = b'M';
    input[1] = b'E';
    let out = decode_base32(&input).unwrap();
    assert_eq!(out[0], 0x61);
    assert_eq!(out[1], 0x00);
    input[55] = b'0';
    assert_eq!(decode_base32(&input), None);
}

#[test]
fn decode_base32_of_a_valid_strkey_starts_with_the_version_byte() {
    let mut input = [0u8; STRKEY_LEN];
    input.copy_from_slice(VALID_1.as_bytes());
    let out = decode_base32(&input).unwrap();
    assert_eq!(out[0], 6 << 3);
}

#[test]
fn crc16_xmodem_check_value() {
    assert_eq!(crc16_xmodem(b"123456789"), 0x31C3);
    assert_eq!(crc16_xmodem(b""), 0);
    assert_eq!(crc16_xmodem(&[0x00]), 0);
    assert_eq!(crc16_xmodem(b"A"), 0x58E5);
}

#[test]
fn transition_truth_table() {
    let all = [Pending, Confirmed, Completed, Failed, Refunded];
    let allowed = [
        (Pending, Confirmed),
        (Pending, Failed),
        (Pending, Refunded),
        (Confirmed, Completed),
        (Confirmed, Failed),
        (Confirmed, Refunded),
    ];
    for from in all {
        for to in all {
            let expected = if allowed.contains(&(from, to)) {
                Ok(())
            } else {
                Err(Error::InvalidStateTransition)
            };
            assert_eq!(assert_transition(&from, &to), expected);
        }
    }
}
