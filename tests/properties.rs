use std::str::FromStr;

use tinyid::{TinyId, TinyIdError};

#[test]
fn text_round_trip_of_checked_bytes() {
    let bytes = [b'Z', b'0', b'_', b'-', b'q', b'9', b'A', b'z'];
    let id = TinyId::from_bytes(bytes).unwrap();
    let text = id.to_string();
    assert_eq!(text, "Z0_-q9Az");
    assert_eq!(TinyId::from_str(&text), Ok(id));
}

#[test]
fn integer_round_trip_of_well_formed() {
    let id = TinyId::from_str("Xy-_09ab").unwrap();
    let back = TinyId::from_u64(id.to_u64()).unwrap();
    assert_eq!(back, id);
    assert_eq!(TinyId::from_u64_unchecked(42).to_u64(), 42);
}

#[test]
fn null_is_null_and_invalid() {
    let id = TinyId::null();
    assert!(id.is_null());
    assert!(!id.is_valid());
    assert_eq!(id.to_bytes(), [0u8; 8]);
    assert_eq!(TinyId::from_bytes([0u8; 8]), Err(TinyIdError::InvalidCharacters));
}

#[test]
fn make_null_on_invalid_content() {
    let mut id = TinyId::from_u64_unchecked(u64::MAX);
    id.make_null();
    assert!(!id.is_valid());
    assert_eq!(id, TinyId::null());
}

#[test]
fn random_is_valid_and_not_null() {
    for _ in 0..1000 {
        let id = TinyId::random();
        assert!(id.is_valid());
        assert!(!id.is_null());
    }
}

#[test]
fn generation_maps_each_byte_into_alphabet() {
    assert_eq!(TinyId::from_random_u64(0).to_string(), "aaaaaaaa");
    assert_eq!(TinyId::from_random_u64(u64::MAX).to_string(), "--------");
    assert_eq!(
        TinyId::from_random_u64(0x0001_023F_4041_7F80).to_string(),
        "abc-ab-a"
    );
}

#[test]
fn affixes_empty_and_too_long() {
    let id = TinyId::from_str("AAAABBBB").unwrap();
    assert!(id.starts_with(""));
    assert!(id.ends_with(""));
    assert!(TinyId::null().starts_with(""));
    assert!(!id.starts_with("AAAABBBBC"));
    assert!(!id.ends_with("AAAAAAAABBBB"));
    assert!(id.starts_with("AAAA"));
    assert!(id.ends_with("BBBB"));
    assert!(!id.starts_with("BBBB"));
    assert!(!id.ends_with("AAAA"));
    assert!(id.starts_with("AAAABBBB"));
    assert!(id.ends_with("AAAABBBB"));
}

#[test]
fn affixes_count_bytes_of_input() {
    let id = TinyId::from_bytes_unchecked([0xFF; 8]);
    assert_eq!(id.to_string(), "\u{ff}".repeat(8));
    assert!(id.starts_with("\u{ff}"));
    assert!(id.ends_with("\u{ff}\u{ff}\u{ff}\u{ff}"));
    assert!(!id.starts_with("\u{ff}\u{ff}\u{ff}\u{ff}\u{ff}"));
}

#[test]
fn parse_length_errors() {
    assert_eq!(TinyId::from_str("abcdefg"), Err(TinyIdError::InvalidLength));
    assert_eq!(TinyId::from_str("abcdefghi"), Err(TinyIdError::InvalidLength));
    assert_eq!(TinyId::from_str(""), Err(TinyIdError::InvalidLength));
    assert_eq!(TinyId::from_str("abcdefgh\u{e9}"), Err(TinyIdError::InvalidLength));
}

#[test]
fn parse_character_errors() {
    assert_eq!(TinyId::from_str("abcdefg!"), Err(TinyIdError::InvalidCharacters));
    assert_eq!(TinyId::from_str("@bcdefgh"), Err(TinyIdError::InvalidCharacters));
    assert_eq!(TinyId::from_str("abc defg"), Err(TinyIdError::InvalidCharacters));
    assert_eq!(TinyId::from_str("abc\0defg"), Err(TinyIdError::InvalidCharacters));
    assert_eq!(TinyId::from_str("abcd\u{e9}fg"), Err(TinyIdError::InvalidCharacters));
}

#[test]
fn scenario_abcdefgh() {
    let id = TinyId::from_bytes([b'a', b'b', b'c', b'd', b'e', b'f', b'g', b'h']).unwrap();
    assert_eq!(id.to_string(), "abcdefgh");
    assert_eq!(id.to_u64(), 7_017_280_452_245_743_464);
    let back = TinyId::from_u64(7_017_280_452_245_743_464).unwrap();
    assert_eq!(back.to_string(), "abcdefgh");
    assert_eq!(TinyId::from_u64(18_446_744_073_709_551_615), Err(TinyIdError::InvalidCharacters));
}

#[test]
fn scenario_aaaabbbb() {
    assert!(TinyId::from_str("AAAABBBB").is_ok());
    assert_eq!(TinyId::from_str("AAAABBB"), Err(TinyIdError::InvalidLength));
}

#[test]
fn equality_across_representations() {
    let bytes = [b'A', b'A', b'A', b'A', b'B', b'B', b'B', b'B'];
    let a = TinyId::from_str("AAAABBBB").unwrap();
    let b = TinyId::from_str_unchecked("AAAABBBB");
    let c = TinyId::from_bytes(bytes).unwrap();
    let d = TinyId::from_bytes_unchecked(bytes);
    let e = TinyId::from_u64(a.to_u64()).unwrap();
    let f = TinyId::from_u64_unchecked(a.to_u64());
    for x in [b, c, d, e, f] {
        assert_eq!(a, x);
    }
    assert_ne!(TinyId::from_str_unchecked("aaaaBBBB"), a);
}

#[test]
fn unchecked_text_is_zero_padded() {
    let id = TinyId::from_str_unchecked("abc");
    assert_eq!(id.to_bytes(), [b'a', b'b', b'c', 0, 0, 0, 0, 0]);
    assert!(!id.is_valid());
    assert!(!id.is_null());
}

#[test]
fn slice_of_wrong_length_is_conversion_error() {
    let r = TinyId::from_slice(&[b'a'; 9]);
    assert!(matches!(r, Err(TinyIdError::Conversion(_))));
    let r = TinyId::from_slice(&[b'a'; 8]);
    assert_eq!(r.map(|id| id.to_string()), Ok("aaaaaaaa".to_string()));
    if let Err(e) = TinyId::from_slice(&[]) {
        assert!(e.to_string().starts_with("Conversion error: "));
    } else {
        panic!("an empty slice is not an identifier");
    }
}

#[test]
fn ordering_is_bytewise() {
    let a = TinyId::from_str("AAAAAAAA").unwrap();
    let b = TinyId::from_str("aaaaaaaa").unwrap();
    assert!(a < b);
    assert!(TinyId::null() < a);
}
