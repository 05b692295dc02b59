use securechat::error::{u8_decimal, PipelineError};
use securechat::keys::{IkPub, SigData};
use securechat::primitives::{
    decode_hex, encode_hex, Bytes32, Bytes64, ParseBytes32Error, ParseBytes64Error, ReprBytes,
};

#[test]
fn hex_decodes_either_case() {
    let s = "00ff10Ab".repeat(8);
    let b = Bytes32::from_str(&s).unwrap();
    assert_eq!(&b.0[0..4], &[0x00, 0xff, 0x10, 0xab]);
    assert_eq!(b.0[31], 0xab);
    assert_eq!(decode_hex("0aFf", 2), Some(vec![0x0a, 0xff]));
}

#[test]
fn hex_rejects_bad_text() {
    assert_eq!(Bytes32::from_str(&"a".repeat(63)), Err(ParseBytes32Error));
    assert_eq!(Bytes32::from_str(&"a".repeat(65)), Err(ParseBytes32Error));
    assert_eq!(Bytes32::from_str(&"g".repeat(64)), Err(ParseBytes32Error));
    assert_eq!(Bytes64::from_str(&"a".repeat(64)), Err(ParseBytes64Error));
    assert_eq!(decode_hex("0aF", 2), None);
    assert_eq!(decode_hex("0a", 2), None);
    assert_eq!(decode_hex("0 ", 1), None);
    assert_eq!(decode_hex("", 0), Some(vec![]));
}

#[test]
fn hex_roundtrip() {
    let mut raw = [0u8; 32];
    for (i, x) in raw.iter_mut().enumerate() {
        *x = (i as u8).wrapping_mul(37).wrapping_add(5);
    }
    let b = Bytes32(raw);
    let text = b.to_hex();
    assert_eq!(text.len(), 64);
    assert_eq!(text, text.to_lowercase());
    assert_eq!(Bytes32::from_str(&text), Ok(b));

    let b64 = Bytes64([0xc3; 64]);
    let t64 = b64.to_hex();
    assert_eq!(t64, "c3".repeat(64));
    assert_eq!(Bytes64::from_str(&t64), Ok(b64));
    assert_eq!(encode_hex(&[0x01, 0xab]), "01ab");
}

#[test]
fn bytes_from_slices() {
    assert_eq!(Bytes32::try_from_slice(&[1u8; 32]), Some(Bytes32([1u8; 32])));
    assert_eq!(Bytes32::try_from_slice(&[1u8; 31]), None);
    assert_eq!(Bytes64::try_from_slice(&[2u8; 64]), Some(Bytes64([2u8; 64])));
    assert_eq!(Bytes64::try_from_slice(&[2u8; 65]), None);
}

#[test]
fn repr_bytes_access() {
    let ik = IkPub(Bytes32([9u8; 32]));
    assert_eq!(ik.bytes_const(), &[9u8; 32]);
    assert_eq!(ik.bytes_as_slice(), &[9u8; 32][..]);
    let sig = SigData(Bytes64([4u8; 64]));
    assert_eq!(sig.bytes_const().len(), 64);
}

#[test]
fn decimal_text() {
    assert_eq!(u8_decimal(0), "0");
    assert_eq!(u8_decimal(7), "7");
    assert_eq!(u8_decimal(42), "42");
    assert_eq!(u8_decimal(100), "100");
    assert_eq!(u8_decimal(255), "255");
    for n in 0..=255u8 {
        assert_eq!(u8_decimal(n), n.to_string());
    }
}

#[test]
fn error_messages() {
    assert_eq!(PipelineError::MissingToken.message(), "missing or malformed Authorization header");
    assert_eq!(PipelineError::InvalidToken.message(), "JWT is invalid or expired");
    assert_eq!(PipelineError::Forbidden.message(), "insufficient permissions");
    assert_eq!(PipelineError::Validation("x".into()).message(), "validation failed: x");
    assert_eq!(
        PipelineError::WeakPassword(3, "too short".into()).message(),
        "password too weak (score 3/4): too short"
    );
    assert_eq!(PipelineError::ParseError("p".into()).message(), "parse error: p");
    assert_eq!(PipelineError::Conflict("c".into()).message(), "conflict: c");
    assert_eq!(PipelineError::NotFound("n".into()).message(), "not found: n");
    assert_eq!(PipelineError::Database("d".into()).message(), "database error: d");
    assert_eq!(PipelineError::Internal("i".into()).message(), "internal error: i");
}

#[test]
fn error_status_codes() {
    assert_eq!(PipelineError::MissingToken.status_code(), 401);
    assert_eq!(PipelineError::InvalidToken.status_code(), 401);
    assert_eq!(PipelineError::Forbidden.status_code(), 403);
    assert_eq!(PipelineError::Validation(String::new()).status_code(), 422);
    assert_eq!(PipelineError::WeakPassword(0, String::new()).status_code(), 422);
    assert_eq!(PipelineError::ParseError(String::new()).status_code(), 422);
    assert_eq!(PipelineError::Conflict(String::new()).status_code(), 409);
    assert_eq!(PipelineError::NotFound(String::new()).status_code(), 404);
    assert_eq!(PipelineError::Database(String::new()).status_code(), 500);
    assert_eq!(PipelineError::Internal(String::new()).status_code(), 500);
}

#[test]
fn server_faults_are_not_described() {
    let db = PipelineError::Database("password=secret".into());
    assert_eq!(db.public_message(), "an unexpected error occurred");
    let internal = PipelineError::Internal("stack".into());
    assert_eq!(internal.public_message(), "an unexpected error occurred");
    let conflict = PipelineError::Conflict("taken".into());
    assert_eq!(conflict.public_message(), "conflict: taken");
}

#[test]
fn bytes_from_vectors() {
    let v: Vec<u8> = (0..32).collect();
    assert_eq!(Bytes32::from_vec(v.clone()).0.to_vec(), v);
    let w: Vec<u8> = (0..64).map(|x: u8| x.wrapping_mul(3)).collect();
    assert_eq!(Bytes64::from_vec(w.clone()).0.to_vec(), w);
}
