use std::cell::Cell;

use p256::ecdsa::signature::{Signer, Verifier};
use p256::ecdsa::{Signature, SigningKey, VerifyingKey};
use steward::error::QuoteError;
use steward::header::QuoteVersion;
use steward::quote::{Quote, QuoteBody, QuoteBodyV3};
use steward::report::ReportBody;
use steward::signature::signature_der;
use steward::verdict::SignatureAlgorithm;

const INTEL: [u8; 16] = [
    0x93, 0x9A, 0x72, 0x33, 0xF7, 0x9C, 0x4C, 0xA9, 0x94, 0x0A, 0x0D, 0xB3, 0x95, 0x7F, 0x06, 0x07,
];

fn header(version: u16, key_type: u16) -> Vec<u8> {
    let mut bytes = vec![0u8; 48];
    bytes[0..2].copy_from_slice(&version.to_le_bytes());
    bytes[2..4].copy_from_slice(&key_type.to_le_bytes());
    bytes[12..28].copy_from_slice(&INTEL);
    bytes
}

fn report(seed: u8) -> Vec<u8> {
    (0..384).map(|i| seed.wrapping_add((i % 97) as u8)).collect()
}

/// A quote that declares a signature block of `declared` bytes, followed by
/// as much of a block of that length as `present` bytes hold.
fn quote_bytes(version: u16, declared: u32, present: usize) -> Vec<u8> {
    let mut bytes = header(version, 2);
    bytes.extend(report(1));
    bytes.extend_from_slice(&declared.to_le_bytes());
    bytes.extend((0..present).map(|i| (i % 233) as u8));
    bytes
}

fn good_quote(certification: usize) -> Vec<u8> {
    quote_bytes(3, 576 + certification as u32, 576 + certification)
}

fn v3<'a>(quote: &Quote<'a>) -> QuoteBodyV3<'a> {
    match quote.body {
        QuoteBody::V3(body) => body,
        _ => unreachable!(),
    }
}

fn accept_report(_: &ReportBody) -> Result<(), QuoteError> {
    Ok(())
}

fn accept_signature(
    _: &[u8],
    _: SignatureAlgorithm,
    _: &[u8],
    _: &[u8],
) -> Result<(), QuoteError> {
    Ok(())
}

#[test]
fn quote_parts_at_their_offsets() {
    let bytes = good_quote(10);
    let quote = Quote::try_from(&bytes).unwrap();
    assert_eq!(quote.header.as_bytes(), &bytes[0..48]);
    assert_eq!(quote.header.version(), Ok(QuoteVersion::V3));
    let body = v3(&quote);
    assert_eq!(body.report_body().as_bytes(), &bytes[48..432]);
    assert_eq!(body.sig_data_len(), 586);
    let sig_data = body.sig_data();
    assert_eq!(&sig_data.isv_report_sig()[..], &bytes[436..500]);
    assert_eq!(&sig_data.attestation_key()[..], &bytes[500..564]);
    assert_eq!(sig_data.qe_report().as_bytes(), &bytes[564..948]);
    assert_eq!(&sig_data.qe_report_sig()[..], &bytes[948..1012]);
    assert_eq!(sig_data.certification_data(), &bytes[1012..1022]);
}

#[test]
fn quote_round_trip_length() {
    for certification in [0usize, 1, 63, 64, 424, 1000, 70000] {
        let bytes = good_quote(certification);
        let quote = Quote::try_from(&bytes).unwrap();
        assert_eq!(quote.expected_quote_len(), bytes.len());
        assert_eq!(quote.body.expected_quote_len(), bytes.len());
        assert_eq!(v3(&quote).expected_quote_len(), 436 + 576 + certification);
    }
}

#[test]
fn quote_ends_where_it_declares() {
    let mut bytes = good_quote(4);
    let declared_end = bytes.len();
    bytes.extend_from_slice(&[0xaa; 50]);
    let quote = Quote::try_from(&bytes).unwrap();
    assert_eq!(quote.expected_quote_len(), declared_end);
    assert_eq!(v3(&quote).sig_data().certification_data(), &bytes[1012..1016]);
}

#[test]
fn quote_truncated_inside_signature_block() {
    for declared in [1u32, 63, 64, 1000] {
        for present in [0usize, 1, declared as usize / 2, declared as usize - 1] {
            if present >= declared as usize {
                continue;
            }
            let bytes = quote_bytes(3, declared, present);
            assert_eq!(Quote::try_from(&bytes), Err(QuoteError::BufferTooShort));
        }
    }
}

#[test]
fn quote_truncated_inside_full_signature_block() {
    let bytes = good_quote(100);
    for cut in [436usize, 437, 500, 1011, 1012, bytes.len() - 1] {
        assert_eq!(Quote::try_from(&bytes[..cut]), Err(QuoteError::BufferTooShort));
    }
    assert!(Quote::try_from(&bytes).is_ok());
}

#[test]
fn quote_declared_length_beyond_any_buffer() {
    let bytes = quote_bytes(3, u32::MAX, 600);
    assert_eq!(Quote::try_from(&bytes), Err(QuoteError::BufferTooShort));
}

#[test]
fn quote_signature_block_too_small_for_its_fields() {
    for declared in [0u32, 1, 63, 64, 575] {
        let bytes = quote_bytes(3, declared, declared as usize);
        assert_eq!(
            Quote::try_from(&bytes),
            Err(QuoteError::LengthMismatch {
                label: "sig data",
                expected: 576,
                actual: declared as usize
            })
        );
    }
}

#[test]
fn quote_version_gate() {
    for version in [0u16, 1, 2, 4, 0x0103, 0xffff] {
        let bytes = quote_bytes(version, 576, 576);
        assert_eq!(Quote::try_from(&bytes), Err(QuoteError::UnsupportedVersion(version)));
    }
}

#[test]
fn quote_version_gate_comes_before_the_body() {
    let bytes = quote_bytes(4, 1000, 3);
    assert_eq!(Quote::try_from(&bytes), Err(QuoteError::UnsupportedVersion(4)));
    assert_eq!(Quote::try_from(&bytes[..48]), Err(QuoteError::UnsupportedVersion(4)));
}

#[test]
fn quote_shorter_than_its_header() {
    let bytes = good_quote(0);
    for len in [0usize, 1, 47] {
        assert_eq!(
            Quote::try_from(&bytes[..len]),
            Err(QuoteError::LengthMismatch { label: "header", expected: 48, actual: len })
        );
    }
}

#[test]
fn quote_shorter_than_its_report() {
    let bytes = good_quote(0);
    for len in [48usize, 49, 431] {
        assert_eq!(
            Quote::try_from(&bytes[..len]),
            Err(QuoteError::LengthMismatch {
                label: "isv enclave report",
                expected: 384,
                actual: len - 48
            })
        );
    }
}

#[test]
fn quote_shorter_than_its_length_field() {
    let bytes = good_quote(0);
    for len in [432usize, 433, 435] {
        assert_eq!(
            Quote::try_from(&bytes[..len]),
            Err(QuoteError::LengthMismatch {
                label: "sig data len",
                expected: 4,
                actual: len - 432
            })
        );
    }
}

#[test]
fn quote_body_from_header_and_bytes() {
    let bytes = good_quote(3);
    let quote = Quote::try_from(&bytes).unwrap();
    assert_eq!(QuoteBody::try_from(&quote.header, &bytes), Ok(quote.body));
    assert_eq!(QuoteBodyV3::try_from(&bytes), Ok(v3(&quote)));
}

#[test]
fn quote_parsed_twice_is_equal() {
    let bytes = good_quote(33);
    let first = Quote::try_from(&bytes).unwrap();
    let second = Quote::try_from(&bytes).unwrap();
    assert_eq!(first, second);
    let copy = bytes.clone();
    let third = Quote::try_from(&copy).unwrap();
    assert_eq!(first, third);
}

#[test]
fn quote_verify_accepts_when_every_step_does() {
    let bytes = good_quote(0);
    let quote = Quote::try_from(&bytes).unwrap();
    assert_eq!(quote.verify(&accept_report, &accept_signature), Ok(()));
    assert_eq!(quote.body.verify(&accept_report, &accept_signature), Ok(()));
    assert_eq!(v3(&quote).verify(&accept_report, &accept_signature), Ok(()));
}

#[test]
fn quote_verify_header_comes_first() {
    let mut bytes = good_quote(0);
    bytes[2] = 3;
    let quote = Quote::try_from(&bytes).unwrap();
    let asked = Cell::new(0u32);
    let report_verifier = |_: &ReportBody| -> Result<(), QuoteError> {
        asked.set(asked.get() + 1);
        Err(QuoteError::InvalidInteger)
    };
    let raw_verifier =
        |_: &[u8], _: SignatureAlgorithm, _: &[u8], _: &[u8]| -> Result<(), QuoteError> {
            asked.set(asked.get() + 1);
            Err(QuoteError::SignatureInvalid)
        };
    assert_eq!(
        quote.verify(&report_verifier, &raw_verifier),
        Err(QuoteError::StructuralCheckFailed)
    );
    assert_eq!(asked.get(), 0);
}

#[test]
fn quote_verify_report_refusal_is_handed_back_unchanged() {
    let bytes = good_quote(0);
    let quote = Quote::try_from(&bytes).unwrap();
    let signatures = Cell::new(0u32);
    let report_verifier =
        |_: &ReportBody| -> Result<(), QuoteError> { Err(QuoteError::UnsupportedVersion(77)) };
    let raw_verifier =
        |_: &[u8], _: SignatureAlgorithm, _: &[u8], _: &[u8]| -> Result<(), QuoteError> {
            signatures.set(signatures.get() + 1);
            Ok(())
        };
    assert_eq!(
        quote.verify(&report_verifier, &raw_verifier),
        Err(QuoteError::UnsupportedVersion(77))
    );
    assert_eq!(signatures.get(), 0);
}

#[test]
fn quote_verify_asks_about_both_reports_in_order() {
    let bytes = good_quote(0);
    let quote = Quote::try_from(&bytes).unwrap();
    let isv = bytes[48..432].to_vec();
    let qe = bytes[564..948].to_vec();
    let step = Cell::new(0u32);
    let report_verifier = |report: &ReportBody| -> Result<(), QuoteError> {
        if step.get() == 0 {
            assert_eq!(report.as_bytes(), &isv[..]);
        } else {
            assert_eq!(step.get(), 1);
            assert_eq!(report.as_bytes(), &qe[..]);
        }
        step.set(step.get() + 1);
        Ok(())
    };
    let raw_verifier =
        |_: &[u8], _: SignatureAlgorithm, _: &[u8], _: &[u8]| -> Result<(), QuoteError> {
            assert_eq!(step.get(), 2);
            step.set(step.get() + 1);
            Ok(())
        };
    assert_eq!(quote.verify(&report_verifier, &raw_verifier), Ok(()));
    assert_eq!(step.get(), 3);
}

#[test]
fn quote_verify_qe_report_refusal() {
    let bytes = good_quote(0);
    let quote = Quote::try_from(&bytes).unwrap();
    let qe = bytes[564..948].to_vec();
    let report_verifier = |report: &ReportBody| -> Result<(), QuoteError> {
        if report.as_bytes() == &qe[..] {
            Err(QuoteError::StructuralCheckFailed)
        } else {
            Ok(())
        }
    };
    assert_eq!(
        quote.verify(&report_verifier, &accept_signature),
        Err(QuoteError::StructuralCheckFailed)
    );
}

#[test]
fn quote_verify_hands_message_signature_and_key_to_the_verifier() {
    let bytes = good_quote(0);
    let quote = Quote::try_from(&bytes).unwrap();
    let mut stored = [0u8; 64];
    stored.copy_from_slice(&bytes[436..500]);
    let expected_signature = signature_der(&stored);
    let raw_verifier = |message: &[u8],
                        algorithm: SignatureAlgorithm,
                        signature: &[u8],
                        signer: &[u8]|
     -> Result<(), QuoteError> {
        assert_eq!(message, &bytes[48..432]);
        assert_eq!(algorithm, SignatureAlgorithm::EcdsaP256Sha256);
        assert_eq!(signature, &expected_signature[..]);
        assert_eq!(signer, &bytes[500..564]);
        Err(QuoteError::SignatureInvalid)
    };
    assert_eq!(
        quote.verify(&accept_report, &raw_verifier),
        Err(QuoteError::SignatureInvalid)
    );
}

#[test]
fn quote_conclude_orders_the_steps() {
    let bytes = good_quote(0);
    let quote = Quote::try_from(&bytes).unwrap();
    assert_eq!(quote.conclude(Ok(()), Ok(()), Ok(())), Ok(()));
    assert_eq!(
        quote.conclude(
            Err(QuoteError::InvalidInteger),
            Err(QuoteError::BufferTooShort),
            Err(QuoteError::SignatureInvalid)
        ),
        Err(QuoteError::InvalidInteger)
    );
    assert_eq!(
        quote.conclude(Ok(()), Err(QuoteError::BufferTooShort), Err(QuoteError::SignatureInvalid)),
        Err(QuoteError::BufferTooShort)
    );
    assert_eq!(
        quote.conclude(Ok(()), Ok(()), Err(QuoteError::SignatureInvalid)),
        Err(QuoteError::SignatureInvalid)
    );
}

#[test]
fn quote_conclude_header_comes_first() {
    let mut bytes = good_quote(0);
    bytes[12] = 0;
    let quote = Quote::try_from(&bytes).unwrap();
    assert_eq!(quote.conclude(Ok(()), Ok(()), Ok(())), Err(QuoteError::StructuralCheckFailed));
    assert_eq!(
        quote.conclude(Err(QuoteError::InvalidInteger), Ok(()), Ok(())),
        Err(QuoteError::StructuralCheckFailed)
    );
}

fn p256_verifier(
    message: &[u8],
    algorithm: SignatureAlgorithm,
    signature: &[u8],
    signer: &[u8],
) -> Result<(), QuoteError> {
    if algorithm != SignatureAlgorithm::EcdsaP256Sha256 {
        return Err(QuoteError::SignatureInvalid);
    }
    let mut point = vec![0x04u8];
    point.extend_from_slice(signer);
    let key = VerifyingKey::from_sec1_bytes(&point).map_err(|_| QuoteError::SignatureInvalid)?;
    let signature = Signature::from_der(signature).map_err(|_| QuoteError::SignatureInvalid)?;
    key.verify(message, &signature).map_err(|_| QuoteError::SignatureInvalid)
}

fn signed_quote() -> Vec<u8> {
    let key = SigningKey::from_bytes(&[0x17u8; 32]).unwrap();
    let mut bytes = good_quote(16);
    let signature: Signature = key.sign(&bytes[48..432]);
    let (r, s) = signature.split_bytes();
    for i in 0..32 {
        bytes[436 + i] = r[31 - i];
        bytes[468 + i] = s[31 - i];
    }
    let point = key.verifying_key().to_encoded_point(false);
    bytes[500..564].copy_from_slice(&point.as_bytes()[1..65]);
    bytes
}

#[test]
fn quote_signature_holds_under_a_real_verifier() {
    let bytes = signed_quote();
    let quote = Quote::try_from(&bytes).unwrap();
    assert_eq!(quote.verify(&accept_report, &p256_verifier), Ok(()));
}

#[test]
fn quote_changed_report_fails_under_a_real_verifier() {
    let mut bytes = signed_quote();
    bytes[100] ^= 0x01;
    let quote = Quote::try_from(&bytes).unwrap();
    assert_eq!(quote.verify(&accept_report, &p256_verifier), Err(QuoteError::SignatureInvalid));
}

#[test]
fn quote_changed_signature_fails_under_a_real_verifier() {
    let mut bytes = signed_quote();
    bytes[440] ^= 0x80;
    let quote = Quote::try_from(&bytes).unwrap();
    assert_eq!(quote.verify(&accept_report, &p256_verifier), Err(QuoteError::SignatureInvalid));
}

#[test]
fn quote_signature_in_big_endian_order_fails() {
    let mut bytes = signed_quote();
    bytes[436..468].reverse();
    bytes[468..500].reverse();
    let quote = Quote::try_from(&bytes).unwrap();
    assert_eq!(quote.verify(&accept_report, &p256_verifier), Err(QuoteError::SignatureInvalid));
}
