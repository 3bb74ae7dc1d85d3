use steward::error::QuoteError;
use steward::header::{intel_vendor_id, QuoteHeader, QuoteVersion};

const INTEL: [u8; 16] = [
    0x93, 0x9A, 0x72, 0x33, 0xF7, 0x9C, 0x4C, 0xA9, 0x94, 0x0A, 0x0D, 0xB3, 0x95, 0x7F, 0x06, 0x07,
];

fn header_bytes(version: u16, key_type: u16, vendor: [u8; 16]) -> [u8; 48] {
    let mut bytes = [0u8; 48];
    bytes[0..2].copy_from_slice(&version.to_le_bytes());
    bytes[2..4].copy_from_slice(&key_type.to_le_bytes());
    bytes[8..10].copy_from_slice(&7u16.to_le_bytes());
    bytes[10..12].copy_from_slice(&0x0b0au16.to_le_bytes());
    bytes[12..28].copy_from_slice(&vendor);
    for i in 0..20 {
        bytes[28 + i] = 0xa0 + i as u8;
    }
    bytes
}

#[test]
fn header_parse_exact_width() {
    let bytes = header_bytes(3, 2, INTEL);
    let header = QuoteHeader::parse(&bytes).unwrap();
    assert_eq!(header.as_bytes(), &bytes[..]);
    assert_eq!(header, QuoteHeader::new(bytes));
}

#[test]
fn header_parse_refuses_other_widths() {
    assert_eq!(
        QuoteHeader::parse(&[0u8; 47]),
        Err(QuoteError::LengthMismatch { label: "header", expected: 48, actual: 47 })
    );
    assert_eq!(
        QuoteHeader::parse(&[0u8; 49]),
        Err(QuoteError::LengthMismatch { label: "header", expected: 48, actual: 49 })
    );
}

#[test]
fn header_version_three_is_accepted() {
    let header = QuoteHeader::new(header_bytes(3, 2, INTEL));
    assert_eq!(header.version_tag(), 3);
    assert_eq!(header.version(), Ok(QuoteVersion::V3));
}

#[test]
fn header_other_versions_are_refused() {
    for tag in [0u16, 1, 2, 4, 5, 0x0300, 0xffff] {
        let header = QuoteHeader::new(header_bytes(tag, 2, INTEL));
        assert_eq!(header.version(), Err(QuoteError::UnsupportedVersion(tag)));
    }
}

#[test]
fn header_fields_at_their_offsets() {
    let header = QuoteHeader::new(header_bytes(3, 2, INTEL));
    assert_eq!(header.att_key_type(), 2);
    assert_eq!(header.qe_svn(), 7);
    assert_eq!(header.pce_svn(), 0x0b0a);
    assert_eq!(header.qe_vendor_id(), INTEL);
    let mut user = [0u8; 20];
    for i in 0..20 {
        user[i] = 0xa0 + i as u8;
    }
    assert_eq!(header.user_data(), user);
}

#[test]
fn header_verify_accepts_intel_ecdsa() {
    let header = QuoteHeader::new(header_bytes(3, 2, INTEL));
    assert_eq!(header.verify(), Ok(()));
}

#[test]
fn header_verify_does_not_look_at_the_version() {
    let header = QuoteHeader::new(header_bytes(9, 2, INTEL));
    assert_eq!(header.verify(), Ok(()));
}

#[test]
fn header_verify_refuses_other_key_types() {
    for key_type in [0u16, 1, 3, 0x0200] {
        let header = QuoteHeader::new(header_bytes(3, key_type, INTEL));
        assert_eq!(header.verify(), Err(QuoteError::StructuralCheckFailed));
    }
}

#[test]
fn header_verify_refuses_other_vendors() {
    let mut vendor = INTEL;
    vendor[15] ^= 1;
    let header = QuoteHeader::new(header_bytes(3, 2, vendor));
    assert_eq!(header.verify(), Err(QuoteError::StructuralCheckFailed));
    let header = QuoteHeader::new(header_bytes(3, 2, [0u8; 16]));
    assert_eq!(header.verify(), Err(QuoteError::StructuralCheckFailed));
}

#[test]
fn intel_vendor_id_value() {
    assert_eq!(intel_vendor_id(), INTEL);
}
