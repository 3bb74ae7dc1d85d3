use steward::error::QuoteError;
use steward::report::{report_body_from_bytes, ReportBody};

fn numbered() -> [u8; 384] {
    let mut bytes = [0u8; 384];
    for i in 0..384 {
        bytes[i] = (i % 251) as u8;
    }
    bytes
}

#[test]
fn report_body_parse_exact_width() {
    let bytes = numbered();
    let report = ReportBody::parse("isv enclave report", &bytes).unwrap();
    assert_eq!(report.as_bytes(), &bytes[..]);
    assert_eq!(report, report_body_from_bytes(bytes));
}

#[test]
fn report_body_parse_refuses_other_widths() {
    assert_eq!(
        ReportBody::parse("qe report", &[0u8; 383]),
        Err(QuoteError::LengthMismatch { label: "qe report", expected: 384, actual: 383 })
    );
    assert_eq!(
        ReportBody::parse("qe report", &[0u8; 385]),
        Err(QuoteError::LengthMismatch { label: "qe report", expected: 384, actual: 385 })
    );
}

#[test]
fn report_body_fields_at_their_offsets() {
    let bytes = numbered();
    let report = report_body_from_bytes(bytes);
    assert_eq!(&report.mrenclave()[..], &bytes[64..96]);
    assert_eq!(&report.mrsigner()[..], &bytes[128..160]);
    assert_eq!(&report.report_data()[..], &bytes[320..384]);
}

#[test]
fn report_body_keeps_reserved_bytes() {
    let mut bytes = [0u8; 384];
    for i in 20..48 {
        bytes[i] = 0xee;
    }
    for i in 260..320 {
        bytes[i] = 0xdd;
    }
    let report = ReportBody::parse("isv enclave report", &bytes).unwrap();
    assert_eq!(report.as_bytes(), &bytes[..]);
}
