use std::io::Write;

use dab_s3_logs::output::{output_logfile, OutputError};

fn gzip(data: &[u8]) -> Vec<u8> {
    let mut enc = flate2::write::GzEncoder::new(Vec::new(), flate2::Compression::default());
    enc.write_all(data).unwrap();
    enc.finish().unwrap()
}

#[test]
fn non_gzip_content_yields_nothing() {
    let bytes = b"plain text log".to_vec();
    assert_eq!(output_logfile(&bytes), Ok(Vec::new()));
}

#[test]
fn array_log_is_serialized_element_by_element() {
    let payload = br#"[{"a":1},{"b":2}]"#;
    let bytes = gzip(payload);
    let rendered = output_logfile(&bytes).unwrap();
    assert_eq!(rendered, br#"{"a":1}{"b":2}"#.to_vec());
}

#[test]
fn object_log_is_serialized_whole() {
    let payload = br#"{"level":"info","msg":"ok"}"#;
    let bytes = gzip(payload);
    let rendered = output_logfile(&bytes).unwrap();
    assert_eq!(rendered, br#"{"level":"info","msg":"ok"}"#.to_vec());
}

#[test]
fn scalar_log_yields_nothing() {
    let bytes = gzip(b"42");
    assert_eq!(output_logfile(&bytes), Ok(Vec::new()));
}

#[test]
fn invalid_json_in_gzip_is_an_error() {
    let bytes = gzip(b"not json at all {{{");
    assert_eq!(output_logfile(&bytes), Err(OutputError::InvalidJson));
}

#[test]
fn corrupt_gzip_is_an_error() {
    // The gzip signature followed by garbage: detected as gzip, fails to
    // decompress.
    let bytes = vec![0x1f, 0x8b, 0x00, 0x01, 0x02, 0x03];
    assert_eq!(output_logfile(&bytes), Err(OutputError::InvalidGzip));
}
