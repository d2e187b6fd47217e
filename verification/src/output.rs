//! Rendering downloaded log files for standard output: a gzip-compressed
//! JSON log is decompressed, parsed, and re-serialized — an array as the
//! concatenation of its serialized elements, an object as itself, anything
//! else as nothing. A file that is not gzip-compressed is passed over.
//!
//! Reading the file and writing to standard output happen in outside glue;
//! this module turns the file's bytes into the bytes to write.

use vstd::prelude::*;

use std::io::Read;

verus! {

/// Whether byte content is recognized as gzip-compressed.
pub uninterp spec fn detected_gzip(b: Seq<u8>) -> bool;

/// Relies on file_format::FileFormat::from_bytes: the Gzip format is
/// recognized by its two-byte signature at the start, and detection is a
/// function of the bytes alone.
#[verifier::external_body]
fn is_gzipped(bytes: &Vec<u8>) -> (r: bool)
    ensures
        r == detected_gzip(bytes@),
        r ==> bytes@.len() >= 2 && bytes@[0] == 0x1f && bytes@[1] == 0x8b,
{
    file_format::FileFormat::from_bytes(bytes.as_slice()) == file_format::FileFormat::Gzip
}

/// What decompressing gzip content into text yields, if it is well-formed.
pub uninterp spec fn gunzip_of(b: Seq<u8>) -> Option<Seq<char>>;

/// Relies on flate2::read::GzDecoder driven by std::io::Read::read_to_string:
/// decompresses a gzip stream held in memory into text. The outcome is a
/// function of the bytes alone.
#[verifier::external_body]
fn gunzip_to_string(bytes: &Vec<u8>) -> (r: Option<String>)
    ensures
        r is Some <==> gunzip_of(bytes@) is Some,
        r matches Some(s) ==> gunzip_of(bytes@) == Some(s@),
{
    let mut decoder = flate2::read::GzDecoder::new(bytes.as_slice());
    let mut text = String::new();
    match decoder.read_to_string(&mut text) {
        Ok(_) => Some(text),
        Err(_) => None,
    }
}

#[verifier::external_type_specification]
#[verifier::external_body]
pub struct ExJsonValue(serde_json::Value);

/// Whether text parses as a JSON document.
pub uninterp spec fn json_wellformed(text: Seq<char>) -> bool;

/// Relies on serde_json::from_str for serde_json::Value: parses text as
/// JSON. Whether parsing succeeds is a function of the text alone.
#[verifier::external_body]
fn json_parse(text: &str) -> (r: Option<serde_json::Value>)
    ensures
        r is Some <==> json_wellformed(text@),
{
    serde_json::from_str::<serde_json::Value>(text).ok()
}

/// Relies on serde_json::Value::is_object.
pub assume_specification[ serde_json::Value::is_object ](v: &serde_json::Value) -> bool;

/// Relies on the public variants of serde_json::Value: splits an array
/// value into its elements, handing any other value back unchanged.
#[verifier::external_body]
fn json_into_array(v: serde_json::Value) -> (r: Result<Vec<serde_json::Value>, serde_json::Value>)
{
    match v {
        serde_json::Value::Array(items) => Ok(items),
        other => Err(other),
    }
}

/// Relies on serde_json::to_vec: serializes a JSON value; serializing a
/// self-contained value does not fail.
#[verifier::external_body]
fn json_to_bytes(v: &serde_json::Value) -> Vec<u8> {
    serde_json::to_vec(v).unwrap_or_default()
}

/// Why a log file could not be rendered.
#[derive(Clone, Copy, Debug, PartialEq, Eq, Structural)]
pub enum OutputError {
    InvalidGzip,
    InvalidJson,
}

/// Serializes a parsed log document for standard output: an array becomes
/// its elements serialized back to back, a single object becomes itself,
/// and any other document contributes nothing.
fn render_json(v: serde_json::Value) -> Vec<u8> {
    match json_into_array(v) {
        Ok(items) => {
            let n = items.len();
            let mut out: Vec<u8> = Vec::new();
            let mut i: usize = 0;
            while i < n
                invariant
                    n == items@.len(),
                    0 <= i <= n,
                decreases n - i,
            {
                let mut piece = json_to_bytes(&items[i]);
                out.append(&mut piece);
                i += 1;
            }
            out
        },
        Err(other) => {
            if other.is_object() {
                json_to_bytes(&other)
            } else {
                Vec::new()
            }
        },
    }
}

/// Renders one downloaded log file for standard output. A file that is not
/// gzip-compressed yields nothing; a gzip file that does not decompress, or
/// whose text is not JSON, is an error; otherwise the parsed document is
/// serialized — an array element by element, an object whole.
pub fn output_logfile(bytes: &Vec<u8>) -> (r: Result<Vec<u8>, OutputError>)
    ensures
        !detected_gzip(bytes@) ==> (r matches Ok(v) && v@ == Seq::<u8>::empty()),
        detected_gzip(bytes@) && gunzip_of(bytes@) is None ==> r == Err::<Vec<u8>, OutputError>(
            OutputError::InvalidGzip,
        ),
        (match gunzip_of(bytes@) {
            Some(text) => detected_gzip(bytes@) && !json_wellformed(text) ==> r == Err::<
                Vec<u8>,
                OutputError,
            >(OutputError::InvalidJson),
            None => true,
        }),
        detected_gzip(bytes@) && (gunzip_of(bytes@) matches Some(text) && json_wellformed(text))
            ==> r is Ok,
{
    if !is_gzipped(bytes) {
        return Ok(Vec::new());
    }
    let text = match gunzip_to_string(bytes) {
        Some(t) => t,
        None => {
            return Err(OutputError::InvalidGzip);
        },
    };
    let value = match json_parse(text.as_str()) {
        Some(v) => v,
        None => {
            return Err(OutputError::InvalidJson);
        },
    };
    Ok(render_json(value))
}

} // verus!
