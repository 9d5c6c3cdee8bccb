//! The block that one file contributes to the output.
use vstd::prelude::*;
use vstd::string::*;
use vstd::utf8::*;

verus! {

/// The line that opens the block of the file at `path`.
pub open spec fn start_marker(path: Seq<char>) -> Seq<char> {
    "<<<START_FILE:"@ + path + ">>\n"@
}

/// What follows the contents of the file at `path`: a line break, then the
/// line that closes its block.
pub open spec fn end_marker(path: Seq<char>) -> Seq<char> {
    "\n<<<END_FILE:"@ + path + ">>\n"@
}

/// The bytes of the block for the file at `path` whose text has the bytes
/// `contents`.
pub open spec fn file_block(path: Seq<char>, contents: Seq<u8>) -> Seq<u8> {
    encode_utf8(start_marker(path)) + contents + encode_utf8(end_marker(path))
}

/// What `base64::encode` makes of some bytes.
pub uninterp spec fn base64_of(b: Seq<u8>) -> Seq<char>;

/// The text that stands for a file whose bytes are not UTF-8.
pub open spec fn binary_text(bytes: Seq<u8>) -> Seq<char> {
    "[Binary data encoded as base64]:\n"@ + base64_of(bytes)
}

/// The block that a file at `path` with the bytes `bytes` yields, if any:
/// its bytes as they are where they are UTF-8; else, where binary files are
/// included, their base64 text after a line that says so; else none.
pub open spec fn rendered(path: Seq<char>, bytes: Seq<u8>, include_binary: bool) -> Option<Seq<u8>> {
    if valid_utf8(bytes) {
        Some(file_block(path, bytes))
    } else if include_binary {
        Some(file_block(path, encode_utf8(binary_text(bytes))))
    } else {
        None
    }
}

/// Relies on `std::str::from_utf8`: it accepts exactly the byte strings that
/// are valid UTF-8, and then reads the same bytes as text.
#[verifier::external_body]
fn utf8_text(b: &[u8]) -> (r: Option<&str>)
    ensures
        r is Some == valid_utf8(b@),
        r matches Some(s) ==> s.spec_bytes() == b@,
{
    std::str::from_utf8(b).ok()
}

/// Relies on `base64::encode`: the base64 text of the bytes, which depends on
/// the bytes alone.
#[verifier::external_body]
#[allow(deprecated)]
fn base64_encode(b: &[u8]) -> (r: String)
    ensures
        r@ == base64_of(b@),
{
    base64::encode(b)
}

/// The block for the file at `file_path` whose text is `contents`: the start
/// marker line, the contents, a line break and the end marker line.
pub fn write_file_contents(file_path: &str, contents: &str) -> (r: Vec<u8>)
    ensures
        r@ == file_block(file_path@, contents.spec_bytes()),
{
    let mut head = String::from_str("<<<START_FILE:");
    head.append(file_path);
    head.append(">>\n");
    let mut tail = String::from_str("\n<<<END_FILE:");
    tail.append(file_path);
    tail.append(">>\n");
    let mut out = head.as_str().as_bytes_vec();
    let mut body = contents.as_bytes_vec();
    let mut close = tail.as_str().as_bytes_vec();
    out.append(&mut body);
    out.append(&mut close);
    out
}

/// The block that the file at `file_path`, whose bytes are `buffer`, adds to
/// the output, or `None` where it adds none (bytes that are not UTF-8 while
/// binary files are left out).
pub fn process_file(file_path: &str, buffer: &[u8], include_binary: bool) -> (r: Option<Vec<u8>>)
    ensures
        rendered(file_path@, buffer@, include_binary) == match r {
            Some(b) => Some(b@),
            None => None,
        },
{
    match utf8_text(buffer) {
        Some(text) => Some(write_file_contents(file_path, text)),
        None => {
            if include_binary {
                let mut text = String::from_str("[Binary data encoded as base64]:\n");
                let encoded = base64_encode(buffer);
                text.append(encoded.as_str());
                Some(write_file_contents(file_path, text.as_str()))
            } else {
                None
            }
        },
    }
}

} // verus!
