//! Reading a child's output line by line, and recognising readiness in it.

use vstd::prelude::*;
use vstd::utf8::*;

verus! {

/// Whether `needle` occurs in `hay` as a contiguous run of characters.
pub open spec fn has_substring(hay: Seq<char>, needle: Seq<char>) -> bool {
    exists|i: int|
        0 <= i && i + needle.len() <= hay.len() && #[trigger] hay.subrange(
            i,
            i + needle.len(),
        ) == needle
}

/// The text that the relay logs once its listener accepts connections.
pub open spec fn marker() -> Seq<char> {
    "control message listener started"@
}

/// Whether a captured line announces readiness.
pub open spec fn announces_ready(line: Seq<char>) -> bool {
    has_substring(line, marker())
}

/// `str::contains` with a string pattern: true exactly when the pattern is a
/// substring of the text.
#[verifier::external_body]
fn str_contains(hay: &str, needle: &str) -> (r: bool)
    ensures
        r == has_substring(hay@, needle@),
{
    hay.contains(needle)
}

/// `String::from_utf8`: succeeds exactly on well-formed UTF-8, and the string
/// it gives is the decoding of the bytes and encodes back to them.
#[verifier::external_body]
fn string_from_utf8(bytes: Vec<u8>) -> (r: Option<String>)
    ensures
        r is Some <==> valid_utf8(bytes@),
        r is Some ==> r.unwrap()@ == decode_utf8(bytes@),
        r is Some ==> encode_utf8(r.unwrap()@) == bytes@,
{
    String::from_utf8(bytes).ok()
}

/// What one read of a stream means to the pump that forwards its lines.
#[derive(Debug)]
pub enum Pumped {
    /// A line to forward, with its newline if the stream had one.
    Forward(String),
    /// Bytes that are not text: they are dropped and the pump goes on.
    Skip,
    /// The stream has ended: the pump stops.
    Stop,
}

/// Judges one read: `n` bytes came and `buffer` holds them.
///
/// No bytes mean the stream has ended. Bytes that decode as UTF-8 are a line
/// to forward, a last line without a newline included. Anything else is
/// dropped.
pub fn classify_chunk(n: usize, buffer: Vec<u8>) -> (r: Pumped)
    ensures
        n == 0 ==> r is Stop,
        n != 0 && valid_utf8(buffer@) ==> r is Forward && r->Forward_0@ == decode_utf8(buffer@),
        n != 0 && !valid_utf8(buffer@) ==> r is Skip,
{
    if n == 0 {
        Pumped::Stop
    } else {
        match string_from_utf8(buffer) {
            Some(line) => Pumped::Forward(line),
            None => Pumped::Skip,
        }
    }
}

/// Judges what a read up to the next newline gave for the pump: `read` is
/// what the read returned and `buffer` holds the bytes that came. A read that
/// failed ends the pump as the end of the stream does: capture never fails
/// its caller.
pub fn pump_next(read: Result<usize, std::io::Error>, buffer: Vec<u8>) -> (r: Pumped)
    ensures
        read is Err || read == Ok::<usize, std::io::Error>(0) ==> r is Stop,
        read matches Ok(n) && n != 0 && valid_utf8(buffer@) ==> r is Forward && r->Forward_0@
            == decode_utf8(buffer@),
        read matches Ok(n) && n != 0 && !valid_utf8(buffer@) ==> r is Skip,
{
    match read {
        Ok(n) => classify_chunk(n, buffer),
        Err(_) => Pumped::Stop,
    }
}

/// Turns what a read up to the next newline gave into a line: `read` is what
/// the read returned and `buffer` holds the bytes that came.
///
/// Gives the line that was read, or nothing where the stream has ended or the
/// bytes are not text. A failed read is handed on.
pub fn try_read_line(read: Result<usize, std::io::Error>, buffer: Vec<u8>) -> (r: Result<
    Option<String>,
    std::io::Error,
>)
    ensures
        read matches Err(e) ==> r == Err::<Option<String>, std::io::Error>(e),
        read matches Ok(n) ==> r is Ok,
        read matches Ok(n) && n != 0 && valid_utf8(buffer@) ==> r.unwrap() is Some
            && r.unwrap().unwrap()@ == decode_utf8(buffer@),
        read matches Ok(n) && (n == 0 || !valid_utf8(buffer@)) ==> r.unwrap() is None,
{
    match read {
        Ok(n) => match classify_chunk(n, buffer) {
            Pumped::Forward(line) => Ok(Some(line)),
            _ => Ok(None),
        },
        Err(e) => Err(e),
    }
}

/// Whether `line` holds the readiness marker.
pub fn is_ready_line(line: &str) -> (r: bool)
    ensures
        r == announces_ready(line@),
{
    str_contains(line, "control message listener started")
}

} // verus!
