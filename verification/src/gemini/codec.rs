//! The wire format: the request line that is written, and the response
//! that is read until the server closes the connection.

use crate::text::{
    chars_of, contains, find, first_occurrence, is_first_occurrence,
    lemma_first_occurrence_unique, occurs_at,
};
use vstd::prelude::*;
use vstd::string::{StrSliceExecFns, StringExecFns};
use vstd::utf8::{decode_utf8, encode_utf8, valid_utf8};

verus! {

/// What can go wrong between the request and the response. The write and
/// read failures carry the transport's account of them.
#[derive(Debug)]
pub enum CodecError {
    /// The request could not be written.
    Write(String),
    /// The response could not be read to its end.
    Read(String),
    /// The response holds no line end, so it has no status line.
    MalformedFraming,
}

/// The line end of the protocol: carriage return, line feed.
pub open spec fn crlf() -> Seq<char> {
    seq!['\r', '\n']
}

/// The request for `location`: the location and a line end.
pub open spec fn request_text(location: Seq<char>) -> Seq<char> {
    location + crlf()
}

/// What `String::from_utf8_lossy` makes of bytes that are not valid UTF-8.
pub uninterp spec fn lossy_repair(bytes: Seq<u8>) -> Seq<char>;

/// The text of a response: the bytes decoded as UTF-8, with every invalid
/// sequence replaced.
pub open spec fn decoded(bytes: Seq<u8>) -> Seq<char> {
    if valid_utf8(bytes) {
        decode_utf8(bytes)
    } else {
        lossy_repair(bytes)
    }
}

/// A response split at its first line end into the status line and the
/// body, where it holds a line end.
pub open spec fn split_at_crlf(text: Seq<char>) -> Option<(Seq<char>, Seq<char>)> {
    if contains(text, crlf()) {
        let i = first_occurrence(text, crlf());
        Some((text.take(i), text.skip(i + 2)))
    } else {
        None
    }
}

/// The bytes to write for a request of `location`, in one piece.
pub fn request_line(location: &str) -> (bytes: Vec<u8>)
    ensures
        bytes@ == encode_utf8(request_text(location@)),
{
    proof {
        reveal_strlit("\r\n");
        assert("\r\n"@ =~= crlf());
    }
    let mut line: String = String::from_str(location);
    line.append("\r\n");
    line.as_str().as_bytes_vec()
}

/// Calls `String::from_utf8_lossy`, which never fails: valid UTF-8 is
/// decoded as it stands, and of other input the contract says only that
/// the bytes determine the text.
#[verifier::external_body]
fn decode_lossy(bytes: &[u8]) -> (text: String)
    ensures
        valid_utf8(bytes@) ==> text@ == decode_utf8(bytes@),
        !valid_utf8(bytes@) ==> text@ == lossy_repair(bytes@),
{
    String::from_utf8_lossy(bytes).into_owned()
}

/// Decodes the bytes of a response.
pub fn decode(bytes: &[u8]) -> (text: String)
    ensures
        text@ == decoded(bytes@),
{
    decode_lossy(bytes)
}

/// Splits a decoded response at its first line end.
pub fn split_response(text: &str) -> (r: Result<(&str, &str), CodecError>)
    ensures
        match r {
            Ok(parts) => split_at_crlf(text@) == Some((parts.0@, parts.1@)),
            Err(e) => e is MalformedFraming && split_at_crlf(text@) is None,
        },
{
    let chars: Vec<char> = chars_of(text);
    let end: usize = chars.len();
    let separator: Vec<char> = chars_of("\r\n");
    proof {
        reveal_strlit("\r\n");
        assert(separator@ =~= crlf());
    }
    match find(chars.as_slice(), separator.as_slice()) {
        Some(i) => {
            proof {
                lemma_first_occurrence_unique(text@, crlf(), i as int);
                assert(i + crlf().len() <= chars@.len());
            }
            let header: &str = text.substring_char(0, i);
            let body: &str = text.substring_char(i + 2, end);
            Ok((header, body))
        },
        None => Err(CodecError::MalformedFraming),
    }
}

/// A status line without a line end in it, a line end and a body split
/// into that status line and that body.
pub proof fn lemma_split_joined(header: Seq<char>, body: Seq<char>)
    requires
        !contains(header, crlf()),
    ensures
        split_at_crlf(header + crlf() + body) == Some((header, body)),
{
    let text = header + crlf() + body;
    let n = header.len() as int;
    assert(text.subrange(n, n + 2) =~= crlf());
    assert forall|j: int| 0 <= j < n implies !occurs_at(text, crlf(), j) by {
        if occurs_at(text, crlf(), j) {
            assert(text.subrange(j, j + 2)[0] == '\r');
            assert(text.subrange(j, j + 2)[1] == '\n');
            if j + 2 <= n {
                assert(header.subrange(j, j + 2) =~= text.subrange(j, j + 2));
                assert(occurs_at(header, crlf(), j));
            } else {
                assert(text[j + 1] == '\r');
            }
        }
    }
    assert(is_first_occurrence(text, crlf(), n));
    lemma_first_occurrence_unique(text, crlf(), n);
    assert(text.take(n) =~= header);
    assert(text.skip(n + 2) =~= body);
}

} // verus!
