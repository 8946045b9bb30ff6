//! The status line of a response: a two-digit code, then the meta text.

use crate::text::{
    chars_of, decimal, decimal_text, digit_char, digit_value, is_digit, is_whitespace, trim,
    trim_bounds, trim_start,
};
use vstd::prelude::*;
use vstd::string::{StrSliceExecFns, StringExecFns};

verus! {

/// What a status line says. The code's tens digit picks the category; a
/// line with no code in 10..=69 is an invalid response and keeps its text.
#[derive(Debug)]
pub enum GeminiStatus<'a> {
    Input(u32, &'a str),
    Success(u32, &'a str),
    Redirect(u32, &'a str),
    TemporaryFailure(u32, &'a str),
    PermanentFailure(u32, &'a str),
    ClientCertificateRequired(u32, &'a str),
    InvalidResponse(&'a str),
}

/// The mathematical value of a [`GeminiStatus`].
pub enum StatusView {
    Input(u32, Seq<char>),
    Success(u32, Seq<char>),
    Redirect(u32, Seq<char>),
    TemporaryFailure(u32, Seq<char>),
    PermanentFailure(u32, Seq<char>),
    ClientCertificateRequired(u32, Seq<char>),
    InvalidResponse(Seq<char>),
}

impl<'a> View for GeminiStatus<'a> {
    type V = StatusView;

    open spec fn view(&self) -> StatusView {
        match *self {
            GeminiStatus::Input(code, meta) => StatusView::Input(code, meta@),
            GeminiStatus::Success(code, meta) => StatusView::Success(code, meta@),
            GeminiStatus::Redirect(code, meta) => StatusView::Redirect(code, meta@),
            GeminiStatus::TemporaryFailure(code, meta) => StatusView::TemporaryFailure(
                code,
                meta@,
            ),
            GeminiStatus::PermanentFailure(code, meta) => StatusView::PermanentFailure(
                code,
                meta@,
            ),
            GeminiStatus::ClientCertificateRequired(code, meta) => {
                StatusView::ClientCertificateRequired(code, meta@)
            },
            GeminiStatus::InvalidResponse(text) => StatusView::InvalidResponse(text@),
        }
    }
}

/// The code that a status line opens with: its first two characters read
/// as a decimal number, where both are digits.
pub open spec fn status_code(header: Seq<char>) -> Option<u32> {
    if header.len() >= 2 && is_digit(header[0]) && is_digit(header[1]) {
        Some((10 * digit_value(header[0]) + digit_value(header[1])) as u32)
    } else {
        None
    }
}

/// The meta text of a status line: what follows the code, trimmed.
pub open spec fn status_meta(header: Seq<char>) -> Seq<char> {
    trim(header.skip(2))
}

/// The status with code `code` and meta text `meta`, for a line `header`:
/// each decade from 10 to 69 is one category, and any other code makes
/// the line an invalid response.
pub open spec fn categorize(code: u32, meta: Seq<char>, header: Seq<char>) -> StatusView {
    if 10 <= code < 20 {
        StatusView::Input(code, meta)
    } else if 20 <= code < 30 {
        StatusView::Success(code, meta)
    } else if 30 <= code < 40 {
        StatusView::Redirect(code, meta)
    } else if 40 <= code < 50 {
        StatusView::TemporaryFailure(code, meta)
    } else if 50 <= code < 60 {
        StatusView::PermanentFailure(code, meta)
    } else if 60 <= code < 70 {
        StatusView::ClientCertificateRequired(code, meta)
    } else {
        StatusView::InvalidResponse(header)
    }
}

/// What the status line `header` says.
pub open spec fn classify(header: Seq<char>) -> StatusView {
    match status_code(header) {
        Some(code) => categorize(code, status_meta(header), header),
        None => StatusView::InvalidResponse(header),
    }
}

/// The status line with code `code` and meta text `meta`: two digits, a
/// space, the meta text.
pub open spec fn header_line(code: int, meta: Seq<char>) -> Seq<char> {
    seq![digit_char(code / 10), digit_char(code % 10), ' '] + meta
}

/// What `<str as Debug>::fmt` writes for `text`: the text between double
/// quotes, with escapes where the formatter puts them.
pub uninterp spec fn debug_quoted(text: Seq<char>) -> Seq<char>;

/// The text that a status carries: the meta text, or the whole line of an
/// invalid response.
pub open spec fn carried_text(status: StatusView) -> Seq<char> {
    match status {
        StatusView::Input(_, meta) => meta,
        StatusView::Success(_, meta) => meta,
        StatusView::Redirect(_, meta) => meta,
        StatusView::TemporaryFailure(_, meta) => meta,
        StatusView::PermanentFailure(_, meta) => meta,
        StatusView::ClientCertificateRequired(_, meta) => meta,
        StatusView::InvalidResponse(text) => text,
    }
}

/// A category's name, its code and its quoted text, written as a tuple.
pub open spec fn coded_text(name: Seq<char>, code: u32, quoted: Seq<char>) -> Seq<char> {
    name + "("@ + decimal(code as nat) + ", "@ + quoted + ")"@
}

/// A status written out around its text, which comes already quoted: the
/// category, then in brackets the code and the text, or for an invalid
/// response the text alone.
pub open spec fn status_text_around(status: StatusView, quoted: Seq<char>) -> Seq<char> {
    match status {
        StatusView::Input(code, _) => coded_text("Input"@, code, quoted),
        StatusView::Success(code, _) => coded_text("Success"@, code, quoted),
        StatusView::Redirect(code, _) => coded_text("Redirect"@, code, quoted),
        StatusView::TemporaryFailure(code, _) => coded_text("TemporaryFailure"@, code, quoted),
        StatusView::PermanentFailure(code, _) => coded_text("PermanentFailure"@, code, quoted),
        StatusView::ClientCertificateRequired(code, _) => coded_text(
            "ClientCertificateRequired"@,
            code,
            quoted,
        ),
        StatusView::InvalidResponse(_) => "InvalidResponse("@ + quoted + ")"@,
    }
}

/// A status written out for a diagnostic, with its text quoted as the
/// standard formatter quotes a string.
pub open spec fn status_text(status: StatusView) -> Seq<char> {
    status_text_around(status, debug_quoted(carried_text(status)))
}

/// Calls `<str as Debug>::fmt` through `format!`. The contract says only
/// that the text determines what is written.
#[verifier::external_body]
fn quote(text: &str) -> (r: String)
    ensures
        r@ == debug_quoted(text@),
{
    format!("{:?}", text)
}

/// Writes a category's name, its code and its quoted text.
fn coded(name: &str, code: u32, quoted: &str) -> (r: String)
    ensures
        r@ == coded_text(name@, code, quoted@),
{
    let mut r: String = String::from_str(name);
    r.append("(");
    r.append(decimal_text(code).as_str());
    r.append(", ");
    r.append(quoted);
    r.append(")");
    r
}

impl<'a> GeminiStatus<'a> {
    /// Reads a status line.
    pub fn from_response(response: &str) -> (status: GeminiStatus<'_>)
        ensures
            status@ == classify(response@),
    {
        let chars: Vec<char> = chars_of(response);
        if chars.len() < 2 {
            return GeminiStatus::InvalidResponse(response);
        }
        let c0: char = chars[0];
        let c1: char = chars[1];
        if !('0' <= c0 && c0 <= '9' && '0' <= c1 && c1 <= '9') {
            return GeminiStatus::InvalidResponse(response);
        }
        let code: u32 = 10 * (c0 as u32 - '0' as u32) + (c1 as u32 - '0' as u32);
        let bounds: (usize, usize) = trim_bounds(chars.as_slice(), 2, chars.len());
        let meta: &str = response.substring_char(bounds.0, bounds.1);
        assert(chars@.subrange(2, chars@.len() as int) =~= response@.skip(2));
        if code < 10 {
            GeminiStatus::InvalidResponse(response)
        } else if code < 20 {
            GeminiStatus::Input(code, meta)
        } else if code < 30 {
            GeminiStatus::Success(code, meta)
        } else if code < 40 {
            GeminiStatus::Redirect(code, meta)
        } else if code < 50 {
            GeminiStatus::TemporaryFailure(code, meta)
        } else if code < 60 {
            GeminiStatus::PermanentFailure(code, meta)
        } else if code < 70 {
            GeminiStatus::ClientCertificateRequired(code, meta)
        } else {
            GeminiStatus::InvalidResponse(response)
        }
    }

    /// The text that the status carries: the meta text, or the whole line
    /// of an invalid response.
    pub fn text(&self) -> (r: &'a str)
        ensures
            r@ == carried_text(self@),
    {
        match *self {
            GeminiStatus::Input(_, meta) => meta,
            GeminiStatus::Success(_, meta) => meta,
            GeminiStatus::Redirect(_, meta) => meta,
            GeminiStatus::TemporaryFailure(_, meta) => meta,
            GeminiStatus::PermanentFailure(_, meta) => meta,
            GeminiStatus::ClientCertificateRequired(_, meta) => meta,
            GeminiStatus::InvalidResponse(text) => text,
        }
    }

    /// Writes the status out around its text, which comes already quoted.
    pub fn describe_around(&self, quoted: &str) -> (r: String)
        ensures
            r@ == status_text_around(self@, quoted@),
    {
        match *self {
            GeminiStatus::Input(code, _) => coded("Input", code, quoted),
            GeminiStatus::Success(code, _) => coded("Success", code, quoted),
            GeminiStatus::Redirect(code, _) => coded("Redirect", code, quoted),
            GeminiStatus::TemporaryFailure(code, _) => coded("TemporaryFailure", code, quoted),
            GeminiStatus::PermanentFailure(code, _) => coded("PermanentFailure", code, quoted),
            GeminiStatus::ClientCertificateRequired(code, _) => coded(
                "ClientCertificateRequired",
                code,
                quoted,
            ),
            GeminiStatus::InvalidResponse(_) => {
                let mut r: String = String::from_str("InvalidResponse(");
                r.append(quoted);
                r.append(")");
                r
            },
        }
    }

    /// Writes the status out for a diagnostic.
    pub fn describe(&self) -> (r: String)
        ensures
            r@ == status_text(self@),
    {
        let quoted: String = quote(self.text());
        self.describe_around(quoted.as_str())
    }
}

/// A status line made of a code from 10 to 69, a space and a meta text
/// classifies as the category of the code's decade, with that code and
/// with the meta text trimmed.
pub proof fn lemma_header_line_category(code: u32, meta: Seq<char>)
    requires
        10 <= code < 70,
    ensures
        status_code(header_line(code as int, meta)) == Some(code),
        10 <= code < 20 ==> classify(header_line(code as int, meta)) == StatusView::Input(
            code,
            trim(meta),
        ),
        20 <= code < 30 ==> classify(header_line(code as int, meta)) == StatusView::Success(
            code,
            trim(meta),
        ),
        30 <= code < 40 ==> classify(header_line(code as int, meta)) == StatusView::Redirect(
            code,
            trim(meta),
        ),
        40 <= code < 50 ==> classify(header_line(code as int, meta))
            == StatusView::TemporaryFailure(code, trim(meta)),
        50 <= code < 60 ==> classify(header_line(code as int, meta))
            == StatusView::PermanentFailure(code, trim(meta)),
        60 <= code < 70 ==> classify(header_line(code as int, meta))
            == StatusView::ClientCertificateRequired(code, trim(meta)),
{
    let header = header_line(code as int, meta);
    let rest = header.skip(2);
    assert(rest =~= seq![' '] + meta);
    assert(is_whitespace(' '));
    assert(rest.drop_first() =~= meta);
    assert(trim_start(rest) == trim_start(meta));
}

/// A status line classifies as an invalid response, keeping its text,
/// exactly when its first two characters are not both digits or the code
/// they spell is not in 10..=69.
pub proof fn lemma_invalid_response(header: Seq<char>)
    ensures
        classify(header) is InvalidResponse <==> (status_code(header) matches Some(code) ==> !(10
            <= code < 70)),
        classify(header) is InvalidResponse ==> classify(header) == StatusView::InvalidResponse(
            header,
        ),
{
}

} // verus!
