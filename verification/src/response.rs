//! The three responses to a request for a file, and the status and headers
//! that each one carries.

use crate::window::ResolvedWindow;
use vstd::prelude::*;

verus! {

/// The response to one request. It decides the status and every header.
#[derive(Clone, Copy, Debug, PartialEq, Eq, Structural)]
pub enum ResponseOutcome {
    /// The whole file, of this length where the length is known.
    Full(Option<u64>),
    /// The bytes of this window, out of a file of this length.
    Partial(ResolvedWindow, u64),
    /// Nothing: the range cannot be served from the file, whose length this
    /// is where it is known.
    Unsatisfiable(Option<u64>),
}

/// The part of a file that a response's body streams: `len` bytes from
/// offset `start`, or every byte from there on where `len` is `None`.
#[derive(Clone, Copy, Debug, PartialEq, Eq, Structural)]
pub struct Body {
    pub start: u64,
    pub len: Option<u64>,
}

/// The decimal digit of a number below ten.
pub open spec fn digit(d: nat) -> char {
    if d == 0 {
        '0'
    } else if d == 1 {
        '1'
    } else if d == 2 {
        '2'
    } else if d == 3 {
        '3'
    } else if d == 4 {
        '4'
    } else if d == 5 {
        '5'
    } else if d == 6 {
        '6'
    } else if d == 7 {
        '7'
    } else if d == 8 {
        '8'
    } else {
        '9'
    }
}

/// A number written in decimal, without sign or leading zeros.
pub open spec fn decimal(n: nat) -> Seq<char>
    decreases n,
{
    if n < 10 {
        seq![digit(n)]
    } else {
        decimal(n / 10).push(digit(n % 10))
    }
}

/// The value of a `Content-Range` header in bytes: the first and last byte
/// that the response carries, or `*` where it carries none, then the length
/// of the file, or `*` where that is not known.
pub open spec fn content_range_text(range: Option<(u64, u64)>, instance_length: Option<u64>) -> Seq<
    char,
> {
    let served = match range {
        Some((first, last)) => decimal(first as nat) + seq!['-'] + decimal(last as nat),
        None => seq!['*'],
    };
    let total = match instance_length {
        Some(length) => decimal(length as nat),
        None => seq!['*'],
    };
    seq!['b', 'y', 't', 'e', 's', ' '] + served + seq!['/'] + total
}

/// The value of the `Accept-Ranges` header.
pub open spec fn accept_ranges_text() -> Seq<char> {
    seq!['b', 'y', 't', 'e', 's']
}

/// Formats hyper's `ContentRangeSpec::Bytes` of these two fields as the text
/// of a header. Not proved: that hyper writes `bytes `, then the two offsets
/// in decimal with a hyphen between them (or `*`), a slash, and the length
/// in decimal (or `*`).
#[verifier::external_body]
fn format_content_range(range: Option<(u64, u64)>, instance_length: Option<u64>) -> (text: String)
    ensures
        text@ == content_range_text(range, instance_length),
{
    hyper::header::ContentRangeSpec::Bytes { range, instance_length }.to_string()
}

impl ResponseOutcome {
    /// A partial response's window lies within its file.
    pub open spec fn wf(self) -> bool {
        match self {
            ResponseOutcome::Partial(window, file_length) => window.is_within(file_length),
            _ => true,
        }
    }

    /// The status code of the response.
    pub open spec fn status_code(self) -> u16 {
        match self {
            ResponseOutcome::Full(_) => 200,
            ResponseOutcome::Partial(_, _) => 206,
            ResponseOutcome::Unsatisfiable(_) => 416,
        }
    }

    /// The value of the `Accept-Ranges` header, the same on every response.
    pub open spec fn accept_ranges_value(self) -> Seq<char> {
        accept_ranges_text()
    }

    /// The number in the `Content-Length` header, `None` where the response
    /// has no such header.
    pub open spec fn content_length_value(self) -> Option<int> {
        match self {
            ResponseOutcome::Full(Some(length)) => Some(length as int),
            ResponseOutcome::Full(None) => None,
            ResponseOutcome::Partial(window, _) => Some(window.byte_count()),
            ResponseOutcome::Unsatisfiable(_) => None,
        }
    }

    /// The value of the `Content-Range` header, `None` where the response
    /// has no such header.
    pub open spec fn content_range_value(self) -> Option<Seq<char>> {
        match self {
            ResponseOutcome::Full(_) => None,
            ResponseOutcome::Partial(window, file_length) => Some(
                content_range_text(Some((window.start, window.end)), Some(file_length)),
            ),
            ResponseOutcome::Unsatisfiable(Some(file_length)) => Some(
                content_range_text(None, Some(file_length)),
            ),
            ResponseOutcome::Unsatisfiable(None) => None,
        }
    }

    /// The part of the file that the body streams, `None` where the response
    /// has no body.
    pub open spec fn body_span(self) -> Option<Body> {
        match self {
            ResponseOutcome::Full(length) => Some(Body { start: 0, len: length }),
            ResponseOutcome::Partial(window, _) => Some(
                Body { start: window.start, len: Some(window.byte_count() as u64) },
            ),
            ResponseOutcome::Unsatisfiable(_) => None,
        }
    }

    /// The status code: 200 for the whole file, 206 for a part of it, 416
    /// where the range cannot be served.
    pub fn status(&self) -> (code: u16)
        ensures
            code == self.status_code(),
    {
        match self {
            ResponseOutcome::Full(_) => 200,
            ResponseOutcome::Partial(_, _) => 206,
            ResponseOutcome::Unsatisfiable(_) => 416,
        }
    }

    /// The value of the `Accept-Ranges` header, which every response has.
    pub fn accept_ranges(&self) -> (unit: &'static str)
        ensures
            unit@ == self.accept_ranges_value(),
    {
        proof {
            reveal_strlit("bytes");
        }
        assert("bytes"@ =~= accept_ranges_text());
        "bytes"
    }

    /// The number of bytes in the body, for the `Content-Length` header:
    /// the file's length where the whole file is served and its length is
    /// known, the number of bytes in the window where a part is served.
    pub fn content_length(&self) -> (length: Option<u64>)
        requires
            self.wf(),
        ensures
            match length {
                Some(n) => self.content_length_value() == Some(n as int),
                None => self.content_length_value().is_none(),
            },
    {
        match self {
            ResponseOutcome::Full(length) => *length,
            ResponseOutcome::Partial(window, _) => Some(window.len()),
            ResponseOutcome::Unsatisfiable(_) => None,
        }
    }

    /// The value of the `Content-Range` header: `bytes start-end/length` on
    /// a partial response, `bytes */length` where the range cannot be served
    /// and the file's length is known.
    pub fn content_range(&self) -> (value: Option<String>)
        ensures
            match value {
                Some(text) => self.content_range_value() == Some(text@),
                None => self.content_range_value().is_none(),
            },
    {
        match self {
            ResponseOutcome::Full(_) => None,
            ResponseOutcome::Partial(window, file_length) => Some(
                format_content_range(Some((window.start, window.end)), Some(*file_length)),
            ),
            ResponseOutcome::Unsatisfiable(Some(file_length)) => Some(
                format_content_range(None, Some(*file_length)),
            ),
            ResponseOutcome::Unsatisfiable(None) => None,
        }
    }

    /// The part of the file to stream as the body.
    pub fn body(&self) -> (span: Option<Body>)
        requires
            self.wf(),
        ensures
            span == self.body_span(),
    {
        match self {
            ResponseOutcome::Full(length) => Some(Body { start: 0, len: *length }),
            ResponseOutcome::Partial(window, _) => Some(
                Body { start: window.start, len: Some(window.len()) },
            ),
            ResponseOutcome::Unsatisfiable(_) => None,
        }
    }
}

} // verus!
