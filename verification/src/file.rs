//! A file that is served, as far as a response depends on it.

use crate::range::{header_of_text, PartialFileRange, RangeHeader};
use crate::response::{accept_ranges_text, content_range_text, ResponseOutcome};
use crate::window::{resolve, resolved, ResolvedWindow};
use vstd::prelude::*;

verus! {

/// What a response needs to know of the file it serves: its length in bytes,
/// `None` where the length could not be read.
#[derive(Clone, Copy, Debug, PartialEq, Eq, Structural)]
pub struct PartialFile {
    pub length: Option<u64>,
}

impl PartialFile {
    /// The response to a request for one range of the file: the resolved
    /// window where there is one, a refusal where there is none or the
    /// file's length is not known.
    pub open spec fn partial(self, range: PartialFileRange) -> ResponseOutcome {
        match self.length {
            None => ResponseOutcome::Unsatisfiable(None),
            Some(file_length) => match resolved(range, file_length) {
                Some(window) => ResponseOutcome::Partial(window, file_length),
                None => ResponseOutcome::Unsatisfiable(Some(file_length)),
            },
        }
    }

    /// The response to a request, given what it says of ranges: the whole
    /// file where it says nothing, a refusal where its header cannot be
    /// read, and else the response to the range it asks for.
    pub open spec fn response(self, header: RangeHeader) -> ResponseOutcome {
        match header {
            RangeHeader::Absent => ResponseOutcome::Full(self.length),
            RangeHeader::Unparseable => ResponseOutcome::Unsatisfiable(self.length),
            RangeHeader::Requested(range) => self.partial(range),
        }
    }

    /// Answers a request for one range of the file.
    pub fn get_partial(&self, range: PartialFileRange) -> (outcome: ResponseOutcome)
        ensures
            outcome == self.partial(range),
            outcome.wf(),
    {
        match self.length {
            None => ResponseOutcome::Unsatisfiable(None),
            Some(file_length) => match resolve(range, file_length) {
                Some(window) => ResponseOutcome::Partial(window, file_length),
                None => ResponseOutcome::Unsatisfiable(Some(file_length)),
            },
        }
    }

    /// Answers a request, given what it says of ranges.
    pub fn respond(&self, header: RangeHeader) -> (outcome: ResponseOutcome)
        ensures
            outcome == self.response(header),
            outcome.wf(),
    {
        match header {
            RangeHeader::Absent => ResponseOutcome::Full(self.length),
            RangeHeader::Unparseable => ResponseOutcome::Unsatisfiable(self.length),
            RangeHeader::Requested(range) => self.get_partial(range),
        }
    }

    /// Answers a request, given the value of its `Range` header, `None`
    /// where it has none.
    pub fn respond_to(&self, range: Option<&str>) -> (outcome: ResponseOutcome)
        ensures
            outcome == self.response(
                header_of_text(
                    match range {
                        Some(text) => Some(text@),
                        None => None,
                    },
                ),
            ),
            outcome.wf(),
            range.is_none() ==> outcome == ResponseOutcome::Full(self.length),
    {
        self.respond(RangeHeader::parse(range))
    }
}

/// Every response is well formed: a partial one carries a window of at least
/// one byte that lies within the file.
pub proof fn response_is_well_formed(file: PartialFile, header: RangeHeader)
    ensures
        file.response(header).wf(),
{
}

/// The status says which response it is: 200 exactly where the request names
/// no range, 206 exactly where its range resolves to a window, 416 in every
/// other case.
pub proof fn status_follows_resolution(file: PartialFile, header: RangeHeader)
    ensures
        file.response(header).status_code() == 200 <==> header == RangeHeader::Absent,
        file.response(header).status_code() == 206 <==> (header matches RangeHeader::Requested(
            range,
        ) && file.length matches Some(file_length) && resolved(range, file_length).is_some()),
        file.response(header).status_code() == 416 <==> !(header == RangeHeader::Absent)
            && file.response(header).status_code() != 206,
{
}

/// A partial response announces exactly the bytes of its window: its
/// `Content-Length` is `end - start + 1`, its `Content-Range` names the
/// window and the file's length, and its body is that window.
pub proof fn partial_response_carries_window(
    file_length: u64,
    range: PartialFileRange,
    window: ResolvedWindow,
)
    requires
        resolved(range, file_length) == Some(window),
    ensures
        ({
            let outcome = PartialFile { length: Some(file_length) }.partial(range);
            &&& outcome == ResponseOutcome::Partial(window, file_length)
            &&& outcome.status_code() == 206
            &&& outcome.content_length_value() == Some(window.end - window.start + 1)
            &&& outcome.content_range_value() == Some(
                content_range_text(Some((window.start, window.end)), Some(file_length)),
            )
            &&& outcome.body_span() matches Some(body) && body.start == window.start && body.len
                == Some((window.end - window.start + 1) as u64)
        }),
{
}

/// A request without a `Range` header is answered with the whole file:
/// status 200, the file's length as `Content-Length`, and `Accept-Ranges:
/// bytes`.
pub proof fn absent_range_serves_whole_file(file_length: u64)
    ensures
        ({
            let outcome = PartialFile { length: Some(file_length) }.response(header_of_text(None));
            &&& outcome == ResponseOutcome::Full(Some(file_length))
            &&& outcome.status_code() == 200
            &&& outcome.content_length_value() == Some(file_length as int)
            &&& outcome.accept_ranges_value() == accept_ranges_text()
            &&& outcome.content_range_value().is_none()
        }),
{
}

/// A range that cannot be served is refused with the file's length: status
/// 416, `Content-Range: bytes */length`, no `Content-Length` and no body.
pub proof fn unsatisfiable_range_names_file_length(file_length: u64, header: RangeHeader)
    requires
        header == RangeHeader::Unparseable || (header matches RangeHeader::Requested(range)
            && resolved(range, file_length).is_none()),
    ensures
        ({
            let outcome = PartialFile { length: Some(file_length) }.response(header);
            &&& outcome == ResponseOutcome::Unsatisfiable(Some(file_length))
            &&& outcome.status_code() == 416
            &&& outcome.content_range_value() == Some(content_range_text(None, Some(file_length)))
            &&& outcome.content_length_value().is_none()
            &&& outcome.body_span().is_none()
        }),
{
}

} // verus!
