//! The `Range` request header: the ranges it names, and which one is served.

use std::str::FromStr;
use vstd::prelude::*;

verus! {

/// One byte range of a request, before anything is known of the file.
#[derive(Clone, Copy, Debug, PartialEq, Eq, Structural)]
pub enum PartialFileRange {
    /// Every byte from this offset to the end of the file.
    AllFrom(u64),
    /// The bytes from the first offset to the second, both included.
    FromTo(u64, u64),
    /// The last so many bytes of the file.
    Last(u64),
}

/// What a request says of ranges.
#[derive(Clone, Copy, Debug, PartialEq, Eq, Structural)]
pub enum RangeHeader {
    /// The request has no `Range` header: no range semantics apply.
    Absent,
    /// The header is there, but names no byte range that can be read.
    Unparseable,
    /// The header asks for this range.
    Requested(PartialFileRange),
}

/// The byte ranges that hyper reads from the text of a `Range` header, in the
/// order in which the header lists them; `None` where hyper reads no byte
/// ranges from it.
pub uninterp spec fn header_byte_ranges(value: Seq<char>) -> Option<Seq<PartialFileRange>>;

/// The range that is served out of a list: the first one. Of an empty list,
/// the whole file.
pub open spec fn first_range(ranges: Seq<PartialFileRange>) -> PartialFileRange {
    if ranges.len() == 0 {
        PartialFileRange::AllFrom(0)
    } else {
        ranges[0]
    }
}

/// What a request says of ranges, given what was read from its header:
/// a header that holds no byte ranges is unparseable, and of several ranges
/// all but the first are discarded.
pub open spec fn header_of_ranges(ranges: Option<Seq<PartialFileRange>>) -> RangeHeader {
    match ranges {
        None => RangeHeader::Unparseable,
        Some(list) => RangeHeader::Requested(first_range(list)),
    }
}

/// What a request says of ranges, given the text of its `Range` header, if it
/// has one.
pub open spec fn header_of_text(value: Option<Seq<char>>) -> RangeHeader {
    match value {
        None => RangeHeader::Absent,
        Some(text) => header_of_ranges(header_byte_ranges(text)),
    }
}

impl From<Vec<PartialFileRange>> for PartialFileRange {
    /// Takes the first range and discards the rest.
    fn from(ranges: Vec<PartialFileRange>) -> (range: PartialFileRange) {
        if ranges.len() == 0 {
            PartialFileRange::AllFrom(0)
        } else {
            ranges[0]
        }
    }
}

impl vstd::std_specs::convert::FromSpecImpl<Vec<PartialFileRange>> for PartialFileRange {
    open spec fn obeys_from_spec() -> bool {
        true
    }

    open spec fn from_spec(ranges: Vec<PartialFileRange>) -> PartialFileRange {
        first_range(ranges@)
    }
}

/// Calls hyper's `Range::from_str` on the header's text and hands out the
/// byte ranges it read, each as a `PartialFileRange` with the same numbers.
/// Not proved: that the result is what `header_byte_ranges` names, which is
/// to say that hyper reads the same ranges from the same text every time.
/// An error, or a unit other than `bytes`, comes back as `None`.
#[verifier::external_body]
fn read_byte_ranges(value: &str) -> (ranges: Option<Vec<PartialFileRange>>)
    ensures
        match ranges {
            Some(list) => header_byte_ranges(value@) == Some(list@),
            None => header_byte_ranges(value@).is_none(),
        },
{
    match hyper::header::Range::from_str(value) {
        Ok(hyper::header::Range::Bytes(specs)) => Some(
            specs.into_iter().map(|spec| match spec {
                hyper::header::ByteRangeSpec::AllFrom(from) => PartialFileRange::AllFrom(from),
                hyper::header::ByteRangeSpec::FromTo(from, to) => PartialFileRange::FromTo(from, to),
                hyper::header::ByteRangeSpec::Last(last) => PartialFileRange::Last(last),
            }).collect(),
        ),
        Ok(hyper::header::Range::Unregistered(_, _)) => None,
        Err(_) => None,
    }
}

impl RangeHeader {
    /// Decides what a request says of ranges from the byte ranges read out of
    /// its header: `None` where none could be read.
    pub fn from_ranges(ranges: Option<Vec<PartialFileRange>>) -> (header: RangeHeader)
        ensures
            header == header_of_ranges(
                match ranges {
                    Some(list) => Some(list@),
                    None => None,
                },
            ),
    {
        match ranges {
            None => RangeHeader::Unparseable,
            Some(list) => RangeHeader::Requested(PartialFileRange::from(list)),
        }
    }

    /// Reads the value of a request's `Range` header, `None` where the request
    /// has none.
    pub fn parse(value: Option<&str>) -> (header: RangeHeader)
        ensures
            header == header_of_text(
                match value {
                    Some(text) => Some(text@),
                    None => None,
                },
            ),
            value.is_none() <==> header == RangeHeader::Absent,
    {
        match value {
            None => RangeHeader::Absent,
            Some(text) => RangeHeader::from_ranges(read_byte_ranges(text)),
        }
    }
}

} // verus!
