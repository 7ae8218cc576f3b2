//! From a requested range and a file's length to the bytes that are served.

use crate::range::PartialFileRange;
use vstd::prelude::*;

verus! {

/// The bytes of a file that a response carries: those from offset `start` to
/// offset `end`, both included.
#[derive(Clone, Copy, Debug, PartialEq, Eq, Structural)]
pub struct ResolvedWindow {
    pub start: u64,
    pub end: u64,
}

impl ResolvedWindow {
    /// The window names at least one byte, and only bytes of a file of this
    /// length.
    pub open spec fn is_within(self, file_length: u64) -> bool {
        self.start <= self.end && self.end < file_length
    }

    /// The window lies within a file of some length.
    pub open spec fn wf(self) -> bool {
        self.start <= self.end && self.end < u64::MAX
    }

    /// How many bytes the window holds.
    pub open spec fn byte_count(self) -> int {
        self.end - self.start + 1
    }

    /// How many bytes the window holds.
    pub fn len(&self) -> (count: u64)
        requires
            self.wf(),
        ensures
            count == self.byte_count(),
            count >= 1,
    {
        self.end - self.start + 1
    }
}

/// The window that a range names in a file of `file_length` bytes, `None`
/// where the file has no byte that the range asks for.
///
/// A range with both bounds is cut off at the file's last byte. A suffix
/// longer than the file stands for the whole file. A file without bytes, and
/// a suffix of no bytes, have nothing to serve.
pub open spec fn resolved(range: PartialFileRange, file_length: u64) -> Option<ResolvedWindow> {
    let last_byte = (file_length - 1) as u64;
    match range {
        PartialFileRange::FromTo(from, to) => if from <= to && from < file_length {
            Some(ResolvedWindow { start: from, end: if to < file_length { to } else { last_byte } })
        } else {
            None
        },
        PartialFileRange::AllFrom(from) => if from < file_length {
            Some(ResolvedWindow { start: from, end: last_byte })
        } else {
            None
        },
        PartialFileRange::Last(count) => if count == 0 || file_length == 0 {
            None
        } else if count < file_length {
            Some(ResolvedWindow { start: (file_length - count) as u64, end: last_byte })
        } else {
            Some(ResolvedWindow { start: 0, end: last_byte })
        },
    }
}

/// Resolves a requested range against the length of the file.
pub fn resolve(range: PartialFileRange, file_length: u64) -> (window: Option<ResolvedWindow>)
    ensures
        window == resolved(range, file_length),
        window matches Some(w) ==> w.is_within(file_length),
        file_length == 0 ==> window.is_none(),
{
    if file_length == 0 {
        return None;
    }
    let last_byte: u64 = file_length - 1;
    match range {
        PartialFileRange::FromTo(from, to) => {
            if from <= to && from < file_length {
                let end: u64 = if to < file_length { to } else { last_byte };
                Some(ResolvedWindow { start: from, end })
            } else {
                None
            }
        },
        PartialFileRange::AllFrom(from) => {
            if from < file_length {
                Some(ResolvedWindow { start: from, end: last_byte })
            } else {
                None
            }
        },
        PartialFileRange::Last(count) => {
            if count == 0 {
                None
            } else if count < file_length {
                Some(ResolvedWindow { start: file_length - count, end: last_byte })
            } else {
                Some(ResolvedWindow { start: 0, end: last_byte })
            }
        },
    }
}

/// Every window that resolution gives names at least one byte and only bytes
/// of the file, whatever the range and the length.
pub proof fn resolved_window_is_within_file(range: PartialFileRange, file_length: u64)
    ensures
        resolved(range, file_length) matches Some(w) ==> w.is_within(file_length) && w.wf()
            && 1 <= w.byte_count() <= file_length,
{
}

/// No range can be served from a file without bytes.
pub proof fn empty_file_is_unsatisfiable(range: PartialFileRange)
    ensures
        resolved(range, 0).is_none(),
{
}

/// A range with both bounds that lies inside the file is served as asked.
pub proof fn explicit_range_inside_file(start: u64, end: u64, file_length: u64)
    requires
        start <= end,
        end < file_length,
    ensures
        resolved(PartialFileRange::FromTo(start, end), file_length) == Some(
            ResolvedWindow { start, end },
        ),
{
}

/// A range with both bounds that starts inside the file and ends at or after
/// the file's end is served up to the file's last byte.
pub proof fn explicit_range_is_clamped(start: u64, end: u64, file_length: u64)
    requires
        end >= file_length,
        start < file_length,
    ensures
        resolved(PartialFileRange::FromTo(start, end), file_length) == Some(
            ResolvedWindow { start, end: (file_length - 1) as u64 },
        ),
{
}

/// A range with both bounds is served if and only if it starts inside the
/// file and does not end before it starts.
pub proof fn explicit_range_satisfiable_iff(start: u64, end: u64, file_length: u64)
    ensures
        resolved(PartialFileRange::FromTo(start, end), file_length).is_some() <==> (start <= end
            && start < file_length),
{
}

/// An open range that starts at or after the file's end cannot be served.
pub proof fn open_range_past_end_is_unsatisfiable(start: u64, file_length: u64)
    requires
        start >= file_length,
    ensures
        resolved(PartialFileRange::AllFrom(start), file_length).is_none(),
{
}

/// An open range that starts inside the file is served to the file's last
/// byte.
pub proof fn open_range_inside_file(start: u64, file_length: u64)
    requires
        start < file_length,
    ensures
        resolved(PartialFileRange::AllFrom(start), file_length) == Some(
            ResolvedWindow { start, end: (file_length - 1) as u64 },
        ),
{
}

/// A suffix of at least one byte that is shorter than the file is served as
/// the file's last `count` bytes.
pub proof fn suffix_shorter_than_file(count: u64, file_length: u64)
    requires
        0 < count,
        count < file_length,
    ensures
        resolved(PartialFileRange::Last(count), file_length) == Some(
            ResolvedWindow {
                start: (file_length - count) as u64,
                end: (file_length - 1) as u64,
            },
        ),
{
}

/// A suffix that is at least as long as a file with bytes in it is served as
/// the whole file.
pub proof fn suffix_covering_file(count: u64, file_length: u64)
    requires
        count >= file_length,
        file_length > 0,
    ensures
        resolved(PartialFileRange::Last(count), file_length) == Some(
            ResolvedWindow { start: 0, end: (file_length - 1) as u64 },
        ),
{
}

} // verus!
