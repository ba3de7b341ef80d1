//! Byte-range validation for the range-aware file streamer.
//!
//! A request names a `start` byte and an optional `end` byte; an absent
//! `end` means "to the last byte of the file". The wire format overloads
//! `0` as the absent value, so [`RangeRequest::from_raw`] decodes that
//! sentinel once at the boundary
//! and everything after it works with the explicit option.
//! [`RangeRequest::resolve`] validates the request against the file's total
//! size and either rejects it as not satisfiable or produces the exact
//! inclusive range to serve.

use vstd::prelude::*;

verus! {

/// Status of a successful whole-file response.
pub const STATUS_OK: u16 = 200;

/// Status of a successful partial-content (ranged) response.
pub const STATUS_PARTIAL_CONTENT: u16 = 206;

/// Status reported when the requested file does not exist or is unreadable.
pub const STATUS_NOT_FOUND: u16 = 404;

/// Status reported when the requested byte range cannot be served.
pub const STATUS_RANGE_NOT_SATISFIABLE: u16 = 416;

/// A byte range as requested: `end` absent means "to the end of the file".
#[derive(Clone, Copy, PartialEq, Eq, Debug)]
pub struct RangeRequest {
    pub start: u64,
    pub end: Option<u64>,
}

/// A validated inclusive byte range of a file: serve bytes
/// `start ..= end` of a file that is `total_size` bytes long.
#[derive(Clone, Copy, PartialEq, Eq, Debug)]
pub struct RangePlan {
    pub start: u64,
    pub end: u64,
    pub total_size: u64,
}

impl RangePlan {
    /// A plan only ever describes a non-empty range that lies inside the file.
    pub open spec fn wf(self) -> bool {
        self.start <= self.end < self.total_size
    }

    /// How many bytes the ranged read must hand out: the size of the
    /// inclusive range, which bounds the read taken after seeking to
    /// `start`.
    pub fn read_len(&self) -> (n: u64)
        requires
            self.wf(),
        ensures
            n == self.end - self.start + 1,
    {
        self.end - self.start + 1
    }
}

/// Outcome of validating a byte-range request.
#[derive(Clone, Copy, PartialEq, Eq, Debug)]
pub enum RangeOutcome {
    /// The range cannot be served from this file: respond with status 416.
    NotSatisfiable,
    /// The range is valid: respond with status 206 and this plan.
    Partial(RangePlan),
}

impl RangeOutcome {
    /// The HTTP status this outcome is reported with.
    pub fn status(&self) -> (s: u16)
        ensures
            self is Partial ==> s == STATUS_PARTIAL_CONTENT,
            self is NotSatisfiable ==> s == STATUS_RANGE_NOT_SATISFIABLE,
    {
        match self {
            RangeOutcome::Partial(_) => STATUS_PARTIAL_CONTENT,
            RangeOutcome::NotSatisfiable => STATUS_RANGE_NOT_SATISFIABLE,
        }
    }
}

/// The requested end position with an absent end resolved to the last byte
/// of the file. Meaningful only for `total_size > 0`.
pub open spec fn resolved_end(end: Option<u64>, total_size: u64) -> int {
    match end {
        None => total_size - 1,
        Some(e) => e as int,
    }
}

/// Whether the request can be served from a file of `total_size` bytes.
pub open spec fn range_satisfiable(req: RangeRequest, total_size: u64) -> bool {
    &&& total_size > 0
    &&& req.start <= resolved_end(req.end, total_size)
    &&& resolved_end(req.end, total_size) < total_size
}

/// The plan a satisfiable request resolves to.
pub open spec fn resolved_plan(req: RangeRequest, total_size: u64) -> RangePlan {
    RangePlan {
        start: req.start,
        end: resolved_end(req.end, total_size) as u64,
        total_size,
    }
}

impl RangeRequest {
    /// Decode the wire format, where `end == 0` is the sentinel for "to the
    /// end of the file" (the legitimate first byte cannot be named as an
    /// end; a one-byte range at the start must ask for the whole file
    /// instead — a quirk of the format, kept at this boundary only).
    pub fn from_raw(start: u64, end: u64) -> (r: RangeRequest)
        ensures
            r.start == start,
            end == 0 ==> r.end is None,
            end != 0 ==> r.end == Some(end),
    {
        RangeRequest { start, end: if end == 0 { None } else { Some(end) } }
    }

    /// Validate this request against the file's size.
    ///
    /// An empty file satisfies no range at all. Otherwise an absent end is
    /// resolved to the last byte, and the request is rejected exactly when
    /// it starts past the end of the file, is inverted, or reaches past the
    /// last byte.
    pub fn resolve(&self, total_size: u64) -> (r: RangeOutcome)
        ensures
            range_satisfiable(*self, total_size) ==> r == RangeOutcome::Partial(
                resolved_plan(*self, total_size),
            ),
            !range_satisfiable(*self, total_size) ==> r == RangeOutcome::NotSatisfiable,
            r matches RangeOutcome::Partial(p) ==> p.wf(),
    {
        if total_size == 0 {
            return RangeOutcome::NotSatisfiable;
        }
        let end: u64 = match self.end {
            None => total_size - 1,
            Some(e) => e,
        };
        if self.start > total_size {
            return RangeOutcome::NotSatisfiable;
        }
        if self.start > end {
            return RangeOutcome::NotSatisfiable;
        }
        if end >= total_size {
            return RangeOutcome::NotSatisfiable;
        }
        RangeOutcome::Partial(RangePlan { start: self.start, end, total_size })
    }
}

/// Validate a raw byte-range request — `(start, end)` with the `0` sentinel
/// — against the file's size, in one step.
pub fn open_range(start: u64, end: u64, total_size: u64) -> (r: RangeOutcome)
    ensures
        ({
            let req = RangeRequest { start, end: if end == 0 { None } else { Some(end) } };
            &&& range_satisfiable(req, total_size) ==> r == RangeOutcome::Partial(
                resolved_plan(req, total_size),
            )
            &&& !range_satisfiable(req, total_size) ==> r == RangeOutcome::NotSatisfiable
        }),
        r matches RangeOutcome::Partial(p) ==> p.wf(),
{
    let req = RangeRequest::from_raw(start, end);
    req.resolve(total_size)
}

} // verus!
