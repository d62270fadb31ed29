//! The fetch-retry state machine that drives ingestion of one resource type.
//! It decides what to request and how long to wait; the caller performs the
//! request, the decode and the store, and reports how each went.

use crate::granularity::Interval;
use crate::records::{decode_page, decoded_page, TimeBucket, WireRecord};
use crate::text::{contains, has_substring, prefix_chars};
use crate::watermark::{advance_mark, Watermark, EPOCH};
use vstd::prelude::*;

verus! {

/// Most intervals asked for in one page.
pub const PAGE_COUNT: u32 = 400;

/// Seconds to wait after the request itself failed.
pub const TRANSPORT_RETRY_SECS: u64 = 5;

/// Seconds to wait after the source asked us to slow down.
pub const RATE_LIMIT_RETRY_SECS: u64 = 5;

/// Seconds to wait after a payload that did not decode.
pub const MALFORMED_RETRY_SECS: u64 = 5;

/// Seconds to wait after a page, stored or not, before the next request.
pub const PAGE_THROTTLE_SECS: u64 = 3;

/// Characters of a malformed payload kept for the diagnostic.
pub const DIAGNOSTIC_CHARS: usize = 500;

/// The four resource types, each ingested by its own engine.
#[derive(Debug, Clone, Copy, PartialEq, Eq, Structural)]
pub enum ResourceKind {
    Depth,
    Swap,
    Earnings,
    RunepoolUnits,
}

/// Parameters of one upstream page request.
#[derive(Debug, Clone, Copy, PartialEq, Eq, Structural)]
pub struct FetchRequest {
    pub interval: Interval,
    pub count: u32,
    pub from: i64,
    pub to: Option<i64>,
}

/// How one request went, as the caller observed it.
#[derive(Debug, Clone, Copy, PartialEq, Eq, Structural)]
pub enum Outcome {
    /// No response: connection failure or timeout.
    TransportError,
    /// The response carried the source's throttling notice.
    RateLimited,
    /// The response did not decode as a page.
    Malformed,
    /// A page decoded and all of it was stored: how many intervals, and the
    /// end of the last one.
    Stored { count: u64, last_end: Option<i64> },
    /// A page decoded but storing it failed.
    StoreFailed,
}

/// Where the engine stands.
#[derive(Debug, Clone, Copy, PartialEq, Eq, Structural)]
pub enum Phase {
    Idle,
    Requesting,
    TransportBackoff,
    RateLimitBackoff,
    MalformedBackoff,
    StoreBackoff,
    PageThrottle,
}

/// How a response body is to be treated before any decoding.
#[derive(Debug, Clone, Copy, PartialEq, Eq, Structural)]
pub enum BodyClass {
    /// The body carries the source's throttling notice.
    Throttled,
    /// The body is to be decoded as a page.
    Candidate,
}

/// The text by which the source says it is throttling us.
pub open spec fn throttle_marker() -> Seq<char> {
    "slow down"@
}

/// Classifies a response body: the throttling notice wins over any data.
pub fn classify_body(body: &str) -> (r: BodyClass)
    ensures
        r == (if has_substring(body@, throttle_marker()) {
            BodyClass::Throttled
        } else {
            BodyClass::Candidate
        }),
{
    if contains(body, "slow down") {
        BodyClass::Throttled
    } else {
        BodyClass::Candidate
    }
}

/// The start of a malformed payload, kept for the log.
pub fn diagnostic(body: &str) -> (r: &str)
    ensures
        r@ == body@.take(
            if body@.len() < DIAGNOSTIC_CHARS {
                body@.len() as int
            } else {
                DIAGNOSTIC_CHARS as int
            },
        ),
{
    prefix_chars(body, DIAGNOSTIC_CHARS)
}

/// The page that a parsed payload holds, or the outcome that ends the attempt:
/// a payload that did not parse (`None`) or whose records do not all decode is
/// malformed.
pub fn page_of_response<W: WireRecord>(parsed: Option<Vec<W>>) -> (r: Result<
    Vec<W::Record>,
    Outcome,
>)
    ensures
        parsed is None ==> r == Err::<Vec<W::Record>, Outcome>(Outcome::Malformed),
        parsed matches Some(ws) ==> match r {
            Ok(v) => decoded_page(ws@, v@),
            Err(o) => o == Outcome::Malformed && exists|i: int|
                0 <= i < ws.len() && !(#[trigger] ws[i].fields_ok() && ws[i].forward()),
        },
{
    match parsed {
        None => Err(Outcome::Malformed),
        Some(ws) => match decode_page(&ws) {
            Ok(v) => Ok(v),
            Err(_) => Err(Outcome::Malformed),
        },
    }
}

/// What a stored page amounts to: its size and the end of its last interval.
pub fn stored_page<T: TimeBucket>(page: &Vec<T>) -> (r: Outcome)
    ensures
        r == (Outcome::Stored {
            count: page.len() as u64,
            last_end: if page.len() == 0 {
                None
            } else {
                Some(page[page.len() - 1].end_spec() as i64)
            },
        }),
{
    if page.len() == 0 {
        Outcome::Stored { count: 0, last_end: None }
    } else {
        Outcome::Stored { count: page.len() as u64, last_end: Some(page[page.len() - 1].end()) }
    }
}

/// The wait that follows an outcome.
pub open spec fn delay_for(o: Outcome) -> u64 {
    match o {
        Outcome::TransportError => TRANSPORT_RETRY_SECS,
        Outcome::RateLimited => RATE_LIMIT_RETRY_SECS,
        Outcome::Malformed => MALFORMED_RETRY_SECS,
        Outcome::Stored { .. } => PAGE_THROTTLE_SECS,
        Outcome::StoreFailed => PAGE_THROTTLE_SECS,
    }
}

/// The phase that follows an outcome.
pub open spec fn phase_after(o: Outcome) -> Phase {
    match o {
        Outcome::TransportError => Phase::TransportBackoff,
        Outcome::RateLimited => Phase::RateLimitBackoff,
        Outcome::Malformed => Phase::MalformedBackoff,
        Outcome::Stored { .. } => Phase::PageThrottle,
        Outcome::StoreFailed => Phase::StoreBackoff,
    }
}

/// The watermark after an outcome: only a stored page with intervals moves it.
pub open spec fn mark_after(mark: int, o: Outcome) -> int {
    match o {
        Outcome::Stored { last_end: Some(t), .. } => advance_mark(mark, t as int),
        _ => mark,
    }
}

/// The running count of stored intervals after an outcome, saturating.
pub open spec fn stored_after(stored: int, o: Outcome) -> int {
    match o {
        Outcome::Stored { count, .. } => if stored + count <= u64::MAX {
            stored + count
        } else {
            u64::MAX as int
        },
        _ => stored,
    }
}

/// The request an engine at `mark` sends.
pub open spec fn request_at(interval: Interval, count: u32, mark: int) -> FetchRequest {
    FetchRequest { interval, count, from: mark as i64, to: None }
}

/// What an engine is, seen from outside.
pub ghost struct EngineView {
    pub kind: ResourceKind,
    pub interval: Interval,
    pub count: u32,
    pub watermark: int,
    pub stored: int,
    pub phase: Phase,
}

/// The ingestion engine of one resource type.
pub struct FetchEngine {
    kind: ResourceKind,
    interval: Interval,
    count: u32,
    watermark: Watermark,
    stored: u64,
    phase: Phase,
}

impl View for FetchEngine {
    type V = EngineView;

    closed spec fn view(&self) -> EngineView {
        EngineView {
            kind: self.kind,
            interval: self.interval,
            count: self.count,
            watermark: self.watermark@,
            stored: self.stored as int,
            phase: self.phase,
        }
    }
}

impl FetchEngine {
    /// An idle engine for hourly pages of `PAGE_COUNT` intervals, starting
    /// at `watermark`.
    pub fn with_watermark(kind: ResourceKind, watermark: Watermark) -> (r: FetchEngine)
        ensures
            r@ == (EngineView {
                kind,
                interval: Interval::Hour,
                count: PAGE_COUNT,
                watermark: watermark@,
                stored: 0,
                phase: Phase::Idle,
            }),
    {
        FetchEngine {
            kind,
            interval: Interval::Hour,
            count: PAGE_COUNT,
            watermark,
            stored: 0,
            phase: Phase::Idle,
        }
    }

    /// An idle engine that starts at the historical epoch.
    pub fn new(kind: ResourceKind) -> (r: FetchEngine)
        ensures
            r@ == (EngineView {
                kind,
                interval: Interval::Hour,
                count: PAGE_COUNT,
                watermark: EPOCH as int,
                stored: 0,
                phase: Phase::Idle,
            }),
    {
        FetchEngine::with_watermark(kind, Watermark::new())
    }

    pub fn kind(&self) -> (r: ResourceKind)
        ensures
            r == self@.kind,
    {
        self.kind
    }

    pub fn watermark(&self) -> (r: i64)
        ensures
            r == self@.watermark,
    {
        self.watermark.get()
    }

    pub fn stored(&self) -> (r: u64)
        ensures
            r == self@.stored,
    {
        self.stored
    }

    pub fn phase(&self) -> (r: Phase)
        ensures
            r == self@.phase,
    {
        self.phase
    }

    /// The request to send next: from the watermark, with no upper bound.
    pub fn request(&self) -> (r: FetchRequest)
        ensures
            r == request_at(self@.interval, self@.count, self@.watermark),
    {
        FetchRequest {
            interval: self.interval,
            count: self.count,
            from: self.watermark.get(),
            to: None,
        }
    }

    /// Enters `Requesting` and returns the request to send.
    pub fn begin(&mut self) -> (r: FetchRequest)
        ensures
            r == request_at(old(self)@.interval, old(self)@.count, old(self)@.watermark),
            final(self)@ == (EngineView { phase: Phase::Requesting, ..old(self)@ }),
    {
        self.phase = Phase::Requesting;
        self.request()
    }

    /// Records how the last request went and returns how many seconds to wait
    /// before the next one. Only a stored page moves the watermark, and only
    /// forward; every other outcome retries the same request.
    pub fn complete(&mut self, outcome: Outcome) -> (r: u64)
        ensures
            r == delay_for(outcome),
            final(self)@ == (EngineView {
                watermark: mark_after(old(self)@.watermark, outcome),
                stored: stored_after(old(self)@.stored, outcome),
                phase: phase_after(outcome),
                ..old(self)@
            }),
    {
        match outcome {
            Outcome::TransportError => {
                self.phase = Phase::TransportBackoff;
                TRANSPORT_RETRY_SECS
            },
            Outcome::RateLimited => {
                self.phase = Phase::RateLimitBackoff;
                RATE_LIMIT_RETRY_SECS
            },
            Outcome::Malformed => {
                self.phase = Phase::MalformedBackoff;
                MALFORMED_RETRY_SECS
            },
            Outcome::Stored { count, last_end } => {
                if let Some(t) = last_end {
                    self.watermark.advance(t);
                }
                self.stored = if self.stored <= u64::MAX - count {
                    self.stored + count
                } else {
                    u64::MAX
                };
                self.phase = Phase::PageThrottle;
                PAGE_THROTTLE_SECS
            },
            Outcome::StoreFailed => {
                self.phase = Phase::StoreBackoff;
                PAGE_THROTTLE_SECS
            },
        }
    }
}


/// Storing the same page again, as after a crash before the watermark moved,
/// leaves the watermark where storing it once put it.
pub proof fn lemma_replayed_page(mark: int, count: u64, last_end: Option<i64>)
    ensures
        mark_after(mark_after(mark, Outcome::Stored { count, last_end }), Outcome::Stored { count, last_end })
            == mark_after(mark, Outcome::Stored { count, last_end }),
        mark <= mark_after(mark, Outcome::Stored { count, last_end }),
{
}

/// A transport failure, a throttling notice, a malformed payload or a failed
/// store leaves the watermark alone, so the next request is the same one.
pub proof fn lemma_retry_keeps_request(interval: Interval, count: u32, mark: int, o: Outcome)
    requires
        !(o is Stored),
    ensures
        request_at(interval, count, mark_after(mark, o)) == request_at(interval, count, mark),
{
}

} // verus!
