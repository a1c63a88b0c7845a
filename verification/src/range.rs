//! The half-open, timezone-aware window of acceptable capture times for one
//! batch. Containment compares absolute instants, so it does not depend on
//! the stored zone; the zone matters for reinterpreting naive date-times and
//! for display.

use crate::instant::Instant;
use crate::zone::zoned_display_of;
use vstd::prelude::*;

verus! {

/// Relies on `String::push_str` of std: it appends the given string slice
/// onto the end of this `String`.
pub assume_specification[ String::push_str ](s: &mut String, other: &str)
    ensures
        final (s)@ == old(s)@ + other@,
;

/// The window `[begin, end)`, with the IANA name of the zone both bounds were
/// given in. Supplying `begin < end` is the caller's responsibility, stated
/// here as a construction precondition rather than a runtime check.
pub struct DateTimeRange {
    pub begin: Instant,
    pub end: Instant,
    pub tz: String,
}

impl DateTimeRange {
    pub open spec fn wf(self) -> bool {
        self.begin.wf() && self.end.wf() && self.begin.as_nanos() < self.end.as_nanos()
    }

    /// The nanosecond instant `t` falls inside the half-open window.
    pub open spec fn spec_contains(self, t: int) -> bool {
        self.begin.as_nanos() <= t < self.end.as_nanos()
    }

    pub fn new(begin: Instant, end: Instant, tz: String) -> (r: DateTimeRange)
        requires
            begin.wf(),
            end.wf(),
            begin.as_nanos() < end.as_nanos(),
        ensures
            r.wf(),
            r.begin == begin,
            r.end == end,
            r.tz == tz,
    {
        DateTimeRange { begin, end, tz }
    }

    /// True iff `begin <= d < end`, as absolute instants.
    pub fn contains(&self, d: &Instant) -> (r: bool)
        requires
            self.wf(),
            d.wf(),
        ensures
            r == self.spec_contains(d.as_nanos()),
    {
        self.begin.le(d) && d.lt(&self.end)
    }

    /// The zone associated with the bounds, as its IANA name.
    pub fn timezone(&self) -> (r: &String)
        ensures
            r == self.tz,
    {
        &self.tz
    }

    /// Renders as `[<begin> - <end>)`, each bound in the range's own zone.
    pub fn to_display_string(&self) -> (r: String)
        requires
            self.wf(),
        ensures
            r@ == "["@ + zoned_display_of(self.tz@, self.begin.secs as int, self.begin.nanos as int)
                + " - "@ + zoned_display_of(self.tz@, self.end.secs as int, self.end.nanos as int)
                + ")"@,
    {
        let b = crate::zone::format_in_zone(self.tz.as_str(), self.begin.secs, self.begin.nanos);
        let e = crate::zone::format_in_zone(self.tz.as_str(), self.end.secs, self.end.nanos);
        let mut out = String::new();
        out.push_str("[");
        out.push_str(b.as_str());
        out.push_str(" - ");
        out.push_str(e.as_str());
        out.push_str(")");
        out
    }

    /// Containment at the boundaries of the half-open window `[begin, end)`:
    /// the window contains `begin`, does not contain `end`, and does not
    /// contain the instant one nanosecond before `begin`.
    pub proof fn lemma_containment_boundary(self)
        requires
            self.wf(),
        ensures
            self.spec_contains(self.begin.as_nanos()),
            !self.spec_contains(self.end.as_nanos()),
            !self.spec_contains(self.begin.as_nanos() - 1),
    {
    }
}

} // verus!
