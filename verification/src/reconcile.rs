//! Deciding whether a recorded creation time is trustworthy and, if not,
//! deriving a corrected one from filename evidence and the batch's window.
//! The whole decision is a pure function of the filename, the recorded
//! instant and the range; re-running it cannot change the outcome.

use crate::calendar::TimestampCandidate;
use crate::calendar::candidate_utc_secs;
use crate::calendar::utc_epoch_secs;
use crate::extract::parse_date_from_filename;
use crate::extract::spec_extract;
use crate::instant::Instant;
use crate::instant::trunc_minute;
use crate::range::DateTimeRange;
use crate::zone::local_epoch_of;
use vstd::prelude::*;

verus! {

/// The classification of one media record against one range.
///
/// `Malformed` is the surfaced form of a digit group that fails numeric
/// conversion. The scanner in this crate converts digit bytes directly, which
/// cannot fail, so the variant is never produced here; it is kept so callers
/// have one stable vocabulary for every policy of handling such groups.
#[derive(Clone, Debug, PartialEq, Eq)]
pub enum ReconciliationOutcome {
    /// The recorded time needs no change.
    AlreadyCorrect,
    /// The recorded time should be replaced by this instant.
    Suggest(Instant),
    /// No trustworthy correction could be derived.
    Unknown,
    /// A captured digit group failed numeric conversion.
    Malformed(String),
}

/// The instant (in nanoseconds) of a candidate read as UTC.
pub open spec fn utc_nanos_of(c: TimestampCandidate) -> int {
    utc_epoch_secs(
        c.year as int,
        c.month as int,
        c.day as int,
        c.hour as int,
        c.minute as int,
        c.second as int,
    ) * 1_000_000_000
}

/// The instant (in nanoseconds) of a candidate read in the zone named `tz`,
/// when that reading exists.
pub open spec fn local_nanos_of(tz: Seq<char>, c: TimestampCandidate) -> Option<int> {
    match local_epoch_of(
        tz,
        c.year as int,
        c.month as int,
        c.day as int,
        c.hour as int,
        c.minute as int,
        c.second as int,
    ) {
        Some(l) => Some(l as int * 1_000_000_000),
        None => None,
    }
}

/// Two instants fall in the same minute.
pub open spec fn same_minute(a: int, b: int) -> bool {
    trunc_minute(a) == trunc_minute(b)
}

/// An in-range recorded instant is accepted as already correct: either there
/// is no filename evidence, or the evidence agrees with it at one-minute
/// resolution under one of the two interpretations (UTC, or the range's own
/// zone where that reading exists).
pub open spec fn fast_accept(c: Option<TimestampCandidate>, rec: int, tz: Seq<char>) -> bool {
    match c {
        None => true,
        Some(cd) => same_minute(rec, utc_nanos_of(cd)) || (match local_nanos_of(tz, cd) {
            Some(l) => same_minute(rec, l),
            None => false,
        }),
    }
}

/// The whole decision, in evaluation order: accept an in-range recorded
/// instant that no filename evidence contradicts; otherwise suggest the UTC
/// reading of the evidence if it falls in the range, then the local reading;
/// otherwise give up.
pub open spec fn spec_process(f: Seq<u8>, rec: int, range: DateTimeRange) -> ReconciliationOutcome {
    let c = spec_extract(f);
    if range.spec_contains(rec) && fast_accept(c, rec, range.tz@) {
        ReconciliationOutcome::AlreadyCorrect
    } else {
        match c {
            None => ReconciliationOutcome::Unknown,
            Some(cd) => {
                let us = utc_epoch_secs(
                    cd.year as int,
                    cd.month as int,
                    cd.day as int,
                    cd.hour as int,
                    cd.minute as int,
                    cd.second as int,
                );
                if range.spec_contains(us * 1_000_000_000) {
                    ReconciliationOutcome::Suggest(Instant { secs: us as i64, nanos: 0 })
                } else {
                    match local_epoch_of(
                        range.tz@,
                        cd.year as int,
                        cd.month as int,
                        cd.day as int,
                        cd.hour as int,
                        cd.minute as int,
                        cd.second as int,
                    ) {
                        Some(l) => if range.spec_contains(l as int * 1_000_000_000) {
                            ReconciliationOutcome::Suggest(Instant { secs: l, nanos: 0 })
                        } else {
                            ReconciliationOutcome::Unknown
                        },
                        None => ReconciliationOutcome::Unknown,
                    }
                }
            },
        }
    }
}

/// Classify one media record: the filename (as bytes), its recorded creation
/// instant, and the batch's window of acceptable capture times.
pub fn process_media(filename: &[u8], creation_time: &Instant, allowed_range: &DateTimeRange) -> (r:
    ReconciliationOutcome)
    requires
        creation_time.wf(),
        allowed_range.wf(),
    ensures
        r == spec_process(filename@, creation_time.as_nanos(), *allowed_range),
        !(r is Malformed),
{
    let d = parse_date_from_filename(filename);

    if allowed_range.contains(creation_time) {
        match &d {
            None => {
                return ReconciliationOutcome::AlreadyCorrect;
            },
            Some(c) => {
                let ct = creation_time.truncate_to_minute();
                let u_secs = candidate_utc_secs(c);
                let d_utc = Instant::new(u_secs, 0);
                let tu = d_utc.truncate_to_minute();
                proof {
                    Instant::lemma_as_nanos_injective(ct, tu);
                }
                if ct.secs == tu.secs && ct.nanos == tu.nanos {
                    return ReconciliationOutcome::AlreadyCorrect;
                }
                match crate::zone::local_to_epoch(
                    allowed_range.tz.as_str(),
                    c.year,
                    c.month,
                    c.day,
                    c.hour,
                    c.minute,
                    c.second,
                ) {
                    Some(l) => {
                        let d_local = Instant::new(l, 0);
                        let tl = d_local.truncate_to_minute();
                        proof {
                            Instant::lemma_as_nanos_injective(ct, tl);
                        }
                        if ct.secs == tl.secs && ct.nanos == tl.nanos {
                            return ReconciliationOutcome::AlreadyCorrect;
                        }
                    },
                    None => {},
                }
            },
        }
    }
    match &d {
        None => ReconciliationOutcome::Unknown,
        Some(c) => {
            let u_secs = candidate_utc_secs(c);
            let d_utc = Instant::new(u_secs, 0);
            if allowed_range.contains(&d_utc) {
                return ReconciliationOutcome::Suggest(d_utc);
            }
            match crate::zone::local_to_epoch(
                allowed_range.tz.as_str(),
                c.year,
                c.month,
                c.day,
                c.hour,
                c.minute,
                c.second,
            ) {
                Some(l) => {
                    let d_local = Instant::new(l, 0);
                    if allowed_range.contains(&d_local) {
                        ReconciliationOutcome::Suggest(d_local)
                    } else {
                        ReconciliationOutcome::Unknown
                    }
                },
                None => ReconciliationOutcome::Unknown,
            }
        },
    }
}

/// Classification is idempotent: any two outcomes of the decision on the same
/// filename, recorded instant and range are identical.
pub proof fn lemma_idempotent(
    r1: ReconciliationOutcome,
    r2: ReconciliationOutcome,
    f: Seq<u8>,
    rec: int,
    range: DateTimeRange,
)
    requires
        r1 == spec_process(f, rec, range),
        r2 == spec_process(f, rec, range),
    ensures
        r1 == r2,
{
}

/// Minute-truncation tolerance: a recorded instant that is in range and
/// differs from the filename evidence's UTC reading only below one-minute
/// resolution is classified as already correct.
pub proof fn lemma_minute_truncation_tolerance(f: Seq<u8>, rec: int, range: DateTimeRange)
    requires
        range.wf(),
        range.spec_contains(rec),
        spec_extract(f) is Some,
        same_minute(rec, utc_nanos_of(spec_extract(f).unwrap())),
    ensures
        spec_process(f, rec, range) == ReconciliationOutcome::AlreadyCorrect,
{
}

} // verus!
