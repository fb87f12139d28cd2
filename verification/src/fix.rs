//! Position fixes and the tracker that keeps the latest one.

use vstd::prelude::*;
use crate::clock::UtcInstant;

verus! {

/// Ground speed as the receiver reported it and as the panel shows it.
#[derive(Clone, Copy, Debug, PartialEq, Eq, Structural)]
pub struct Speed {
    /// Metres per second, as the bit pattern of an IEEE 754 double.
    pub mps: u64,
    /// Kilometres per hour, rounded to a whole number by whoever read the
    /// receiver.
    pub kmh: i64,
}

/// One normalized position, velocity and time reading.
///
/// Latitude and longitude are degrees, carried as the bit patterns of
/// IEEE 754 doubles: the controller stores and forwards them and never
/// computes with them.
#[derive(Clone, Copy, Debug, PartialEq, Eq, Structural)]
pub struct Fix {
    pub lat: u64,
    pub lon: u64,
    pub time: UtcInstant,
    pub speed: Speed,
}

/// What the location daemon sent, reduced to what the controller reads.
#[derive(Clone, Copy, Debug, PartialEq, Eq, Structural)]
#[allow(inconsistent_fields)]
pub enum Report {
    /// A position report with a three-dimensional fix.
    Fix3D { lat: u64, lon: u64, time: UtcInstant, speed: Speed },
    /// A position report with a two-dimensional fix.
    Fix2D { lat: u64, lon: u64, time: UtcInstant, speed: Speed },
    /// A position report that has coordinates but not every other field.
    LatLonOnly { lat: u64, lon: u64, time: UtcInstant, speed: Option<Speed> },
    /// Anything else: a position report without coordinates, or a message
    /// that is not a position report.
    Other,
}

impl Report {
    /// The fix that a report carries, if it carries a usable one: full fixes
    /// always do, a coordinates-only report only together with a speed.
    pub open spec fn fix(self) -> Option<Fix> {
        match self {
            Report::Fix3D { lat, lon, time, speed } => Some(Fix { lat, lon, time, speed }),
            Report::Fix2D { lat, lon, time, speed } => Some(Fix { lat, lon, time, speed }),
            Report::LatLonOnly { lat, lon, time, speed: Some(speed) } => Some(
                Fix { lat, lon, time, speed },
            ),
            Report::LatLonOnly { lat, lon, time, speed: None } => None,
            Report::Other => None,
        }
    }

    /// Maps a report to the fix it carries.
    pub fn normalize(&self) -> (fix: Option<Fix>)
        ensures
            fix == self.fix(),
    {
        match *self {
            Report::Fix3D { lat, lon, time, speed } => Some(Fix { lat, lon, time, speed }),
            Report::Fix2D { lat, lon, time, speed } => Some(Fix { lat, lon, time, speed }),
            Report::LatLonOnly { lat, lon, time, speed } => match speed {
                Some(speed) => Some(Fix { lat, lon, time, speed }),
                None => None,
            },
            Report::Other => None,
        }
    }
}

/// The held fix after one more report: the report's own fix if it has
/// one, the fix held before otherwise.
pub open spec fn after_report(held: Option<Fix>, report: Report) -> Option<Fix> {
    match report.fix() {
        Some(fix) => Some(fix),
        None => held,
    }
}

/// The held fix after a run of reports, taken in order.
pub open spec fn after_reports(held: Option<Fix>, reports: Seq<Report>) -> Option<Fix>
    decreases reports.len(),
{
    if reports.len() == 0 {
        held
    } else {
        after_report(after_reports(held, reports.drop_last()), reports.last())
    }
}

/// Holds the last known fix.
#[derive(Clone, Copy, Debug, PartialEq, Eq, Structural)]
pub struct FixTracker {
    last: Option<Fix>,
}

impl FixTracker {
    /// The fix that `current` returns.
    pub closed spec fn held(self) -> Option<Fix> {
        self.last
    }

    /// A tracker that has seen no fix yet.
    pub fn new() -> (tracker: FixTracker)
        ensures
            tracker.held() is None,
    {
        FixTracker { last: None }
    }

    /// Takes in one daemon report.
    pub fn ingest(&mut self, report: &Report)
        ensures
            final(self).held() == after_report(old(self).held(), *report),
    {
        match report.normalize() {
            Some(fix) => {
                self.last = Some(fix);
            },
            None => {},
        }
    }

    /// Takes in a run of daemon reports, oldest first.
    pub fn ingest_all(&mut self, reports: &Vec<Report>)
        ensures
            final(self).held() == after_reports(old(self).held(), reports@),
    {
        let mut i: usize = 0;
        while i < reports.len()
            invariant
                i <= reports.len(),
                self.held() == after_reports(old(self).held(), reports@.take(i as int)),
            decreases reports.len() - i,
        {
            self.ingest(&reports[i]);
            assert(reports@.take(i + 1).drop_last() =~= reports@.take(i as int));
            i = i + 1;
        }
        assert(reports@.take(i as int) =~= reports@);
    }

    /// The last known fix, if any report has carried one.
    pub fn current(&self) -> (fix: Option<Fix>)
        ensures
            fix == self.held(),
    {
        self.last
    }
}

/// Reports that carry no usable fix leave the held fix as it was.
pub proof fn lemma_unusable_reports_change_nothing(held: Option<Fix>, reports: Seq<Report>)
    requires
        forall|i: int| 0 <= i < reports.len() ==> (#[trigger] reports[i]).fix() is None,
    ensures
        after_reports(held, reports) == held,
    decreases reports.len(),
{
    if reports.len() > 0 {
        lemma_unusable_reports_change_nothing(held, reports.drop_last());
    }
}

/// After any run of reports the held fix is that of the last report that
/// carried a usable one, whatever was held before.
pub proof fn lemma_last_usable_report_wins(held: Option<Fix>, reports: Seq<Report>, i: int)
    requires
        0 <= i < reports.len(),
        reports[i].fix() is Some,
        forall|j: int| i < j < reports.len() ==> (#[trigger] reports[j]).fix() is None,
    ensures
        after_reports(held, reports) == reports[i].fix(),
    decreases reports.len(),
{
    if i < reports.len() - 1 {
        lemma_last_usable_report_wins(held, reports.drop_last(), i);
    }
}

} // verus!
