//! Turning a key press into a point of interest to store.

use vstd::prelude::*;
use vstd::string::*;
use crate::fix::Fix;

verus! {

/// A point of interest ready to be stored: everything a stored record holds
/// except what the store itself assigns, its identifier and insertion time.
#[derive(Debug, PartialEq, Eq)]
pub struct PoiDraft {
    /// Category slug.
    pub category: String,
    /// Latitude in degrees, as the bit pattern of an IEEE 754 double.
    pub lat: u64,
    /// Longitude in degrees, as the bit pattern of an IEEE 754 double.
    pub lon: u64,
    /// Time of the fix, in seconds since 1970-01-01T00:00:00Z.
    pub epoch_seconds: i64,
}

/// A draft as a mathematical value.
pub struct PoiDraftView {
    pub category: Seq<char>,
    pub lat: u64,
    pub lon: u64,
    pub epoch_seconds: int,
}

impl View for PoiDraft {
    type V = PoiDraftView;

    open spec fn view(&self) -> PoiDraftView {
        PoiDraftView {
            category: self.category@,
            lat: self.lat,
            lon: self.lon,
            epoch_seconds: self.epoch_seconds as int,
        }
    }
}

impl Clone for PoiDraft {
    fn clone(&self) -> (copy: PoiDraft)
        ensures
            copy@ == self@,
    {
        PoiDraft {
            category: self.category.clone(),
            lat: self.lat,
            lon: self.lon,
            epoch_seconds: self.epoch_seconds,
        }
    }
}

/// The draft that tags `fix` with `category`: the fix's coordinates and the
/// second of the fix, unchanged.
pub open spec fn draft_of(category: Seq<char>, fix: Fix) -> PoiDraftView {
    PoiDraftView {
        category,
        lat: fix.lat,
        lon: fix.lon,
        epoch_seconds: fix.time.seconds(),
    }
}

/// Tags the current position with `category`.
///
/// A press while no fix is known records nothing; a press with a fix yields
/// exactly one draft.
pub fn record(category: &str, fix: Option<Fix>) -> (draft: Option<PoiDraft>)
    ensures
        draft is Some <==> fix is Some,
        draft matches Some(d) ==> d@ == draft_of(category@, fix->Some_0),
{
    match fix {
        Some(fix) => Some(
            PoiDraft {
                category: String::from_str(category),
                lat: fix.lat,
                lon: fix.lon,
                epoch_seconds: fix.time.epoch_seconds(),
            },
        ),
        None => None,
    }
}

} // verus!
