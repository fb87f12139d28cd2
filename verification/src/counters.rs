//! The text on the counter slot.

use vstd::prelude::*;
use vstd::string::*;
use crate::text::{integer_string, integer_text};

verus! {

/// How many points of interest the store holds.
#[derive(Clone, Copy, Debug, PartialEq, Eq, Structural)]
pub struct Counters {
    /// All records.
    pub all: i64,
    /// The records inserted on the current date.
    pub today: i64,
}

/// The counter text: today's count on the first line, the total on the
/// second.
pub open spec fn counter_label(counters: Counters) -> Seq<char> {
    integer_text(counters.today as int) + seq!['\n'] + integer_text(counters.all as int)
}

/// Pairs the results of the two count queries. The counters are known only
/// when both queries gave a row.
pub fn counters_from_rows(all: Option<i64>, today: Option<i64>) -> (counters: Option<Counters>)
    ensures
        counters == (match (all, today) {
            (Some(all), Some(today)) => Some(Counters { all, today }),
            _ => None,
        }),
{
    match (all, today) {
        (Some(all), Some(today)) => Some(Counters { all, today }),
        _ => None,
    }
}

/// Writes the counter text.
pub fn counter_text(counters: &Counters) -> (text: String)
    ensures
        text@ == counter_label(*counters),
{
    proof {
        reveal_strlit("\n");
    }
    let all = integer_string(counters.all);
    let text = integer_string(counters.today).concat("\n").concat(all.as_str());
    assert("\n"@ =~= seq!['\n']);
    text
}

} // verus!
