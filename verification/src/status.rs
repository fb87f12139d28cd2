//! The text on the status slot.

use vstd::prelude::*;
use vstd::string::*;
use crate::fix::Fix;
use crate::text::{dots_to_newlines, integer_string, integer_text, replace_dots};
use crate::clock::clock_face;

verus! {

/// What follows the speed on the first status line.
pub open spec fn speed_unit() -> Seq<char> {
    seq![' ', 'k', 'm', '/', 'h', '\n']
}

/// The label shown while there is neither a fix nor an address.
pub open spec fn fallback_label() -> Seq<char> {
    seq!['N', 'O', ' ', 'F', 'I', 'X', '\n', 'N', 'O', ' ', 'A', 'D', 'D', 'R']
}

/// The status of a fix: its speed in km/h on the first line, its time of
/// day as `HH:MM:SS` on the second.
pub open spec fn fix_status(fix: Fix) -> Seq<char> {
    integer_text(fix.speed.kmh as int) + speed_unit() + clock_face(fix.time.seconds())
}

/// One address of a network interface, reduced to what the status reads.
#[derive(Debug, PartialEq, Eq)]
pub struct InterfaceAddress {
    /// Whether this is an IPv4 address.
    pub ipv4: bool,
    /// The address in dotted notation, where the interface reported one.
    pub ip: Option<String>,
}

/// The first IPv4 entry of an interface's address list.
pub open spec fn first_ipv4(addresses: Seq<InterfaceAddress>) -> Option<InterfaceAddress>
    decreases addresses.len(),
{
    if addresses.len() == 0 {
        None
    } else if addresses[0].ipv4 {
        Some(addresses[0])
    } else {
        first_ipv4(addresses.drop_first())
    }
}

/// The status while no fix is known: the first IPv4 address of the
/// interface with a line break in place of each dot, or the fallback label
/// when the list has no IPv4 entry or that entry has no address.
pub open spec fn host_status(addresses: Seq<InterfaceAddress>) -> Seq<char> {
    match first_ipv4(addresses) {
        Some(InterfaceAddress { ip: Some(ip), .. }) => dots_to_newlines(ip@),
        _ => fallback_label(),
    }
}

/// The text for the status slot.
pub open spec fn status_of(fix: Option<Fix>, addresses: Seq<InterfaceAddress>) -> Seq<char> {
    match fix {
        Some(fix) => fix_status(fix),
        None => host_status(addresses),
    }
}

/// Writes the status of a fix.
pub fn fix_text(fix: &Fix) -> (text: String)
    ensures
        text@ == fix_status(*fix),
{
    proof {
        reveal_strlit(" km/h\n");
    }
    let clock = fix.time.clock_text();
    let text = integer_string(fix.speed.kmh).concat(" km/h\n").concat(clock.as_str());
    assert(" km/h\n"@ =~= speed_unit());
    text
}

/// Writes the status shown while no fix is known. An interface that could
/// not be looked up is an empty list.
pub fn host_text(addresses: &Vec<InterfaceAddress>) -> (text: String)
    ensures
        text@ == host_status(addresses@),
{
    proof {
        reveal_strlit("NO FIX\nNO ADDR");
    }
    assert("NO FIX\nNO ADDR"@ =~= fallback_label());
    assert(addresses@.skip(0) =~= addresses@);
    let mut i: usize = 0;
    while i < addresses.len()
        invariant
            i <= addresses.len(),
            first_ipv4(addresses@) == first_ipv4(addresses@.skip(i as int)),
            "NO FIX\nNO ADDR"@ == fallback_label(),
        decreases addresses.len() - i,
    {
        if addresses[i].ipv4 {
            assert(addresses@.skip(i as int)[0] == addresses@[i as int]);
            return match &addresses[i].ip {
                Some(ip) => replace_dots(ip.as_str()),
                None => String::from_str("NO FIX\nNO ADDR"),
            };
        }
        assert(addresses@.skip(i as int).drop_first() =~= addresses@.skip(i + 1));
        i = i + 1;
    }
    String::from_str("NO FIX\nNO ADDR")
}

/// Writes the text for the status slot: the fix when there is one, the
/// host's address or the fallback label otherwise.
pub fn status_text(fix: Option<Fix>, addresses: &Vec<InterfaceAddress>) -> (text: String)
    ensures
        text@ == status_of(fix, addresses@),
{
    match fix {
        Some(fix) => fix_text(&fix),
        None => host_text(addresses),
    }
}

} // verus!
