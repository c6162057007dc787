use vstd::prelude::*;
use crate::select::{first_true, find_first_true};

verus! {

/// How many ports, from the first one asked for, are tried.
pub const PORT_SCAN_RANGE: u16 = 100;

/// The port chosen from `start`, where `free[i]` tells whether `start + i`
/// could be bound: the first free one within the range, else `start`.
pub open spec fn port_choice(start: u16, free: Seq<bool>) -> u16 {
    match first_true(free) {
        Some(i) => if i < PORT_SCAN_RANGE { (start + i) as u16 } else { start },
        None => start,
    }
}

/// Picks the display port from the results of trying to bind
/// `start, start + 1, ...`; when none in range was free, `start` comes back
/// unchanged and is not promised to be free.
pub fn find_free_port(start: u16, free: &Vec<bool>) -> (r: u16)
    requires
        start + PORT_SCAN_RANGE <= u16::MAX,
    ensures
        r == port_choice(start, free@),
        start <= r < start + PORT_SCAN_RANGE,
{
    match find_first_true(free) {
        Some(i) => {
            if i < PORT_SCAN_RANGE as usize {
                start + i as u16
            } else {
                start
            }
        },
        None => start,
    }
}

} // verus!
