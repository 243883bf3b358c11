//! Small helpers of the surrounding application: interface identities and the
//! one-second blink used to let a progress display pulse.

use vstd::prelude::*;
use vstd::wrapping::u32_specs;

verus! {

/// Hands out identities for interface elements. The application keeps one
/// counter and passes it wherever fresh identifiers are needed.
pub struct IdCounter {
    next_id: u32,
}

impl IdCounter {
    /// The identifier the next call will hand out.
    pub closed spec fn spec_next_id(&self) -> u32 {
        self.next_id
    }

    /// A counter that hands out 0 first.
    pub fn new() -> (counter: IdCounter)
        ensures
            counter.spec_next_id() == 0,
    {
        IdCounter { next_id: 0 }
    }
}

/// Returns a fresh identifier: the counter's current value. The counter steps
/// by one per call, wrapping around at 2^32.
pub fn get_id(counter: &mut IdCounter) -> (id: u32)
    ensures
        id == old(counter).spec_next_id(),
        final(counter).spec_next_id() == u32_specs::wrapping_add(old(counter).spec_next_id(), 1),
{
    let id = counter.next_id;
    counter.next_id = counter.next_id.wrapping_add(1);
    id
}

/// Relies on `std::time::SystemTime::now` and `duration_since`: whole seconds
/// of the system clock since the Unix epoch, or 0 should the clock stand
/// before the epoch. Nothing is promised of the reading.
#[verifier::external_body]
fn unix_time_seconds() -> u64 {
    match std::time::SystemTime::now().duration_since(std::time::UNIX_EPOCH) {
        Ok(duration) => duration.as_secs(),
        Err(_) => 0,
    }
}

/// Whether a clock reading in whole seconds falls on an even second.
pub fn seconds_even(seconds: u64) -> (r: bool)
    ensures
        r == (seconds % 2 == 0),
{
    seconds % 2 == 0
}

/// Returns true for one second, false for the next, then true again, and so
/// on, following the system clock. The clock reading is outside anyone's
/// control, so nothing is promised of the result; whatever the reading, the
/// answer is its parity as [`seconds_even`] computes it.
pub fn is_time_even() -> bool {
    seconds_even(unix_time_seconds())
}

} // verus!
