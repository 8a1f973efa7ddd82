use vstd::prelude::*;

verus! {

/// Reads the clock through `jsonwebtoken::get_current_timestamp`: the number of
/// whole seconds since the Unix epoch. Nothing is stated of the result, which
/// depends on the time. The outside function panics when the system clock is
/// set before the epoch; no contract can exclude that.
#[verifier::external_body]
pub(crate) fn current_timestamp() -> (now: u64) {
    jsonwebtoken::get_current_timestamp()
}

} // verus!

verus! {

/// Whether `t` is a value that a reading of the clock returned: the seconds
/// since the Unix epoch at some call of the clock.
pub closed spec fn is_clock_reading(t: u64) -> bool {
    call_ensures(current_timestamp, (), t)
}

/// Reads the clock: the seconds since the Unix epoch, as the clock gives them.
/// The result is the clock's reading itself, unchanged.
pub fn read_clock() -> (now: u64)
    ensures
        is_clock_reading(now),
{
    current_timestamp()
}

} // verus!
