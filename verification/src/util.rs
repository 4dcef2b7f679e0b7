//! Small time conversions.

use vstd::prelude::*;

use crate::settings::NANOS_PER_SEC;

verus! {

/// Converts a duration given as whole seconds plus a sub-second
/// nanosecond remainder into a single nanosecond count.  The one
/// precondition is the machine limit itself: the total must fit in 64
/// bits.
pub fn duration_to_nanos(secs: u64, subsec_nanos: u32) -> (r: u64)
    requires
        secs * NANOS_PER_SEC + subsec_nanos <= u64::MAX,
    ensures
        r == secs * NANOS_PER_SEC + subsec_nanos,
{
    secs * NANOS_PER_SEC + subsec_nanos as u64
}

} // verus!
