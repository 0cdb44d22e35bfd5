//! Defines custom time units for use with PulseAudio.

use vstd::prelude::*;

verus! {

/// A (whole) number of microseconds.
///
/// Used for specifying latencies.
#[derive(Clone, Copy, Debug, PartialEq, Eq, Structural)]
pub struct Microseconds(pub u64);

} // verus!
