//! Spans of time, as the standard library holds them.

use std::time::Duration;
use vstd::prelude::*;

verus! {

/// The span that `Duration::from_secs` makes of `secs` whole seconds.
pub uninterp spec fn duration_from_secs(secs: u64) -> Duration;

/// `Duration::from_secs` is taken on trust to be a function of its argument:
/// the same number of seconds always gives the same span. It never panics.
/// Nothing more is claimed of the span it returns.
pub assume_specification[ Duration::from_secs ](secs: u64) -> (d: Duration)
    ensures
        d == duration_from_secs(secs),
;

} // verus!
