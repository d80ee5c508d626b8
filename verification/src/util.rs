//! Timeouts for the blocking operations.

use core::time::Duration;

use vstd::prelude::*;

verus! {

/// How long a blocking operation may wait.
#[derive(Clone, Copy, Debug, PartialEq, Eq)]
pub enum Timeout {
    /// Give up after the given duration.
    After(Duration),
    /// Wait without limit.
    Never,
}

impl From<Duration> for Timeout {
    fn from(d: Duration) -> (r: Self) {
        Timeout::After(d)
    }
}

impl vstd::std_specs::convert::FromSpecImpl<Duration> for Timeout {
    open spec fn obeys_from_spec() -> bool {
        true
    }

    open spec fn from_spec(v: Duration) -> Self {
        Timeout::After(v)
    }
}

impl From<Option<Duration>> for Timeout {
    fn from(d: Option<Duration>) -> (r: Self) {
        match d {
            Some(d) => Timeout::After(d),
            None => Timeout::Never,
        }
    }
}

impl vstd::std_specs::convert::FromSpecImpl<Option<Duration>> for Timeout {
    open spec fn obeys_from_spec() -> bool {
        true
    }

    open spec fn from_spec(v: Option<Duration>) -> Self {
        match v {
            Some(d) => Timeout::After(d),
            None => Timeout::Never,
        }
    }
}

} // verus!
