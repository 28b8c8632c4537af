//! Socket linger option conversions.
//!
//! The kernel's linger option is a pair of integers: a switch and a
//! timeout in seconds. The runtime converts between that pair and an
//! optional duration (here a plain count of whole seconds, which is all
//! the conversion reads of a duration).

use vstd::prelude::*;

verus! {

/// The kernel's linger pair.
#[derive(Clone, Copy, Debug, PartialEq, Eq, Structural)]
pub struct Linger {
    /// Non-zero when lingering is on.
    pub l_onoff: i32,
    /// The linger timeout in seconds.
    pub l_linger: i32,
}

/// The linger pair an optional duration encodes to.
pub open spec fn spec_into_linger(duration: Option<u64>) -> Linger {
    match duration {
        Option::None => Linger { l_onoff: 0, l_linger: 0 },
        Option::Some(secs) => Linger { l_onoff: 1, l_linger: secs as i32 },
    }
}

/// The optional duration a linger pair decodes to.
pub open spec fn spec_from_linger(linger: Linger) -> Option<u64> {
    if linger.l_onoff == 0 {
        Option::None
    } else {
        Option::Some(linger.l_linger as u64)
    }
}

/// Encode an optional duration of whole seconds as the kernel's linger
/// pair; seconds are truncated into the kernel's integer width.
pub fn into_linger(duration: Option<u64>) -> (r: Linger)
    ensures
        r == spec_into_linger(duration),
{
    match duration {
        None => Linger { l_onoff: 0, l_linger: 0 },
        Some(dur) => Linger { l_onoff: 1, l_linger: #[verifier::truncate] (dur as i32) },
    }
}

/// Decode the kernel's linger pair into an optional duration of whole
/// seconds.
pub fn from_linger(linger: Linger) -> (r: Option<u64>)
    ensures
        r == spec_from_linger(linger),
{
    if linger.l_onoff == 0 {
        None
    } else {
        Some(#[verifier::truncate] (linger.l_linger as u64))
    }
}

/// Decoding inverts encoding for every duration the pair can hold: up to
/// the kernel's integer width in seconds.
pub proof fn lemma_linger_round_trip(duration: Option<u64>)
    requires
        duration matches Some(secs) ==> secs <= i32::MAX,
    ensures
        spec_from_linger(spec_into_linger(duration)) == duration,
{
}

} // verus!
