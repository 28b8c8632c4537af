use ylong_driver::sock_opt::{from_linger, into_linger, Linger};

/// UT for `into_linger`
///
/// # Brief
/// 1. Call `into_linger` with parameter None
/// 2. Check if the returned linger is correct
#[test]
fn ut_into_linger_none() {
    let linger = into_linger(None);
    assert_eq!(linger.l_linger, 0);
    assert_eq!(linger.l_linger, 0);
}

/// Encoding a duration and decoding it again round-trips, and a pair
/// with the switch off decodes to no duration.
#[test]
fn linger_round_trip() {
    let l = into_linger(Some(30));
    assert_eq!(l.l_onoff, 1);
    assert_eq!(l.l_linger, 30);
    assert_eq!(from_linger(l), Some(30));
    assert_eq!(from_linger(Linger { l_onoff: 0, l_linger: 7 }), None);
}
