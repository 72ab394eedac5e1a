use clockwork_mage::time::Clock;
use clockwork_mage::time::Duration;
use clockwork_mage::time::Timestamp;

#[test]
fn test_clock() {
    let mut clock = Clock::new();
    assert_eq!(clock.now(), Timestamp(0));
    clock.tick();
    assert_eq!(clock.now(), Timestamp(1));
}

#[test]
fn test_add() {
    assert_eq!(Timestamp(2) + Duration(3), Timestamp(5));
}

#[test]
fn test_add_assign() {
    let mut t = Timestamp(5);
    t = t + Duration(4);
    assert_eq!(t, Timestamp(9));
}

#[test]
fn test_timestamp_minus_duration() {
    assert_eq!(Timestamp(8) - Duration(3), Timestamp(5));
}

#[test]
fn test_timestamp_minus_timestamp() {
    assert_eq!(Timestamp(8) - Timestamp(2), Duration(6));
}

#[test]
fn test_duration_minus_duration() {
    assert_eq!(Duration(9) - Duration(6), Duration(3));
}

#[test]
fn round_trip_recovers_both_summands() {
    let t = Timestamp(7);
    let d = Duration(5);
    assert_eq!((t + d) - d, t);
    assert_eq!((t + d) - t, d);

    let neg = Duration(-3);
    assert_eq!((t + neg) - neg, t);
    assert_eq!((t + neg) - t, neg);
}
