use punchr::clock::{
    require_not_older, timestamp, unix_time_from, unix_time_now, ClockError, SinceEpoch,
};

#[test]
fn time_before_the_epoch_is_refused() {
    assert_eq!(timestamp(None), Err(ClockError::BeforeEpoch));
}

#[test]
fn time_that_does_not_fit_is_refused() {
    let last = SinceEpoch { secs: 18_446_744_073, subsec_nanos: 709_551_615 };
    assert_eq!(timestamp(Some(last)), Ok(u64::MAX));
    let next = SinceEpoch { subsec_nanos: last.subsec_nanos + 1, ..last };
    assert_eq!(timestamp(Some(next)), Err(ClockError::OutOfRange));
    let farthest = SinceEpoch { secs: u64::MAX, subsec_nanos: 999_999_999 };
    assert_eq!(timestamp(Some(farthest)), Err(ClockError::OutOfRange));
}

#[test]
fn time_is_told_in_nanoseconds() {
    assert_eq!(timestamp(Some(SinceEpoch { secs: 0, subsec_nanos: 0 })), Ok(0));
    let since = SinceEpoch { secs: 1, subsec_nanos: 234_567_890 };
    assert_eq!(timestamp(Some(since)), Ok(1_234_567_890));
}

#[test]
fn time_span_counts_as_in_std() {
    for (secs, subsec_nanos) in [(0, 1), (3, 0), (1_700_000_000, 5), (u64::MAX, 999_999_999)] {
        let since = SinceEpoch { secs, subsec_nanos };
        assert_eq!(since.as_nanos(), std::time::Duration::new(secs, subsec_nanos).as_nanos());
    }
}

#[test]
fn clock_shows_nanoseconds() {
    let before = std::time::SystemTime::now()
        .duration_since(std::time::UNIX_EPOCH)
        .unwrap()
        .as_nanos();
    let now = unix_time_now().unwrap() as u128;
    let after = std::time::SystemTime::now()
        .duration_since(std::time::UNIX_EPOCH)
        .unwrap()
        .as_nanos();
    assert!(before <= now && now <= after);
}

#[test]
fn clock_that_stands_too_early_is_refused() {
    assert!(unix_time_from(0).is_ok());
    assert_eq!(unix_time_from(u64::MAX), Err(ClockError::WentBackwards));
}

#[test]
fn older_time_stamp_is_refused() {
    assert_eq!(require_not_older(Ok(8), 7), Ok(8));
    assert_eq!(require_not_older(Ok(7), 7), Ok(7));
    assert_eq!(require_not_older(Ok(6), 7), Err(ClockError::WentBackwards));
    let error = Err(ClockError::OutOfRange);
    assert_eq!(require_not_older(error, 7), error);
}

#[test]
fn time_stamp_is_that_of_the_clock() {
    let before = unix_time_now().unwrap();
    let stamp = unix_time_from(before - 1_000).unwrap();
    assert!(before <= stamp && stamp <= unix_time_now().unwrap());
}
