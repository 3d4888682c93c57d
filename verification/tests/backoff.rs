use packet_sources::backoff::{Backoff, Notice, Verdict};

#[test]
fn delays_double_up_to_half_a_minute() {
    let mut b = Backoff::new();
    assert_eq!(b, Backoff { delay_secs: 1, attempts: 0 });
    for expected in [1, 2, 4, 8, 16, 30, 30, 30] {
        assert_eq!(
            b.record_failure(None, false),
            Verdict::Wait { secs: expected, notice: None }
        );
    }
    assert_eq!(b.attempts, 0);
}

#[test]
fn failures_are_counted_up_to_the_limit() {
    let mut b = Backoff::new();
    assert_eq!(
        b.record_failure(Some(2), true),
        Verdict::Wait {
            secs: 1,
            notice: Some(Notice { attempt: 2, waiting_secs: 1 })
        }
    );
    assert_eq!(
        b.record_failure(Some(2), true),
        Verdict::Wait {
            secs: 2,
            notice: Some(Notice { attempt: 3, waiting_secs: 2 })
        }
    );
    assert_eq!(b.record_failure(Some(2), true), Verdict::GiveUp { max: 2 });
    assert_eq!(b, Backoff { delay_secs: 4, attempts: 3 });
}

#[test]
fn no_failure_is_allowed_with_a_limit_of_zero() {
    let mut b = Backoff::new();
    assert_eq!(b.record_failure(Some(0), false), Verdict::GiveUp { max: 0 });
    assert_eq!(b, Backoff { delay_secs: 1, attempts: 1 });
}

#[test]
fn counter_room_at_its_end() {
    let at = |attempts: u32| Backoff { delay_secs: 30, attempts };
    assert!(at(u32::MAX - 2).has_room(Some(u32::MAX), true));
    assert!(!at(u32::MAX - 1).has_room(Some(u32::MAX), true));
    assert!(at(u32::MAX - 1).has_room(Some(u32::MAX), false));
    assert!(at(u32::MAX - 1).has_room(Some(u32::MAX - 1), true));
    assert!(!at(u32::MAX).has_room(Some(u32::MAX), false));
    assert!(at(u32::MAX).has_room(None, false));
    assert!(!at(u32::MAX).has_room(None, true));
}

#[test]
fn notice_wording() {
    assert_eq!(
        Notice { attempt: 12, waiting_secs: 30 }.message(),
        "Attempting to reconnect (attempt 12, waiting 30s)..."
    );
}
