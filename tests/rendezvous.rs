use workshop_sync::{Join, Rendezvous, WakeSignal};

fn joined(ticket: u64, complete: bool) -> Join {
    Join::Joined { ticket, complete }
}

#[test]
fn three_ready_workers_serviced_once_before_fourth_arrival() {
    let mut ready = Rendezvous::new(3);
    let mut services = 0u32;
    assert_eq!(ready.try_join(), joined(0, false));
    assert_eq!(ready.try_join(), joined(0, false));
    assert_eq!(ready.try_join(), joined(0, true));
    assert_eq!(ready.count(), 3);
    // A fourth arrival is not accepted while the batch waits for service.
    assert_eq!(ready.try_join(), Join::Full);
    assert_eq!(ready.count(), 3);
    if ready.start_service() {
        services += 1;
        ready.finish_service();
    }
    // A second check finds nothing more to service.
    if ready.start_service() {
        services += 1;
        ready.finish_service();
    }
    assert_eq!(services, 1);
    assert_eq!(ready.count(), 0);
    assert!(ready.is_released(0));
    assert_eq!(ready.try_join(), joined(1, false));
    assert_eq!(ready.count(), 1);
}

#[test]
fn five_group_workers_form_batch_of_three_then_next_batch() {
    let mut group = Rendezvous::new(3);
    let outcomes: Vec<Join> = (0..5).map(|_| group.try_join()).collect();
    assert_eq!(
        outcomes,
        vec![joined(0, false), joined(0, false), joined(0, true), Join::Full, Join::Full]
    );
    assert_eq!(group.count(), 3);
    for _ in 0..3 {
        assert!(!group.is_released(0));
    }
    assert!(group.start_service());
    // The batch stays closed while it is serviced.
    assert_eq!(group.try_join(), Join::Full);
    assert!(!group.start_service());
    group.finish_service();
    assert!(group.is_released(0));
    assert_eq!(group.count(), 0);
    // The fourth and fifth retry and form the next batch with a new arrival.
    assert_eq!(group.try_join(), joined(1, false));
    assert_eq!(group.try_join(), joined(1, false));
    assert!(!group.is_released(1));
    assert_eq!(group.try_join(), joined(1, true));
    assert_eq!(group.try_join(), Join::Full);
}

#[test]
fn idle_checks_are_no_ops() {
    let mut ready = Rendezvous::new(9);
    let mut group = Rendezvous::new(3);
    ready.try_join();
    group.try_join();
    group.try_join();
    for _ in 0..10 {
        assert!(!ready.start_service());
        assert!(!group.start_service());
    }
    assert_eq!(ready.count(), 1);
    assert_eq!(group.count(), 2);
    assert_eq!(ready.round(), 0);
    assert_eq!(group.round(), 0);
    assert!(!ready.in_service());
    assert!(!group.in_service());
}

#[test]
fn count_never_exceeds_capacity() {
    let mut r = Rendezvous::new(4);
    for i in 0..20u32 {
        r.try_join();
        assert!(r.count() <= r.capacity());
        if i % 7 == 6 && r.start_service() {
            r.finish_service();
        }
        assert!(r.count() <= r.capacity());
    }
}

#[test]
fn new_counter_is_empty() {
    let r = Rendezvous::new(5);
    assert_eq!(r.count(), 0);
    assert_eq!(r.capacity(), 5);
    assert_eq!(r.round(), 0);
    assert!(!r.in_service());
    assert!(!r.is_full());
    assert!(!r.is_released(0));
    assert!(r.is_released(7));
}

#[test]
fn batch_of_one_completes_on_each_arrival() {
    let mut r = Rendezvous::new(1);
    assert_eq!(r.try_join(), joined(0, true));
    assert!(r.is_full());
    assert!(r.start_service());
    assert!(r.in_service());
    r.finish_service();
    assert_eq!(r.try_join(), joined(1, true));
}

#[test]
fn zero_capacity_admits_no_one() {
    let mut r = Rendezvous::new(0);
    assert!(r.is_full());
    assert_eq!(r.try_join(), Join::Full);
    assert_eq!(r.count(), 0);
}

#[test]
fn nine_ready_workers_complete_on_ninth() {
    let mut r = Rendezvous::new(9);
    for _ in 0..8 {
        assert_eq!(r.try_join(), joined(0, false));
    }
    assert!(!r.start_service());
    assert_eq!(r.try_join(), joined(0, true));
    assert!(r.start_service());
    r.finish_service();
    assert_eq!(r.count(), 0);
    assert_eq!(r.round(), 1);
}

#[test]
fn wake_signal_is_consumed() {
    let mut s = WakeSignal::new();
    assert!(!s.is_raised());
    assert!(!s.take());
    s.raise();
    s.raise();
    assert!(s.is_raised());
    assert!(s.take());
    assert!(!s.take());
    assert!(!s.is_raised());
}
