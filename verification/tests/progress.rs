use fragshade::progress::{listen, ProgressTracker};

#[test]
fn tracker_counts_up_to_its_expectation() {
    let mut t = ProgressTracker::new(3);
    assert!(!t.complete());
    t.record();
    t.record();
    assert!(!t.complete());
    t.record();
    assert!(t.complete());
    assert_eq!(t.done, 3);
    assert_eq!(t.expected, 3);
}

#[test]
fn milestones_fire_exactly_on_tenths() {
    // expected = 4: done / expected hits an exact tenth at 2/4 (50%) and 4/4.
    let mut t = ProgressTracker::new(4);
    assert_eq!(t.record(), None);
    assert_eq!(t.record(), Some(50));
    assert_eq!(t.record(), None);
    assert_eq!(t.record(), Some(100));
}

#[test]
fn every_signal_is_a_milestone_when_expectation_divides_ten() {
    let mut t = ProgressTracker::new(5);
    assert_eq!(t.record(), Some(20));
    assert_eq!(t.record(), Some(40));
    assert_eq!(t.record(), Some(60));
    assert_eq!(t.record(), Some(80));
    assert_eq!(t.record(), Some(100));
    assert!(t.complete());
}

#[test]
fn listener_consumes_exactly_the_expected_signals() {
    let (tx, rx) = std::sync::mpsc::channel::<()>();
    for _ in 0..5 {
        tx.send(()).unwrap();
    }
    let (t, milestones) = listen(&rx, 5);
    assert!(t.complete());
    assert_eq!(t.done, 5);
    assert_eq!(milestones, vec![20, 40, 60, 80, 100]);
}

#[test]
fn listener_stops_short_when_no_signal_is_pending() {
    let (tx, rx) = std::sync::mpsc::channel::<()>();
    tx.send(()).unwrap();
    tx.send(()).unwrap();
    let (t, milestones) = listen(&rx, 4);
    assert!(!t.complete());
    assert_eq!(t.done, 2);
    assert_eq!(milestones, vec![50]);
}

#[test]
fn listener_leaves_surplus_signals_unconsumed() {
    let (tx, rx) = std::sync::mpsc::channel::<()>();
    for _ in 0..6 {
        tx.send(()).unwrap();
    }
    let (t, _) = listen(&rx, 4);
    assert!(t.complete());
    assert_eq!(t.done, 4);
    assert!(rx.try_recv().is_ok());
    assert!(rx.try_recv().is_ok());
    assert!(rx.try_recv().is_err());
}
