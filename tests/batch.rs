use listing_harvester::batch::Batch;

#[test]
fn in_flight_never_exceeds_the_limit() {
    let mut b = Batch::new(5, 2);
    assert_eq!(b.start_next(), Some(0));
    assert_eq!(b.start_next(), Some(1));
    assert_eq!(b.start_next(), None);
    assert_eq!(b.in_flight_count(), 2);
    assert!(b.complete());
    assert_eq!(b.start_next(), Some(2));
    assert_eq!(b.start_next(), None);
    assert!(b.complete());
    assert!(b.complete());
    assert_eq!(b.start_next(), Some(3));
    assert_eq!(b.start_next(), Some(4));
    assert_eq!(b.start_next(), None);
    assert!(!b.is_finished());
    assert!(b.complete());
    assert!(b.complete());
    assert!(b.is_finished());
    assert!(!b.complete());
}

#[test]
fn empty_batch_is_finished() {
    let mut b = Batch::new(0, 3);
    assert_eq!(b.start_next(), None);
    assert!(b.is_finished());
}
