use listing_harvester::scheduler::{Acquire, PoolError, Scheduler};

fn pool_of(n: u32) -> Scheduler<String> {
    Scheduler::new((0..n).map(|i| format!("client-{}", i)).collect())
}

#[test]
fn acquire_takes_the_first_available_slot() {
    let mut pool = pool_of(3);
    let a = pool.get_client().unwrap();
    let b = pool.get_client().unwrap();
    assert_eq!(a.slot(), 0);
    assert_eq!(b.slot(), 1);
    assert_eq!(a.handle(), "client-0");
    assert_ne!(a.id(), b.id());
}

#[test]
fn acquire_on_a_full_pool_is_busy() {
    let mut pool = pool_of(2);
    let _a = pool.get_client().unwrap();
    let _b = pool.get_client().unwrap();
    assert_eq!(pool.get_client().err(), Some(PoolError::Busy));
}

#[test]
fn an_empty_pool_is_always_busy() {
    let mut pool = pool_of(0);
    assert_eq!(pool.get_client().err(), Some(PoolError::Busy));
}

#[test]
fn acquire_never_hands_out_a_held_slot() {
    let mut pool = pool_of(3);
    let a = pool.get_client().unwrap();
    let b = pool.get_client().unwrap();
    pool.release_client(a).unwrap();
    let c = pool.get_client().unwrap();
    assert_eq!(c.slot(), 0);
    assert_ne!(c.slot(), b.slot());
}

#[test]
fn release_makes_the_slot_available_again() {
    let mut pool = pool_of(1);
    let a = pool.get_client().unwrap();
    let id = a.id();
    assert_eq!(pool.release_client(a), Ok(()));
    let again = pool.get_client().unwrap();
    assert_eq!(again.id(), id);
}

#[test]
fn release_of_a_foreign_session_is_not_found() {
    let mut pool = pool_of(2);
    let _a = pool.get_client().unwrap();
    let mut other = pool_of(4);
    let mut last = None;
    for _ in 0..4 {
        last = other.get_client().ok();
    }
    // identity 3 was never leased by `pool`
    assert_eq!(pool.release_client(last.unwrap()), Err(PoolError::NotFound));
    assert_eq!(pool.get_client().map(|s| s.slot()).ok(), Some(1));
}

#[test]
fn replace_gives_a_new_identity_in_the_same_slot() {
    let mut pool = pool_of(2);
    let _a = pool.get_client().unwrap();
    let b = pool.get_client().unwrap();
    let (old_id, slot) = (b.id(), b.slot());
    let old = pool.replace_client(b, "fresh".to_string()).unwrap();
    assert_eq!(old, "client-1");
    let c = pool.get_client().unwrap();
    assert_eq!(c.slot(), slot);
    assert_ne!(c.id(), old_id);
    assert_eq!(c.id(), 2);
    assert_eq!(c.handle(), "fresh");
}

#[test]
fn leased_plus_available_stays_the_pool_size() {
    let mut pool = pool_of(3);
    let a = pool.get_client().unwrap();
    let b = pool.get_client().unwrap();
    let c = pool.get_client().unwrap();
    assert!(pool.get_client().is_err());
    pool.release_client(a).unwrap();
    pool.replace_client(b, "new".to_string()).unwrap();
    let mut got = vec![];
    while let Ok(s) = pool.get_client() {
        got.push(s);
    }
    // two slots came back, one is still leased: three in all
    assert_eq!(got.len() + 1, 3);
    pool.release_client(c).unwrap();
    assert!(pool.get_client().is_ok());
    assert!(pool.get_client().is_err());
}

#[test]
fn polling_waits_then_gives_up() {
    let mut pool = pool_of(1);
    let a = pool.poll_client(0, 3);
    assert!(matches!(a, Acquire::Granted(_)));
    assert!(matches!(pool.poll_client(0, 3), Acquire::Wait));
    assert!(matches!(pool.poll_client(1, 3), Acquire::Wait));
    assert!(matches!(pool.poll_client(2, 3), Acquire::GiveUp));
}
