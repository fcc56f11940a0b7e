use wdk_mutex::errors::DriverMutexError;
use wdk_mutex::fast_mutex::FastMutex;
use wdk_mutex::irql::APC_LEVEL;
use wdk_mutex::irql::DISPATCH_LEVEL;
use wdk_mutex::irql::HIGH_LEVEL;
use wdk_mutex::irql::PASSIVE_LEVEL;
use wdk_mutex::kmutex::KMutex;
use wdk_mutex::pool::KMAlloc;
use wdk_mutex::pool::MEM_TAG_WDK_MUTEX;

#[test]
fn create_then_finalize_frees_exactly_once() {
    let mut pool = KMAlloc::new(3);
    assert_eq!(pool.outstanding_count(), 0);
    let m = KMutex::<u32>::new(&mut pool, PASSIVE_LEVEL, 9u32).unwrap();
    assert_eq!(pool.outstanding_count(), 1);
    assert_eq!(pool.available_count(), 2);
    m.finalize(&mut pool);
    assert_eq!(pool.outstanding_count(), 0);
    assert_eq!(pool.available_count(), 3);
}

#[test]
fn consume_round_trip_returns_value_and_frees() {
    let mut pool = KMAlloc::new(2);
    let m = KMutex::<u64>::new(&mut pool, PASSIVE_LEVEL, 1234u64).unwrap();
    let v = m.to_owned(&mut pool);
    assert_eq!(v, 1234u64);
    assert_eq!(pool.outstanding_count(), 0);
    assert_eq!(pool.available_count(), 2);
}

#[test]
fn consume_boxed_round_trip() {
    let mut pool = KMAlloc::new(2);
    let m = KMutex::<String>::new(&mut pool, PASSIVE_LEVEL, String::from("held")).unwrap();
    let b = m.to_owned_box(&mut pool);
    assert_eq!(*b, String::from("held"));
    assert_eq!(pool.outstanding_count(), 0);
}

#[test]
fn create_above_ceiling_fails_without_allocating() {
    let mut pool = KMAlloc::new(3);
    let r = KMutex::<u32>::new(&mut pool, DISPATCH_LEVEL + 1, 5u32);
    assert_eq!(r.err().unwrap(), DriverMutexError::IrqlTooHigh);
    assert_eq!(pool.outstanding_count(), 0);
    assert_eq!(pool.available_count(), 3);
    let r2 = FastMutex::<u32>::new(&mut pool, HIGH_LEVEL, 5u32);
    assert_eq!(r2.err().unwrap(), DriverMutexError::IrqlTooHigh);
    assert_eq!(pool.available_count(), 3);
}

#[test]
fn create_from_exhausted_pool_fails() {
    let mut pool = KMAlloc::new(0);
    let r = KMutex::<u32>::new(&mut pool, PASSIVE_LEVEL, 5u32);
    assert_eq!(r.err().unwrap(), DriverMutexError::PagedPoolAllocFailed);
    assert_eq!(pool.outstanding_count(), 0);
}

#[test]
fn lock_above_ceiling_fails_without_side_effect() {
    let mut pool = KMAlloc::new(2);
    let mut m = KMutex::<u32>::new(&mut pool, PASSIVE_LEVEL, 5u32).unwrap();
    let r = m.lock(DISPATCH_LEVEL + 1);
    assert_eq!(r.err().unwrap(), DriverMutexError::IrqlTooHigh);
    // the failure had no side effect: locking at a permitted level succeeds
    let g = m.lock(DISPATCH_LEVEL).unwrap();
    assert_eq!(*g.get(), 5);
    g.unlock(&mut m, PASSIVE_LEVEL);
    m.finalize(&mut pool);
}

#[test]
fn fast_backend_has_strictly_lower_lock_ceiling() {
    let mut pool = KMAlloc::new(2);
    let mut fast = FastMutex::<u32>::new(&mut pool, DISPATCH_LEVEL, 7u32).unwrap();
    // DISPATCH_LEVEL is fine for the event-wait backend but above the
    // fast backend's ceiling
    let r = fast.lock(DISPATCH_LEVEL);
    assert_eq!(r.err().unwrap(), DriverMutexError::IrqlTooHigh);
    let g = fast.lock(APC_LEVEL).unwrap();
    assert_eq!(*g.get(), 7);
    g.unlock(&mut fast, APC_LEVEL);
    fast.finalize(&mut pool);
}

#[test]
fn lock_mutate_release_relock_sees_new_value() {
    let mut pool = KMAlloc::new(2);
    let mut m = KMutex::<u32>::new(&mut pool, PASSIVE_LEVEL, 0u32).unwrap();
    let mut g = m.lock(PASSIVE_LEVEL).unwrap();
    assert_eq!(*g.get(), 0);
    *g.get_mut() = 1;
    assert!(g.drop_safe(&mut m, PASSIVE_LEVEL).is_ok());
    let g2 = m.lock(PASSIVE_LEVEL).unwrap();
    assert_eq!(*g2.get(), 1);
    g2.unlock(&mut m, PASSIVE_LEVEL);
    m.finalize(&mut pool);
}

#[test]
fn release_frees_primitive_for_next_locker() {
    let mut pool = KMAlloc::new(2);
    let mut m = KMutex::<u8>::new(&mut pool, PASSIVE_LEVEL, 3u8).unwrap();
    let g = m.lock(APC_LEVEL).unwrap();
    g.unlock(&mut m, APC_LEVEL);
    // the implicit release freed the primitive: a further lock succeeds
    let g2 = m.lock(APC_LEVEL).unwrap();
    assert_eq!(*g2.get(), 3);
    assert!(g2.drop_safe(&mut m, DISPATCH_LEVEL).is_ok());
    m.finalize(&mut pool);
}

#[test]
fn checked_release_refuses_high_level_and_keeps_guard() {
    let mut pool = KMAlloc::new(2);
    let mut m = KMutex::<u32>::new(&mut pool, PASSIVE_LEVEL, 11u32).unwrap();
    let g = m.lock(PASSIVE_LEVEL).unwrap();
    let r = g.drop_safe(&mut m, HIGH_LEVEL);
    let (g, e) = match r {
        Err(pair) => pair,
        Ok(()) => panic!("checked release must refuse a level above the ceiling"),
    };
    assert_eq!(e, DriverMutexError::IrqlTooHigh);
    // the guard is still valid and can release later at a sane level
    assert_eq!(*g.get(), 11);
    assert!(g.drop_safe(&mut m, PASSIVE_LEVEL).is_ok());
    let g2 = m.lock(PASSIVE_LEVEL).unwrap();
    assert_eq!(*g2.get(), 11);
    g2.unlock(&mut m, PASSIVE_LEVEL);
    m.finalize(&mut pool);
}

#[test]
fn fast_backend_shares_the_container_contract() {
    let mut pool = KMAlloc::new(2);
    let mut m = FastMutex::<i64>::new(&mut pool, PASSIVE_LEVEL, -8i64).unwrap();
    let mut g = m.lock(PASSIVE_LEVEL).unwrap();
    *g.get_mut() = -9;
    g.unlock(&mut m, PASSIVE_LEVEL);
    let v = m.to_owned(&mut pool);
    assert_eq!(v, -9);
    assert_eq!(pool.outstanding_count(), 0);
}

#[test]
fn pool_account_and_tag() {
    // "kmtx" read as a big-endian word
    assert_eq!(MEM_TAG_WDK_MUTEX, u32::from_be_bytes(*b"kmtx"));
    let mut pool = KMAlloc::new(1);
    assert!(pool.allocate(MEM_TAG_WDK_MUTEX));
    assert!(!pool.allocate(MEM_TAG_WDK_MUTEX));
    assert_eq!(pool.outstanding_count(), 1);
    pool.free();
    assert_eq!(pool.outstanding_count(), 0);
    assert_eq!(pool.available_count(), 1);
}
