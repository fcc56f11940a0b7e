use wdk_mutex::erased::Erasable;
use wdk_mutex::erased::Erased;
use wdk_mutex::erased::TypeTag;
use wdk_mutex::errors::DriverMutexError;
use wdk_mutex::errors::GrtError;
use wdk_mutex::grt::Grt;
use wdk_mutex::irql::HIGH_LEVEL;
use wdk_mutex::irql::PASSIVE_LEVEL;
use wdk_mutex::pool::KMAlloc;

fn read_u32(e: &Erased) -> u32 {
    match e {
        Erased::U32(v) => *v,
        _ => panic!("entry does not hold a u32"),
    }
}

#[test]
fn init_twice_reports_already_exists() {
    let mut grt = Grt::new();
    assert!(grt.init().is_ok());
    assert_eq!(grt.init().err().unwrap(), GrtError::GrtAlreadyExists);
}

#[test]
fn destroy_without_init_reports_null() {
    let mut pool = KMAlloc::new(1);
    let mut grt = Grt::new();
    assert_eq!(grt.destroy(&mut pool).err().unwrap(), GrtError::GrtIsNull);
}

#[test]
fn register_without_init_reports_null() {
    let mut pool = KMAlloc::new(1);
    let mut grt = Grt::new();
    let r = grt.register_mutex(&mut pool, PASSIVE_LEVEL, "k", 1u32);
    assert_eq!(r.err().unwrap(), GrtError::GrtIsNull);
    let r2 = grt.register_mutex_checked(&mut pool, PASSIVE_LEVEL, "k", 1u32);
    assert_eq!(r2.err().unwrap(), GrtError::GrtIsNull);
    assert_eq!(pool.outstanding_count(), 0);
}

#[test]
fn get_from_empty_registry_reports_empty() {
    let mut grt = Grt::new();
    assert!(grt.init().is_ok());
    let r = grt.get_kmutex::<u32>("k");
    assert_eq!(r.err().unwrap(), GrtError::GrtIsEmpty);
}

#[test]
fn checked_registration_keeps_first_value() {
    let mut pool = KMAlloc::new(4);
    let mut grt = Grt::new();
    assert!(grt.init().is_ok());
    assert!(grt.register_mutex_checked(&mut pool, PASSIVE_LEVEL, "k", 1u32).is_ok());
    let r = grt.register_mutex_checked(&mut pool, PASSIVE_LEVEL, "k", 2u32);
    assert_eq!(r.err().unwrap(), GrtError::KeyExists);
    // the stored value remains the first one, and its allocation was not
    // duplicated
    assert_eq!(pool.outstanding_count(), 1);
    let m = grt.get_kmutex::<u32>("k").unwrap();
    let g = m.lock(PASSIVE_LEVEL).unwrap();
    assert_eq!(read_u32(g.get()), 1);
    g.unlock(m, PASSIVE_LEVEL);
}

#[test]
fn unchecked_registration_replaces_and_frees_prior_entry() {
    let mut pool = KMAlloc::new(4);
    let mut grt = Grt::new();
    assert!(grt.init().is_ok());
    assert!(grt.register_mutex(&mut pool, PASSIVE_LEVEL, "k", 1u32).is_ok());
    assert!(grt.register_mutex(&mut pool, PASSIVE_LEVEL, "k", 2u32).is_ok());
    // last write wins, and the replaced entry's allocation went back to
    // the pool rather than leaking
    assert_eq!(pool.outstanding_count(), 1);
    let m = grt.get_kmutex::<u32>("k").unwrap();
    let g = m.lock(PASSIVE_LEVEL).unwrap();
    assert_eq!(read_u32(g.get()), 2);
    g.unlock(m, PASSIVE_LEVEL);
}

#[test]
fn get_missing_key_reports_not_found() {
    let mut pool = KMAlloc::new(4);
    let mut grt = Grt::new();
    assert!(grt.init().is_ok());
    assert!(grt.register_mutex(&mut pool, PASSIVE_LEVEL, "k", 1u32).is_ok());
    let r = grt.get_kmutex::<u32>("missing");
    assert_eq!(r.err().unwrap(), GrtError::KeyNotFound);
}

#[test]
fn get_with_wrong_type_reports_downcast_error() {
    let mut pool = KMAlloc::new(4);
    let mut grt = Grt::new();
    assert!(grt.init().is_ok());
    assert!(grt.register_mutex(&mut pool, PASSIVE_LEVEL, "k", 1u32).is_ok());
    let r = grt.get_kmutex::<u64>("k");
    assert_eq!(r.err().unwrap(), GrtError::DowncastError);
    // the right type still succeeds afterwards
    assert!(grt.get_kmutex::<u32>("k").is_ok());
}

#[test]
fn registration_propagates_container_errors() {
    let mut pool = KMAlloc::new(4);
    let mut grt = Grt::new();
    assert!(grt.init().is_ok());
    let r = grt.register_mutex(&mut pool, HIGH_LEVEL, "k", 1u32);
    assert_eq!(
        r.err().unwrap(),
        GrtError::DriverMutexError(DriverMutexError::IrqlTooHigh)
    );
    let mut empty_pool = KMAlloc::new(0);
    let r2 = grt.register_mutex(&mut empty_pool, PASSIVE_LEVEL, "k", 1u32);
    assert_eq!(
        r2.err().unwrap(),
        GrtError::DriverMutexError(DriverMutexError::PagedPoolAllocFailed)
    );
    assert_eq!(pool.outstanding_count(), 0);
}

#[test]
fn lifecycle_register_mutate_destroy() {
    let mut pool = KMAlloc::new(4);
    let mut grt = Grt::new();
    assert!(grt.init().is_ok());
    assert!(grt.register_mutex(&mut pool, PASSIVE_LEVEL, "ctr", 0u32).is_ok());
    {
        let m = grt.get_kmutex::<u32>("ctr").unwrap();
        let mut g = m.lock(PASSIVE_LEVEL).unwrap();
        assert_eq!(read_u32(g.get()), 0);
        *g.get_mut() = 5u32.erase();
        g.unlock(m, PASSIVE_LEVEL);
    }
    {
        let m = grt.get_kmutex::<u32>("ctr").unwrap();
        let g = m.lock(PASSIVE_LEVEL).unwrap();
        assert_eq!(read_u32(g.get()), 5);
        g.unlock(m, PASSIVE_LEVEL);
    }
    assert!(grt.destroy(&mut pool).is_ok());
    // every allocation the tracker held went back to the pool
    assert_eq!(pool.outstanding_count(), 0);
    assert_eq!(pool.available_count(), 4);
    let r = grt.get_kmutex::<u32>("ctr");
    assert_eq!(r.err().unwrap(), GrtError::GrtIsNull);
    assert_eq!(grt.destroy(&mut pool).err().unwrap(), GrtError::GrtIsNull);
}

#[test]
fn destroy_drains_every_entry() {
    let mut pool = KMAlloc::new(8);
    let mut grt = Grt::new();
    assert!(grt.init().is_ok());
    assert!(grt.register_mutex(&mut pool, PASSIVE_LEVEL, "a", 1u32).is_ok());
    assert!(grt.register_mutex(&mut pool, PASSIVE_LEVEL, "b", 2u64).is_ok());
    assert!(grt.register_mutex(&mut pool, PASSIVE_LEVEL, "c", true).is_ok());
    assert_eq!(pool.outstanding_count(), 3);
    assert!(grt.destroy(&mut pool).is_ok());
    assert_eq!(pool.outstanding_count(), 0);
    assert_eq!(pool.available_count(), 8);
}

#[test]
fn erasure_round_trips_and_tags() {
    assert_eq!(u8::restore(3u8.erase()), Some(3u8));
    assert_eq!(u16::restore(4u16.erase()), Some(4u16));
    assert_eq!(u32::restore(7u32.erase()), Some(7u32));
    assert_eq!(u64::restore(8u64.erase()), Some(8u64));
    assert_eq!(usize::restore(9usize.erase()), Some(9usize));
    assert_eq!(i32::restore((-2i32).erase()), Some(-2i32));
    assert_eq!(i64::restore((-3i64).erase()), Some(-3i64));
    assert_eq!(bool::restore(true.erase()), Some(true));
    assert_eq!(
        String::restore(String::from("s").erase()),
        Some(String::from("s"))
    );
    assert_eq!(<Vec<u8>>::restore(vec![1u8, 2u8].erase()), Some(vec![1u8, 2u8]));
    // a downcast to the wrong type reports a mismatch, not a value
    assert_eq!(u64::restore(7u32.erase()), None);
    assert_eq!(u32::restore(true.erase()), None);
    assert_eq!(7u32.erase().tag_of(), TypeTag::U32);
    assert_eq!(u32::tag_exec(), TypeTag::U32);
    assert_eq!(i64::tag_exec(), TypeTag::I64);
}

#[test]
fn registry_holds_many_types_at_once() {
    let mut pool = KMAlloc::new(8);
    let mut grt = Grt::new();
    assert!(grt.init().is_ok());
    assert!(grt.register_mutex(&mut pool, PASSIVE_LEVEL, "n", 1u32).is_ok());
    assert!(grt
        .register_mutex(&mut pool, PASSIVE_LEVEL, "s", String::from("txt"))
        .is_ok());
    let m = grt.get_kmutex::<String>("s").unwrap();
    let g = m.lock(PASSIVE_LEVEL).unwrap();
    match g.get() {
        Erased::Text(s) => assert_eq!(s, "txt"),
        _ => panic!("entry does not hold a string"),
    }
    g.unlock(m, PASSIVE_LEVEL);
    assert_eq!(grt.get_kmutex::<u32>("s").err().unwrap(), GrtError::DowncastError);
    assert!(grt.destroy(&mut pool).is_ok());
    assert_eq!(pool.outstanding_count(), 0);
}
