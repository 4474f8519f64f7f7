use distill::gate::ConcurrencyGate;
use distill::idle::IdleTabCache;

// ==================== concurrency gate ====================

#[test]
fn gate_starts_with_every_slot_free() {
    let gate = ConcurrencyGate::new(50);
    assert_eq!(gate.capacity(), 50);
    assert_eq!(gate.available(), 50);
    assert_eq!(gate.in_use(), 0);
}

#[test]
fn gate_hands_out_no_more_than_its_capacity() {
    let mut gate = ConcurrencyGate::new(2);
    assert!(gate.try_acquire());
    assert!(gate.try_acquire());
    assert!(!gate.try_acquire());
    assert_eq!(gate.available(), 0);
    assert_eq!(gate.in_use(), 2);
    gate.release();
    assert_eq!(gate.available(), 1);
    assert!(gate.try_acquire());
    assert!(!gate.try_acquire());
}

#[test]
fn gate_release_stops_at_capacity() {
    let mut gate = ConcurrencyGate::new(1);
    gate.release();
    assert_eq!(gate.available(), 1);
    assert_eq!(gate.in_use(), 0);
}

#[test]
fn gate_of_capacity_zero_never_opens() {
    let mut gate = ConcurrencyGate::new(0);
    assert!(!gate.try_acquire());
    gate.release();
    assert!(!gate.try_acquire());
    assert_eq!(gate.available(), 0);
}

// ==================== idle tab cache ====================

#[test]
fn cache_starts_empty() {
    let mut cache: IdleTabCache<&str> = IdleTabCache::new(1000);
    assert_eq!(cache.len(), 0);
    assert_eq!(cache.grace(), 1000);
    assert!(cache.reclaim().is_none());
    assert!(!cache.contains(1));
}

#[test]
fn cache_reclaims_last_in_first_out() {
    let mut cache = IdleTabCache::new(1000);
    assert!(cache.offer(1, "a", 10).is_none());
    assert!(cache.offer(2, "b", 20).is_none());
    assert!(cache.offer(3, "c", 30).is_none());
    assert_eq!(cache.len(), 3);
    let top = cache.reclaim().unwrap();
    assert_eq!((top.id, top.tab, top.enqueued_at), (3, "c", 30));
    assert_eq!(cache.reclaim().unwrap().id, 2);
    assert_eq!(cache.reclaim().unwrap().id, 1);
    assert!(cache.reclaim().is_none());
}

#[test]
fn cache_refuses_an_id_it_already_holds() {
    let mut cache = IdleTabCache::new(1000);
    assert!(cache.offer(1, "a", 10).is_none());
    assert_eq!(cache.offer(1, "again", 20), Some("again"));
    assert_eq!(cache.len(), 1);
    assert_eq!(cache.reclaim().unwrap().tab, "a");
}

#[test]
fn cache_expires_an_entry_exactly_at_the_end_of_its_grace_period() {
    let mut cache = IdleTabCache::new(1000);
    cache.offer(1, "a", 500);
    assert_eq!(cache.expire(1, 1_499), None);
    assert!(cache.contains(1));
    assert_eq!(cache.expire(1, 1_500), Some("a"));
    assert!(!cache.contains(1));
    assert_eq!(cache.len(), 0);
}

#[test]
fn cache_ignores_a_clock_that_ran_backwards() {
    let mut cache = IdleTabCache::new(0);
    cache.offer(1, "a", 500);
    assert_eq!(cache.expire(1, 499), None);
    assert_eq!(cache.expire(1, 500), Some("a"));
}

#[test]
fn cache_expiry_near_the_end_of_time_does_not_overflow() {
    let mut cache = IdleTabCache::new(1000);
    cache.offer(1, "a", u64::MAX - 10);
    assert_eq!(cache.expire(1, u64::MAX), None);
    assert_eq!(cache.len(), 1);
}

#[test]
fn cache_reclaim_then_timer_is_a_no_op() {
    let mut cache = IdleTabCache::new(1000);
    cache.offer(1, "a", 0);
    assert_eq!(cache.reclaim().unwrap().tab, "a");
    assert_eq!(cache.expire(1, 1_000), None);
    assert_eq!(cache.len(), 0);
}

#[test]
fn cache_timer_then_reclaim_finds_nothing() {
    let mut cache = IdleTabCache::new(1000);
    cache.offer(1, "a", 0);
    assert_eq!(cache.expire(1, 1_000), Some("a"));
    assert!(cache.reclaim().is_none());
    assert_eq!(cache.expire(1, 2_000), None);
}

#[test]
fn cache_clear_hands_out_every_entry_oldest_first() {
    let mut cache = IdleTabCache::new(1000);
    cache.offer(1, "a", 0);
    cache.offer(2, "b", 1);
    let cleared = cache.clear();
    assert_eq!(cleared.len(), 2);
    assert_eq!(cleared[0].tab, "a");
    assert_eq!(cleared[1].tab, "b");
    assert_eq!(cache.len(), 0);
    assert_eq!(cache.grace(), 1000);
    assert!(cache.clear().is_empty());
}
