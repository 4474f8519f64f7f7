use distill::browser::{
    is_connection_error, launch_browser, launch_error, AcquireStep, AcquireTicket, BrowserManager,
    CreateStep, LaunchFailure, ProbeStep, ReleaseAction, RestartStep, TabGuard,
    DEFAULT_MAX_CONCURRENT_TABS, IDLE_BROWSER_TIMEOUT_SECS, IDLE_GRACE_MILLIS,
    IDLE_TAB_TIMEOUT_SECS,
};
use distill::error::AppError;
use distill::models::OutputFormat;
use distill::scrape::{ScrapeAction, ScrapeEvent};

type Pool = BrowserManager<&'static str, u32>;

fn pool(capacity: usize) -> Pool {
    BrowserManager::new(capacity, Ok("browser-1")).unwrap()
}

fn ticket_for_creation(pool: &mut Pool) -> AcquireTicket {
    match pool.acquire_tab() {
        AcquireStep::Create(ticket) => ticket,
        other => panic!("expected a creation, got {:?}", other),
    }
}

fn lease_new(pool: &mut Pool, tab: u32, id: u128) -> TabGuard<u32> {
    let ticket = ticket_for_creation(pool);
    match pool.creation_result_with(ticket, Ok(tab), id) {
        CreateStep::Leased(guard) => guard,
        other => panic!("expected a lease, got {:?}", other),
    }
}

fn assert_stats(pool: &Pool, max: usize, free: usize, idle: usize, active: usize) {
    let stats = pool.stats();
    assert_eq!(stats.max_concurrent, max);
    assert_eq!(stats.available_slots, free);
    assert_eq!(stats.idle_tabs, idle);
    assert_eq!(stats.active_tabs, active);
}

// ==================== construction ====================

#[test]
fn new_pool_has_every_slot_free() {
    let pool = pool(3);
    assert_stats(&pool, 3, 3, 0, 0);
    assert_eq!(*pool.browser(), "browser-1");
}

#[test]
fn new_pool_fails_when_launch_options_fail() {
    let made: Result<Pool, AppError> =
        BrowserManager::new(3, Err(LaunchFailure::Options("bad flag".to_string())));
    let err = made.unwrap_err();
    assert_eq!(err.to_string(), "Browser error: Launch options failed: bad flag");
}

#[test]
fn new_pool_fails_when_the_browser_does_not_start() {
    let made: Result<Pool, AppError> =
        BrowserManager::new(3, Err(LaunchFailure::Launch("no chrome".to_string())));
    let err = made.unwrap_err();
    assert_eq!(err.code(), "BROWSER_ERROR");
    assert_eq!(err.to_string(), "Browser error: Browser launch failed: no chrome");
}

#[test]
fn launch_error_messages() {
    let err = launch_error(LaunchFailure::Options("x".to_string()));
    assert!(matches!(err, AppError::Browser(ref m) if m == "Launch options failed: x"));
    let err = launch_error(LaunchFailure::Launch("y".to_string()));
    assert!(matches!(err, AppError::Browser(ref m) if m == "Browser launch failed: y"));
}

#[test]
fn launch_settings() {
    let settings = launch_browser();
    assert!(settings.headless);
    assert!(settings.sandbox);
    assert_eq!(settings.idle_browser_timeout_secs, 600);
    assert_eq!(IDLE_BROWSER_TIMEOUT_SECS, 600);
}

#[test]
fn pool_constants() {
    assert_eq!(DEFAULT_MAX_CONCURRENT_TABS, 50);
    assert_eq!(IDLE_TAB_TIMEOUT_SECS, 1);
    assert_eq!(IDLE_GRACE_MILLIS, 1000);
}

// ==================== capacity ====================

#[test]
fn stats_after_acquiring_k_of_n() {
    let mut pool = pool(5);
    let mut guards = Vec::new();
    for k in 0..5u32 {
        assert_stats(&pool, 5, 5 - k as usize, 0, k as usize);
        guards.push(lease_new(&mut pool, k, 100 + k as u128));
    }
    assert_stats(&pool, 5, 0, 0, 5);
    assert_eq!(guards.len(), 5);
}

#[test]
fn acquire_waits_when_every_slot_is_taken() {
    let mut pool = pool(2);
    let _a = lease_new(&mut pool, 1, 1);
    let _b = lease_new(&mut pool, 2, 2);
    assert!(matches!(pool.acquire_tab(), AcquireStep::Wait));
    assert!(matches!(pool.acquire_tab(), AcquireStep::Wait));
    assert_stats(&pool, 2, 0, 0, 2);
}

#[test]
fn acquire_on_a_pool_without_capacity_always_waits() {
    let mut pool = pool(0);
    assert!(matches!(pool.acquire_tab(), AcquireStep::Wait));
    assert_stats(&pool, 0, 0, 0, 0);
}

#[test]
fn outstanding_leases_never_exceed_capacity() {
    let mut pool = pool(3);
    let mut held: Vec<TabGuard<u32>> = Vec::new();
    let mut next_tab = 0u32;
    let mut now = 0u64;
    // A fixed mix of acquisitions and releases, more acquisitions than fit.
    let script = [1, 1, 1, 1, 0, 1, 1, 0, 0, 1, 1, 1, 0, 0, 0, 0, 1];
    for op in script {
        now += 10;
        if op == 1 {
            match pool.acquire_tab() {
                AcquireStep::Wait => assert_eq!(held.len(), 3),
                AcquireStep::Create(ticket) => {
                    next_tab += 1;
                    match pool.creation_result_with(ticket, Ok(next_tab), next_tab as u128) {
                        CreateStep::Leased(guard) => held.push(guard),
                        other => panic!("unexpected {:?}", other),
                    }
                }
                AcquireStep::Probe { ticket, candidate } => {
                    match pool.probe_result(ticket, candidate, true) {
                        ProbeStep::Leased(guard) => held.push(guard),
                        other => panic!("unexpected {:?}", other),
                    }
                }
            }
        } else if let Some(guard) = held.pop() {
            pool.release_tab(guard, now);
        }
        let stats = pool.stats();
        assert_eq!(stats.active_tabs, held.len());
        assert!(stats.active_tabs <= stats.max_concurrent);
        assert_eq!(stats.available_slots, 3 - held.len());
        assert!(stats.idle_tabs + stats.active_tabs <= stats.max_concurrent);
    }
}

// ==================== reuse ====================

#[test]
fn released_tab_is_reused_without_creation() {
    let mut pool = pool(2);
    let guard = lease_new(&mut pool, 7, 42);
    let action = pool.release_tab(guard, 1_000);
    assert!(matches!(action, ReleaseAction::Cached { id: 42, grace_millis: 1000 }));
    assert_stats(&pool, 2, 2, 1, 0);

    // 400 ms later, well within the grace period.
    match pool.acquire_tab() {
        AcquireStep::Probe { ticket, candidate } => {
            assert_eq!(candidate.id, 42);
            assert_eq!(candidate.tab, 7);
            assert_eq!(candidate.enqueued_at, 1_000);
            match pool.probe_result(ticket, candidate, true) {
                ProbeStep::Leased(guard) => {
                    assert_eq!(*guard.tab(), 7);
                    assert_eq!(guard.id(), 42);
                }
                other => panic!("expected the cached tab, got {:?}", other),
            }
        }
        other => panic!("expected a reuse, got {:?}", other),
    }
    assert_stats(&pool, 2, 1, 0, 1);
}

#[test]
fn most_recently_released_tab_comes_first() {
    let mut pool = pool(3);
    let a = lease_new(&mut pool, 1, 11);
    let b = lease_new(&mut pool, 2, 22);
    let c = lease_new(&mut pool, 3, 33);
    pool.release_tab(a, 10);
    pool.release_tab(c, 20);
    pool.release_tab(b, 30);
    let mut order = Vec::new();
    for _ in 0..3 {
        match pool.acquire_tab() {
            AcquireStep::Probe { candidate, .. } => order.push(candidate.id),
            other => panic!("expected a reuse, got {:?}", other),
        }
    }
    assert_eq!(order, vec![22, 33, 11]);
    assert!(matches!(pool.acquire_tab(), AcquireStep::Wait));
}

#[test]
fn dead_cached_tab_is_discarded_and_creation_follows() {
    let mut pool = pool(1);
    let guard = lease_new(&mut pool, 7, 42);
    pool.release_tab(guard, 0);
    let (ticket, candidate) = match pool.acquire_tab() {
        AcquireStep::Probe { ticket, candidate } => (ticket, candidate),
        other => panic!("expected a reuse, got {:?}", other),
    };
    let ticket = match pool.probe_result(ticket, candidate, false) {
        ProbeStep::Discard { tab, ticket } => {
            assert_eq!(tab, 7);
            ticket
        }
        other => panic!("expected a discard, got {:?}", other),
    };
    assert!(!ticket.has_restarted());
    assert_stats(&pool, 1, 0, 0, 1);
    match pool.creation_result_with(ticket, Ok(8), 43) {
        CreateStep::Leased(guard) => {
            assert_eq!(*guard.tab(), 8);
            assert_eq!(guard.id(), 43);
        }
        other => panic!("expected a lease, got {:?}", other),
    }
    assert_stats(&pool, 1, 0, 0, 1);
}

// ==================== expiry ====================

#[test]
fn unclaimed_tab_expires_after_the_grace_period() {
    let mut pool = pool(2);
    let guard = lease_new(&mut pool, 7, 42);
    pool.release_tab(guard, 5_000);
    assert_eq!(pool.stats().idle_tabs, 1);
    assert_eq!(pool.expire_idle(42, 6_000), Some(7));
    assert_eq!(pool.stats().idle_tabs, 0);
    assert!(matches!(pool.acquire_tab(), AcquireStep::Create(_)));
}

#[test]
fn timer_before_the_grace_period_ends_changes_nothing() {
    let mut pool = pool(2);
    let guard = lease_new(&mut pool, 7, 42);
    pool.release_tab(guard, 5_000);
    assert_eq!(pool.expire_idle(42, 5_999), None);
    assert_eq!(pool.expire_idle(42, 4_000), None);
    assert_eq!(pool.stats().idle_tabs, 1);
}

#[test]
fn timer_for_a_reclaimed_tab_is_a_no_op() {
    let mut pool = pool(2);
    let guard = lease_new(&mut pool, 7, 42);
    pool.release_tab(guard, 0);
    let (ticket, candidate) = match pool.acquire_tab() {
        AcquireStep::Probe { ticket, candidate } => (ticket, candidate),
        other => panic!("expected a reuse, got {:?}", other),
    };
    // The timer of the first offer fires late: the entry is gone.
    assert_eq!(pool.expire_idle(42, 1_000), None);
    assert_eq!(pool.expire_idle(42, 9_000), None);
    assert!(matches!(pool.probe_result(ticket, candidate, true), ProbeStep::Leased(_)));
    assert_stats(&pool, 2, 1, 0, 1);
}

#[test]
fn expired_tab_cannot_be_reclaimed() {
    let mut pool = pool(2);
    let guard = lease_new(&mut pool, 7, 42);
    pool.release_tab(guard, 0);
    assert_eq!(pool.expire_idle(42, 1_000), Some(7));
    // A second firing closes nothing, and an acquisition finds nothing.
    assert_eq!(pool.expire_idle(42, 1_000), None);
    assert!(matches!(pool.acquire_tab(), AcquireStep::Create(_)));
}

#[test]
fn old_timer_does_not_expire_a_later_offer_of_the_same_tab() {
    let mut pool = pool(1);
    let guard = lease_new(&mut pool, 7, 42);
    pool.release_tab(guard, 0);
    let guard = match pool.acquire_tab() {
        AcquireStep::Probe { ticket, candidate } => {
            match pool.probe_result(ticket, candidate, true) {
                ProbeStep::Leased(guard) => guard,
                other => panic!("unexpected {:?}", other),
            }
        }
        other => panic!("unexpected {:?}", other),
    };
    pool.release_tab(guard, 600);
    // The timer set at 0 fires at 1000: the entry of 600 is 400 ms old.
    assert_eq!(pool.expire_idle(42, 1_000), None);
    assert_eq!(pool.stats().idle_tabs, 1);
    // Its own timer fires at 1600.
    assert_eq!(pool.expire_idle(42, 1_600), Some(7));
    assert_eq!(pool.stats().idle_tabs, 0);
}

#[test]
fn expiry_of_an_unknown_id_changes_nothing() {
    let mut pool = pool(2);
    let guard = lease_new(&mut pool, 7, 42);
    pool.release_tab(guard, 0);
    assert_eq!(pool.expire_idle(43, 10_000), None);
    assert_eq!(pool.stats().idle_tabs, 1);
}

#[test]
fn expiry_takes_an_entry_out_of_the_middle() {
    let mut pool = pool(3);
    let a = lease_new(&mut pool, 1, 11);
    let b = lease_new(&mut pool, 2, 22);
    let c = lease_new(&mut pool, 3, 33);
    pool.release_tab(a, 0);
    pool.release_tab(b, 100);
    pool.release_tab(c, 200);
    assert_eq!(pool.expire_idle(22, 1_100), Some(2));
    let mut order = Vec::new();
    while let AcquireStep::Probe { candidate, .. } = pool.acquire_tab() {
        order.push(candidate.id);
    }
    assert_eq!(order, vec![33, 11]);
}

// ==================== release ====================

#[test]
fn release_returns_the_slot() {
    let mut pool = pool(1);
    let guard = lease_new(&mut pool, 7, 42);
    assert!(matches!(pool.acquire_tab(), AcquireStep::Wait));
    pool.release_tab(guard, 0);
    assert_stats(&pool, 1, 1, 1, 0);
    assert!(matches!(pool.acquire_tab(), AcquireStep::Probe { .. }));
}

#[test]
fn release_of_an_id_that_is_already_cached_closes_the_tab() {
    let mut pool = pool(2);
    let a = lease_new(&mut pool, 1, 42);
    let b = lease_new(&mut pool, 2, 42);
    assert!(matches!(pool.release_tab(a, 0), ReleaseAction::Cached { id: 42, .. }));
    assert!(matches!(pool.release_tab(b, 10), ReleaseAction::Close(2)));
    // Both slots are back, one tab is cached.
    assert_stats(&pool, 2, 2, 1, 0);
}

#[test]
fn release_into_a_pool_without_leases_closes_the_tab() {
    let mut lender = pool(1);
    let mut other = pool(1);
    let guard = lease_new(&mut lender, 7, 42);
    assert!(matches!(other.release_tab(guard, 0), ReleaseAction::Close(7)));
    assert_stats(&other, 1, 1, 0, 0);
}

// ==================== restart ====================

#[test]
fn is_connection_error_knows_the_disconnect_phrases() {
    assert!(is_connection_error("underlying connection is closed"));
    assert!(is_connection_error("connection closed"));
    assert!(is_connection_error("websocket not connected"));
    assert!(is_connection_error("Browser has been closed"));
    assert!(is_connection_error("x connection closed y"));
}

#[test]
fn is_connection_error_rejects_everything_else() {
    assert!(!is_connection_error(""));
    assert!(!is_connection_error("timeout"));
    assert!(!is_connection_error("Connection Closed"));
    assert!(!is_connection_error("browser has been closed"));
    assert!(!is_connection_error("connection close"));
    assert!(!is_connection_error("not connecte"));
}

#[test]
fn process_lost_error_restarts_once_and_retries() {
    let mut pool = pool(3);
    // Two tabs are cached when the process dies.
    let a = lease_new(&mut pool, 1, 11);
    let b = lease_new(&mut pool, 2, 22);
    let c = lease_new(&mut pool, 3, 33);
    pool.release_tab(a, 0);
    pool.release_tab(b, 0);
    // The third tab is still on lease; a fourth request finds b's tab dead.
    let (ticket, candidate) = match pool.acquire_tab() {
        AcquireStep::Probe { ticket, candidate } => (ticket, candidate),
        other => panic!("unexpected {:?}", other),
    };
    let ticket = match pool.probe_result(ticket, candidate, false) {
        ProbeStep::Discard { ticket, .. } => ticket,
        other => panic!("unexpected {:?}", other),
    };
    let (ticket, stale) = match pool.creation_result(
        ticket,
        Err("Unable to make method calls because underlying connection is closed".to_string()),
    ) {
        CreateStep::Restart { ticket, stale } => (ticket, stale),
        other => panic!("expected a restart, got {:?}", other),
    };
    assert_eq!(stale.len(), 1);
    assert_eq!(stale[0].id, 11);
    assert_eq!(stale[0].tab, 1);
    assert_eq!(pool.stats().idle_tabs, 0);
    assert_eq!(pool.stats().active_tabs, 2);

    let ticket = match pool.restart_result(ticket, Ok("browser-2")) {
        RestartStep::Retry { ticket, retired } => {
            assert_eq!(retired, "browser-1");
            ticket
        }
        other => panic!("expected a retry, got {:?}", other),
    };
    assert!(ticket.has_restarted());
    assert_eq!(*pool.browser(), "browser-2");

    match pool.creation_result(ticket, Ok(9)) {
        CreateStep::Leased(guard) => assert_eq!(*guard.tab(), 9),
        other => panic!("expected a lease, got {:?}", other),
    }
    assert_stats(&pool, 3, 1, 0, 2);
    drop(c);
}

#[test]
fn other_creation_error_propagates_without_restart() {
    let mut pool = pool(2);
    let ticket = ticket_for_creation(&mut pool);
    assert_stats(&pool, 2, 1, 0, 1);
    match pool.creation_result(ticket, Err("out of memory".to_string())) {
        CreateStep::Failed(err) => {
            assert_eq!(err.to_string(), "Browser error: Tab creation failed: out of memory");
        }
        other => panic!("expected a failure, got {:?}", other),
    }
    // The slot is back and the browser is the same.
    assert_stats(&pool, 2, 2, 0, 0);
    assert_eq!(*pool.browser(), "browser-1");
}

#[test]
fn second_failure_after_restart_gives_up() {
    let mut pool = pool(1);
    let ticket = ticket_for_creation(&mut pool);
    let ticket = match pool.creation_result(ticket, Err("connection closed".to_string())) {
        CreateStep::Restart { ticket, stale } => {
            assert!(stale.is_empty());
            ticket
        }
        other => panic!("expected a restart, got {:?}", other),
    };
    let ticket = match pool.restart_result(ticket, Ok("browser-2")) {
        RestartStep::Retry { ticket, .. } => ticket,
        other => panic!("expected a retry, got {:?}", other),
    };
    // Again a process-lost text: no second restart.
    match pool.creation_result(ticket, Err("connection closed".to_string())) {
        CreateStep::Failed(err) => assert_eq!(
            err.to_string(),
            "Browser error: Tab creation failed after restart: connection closed"
        ),
        other => panic!("expected a failure, got {:?}", other),
    }
    assert_stats(&pool, 1, 1, 0, 0);
}

#[test]
fn failed_restart_returns_the_slot() {
    let mut pool = pool(1);
    let ticket = ticket_for_creation(&mut pool);
    let ticket = match pool.creation_result(ticket, Err("not connected".to_string())) {
        CreateStep::Restart { ticket, .. } => ticket,
        other => panic!("expected a restart, got {:?}", other),
    };
    match pool.restart_result(ticket, Err(LaunchFailure::Launch("no chrome".to_string()))) {
        RestartStep::Failed(err) => {
            assert_eq!(err.to_string(), "Browser error: Browser launch failed: no chrome")
        }
        other => panic!("expected a failure, got {:?}", other),
    }
    assert_stats(&pool, 1, 1, 0, 0);
    assert_eq!(*pool.browser(), "browser-1");
}

#[test]
fn random_ids_are_version_4_uuids() {
    let mut pool = pool(2);
    let ticket = ticket_for_creation(&mut pool);
    let first = match pool.creation_result(ticket, Ok(1)) {
        CreateStep::Leased(guard) => guard,
        other => panic!("unexpected {:?}", other),
    };
    let ticket = ticket_for_creation(&mut pool);
    let second = match pool.creation_result(ticket, Ok(2)) {
        CreateStep::Leased(guard) => guard,
        other => panic!("unexpected {:?}", other),
    };
    for guard in [&first, &second] {
        let id = uuid::Uuid::from_u128(guard.id());
        assert_eq!(id.get_version_num(), 4);
    }
    assert_ne!(first.id(), second.id());
}

#[test]
fn cancelled_acquisition_returns_its_slot() {
    let mut pool = pool(1);
    let ticket = ticket_for_creation(&mut pool);
    assert_stats(&pool, 1, 0, 0, 1);
    pool.cancel_acquisition(ticket);
    assert_stats(&pool, 1, 1, 0, 0);
    assert!(matches!(pool.acquire_tab(), AcquireStep::Create(_)));
}

// ==================== timeout ====================

#[test]
fn timed_out_scrape_returns_its_slot() {
    let mut pool = pool(1);
    let guard = lease_new(&mut pool, 7, 42);
    let (mut job, first) = pool.scrape_page(&guard, "https://example.com/slow", OutputFormat::Markdown);
    assert!(matches!(first, ScrapeAction::Navigate(ref url) if url == "https://example.com/slow"));
    assert_eq!(job.timeout_secs(), 10);
    assert!(matches!(job.advance(ScrapeEvent::Done), ScrapeAction::WaitUntilNavigated));
    assert!(matches!(job.advance(ScrapeEvent::Done), ScrapeAction::WaitForElement { .. }));
    assert!(matches!(job.advance(ScrapeEvent::Done), ScrapeAction::Evaluate(_)));
    // The extraction would take 20 s; the budget of 10 s runs out first.
    match job.advance(ScrapeEvent::TimedOut) {
        ScrapeAction::Finish(Err(err)) => {
            assert_eq!(err.code(), "TIMEOUT_EXCEEDED");
            assert_eq!(
                err.to_string(),
                "Timeout exceeded: Timeout after 10s: https://example.com/slow"
            );
        }
        other => panic!("expected a timeout, got {:?}", other),
    }
    assert!(job.is_finished());
    assert_stats(&pool, 1, 0, 0, 1);
    pool.release_tab(guard, 10_000);
    assert_stats(&pool, 1, 1, 1, 0);
    assert!(!matches!(pool.acquire_tab(), AcquireStep::Wait));
}
