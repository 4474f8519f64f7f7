//! The tab lifecycle manager: a bounded pool of browser tabs.
//!
//! A request asks for a tab. It first needs a capacity slot, then gets the most
//! recently released tab if one is cached and still alive, else a new tab from
//! the browser. A creation that fails because the browser process is lost is
//! retried once against a fresh process. On release the tab goes back to the
//! cache for a short grace period and the slot is returned.
//!
//! The manager decides; it never touches the browser. `B` is whatever stands
//! for the browser process and `T` whatever stands for a tab. Each method takes
//! what happened and says what to do next, so a driver that serialises its calls
//! may interleave any number of requests.

use crate::error::{AppError, AppResult, ErrorModel};
use crate::gate::{ConcurrencyGate, GateModel};
use crate::idle::{IdleModel, IdleTab, IdleTabCache};
use crate::ids::random_tab_id;
use crate::models::OutputFormat;
use crate::scrape::{
    ActionModel, JobModel, ScrapeAction, ScrapeJob, ScrapePhase, BROWSER_TIMEOUT_SECS,
};
use crate::text::{contains, text_contains};
use vstd::prelude::*;

verus! {

/// How long a released tab stays reusable, in seconds.
pub const IDLE_TAB_TIMEOUT_SECS: u64 = 1;

/// How long a released tab stays reusable, in milliseconds.
pub const IDLE_GRACE_MILLIS: u64 = IDLE_TAB_TIMEOUT_SECS * 1000;

/// The capacity of a pool that is configured with none.
pub const DEFAULT_MAX_CONCURRENT_TABS: usize = 50;

/// After how many seconds without activity the browser process may shut
/// down.
pub const IDLE_BROWSER_TIMEOUT_SECS: u64 = 600;

/// A snapshot of the pool.
#[derive(Debug)]
pub struct BrowserStats {
    pub max_concurrent: usize,
    pub available_slots: usize,
    pub idle_tabs: usize,
    pub active_tabs: usize,
}

/// How the browser process is to be launched.
#[derive(Debug, Clone, Copy, PartialEq, Eq, Structural)]
pub struct LaunchSettings {
    pub headless: bool,
    pub sandbox: bool,
    pub idle_browser_timeout_secs: u64,
}

/// Why no browser process came up.
#[derive(Debug)]
pub enum LaunchFailure {
    /// The launch options were refused, with this message.
    Options(String),
    /// The process did not start, with this message.
    Launch(String),
}

/// A lease: one capacity slot and one tab, held by one caller until it hands
/// the lease back with `release_tab`.
#[derive(Debug)]
#[must_use]
pub struct TabGuard<T> {
    tab: T,
    tab_id: u128,
}

/// The lease as plain values.
pub struct LeaseModel<T> {
    pub tab: T,
    pub id: u128,
}

impl<T> View for TabGuard<T> {
    type V = LeaseModel<T>;

    closed spec fn view(&self) -> LeaseModel<T> {
        LeaseModel { tab: self.tab, id: self.tab_id }
    }
}

impl<T> TabGuard<T> {
    /// The leased tab.
    pub fn tab(&self) -> (tab: &T)
        ensures
            *tab == self@.tab,
    {
        &self.tab
    }

    /// The id under which the pool knows the tab.
    pub fn id(&self) -> (id: u128)
        ensures
            id == self@.id,
    {
        self.tab_id
    }
}

/// An acquisition under way: the capacity slot is taken, the tab is not yet
/// there. It ends in a lease or in a failure that returns the slot.
#[derive(Debug)]
#[must_use]
pub struct AcquireTicket {
    restarted: bool,
}

impl AcquireTicket {
    /// Whether the browser process was already replaced on behalf of this
    /// acquisition.
    pub closed spec fn restarted(&self) -> bool {
        self.restarted
    }

    /// Whether the browser process was already replaced on behalf of this
    /// acquisition.
    pub fn has_restarted(&self) -> (restarted: bool)
        ensures
            restarted == self.restarted(),
    {
        self.restarted
    }
}

/// What `acquire_tab` found.
#[derive(Debug)]
pub enum AcquireStep<T> {
    /// Every slot is taken: wait for a release and ask again.
    Wait,
    /// A cached tab was taken out: probe whether it still responds and report
    /// with `probe_result`.
    Probe { ticket: AcquireTicket, candidate: IdleTab<T> },
    /// Nothing is cached: ask the browser for a new tab and report with
    /// `creation_result`.
    Create(AcquireTicket),
}

/// What follows the liveness probe of a cached tab.
#[derive(Debug)]
pub enum ProbeStep<T> {
    /// The tab is alive: this is the lease.
    Leased(TabGuard<T>),
    /// The tab is dead: close it, ask the browser for a new tab and report
    /// with `creation_result`.
    Discard { tab: T, ticket: AcquireTicket },
}

/// What follows an attempt to create a tab.
#[derive(Debug)]
pub enum CreateStep<T> {
    /// The tab is there: this is the lease.
    Leased(TabGuard<T>),
    /// The browser process is lost. The cache was emptied: close the stale
    /// tabs, launch a fresh process and report with `restart_result`.
    Restart { ticket: AcquireTicket, stale: Vec<IdleTab<T>> },
    /// The acquisition failed and its slot was returned.
    Failed(AppError),
}

/// What follows an attempt to launch a fresh browser process.
#[derive(Debug)]
pub enum RestartStep<B> {
    /// The fresh process is installed: shut the retired one down, ask the
    /// fresh one for a new tab and report with `creation_result`.
    Retry { ticket: AcquireTicket, retired: B },
    /// The acquisition failed and its slot was returned.
    Failed(AppError),
}

/// What to do with a released tab.
#[derive(Debug)]
pub enum ReleaseAction<T> {
    /// The tab is cached: after the grace period, report with `expire_idle`.
    Cached { id: u128, grace_millis: u64 },
    /// The tab could not be cached: close it.
    Close(T),
}

/// The text of a creation failure says that the browser process is lost.
pub open spec fn process_lost(text: Seq<char>) -> bool {
    ||| contains(text, "connection is closed"@)
    ||| contains(text, "connection closed"@)
    ||| contains(text, "not connected"@)
    ||| contains(text, "Browser has been closed"@)
}

/// Whether the text of a creation failure says that the browser process is
/// lost. Nothing else in the pool depends on the wording of an error.
pub fn is_connection_error(error_msg: &str) -> (lost: bool)
    ensures
        lost == process_lost(error_msg@),
{
    text_contains(error_msg, "connection is closed") || text_contains(
        error_msg,
        "connection closed",
    ) || text_contains(error_msg, "not connected") || text_contains(
        error_msg,
        "Browser has been closed",
    )
}

/// The error for a browser process that did not come up.
pub open spec fn launch_error_model(failure: LaunchFailure) -> ErrorModel {
    match failure {
        LaunchFailure::Options(detail) => ErrorModel::Browser("Launch options failed: "@ + detail@),
        LaunchFailure::Launch(detail) => ErrorModel::Browser("Browser launch failed: "@ + detail@),
    }
}

/// The error for a browser process that did not come up.
pub fn launch_error(failure: LaunchFailure) -> (error: AppError)
    ensures
        error@ == launch_error_model(failure),
{
    match failure {
        LaunchFailure::Options(detail) => AppError::Browser(
            String::from_str("Launch options failed: ").concat(detail.as_str()),
        ),
        LaunchFailure::Launch(detail) => AppError::Browser(
            String::from_str("Browser launch failed: ").concat(detail.as_str()),
        ),
    }
}

/// The settings with which every browser process is launched.
pub fn launch_browser() -> (settings: LaunchSettings)
    ensures
        settings == (LaunchSettings {
            headless: true,
            sandbox: true,
            idle_browser_timeout_secs: IDLE_BROWSER_TIMEOUT_SECS,
        }),
{
    LaunchSettings {
        headless: true,
        sandbox: true,
        idle_browser_timeout_secs: IDLE_BROWSER_TIMEOUT_SECS,
    }
}

/// What a failed creation leads to.
pub enum CreationVerdict {
    /// Replace the browser process and try once more.
    Restart,
    /// Give up with this error.
    Fail(ErrorModel),
}

/// The decision on a failed creation. Only the first failure of an
/// acquisition can lead to a restart, and only if its text says that the
/// process is lost.
pub open spec fn creation_verdict(restarted: bool, failure: Seq<char>) -> CreationVerdict {
    if restarted {
        CreationVerdict::Fail(ErrorModel::Browser("Tab creation failed after restart: "@ + failure))
    } else if process_lost(failure) {
        CreationVerdict::Restart
    } else {
        CreationVerdict::Fail(ErrorModel::Browser("Tab creation failed: "@ + failure))
    }
}

/// What `creation_result_with` does: the step it returns and the pool it
/// leaves, given the pool it found.
pub open spec fn created<B, T>(
    before: PoolModel<B, T>,
    after: PoolModel<B, T>,
    ticket: AcquireTicket,
    outcome: Result<T, String>,
    id: u128,
    step: CreateStep<T>,
) -> bool {
    match outcome {
        Ok(tab) => {
            &&& step matches CreateStep::Leased(guard)
            &&& guard@ == (LeaseModel { tab, id })
            &&& after == before
        },
        Err(failure) => match creation_verdict(ticket.restarted(), failure@) {
            CreationVerdict::Restart => {
                &&& step matches CreateStep::Restart { ticket: same, stale }
                &&& same == ticket
                &&& stale@ == before.idle.entries
                &&& after == before.flush()
            },
            CreationVerdict::Fail(model) => {
                &&& step matches CreateStep::Failed(error)
                &&& error@ == model
                &&& after == before.abandon()
            },
        },
    }
}

/// The pool as plain values.
pub struct PoolModel<B, T> {
    /// The browser process in use.
    pub browser: B,
    /// The capacity slots.
    pub gate: GateModel,
    /// The cached tabs.
    pub idle: IdleModel<T>,
}

impl<B, T> PoolModel<B, T> {
    /// The cache never holds more tabs than there are free slots, so tabs in
    /// use and tabs cached together never exceed the capacity.
    pub open spec fn wf(self) -> bool {
        &&& self.gate.wf()
        &&& self.idle.wf()
        &&& self.idle.len() <= self.gate.available
    }

    /// A pool with every slot free and nothing cached.
    pub open spec fn fresh(capacity: nat, browser: B) -> PoolModel<B, T> {
        PoolModel {
            browser,
            gate: GateModel::fresh(capacity),
            idle: IdleModel::empty(IDLE_GRACE_MILLIS),
        }
    }

    /// The number of slots that are taken: by leases and by acquisitions
    /// under way.
    pub open spec fn in_use(self) -> nat {
        self.gate.in_use()
    }

    /// The pool after `acquire_tab`: where a slot is free it is taken,
    /// together with the most recently cached tab if there is one.
    pub open spec fn acquire(self) -> PoolModel<B, T> {
        if self.gate.has_slot() {
            PoolModel { gate: self.gate.take(), idle: self.idle.reclaim(), ..self }
        } else {
            self
        }
    }

    /// A release by a holder of a slot is taken in.
    pub open spec fn admits_release(self) -> bool {
        self.gate.in_use() > 0
    }

    /// The released tab goes into the cache.
    pub open spec fn caches(self, id: u128) -> bool {
        self.admits_release() && self.idle.accepts(id)
    }

    /// The pool after the release of a lease at time `now`: the slot is
    /// returned and the tab is cached as the most recent entry.
    pub open spec fn release(self, id: u128, tab: T, now: u64) -> PoolModel<B, T> {
        if self.admits_release() {
            PoolModel { gate: self.gate.give(), idle: self.idle.offer(id, tab, now), ..self }
        } else {
            self
        }
    }

    /// The pool after an acquisition under way has failed: its slot is
    /// returned.
    pub open spec fn abandon(self) -> PoolModel<B, T> {
        PoolModel { gate: self.gate.give(), ..self }
    }

    /// The pool after the cache was emptied for a restart.
    pub open spec fn flush(self) -> PoolModel<B, T> {
        PoolModel { idle: self.idle.clear(), ..self }
    }

    /// The pool after a fresh browser process was installed.
    pub open spec fn install(self, browser: B) -> PoolModel<B, T> {
        PoolModel { browser, ..self }
    }

    /// The pool after the expiry timer of `id` fired at time `now`.
    pub open spec fn expire(self, id: u128, now: u64) -> PoolModel<B, T> {
        PoolModel { idle: self.idle.expire(id, now), ..self }
    }
}

/// One thing that can happen to a pool.
pub enum PoolEvent<B, T> {
    /// A request asked for a tab.
    Acquire,
    /// A lease was handed back.
    Release { id: u128, tab: T, now: u64 },
    /// An acquisition under way failed.
    Abandon,
    /// The cache was emptied for a restart.
    Flush,
    /// A fresh browser process was installed.
    Install { browser: B },
    /// The expiry timer of a tab fired.
    Expire { id: u128, now: u64 },
}

impl<B, T> PoolModel<B, T> {
    /// The pool after one event.
    pub open spec fn after(self, event: PoolEvent<B, T>) -> PoolModel<B, T> {
        match event {
            PoolEvent::Acquire => self.acquire(),
            PoolEvent::Release { id, tab, now } => self.release(id, tab, now),
            PoolEvent::Abandon => self.abandon(),
            PoolEvent::Flush => self.flush(),
            PoolEvent::Install { browser } => self.install(browser),
            PoolEvent::Expire { id, now } => self.expire(id, now),
        }
    }

    /// The pool after a sequence of events, first to last.
    pub open spec fn after_all(self, events: Seq<PoolEvent<B, T>>) -> PoolModel<B, T>
        decreases events.len(),
    {
        if events.len() == 0 {
            self
        } else {
            self.after_all(events.drop_last()).after(events.last())
        }
    }

    /// The number of slots handed out over a sequence of events: the
    /// acquisitions that found a slot free.
    pub open spec fn granted(self, events: Seq<PoolEvent<B, T>>) -> nat
        decreases events.len(),
    {
        if events.len() == 0 {
            0
        } else {
            let before = self.after_all(events.drop_last());
            let earlier = self.granted(events.drop_last());
            if events.last() is Acquire && before.gate.has_slot() {
                earlier + 1
            } else {
                earlier
            }
        }
    }

    /// The number of slots returned over a sequence of events: the releases
    /// and failed acquisitions that found a slot taken.
    pub open spec fn returned(self, events: Seq<PoolEvent<B, T>>) -> nat
        decreases events.len(),
    {
        if events.len() == 0 {
            0
        } else {
            let before = self.after_all(events.drop_last());
            let earlier = self.returned(events.drop_last());
            if (events.last() is Release || events.last() is Abandon) && before.gate.in_use() > 0 {
                earlier + 1
            } else {
                earlier
            }
        }
    }

    /// The pool after `count` acquisitions in a row.
    pub open spec fn acquire_times(self, count: nat) -> PoolModel<B, T>
        decreases count,
    {
        if count == 0 {
            self
        } else {
            self.acquire_times((count - 1) as nat).acquire()
        }
    }
}

/// No event breaks a pool: it stays well formed and keeps its capacity.
pub proof fn lemma_event_keeps_wf<B, T>(pool: PoolModel<B, T>, event: PoolEvent<B, T>)
    requires
        pool.wf(),
    ensures
        pool.after(event).wf(),
        pool.after(event).gate.capacity == pool.gate.capacity,
        pool.after(event).idle.grace == pool.idle.grace,
{
    match event {
        PoolEvent::Acquire => {
            crate::idle::lemma_operations_keep_wf::<T>(pool.idle, 0, arbitrary(), 0);
        },
        PoolEvent::Release { id, tab, now } => {
            crate::idle::lemma_operations_keep_wf(pool.idle, id, tab, now);
        },
        PoolEvent::Abandon => {},
        PoolEvent::Flush => {},
        PoolEvent::Install { browser } => {},
        PoolEvent::Expire { id, now } => {
            crate::idle::lemma_operations_keep_wf::<T>(pool.idle, id, arbitrary(), now);
            if pool.idle.expires(id, now) {
                crate::idle::lemma_index_of_unique(
                    pool.idle.entries,
                    crate::idle::index_of(pool.idle.entries, id),
                );
            }
        },
    }
}

/// Whatever happens to a pool, in whatever order, the slots in use never
/// exceed its capacity, and neither do the tabs in use and the cached tabs
/// together. The slots in use are exactly those handed out and not yet
/// returned.
pub proof fn lemma_leases_never_exceed_capacity<B, T>(
    pool: PoolModel<B, T>,
    events: Seq<PoolEvent<B, T>>,
)
    requires
        pool.wf(),
    ensures
        pool.after_all(events).wf(),
        pool.after_all(events).gate.capacity == pool.gate.capacity,
        pool.after_all(events).in_use() <= pool.gate.capacity,
        pool.after_all(events).in_use() + pool.after_all(events).idle.len() <= pool.gate.capacity,
        pool.after_all(events).in_use() == pool.in_use() + pool.granted(events) - pool.returned(
            events,
        ),
    decreases events.len(),
{
    if events.len() > 0 {
        lemma_leases_never_exceed_capacity(pool, events.drop_last());
        lemma_event_keeps_wf(pool.after_all(events.drop_last()), events.last());
    }
}

/// A fresh pool of capacity `capacity` that has handed out `count` slots
/// reports `capacity - count` as free and `count` as in use.
pub proof fn lemma_slots_after_acquisitions<B, T>(capacity: nat, browser: B, count: nat)
    requires
        count <= capacity,
    ensures
        PoolModel::<B, T>::fresh(capacity, browser).acquire_times(count).gate.available == capacity
            - count,
        PoolModel::<B, T>::fresh(capacity, browser).acquire_times(count).in_use() == count,
        PoolModel::<B, T>::fresh(capacity, browser).acquire_times(count).gate.capacity == capacity,
        PoolModel::<B, T>::fresh(capacity, browser).acquire_times(count).idle.len() == 0,
        PoolModel::<B, T>::fresh(capacity, browser).acquire_times(count).wf(),
    decreases count,
{
    if count > 0 {
        lemma_slots_after_acquisitions::<B, T>(capacity, browser, (count - 1) as nat);
    }
}

/// A slot that was taken and handed back is free again: after an acquisition
/// and the release of its lease the slots are as they were, however the
/// acquisition and the work on the tab went.
pub proof fn lemma_release_restores_slot<B, T>(pool: PoolModel<B, T>, id: u128, tab: T, now: u64)
    requires
        pool.wf(),
        pool.gate.has_slot(),
    ensures
        pool.acquire().admits_release(),
        pool.acquire().release(id, tab, now).gate == pool.gate,
        pool.acquire().abandon().gate == pool.gate,
{
}

/// A tab that was released is reused by the next acquisition if its grace
/// period has not run out: timers that fire for it before then change
/// nothing, and the acquisition takes that very tab out of the cache instead
/// of asking for a new one.
pub proof fn lemma_released_tab_is_reused<B, T>(
    pool: PoolModel<B, T>,
    id: u128,
    tab: T,
    released_at: u64,
    now: u64,
)
    requires
        pool.wf(),
        pool.caches(id),
        !crate::idle::due(IdleTab { id, tab, enqueued_at: released_at }, now, pool.idle.grace),
    ensures
        pool.release(id, tab, released_at).expire(id, now) == pool.release(id, tab, released_at),
        pool.release(id, tab, released_at).gate.has_slot(),
        pool.release(id, tab, released_at).idle.top() == Some(
            IdleTab { id, tab, enqueued_at: released_at },
        ),
        pool.release(id, tab, released_at).acquire().idle == pool.idle,
        pool.release(id, tab, released_at).acquire().gate == pool.gate,
{
    let released = pool.release(id, tab, released_at);
    crate::idle::lemma_operations_keep_wf(pool.idle, id, tab, released_at);
    crate::idle::lemma_early_timer_is_ignored(released.idle, pool.idle.entries.len() as int, now);
    assert(released.idle.reclaim().entries =~= pool.idle.entries);
}

/// A tab that was released and not taken within its grace period leaves the
/// pool when its timer fires: it is handed out to be closed, and the pool
/// counts one idle tab fewer, the same number as before the release.
pub proof fn lemma_unclaimed_tab_expires<B, T>(
    pool: PoolModel<B, T>,
    id: u128,
    tab: T,
    released_at: u64,
    now: u64,
)
    requires
        pool.wf(),
        pool.caches(id),
        crate::idle::due(IdleTab { id, tab, enqueued_at: released_at }, now, pool.idle.grace),
    ensures
        pool.release(id, tab, released_at).idle.len() == pool.idle.len() + 1,
        pool.release(id, tab, released_at).idle.expires(id, now),
        pool.release(id, tab, released_at).idle.entries[crate::idle::index_of(
            pool.release(id, tab, released_at).idle.entries,
            id,
        )].tab == tab,
        pool.release(id, tab, released_at).expire(id, now).idle == pool.idle,
        !crate::idle::holds(pool.release(id, tab, released_at).expire(id, now).idle.entries, id),
{
    crate::idle::lemma_expire_then_reclaim(pool.idle, id, tab, released_at, now);
    let released = pool.release(id, tab, released_at);
    crate::idle::lemma_operations_keep_wf(pool.idle, id, tab, released_at);
    crate::idle::lemma_index_of_unique(released.idle.entries, pool.idle.entries.len() as int);
}

/// An acquisition replaces the browser process at most once. Its first
/// failed creation leads to a restart exactly if the failure's text says that
/// the process is lost; any other failure ends it at once. After the restart
/// no failure leads to another one, whatever its text.
pub proof fn lemma_restart_at_most_once(failure: Seq<char>)
    ensures
        creation_verdict(false, failure) is Restart <==> process_lost(failure),
        !process_lost(failure) ==> creation_verdict(false, failure) == CreationVerdict::Fail(
            ErrorModel::Browser("Tab creation failed: "@ + failure),
        ),
        creation_verdict(true, failure) == CreationVerdict::Fail(
            ErrorModel::Browser("Tab creation failed after restart: "@ + failure),
        ),
{
}

/// A restart leaves no tab of the lost process in the cache and keeps every
/// slot where it was: the cache is empty, the fresh process is the one in
/// use, and the acquisition that asked for the restart still holds its slot.
pub proof fn lemma_restart_empties_cache<B, T>(pool: PoolModel<B, T>, fresh: B)
    requires
        pool.wf(),
    ensures
        pool.flush().install(fresh).idle.len() == 0,
        pool.flush().install(fresh).browser == fresh,
        pool.flush().install(fresh).gate == pool.gate,
        pool.flush().install(fresh).wf(),
        pool.flush().install(fresh).acquire().idle.top() is None,
{
}

/// A bounded pool of browser tabs.
#[derive(Debug)]
pub struct BrowserManager<B, T> {
    browser: B,
    gate: ConcurrencyGate,
    idle_tabs: IdleTabCache<T>,
}

impl<B, T> View for BrowserManager<B, T> {
    type V = PoolModel<B, T>;

    closed spec fn view(&self) -> PoolModel<B, T> {
        PoolModel { browser: self.browser, gate: self.gate@, idle: self.idle_tabs@ }
    }
}

impl<B, T> BrowserManager<B, T> {
    #[verifier::type_invariant]
    spec fn inv(&self) -> bool {
        self@.wf()
    }

    /// A pool of `max_concurrent_tabs` slots around the browser process that
    /// was launched for it, or the error for a process that did not come up.
    pub fn new(max_concurrent_tabs: usize, launched: Result<B, LaunchFailure>) -> (made: AppResult<
        BrowserManager<B, T>,
    >)
        ensures
            match launched {
                Ok(browser) => made matches Ok(manager) && manager@ == PoolModel::<B, T>::fresh(
                    max_concurrent_tabs as nat,
                    browser,
                ) && manager@.wf(),
                Err(failure) => made matches Err(error) && error@ == launch_error_model(failure),
            },
    {
        match launched {
            Ok(browser) => Ok(
                BrowserManager {
                    browser,
                    gate: ConcurrencyGate::new(max_concurrent_tabs),
                    idle_tabs: IdleTabCache::new(IDLE_GRACE_MILLIS),
                },
            ),
            Err(failure) => Err(launch_error(failure)),
        }
    }

    /// The browser process in use.
    pub fn browser(&self) -> (browser: &B)
        ensures
            *browser == self@.browser,
    {
        &self.browser
    }

    /// Moves the cache out and leaves an empty one.
    fn take_idle(&mut self) -> (idle: IdleTabCache<T>)
        ensures
            idle@ == old(self)@.idle,
            final(self)@ == old(self)@.flush(),
    {
        proof {
            use_type_invariant(&*self);
        }
        let mut idle = IdleTabCache::new(self.idle_tabs.grace());
        std::mem::swap(&mut self.idle_tabs, &mut idle);
        idle
    }

    /// Asks for a tab. Where a slot is free it is taken, and with it the most
    /// recently released tab if one is cached; the step says how the
    /// acquisition goes on. Where no slot is free nothing changes.
    pub fn acquire_tab(&mut self) -> (step: AcquireStep<T>)
        ensures
            final(self)@ == old(self)@.acquire(),
            final(self)@.wf(),
            match step {
                AcquireStep::Wait => !old(self)@.gate.has_slot(),
                AcquireStep::Probe { ticket, candidate } => {
                    &&& old(self)@.gate.has_slot()
                    &&& old(self)@.idle.top() == Some(candidate)
                    &&& !ticket.restarted()
                },
                AcquireStep::Create(ticket) => {
                    &&& old(self)@.gate.has_slot()
                    &&& old(self)@.idle.top() is None
                    &&& !ticket.restarted()
                },
            },
    {
        proof {
            use_type_invariant(&*self);
        }
        let mut gate = self.gate;
        if !gate.try_acquire() {
            return AcquireStep::Wait;
        }
        let mut idle = self.take_idle();
        self.gate = gate;
        let taken = idle.reclaim();
        self.idle_tabs = idle;
        let ticket = AcquireTicket { restarted: false };
        match taken {
            Some(candidate) => AcquireStep::Probe { ticket, candidate },
            None => AcquireStep::Create(ticket),
        }
    }

    /// Takes in the liveness probe of a cached tab. A live tab is leased
    /// under the id it had; a dead one is handed out to be closed, and the
    /// acquisition goes on to creation.
    pub fn probe_result(&self, ticket: AcquireTicket, candidate: IdleTab<T>, alive: bool) -> (step:
        ProbeStep<T>)
        ensures
            match step {
                ProbeStep::Leased(guard) => alive && guard@ == (LeaseModel {
                    tab: candidate.tab,
                    id: candidate.id,
                }),
                ProbeStep::Discard { tab, ticket: same } => {
                    &&& !alive
                    &&& tab == candidate.tab
                    &&& same == ticket
                },
            },
    {
        if alive {
            ProbeStep::Leased(TabGuard { tab: candidate.tab, tab_id: candidate.id })
        } else {
            ProbeStep::Discard { tab: candidate.tab, ticket }
        }
    }

    /// Takes in the outcome of a creation, with `id` as the id of the new
    /// tab. A tab is leased under that id. A failure whose text says that the
    /// browser process is lost empties the cache and asks for a restart, once
    /// per acquisition; every other failure ends the acquisition and returns
    /// its slot.
    pub fn creation_result_with(
        &mut self,
        ticket: AcquireTicket,
        outcome: Result<T, String>,
        id: u128,
    ) -> (step: CreateStep<T>)
        ensures
            created(old(self)@, final(self)@, ticket, outcome, id, step),
            final(self)@.wf(),
    {
        proof {
            use_type_invariant(&*self);
        }
        match outcome {
            Ok(tab) => CreateStep::Leased(TabGuard { tab, tab_id: id }),
            Err(failure) => {
                if ticket.restarted {
                    self.abandon();
                    CreateStep::Failed(
                        AppError::Browser(
                            String::from_str("Tab creation failed after restart: ").concat(
                                failure.as_str(),
                            ),
                        ),
                    )
                } else if is_connection_error(failure.as_str()) {
                    let mut idle = self.take_idle();
                    let stale = idle.clear();
                    self.idle_tabs = idle;
                    CreateStep::Restart { ticket, stale }
                } else {
                    self.abandon();
                    CreateStep::Failed(
                        AppError::Browser(
                            String::from_str("Tab creation failed: ").concat(failure.as_str()),
                        ),
                    )
                }
            },
        }
    }

    /// Takes in the outcome of a creation, as `creation_result_with` does
    /// with an id drawn at random.
    pub fn creation_result(&mut self, ticket: AcquireTicket, outcome: Result<T, String>) -> (step:
        CreateStep<T>)
        ensures
            exists|id: u128| created(old(self)@, final(self)@, ticket, outcome, id, step),
            final(self)@.wf(),
    {
        let id = random_tab_id();
        self.creation_result_with(ticket, outcome, id)
    }

    /// Takes in the outcome of the launch of a fresh browser process. A
    /// process that came up replaces the one in use, and the acquisition goes
    /// on to its second and last creation. One that did not ends the
    /// acquisition and returns its slot.
    pub fn restart_result(&mut self, ticket: AcquireTicket, launched: Result<B, LaunchFailure>) -> (step:
        RestartStep<B>)
        ensures
            match launched {
                Ok(browser) => {
                    &&& step matches RestartStep::Retry { ticket: retry, retired }
                    &&& retry.restarted()
                    &&& retired == old(self)@.browser
                    &&& final(self)@ == old(self)@.install(browser)
                },
                Err(failure) => {
                    &&& step matches RestartStep::Failed(error)
                    &&& error@ == launch_error_model(failure)
                    &&& final(self)@ == old(self)@.abandon()
                },
            },
            final(self)@.wf(),
    {
        proof {
            use_type_invariant(&*self);
        }
        match launched {
            Ok(browser) => {
                let mut retired = browser;
                std::mem::swap(&mut self.browser, &mut retired);
                RestartStep::Retry { ticket: AcquireTicket { restarted: true }, retired }
            },
            Err(failure) => {
                self.abandon();
                RestartStep::Failed(launch_error(failure))
            },
        }
    }

    /// Gives an acquisition up before it has ended, as a driver must when
    /// the request behind it is gone: its slot is returned.
    pub fn cancel_acquisition(&mut self, ticket: AcquireTicket)
        ensures
            final(self)@ == old(self)@.abandon(),
            final(self)@.wf(),
    {
        self.abandon();
    }

    /// Returns the slot of an acquisition that has failed.
    fn abandon(&mut self)
        ensures
            final(self)@ == old(self)@.abandon(),
            final(self)@.wf(),
    {
        proof {
            use_type_invariant(&*self);
        }
        let mut gate = self.gate;
        gate.release();
        self.gate = gate;
    }

    /// Takes a lease back at time `now`. The slot is returned, and the tab is
    /// cached as the most recent entry with a fresh grace period. Where the
    /// cache already holds the tab's id, or no slot is taken at all, the tab is
    /// handed out to be closed instead.
    pub fn release_tab(&mut self, guard: TabGuard<T>, now: u64) -> (action: ReleaseAction<T>)
        ensures
            final(self)@ == old(self)@.release(guard@.id, guard@.tab, now),
            action == if old(self)@.caches(guard@.id) {
                ReleaseAction::Cached { id: guard@.id, grace_millis: old(self)@.idle.grace }
            } else {
                ReleaseAction::Close(guard@.tab)
            },
            final(self)@.wf(),
    {
        proof {
            use_type_invariant(&*self);
        }
        let TabGuard { tab, tab_id } = guard;
        let mut gate = self.gate;
        if gate.in_use() == 0 {
            return ReleaseAction::Close(tab);
        }
        gate.release();
        self.gate = gate;
        let mut idle = self.take_idle();
        let refused = idle.offer(tab_id, tab, now);
        let grace_millis = idle.grace();
        self.idle_tabs = idle;
        match refused {
            None => ReleaseAction::Cached { id: tab_id, grace_millis },
            Some(tab) => ReleaseAction::Close(tab),
        }
    }

    /// The expiry timer of `id` fired at time `now`. A tab that is still
    /// cached from the offer that set the timer leaves the cache and is
    /// handed out to be closed; otherwise nothing happens.
    pub fn expire_idle(&mut self, id: u128, now: u64) -> (closed: Option<T>)
        ensures
            final(self)@ == old(self)@.expire(id, now),
            closed == if old(self)@.idle.expires(id, now) {
                Some(old(self)@.idle.entries[crate::idle::index_of(old(self)@.idle.entries, id)].tab)
            } else {
                None
            },
            final(self)@.wf(),
    {
        proof {
            use_type_invariant(&*self);
        }
        let mut idle = self.take_idle();
        let closed = idle.expire(id, now);
        self.idle_tabs = idle;
        closed
    }

    /// Begins the scrape of `url` on a leased tab. The overall time budget of
    /// the scrape runs from the moment the tab was leased.
    pub fn scrape_page(&self, lease: &TabGuard<T>, url: &str, output_format: OutputFormat) -> (begun: (
        ScrapeJob,
        ScrapeAction,
    ))
        ensures
            begun.0@ == (JobModel {
                url: url@,
                output_format,
                timeout_secs: BROWSER_TIMEOUT_SECS,
                phase: ScrapePhase::Navigate,
            }),
            begun.1@ == ActionModel::Navigate(url@),
    {
        ScrapeJob::start(url, output_format)
    }

    /// A snapshot of the pool: capacity, free slots, cached tabs, and slots
    /// in use.
    pub fn stats(&self) -> (stats: BrowserStats)
        ensures
            stats.max_concurrent == self@.gate.capacity,
            stats.available_slots == self@.gate.available,
            stats.idle_tabs == self@.idle.len(),
            stats.active_tabs == self@.gate.capacity - self@.gate.available,
            stats.idle_tabs + stats.active_tabs <= stats.max_concurrent,
            self@.wf(),
    {
        proof {
            use_type_invariant(self);
        }
        BrowserStats {
            max_concurrent: self.gate.capacity(),
            available_slots: self.gate.available(),
            idle_tabs: self.idle_tabs.len(),
            active_tabs: self.gate.in_use(),
        }
    }
}

} // verus!
