//! The capture session: a state machine that is started, observes, and is
//! stopped, and a ledger of the hashes it has already emitted.
//!
//! The session decides; it performs no I/O. Whoever drives it connects to the
//! browser, runs the scripts, and reports back how each of these ended.

use std::collections::HashSet;
use vstd::prelude::*;
use vstd::std_specs::hash::*;

verus! {

broadcast use vstd::std_specs::hash::group_hash_axioms;

/// The hashes of the texts that a session has emitted.
pub struct DedupLedger {
    seen: HashSet<u64>,
}

impl View for DedupLedger {
    type V = Set<u64>;

    closed spec fn view(&self) -> Set<u64> {
        self.seen@
    }
}

impl DedupLedger {
    /// An empty ledger.
    pub fn new() -> (ledger: Self)
        ensures
            ledger@ == Set::<u64>::empty(),
    {
        DedupLedger { seen: HashSet::new() }
    }

    /// Whether the hash was recorded before.
    pub fn contains(&self, hash: u64) -> (known: bool)
        ensures
            known == self@.contains(hash),
    {
        self.seen.contains(&hash)
    }

    /// Checks and records in one step: records the hash, and says whether it
    /// was new.
    pub fn record(&mut self, hash: u64) -> (fresh: bool)
        ensures
            final(self)@ == old(self)@.insert(hash),
            fresh == !old(self)@.contains(hash),
    {
        self.seen.insert(hash)
    }

    /// Forgets every hash.
    pub fn clear(&mut self)
        ensures
            final(self)@ == Set::<u64>::empty(),
    {
        self.seen.clear();
    }

    /// Number of hashes recorded.
    pub fn len(&self) -> (count: usize)
        ensures
            count == self@.len(),
    {
        self.seen.len()
    }
}

/// Where a capture session stands.
#[derive(Debug, Clone, Copy, PartialEq, Eq, Structural)]
pub enum CaptureState {
    /// Nothing is observed.
    Stopped,
    /// A start was asked for; the connection to the browser is being made.
    Starting,
    /// Events are processed.
    Active,
    /// A stop was asked for while an extraction was under way; the session
    /// waits for it to come back.
    Stopping,
}

/// Why the browser's debugging endpoint could not be used.
#[derive(Debug, PartialEq, Eq)]
pub enum ConnectionError {
    /// Nothing listens on the debugging port.
    Unreachable(String),
    /// Something listens, but does not speak the debugging protocol.
    NegotiationFailed(String),
    /// No answer came in time.
    TimedOut,
}

/// Why a script brought nothing back from a tab.
#[derive(Debug, PartialEq, Eq)]
pub enum ExecutionError {
    /// The tab was closed after it was chosen.
    TabVanished,
    /// The script raised an exception in the page.
    ScriptFailed(String),
    /// The connection to the browser broke during the call.
    ConnectionDropped(String),
    /// No answer came in time.
    TimedOut,
}

/// What can be seen of a session from outside.
#[derive(Debug, Clone, Copy, PartialEq, Eq, Structural)]
pub struct MonitoringStatus {
    /// Whether events are processed.
    pub is_monitoring: bool,
    /// Number of tabs that were open when the session became active.
    pub tabs_monitored: usize,
    /// Time between two polling passes, in milliseconds.
    pub interval_ms: u64,
}

/// The mathematical content of a session.
pub struct SessionModel {
    pub state: CaptureState,
    pub ledger: Set<u64>,
    pub interval_ms: u64,
    pub tabs_monitored: usize,
    pub in_flight: bool,
}

/// The session at rest: stopped, with nothing remembered.
pub open spec fn at_rest() -> SessionModel {
    SessionModel {
        state: CaptureState::Stopped,
        ledger: Set::empty(),
        interval_ms: 0,
        tabs_monitored: 0,
        in_flight: false,
    }
}

/// Validity of a session: only an active or stopping session has an
/// extraction under way, a stopping one always has, a session that is
/// stopped or starting remembers nothing, and only an active one counts tabs.
/// A stopping session shows the snapshot of one at rest.
pub open spec fn session_wf(s: SessionModel) -> bool {
    &&& s.ledger.finite()
    &&& s.state is Stopped ==> s == at_rest()
    &&& s.state is Starting ==> s.ledger == Set::<u64>::empty() && !s.in_flight
        && s.tabs_monitored == 0
    &&& s.state is Stopping ==> s.in_flight && s.tabs_monitored == 0 && s.interval_ms == 0
}

/// A start is asked for: a stopped session begins to connect, any other
/// stays as it is.
pub open spec fn after_start(s: SessionModel, interval_ms: u64) -> SessionModel {
    if s.state is Stopped {
        SessionModel { state: CaptureState::Starting, interval_ms, ..at_rest() }
    } else {
        s
    }
}

/// The connection attempt has ended: a starting session becomes active with
/// an empty ledger where the browser answered, and goes back to rest where
/// it did not. Any other session stays as it is.
pub open spec fn after_connect(s: SessionModel, tabs: Option<usize>) -> SessionModel {
    if s.state is Starting {
        match tabs {
            Some(count) => SessionModel {
                state: CaptureState::Active,
                ledger: Set::empty(),
                interval_ms: s.interval_ms,
                tabs_monitored: count,
                in_flight: false,
            },
            None => at_rest(),
        }
    } else {
        s
    }
}

/// The number of open tabs that a connection attempt found, if it succeeded.
pub open spec fn tabs_in(outcome: Result<usize, ConnectionError>) -> Option<usize> {
    match outcome {
        Ok(count) => Some(count),
        Err(_) => None,
    }
}

/// Whether the session may send a script to a tab now.
pub open spec fn may_dispatch(s: SessionModel) -> bool {
    s.state is Active && !s.in_flight
}

/// A script is sent to a tab, where the session may do so.
pub open spec fn after_dispatch(s: SessionModel) -> SessionModel {
    if may_dispatch(s) {
        SessionModel { in_flight: true, ..s }
    } else {
        s
    }
}

/// Whether the extraction that comes back leads to a message: the session is
/// active, awaits one, the extraction gave a text, and the text's hash is new.
pub open spec fn emits(s: SessionModel, hash: Option<u64>) -> bool {
    &&& s.state is Active
    &&& s.in_flight
    &&& hash matches Some(h)
    &&& !s.ledger.contains(h)
}

/// The extraction under way has come back, with the hash of its text or with
/// nothing where it failed. A stopping session comes to rest and forgets its
/// ledger. An active one goes on and records the hash.
pub open spec fn after_extraction(s: SessionModel, hash: Option<u64>) -> SessionModel {
    if !s.in_flight {
        s
    } else if s.state is Stopping {
        at_rest()
    } else if s.state is Active {
        SessionModel {
            in_flight: false,
            ledger: match hash {
                Some(h) => s.ledger.insert(h),
                None => s.ledger,
            },
            ..s
        }
    } else {
        s
    }
}

/// A stop is asked for: the session comes to rest at once, unless an
/// extraction is under way. It then waits for that one, and keeps only its
/// ledger until then: the tab count and the interval are given up at once.
pub open spec fn after_stop(s: SessionModel) -> SessionModel {
    match s.state {
        CaptureState::Stopped => s,
        CaptureState::Starting => at_rest(),
        CaptureState::Active => if s.in_flight {
            SessionModel {
                state: CaptureState::Stopping,
                tabs_monitored: 0,
                interval_ms: 0,
                ..s
            }
        } else {
            at_rest()
        },
        CaptureState::Stopping => s,
    }
}

/// The snapshot of a session that does not monitor: no tabs, no interval.
pub open spec fn idle_status() -> MonitoringStatus {
    MonitoringStatus { is_monitoring: false, tabs_monitored: 0, interval_ms: 0 }
}

/// The snapshot of a session.
pub open spec fn status_of(s: SessionModel) -> MonitoringStatus {
    MonitoringStatus {
        is_monitoring: s.state is Active,
        tabs_monitored: s.tabs_monitored,
        interval_ms: s.interval_ms,
    }
}

/// A capture session.
pub struct CaptureSession {
    state: CaptureState,
    ledger: DedupLedger,
    interval_ms: u64,
    tabs_monitored: usize,
    in_flight: bool,
}

impl View for CaptureSession {
    type V = SessionModel;

    closed spec fn view(&self) -> SessionModel {
        SessionModel {
            state: self.state,
            ledger: self.ledger@,
            interval_ms: self.interval_ms,
            tabs_monitored: self.tabs_monitored,
            in_flight: self.in_flight,
        }
    }
}

impl CaptureSession {
    /// Validity of the session.
    pub open spec fn wf(&self) -> bool {
        session_wf(self@)
    }

    /// A session at rest.
    pub fn new() -> (session: Self)
        ensures
            session.wf(),
            session@ == at_rest(),
    {
        CaptureSession {
            state: CaptureState::Stopped,
            ledger: DedupLedger::new(),
            interval_ms: 0,
            tabs_monitored: 0,
            in_flight: false,
        }
    }

    /// Puts the session to rest.
    fn rest(&mut self)
        ensures
            final(self)@ == at_rest(),
    {
        self.state = CaptureState::Stopped;
        self.ledger.clear();
        self.interval_ms = 0;
        self.tabs_monitored = 0;
        self.in_flight = false;
    }

    /// Where the session stands.
    pub fn state(&self) -> (state: CaptureState)
        ensures
            state == self@.state,
    {
        self.state
    }

    /// Whether an extraction is under way.
    pub fn awaits_extraction(&self) -> (waiting: bool)
        ensures
            waiting == self@.in_flight,
    {
        self.in_flight
    }

    /// Whether the hash was emitted in this session.
    pub fn has_emitted(&self, hash: u64) -> (known: bool)
        ensures
            known == self@.ledger.contains(hash),
    {
        self.ledger.contains(hash)
    }

    /// The snapshot of the session.
    pub fn status(&self) -> (status: MonitoringStatus)
        ensures
            status == status_of(self@),
    {
        MonitoringStatus {
            is_monitoring: self.state == CaptureState::Active,
            tabs_monitored: self.tabs_monitored,
            interval_ms: self.interval_ms,
        }
    }

    /// Asks for a start. Says whether the caller is now to connect to the
    /// browser: it is where the session was stopped.
    pub fn start_monitoring(&mut self, interval_ms: u64) -> (connect: bool)
        requires
            old(self).wf(),
        ensures
            final(self).wf(),
            final(self)@ == after_start(old(self)@, interval_ms),
            connect == (old(self)@.state is Stopped),
    {
        if self.state == CaptureState::Stopped {
            self.state = CaptureState::Starting;
            self.interval_ms = interval_ms;
            true
        } else {
            false
        }
    }

    /// Reports how the connection attempt ended: with the number of open
    /// tabs, or with the reason why the browser could not be reached.
    /// A starting session becomes active, or goes back to rest and hands the
    /// reason on, so that the user learns that the browser is not listening.
    /// In any other state the report changes nothing and the snapshot is
    /// returned.
    pub fn connection_ended(&mut self, outcome: Result<usize, ConnectionError>) -> (surfaced: Result<
        MonitoringStatus,
        ConnectionError,
    >)
        requires
            old(self).wf(),
        ensures
            final(self).wf(),
            final(self)@ == after_connect(old(self)@, tabs_in(outcome)),
            match surfaced {
                Ok(status) => {
                    &&& status == status_of(final(self)@)
                    &&& !(old(self)@.state is Starting && outcome is Err)
                },
                Err(reason) => old(self)@.state is Starting && outcome == Err::<
                    usize,
                    ConnectionError,
                >(reason),
            },
    {
        if self.state == CaptureState::Starting {
            match outcome {
                Ok(count) => {
                    self.state = CaptureState::Active;
                    self.tabs_monitored = count;
                },
                Err(reason) => {
                    self.rest();
                    return Err(reason);
                },
            }
        }
        Ok(self.status())
    }

    /// Asks whether a script may be sent to a tab now, and notes that one is
    /// under way where it may.
    pub fn begin_extraction(&mut self) -> (go: bool)
        requires
            old(self).wf(),
        ensures
            final(self).wf(),
            final(self)@ == after_dispatch(old(self)@),
            go == may_dispatch(old(self)@),
    {
        if self.state == CaptureState::Active && !self.in_flight {
            self.in_flight = true;
            true
        } else {
            false
        }
    }

    /// Reports that the extraction under way has come back, with the hash of
    /// its text, or with nothing where it failed. Says whether a message is
    /// to be emitted for it.
    pub fn end_extraction(&mut self, hash: Option<u64>) -> (emit: bool)
        requires
            old(self).wf(),
        ensures
            final(self).wf(),
            final(self)@ == after_extraction(old(self)@, hash),
            emit == emits(old(self)@, hash),
    {
        if !self.in_flight {
            return false;
        }
        match self.state {
            CaptureState::Stopping => {
                self.rest();
                false
            },
            CaptureState::Active => {
                self.in_flight = false;
                match hash {
                    Some(h) => self.ledger.record(h),
                    None => false,
                }
            },
            _ => false,
        }
    }

    /// Asks for a stop. Returns the snapshot after it, which is the same
    /// from every state: not monitoring, no tabs, no interval.
    pub fn stop_monitoring(&mut self) -> (status: MonitoringStatus)
        requires
            old(self).wf(),
        ensures
            final(self).wf(),
            final(self)@ == after_stop(old(self)@),
            status == status_of(final(self)@),
            status == idle_status(),
    {
        match self.state {
            CaptureState::Stopped => {},
            CaptureState::Starting => {
                self.rest();
            },
            CaptureState::Active => {
                if self.in_flight {
                    self.state = CaptureState::Stopping;
                    self.tabs_monitored = 0;
                    self.interval_ms = 0;
                } else {
                    self.rest();
                }
            },
            CaptureState::Stopping => {},
        }
        self.status()
    }
}

/// Every transition leads from a valid session to a valid session.
pub proof fn lemma_transitions_keep_validity(
    s: SessionModel,
    interval_ms: u64,
    tabs: Option<usize>,
    hash: Option<u64>,
)
    requires
        session_wf(s),
    ensures
        session_wf(after_start(s, interval_ms)),
        session_wf(after_connect(s, tabs)),
        session_wf(after_dispatch(s)),
        session_wf(after_extraction(s, hash)),
        session_wf(after_stop(s)),
{
}

/// The same hash, observed twice in one active session, leads to one
/// message: the first observation emits exactly if the hash is new, the
/// second never does, and leaves the ledger as the first made it.
pub proof fn lemma_dedup_idempotent(s: SessionModel, hash: u64)
    requires
        session_wf(s),
        may_dispatch(s),
    ensures
        ({
            let first = after_extraction(after_dispatch(s), Some(hash));
            let second = after_extraction(after_dispatch(first), Some(hash));
            &&& emits(after_dispatch(s), Some(hash)) == !s.ledger.contains(hash)
            &&& may_dispatch(first)
            &&& !emits(after_dispatch(first), Some(hash))
            &&& second == first
            &&& first.ledger == s.ledger.insert(hash)
        }),
{
    let first = after_extraction(after_dispatch(s), Some(hash));
    let second = after_extraction(after_dispatch(first), Some(hash));
    assert(first.ledger.insert(hash) =~= first.ledger);
}

/// While a session stays active, its ledger only grows: what was emitted
/// once is not emitted again, whatever comes back in between.
pub proof fn lemma_ledger_grows(s: SessionModel, hash: Option<u64>, earlier: u64)
    requires
        s.state is Active,
        s.ledger.contains(earlier),
    ensures
        after_extraction(s, hash).state is Active,
        after_extraction(s, hash).ledger.contains(earlier),
        after_dispatch(s).ledger.contains(earlier),
        !emits(after_extraction(s, hash), Some(earlier)),
{
}

/// A stop that is asked for while an extraction is under way ends in the
/// session at rest, whatever the extraction brings back: the session waits
/// as `Stopping`, shows itself as not monitoring, with no tabs and no
/// interval, emits nothing for what comes back, and is then `Stopped` with
/// an empty ledger.
pub proof fn lemma_stop_during_extraction(s: SessionModel, hash: Option<u64>)
    requires
        session_wf(s),
        s.state is Active,
        s.in_flight,
    ensures
        after_stop(s).state is Stopping,
        status_of(after_stop(s)) == idle_status(),
        !emits(after_stop(s), hash),
        after_extraction(after_stop(s), hash) == at_rest(),
        !status_of(after_extraction(after_stop(s), hash)).is_monitoring,
{
}

/// A stop always ends in the session at rest, at once or, where an
/// extraction is under way, as soon as it has come back.
pub proof fn lemma_stop_reaches_rest(s: SessionModel, hash: Option<u64>)
    requires
        session_wf(s),
    ensures
        !status_of(after_stop(s)).is_monitoring,
        after_stop(s) == at_rest() || after_extraction(after_stop(s), hash) == at_rest(),
{
}

/// A stop shows the same snapshot from every state, an extraction under way
/// or not: not monitoring, no tabs, no interval. A second stop changes
/// nothing and shows that snapshot again, and so does the session once the
/// extraction has come back.
pub proof fn lemma_stop_shows_idle(s: SessionModel, hash: Option<u64>)
    requires
        session_wf(s),
    ensures
        status_of(after_stop(s)) == idle_status(),
        after_stop(after_stop(s)) == after_stop(s),
        status_of(after_stop(after_stop(s))) == idle_status(),
        status_of(after_extraction(after_stop(s), hash)) == idle_status(),
{
}

} // verus!
