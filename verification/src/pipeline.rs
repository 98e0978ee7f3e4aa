//! One capture cycle, from an arrival event to a message: the application is
//! validated, a tab is chosen, and what the tab's script brings back is
//! hashed, checked against the session's ledger, and emitted if it is new.

use vstd::prelude::*;
use vstd::string::*;
use crate::capture::{
    after_dispatch, after_extraction, emits, may_dispatch, CaptureSession, CaptureState,
    ExecutionError,
};
use crate::cdp::{
    content_hash, domain_at, get_selector_for_domain, hash_string, lemma_selector_domains_unique,
    selector_in, selector_table, TabInfo, TabModel,
};
use crate::context_mapper::{
    find_in, ContextTask, ContextValidator, RejectionReason, TaskModel,
};
use crate::text::{
    contains_ignoring_case, contains_one_of, contains_text, lowercase_all, lowered, text_of,
    texts_of, to_lowercase,
};
use crate::vision::select_script;

verus! {

/// An arrival: some application has shown something.
#[derive(Debug)]
pub struct CaptureEvent {
    /// Name under which the application announced itself.
    pub source_app: String,
    /// Who wrote, where the announcement says so.
    pub sender: Option<String>,
    /// The text of the announcement.
    pub raw_text: String,
    /// When the arrival was observed.
    pub observed_at: String,
}

/// A message that was captured from a tab.
#[derive(Debug)]
pub struct CDPMessage {
    /// Identifier of the tab that was read.
    pub tab_id: String,
    /// Title of that tab.
    pub tab_title: String,
    /// Domain of that tab.
    pub domain: String,
    /// Who wrote; empty where the arrival did not say.
    pub sender: String,
    /// The text that was read.
    pub message: String,
    /// When the arrival was observed.
    pub timestamp: String,
    /// Short name of the site, or the application's name for a site that
    /// the selector catalogue does not know.
    pub source: String,
    /// Hash of `message`; the key by which repetitions are dropped.
    pub content_hash: u64,
}

/// The text is found, case ignored, to contain one of the candidates.
pub open spec fn contains_any(text: Seq<char>, candidates: Seq<Seq<char>>) -> bool {
    exists|k: int| 0 <= k < candidates.len() && contains_ignoring_case(text, #[trigger] candidates[k])
}

/// A tab is one of an application's where its title contains one of the
/// profile's search targets, or its domain one of the profile's URL
/// patterns, case ignored.
pub open spec fn tab_fits(tab: TabModel, profile: TaskModel) -> bool {
    contains_any(tab.title, profile.search_targets) || contains_any(tab.domain, profile.url_patterns)
}

/// Position `i` holds the first tab that is one of the application's.
pub open spec fn first_tab_at(tabs: Seq<TabInfo>, profile: TaskModel, i: int) -> bool {
    &&& 0 <= i < tabs.len()
    &&& tab_fits(tabs[i]@, profile)
    &&& forall|j: int| 0 <= j < i ==> !tab_fits(#[trigger] tabs[j]@, profile)
}

/// Whether the text contains one of the candidates, case ignored.
pub fn contains_any_of(text: &str, candidates: &Vec<String>) -> (found: bool)
    ensures
        found == contains_any(text@, texts_of(candidates@)),
{
    let text_lower = to_lowercase(text);
    let candidates_lower = lowercase_all(candidates);
    let found = contains_one_of(text_lower.as_str(), &candidates_lower);
    proof {
        let plain = texts_of(candidates@);
        let lower = texts_of(candidates_lower@);
        assert(lower == lowered(plain));
        if found {
            let k = choose|k: int| 0 <= k < lower.len() && contains_text(text_lower@, #[trigger] lower[k]);
            assert(contains_ignoring_case(text@, plain[k]));
        }
        if contains_any(text@, plain) {
            let k = choose|k: int|
                0 <= k < plain.len() && contains_ignoring_case(text@, #[trigger] plain[k]);
            assert(contains_text(text_lower@, lower[k]));
        }
    }
    found
}

/// Chooses the tab to read for an application: the first one, in the order
/// the browser reports, that is one of the application's.
pub fn choose_tab(tabs: &Vec<TabInfo>, profile: &ContextTask) -> (chosen: Option<usize>)
    ensures
        match chosen {
            Some(i) => first_tab_at(tabs@, profile@, i as int),
            None => forall|i: int| 0 <= i < tabs@.len() ==> !tab_fits(#[trigger] tabs@[i]@, profile@),
        },
{
    let mut i: usize = 0;
    while i < tabs.len()
        invariant
            i <= tabs.len(),
            forall|j: int| 0 <= j < i ==> !tab_fits(#[trigger] tabs@[j]@, profile@),
        decreases tabs.len() - i,
    {
        if contains_any_of(tabs[i].title.as_str(), &profile.search_targets) || contains_any_of(
            tabs[i].domain.as_str(),
            &profile.url_patterns,
        ) {
            return Some(i);
        }
        i = i + 1;
    }
    None
}

/// Why a capture cycle ended without a message. None of these is a failure
/// of the session: the cycle is dropped, and the next one starts afresh.
#[derive(Debug)]
pub enum DropReason {
    /// The session is not active.
    NotMonitoring,
    /// The application is unknown or switched off.
    Rejected(RejectionReason),
    /// No open tab is one of the application's.
    NoTab,
    /// Another extraction is under way.
    Busy,
    /// An extraction came back that the session did not await.
    NotDispatched,
    /// The session was stopped while the extraction was under way.
    Stopped,
    /// The script brought nothing back.
    ExecutionFailed(ExecutionError),
    /// An equal text was emitted before in this session.
    Duplicate,
}

/// What is to be done next in a cycle whose tab was found.
#[derive(Debug)]
pub struct CyclePlan {
    /// Position, among the tabs given, of the tab to read.
    pub tab_index: usize,
    /// Script to run in that tab.
    pub script: String,
}

/// First step of a cycle. An arrival is processed where the session is
/// active and validation gives a profile for the application. Otherwise it
/// is dropped: as `NotMonitoring` where the session is not active, else with
/// the validator's reason.
pub fn route_event(session: &CaptureSession, validator: &ContextValidator, source_app: &str) -> (routed:
    Result<ContextTask, DropReason>)
    ensures
        match routed {
            Ok(task) => {
                &&& session@.state is Active
                &&& find_in(validator@, source_app@) == Some(task@)
                &&& task@.enabled
            },
            Err(DropReason::NotMonitoring) => !(session@.state is Active),
            Err(DropReason::Rejected(RejectionReason::Disabled(name))) => {
                &&& session@.state is Active
                &&& name@ == source_app@
                &&& find_in(validator@, source_app@) matches Some(t)
                &&& !t.enabled
            },
            Err(DropReason::Rejected(RejectionReason::Unmapped(name))) => {
                &&& session@.state is Active
                &&& name@ == source_app@
                &&& find_in(validator@, source_app@) is None
            },
            Err(_) => false,
        },
{
    match session.state() {
        CaptureState::Active => {
            match validator.validate_and_get_context(source_app) {
                Ok(task) => Ok(task),
                Err(reason) => Err(DropReason::Rejected(reason)),
            }
        },
        _ => Err(DropReason::NotMonitoring),
    }
}

/// Some tab is one of the application's.
pub open spec fn has_tab(tabs: Seq<TabInfo>, profile: TaskModel) -> bool {
    exists|i: int| 0 <= i < tabs.len() && tab_fits(#[trigger] tabs[i]@, profile)
}

/// Second step of a cycle, once the browser has listed its tabs. The tab to
/// read is chosen and the script for it picked: the profile's own. The
/// session notes that an extraction is under way. The cycle is dropped, and
/// the session left as it is, where no tab is the application's (`NoTab`),
/// where the session is no longer active (`NotMonitoring`), or where another
/// extraction is under way (`Busy`).
pub fn plan_cycle(session: &mut CaptureSession, profile: &ContextTask, tabs: &Vec<TabInfo>) -> (planned:
    Result<CyclePlan, DropReason>)
    requires
        old(session).wf(),
    ensures
        final(session).wf(),
        match planned {
            Ok(plan) => {
                &&& may_dispatch(old(session)@)
                &&& final(session)@ == after_dispatch(old(session)@)
                &&& first_tab_at(tabs@, profile@, plan.tab_index as int)
                &&& plan.script@ == profile@.css_selector
            },
            Err(DropReason::NoTab) => {
                &&& !has_tab(tabs@, profile@)
                &&& final(session)@ == old(session)@
            },
            Err(DropReason::NotMonitoring) => {
                &&& has_tab(tabs@, profile@)
                &&& !(old(session)@.state is Active)
                &&& final(session)@ == old(session)@
            },
            Err(DropReason::Busy) => {
                &&& has_tab(tabs@, profile@)
                &&& old(session)@.state is Active
                &&& old(session)@.in_flight
                &&& final(session)@ == old(session)@
            },
            Err(_) => false,
        },
{
    match choose_tab(tabs, profile) {
        None => Err(DropReason::NoTab),
        Some(index) => {
            if session.begin_extraction() {
                Ok(CyclePlan { tab_index: index, script: select_script(Some(profile), None) })
            } else {
                match session.state() {
                    CaptureState::Active => Err(DropReason::Busy),
                    _ => Err(DropReason::NotMonitoring),
                }
            }
        },
    }
}

/// Under which name messages of a tab are reported: the short name that the
/// selector catalogue has for the tab's domain, or the application's name.
pub open spec fn source_of(domain: Seq<char>, app_name: Seq<char>) -> Seq<char> {
    match selector_in(selector_table(), domain) {
        Some(entry) => entry.source_name,
        None => app_name,
    }
}

/// Messages of a tab on a domain of the catalogue are reported under the
/// short name of its entry there, whatever the application is called.
pub proof fn lemma_source_of_catalogue_domain(i: int, app_name: Seq<char>)
    requires
        0 <= i < selector_table().len(),
    ensures
        source_of(selector_table()[i].domain, app_name) == selector_table()[i].source_name,
{
    let table = selector_table();
    let domain = table[i].domain;
    lemma_selector_domains_unique();
    assert(domain_at(table, domain, i));
    let k = choose|k: int| domain_at(table, domain, k);
    assert(domain_at(table, domain, k));
    assert(k == i);
}

/// Under which name messages of a tab are reported.
pub fn source_name(domain: &str, app_name: &str) -> (source: String)
    ensures
        source@ == source_of(domain@, app_name@),
{
    match get_selector_for_domain(domain) {
        Some(entry) => entry.source_name,
        None => String::from_str(app_name),
    }
}

/// The hash by which an extraction is known to the session: that of its
/// text, or none where it failed.
pub open spec fn outcome_hash(outcome: Result<String, ExecutionError>) -> Option<u64> {
    match outcome {
        Ok(text) => Some(content_hash(text@)),
        Err(_) => None,
    }
}

/// The sender of a message: the one the arrival names, else the empty text.
pub open spec fn sender_of(sender: Option<Seq<char>>) -> Seq<char> {
    match sender {
        Some(s) => s,
        None => Seq::empty(),
    }
}

/// Last step of a cycle: the extraction has come back, and the session
/// learns of it. The message is returned where the session was active and
/// awaited the extraction, the extraction gave a text, and no equal text
/// was emitted in this session before. In every other case the cycle is
/// dropped with its reason, and the session goes on as `after_extraction`
/// says: one failed tab never stops it.
pub fn complete_cycle(
    session: &mut CaptureSession,
    event: &CaptureEvent,
    profile: &ContextTask,
    tab: &TabInfo,
    outcome: Result<String, ExecutionError>,
) -> (emitted: Result<CDPMessage, DropReason>)
    requires
        old(session).wf(),
    ensures
        final(session).wf(),
        final(session)@ == after_extraction(old(session)@, outcome_hash(outcome)),
        emitted is Ok <==> emits(old(session)@, outcome_hash(outcome)),
        match emitted {
            Ok(m) => {
                &&& outcome matches Ok(text)
                &&& m.message@ == text@
                &&& m.content_hash == content_hash(text@)
                &&& m.tab_id@ == tab.id@
                &&& m.tab_title@ == tab.title@
                &&& m.domain@ == tab.domain@
                &&& m.sender@ == sender_of(text_of(event.sender))
                &&& m.timestamp@ == event.observed_at@
                &&& m.source@ == source_of(tab.domain@, profile.app_name@)
            },
            Err(DropReason::NotDispatched) => !old(session)@.in_flight,
            Err(DropReason::Stopped) => old(session)@.in_flight && old(session)@.state is Stopping,
            Err(DropReason::ExecutionFailed(reason)) => {
                &&& old(session)@.in_flight
                &&& old(session)@.state is Active
                &&& outcome == Err::<String, ExecutionError>(reason)
            },
            Err(DropReason::Duplicate) => {
                &&& old(session)@.in_flight
                &&& old(session)@.state is Active
                &&& outcome matches Ok(text)
                &&& old(session)@.ledger.contains(content_hash(text@))
            },
            Err(_) => false,
        },
{
    let waiting = session.awaits_extraction();
    let state = session.state();
    match outcome {
        Ok(text) => {
            let hash = hash_string(text.as_str());
            if session.end_extraction(Some(hash)) {
                Ok(
                    CDPMessage {
                        tab_id: tab.id.clone(),
                        tab_title: tab.title.clone(),
                        domain: tab.domain.clone(),
                        sender: match &event.sender {
                            Some(s) => s.clone(),
                            None => String::new(),
                        },
                        message: text,
                        timestamp: event.observed_at.clone(),
                        source: source_name(tab.domain.as_str(), profile.app_name.as_str()),
                        content_hash: hash,
                    },
                )
            } else if !waiting {
                Err(DropReason::NotDispatched)
            } else {
                match state {
                    CaptureState::Active => Err(DropReason::Duplicate),
                    _ => Err(DropReason::Stopped),
                }
            }
        },
        Err(reason) => {
            let emit = session.end_extraction(None);
            if !waiting {
                Err(DropReason::NotDispatched)
            } else {
                match state {
                    CaptureState::Active => Err(DropReason::ExecutionFailed(reason)),
                    _ => Err(DropReason::Stopped),
                }
            }
        },
    }
}

} // verus!
