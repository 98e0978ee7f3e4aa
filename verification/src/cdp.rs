//! The browser side: the catalogue of per-domain selectors, the description
//! of an open tab, and the hash by which extracted text is told apart.

use std::collections::hash_map::DefaultHasher;
use std::hash::Hasher;
use vstd::prelude::*;
use vstd::std_specs::hash::*;
use vstd::string::*;
use vstd::utf8::*;
pub use crate::capture::MonitoringStatus;
pub use crate::pipeline::CDPMessage;
use crate::text::{
    contains_ignoring_case, contains_text, first_containing, lemma_filter_step, lowercase_of,
    text_of, texts_of, to_lowercase,
};
use crate::vision::{is_page, target_models, TargetInfo, TargetModel};

verus! {

/// How the messages of one site are read out of its page.
#[derive(Debug)]
pub struct SelectorConfig {
    /// Host name of the site; the catalogue's key.
    pub domain: String,
    /// CSS selector of the message bodies.
    pub message_selector: String,
    /// CSS selector of the senders' names, where the site shows them.
    pub sender_selector: Option<String>,
    /// Short name under which messages of the site are reported.
    pub source_name: String,
}

/// The mathematical content of a `SelectorConfig`.
pub struct SelectorModel {
    pub domain: Seq<char>,
    pub message_selector: Seq<char>,
    pub sender_selector: Option<Seq<char>>,
    pub source_name: Seq<char>,
}

impl View for SelectorConfig {
    type V = SelectorModel;

    open spec fn view(&self) -> SelectorModel {
        SelectorModel {
            domain: self.domain@,
            message_selector: self.message_selector@,
            sender_selector: text_of(self.sender_selector),
            source_name: self.source_name@,
        }
    }
}

impl Clone for SelectorConfig {
    fn clone(&self) -> (copy: Self)
        ensures
            copy@ == self@,
    {
        SelectorConfig {
            domain: self.domain.clone(),
            message_selector: self.message_selector.clone(),
            sender_selector: match &self.sender_selector {
                Some(s) => Some(s.clone()),
                None => None,
            },
            source_name: self.source_name.clone(),
        }
    }
}

/// The models of a sequence of selector entries.
pub open spec fn selector_models(configs: Seq<SelectorConfig>) -> Seq<SelectorModel> {
    Seq::new(configs.len(), |i: int| configs[i]@)
}

/// The model of an optional selector entry.
pub open spec fn selector_model(config: Option<SelectorConfig>) -> Option<SelectorModel> {
    match config {
        Some(c) => Some(c@),
        None => None,
    }
}

/// A catalogue entry for a site that shows who sent a message.
pub open spec fn selector(
    domain: Seq<char>,
    message_selector: Seq<char>,
    sender_selector: Seq<char>,
    source_name: Seq<char>,
) -> SelectorModel {
    SelectorModel {
        domain,
        message_selector,
        sender_selector: Some(sender_selector),
        source_name,
    }
}

/// The built-in catalogue.
pub open spec fn selector_table() -> Seq<SelectorModel> {
    seq![
        selector(
            "meet.google.com"@,
            "[data-is-own-message='false'] span[data-message-text]"@,
            "[data-sender-nickname]"@,
            "google-meet"@,
        ),
        selector(
            "teams.microsoft.com"@,
            "[data-testid='message-content']"@,
            "[data-testid='message-sender']"@,
            "teams"@,
        ),
        selector(
            "discord.com"@,
            "[data-testid='message-content']"@,
            "[data-testid='username']"@,
            "discord"@,
        ),
        selector(
            "web.whatsapp.com"@,
            "[data-testid='msg-container'] [class*='message']"@,
            "[data-testid='msg-sender']"@,
            "whatsapp"@,
        ),
        selector("web.telegram.org"@, ".message-content"@, ".message-sender"@, "telegram"@),
    ]
}

/// The entry at position `i` is the one for `domain`.
pub open spec fn domain_at(table: Seq<SelectorModel>, domain: Seq<char>, i: int) -> bool {
    0 <= i < table.len() && table[i].domain == domain
}

/// The catalogue has an entry for `domain`.
pub open spec fn has_domain(table: Seq<SelectorModel>, domain: Seq<char>) -> bool {
    exists|i: int| domain_at(table, domain, i)
}

/// No two entries are for the same domain.
pub open spec fn domains_unique(table: Seq<SelectorModel>) -> bool {
    forall|i: int, j: int|
        0 <= i < table.len() && 0 <= j < table.len() && i != j ==> #[trigger] table[i].domain
            != #[trigger] table[j].domain
}

/// The catalogue's entry for `domain`.
pub open spec fn selector_in(table: Seq<SelectorModel>, domain: Seq<char>) -> Option<
    SelectorModel,
> {
    if has_domain(table, domain) {
        Some(table[choose|i: int| domain_at(table, domain, i)])
    } else {
        None
    }
}

/// Builds a catalogue entry.
fn new_selector(domain: &str, message_selector: &str, sender_selector: &str, source_name: &str) -> (config:
    SelectorConfig)
    ensures
        config@ == selector(domain@, message_selector@, sender_selector@, source_name@),
{
    SelectorConfig {
        domain: String::from_str(domain),
        message_selector: String::from_str(message_selector),
        sender_selector: Some(String::from_str(sender_selector)),
        source_name: String::from_str(source_name),
    }
}

/// The built-in catalogue of selectors, one entry per supported site.
pub fn get_selector_configs() -> (configs: Vec<SelectorConfig>)
    ensures
        selector_models(configs@) == selector_table(),
{
    let mut configs: Vec<SelectorConfig> = Vec::new();
    configs.push(
        new_selector(
            "meet.google.com",
            "[data-is-own-message='false'] span[data-message-text]",
            "[data-sender-nickname]",
            "google-meet",
        ),
    );
    configs.push(
        new_selector(
            "teams.microsoft.com",
            "[data-testid='message-content']",
            "[data-testid='message-sender']",
            "teams",
        ),
    );
    configs.push(
        new_selector(
            "discord.com",
            "[data-testid='message-content']",
            "[data-testid='username']",
            "discord",
        ),
    );
    configs.push(
        new_selector(
            "web.whatsapp.com",
            "[data-testid='msg-container'] [class*='message']",
            "[data-testid='msg-sender']",
            "whatsapp",
        ),
    );
    configs.push(
        new_selector("web.telegram.org", ".message-content", ".message-sender", "telegram"),
    );
    configs
}

/// The built-in catalogue has one entry per domain.
pub proof fn lemma_selector_domains_unique()
    ensures
        domains_unique(selector_table()),
{
    reveal_strlit("meet.google.com");
    reveal_strlit("teams.microsoft.com");
    reveal_strlit("discord.com");
    reveal_strlit("web.whatsapp.com");
    reveal_strlit("web.telegram.org");
    let domains = seq![
        "meet.google.com"@,
        "teams.microsoft.com"@,
        "discord.com"@,
        "web.whatsapp.com"@,
        "web.telegram.org"@,
    ];
    assert("web.whatsapp.com"@[4] == 'w');
    assert("web.telegram.org"@[4] == 't');
    let table = selector_table();
    assert forall|i: int, j: int|
        0 <= i < table.len() && 0 <= j < table.len() && i != j implies #[trigger] table[i].domain
        != #[trigger] table[j].domain by {
        assert(table[i].domain == domains[i]);
        assert(table[j].domain == domains[j]);
    }
}

/// Position of the entry for `domain` in a list of entries.
fn selector_position(configs: &Vec<SelectorConfig>, domain: &str) -> (found: Option<usize>)
    ensures
        match found {
            Some(i) => domain_at(selector_models(configs@), domain@, i as int),
            None => !has_domain(selector_models(configs@), domain@),
        },
{
    let key = String::from_str(domain);
    let mut i: usize = 0;
    while i < configs.len()
        invariant
            i <= configs.len(),
            key@ == domain@,
            forall|j: int| 0 <= j < i ==> !domain_at(selector_models(configs@), domain@, j),
        decreases configs.len() - i,
    {
        if configs[i].domain == key {
            return Some(i);
        }
        i = i + 1;
    }
    None
}

/// Whether the catalogue has an entry for `domain`.
pub fn has_selector_for_domain(domain: &str) -> (known: bool)
    ensures
        known == has_domain(selector_table(), domain@),
{
    let configs = get_selector_configs();
    selector_position(&configs, domain).is_some()
}

/// The catalogue's entry for `domain`.
pub fn get_selector_for_domain(domain: &str) -> (found: Option<SelectorConfig>)
    ensures
        selector_model(found) == selector_in(selector_table(), domain@),
{
    let configs = get_selector_configs();
    match selector_position(&configs, domain) {
        Some(i) => {
            proof {
                lemma_selector_domains_unique();
                let table = selector_table();
                let k = choose|k: int| domain_at(table, domain@, k);
                assert(domain_at(table, domain@, k) && domain_at(table, domain@, i as int));
            }
            Some(configs[i].clone())
        },
        None => None,
    }
}

/// The hash of a text: the standard hasher's digest of the text's UTF-8
/// bytes followed by the end mark `0xff`, which no UTF-8 text holds.
pub open spec fn content_hash(text: Seq<char>) -> u64 {
    DefaultHasher::spec_finish(seq![encode_utf8(text), seq![0xffu8]])
}

/// Hashes a text for deduplication. Equal texts have equal hashes.
pub fn hash_string(s: &str) -> (hash: u64)
    ensures
        hash == content_hash(s@),
{
    let mut hasher = DefaultHasher::new();
    hasher.write(s.as_bytes());
    let end: [u8; 1] = [0xffu8];
    hasher.write(end.as_slice());
    assert(end@ =~= seq![0xffu8]);
    assert(hasher@ =~= seq![encode_utf8(s@), seq![0xffu8]]);
    hasher.finish()
}

/// The host that the `url` crate reads out of a URL: `Some` where the text
/// parses as a URL that has a host, `None` where it does not parse or the
/// URL has none.
pub uninterp spec fn url_host(url: Seq<char>) -> Option<Seq<char>>;

/// The domain of a URL: its host, or the empty text where it has none.
pub open spec fn domain_of(url: Seq<char>) -> Seq<char> {
    match url_host(url) {
        Some(host) => host,
        None => Seq::empty(),
    }
}

/// Calls `url::Url::parse` and, on the parsed URL, `Url::host_str`.
/// Trusted: the result is the host that the crate finds in the text, `None`
/// where parsing fails or the URL has no host.
#[verifier::external_body]
pub(crate) fn host_of(url: &str) -> (host: Option<String>)
    ensures
        text_of(host) == url_host(url@),
{
    match url::Url::parse(url) {
        Ok(parsed) => match parsed.host_str() {
            Some(host) => Some(host.to_string()),
            None => None,
        },
        Err(_) => None,
    }
}

/// The domain for a host that was or was not found: the host itself, or the
/// empty string.
pub fn domain_from_host(host: Option<String>) -> (domain: String)
    ensures
        domain@ == match host {
            Some(h) => h@,
            None => Seq::<char>::empty(),
        },
{
    match host {
        Some(h) => h,
        None => String::new(),
    }
}

/// The domain of a URL. A text that is no URL has the empty domain.
pub fn extract_domain(url: &str) -> (domain: String)
    ensures
        domain@ == domain_of(url@),
{
    domain_from_host(host_of(url))
}

/// An open browser tab.
#[derive(Debug)]
pub struct TabInfo {
    /// The browser's identifier of the tab.
    pub id: String,
    /// The tab's title.
    pub title: String,
    /// The address shown in the tab.
    pub url: String,
    /// The domain of `url`.
    pub domain: String,
    /// Whether the selector catalogue has an entry for `domain`.
    pub has_selector: bool,
}

/// The mathematical content of a `TabInfo`.
pub struct TabModel {
    pub id: Seq<char>,
    pub title: Seq<char>,
    pub url: Seq<char>,
    pub domain: Seq<char>,
    pub has_selector: bool,
}

impl View for TabInfo {
    type V = TabModel;

    open spec fn view(&self) -> TabModel {
        TabModel {
            id: self.id@,
            title: self.title@,
            url: self.url@,
            domain: self.domain@,
            has_selector: self.has_selector,
        }
    }
}

impl Clone for TabInfo {
    fn clone(&self) -> (copy: Self)
        ensures
            copy@ == self@,
    {
        TabInfo {
            id: self.id.clone(),
            title: self.title.clone(),
            url: self.url.clone(),
            domain: self.domain.clone(),
            has_selector: self.has_selector,
        }
    }
}

/// The description of the tab with the given identifier, title and address:
/// the domain and the selector flag are derived from the address.
pub open spec fn tab_for(id: Seq<char>, title: Seq<char>, url: Seq<char>) -> TabModel {
    TabModel {
        id,
        title,
        url,
        domain: domain_of(url),
        has_selector: has_domain(selector_table(), domain_of(url)),
    }
}

impl TabInfo {
    /// The derived fields agree with the address.
    pub open spec fn wf(&self) -> bool {
        self@ == tab_for(self.id@, self.title@, self.url@)
    }

    /// Describes a tab from what the browser reports of it.
    pub fn describe(id: String, title: String, url: String) -> (tab: TabInfo)
        ensures
            tab.wf(),
            tab@ == tab_for(id@, title@, url@),
    {
        let domain = extract_domain(url.as_str());
        let has_selector = has_selector_for_domain(domain.as_str());
        TabInfo { id, title, url, domain, has_selector }
    }
}

/// The models of a sequence of tabs.
pub open spec fn tab_models(tabs: Seq<TabInfo>) -> Seq<TabModel> {
    Seq::new(tabs.len(), |i: int| tabs[i]@)
}

/// The model of an optional tab.
pub open spec fn tab_model(tab: Option<TabInfo>) -> Option<TabModel> {
    match tab {
        Some(t) => Some(t@),
        None => None,
    }
}

/// The tabs among the browser's targets, described, in the order reported.
pub open spec fn tabs_among(targets: Seq<TargetModel>) -> Seq<TabModel> {
    targets.filter(|t: TargetModel| is_page(t)).map_values(
        |t: TargetModel| tab_for(t.target_id, t.title, t.url),
    )
}

/// Describes the tabs among the browser's targets. Targets of other types,
/// such as workers, are left out.
pub fn page_tabs(targets: &Vec<TargetInfo>) -> (tabs: Vec<TabInfo>)
    ensures
        tab_models(tabs@) == tabs_among(target_models(targets@)),
        forall|i: int| 0 <= i < tabs@.len() ==> (#[trigger] tabs@[i]).wf(),
{
    let page = String::from_str("page");
    let ghost all = target_models(targets@);
    let ghost keep = |t: TargetModel| is_page(t);
    let ghost describe = |t: TargetModel| tab_for(t.target_id, t.title, t.url);
    let mut tabs: Vec<TabInfo> = Vec::new();
    let mut i: usize = 0;
    proof {
        reveal(Seq::filter);
    }
    while i < targets.len()
        invariant
            i <= targets.len(),
            page@ == "page"@,
            all == target_models(targets@),
            keep == (|t: TargetModel| is_page(t)),
            describe == (|t: TargetModel| tab_for(t.target_id, t.title, t.url)),
            tab_models(tabs@) =~= all.take(i as int).filter(keep).map_values(describe),
            forall|k: int| 0 <= k < tabs@.len() ==> (#[trigger] tabs@[k]).wf(),
        decreases targets.len() - i,
    {
        proof {
            lemma_filter_step(all, keep, i as int);
        }
        let ghost before = all.take(i as int).filter(keep);
        if targets[i].kind == page {
            let tab = TabInfo::describe(
                targets[i].target_id.clone(),
                targets[i].title.clone(),
                targets[i].url.clone(),
            );
            tabs.push(tab);
            proof {
                let this = all[i as int];
                assert(before.push(this).map_values(describe) =~= before.map_values(
                    describe,
                ).push(describe(this)));
            }
        }
        i = i + 1;
    }
    assert(all.take(i as int) =~= all);
    tabs
}

/// Position `i` holds the first tab whose title contains `needle`, case ignored.
pub open spec fn first_title_at(tabs: Seq<TabModel>, needle: Seq<char>, i: int) -> bool {
    &&& 0 <= i < tabs.len()
    &&& contains_ignoring_case(tabs[i].title, needle)
    &&& forall|j: int| 0 <= j < i ==> !contains_ignoring_case((#[trigger] tabs[j]).title, needle)
}

/// The first tab whose title contains `needle`, case ignored.
pub open spec fn tab_titled(tabs: Seq<TabModel>, needle: Seq<char>) -> Option<TabModel> {
    if exists|i: int| first_title_at(tabs, needle, i) {
        Some(tabs[choose|i: int| first_title_at(tabs, needle, i)])
    } else {
        None
    }
}

/// The tabs' titles in lower case, in the order given.
fn lowered_tab_titles(tabs: &Vec<TabInfo>) -> (titles: Vec<String>)
    ensures
        titles@.len() == tabs@.len(),
        forall|i: int|
            0 <= i < tabs@.len() ==> (#[trigger] texts_of(titles@)[i]) == lowercase_of(
                tabs@[i].title@,
            ),
{
    let mut titles: Vec<String> = Vec::new();
    let mut i: usize = 0;
    while i < tabs.len()
        invariant
            i <= tabs.len(),
            titles.len() == i,
            forall|k: int| 0 <= k < i ==> (#[trigger] titles@[k])@ == lowercase_of(tabs@[k].title@),
        decreases tabs.len() - i,
    {
        titles.push(to_lowercase(tabs[i].title.as_str()));
        i = i + 1;
    }
    titles
}

/// Finds a tab by a part of its title, case ignored: the first such tab in
/// the order given. That there is none is an answer, not a failure. A tab
/// that was described from its address is returned as such.
pub fn find_tab(tabs: &Vec<TabInfo>, title_contains: &str) -> (found: Option<TabInfo>)
    ensures
        tab_model(found) == tab_titled(tab_models(tabs@), title_contains@),
        found is None <==> forall|i: int|
            0 <= i < tabs@.len() ==> !contains_ignoring_case(
                (#[trigger] tabs@[i]).title@,
                title_contains@,
            ),
        found matches Some(tab) ==> exists|i: int|
            0 <= i < tabs@.len() && tab@ == (#[trigger] tabs@[i])@,
        (forall|i: int| 0 <= i < tabs@.len() ==> (#[trigger] tabs@[i]).wf()) ==> (found matches Some(
            tab,
        ) ==> tab.wf()),
{
    let needle = to_lowercase(title_contains);
    let titles = lowered_tab_titles(tabs);
    let ghost all = tab_models(tabs@);
    match first_containing(&titles, needle.as_str(), 0) {
        Some(i) => {
            proof {
                assert forall|j: int| 0 <= j < i implies !contains_ignoring_case(
                    (#[trigger] all[j]).title,
                    title_contains@,
                ) by {
                    assert(!contains_text(texts_of(titles@)[j], needle@));
                }
                // Two first matches are one: each rules the other out before itself.
                assert(first_title_at(all, title_contains@, i as int));
                let k = choose|k: int| first_title_at(all, title_contains@, k);
                assert(first_title_at(all, title_contains@, k));
                assert(k == i);
            }
            let tab = tabs[i].clone();
            assert(tab@ == tabs@[i as int]@);
            Some(tab)
        },
        None => {
            proof {
                assert forall|k: int| 0 <= k < tabs@.len() implies !contains_ignoring_case(
                    (#[trigger] tabs@[k]).title@,
                    title_contains@,
                ) by {
                    assert(!contains_text(texts_of(titles@)[k], needle@));
                }
                assert forall|k: int| !first_title_at(all, title_contains@, k) by {
                    if 0 <= k < all.len() {
                        assert(all[k] == tabs@[k]@);
                    }
                }
            }
            None
        },
    }
}

/// How an attempt to reach the browser ended.
#[derive(Debug)]
pub struct ConnectionResult {
    /// Whether the browser answered.
    pub success: bool,
    /// The outcome in words.
    pub message: String,
    /// Number of open tabs; zero where the browser did not answer.
    pub tabs_count: usize,
    /// Where to read how the browser is started so that it answers.
    pub error_help_url: Option<String>,
}

/// What is said where the browser answered.
pub const CONNECTED: &'static str = "Connected to Chrome";

/// What is said where the browser did not answer.
pub const NEEDS_DEBUGGING_PORT: &'static str =
    "CDP connection requires Chrome --remote-debugging-port=9222";

/// Where to read how the browser is started with its debugging port open.
pub const SETUP_HELP_URL: &'static str =
    "https://github.com/SergioPachon/Birdie/wiki/Chrome-DevTools-Setup";

/// What is said where something is asked of a browser that is not connected.
pub const NOT_CONNECTED: &'static str = "No hay conexión con Chrome. Conecta primero.";

/// Reports how an attempt to reach the browser ended: with the number of
/// open tabs, or with nothing where the browser did not answer.
pub fn connection_report(tabs: Option<usize>) -> (report: ConnectionResult)
    ensures
        match tabs {
            Some(count) => {
                &&& report.success
                &&& report.message@ == CONNECTED@
                &&& report.tabs_count == count
                &&& report.error_help_url is None
            },
            None => {
                &&& !report.success
                &&& report.message@ == NEEDS_DEBUGGING_PORT@
                &&& report.tabs_count == 0
                &&& report.error_help_url matches Some(url)
                &&& url@ == SETUP_HELP_URL@
            },
        },
{
    match tabs {
        Some(count) => ConnectionResult {
            success: true,
            message: String::from_str(CONNECTED),
            tabs_count: count,
            error_help_url: None,
        },
        None => ConnectionResult {
            success: false,
            message: String::from_str(NEEDS_DEBUGGING_PORT),
            tabs_count: 0,
            error_help_url: Some(String::from_str(SETUP_HELP_URL)),
        },
    }
}

/// How a script ended in a tab.
#[derive(Debug)]
pub struct ScriptResult {
    /// Whether the script ran to its end.
    pub success: bool,
    /// What the script returned.
    pub result: Option<String>,
    /// Why the script did not run to its end.
    pub error: Option<String>,
}

/// Reports how a script ended: with what it returned, or with the failure.
pub fn script_report(outcome: Result<String, String>) -> (report: ScriptResult)
    ensures
        match outcome {
            Ok(text) => {
                &&& report.success
                &&& report.result matches Some(r)
                &&& r@ == text@
                &&& report.error is None
            },
            Err(detail) => {
                &&& !report.success
                &&& report.result is None
                &&& report.error matches Some(e)
                &&& e@ == detail@
            },
        },
{
    match outcome {
        Ok(text) => ScriptResult { success: true, result: Some(text), error: None },
        Err(detail) => ScriptResult { success: false, result: None, error: Some(detail) },
    }
}

/// Whether the browser can be asked for its tabs or to run a script: it can
/// where a connection to it is held, whether or not a session monitors.
/// Otherwise the answer is the notice `NOT_CONNECTED`.
pub fn require_connection(connected: bool) -> (outcome: Result<(), String>)
    ensures
        outcome is Ok <==> connected,
        outcome matches Err(notice) ==> notice@ == NOT_CONNECTED@,
{
    if connected {
        Ok(())
    } else {
        Err(String::from_str(NOT_CONNECTED))
    }
}

/// A tab whose address has a host that the catalogue knows is described with
/// that host as its domain and with the selector flag set, and the catalogue's
/// entry for its domain is the entry of that host.
pub proof fn lemma_tab_of_known_host(id: Seq<char>, title: Seq<char>, url: Seq<char>, i: int)
    requires
        0 <= i < selector_table().len(),
        url_host(url) == Some(selector_table()[i].domain),
    ensures
        tab_for(id, title, url).domain == selector_table()[i].domain,
        tab_for(id, title, url).has_selector,
        selector_in(selector_table(), tab_for(id, title, url).domain) == Some(selector_table()[i]),
{
    let table = selector_table();
    let domain = table[i].domain;
    lemma_selector_domains_unique();
    assert(domain_at(table, domain, i));
    let k = choose|k: int| domain_at(table, domain, k);
    assert(domain_at(table, domain, k));
    assert(k == i);
}

/// A tab whose address has no host, or is no address at all, has the empty
/// domain, and no selector.
pub proof fn lemma_tab_without_host(id: Seq<char>, title: Seq<char>, url: Seq<char>)
    requires
        url_host(url) is None,
    ensures
        tab_for(id, title, url).domain == Seq::<char>::empty(),
        !tab_for(id, title, url).has_selector,
{
    reveal_strlit("meet.google.com");
    reveal_strlit("teams.microsoft.com");
    reveal_strlit("discord.com");
    reveal_strlit("web.whatsapp.com");
    reveal_strlit("web.telegram.org");
    let table = selector_table();
    assert forall|k: int| !domain_at(table, Seq::<char>::empty(), k) by {
        if 0 <= k < table.len() {
            assert(table[k].domain.len() > 0);
        }
    }
}

} // verus!
