//! The context registry: which applications are known, how each is found
//! among browser tabs, which script reads its messages, and how urgent it is.
//!
//! Profiles are kept in registration order. A name occurs at most once; a
//! fuzzy lookup answers with the earliest registered profile whose name fits.

use vstd::prelude::*;
use vstd::string::*;
use crate::text::{
    clone_strings, contains_ignoring_case, contains_text, first_containing,
    lemma_contains_itself, lemma_filter_step, lowercase_of, text_of, texts_of, to_lowercase,
};

verus! {

/// How urgently an application's messages are processed. The variants are
/// listed from least to most urgent, and `rank` numbers them in that order.
#[derive(Debug, Clone, Copy, PartialEq, Eq, PartialOrd, Ord, Structural)]
pub enum TaskPriority {
    /// Only shown, never processed.
    Disabled,
    /// Processed when resources allow.
    Low,
    /// Always processed.
    Normal,
    /// Processed before the others.
    High,
    /// Processed before everything else.
    Critical,
}

impl TaskPriority {
    /// Position of the priority in the order `Disabled < Low < Normal < High < Critical`.
    pub open spec fn rank(self) -> nat {
        match self {
            TaskPriority::Disabled => 0,
            TaskPriority::Low => 1,
            TaskPriority::Normal => 2,
            TaskPriority::High => 3,
            TaskPriority::Critical => 4,
        }
    }

    /// The rank as a machine integer.
    pub fn level(self) -> (level: u8)
        ensures
            level == self.rank(),
    {
        match self {
            TaskPriority::Disabled => 0,
            TaskPriority::Low => 1,
            TaskPriority::Normal => 2,
            TaskPriority::High => 3,
            TaskPriority::Critical => 4,
        }
    }

    /// Threshold test: is this priority at least `min`?
    pub fn at_least(self, min: TaskPriority) -> (reached: bool)
        ensures
            reached == (self.rank() >= min.rank()),
    {
        self.level() >= min.level()
    }
}

/// What the registry knows about one application.
#[derive(Debug)]
pub struct ContextTask {
    /// Name of the application; the registry's key.
    pub app_name: String,
    /// Tab titles to look for, most specific use first.
    pub search_targets: Vec<String>,
    /// Domains on which the application runs.
    pub url_patterns: Vec<String>,
    /// Script that reads the messages out of the application's page.
    pub css_selector: String,
    /// Urgency of the application's messages.
    pub priority: TaskPriority,
    /// Whether the application is processed at all.
    pub enabled: bool,
}

/// The mathematical content of a `ContextTask`.
pub struct TaskModel {
    pub app_name: Seq<char>,
    pub search_targets: Seq<Seq<char>>,
    pub url_patterns: Seq<Seq<char>>,
    pub css_selector: Seq<char>,
    pub priority: TaskPriority,
    pub enabled: bool,
}

impl View for ContextTask {
    type V = TaskModel;

    open spec fn view(&self) -> TaskModel {
        TaskModel {
            app_name: self.app_name@,
            search_targets: texts_of(self.search_targets@),
            url_patterns: texts_of(self.url_patterns@),
            css_selector: self.css_selector@,
            priority: self.priority,
            enabled: self.enabled,
        }
    }
}

impl Clone for ContextTask {
    fn clone(&self) -> (copy: Self)
        ensures
            copy@ == self@,
    {
        ContextTask {
            app_name: self.app_name.clone(),
            search_targets: clone_strings(&self.search_targets),
            url_patterns: clone_strings(&self.url_patterns),
            css_selector: self.css_selector.clone(),
            priority: self.priority,
            enabled: self.enabled,
        }
    }
}

/// The models of a sequence of profiles.
pub open spec fn models_of(tasks: Seq<ContextTask>) -> Seq<TaskModel> {
    Seq::new(tasks.len(), |i: int| tasks[i]@)
}

/// The model of an optional profile.
pub open spec fn model_of(task: Option<ContextTask>) -> Option<TaskModel> {
    match task {
        Some(t) => Some(t@),
        None => None,
    }
}

/// Google Meet: messages of the others in the call.
pub const MEET_CHAT_SCRIPT: &'static str = r#"
                    (function() {
                        let content = [];
                        const messages = document.querySelectorAll('[data-is-own-message="false"]');
                        messages.forEach(msg => {
                            const text = msg.textContent?.trim();
                            if (text) content.push(text);
                        });
                        return content.join('\n') || 'No messages';
                    })()
                "#;

/// Microsoft Teams and Discord: elements marked as message content.
pub const TESTID_CHAT_SCRIPT: &'static str = r#"
                    (function() {
                        let content = [];
                        const messages = document.querySelectorAll('[data-testid="message-content"]');
                        messages.forEach(msg => {
                            const text = msg.textContent?.trim();
                            if (text) content.push(text);
                        });
                        return content.join('\n') || 'No messages';
                    })()
                "#;

/// Slack: items of the message list.
pub const SLACK_CHAT_SCRIPT: &'static str = r#"
                    (function() {
                        let content = [];
                        const messages = document.querySelectorAll('[data-qa="virtual_list_item"]');
                        messages.forEach(msg => {
                            const text = msg.textContent?.trim();
                            if (text) content.push(text);
                        });
                        return content.join('\n') || 'No messages';
                    })()
                "#;

/// WhatsApp Web: message containers that hold less than 1000 characters.
pub const WHATSAPP_CHAT_SCRIPT: &'static str = r#"
                    (function() {
                        let content = [];
                        const messages = document.querySelectorAll('[data-testid="msg-container"]');
                        messages.forEach(msg => {
                            const text = msg.textContent?.trim();
                            if (text && text.length < 1000) content.push(text);
                        });
                        return content.join('\n') || 'No messages';
                    })()
                "#;

/// Telegram Web: message bodies.
pub const TELEGRAM_CHAT_SCRIPT: &'static str = r#"
                    (function() {
                        let content = [];
                        const messages = document.querySelectorAll('.message-content');
                        messages.forEach(msg => {
                            const text = msg.textContent?.trim();
                            if (text) content.push(text);
                        });
                        return content.join('\n') || 'No messages';
                    })()
                "#;

/// Google Chat: elements that carry a message id.
pub const GOOGLE_CHAT_SCRIPT: &'static str = r#"
                    (function() {
                        let content = [];
                        const messages = document.querySelectorAll('[data-message-id]');
                        messages.forEach(msg => {
                            const text = msg.textContent?.trim();
                            if (text) content.push(text);
                        });
                        return content.join('\n') || 'No messages';
                    })()
                "#;

/// A profile as registration makes it: the fields as given, and enabled.
pub open spec fn profile(
    app_name: Seq<char>,
    search_targets: Seq<Seq<char>>,
    url_patterns: Seq<Seq<char>>,
    css_selector: Seq<char>,
    priority: TaskPriority,
) -> TaskModel {
    TaskModel { app_name, search_targets, url_patterns, css_selector, priority, enabled: true }
}

/// The built-in profiles, in registration order: meeting and team tools at
/// `High`, personal messengers at `Normal`.
pub open spec fn default_profiles() -> Seq<TaskModel> {
    seq![
        profile(
            "Google Meet"@,
            seq!["Meet"@, "Google Meet"@],
            seq!["meet.google.com"@],
            MEET_CHAT_SCRIPT@,
            TaskPriority::High,
        ),
        profile(
            "Microsoft Teams"@,
            seq!["Teams"@, "Microsoft Teams"@],
            seq!["teams.microsoft.com"@],
            TESTID_CHAT_SCRIPT@,
            TaskPriority::High,
        ),
        profile(
            "Discord"@,
            seq!["Discord"@],
            seq!["discord.com"@],
            TESTID_CHAT_SCRIPT@,
            TaskPriority::High,
        ),
        profile(
            "Slack"@,
            seq!["Slack"@, "app.slack.com"@],
            seq!["app.slack.com"@, "slack.com"@],
            SLACK_CHAT_SCRIPT@,
            TaskPriority::High,
        ),
        profile(
            "WhatsApp"@,
            seq!["WhatsApp"@, "WhatsApp Web"@],
            seq!["web.whatsapp.com"@],
            WHATSAPP_CHAT_SCRIPT@,
            TaskPriority::Normal,
        ),
        profile(
            "Telegram"@,
            seq!["Telegram"@, "Telegram Web"@],
            seq!["web.telegram.org"@],
            TELEGRAM_CHAT_SCRIPT@,
            TaskPriority::Normal,
        ),
        profile(
            "Google Chat"@,
            seq!["Chat"@, "Google Chat"@],
            seq!["chat.google.com"@],
            GOOGLE_CHAT_SCRIPT@,
            TaskPriority::Normal,
        ),
    ]
}

/// A list that holds one string.
fn one_string(a: &str) -> (list: Vec<String>)
    ensures
        texts_of(list@) == seq![a@],
{
    let mut list: Vec<String> = Vec::new();
    list.push(String::from_str(a));
    list
}

/// A list that holds two strings, in the order given.
fn two_strings(a: &str, b: &str) -> (list: Vec<String>)
    ensures
        texts_of(list@) == seq![a@, b@],
{
    let mut list: Vec<String> = Vec::new();
    list.push(String::from_str(a));
    list.push(String::from_str(b));
    list
}

/// Builds an enabled profile from its parts.
fn new_task(
    app_name: &str,
    search_targets: Vec<String>,
    url_patterns: Vec<String>,
    css_selector: &str,
    priority: TaskPriority,
) -> (task: ContextTask)
    ensures
        task@ == profile(
            app_name@,
            texts_of(search_targets@),
            texts_of(url_patterns@),
            css_selector@,
            priority,
        ),
{
    ContextTask {
        app_name: String::from_str(app_name),
        search_targets,
        url_patterns,
        css_selector: String::from_str(css_selector),
        priority,
        enabled: true,
    }
}

/// The registry of known applications.
pub struct ContextMapper {
    tasks: Vec<ContextTask>,
}

impl View for ContextMapper {
    type V = Seq<TaskModel>;

    closed spec fn view(&self) -> Seq<TaskModel> {
        models_of(self.tasks@)
    }
}

/// No two profiles of the sequence carry the same name.
pub open spec fn names_unique(tasks: Seq<TaskModel>) -> bool {
    forall|i: int, j: int|
        0 <= i < tasks.len() && 0 <= j < tasks.len() && i != j ==> #[trigger] tasks[i].app_name
            != #[trigger] tasks[j].app_name
}

impl ContextMapper {
    /// Validity of a registry: every name occurs once.
    pub open spec fn wf(&self) -> bool {
        names_unique(self@)
    }

    /// The built-in profiles, in registration order.
    pub fn default_mappings() -> (tasks: Vec<ContextTask>)
        ensures
            models_of(tasks@) == default_profiles(),
    {
        let mut tasks: Vec<ContextTask> = Vec::new();
        tasks.push(
            new_task(
                "Google Meet",
                two_strings("Meet", "Google Meet"),
                one_string("meet.google.com"),
                MEET_CHAT_SCRIPT,
                TaskPriority::High,
            ),
        );
        tasks.push(
            new_task(
                "Microsoft Teams",
                two_strings("Teams", "Microsoft Teams"),
                one_string("teams.microsoft.com"),
                TESTID_CHAT_SCRIPT,
                TaskPriority::High,
            ),
        );
        tasks.push(
            new_task(
                "Discord",
                one_string("Discord"),
                one_string("discord.com"),
                TESTID_CHAT_SCRIPT,
                TaskPriority::High,
            ),
        );
        tasks.push(
            new_task(
                "Slack",
                two_strings("Slack", "app.slack.com"),
                two_strings("app.slack.com", "slack.com"),
                SLACK_CHAT_SCRIPT,
                TaskPriority::High,
            ),
        );
        tasks.push(
            new_task(
                "WhatsApp",
                two_strings("WhatsApp", "WhatsApp Web"),
                one_string("web.whatsapp.com"),
                WHATSAPP_CHAT_SCRIPT,
                TaskPriority::Normal,
            ),
        );
        tasks.push(
            new_task(
                "Telegram",
                two_strings("Telegram", "Telegram Web"),
                one_string("web.telegram.org"),
                TELEGRAM_CHAT_SCRIPT,
                TaskPriority::Normal,
            ),
        );
        tasks.push(
            new_task(
                "Google Chat",
                two_strings("Chat", "Google Chat"),
                one_string("chat.google.com"),
                GOOGLE_CHAT_SCRIPT,
                TaskPriority::Normal,
            ),
        );
        tasks
    }

    /// A registry that holds the built-in profiles.
    pub fn new() -> (mapper: Self)
        ensures
            mapper.wf(),
            mapper@ == default_profiles(),
    {
        proof {
            lemma_default_names_unique();
        }
        ContextMapper { tasks: Self::default_mappings() }
    }
}

impl Default for ContextMapper {
    /// The registry of the built-in profiles.
    fn default() -> (mapper: Self)
        ensures
            mapper.wf(),
            mapper@ == default_profiles(),
    {
        ContextMapper::new()
    }
}

/// Every built-in profile is enabled, names at least one tab title to look
/// for and one domain, and has the priority `High` or `Normal`.
pub proof fn lemma_default_profiles_usable()
    ensures
        default_profiles().len() == 7,
        forall|i: int|
            0 <= i < default_profiles().len() ==> {
                let t = #[trigger] default_profiles()[i];
                &&& t.enabled
                &&& t.search_targets.len() > 0
                &&& t.url_patterns.len() > 0
                &&& (t.priority == TaskPriority::High || t.priority == TaskPriority::Normal)
            },
{
}

/// The built-in profiles carry seven different names.
pub proof fn lemma_default_names_unique()
    ensures
        names_unique(default_profiles()),
{
    reveal_strlit("Google Meet");
    reveal_strlit("Microsoft Teams");
    reveal_strlit("Discord");
    reveal_strlit("Slack");
    reveal_strlit("WhatsApp");
    reveal_strlit("Telegram");
    reveal_strlit("Google Chat");
    let names = seq![
        "Google Meet"@,
        "Microsoft Teams"@,
        "Discord"@,
        "Slack"@,
        "WhatsApp"@,
        "Telegram"@,
        "Google Chat"@,
    ];
    assert("Google Meet"@[7] == 'M');
    assert("Google Chat"@[7] == 'C');
    assert("WhatsApp"@[0] == 'W');
    assert("Telegram"@[0] == 'T');
    let tasks = default_profiles();
    assert forall|i: int, j: int|
        0 <= i < tasks.len() && 0 <= j < tasks.len() && i != j implies #[trigger] tasks[i].app_name
        != #[trigger] tasks[j].app_name by {
        assert(tasks[i].app_name == names[i]);
        assert(tasks[j].app_name == names[j]);
    }
}

/// The profile at position `i` carries the name `name`.
pub open spec fn named_at(tasks: Seq<TaskModel>, name: Seq<char>, i: int) -> bool {
    0 <= i < tasks.len() && tasks[i].app_name == name
}

/// Some profile carries the name `name`.
pub open spec fn has_name(tasks: Seq<TaskModel>, name: Seq<char>) -> bool {
    exists|i: int| named_at(tasks, name, i)
}

/// Where the profile named `name` stands, if there is one.
pub open spec fn index_of(tasks: Seq<TaskModel>, name: Seq<char>) -> int {
    choose|i: int| named_at(tasks, name, i)
}

/// Exact lookup: the profile whose name is `name`.
pub open spec fn get_in(tasks: Seq<TaskModel>, name: Seq<char>) -> Option<TaskModel> {
    if has_name(tasks, name) {
        Some(tasks[index_of(tasks, name)])
    } else {
        None
    }
}

/// The profile's name contains the query, case ignored.
pub open spec fn key_matches(task: TaskModel, query: Seq<char>) -> bool {
    contains_ignoring_case(task.app_name, query)
}

/// Position `i` holds the earliest profile whose name fits the query.
pub open spec fn first_match_at(tasks: Seq<TaskModel>, query: Seq<char>, i: int) -> bool {
    &&& 0 <= i < tasks.len()
    &&& key_matches(tasks[i], query)
    &&& forall|j: int| 0 <= j < i ==> !key_matches(#[trigger] tasks[j], query)
}

/// Some profile's name fits the query.
pub open spec fn has_match(tasks: Seq<TaskModel>, query: Seq<char>) -> bool {
    exists|i: int| first_match_at(tasks, query, i)
}

/// Fuzzy lookup: the earliest registered profile whose name contains the
/// query, case ignored.
pub open spec fn find_in(tasks: Seq<TaskModel>, query: Seq<char>) -> Option<TaskModel> {
    if has_match(tasks, query) {
        Some(tasks[choose|i: int| first_match_at(tasks, query, i)])
    } else {
        None
    }
}

/// The enabled profiles, in registration order.
pub open spec fn enabled_in(tasks: Seq<TaskModel>) -> Seq<TaskModel> {
    tasks.filter(|t: TaskModel| t.enabled)
}

/// The enabled profiles whose priority is at least `min`, in registration order.
pub open spec fn at_or_above_in(tasks: Seq<TaskModel>, min: TaskPriority) -> Seq<TaskModel> {
    tasks.filter(|t: TaskModel| t.enabled && t.priority.rank() >= min.rank())
}

/// The registry after `task` is registered: it takes the place of the profile
/// with its name, or goes to the end if the name is new.
pub open spec fn registered(tasks: Seq<TaskModel>, task: TaskModel) -> Seq<TaskModel> {
    if has_name(tasks, task.app_name) {
        tasks.update(index_of(tasks, task.app_name), task)
    } else {
        tasks.push(task)
    }
}

/// The registry after the profile named `name`, if any, is switched on or off.
pub open spec fn with_enabled(tasks: Seq<TaskModel>, name: Seq<char>, enabled: bool) -> Seq<
    TaskModel,
> {
    if has_name(tasks, name) {
        let i = index_of(tasks, name);
        tasks.update(i, TaskModel { enabled, ..tasks[i] })
    } else {
        tasks
    }
}

/// The registry after the profile named `name`, if any, gets a new priority.
pub open spec fn with_priority(
    tasks: Seq<TaskModel>,
    name: Seq<char>,
    priority: TaskPriority,
) -> Seq<TaskModel> {
    if has_name(tasks, name) {
        let i = index_of(tasks, name);
        tasks.update(i, TaskModel { priority, ..tasks[i] })
    } else {
        tasks
    }
}

/// Where names are unique, a profile with the name is the profile with the name.
pub proof fn lemma_index_unique(tasks: Seq<TaskModel>, name: Seq<char>, i: int)
    requires
        names_unique(tasks),
        named_at(tasks, name, i),
    ensures
        has_name(tasks, name),
        index_of(tasks, name) == i,
        get_in(tasks, name) == Some(tasks[i]),
{
    let k = index_of(tasks, name);
    assert(named_at(tasks, name, k));
    assert(k == i);
}

/// The earliest fitting profile is determined by the sequence and the query.
pub proof fn lemma_first_match_unique(tasks: Seq<TaskModel>, query: Seq<char>, i: int)
    requires
        first_match_at(tasks, query, i),
    ensures
        has_match(tasks, query),
        find_in(tasks, query) == Some(tasks[i]),
{
    // Two first matches are one: each rules the other out before itself.
    let k = choose|k: int| first_match_at(tasks, query, k);
    assert(first_match_at(tasks, query, k));
    assert(k == i);
}

impl ContextMapper {
    /// Number of registered profiles.
    pub fn len(&self) -> (count: usize)
        ensures
            count == self@.len(),
    {
        self.tasks.len()
    }

    /// Position of the profile named `app_name`.
    fn position(&self, app_name: &str) -> (found: Option<usize>)
        ensures
            match found {
                Some(i) => named_at(self@, app_name@, i as int),
                None => !has_name(self@, app_name@),
            },
    {
        let key = String::from_str(app_name);
        let mut i: usize = 0;
        while i < self.tasks.len()
            invariant
                i <= self.tasks.len(),
                key@ == app_name@,
                forall|j: int| 0 <= j < i ==> !named_at(self@, app_name@, j),
            decreases self.tasks.len() - i,
        {
            if self.tasks[i].app_name == key {
                return Some(i);
            }
            i = i + 1;
        }
        None
    }

    /// Exact lookup by application name.
    pub fn get_context(&self, app_name: &str) -> (found: Option<ContextTask>)
        requires
            self.wf(),
        ensures
            model_of(found) == get_in(self@, app_name@),
    {
        match self.position(app_name) {
            Some(i) => {
                proof {
                    lemma_index_unique(self@, app_name@, i as int);
                }
                Some(self.tasks[i].clone())
            },
            None => None,
        }
    }

    /// The registered names in lower case, in registration order.
    fn lowered_names(&self) -> (names: Vec<String>)
        ensures
            names@.len() == self@.len(),
            forall|i: int|
                0 <= i < self@.len() ==> (#[trigger] texts_of(names@)[i]) == lowercase_of(
                    self@[i].app_name,
                ),
    {
        let mut names: Vec<String> = Vec::new();
        let mut i: usize = 0;
        while i < self.tasks.len()
            invariant
                i <= self.tasks.len(),
                names.len() == i,
                forall|k: int| 0 <= k < i ==> (#[trigger] names@[k])@ == lowercase_of(self@[k].app_name),
            decreases self.tasks.len() - i,
        {
            names.push(to_lowercase(self.tasks[i].app_name.as_str()));
            i = i + 1;
        }
        names
    }

    /// Fuzzy lookup: the earliest registered profile whose name contains
    /// `app_name`, case ignored.
    pub fn find_context(&self, app_name: &str) -> (found: Option<ContextTask>)
        ensures
            model_of(found) == find_in(self@, app_name@),
            found is None <==> forall|i: int|
                0 <= i < self@.len() ==> !key_matches(#[trigger] self@[i], app_name@),
    {
        let query = to_lowercase(app_name);
        let names = self.lowered_names();
        match first_containing(&names, query.as_str(), 0) {
            Some(i) => {
                proof {
                    assert forall|j: int| 0 <= j < i implies !key_matches(
                        #[trigger] self@[j],
                        app_name@,
                    ) by {
                        assert(!contains_text(texts_of(names@)[j], query@));
                    }
                    lemma_first_match_unique(self@, app_name@, i as int);
                }
                Some(self.tasks[i].clone())
            },
            None => {
                proof {
                    assert forall|j: int| 0 <= j < self@.len() implies !key_matches(
                        #[trigger] self@[j],
                        app_name@,
                    ) by {
                        assert(!contains_text(texts_of(names@)[j], query@));
                    }
                }
                None
            },
        }
    }

    /// All enabled profiles, in registration order.
    pub fn get_enabled_contexts(&self) -> (found: Vec<ContextTask>)
        ensures
            models_of(found@) == enabled_in(self@),
    {
        let ghost keep = |t: TaskModel| t.enabled;
        let mut found: Vec<ContextTask> = Vec::new();
        let mut i: usize = 0;
        assert(self@.take(0).filter(keep) =~= Seq::<TaskModel>::empty()) by {
            reveal(Seq::filter);
        }
        while i < self.tasks.len()
            invariant
                i <= self.tasks.len(),
                keep == (|t: TaskModel| t.enabled),
                models_of(found@) =~= self@.take(i as int).filter(keep),
            decreases self.tasks.len() - i,
        {
            proof {
                lemma_filter_step(self@, keep, i as int);
            }
            if self.tasks[i].enabled {
                found.push(self.tasks[i].clone());
            }
            i = i + 1;
        }
        assert(self@.take(i as int) =~= self@);
        found
    }

    /// The enabled profiles whose priority is at least `min_priority`, in
    /// registration order.
    pub fn get_by_priority(&self, min_priority: TaskPriority) -> (found: Vec<ContextTask>)
        ensures
            models_of(found@) == at_or_above_in(self@, min_priority),
    {
        let ghost keep = |t: TaskModel| t.enabled && t.priority.rank() >= min_priority.rank();
        let mut found: Vec<ContextTask> = Vec::new();
        let mut i: usize = 0;
        assert(self@.take(0).filter(keep) =~= Seq::<TaskModel>::empty()) by {
            reveal(Seq::filter);
        }
        while i < self.tasks.len()
            invariant
                i <= self.tasks.len(),
                keep == (|t: TaskModel| t.enabled && t.priority.rank() >= min_priority.rank()),
                models_of(found@) =~= self@.take(i as int).filter(keep),
            decreases self.tasks.len() - i,
        {
            proof {
                lemma_filter_step(self@, keep, i as int);
            }
            if self.tasks[i].enabled && self.tasks[i].priority.at_least(min_priority) {
                found.push(self.tasks[i].clone());
            }
            i = i + 1;
        }
        assert(self@.take(i as int) =~= self@);
        found
    }
}

impl ContextMapper {
    /// Puts `task` where `registered` says it goes.
    fn store(&mut self, task: ContextTask)
        requires
            old(self).wf(),
        ensures
            final(self).wf(),
            final(self)@ == registered(old(self)@, task@),
    {
        let ghost before = self@;
        let ghost model = task@;
        match self.position(task.app_name.as_str()) {
            Some(i) => {
                proof {
                    lemma_index_unique(before, model.app_name, i as int);
                }
                self.tasks.set(i, task);
                assert(self@ =~= before.update(i as int, model));
            },
            None => {
                self.tasks.push(task);
                assert(self@ =~= before.push(model));
            },
        }
        proof {
            lemma_registered_unique(before, model);
        }
    }

    /// Registers an application: a profile with the given fields, enabled.
    /// It replaces the profile of that name, or is added as the last one.
    pub fn register_app(
        &mut self,
        app_name: String,
        search_targets: Vec<String>,
        url_patterns: Vec<String>,
        css_selector: String,
        priority: TaskPriority,
    )
        requires
            old(self).wf(),
        ensures
            final(self).wf(),
            final(self)@ == registered(
                old(self)@,
                profile(
                    app_name@,
                    texts_of(search_targets@),
                    texts_of(url_patterns@),
                    css_selector@,
                    priority,
                ),
            ),
    {
        let task = ContextTask {
            app_name,
            search_targets,
            url_patterns,
            css_selector,
            priority,
            enabled: true,
        };
        self.store(task);
    }

    /// Switches an application on or off. Nothing changes if the name is unknown.
    pub fn set_enabled(&mut self, app_name: &str, enabled: bool)
        requires
            old(self).wf(),
        ensures
            final(self).wf(),
            final(self)@ == with_enabled(old(self)@, app_name@, enabled),
    {
        let ghost before = self@;
        match self.position(app_name) {
            Some(i) => {
                proof {
                    lemma_index_unique(before, app_name@, i as int);
                }
                let mut task = self.tasks[i].clone();
                task.enabled = enabled;
                let ghost model = task@;
                self.tasks.set(i, task);
                assert(self@ =~= before.update(i as int, model));
                proof {
                    lemma_update_keeps_names(before, i as int, model);
                }
            },
            None => {},
        }
    }

    /// Changes an application's priority. Nothing changes if the name is unknown.
    pub fn set_priority(&mut self, app_name: &str, priority: TaskPriority)
        requires
            old(self).wf(),
        ensures
            final(self).wf(),
            final(self)@ == with_priority(old(self)@, app_name@, priority),
    {
        let ghost before = self@;
        match self.position(app_name) {
            Some(i) => {
                proof {
                    lemma_index_unique(before, app_name@, i as int);
                }
                let mut task = self.tasks[i].clone();
                task.priority = priority;
                let ghost model = task@;
                self.tasks.set(i, task);
                assert(self@ =~= before.update(i as int, model));
                proof {
                    lemma_update_keeps_names(before, i as int, model);
                }
            },
            None => {},
        }
    }
}

/// Replacing a profile by one of the same name keeps the names unique.
pub proof fn lemma_update_keeps_names(tasks: Seq<TaskModel>, i: int, task: TaskModel)
    requires
        names_unique(tasks),
        0 <= i < tasks.len(),
        task.app_name == tasks[i].app_name,
    ensures
        names_unique(tasks.update(i, task)),
{
    let after = tasks.update(i, task);
    assert forall|a: int, b: int|
        0 <= a < after.len() && 0 <= b < after.len() && a != b implies #[trigger] after[a].app_name
        != #[trigger] after[b].app_name by {
    }
}

/// Registration keeps the names unique.
pub proof fn lemma_registered_unique(tasks: Seq<TaskModel>, task: TaskModel)
    requires
        names_unique(tasks),
    ensures
        names_unique(registered(tasks, task)),
{
    let after = registered(tasks, task);
    if has_name(tasks, task.app_name) {
        let i = index_of(tasks, task.app_name);
        lemma_update_keeps_names(tasks, i, task);
    } else {
        assert forall|a: int, b: int|
            0 <= a < after.len() && 0 <= b < after.len() && a != b implies #[trigger] after[a].app_name
            != #[trigger] after[b].app_name by {
            if b == tasks.len() {
                assert(!named_at(tasks, task.app_name, a));
            } else if a == tasks.len() {
                assert(!named_at(tasks, task.app_name, b));
            }
        }
    }
}

/// After an application is registered, the exact lookup of its name gives
/// the profile that was registered: the fields as passed, and enabled.
pub proof fn lemma_get_after_register(tasks: Seq<TaskModel>, task: TaskModel)
    requires
        names_unique(tasks),
    ensures
        names_unique(registered(tasks, task)),
        get_in(registered(tasks, task), task.app_name) == Some(task),
{
    lemma_registered_unique(tasks, task);
    let after = registered(tasks, task);
    if has_name(tasks, task.app_name) {
        let i = index_of(tasks, task.app_name);
        lemma_index_unique(after, task.app_name, i);
    } else {
        let i = tasks.len() as int;
        lemma_index_unique(after, task.app_name, i);
    }
}

/// Registration leaves the profiles of other names as they were.
pub proof fn lemma_register_keeps_others(tasks: Seq<TaskModel>, task: TaskModel, name: Seq<char>)
    requires
        names_unique(tasks),
        name != task.app_name,
    ensures
        get_in(registered(tasks, task), name) == get_in(tasks, name),
{
    lemma_registered_unique(tasks, task);
    let after = registered(tasks, task);
    if has_name(tasks, name) {
        let k = index_of(tasks, name);
        lemma_index_unique(after, name, k);
    } else {
        if has_name(after, name) {
            let k = index_of(after, name);
            assert(named_at(tasks, name, k));
        }
    }
}

/// The fuzzy lookup ignores case: two queries with the same lower-case form
/// find the same profile.
pub proof fn lemma_find_ignores_case(tasks: Seq<TaskModel>, a: Seq<char>, b: Seq<char>)
    requires
        lowercase_of(a) == lowercase_of(b),
    ensures
        find_in(tasks, a) == find_in(tasks, b),
{
    assert forall|i: int| first_match_at(tasks, a, i) == first_match_at(tasks, b, i) by {
    }
}

/// Every profile at or above a priority is one of the enabled profiles, is
/// enabled, and has at least that priority.
pub proof fn lemma_at_or_above_within_enabled(tasks: Seq<TaskModel>, min: TaskPriority)
    ensures
        forall|i: int|
            0 <= i < at_or_above_in(tasks, min).len() ==> {
                let t = #[trigger] at_or_above_in(tasks, min)[i];
                &&& enabled_in(tasks).contains(t)
                &&& tasks.contains(t)
                &&& t.enabled
                &&& t.priority.rank() >= min.rank()
            },
{
    let above = |t: TaskModel| t.enabled && t.priority.rank() >= min.rank();
    let on = |t: TaskModel| t.enabled;
    let picked = tasks.filter(above);
    assert forall|i: int| 0 <= i < picked.len() implies {
        let t = #[trigger] picked[i];
        &&& tasks.filter(on).contains(t)
        &&& tasks.contains(t)
        &&& t.enabled
        &&& t.priority.rank() >= min.rank()
    } by {
        let t = picked[i];
        tasks.lemma_filter_pred(above, i);
        tasks.lemma_filter_contains_rev(above, t);
        let k = choose|k: int| 0 <= k < tasks.len() && tasks[k] == t;
        tasks.lemma_filter_contains(on, k);
    }
}

/// Why an application is not processed.
#[derive(Debug)]
pub enum RejectionReason {
    /// The application is known but switched off. Holds the name asked for.
    Disabled(String),
    /// No profile fits the application. Holds the name asked for.
    Unmapped(String),
}

/// The sentence for an application that is known but switched off.
pub open spec fn disabled_text(app_name: Seq<char>) -> Seq<char> {
    "Aplicación '"@ + app_name + "' está deshabilitada para procesamiento CDP"@
}

/// The sentence for an application that no profile fits.
pub open spec fn unmapped_text(app_name: Seq<char>) -> Seq<char> {
    "No hay mapeo de contexto para la aplicación '"@ + app_name + "'"@
}

/// Why the application is not processed, in words; meant for an application
/// that is not.
pub open spec fn rejection_text(tasks: Seq<TaskModel>, app_name: Seq<char>) -> Seq<char> {
    match find_in(tasks, app_name) {
        Some(_) => disabled_text(app_name),
        None => unmapped_text(app_name),
    }
}

impl RejectionReason {
    /// The name that was asked for.
    pub open spec fn app_name(self) -> Seq<char> {
        match self {
            RejectionReason::Disabled(name) => name@,
            RejectionReason::Unmapped(name) => name@,
        }
    }

    /// The sentence shown to the user for this reason.
    pub open spec fn message_text(self) -> Seq<char> {
        match self {
            RejectionReason::Disabled(name) => disabled_text(name@),
            RejectionReason::Unmapped(name) => unmapped_text(name@),
        }
    }

    /// The sentence shown to the user for this reason.
    pub fn message(&self) -> (text: String)
        ensures
            text@ == self.message_text(),
    {
        match self {
            RejectionReason::Disabled(name) => String::from_str("Aplicación '").concat(
                name.as_str(),
            ).concat("' está deshabilitada para procesamiento CDP"),
            RejectionReason::Unmapped(name) => String::from_str(
                "No hay mapeo de contexto para la aplicación '",
            ).concat(name.as_str()).concat("'"),
        }
    }
}

/// Whether an event from the application is processed: the fuzzy lookup finds
/// a profile, and that profile is enabled with at least the priority `min`.
pub open spec fn should_process_in(tasks: Seq<TaskModel>, query: Seq<char>, min: TaskPriority) -> bool {
    match find_in(tasks, query) {
        Some(t) => t.enabled && t.priority.rank() >= min.rank(),
        None => false,
    }
}

/// The first search target of the profile that the fuzzy lookup finds.
pub open spec fn first_target_in(tasks: Seq<TaskModel>, query: Seq<char>) -> Option<Seq<char>> {
    match find_in(tasks, query) {
        Some(t) => if t.search_targets.len() > 0 {
            Some(t.search_targets[0])
        } else {
            None
        },
        None => None,
    }
}

/// All search targets of the profile that the fuzzy lookup finds; none if it
/// finds no profile.
pub open spec fn all_targets_in(tasks: Seq<TaskModel>, query: Seq<char>) -> Seq<Seq<char>> {
    match find_in(tasks, query) {
        Some(t) => t.search_targets,
        None => Seq::empty(),
    }
}

/// Decides from the registry whether and how an observed application is processed.
pub struct ContextValidator {
    mapper: ContextMapper,
}

impl View for ContextValidator {
    type V = Seq<TaskModel>;

    closed spec fn view(&self) -> Seq<TaskModel> {
        self.mapper@
    }
}

impl ContextValidator {
    /// Validity of a validator: that of its registry.
    pub open spec fn wf(&self) -> bool {
        names_unique(self@)
    }

    /// A validator over the built-in profiles.
    pub fn new() -> (validator: Self)
        ensures
            validator.wf(),
            validator@ == default_profiles(),
    {
        ContextValidator { mapper: ContextMapper::new() }
    }

    /// A validator over a registry of the caller's.
    pub fn with_mapper(mapper: ContextMapper) -> (validator: Self)
        requires
            mapper.wf(),
        ensures
            validator.wf(),
            validator@ == mapper@,
    {
        ContextValidator { mapper }
    }

    /// The registry that the validator decides from.
    pub fn mapper(&self) -> (mapper: &ContextMapper)
        ensures
            mapper@ == self@,
    {
        &self.mapper
    }

    /// Registers an application in the validator's registry.
    pub fn register_app(
        &mut self,
        app_name: String,
        search_targets: Vec<String>,
        url_patterns: Vec<String>,
        css_selector: String,
        priority: TaskPriority,
    )
        requires
            old(self).wf(),
        ensures
            final(self).wf(),
            final(self)@ == registered(
                old(self)@,
                profile(
                    app_name@,
                    texts_of(search_targets@),
                    texts_of(url_patterns@),
                    css_selector@,
                    priority,
                ),
            ),
    {
        self.mapper.register_app(app_name, search_targets, url_patterns, css_selector, priority);
    }

    /// Switches an application on or off in the validator's registry.
    pub fn set_enabled(&mut self, app_name: &str, enabled: bool)
        requires
            old(self).wf(),
        ensures
            final(self).wf(),
            final(self)@ == with_enabled(old(self)@, app_name@, enabled),
    {
        self.mapper.set_enabled(app_name, enabled);
    }

    /// Changes an application's priority in the validator's registry.
    pub fn set_priority(&mut self, app_name: &str, priority: TaskPriority)
        requires
            old(self).wf(),
        ensures
            final(self).wf(),
            final(self)@ == with_priority(old(self)@, app_name@, priority),
    {
        self.mapper.set_priority(app_name, priority);
    }

    /// Whether an event from `app_name` is processed at the threshold `min_priority`.
    pub fn should_process_notification(&self, app_name: &str, min_priority: TaskPriority) -> (process:
        bool)
        ensures
            process == should_process_in(self@, app_name@, min_priority),
    {
        match self.mapper.find_context(app_name) {
            Some(task) => task.enabled && task.priority.at_least(min_priority),
            None => false,
        }
    }

    /// The profile for `app_name`, or the reason why there is none to use:
    /// `Unmapped` where no profile fits, `Disabled` where the one that fits is
    /// switched off.
    pub fn validate_and_get_context(&self, app_name: &str) -> (outcome: Result<
        ContextTask,
        RejectionReason,
    >)
        ensures
            match outcome {
                Ok(task) => find_in(self@, app_name@) == Some(task@) && task@.enabled,
                Err(RejectionReason::Disabled(name)) => {
                    &&& name@ == app_name@
                    &&& find_in(self@, app_name@) matches Some(t)
                    &&& !t.enabled
                },
                Err(RejectionReason::Unmapped(name)) => {
                    &&& name@ == app_name@
                    &&& find_in(self@, app_name@) is None
                },
            },
    {
        match self.mapper.find_context(app_name) {
            Some(task) => {
                if task.enabled {
                    Ok(task)
                } else {
                    Err(RejectionReason::Disabled(String::from_str(app_name)))
                }
            },
            None => Err(RejectionReason::Unmapped(String::from_str(app_name))),
        }
    }

    /// The first tab title to look for, for the profile that fits `app_name`.
    pub fn get_first_search_target(&self, app_name: &str) -> (target: Option<String>)
        ensures
            text_of(target) == first_target_in(self@, app_name@),
    {
        match self.mapper.find_context(app_name) {
            Some(task) => {
                if task.search_targets.len() > 0 {
                    Some(task.search_targets[0].clone())
                } else {
                    None
                }
            },
            None => None,
        }
    }

    /// All tab titles to look for, for the profile that fits `app_name`.
    pub fn get_all_search_targets(&self, app_name: &str) -> (targets: Vec<String>)
        ensures
            texts_of(targets@) == all_targets_in(self@, app_name@),
    {
        match self.mapper.find_context(app_name) {
            Some(task) => task.search_targets,
            None => {
                let none: Vec<String> = Vec::new();
                none
            },
        }
    }
}

impl Default for ContextValidator {
    /// The validator over the built-in profiles.
    fn default() -> (validator: Self)
        ensures
            validator.wf(),
            validator@ == default_profiles(),
    {
        ContextValidator::new()
    }
}

/// An application that no profile fits is never processed, whatever the threshold.
pub proof fn lemma_unknown_not_processed(tasks: Seq<TaskModel>, query: Seq<char>, min: TaskPriority)
    requires
        forall|i: int| 0 <= i < tasks.len() ==> !key_matches(#[trigger] tasks[i], query),
    ensures
        find_in(tasks, query) is None,
        !should_process_in(tasks, query, min),
{
    if has_match(tasks, query) {
        let i = choose|i: int| first_match_at(tasks, query, i);
        assert(key_matches(tasks[i], query));
    }
}

/// A registered application that is switched off is never processed, whatever
/// the threshold, where the lookup of its name finds it: no profile registered
/// before it has a name that contains this one.
pub proof fn lemma_disabled_not_processed(
    tasks: Seq<TaskModel>,
    name: Seq<char>,
    i: int,
    min: TaskPriority,
)
    requires
        named_at(tasks, name, i),
        !tasks[i].enabled,
        forall|j: int| 0 <= j < i ==> !key_matches(#[trigger] tasks[j], name),
    ensures
        find_in(tasks, name) == Some(tasks[i]),
        !should_process_in(tasks, name, min),
{
    lemma_contains_itself(name);
    lemma_first_match_unique(tasks, name, i);
}

} // verus!
