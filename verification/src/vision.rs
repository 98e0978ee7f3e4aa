//! Reading one tab: which browser target is meant, which script reads its
//! page, and what is reported of the script's answer.

use vstd::prelude::*;
use vstd::string::*;
use crate::cdp::{SelectorConfig, SelectorModel};
use crate::context_mapper::{ContextTask, TaskModel};
use crate::text::{
    contains, contains_ignoring_case, contains_text, first_containing, lemma_filter_step,
    lowercase_of, texts_of, to_lowercase,
};

verus! {

/// Google Meet: the chat messages, then the participants.
pub const MEET_PAGE_SCRIPT: &'static str = r#"
        (function() {
            let content = [];

            // Get chat messages
            const messages = document.querySelectorAll('[data-is-own-message]');
            messages.forEach(msg => {
                const text = msg.textContent?.trim();
                if (text) content.push(text);
            });

            // Get participant list
            const participants = document.querySelectorAll('[data-participant-id]');
            participants.forEach(p => {
                const name = p.textContent?.trim();
                if (name && name.length < 100) content.push('Participante: ' + name);
            });

            return content.join('\n') || 'No se encontró contenido';
        })()
        "#;

/// Microsoft Teams: the chat messages.
pub const TEAMS_PAGE_SCRIPT: &'static str = r#"
        (function() {
            let content = [];

            const messages = document.querySelectorAll('[data-testid="message-content"]');
            messages.forEach(msg => {
                const text = msg.textContent?.trim();
                if (text) content.push(text);
            });

            return content.join('\n') || 'No se encontró contenido';
        })()
        "#;

/// Discord: the channel name, then the messages.
pub const DISCORD_PAGE_SCRIPT: &'static str = r#"
        (function() {
            let content = [];

            // Channel name
            const channel = document.querySelector('h1[class*="title"]');
            if (channel?.textContent) content.push('Canal: ' + channel.textContent.trim());

            // Messages
            const messages = document.querySelectorAll('[data-testid="message-content"]');
            messages.forEach(msg => {
                const text = msg.textContent?.trim();
                if (text) content.push(text);
            });

            return content.join('\n') || 'No se encontró contenido';
        })()
        "#;

/// WhatsApp Web: the message containers that hold less than 1000 characters.
pub const WHATSAPP_PAGE_SCRIPT: &'static str = r#"
        (function() {
            let content = [];

            const messages = document.querySelectorAll('[data-testid="msg-container"]');
            messages.forEach(msg => {
                const text = msg.textContent?.trim();
                if (text && text.length < 1000) content.push(text);
            });

            return content.join('\n') || 'No se encontró contenido';
        })()
        "#;

/// Telegram Web: the messages.
pub const TELEGRAM_PAGE_SCRIPT: &'static str = r#"
        (function() {
            let content = [];

            const messages = document.querySelectorAll('.message-content');
            messages.forEach(msg => {
                const text = msg.textContent?.trim();
                if (text) content.push(text);
            });

            return content.join('\n') || 'No se encontró contenido';
        })()
        "#;

/// Any other page: all of its visible text.
pub const VISIBLE_TEXT_SCRIPT: &'static str = r#"
        (function() {
            return document.body.innerText || 'No se encontró contenido';
        })()
        "#;

/// The page script for an address that is already in lower case: the script
/// of the first known site whose domain occurs in the address, else the
/// script that reads all visible text.
pub open spec fn script_for(url_lower: Seq<char>) -> Seq<char> {
    if contains_text(url_lower, "meet.google.com"@) {
        MEET_PAGE_SCRIPT@
    } else if contains_text(url_lower, "teams.microsoft.com"@) {
        TEAMS_PAGE_SCRIPT@
    } else if contains_text(url_lower, "discord.com"@) {
        DISCORD_PAGE_SCRIPT@
    } else if contains_text(url_lower, "whatsapp.com"@) {
        WHATSAPP_PAGE_SCRIPT@
    } else if contains_text(url_lower, "telegram.org"@) {
        TELEGRAM_PAGE_SCRIPT@
    } else {
        VISIBLE_TEXT_SCRIPT@
    }
}

/// The page script for an address that is already in lower case.
pub fn script_for_lowered_url(url_lower: &str) -> (script: String)
    ensures
        script@ == script_for(url_lower@),
{
    if contains(url_lower, "meet.google.com") {
        String::from_str(MEET_PAGE_SCRIPT)
    } else if contains(url_lower, "teams.microsoft.com") {
        String::from_str(TEAMS_PAGE_SCRIPT)
    } else if contains(url_lower, "discord.com") {
        String::from_str(DISCORD_PAGE_SCRIPT)
    } else if contains(url_lower, "whatsapp.com") {
        String::from_str(WHATSAPP_PAGE_SCRIPT)
    } else if contains(url_lower, "telegram.org") {
        String::from_str(TELEGRAM_PAGE_SCRIPT)
    } else {
        String::from_str(VISIBLE_TEXT_SCRIPT)
    }
}

/// The page script for a tab's address, whatever its case.
pub fn get_extraction_script(url: &str) -> (script: String)
    ensures
        script@ == script_for(lowercase_of(url@)),
{
    let url_lower = to_lowercase(url);
    script_for_lowered_url(url_lower.as_str())
}

/// First part of a rendered selector script, up to the sender selector.
pub const RENDER_HEAD: &'static str = "(function() {\n    let content = [];\n    const senders = document.querySelectorAll(\"";

/// Part of a rendered selector script between the two selectors.
pub const RENDER_MIDDLE: &'static str = "\");\n    const messages = document.querySelectorAll(\"";

/// Last part of a rendered selector script, after the message selector.
pub const RENDER_TAIL: &'static str = "\");\n    messages.forEach((msg, i) => {\n        const text = msg.textContent?.trim();\n        const who = senders[i]?.textContent?.trim();\n        if (text) content.push(who ? who + ': ' + text : text);\n    });\n    return content.join('\\n') || 'No messages';\n})()";

/// Sender selector of a rendered script for a site that shows no senders:
/// it selects nothing.
pub const NO_SENDER: &'static str = ":not(*)";

/// The generic script for a catalogue entry: it queries the entry's two
/// selectors and joins each message with its sender.
pub open spec fn rendered_script(entry: SelectorModel) -> Seq<char> {
    RENDER_HEAD@ + match entry.sender_selector {
        Some(s) => s,
        None => NO_SENDER@,
    } + RENDER_MIDDLE@ + entry.message_selector + RENDER_TAIL@
}

/// Renders the generic script for a catalogue entry.
pub fn render_selector_script(entry: &SelectorConfig) -> (script: String)
    ensures
        script@ == rendered_script(entry@),
{
    let head = String::from_str(RENDER_HEAD);
    let with_sender = match &entry.sender_selector {
        Some(s) => head.concat(s.as_str()),
        None => head.concat(NO_SENDER),
    };
    with_sender.concat(RENDER_MIDDLE).concat(entry.message_selector.as_str()).concat(RENDER_TAIL)
}

/// Which script reads a tab: the profile's own where a profile was matched,
/// else the one rendered from the catalogue entry of the tab's domain, else
/// the script that reads all visible text.
pub open spec fn selected_script(profile: Option<TaskModel>, entry: Option<SelectorModel>) -> Seq<
    char,
> {
    match profile {
        Some(p) => p.css_selector,
        None => match entry {
            Some(e) => rendered_script(e),
            None => VISIBLE_TEXT_SCRIPT@,
        },
    }
}

/// The model of an optional borrowed profile.
pub open spec fn borrowed_model(profile: Option<&ContextTask>) -> Option<TaskModel> {
    match profile {
        Some(p) => Some(p@),
        None => None,
    }
}

/// The model of an optional borrowed catalogue entry.
pub open spec fn borrowed_entry(entry: Option<&SelectorConfig>) -> Option<SelectorModel> {
    match entry {
        Some(e) => Some(e@),
        None => None,
    }
}

/// Picks the script that reads a tab, given the profile that was matched and
/// the catalogue entry of the tab's domain.
pub fn select_script(profile: Option<&ContextTask>, entry: Option<&SelectorConfig>) -> (script:
    String)
    ensures
        script@ == selected_script(borrowed_model(profile), borrowed_entry(entry)),
{
    match profile {
        Some(p) => p.css_selector.clone(),
        None => match entry {
            Some(e) => render_selector_script(e),
            None => String::from_str(VISIBLE_TEXT_SCRIPT),
        },
    }
}

/// What the browser reports of one debugging target.
#[derive(Debug)]
pub struct TargetInfo {
    /// The browser's identifier of the target.
    pub target_id: String,
    /// The target's type: `page` for a tab, other words for workers and the like.
    pub kind: String,
    /// The target's title.
    pub title: String,
    /// The target's address.
    pub url: String,
}

/// The mathematical content of a `TargetInfo`.
pub struct TargetModel {
    pub target_id: Seq<char>,
    pub kind: Seq<char>,
    pub title: Seq<char>,
    pub url: Seq<char>,
}

impl View for TargetInfo {
    type V = TargetModel;

    open spec fn view(&self) -> TargetModel {
        TargetModel {
            target_id: self.target_id@,
            kind: self.kind@,
            title: self.title@,
            url: self.url@,
        }
    }
}

/// The models of a sequence of targets.
pub open spec fn target_models(targets: Seq<TargetInfo>) -> Seq<TargetModel> {
    Seq::new(targets.len(), |i: int| targets[i]@)
}

/// The target is a tab.
pub open spec fn is_page(target: TargetModel) -> bool {
    target.kind == "page"@
}

/// The target is a tab whose title contains `name`, case ignored.
pub open spec fn target_fits(target: TargetModel, name: Seq<char>) -> bool {
    is_page(target) && contains_ignoring_case(target.title, name)
}

/// Position `i` holds the first target that fits `name`.
pub open spec fn first_fit_at(targets: Seq<TargetModel>, name: Seq<char>, i: int) -> bool {
    &&& 0 <= i < targets.len()
    &&& target_fits(targets[i], name)
    &&& forall|j: int| 0 <= j < i ==> !target_fits(#[trigger] targets[j], name)
}

/// No target fits `name`.
pub open spec fn no_fit(targets: Seq<TargetModel>, name: Seq<char>) -> bool {
    forall|i: int| 0 <= i < targets.len() ==> !target_fits(#[trigger] targets[i], name)
}

/// The targets' titles in lower case, in the order reported.
fn lowered_titles(targets: &Vec<TargetInfo>) -> (titles: Vec<String>)
    ensures
        titles@.len() == targets@.len(),
        forall|i: int|
            0 <= i < targets@.len() ==> (#[trigger] texts_of(titles@)[i]) == lowercase_of(
                targets@[i].title@,
            ),
{
    let mut titles: Vec<String> = Vec::new();
    let mut i: usize = 0;
    while i < targets.len()
        invariant
            i <= targets.len(),
            titles.len() == i,
            forall|k: int| 0 <= k < i ==> (#[trigger] titles@[k])@ == lowercase_of(targets@[k].title@),
        decreases targets.len() - i,
    {
        titles.push(to_lowercase(targets[i].title.as_str()));
        i = i + 1;
    }
    titles
}

/// Finds the tab that is meant by `target_name`: the first target, in the
/// order reported, that is a tab and whose title contains the name, case
/// ignored.
pub fn find_target(targets: &Vec<TargetInfo>, target_name: &str) -> (found: Option<usize>)
    ensures
        match found {
            Some(i) => first_fit_at(target_models(targets@), target_name@, i as int),
            None => no_fit(target_models(targets@), target_name@),
        },
{
    let page = String::from_str("page");
    let name_lower = to_lowercase(target_name);
    let titles = lowered_titles(targets);
    let ghost all = target_models(targets@);
    let mut start: usize = 0;
    while start < targets.len()
        invariant
            page@ == "page"@,
            name_lower@ == lowercase_of(target_name@),
            all == target_models(targets@),
            titles@.len() == targets@.len(),
            forall|i: int|
                0 <= i < targets@.len() ==> (#[trigger] texts_of(titles@)[i]) == lowercase_of(
                    targets@[i].title@,
                ),
            forall|j: int| 0 <= j < start && j < all.len() ==> !target_fits(
                #[trigger] all[j],
                target_name@,
            ),
        decreases targets.len() - start,
    {
        match first_containing(&titles, name_lower.as_str(), start) {
            None => {
                proof {
                    assert forall|j: int| 0 <= j < all.len() implies !target_fits(
                        #[trigger] all[j],
                        target_name@,
                    ) by {
                        if j >= start {
                            assert(!contains_text(texts_of(titles@)[j], name_lower@));
                        }
                    }
                }
                return None;
            },
            Some(i) => {
                proof {
                    assert forall|j: int| 0 <= j < i implies !target_fits(
                        #[trigger] all[j],
                        target_name@,
                    ) by {
                        if j >= start {
                            assert(!contains_text(texts_of(titles@)[j], name_lower@));
                        }
                    }
                }
                if targets[i].kind == page {
                    return Some(i);
                }
                start = i + 1;
            },
        }
    }
    None
}

/// The parts joined into one text, with `sep` between neighbours.
pub open spec fn joined(parts: Seq<Seq<char>>, sep: Seq<char>) -> Seq<char>
    decreases parts.len(),
{
    if parts.len() == 0 {
        Seq::empty()
    } else if parts.len() == 1 {
        parts[0]
    } else {
        joined(parts.drop_last(), sep) + sep + parts.last()
    }
}

/// How a tab is named in a listing: its title in quotes, then its address in brackets.
pub open spec fn target_label(target: TargetModel) -> Seq<char> {
    "'"@ + target.title + "' ("@ + target.url + ")"@
}

/// The labels of the tabs among the targets, in the order reported.
pub open spec fn page_labels(targets: Seq<TargetModel>) -> Seq<Seq<char>> {
    targets.filter(|t: TargetModel| is_page(t)).map_values(|t: TargetModel| target_label(t))
}

/// The listing of the open tabs: their labels, separated by a comma and a space.
pub open spec fn tabs_listing(targets: Seq<TargetModel>) -> Seq<char> {
    joined(page_labels(targets), ", "@)
}

/// Lists the open tabs, for a message that says which tabs there are.
pub fn list_tabs(targets: &Vec<TargetInfo>) -> (listing: String)
    ensures
        listing@ == tabs_listing(target_models(targets@)),
{
    let page = String::from_str("page");
    let ghost all = target_models(targets@);
    let ghost keep = |t: TargetModel| is_page(t);
    let ghost label = |t: TargetModel| target_label(t);
    let mut listing = String::new();
    let mut first = true;
    let mut i: usize = 0;
    proof {
        reveal(Seq::filter);
    }
    while i < targets.len()
        invariant
            i <= targets.len(),
            page@ == "page"@,
            all == target_models(targets@),
            keep == (|t: TargetModel| is_page(t)),
            label == (|t: TargetModel| target_label(t)),
            first <==> all.take(i as int).filter(keep).len() == 0,
            listing@ == joined(all.take(i as int).filter(keep).map_values(label), ", "@),
        decreases targets.len() - i,
    {
        let ghost before = all.take(i as int).filter(keep).map_values(label);
        proof {
            lemma_filter_step(all, keep, i as int);
        }
        if targets[i].kind == page {
            if !first {
                listing.append(", ");
            }
            listing.append("'");
            listing.append(targets[i].title.as_str());
            listing.append("' (");
            listing.append(targets[i].url.as_str());
            listing.append(")");
            proof {
                let after = all.take(i + 1).filter(keep).map_values(label);
                assert(after.drop_last() =~= before);
            }
            first = false;
        }
        i = i + 1;
    }
    assert(all.take(i as int) =~= all);
    listing
}

/// Most characters that are reported of a script's answer.
pub const CONTENT_LIMIT: usize = 500;

/// What is reported where a script's answer holds nothing.
pub const NO_CONTENT: &'static str = "No se encontró contenido en la pestaña";

/// What is reported of a script's answer: its first `CONTENT_LIMIT`
/// characters, or the notice `NO_CONTENT` where those are none or show an
/// undefined value.
pub open spec fn shaped_content(raw: Seq<char>) -> Seq<char> {
    let cut = if raw.len() <= CONTENT_LIMIT {
        raw
    } else {
        raw.take(CONTENT_LIMIT as int)
    };
    if cut.len() == 0 || contains_text(cut, "Undefined"@) {
        NO_CONTENT@
    } else {
        cut
    }
}

/// Shapes a script's answer for the report.
pub fn shape_content(raw: &str) -> (content: String)
    ensures
        content@ == shaped_content(raw@),
{
    let count = raw.unicode_len();
    let keep = if count <= CONTENT_LIMIT {
        count
    } else {
        CONTENT_LIMIT
    };
    let cut = raw.substring_char(0, keep);
    assert(cut@ =~= if raw@.len() <= CONTENT_LIMIT {
        raw@
    } else {
        raw@.take(CONTENT_LIMIT as int)
    });
    if cut.is_empty() || contains(cut, "Undefined") {
        String::from_str(NO_CONTENT)
    } else {
        String::from_str(cut)
    }
}

/// The outcome of reading one tab.
#[derive(Debug)]
pub struct ContextResult {
    /// Whether the script ran.
    pub success: bool,
    /// What the script found, shaped for the report; empty where it did not run.
    pub content: String,
    /// Title of the tab that was read.
    pub tab_title: String,
    /// Address of the tab that was read.
    pub tab_url: String,
    /// Why the script did not run.
    pub error: Option<String>,
}

/// What is to be done to read the tab that was asked for.
#[derive(Debug)]
pub struct ExtractionPlan {
    /// Identifier of the tab to attach to.
    pub target_id: String,
    /// Title of that tab.
    pub tab_title: String,
    /// Address of that tab.
    pub tab_url: String,
    /// Script to run in that tab.
    pub script: String,
}

/// The message for a browser that does not answer on its debugging port.
pub open spec fn connect_error_text(detail: Seq<char>) -> Seq<char> {
    "No se pudo conectar a Chrome en puerto 9222: "@ + detail
        + ". Asegúrate de que Chrome está abierto con --remote-debugging-port=9222"@
}

/// The message for a browser that does not list its tabs.
pub open spec fn targets_error_text(detail: Seq<char>) -> Seq<char> {
    "No se pudo obtener las pestañas: "@ + detail
}

/// The message for a tab that cannot be attached to.
pub open spec fn page_error_text(detail: Seq<char>) -> Seq<char> {
    "No se pudo acceder a la pestaña: "@ + detail
}

/// The message for a script that failed in the page.
pub open spec fn script_error_text(detail: Seq<char>) -> Seq<char> {
    "Error al ejecutar script: "@ + detail
}

/// The message for a name that no open tab fits; it lists the open tabs.
pub open spec fn not_found_text(target_name: Seq<char>, listing: Seq<char>) -> Seq<char> {
    "No se encontró pestaña que contenga '"@ + target_name + "'. Pestañas disponibles: "@
        + listing
}

/// The message for a browser that does not answer on its debugging port.
pub fn connect_error_message(detail: &str) -> (message: String)
    ensures
        message@ == connect_error_text(detail@),
{
    String::from_str("No se pudo conectar a Chrome en puerto 9222: ").concat(detail).concat(
        ". Asegúrate de que Chrome está abierto con --remote-debugging-port=9222",
    )
}

/// The message for a browser that does not list its tabs.
pub fn targets_error_message(detail: &str) -> (message: String)
    ensures
        message@ == targets_error_text(detail@),
{
    String::from_str("No se pudo obtener las pestañas: ").concat(detail)
}

/// The message for a tab that cannot be attached to.
pub fn page_error_message(detail: &str) -> (message: String)
    ensures
        message@ == page_error_text(detail@),
{
    String::from_str("No se pudo acceder a la pestaña: ").concat(detail)
}

/// Decides what to do once the browser has listed its targets: read the
/// first tab that fits `target_name`, with the script for its address; or
/// fail, where no tab fits, with a message that lists the open tabs.
pub fn plan_extraction(targets: &Vec<TargetInfo>, target_name: &str) -> (outcome: Result<
    ExtractionPlan,
    String,
>)
    ensures
        match outcome {
            Ok(plan) => exists|i: int|
                {
                    &&& first_fit_at(target_models(targets@), target_name@, i)
                    &&& plan.target_id@ == targets@[i].target_id@
                    &&& plan.tab_title@ == targets@[i].title@
                    &&& plan.tab_url@ == targets@[i].url@
                    &&& plan.script@ == script_for(lowercase_of(targets@[i].url@))
                },
            Err(message) => {
                &&& no_fit(target_models(targets@), target_name@)
                &&& message@ == not_found_text(
                    target_name@,
                    tabs_listing(target_models(targets@)),
                )
            },
        },
{
    match find_target(targets, target_name) {
        Some(i) => {
            let target = &targets[i];
            let plan = ExtractionPlan {
                target_id: target.target_id.clone(),
                tab_title: target.title.clone(),
                tab_url: target.url.clone(),
                script: get_extraction_script(target.url.as_str()),
            };
            Ok(plan)
        },
        None => {
            let listing = list_tabs(targets);
            Err(
                String::from_str("No se encontró pestaña que contenga '").concat(
                    target_name,
                ).concat("'. Pestañas disponibles: ").concat(listing.as_str()),
            )
        },
    }
}

/// Reports how the script ended: with its answer, shaped, where it ran;
/// with the failure, and no content, where it did not.
pub fn finish_extraction(plan: ExtractionPlan, evaluation: Result<String, String>) -> (result:
    ContextResult)
    ensures
        result.tab_title@ == plan.tab_title@,
        result.tab_url@ == plan.tab_url@,
        match evaluation {
            Ok(raw) => {
                &&& result.success
                &&& result.content@ == shaped_content(raw@)
                &&& result.error is None
            },
            Err(detail) => {
                &&& !result.success
                &&& result.content@ == Seq::<char>::empty()
                &&& result.error matches Some(e)
                &&& e@ == script_error_text(detail@)
            },
        },
{
    match evaluation {
        Ok(raw) => ContextResult {
            success: true,
            content: shape_content(raw.as_str()),
            tab_title: plan.tab_title,
            tab_url: plan.tab_url,
            error: None,
        },
        Err(detail) => ContextResult {
            success: false,
            content: String::new(),
            tab_title: plan.tab_title,
            tab_url: plan.tab_url,
            error: Some(String::from_str("Error al ejecutar script: ").concat(detail.as_str())),
        },
    }
}

} // verus!
