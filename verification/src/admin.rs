//! What the hosting application asks of the registry: each question is
//! answered from a validator that the host holds.

use vstd::prelude::*;
use vstd::string::*;
use crate::context_mapper::{
    all_targets_in, find_in, rejection_text, should_process_in, ContextTask, ContextValidator,
    TaskPriority,
};
use crate::text::texts_of;

verus! {

/// The greeting for a name.
pub open spec fn greeting(name: Seq<char>) -> Seq<char> {
    "Hello, "@ + name + "! You've been greeted from Rust!"@
}

/// Greets by name.
pub fn greet(name: &str) -> (text: String)
    ensures
        text@ == greeting(name@),
{
    String::from_str("Hello, ").concat(name).concat("! You've been greeted from Rust!")
}

/// The profile under which an application is processed, or the sentence
/// that says why it is not.
pub fn validate_app_context(validator: &ContextValidator, app_name: &str) -> (outcome: Result<
    ContextTask,
    String,
>)
    ensures
        match outcome {
            Ok(task) => find_in(validator@, app_name@) == Some(task@) && task@.enabled,
            Err(message) => {
                &&& find_in(validator@, app_name@) matches Some(t) ==> !t.enabled
                &&& message@ == rejection_text(validator@, app_name@)
            },
        },
{
    match validator.validate_and_get_context(app_name) {
        Ok(task) => Ok(task),
        Err(reason) => Err(reason.message()),
    }
}

/// The tab titles to look for, for an application that is processed; the
/// sentence that says why not, for one that is not.
pub fn get_search_targets(validator: &ContextValidator, app_name: &str) -> (outcome: Result<
    Vec<String>,
    String,
>)
    ensures
        match outcome {
            Ok(targets) => {
                &&& find_in(validator@, app_name@) matches Some(t)
                &&& t.enabled
                &&& texts_of(targets@) == all_targets_in(validator@, app_name@)
            },
            Err(message) => {
                &&& find_in(validator@, app_name@) matches Some(t) ==> !t.enabled
                &&& message@ == rejection_text(validator@, app_name@)
            },
        },
{
    match validate_app_context(validator, app_name) {
        Ok(task) => Ok(task.search_targets),
        Err(message) => Err(message),
    }
}

/// Whether an application is processed at the usual threshold, `Normal`.
pub fn should_process_app(validator: &ContextValidator, app_name: &str) -> (process: bool)
    ensures
        process == should_process_in(validator@, app_name@, TaskPriority::Normal),
{
    validator.should_process_notification(app_name, TaskPriority::Normal)
}

} // verus!
