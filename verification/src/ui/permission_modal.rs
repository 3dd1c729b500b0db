//! What the chat view's approval and question overlays receive from the
//! agent: the request, and the channel that carries the user's answer back.

use vstd::prelude::*;
use vstd::string::*;

use crate::agent::turn::PermissionDecision;

verus! {

/// `tokio::sync::oneshot::Sender` carries the user's answer back to the
/// waiting agent task.
#[verifier::external_type_specification]
#[verifier::external_body]
#[verifier::reject_recursive_types(T)]
pub struct ExOneshotSender<T>(tokio::sync::oneshot::Sender<T>);

/// A tool-permission prompt shown in the approval overlay.
pub struct PermissionRequest {
    /// Unique id of this request.
    pub id: String,
    /// The tool that wants to run.
    pub tool_name: String,
    /// What the tool is about to do (description, details, path).
    pub input: serde_json::Value,
    /// The risk level shown: `ReadOnly` or `Write`.
    pub level: String,
    /// Where the user's decision goes.
    pub reply_tx: tokio::sync::oneshot::Sender<PermissionDecision>,
}

/// A question a tool asks the user.
pub struct UserQuestionEvent {
    pub question: String,
    /// Predefined answers; free text when absent or empty.
    pub options: Option<Vec<String>>,
    /// Where the answer goes.
    pub reply_tx: tokio::sync::oneshot::Sender<String>,
}

/// The risk level shown for a request: `ReadOnly` for read-only operations,
/// `Write` otherwise.
pub fn risk_level(is_read_only: bool) -> (r: String)
    ensures
        r@ == (if is_read_only {
            "ReadOnly"@
        } else {
            "Write"@
        }),
{
    if is_read_only {
        String::from_str("ReadOnly")
    } else {
        String::from_str("Write")
    }
}

/// Whether a question offers predefined answers (buttons) rather than a
/// free-text field.
pub fn has_options(ev: &UserQuestionEvent) -> (r: bool)
    ensures
        r == (ev.options matches Some(o) && o@.len() > 0),
{
    match &ev.options {
        Some(o) => o.len() > 0,
        None => false,
    }
}

} // verus!
