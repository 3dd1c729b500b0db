//! The chat view's permission gate. A tool call asks the user through an
//! overlay; "allow permanently" answers are remembered per tool, so later
//! calls of that tool are allowed without asking again. The channel that
//! carries requests to the overlay and answers back stays with the caller.

use vstd::prelude::*;
use vstd::string::*;

use crate::agent::turn::{PermissionDecision, PermissionRequest as CorePermissionRequest};
use crate::ui::settings::{list_contains, texts};

verus! {

/// A permission request as sent to the chat view, with the channel for the
/// user's decision.
pub struct PermissionRequest {
    /// Unique id of this request.
    pub id: String,
    /// The tool that wants permission.
    pub tool_name: String,
    /// One-line summary of the operation.
    pub description: String,
    /// Extra detail, shown on demand.
    pub details: Option<String>,
    /// Whether the operation is free of side effects.
    pub is_read_only: bool,
    /// The target path, when the decision depends on it.
    pub path: Option<String>,
    /// Why the tool needs permission.
    pub context_description: Option<String>,
    /// Where the user's decision goes.
    pub reply_tx: tokio::sync::oneshot::Sender<PermissionDecision>,
}

/// `uuid::Uuid::new_v4`, as text: a fresh random id. Nothing is stated of
/// its value.
#[verifier::external_body]
fn fresh_request_id() -> (r: String) {
    uuid::Uuid::new_v4().to_string()
}

/// The tools the user allowed permanently this session.
pub struct GuiPermissionHandler {
    always_allow: Vec<String>,
}

/// The reason shown when the user is asked: the request's context
/// description, else its details, else a generic sentence naming the tool.
pub open spec fn ask_reason_spec(request: CorePermissionRequest) -> Seq<char> {
    match request.context_description {
        Some(c) => c@,
        None => match request.details {
            Some(d) => d@,
            None => "Tool '"@ + request.tool_name@ + "' requests permission"@,
        },
    }
}

/// The decision a request ends with once the user's answer is in: deny
/// when no answer came back (channel closed or reply dropped).
pub open spec fn settled(reply: Option<PermissionDecision>) -> PermissionDecision {
    match reply {
        Some(d) => d,
        None => PermissionDecision::Deny,
    }
}

/// What settling a request of tool `tool` with answer `reply` does to the
/// remembered tools: it adds `tool` when the answer is `AllowPermanently`,
/// and nothing else.
pub open spec fn settle_effect(
    before: GuiPermissionHandler,
    after: GuiPermissionHandler,
    tool: Seq<char>,
    reply: Option<PermissionDecision>,
) -> bool {
    forall|name: Seq<char>|
        #[trigger] after.allows(name) == (before.allows(name) || (name == tool && reply == Some(
            PermissionDecision::AllowPermanently,
        )))
}

impl GuiPermissionHandler {
    /// Whether tool `name` is allowed permanently.
    pub closed spec fn allows(&self, name: Seq<char>) -> bool {
        texts(self.always_allow@).contains(name)
    }

    /// A gate that remembers nothing yet.
    pub fn new() -> (r: GuiPermissionHandler)
        ensures
            forall|name: Seq<char>| !r.allows(name),
    {
        GuiPermissionHandler { always_allow: Vec::new() }
    }

    /// The reason shown when the user is asked.
    pub fn ask_reason(request: &CorePermissionRequest) -> (r: String)
        ensures
            r@ == ask_reason_spec(*request),
    {
        match &request.context_description {
            Some(c) => c.clone(),
            None => match &request.details {
                Some(d) => d.clone(),
                None => {
                    let mut s = String::from_str("Tool '");
                    s.append(request.tool_name.as_str());
                    s.append("' requests permission");
                    s
                },
            },
        }
    }

    /// Whether the tool may run without asking: `Allow` when it is allowed
    /// permanently, else `Ask` with the reason to show.
    pub fn check_permission(&self, request: &CorePermissionRequest) -> (r: PermissionDecision)
        ensures
            self.allows(request.tool_name@) ==> r is Allow,
            !self.allows(request.tool_name@) ==> (r matches PermissionDecision::Ask { reason } && reason@
                == ask_reason_spec(*request)),
    {
        if list_contains(&self.always_allow, request.tool_name.as_str()) {
            PermissionDecision::Allow
        } else {
            PermissionDecision::Ask { reason: Self::ask_reason(request) }
        }
    }

    /// The decision made without the user: `Allow` for a tool allowed
    /// permanently, nothing otherwise (the user must be asked).
    pub fn fast_path(&self, request: &CorePermissionRequest) -> (r: Option<PermissionDecision>)
        ensures
            self.allows(request.tool_name@) ==> r == Some(PermissionDecision::Allow),
            !self.allows(request.tool_name@) ==> r is None,
    {
        if list_contains(&self.always_allow, request.tool_name.as_str()) {
            Some(PermissionDecision::Allow)
        } else {
            None
        }
    }

    /// The envelope that carries `request` to the chat view, under a fresh
    /// id, with the channel for the answer.
    pub fn build_gui_request(
        &self,
        request: &CorePermissionRequest,
        reply_tx: tokio::sync::oneshot::Sender<PermissionDecision>,
    ) -> (r: PermissionRequest)
        ensures
            r.tool_name == request.tool_name,
            r.description == request.description,
            r.details == request.details,
            r.is_read_only == request.is_read_only,
            r.path == request.path,
            r.context_description == request.context_description,
            r.reply_tx == reply_tx,
    {
        PermissionRequest {
            id: fresh_request_id(),
            tool_name: request.tool_name.clone(),
            description: request.description.clone(),
            details: crate::types::copy_opt_string(&request.details),
            is_read_only: request.is_read_only,
            path: crate::types::copy_opt_string(&request.path),
            context_description: crate::types::copy_opt_string(&request.context_description),
            reply_tx,
        }
    }

    /// Decide a request: `Allow` at once for a tool allowed permanently,
    /// without asking; otherwise ask the user exactly once, through `ask`
    /// (which sends the envelope carrying `reply_tx` and waits for the
    /// answer; nothing when the channel is closed or the answer dropped),
    /// then settle that answer (see `settle`): no answer denies.
    pub fn request_permission(
        &mut self,
        request: &CorePermissionRequest,
        reply_tx: tokio::sync::oneshot::Sender<PermissionDecision>,
        ask: impl FnOnce(PermissionRequest) -> Option<PermissionDecision>,
    ) -> (r: PermissionDecision)
        requires
            forall|p: PermissionRequest| call_requires(ask, (p,)),
        ensures
            old(self).allows(request.tool_name@) ==> r == PermissionDecision::Allow && *final(self) == *old(self),
            !old(self).allows(request.tool_name@) ==> exists|p: PermissionRequest, reply: Option<PermissionDecision>|
                {
                    &&& #[trigger] call_ensures(ask, (p,), reply)
                    &&& p.tool_name == request.tool_name
                    &&& p.reply_tx == reply_tx
                    &&& r == settled(reply)
                    &&& settle_effect(*old(self), *final(self), request.tool_name@, reply)
                },
    {
        if let Some(d) = self.fast_path(request) {
            return d;
        }
        let envelope = self.build_gui_request(request, reply_tx);
        let ghost sent = envelope;
        let reply = ask(envelope);
        let r = self.settle(request, reply);
        assert(call_ensures(ask, (sent,), reply));
        r
    }

    /// Settle a request the user was asked about: deny when no answer came
    /// back; remember the tool when the answer is `AllowPermanently`.
    pub fn settle(&mut self, request: &CorePermissionRequest, reply: Option<PermissionDecision>) -> (r:
        PermissionDecision)
        ensures
            r == settled(reply),
            settle_effect(*old(self), *final(self), request.tool_name@, reply),
    {
        match reply {
            None => PermissionDecision::Deny,
            Some(d) => {
                let permanent = match &d {
                    PermissionDecision::AllowPermanently => true,
                    _ => false,
                };
                if permanent && !list_contains(&self.always_allow, request.tool_name.as_str()) {
                    let ghost before = self.always_allow@;
                    self.always_allow.push(request.tool_name.clone());
                    let ghost t0 = texts(before);
                    let ghost t1 = texts(self.always_allow@);
                    assert(t1 =~= t0.push(request.tool_name@));
                    assert forall|name: Seq<char>|
                        #[trigger] t1.contains(name) == (t0.contains(name) || name == request.tool_name@) by {
                        if name == request.tool_name@ {
                            assert(t1[t0.len() as int] == name);
                        }
                        if t0.contains(name) {
                            let k = choose|k: int| 0 <= k < t0.len() && t0[k] == name;
                            assert(t1[k] == name);
                        }
                        if t1.contains(name) && name != request.tool_name@ {
                            let k = choose|k: int| 0 <= k < t1.len() && t1[k] == name;
                            assert(k < t0.len());
                            assert(t0[k] == name);
                        }
                    }
                }
                d
            },
        }
    }
}

/// A tool the user allowed permanently is allowed without asking from then
/// on: after settling a request with `AllowPermanently`, checking any later
/// request of that tool gives `Allow`.
pub proof fn law_permanent_allow_is_remembered(
    before: GuiPermissionHandler,
    after: GuiPermissionHandler,
    request: CorePermissionRequest,
    later: CorePermissionRequest,
)
    requires
        settle_effect(before, after, request.tool_name@, Some(PermissionDecision::AllowPermanently)),
        later.tool_name@ == request.tool_name@,
    ensures
        after.allows(later.tool_name@),
{
}

/// Settling never forgets: every tool allowed permanently before a request
/// is settled is still allowed after it, whatever the answer.
pub proof fn law_settle_keeps_permanent_allows(
    before: GuiPermissionHandler,
    after: GuiPermissionHandler,
    tool: Seq<char>,
    reply: Option<PermissionDecision>,
    name: Seq<char>,
)
    requires
        settle_effect(before, after, tool, reply),
        before.allows(name),
    ensures
        after.allows(name),
{
}

} // verus!
