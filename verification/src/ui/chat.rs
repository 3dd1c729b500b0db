//! Decisions of the chat view: what each turn event does to the streamed
//! text, the message list and the loading state, and the small labels the
//! view shows. Rendering and the message list itself stay with the view.

use vstd::prelude::*;
use vstd::string::*;

use crate::agent::turn::{ClaudeError, TurnEvent};
use crate::text::{decimal, is_blank, is_blank_spec, push_decimal};
use crate::types::ToolResultContent;
use crate::ui::chat_settings::Settings as ChatSettings;
use crate::ui::services::agent::messages::{AgentRequest, AgentResponse, MessageRole};

verus! {

/// What the chat view does with its message list after a turn event.
#[derive(Debug)]
pub enum ChatEffect {
    /// Show this text as the streamed assistant message: update the last
    /// message when it is the assistant's, else append one.
    Flush(String),
    /// Append a system (status) message.
    System(String),
    /// Append an error message.
    Error(String),
}

/// The effects of a turn event, in order, and whether the turn is over (the
/// loading state ends and the render throttle restarts).
#[derive(Debug)]
pub struct ChatStep {
    pub effects: Vec<ChatEffect>,
    pub turn_over: bool,
}

/// The content of a chat effect.
pub enum ChatEffectView {
    Flush(Seq<char>),
    System(Seq<char>),
    Error(Seq<char>),
}

/// The content of a chat effect.
pub open spec fn effect_view(e: ChatEffect) -> ChatEffectView {
    match e {
        ChatEffect::Flush(t) => ChatEffectView::Flush(t@),
        ChatEffect::System(t) => ChatEffectView::System(t@),
        ChatEffect::Error(t) => ChatEffectView::Error(t@),
    }
}

/// Flush `text` when there is any.
pub open spec fn flush_if_any(text: Seq<char>) -> Seq<ChatEffectView> {
    if text.len() > 0 {
        seq![ChatEffectView::Flush(text)]
    } else {
        Seq::empty()
    }
}

/// The text shown for a tool result.
pub open spec fn result_text(r: ToolResultContent) -> Seq<char> {
    match r {
        ToolResultContent::Text(t) => t@,
        ToolResultContent::Blocks(_) => "[structured result]"@,
    }
}

/// The message of a failed turn.
pub open spec fn error_text(e: ClaudeError) -> Seq<char> {
    match e {
        ClaudeError::Api(m) => m@,
        ClaudeError::Provider(m) => m@,
        ClaudeError::Other(m) => m@,
    }
}

/// The streamed text after event `ev` (before a turn-ending event clears
/// it), the effects, and whether the turn is over. A text delta is shown
/// when a render is due; tool calls and results become status messages;
/// `Done` shows the text, `Failed` the text and then an error, `Cancelled`
/// the text marked as cancelled.
pub open spec fn chat_step_spec(streaming: Seq<char>, ev: TurnEvent, render_due: bool) -> (
    Seq<char>,
    Seq<ChatEffectView>,
    bool,
) {
    match ev {
        TurnEvent::TextDelta { text } => (
            streaming + text@,
            if render_due {
                flush_if_any(streaming + text@)
            } else {
                Seq::empty()
            },
            false,
        ),
        TurnEvent::ToolUseStart { name, .. } => (
            streaming,
            seq![ChatEffectView::System("\u{1f527} \u{8c03}\u{7528}\u{5de5}\u{5177}: "@ + name@ + "..."@)],
            false,
        ),
        TurnEvent::ToolUseDelta { .. } => (streaming, Seq::empty(), false),
        TurnEvent::ToolEnd { result, is_error, .. } => (
            streaming,
            seq![
                ChatEffectView::System(
                    (if is_error {
                        "\u{2717}"@
                    } else {
                        "\u{2713}"@
                    }) + " \u{5de5}\u{5177}\u{8fd4}\u{56de}: "@ + result_text(result),
                ),
            ],
            false,
        ),
        TurnEvent::Done { .. } => (Seq::empty(), flush_if_any(streaming), true),
        TurnEvent::Failed { error } => (
            Seq::empty(),
            flush_if_any(streaming) + seq![ChatEffectView::Error(error_text(error))],
            true,
        ),
        TurnEvent::Cancelled => (
            Seq::empty(),
            if streaming.len() > 0 {
                seq![ChatEffectView::Flush(streaming + " (\u{5df2}\u{53d6}\u{6d88})"@)]
            } else {
                Seq::empty()
            },
            true,
        ),
    }
}

fn flush_effects(text: &String) -> (r: Vec<ChatEffect>)
    ensures
        r@.map_values(|e: ChatEffect| effect_view(e)) == flush_if_any(text@),
{
    let mut out: Vec<ChatEffect> = Vec::new();
    if text.unicode_len() > 0 {
        out.push(ChatEffect::Flush(text.clone()));
    }
    assert(out@.map_values(|e: ChatEffect| effect_view(e)) =~= flush_if_any(text@));
    out
}

fn one_effect(e: ChatEffect) -> (r: Vec<ChatEffect>)
    ensures
        r@.map_values(|x: ChatEffect| effect_view(x)) == seq![effect_view(e)],
{
    let out = vec![e];
    assert(out@.map_values(|x: ChatEffect| effect_view(x)) =~= seq![effect_view(e)]);
    out
}

/// Apply a turn event to the streamed text `streaming`.
pub fn chat_turn_step(streaming: &mut String, ev: TurnEvent, render_due: bool) -> (r: ChatStep)
    ensures
        final(streaming)@ == chat_step_spec(old(streaming)@, ev, render_due).0,
        r.effects@.map_values(|e: ChatEffect| effect_view(e)) == chat_step_spec(
            old(streaming)@,
            ev,
            render_due,
        ).1,
        r.turn_over == chat_step_spec(old(streaming)@, ev, render_due).2,
{
    match ev {
        TurnEvent::TextDelta { text } => {
            streaming.append(text.as_str());
            let effects = if render_due {
                flush_effects(streaming)
            } else {
                let out: Vec<ChatEffect> = Vec::new();
                assert(out@.map_values(|e: ChatEffect| effect_view(e)) =~= Seq::<ChatEffectView>::empty());
                out
            };
            ChatStep { effects, turn_over: false }
        },
        TurnEvent::ToolUseStart { name, .. } => {
            let mut m = String::from_str("\u{1f527} \u{8c03}\u{7528}\u{5de5}\u{5177}: ");
            m.append(name.as_str());
            m.append("...");
            ChatStep { effects: one_effect(ChatEffect::System(m)), turn_over: false }
        },
        TurnEvent::ToolUseDelta { .. } => {
            let out: Vec<ChatEffect> = Vec::new();
            assert(out@.map_values(|e: ChatEffect| effect_view(e)) =~= Seq::<ChatEffectView>::empty());
            ChatStep { effects: out, turn_over: false }
        },
        TurnEvent::ToolEnd { result, is_error, .. } => {
            let mut m = if is_error {
                String::from_str("\u{2717}")
            } else {
                String::from_str("\u{2713}")
            };
            m.append(" \u{5de5}\u{5177}\u{8fd4}\u{56de}: ");
            match &result {
                ToolResultContent::Text(t) => m.append(t.as_str()),
                ToolResultContent::Blocks(_) => m.append("[structured result]"),
            }
            ChatStep { effects: one_effect(ChatEffect::System(m)), turn_over: false }
        },
        TurnEvent::Done { .. } => {
            let effects = flush_effects(streaming);
            *streaming = String::new();
            ChatStep { effects, turn_over: true }
        },
        TurnEvent::Failed { error } => {
            let mut effects = flush_effects(streaming);
            let ghost flushed = effects@.map_values(|e: ChatEffect| effect_view(e));
            let m = error.message();
            effects.push(ChatEffect::Error(m));
            assert(effects@.map_values(|e: ChatEffect| effect_view(e)) =~= flushed.push(
                ChatEffectView::Error(error_text(error)),
            ));
            *streaming = String::new();
            ChatStep { effects, turn_over: true }
        },
        TurnEvent::Cancelled => {
            let effects = if streaming.unicode_len() > 0 {
                let mut t = streaming.clone();
                t.append(" (\u{5df2}\u{53d6}\u{6d88})");
                one_effect(ChatEffect::Flush(t))
            } else {
                let out: Vec<ChatEffect> = Vec::new();
                assert(out@.map_values(|e: ChatEffect| effect_view(e)) =~= Seq::<ChatEffectView>::empty());
                out
            };
            *streaming = String::new();
            ChatStep { effects, turn_over: true }
        },
    }
}

/// Whether a flush updates the last message in place (it is the
/// assistant's) rather than appending a new assistant message.
pub fn flush_updates_last(last_role: Option<MessageRole>) -> (r: bool)
    ensures
        r == (last_role == Some(MessageRole::Assistant)),
{
    match last_role {
        Some(MessageRole::Assistant) => true,
        _ => false,
    }
}

/// Whether typed text is sent: anything but blank text.
pub fn should_submit(text: &str) -> (r: bool)
    ensures
        r == !is_blank_spec(text@),
{
    !is_blank(text)
}

/// The label of the attach button for `n` attached files.
pub fn attachment_label(n: usize) -> (r: String)
    ensures
        r@ == (if n == 0 {
            "Attach file"@
        } else if n == 1 {
            "1 file"@
        } else {
            decimal(n as nat) + " files"@
        }),
{
    if n == 0 {
        String::from_str("Attach file")
    } else if n == 1 {
        String::from_str("1 file")
    } else {
        let mut s = String::new();
        push_decimal(&mut s, n as u64);
        s.append(" files");
        s
    }
}

/// The requests that configure the agent from the chat settings: the
/// provider, then key and base URL (always after a save; at start-up only
/// when a key is set), the model and the working directory.
pub open spec fn config_requests_ok(s: ChatSettings, with_key: bool, r: Seq<AgentRequest>) -> bool {
    let n: int = if with_key {
        4
    } else {
        3
    };
    &&& r.len() == n
    &&& r[0] == AgentRequest::SetProvider(s.provider)
    &&& with_key ==> (r[1] matches AgentRequest::SetApiConfig { api_key, base_url } && api_key == s.api_key
        && base_url@ == (if is_blank_spec(s.base_url@) {
        crate::api::providers::ANTHROPIC_API_BASE@
    } else {
        s.base_url@
    }))
    &&& r[n - 2] == AgentRequest::SetModel(s.model)
    &&& r[n - 1] == AgentRequest::SetWorkingDir(s.working_dir)
}

fn config_requests(s: &ChatSettings, with_key: bool) -> (r: Vec<AgentRequest>)
    ensures
        config_requests_ok(*s, with_key, r@),
{
    let mut out: Vec<AgentRequest> = Vec::new();
    out.push(AgentRequest::SetProvider(s.provider.clone()));
    if with_key {
        out.push(AgentRequest::SetApiConfig { api_key: s.api_key.clone(), base_url: s.effective_base_url() });
    }
    out.push(AgentRequest::SetModel(s.model.clone()));
    out.push(AgentRequest::SetWorkingDir(s.working_dir.clone()));
    out
}

/// The requests sent to the agent when the chat view starts: the key and
/// base URL only when a key is configured.
pub fn startup_requests(s: &ChatSettings) -> (r: Vec<AgentRequest>)
    ensures
        config_requests_ok(*s, !is_blank_spec(s.api_key@), r@),
{
    let with_key = s.has_api_key();
    config_requests(s, with_key)
}

/// The requests sent to the agent when new settings are saved.
pub fn save_requests(s: &ChatSettings) -> (r: Vec<AgentRequest>)
    ensures
        config_requests_ok(*s, true, r@),
{
    config_requests(s, true)
}

/// The provider the settings form selects: the chosen one when it is not
/// empty, Anthropic otherwise.
pub fn collected_provider(selected: Option<&str>) -> (r: String)
    ensures
        r@ == match selected {
            Some(p) => if p@.len() > 0 {
                p@
            } else {
                "anthropic"@
            },
            None => "anthropic"@,
        },
{
    match selected {
        Some(p) => if p.unicode_len() > 0 {
            String::from_str(p)
        } else {
            String::from_str("anthropic")
        },
        None => String::from_str("anthropic"),
    }
}

/// What the chat view does with a response from the agent.
#[derive(Debug)]
pub enum IncomingEffect {
    /// Nothing (deltas and tool events of the turn, prompts the view does
    /// not show yet).
    Nothing,
    /// The turn is over: stop showing it as loading.
    StopLoading,
    /// Show this error and stop loading.
    ShowError(String),
}

/// What the chat view does with a response from the agent: a finished or
/// cancelled turn stops loading, a failed turn or an agent error is shown.
pub fn incoming_effect(resp: &AgentResponse) -> (r: IncomingEffect)
    ensures
        match resp {
            AgentResponse::TurnEvent(TurnEvent::Done { .. }) => r is StopLoading,
            AgentResponse::TurnEvent(TurnEvent::Cancelled) => r is StopLoading,
            AgentResponse::TurnEvent(TurnEvent::Failed { error }) => r matches IncomingEffect::ShowError(m)
                && m@ == error_text(*error),
            AgentResponse::Error(e) => r matches IncomingEffect::ShowError(m) && m@ == e@,
            _ => r is Nothing,
        },
{
    match resp {
        AgentResponse::TurnEvent(TurnEvent::Done { .. }) => IncomingEffect::StopLoading,
        AgentResponse::TurnEvent(TurnEvent::Cancelled) => IncomingEffect::StopLoading,
        AgentResponse::TurnEvent(TurnEvent::Failed { error }) => IncomingEffect::ShowError(error.message()),
        AgentResponse::Error(e) => IncomingEffect::ShowError(e.clone()),
        _ => IncomingEffect::Nothing,
    }
}

} // verus!
