//! The chat agent: model, system prompt, tools, transcript and the provider
//! they are sent to. It turns its transcript into provider requests (in the
//! library's message form, filtered by what the provider supports) and
//! decides how each request from the chat view changes it.

use vstd::prelude::*;
use vstd::string::*;

use crate::api::provider_types::{ProviderCapabilities, ProviderRequest};
use crate::api::providers::{anthropic_from_config, anthropic_spec, ClientConfig, ProviderSpec, ANTHROPIC_API_BASE};
use crate::api::registry::{from_config_spec, provider_from_config};
use crate::config::Config;
use crate::text::{is_blank, is_blank_spec, str_eq};
use crate::types::{
    duplicate_blocks, same_block, same_blocks, ContentBlock, DocumentSource, Message as LibMessage,
    MessageContent as LibMessageContent, Role as LibRole, ToolDefinition,
};
use crate::ui::services::agent::messages::AgentRequest;
use crate::ui::services::agent::types::{Message, Tool};
use crate::ui::turn::{new_request, with_system_prompt};

verus! {

/// The role of a transcript message in library form.
pub open spec fn lib_role(m: Message) -> LibRole {
    match m {
        Message::User { .. } => LibRole::User,
        Message::Assistant { .. } => LibRole::Assistant,
    }
}

/// The blocks of a transcript message.
pub open spec fn message_blocks(m: Message) -> Seq<ContentBlock> {
    match m {
        Message::User { content, .. } => content@,
        Message::Assistant { content, .. } => content@,
    }
}

/// `lm` is `m` in library form: same role, same blocks, no uuid.
pub open spec fn translated(m: Message, lm: LibMessage) -> bool {
    &&& lm.role == lib_role(m)
    &&& lm.uuid is None
    &&& lm.content matches LibMessageContent::Blocks(bs) && same_blocks(message_blocks(m), bs@)
}

/// Translate a transcript message into the library's message form.
pub fn message_to_lib(msg: &Message) -> (r: LibMessage)
    ensures
        translated(*msg, r),
{
    match msg {
        Message::User { content, .. } => LibMessage {
            role: LibRole::User,
            content: LibMessageContent::Blocks(duplicate_blocks(content)),
            uuid: None,
        },
        Message::Assistant { content, .. } => LibMessage {
            role: LibRole::Assistant,
            content: LibMessageContent::Blocks(duplicate_blocks(content)),
            uuid: None,
        },
    }
}

/// The text that replaces an image for a provider without image input.
pub const IMAGE_PLACEHOLDER: &'static str = "[Image not supported by this model]";

/// The text that replaces a PDF for a provider without PDF input.
pub const PDF_PLACEHOLDER: &'static str = "[PDF not supported by this model]";

/// `out` is `b` as sent to a provider with capabilities `caps`: images and
/// documents it cannot read become text placeholders, anything else is kept.
pub open spec fn filtered_block(b: ContentBlock, caps: ProviderCapabilities, out: ContentBlock) -> bool {
    if b is Image && !caps.image_input {
        out matches ContentBlock::Text { text } && text@ == IMAGE_PLACEHOLDER@
    } else if b is Document && !caps.pdf_input {
        out matches ContentBlock::Text { text } && text@ == PDF_PLACEHOLDER@
    } else {
        same_block(b, out)
    }
}

/// `lm` is `m` in library form, with its blocks filtered for `caps`.
pub open spec fn sent_form(m: Message, caps: ProviderCapabilities, lm: LibMessage) -> bool {
    &&& lm.role == lib_role(m)
    &&& lm.uuid is None
    &&& lm.content matches LibMessageContent::Blocks(bs) && {
        &&& bs@.len() == message_blocks(m).len()
        &&& forall|j: int|
            0 <= j < bs@.len() ==> filtered_block(message_blocks(m)[j], caps, #[trigger] bs@[j])
    }
}

/// Filter one block for a provider with capabilities `caps`.
fn filter_block(b: &ContentBlock, caps: ProviderCapabilities) -> (r: ContentBlock)
    ensures
        filtered_block(*b, caps, r),
{
    match b {
        ContentBlock::Image { .. } if !caps.image_input => ContentBlock::Text {
            text: String::from_str(IMAGE_PLACEHOLDER),
        },
        ContentBlock::Document { .. } if !caps.pdf_input => ContentBlock::Text {
            text: String::from_str(PDF_PLACEHOLDER),
        },
        _ => b.duplicate(),
    }
}

/// A transcript message as sent to a provider with capabilities `caps`.
fn sent_message(msg: &Message, caps: ProviderCapabilities) -> (r: LibMessage)
    ensures
        sent_form(*msg, caps, r),
{
    let (role, content) = match msg {
        Message::User { content, .. } => (LibRole::User, content),
        Message::Assistant { content, .. } => (LibRole::Assistant, content),
    };
    let mut blocks: Vec<ContentBlock> = Vec::new();
    let mut j: usize = 0;
    while j < content.len()
        invariant
            content@ == message_blocks(*msg),
            j <= content@.len(),
            blocks@.len() == j,
            forall|k: int| 0 <= k < j ==> filtered_block(content@[k], caps, #[trigger] blocks@[k]),
        decreases content@.len() - j,
    {
        blocks.push(filter_block(&content[j], caps));
        j = j + 1;
    }
    LibMessage { role, content: LibMessageContent::Blocks(blocks), uuid: None }
}

/// The request definition of a tool.
pub open spec fn tool_definition(t: Tool) -> ToolDefinition {
    ToolDefinition { name: t.name, description: t.description, input_schema: t.input_schema }
}

/// The chat agent.
pub struct Agent {
    model: String,
    system_prompt: String,
    tools: Vec<Tool>,
    conversation: Vec<Message>,
    max_tokens: u32,
    provider: ProviderSpec,
    provider_kind: String,
    api_key: String,
    base_url: String,
    config: Config,
}

/// What the chat view's request asks of the task that runs the agent.
pub enum AgentAction {
    /// Start a turn: attach `files`, then send `content`.
    StartTurn { content: String, files: Vec<std::path::PathBuf> },
    /// Cancel the turn in flight.
    CancelTurn,
    /// Run tools in this directory from now on.
    SetWorkingDir(std::path::PathBuf),
    /// The agent was updated; nothing else to do.
    Updated,
}

/// The cancel handle of the turn in flight, if any: starting a turn
/// replaces it, and a cancel request takes it, so a handle is cancelled at
/// most once and a cancel with no turn in flight does nothing.
pub struct CancelSlot<T> {
    pub current: Option<T>,
}

impl<T> CancelSlot<T> {
    /// No turn in flight.
    pub fn new() -> (r: CancelSlot<T>)
        ensures
            r.current is None,
    {
        CancelSlot { current: None }
    }

    /// A turn started with handle `handle`.
    pub fn started(&mut self, handle: T)
        ensures
            final(self).current == Some(handle),
    {
        self.current = Some(handle);
    }

    /// The handle to cancel for a cancel request: that of the turn in
    /// flight, which is then forgotten.
    pub fn take_for_cancel(&mut self) -> (r: Option<T>)
        ensures
            r == old(self).current,
            final(self).current is None,
    {
        let mut out: Option<T> = None;
        std::mem::swap(&mut out, &mut self.current);
        out
    }
}

/// The provider the agent uses after a rebuild for `kind`: the one its
/// configuration yields; else, for Anthropic, a client with the agent's key
/// and base URL (the default endpoint when that is blank); else the current
/// one.
pub open spec fn rebuilt_provider(
    config: Config,
    kind: Seq<char>,
    api_key: Seq<char>,
    base_url: Seq<char>,
    current: crate::api::providers::ProviderSpecView,
) -> crate::api::providers::ProviderSpecView {
    match from_config_spec(config, kind) {
        Some(p) => p,
        None => if kind == "anthropic"@ {
            anthropic_spec(
                api_key,
                if is_blank_spec(base_url) {
                    ANTHROPIC_API_BASE@
                } else {
                    base_url
                },
            )
        } else {
            current
        },
    }
}

/// `a` and `b` send to the same provider the same way: same provider,
/// provider kind, key, base URL and configuration.
pub open spec fn same_connection(a: Agent, b: Agent) -> bool {
    &&& b.provider_spec() == a.provider_spec()
    &&& b.provider_kind_spec() == a.provider_kind_spec()
    &&& b.api_key_spec() == a.api_key_spec()
    &&& b.base_url_spec() == a.base_url_spec()
    &&& b.config_spec() == a.config_spec()
}

/// `a` and `b` prompt alike: same model, system prompt, tools and output
/// limit.
pub open spec fn same_prompting(a: Agent, b: Agent) -> bool {
    &&& b.model_spec() == a.model_spec()
    &&& b.system_prompt_spec() == a.system_prompt_spec()
    &&& b.tools_spec() == a.tools_spec()
    &&& b.max_tokens_spec() == a.max_tokens_spec()
}

/// `b` is `a` with the conversation cleared.
pub open spec fn cleared(a: Agent, b: Agent) -> bool {
    &&& b.conversation_spec().len() == 0
    &&& same_prompting(a, b)
    &&& same_connection(a, b)
}

/// `b` is `a` switched to provider `p`: the kind and the configuration's
/// selection are `p`, the provider is rebuilt for it, the conversation is
/// cleared; key, base URL and prompting are kept.
pub open spec fn provider_switched(a: Agent, p: String, b: Agent) -> bool {
    &&& b.provider_kind_spec() == p@
    &&& b.config_spec().same_settings(a.config_spec())
    &&& b.config_spec().provider_spec() == Some(p@)
    &&& b.provider_spec() == rebuilt_provider(
        b.config_spec(),
        p@,
        a.api_key_spec(),
        a.base_url_spec(),
        a.provider_spec(),
    )
    &&& b.conversation_spec().len() == 0
    &&& b.api_key_spec() == a.api_key_spec()
    &&& b.base_url_spec() == a.base_url_spec()
    &&& same_prompting(a, b)
}

/// `b` is `a` with key `key` and base URL `base`, the provider rebuilt for
/// them; kind, configuration, conversation and prompting are kept.
pub open spec fn reconnected(a: Agent, key: Seq<char>, base: Seq<char>, b: Agent) -> bool {
    &&& b.api_key_spec() == key
    &&& b.base_url_spec() == base
    &&& b.provider_spec() == rebuilt_provider(a.config_spec(), a.provider_kind_spec(), key, base, a.provider_spec())
    &&& b.provider_kind_spec() == a.provider_kind_spec()
    &&& b.config_spec() == a.config_spec()
    &&& b.conversation_spec() == a.conversation_spec()
    &&& same_prompting(a, b)
}

/// What a request from the chat view does to the agent `a` (giving `b`)
/// and asks of the task running it (`r`).
pub open spec fn request_effect(a: Agent, req: AgentRequest, b: Agent, r: AgentAction) -> bool {
    match req {
        AgentRequest::Chat { content, files } => r == (AgentAction::StartTurn { content, files }) && b == a,
        AgentRequest::Cancel => r is CancelTurn && b == a,
        AgentRequest::SetWorkingDir(p) => r == AgentAction::SetWorkingDir(p) && b == a,
        AgentRequest::ClearHistory => r is Updated && cleared(a, b),
        AgentRequest::SetProvider(p) => r is Updated && provider_switched(a, p, b),
        AgentRequest::SetModel(m) => {
            &&& r is Updated
            &&& b.model_spec() == m@
            &&& b.system_prompt_spec() == a.system_prompt_spec()
            &&& b.tools_spec() == a.tools_spec()
            &&& b.max_tokens_spec() == a.max_tokens_spec()
            &&& b.conversation_spec().len() == 0
            &&& same_connection(a, b)
        },
        AgentRequest::SetApiKey(k) => r is Updated && reconnected(a, k@, a.base_url_spec(), b),
        AgentRequest::SetBaseUrl(u) => r is Updated && reconnected(a, a.api_key_spec(), u@, b),
        AgentRequest::SetApiConfig { api_key, base_url } => r is Updated && reconnected(a, api_key@, base_url@, b),
    }
}

impl Agent {
    pub closed spec fn model_spec(&self) -> Seq<char> {
        self.model@
    }

    pub closed spec fn system_prompt_spec(&self) -> Seq<char> {
        self.system_prompt@
    }

    pub closed spec fn tools_spec(&self) -> Seq<Tool> {
        self.tools@
    }

    pub closed spec fn conversation_spec(&self) -> Seq<Message> {
        self.conversation@
    }

    pub closed spec fn max_tokens_spec(&self) -> u32 {
        self.max_tokens
    }

    pub closed spec fn provider_spec(&self) -> crate::api::providers::ProviderSpecView {
        self.provider@
    }

    pub closed spec fn provider_kind_spec(&self) -> Seq<char> {
        self.provider_kind@
    }

    pub closed spec fn api_key_spec(&self) -> Seq<char> {
        self.api_key@
    }

    pub closed spec fn base_url_spec(&self) -> Seq<char> {
        self.base_url@
    }

    pub closed spec fn config_spec(&self) -> Config {
        self.config
    }

    /// A builder with the defaults: Anthropic, 4096 output tokens.
    pub fn builder() -> (r: AgentBuilder)
        ensures
            r.provider_spec() == "anthropic"@,
            r.api_key_spec() is None,
            r.base_url_spec() is None,
            r.model_spec() is None,
            r.system_prompt_spec() is None,
            r.max_tokens_spec() == 4096,
    {
        AgentBuilder::default()
    }

    /// Replace the system prompt.
    pub fn set_system_prompt(&mut self, prompt: String)
        ensures
            final(self).system_prompt_spec() == prompt@,
            final(self).model_spec() == old(self).model_spec(),
            final(self).tools_spec() == old(self).tools_spec(),
            final(self).max_tokens_spec() == old(self).max_tokens_spec(),
            final(self).conversation_spec() == old(self).conversation_spec(),
            same_connection(*old(self), *final(self)),
    {
        self.system_prompt = prompt;
    }

    /// Replace the model.
    pub fn set_model(&mut self, model: String)
        ensures
            final(self).model_spec() == model@,
            final(self).system_prompt_spec() == old(self).system_prompt_spec(),
            final(self).tools_spec() == old(self).tools_spec(),
            final(self).max_tokens_spec() == old(self).max_tokens_spec(),
            final(self).conversation_spec() == old(self).conversation_spec(),
            same_connection(*old(self), *final(self)),
    {
        self.model = model;
    }

    /// Replace the output-token limit.
    pub fn set_max_tokens(&mut self, max_tokens: u32)
        ensures
            final(self).max_tokens_spec() == max_tokens,
            final(self).model_spec() == old(self).model_spec(),
            final(self).system_prompt_spec() == old(self).system_prompt_spec(),
            final(self).tools_spec() == old(self).tools_spec(),
            final(self).conversation_spec() == old(self).conversation_spec(),
            same_connection(*old(self), *final(self)),
    {
        self.max_tokens = max_tokens;
    }

    /// Rebuild the provider from the configuration, falling back to an
    /// Anthropic client with the in-memory key (so the chat can start before
    /// a key is configured); any other provider is kept as it was.
    fn rebuild_provider(&mut self)
        ensures
            final(self).provider_spec() == rebuilt_provider(
                old(self).config,
                old(self).provider_kind@,
                old(self).api_key@,
                old(self).base_url@,
                old(self).provider@,
            ),
            final(self).model == old(self).model,
            final(self).system_prompt == old(self).system_prompt,
            final(self).tools == old(self).tools,
            final(self).conversation == old(self).conversation,
            final(self).max_tokens == old(self).max_tokens,
            final(self).provider_kind == old(self).provider_kind,
            final(self).api_key == old(self).api_key,
            final(self).base_url == old(self).base_url,
            final(self).config == old(self).config,
    {
        if let Some(p) = provider_from_config(&self.config, self.provider_kind.as_str()) {
            self.provider = p;
            return;
        }
        if str_eq(self.provider_kind.as_str(), "anthropic") {
            let api_base = if is_blank(self.base_url.as_str()) {
                String::from_str(ANTHROPIC_API_BASE)
            } else {
                self.base_url.clone()
            };
            let cc = ClientConfig { api_key: self.api_key.clone(), api_base };
            self.provider = anthropic_from_config(cc);
        }
    }

    /// Switch provider: record it in the configuration, rebuild the
    /// provider, and clear the conversation (providers differ in message
    /// format).
    pub fn set_provider(&mut self, provider: String)
        ensures
            provider_switched(*old(self), provider, *final(self)),
    {
        self.provider_kind = provider.clone();
        let mut config = Config::new(Vec::new(), None);
        std::mem::swap(&mut config, &mut self.config);
        self.config = config.with_provider(provider);
        self.rebuild_provider();
        self.conversation.clear();
    }

    /// Replace the API key and rebuild the provider.
    pub fn set_api_key(&mut self, api_key: String)
        ensures
            reconnected(*old(self), api_key@, old(self).base_url_spec(), *final(self)),
    {
        self.api_key = api_key;
        self.rebuild_provider();
    }

    /// Replace the base URL and rebuild the provider.
    pub fn set_base_url(&mut self, base_url: String)
        ensures
            reconnected(*old(self), old(self).api_key_spec(), base_url@, *final(self)),
    {
        self.base_url = base_url;
        self.rebuild_provider();
    }

    /// Replace key and base URL together, rebuilding the provider once.
    pub fn set_api_config(&mut self, api_key: String, base_url: String)
        ensures
            reconnected(*old(self), api_key@, base_url@, *final(self)),
    {
        self.api_key = api_key;
        self.base_url = base_url;
        self.rebuild_provider();
    }

    /// The provider kind (its id as the user chose it).
    pub fn provider_kind(&self) -> (r: &str)
        ensures
            r@ == self.provider_kind_spec(),
    {
        self.provider_kind.as_str()
    }

    /// The API key.
    pub fn api_key(&self) -> (r: String)
        ensures
            r@ == self.api_key_spec(),
    {
        self.api_key.clone()
    }

    /// The provider the agent sends to.
    pub fn provider(&self) -> (r: &ProviderSpec)
        ensures
            r@ == self.provider_spec(),
    {
        &self.provider
    }

    /// The base URL.
    pub fn base_url(&self) -> (r: &str)
        ensures
            r@ == self.base_url_spec(),
    {
        self.base_url.as_str()
    }

    /// The model.
    pub fn model(&self) -> (r: &str)
        ensures
            r@ == self.model_spec(),
    {
        self.model.as_str()
    }

    /// The system prompt.
    pub fn system_prompt(&self) -> (r: &str)
        ensures
            r@ == self.system_prompt_spec(),
    {
        self.system_prompt.as_str()
    }

    /// The output-token limit.
    pub fn max_tokens(&self) -> (r: u32)
        ensures
            r == self.max_tokens_spec(),
    {
        self.max_tokens
    }

    /// Append a user message holding `content` as one text block.
    pub fn add_user_message(&mut self, content: String)
        ensures
            final(self).conversation_spec().len() == old(self).conversation_spec().len() + 1,
            final(self).conversation_spec().drop_last() == old(self).conversation_spec(),
            final(self).conversation_spec().last() matches Message::User { role, content: c } && role@
                == "user"@ && c@.len() == 1 && c@[0] == (ContentBlock::Text { text: content }),
            same_prompting(*old(self), *final(self)),
            same_connection(*old(self), *final(self)),
    {
        let ghost before = self.conversation@;
        self.conversation.push(
            Message::User { role: String::from_str("user"), content: vec![ContentBlock::Text { text: content }] },
        );
        assert(self.conversation@.drop_last() =~= before);
    }

    /// The request definitions of the agent's tools, in order.
    pub fn get_tool_definitions(&self) -> (r: Vec<ToolDefinition>)
        ensures
            r@.len() == self.tools_spec().len(),
            forall|i: int| 0 <= i < r@.len() ==> #[trigger] r@[i] == tool_definition(self.tools_spec()[i]),
    {
        let mut out: Vec<ToolDefinition> = Vec::new();
        let mut i: usize = 0;
        while i < self.tools.len()
            invariant
                i <= self.tools@.len(),
                out@.len() == i,
                forall|k: int| 0 <= k < i ==> #[trigger] out@[k] == tool_definition(self.tools@[k]),
            decreases self.tools@.len() - i,
        {
            let t = &self.tools[i];
            out.push(
                ToolDefinition {
                    name: t.name.clone(),
                    description: t.description.clone(),
                    input_schema: t.input_schema.clone(),
                },
            );
            i = i + 1;
        }
        out
    }

    /// The conversation so far.
    pub fn get_conversation(&self) -> (r: &[Message])
        ensures
            r@ == self.conversation_spec(),
    {
        self.conversation.as_slice()
    }

    /// Forget the conversation.
    pub fn clear_conversation(&mut self)
        ensures
            cleared(*old(self), *final(self)),
    {
        self.conversation.clear();
    }

    /// Append the user's message and build the request for the whole
    /// transcript: tools only when the provider supports tool calls, images
    /// and PDFs it cannot read replaced by text placeholders, the agent's
    /// system prompt, model and output limit.
    pub fn build_provider_request(&mut self, user_content: Vec<ContentBlock>, caps: ProviderCapabilities) -> (r:
        ProviderRequest)
        ensures
            final(self).conversation_spec() == old(self).conversation_spec().push(
                Message::User { role: final(self).conversation_spec().last()->User_role, content: user_content },
            ),
            final(self).conversation_spec().last()->User_role@ == "user"@,
            same_prompting(*old(self), *final(self)),
            same_connection(*old(self), *final(self)),
            r.model@ == old(self).model_spec(),
            r.system_prompt matches Some(crate::api::provider_types::SystemPrompt::Text(s)) && s@
                == old(self).system_prompt_spec(),
            r.max_tokens == old(self).max_tokens_spec(),
            caps.tool_calling ==> r.tools@.len() == old(self).tools_spec().len() && forall|i: int|
                0 <= i < r.tools@.len() ==> #[trigger] r.tools@[i] == tool_definition(
                    old(self).tools_spec()[i],
                ),
            !caps.tool_calling ==> r.tools@.len() == 0,
            r.messages@.len() == final(self).conversation_spec().len(),
            forall|i: int|
                0 <= i < r.messages@.len() ==> sent_form(
                    final(self).conversation_spec()[i],
                    caps,
                    #[trigger] r.messages@[i],
                ),
            r.top_k is None,
            r.stop_sequences@.len() == 0,
            r.thinking is None,
    {
        self.conversation.push(Message::User { role: String::from_str("user"), content: user_content });
        let tools: Vec<ToolDefinition> = if caps.tool_calling {
            self.get_tool_definitions()
        } else {
            Vec::new()
        };
        let mut messages: Vec<LibMessage> = Vec::new();
        let mut i: usize = 0;
        while i < self.conversation.len()
            invariant
                i <= self.conversation@.len(),
                messages@.len() == i,
                forall|k: int| 0 <= k < i ==> sent_form(self.conversation@[k], caps, #[trigger] messages@[k]),
            decreases self.conversation@.len() - i,
        {
            messages.push(sent_message(&self.conversation[i], caps));
            i = i + 1;
        }
        let mut req = new_request(self.model.as_str(), self.max_tokens, messages);
        req.tools = tools;
        with_system_prompt(req, self.system_prompt.clone())
    }

    /// Apply a request from the chat view: settings requests update the
    /// agent (a model change also clears the conversation), and the rest is
    /// handed back as an action for the task running the agent.
    pub fn handle_request(&mut self, req: AgentRequest) -> (r: AgentAction)
        ensures
            request_effect(*old(self), req, *final(self), r),
    {
        match req {
            AgentRequest::Chat { content, files } => AgentAction::StartTurn { content, files },
            AgentRequest::Cancel => AgentAction::CancelTurn,
            AgentRequest::SetWorkingDir(p) => AgentAction::SetWorkingDir(p),
            AgentRequest::ClearHistory => {
                self.clear_conversation();
                AgentAction::Updated
            },
            AgentRequest::SetProvider(p) => {
                self.set_provider(p);
                AgentAction::Updated
            },
            AgentRequest::SetModel(m) => {
                self.set_model(m);
                self.clear_conversation();
                AgentAction::Updated
            },
            AgentRequest::SetApiKey(k) => {
                self.set_api_key(k);
                AgentAction::Updated
            },
            AgentRequest::SetBaseUrl(b) => {
                self.set_base_url(b);
                AgentAction::Updated
            },
            AgentRequest::SetApiConfig { api_key, base_url } => {
                self.set_api_config(api_key, base_url);
                AgentAction::Updated
            },
        }
    }
}

/// Settings for a new agent; unset fields fall back to the configuration
/// and the defaults given to `build`.
pub struct AgentBuilder {
    provider: String,
    api_key: Option<String>,
    base_url: Option<String>,
    model: Option<String>,
    system_prompt: Option<String>,
    max_tokens: u32,
}

impl Default for AgentBuilder {
    fn default() -> (r: AgentBuilder)
        ensures
            r.provider_spec() == "anthropic"@,
            r.api_key_spec() is None,
            r.base_url_spec() is None,
            r.model_spec() is None,
            r.system_prompt_spec() is None,
            r.max_tokens_spec() == 4096,
    {
        AgentBuilder {
            provider: String::from_str("anthropic"),
            api_key: None,
            base_url: None,
            model: None,
            system_prompt: None,
            max_tokens: 4096,
        }
    }
}

/// The first value when there is one, else the second.
pub open spec fn or_else(a: Option<Seq<char>>, b: Seq<char>) -> Seq<char> {
    match a {
        Some(x) => x,
        None => b,
    }
}

impl AgentBuilder {
    pub closed spec fn provider_spec(&self) -> Seq<char> {
        self.provider@
    }

    pub closed spec fn api_key_spec(&self) -> Option<Seq<char>> {
        crate::api::providers::opt_view(self.api_key)
    }

    pub closed spec fn base_url_spec(&self) -> Option<Seq<char>> {
        crate::api::providers::opt_view(self.base_url)
    }

    pub closed spec fn model_spec(&self) -> Option<Seq<char>> {
        crate::api::providers::opt_view(self.model)
    }

    pub closed spec fn system_prompt_spec(&self) -> Option<Seq<char>> {
        crate::api::providers::opt_view(self.system_prompt)
    }

    pub closed spec fn max_tokens_spec(&self) -> u32 {
        self.max_tokens
    }

    /// Choose the provider.
    pub fn provider(self, provider: String) -> (r: AgentBuilder)
        ensures
            r.provider_spec() == provider@,
            r.api_key_spec() == self.api_key_spec(),
            r.base_url_spec() == self.base_url_spec(),
            r.model_spec() == self.model_spec(),
            r.system_prompt_spec() == self.system_prompt_spec(),
            r.max_tokens_spec() == self.max_tokens_spec(),
    {
        AgentBuilder { provider, ..self }
    }

    /// Give an explicit API key.
    pub fn api_key(self, api_key: String) -> (r: AgentBuilder)
        ensures
            r.provider_spec() == self.provider_spec(),
            r.api_key_spec() == Some(api_key@),
            r.base_url_spec() == self.base_url_spec(),
            r.model_spec() == self.model_spec(),
            r.system_prompt_spec() == self.system_prompt_spec(),
            r.max_tokens_spec() == self.max_tokens_spec(),
    {
        AgentBuilder { api_key: Some(api_key), ..self }
    }

    /// Give an explicit base URL.
    pub fn base_url(self, base_url: String) -> (r: AgentBuilder)
        ensures
            r.provider_spec() == self.provider_spec(),
            r.api_key_spec() == self.api_key_spec(),
            r.base_url_spec() == Some(base_url@),
            r.model_spec() == self.model_spec(),
            r.system_prompt_spec() == self.system_prompt_spec(),
            r.max_tokens_spec() == self.max_tokens_spec(),
    {
        AgentBuilder { base_url: Some(base_url), ..self }
    }

    /// Choose the model.
    pub fn model(self, model: String) -> (r: AgentBuilder)
        ensures
            r.provider_spec() == self.provider_spec(),
            r.api_key_spec() == self.api_key_spec(),
            r.base_url_spec() == self.base_url_spec(),
            r.model_spec() == Some(model@),
            r.system_prompt_spec() == self.system_prompt_spec(),
            r.max_tokens_spec() == self.max_tokens_spec(),
    {
        AgentBuilder { model: Some(model), ..self }
    }

    /// Give the system prompt.
    pub fn system_prompt(self, prompt: String) -> (r: AgentBuilder)
        ensures
            r.provider_spec() == self.provider_spec(),
            r.api_key_spec() == self.api_key_spec(),
            r.base_url_spec() == self.base_url_spec(),
            r.model_spec() == self.model_spec(),
            r.system_prompt_spec() == Some(prompt@),
            r.max_tokens_spec() == self.max_tokens_spec(),
    {
        AgentBuilder { system_prompt: Some(prompt), ..self }
    }

    /// Set the output-token limit.
    pub fn max_tokens(self, max_tokens: u32) -> (r: AgentBuilder)
        ensures
            r.provider_spec() == self.provider_spec(),
            r.api_key_spec() == self.api_key_spec(),
            r.base_url_spec() == self.base_url_spec(),
            r.model_spec() == self.model_spec(),
            r.system_prompt_spec() == self.system_prompt_spec(),
            r.max_tokens_spec() == max_tokens,
    {
        AgentBuilder { max_tokens, ..self }
    }

    /// Build the agent. The configuration `config` selects this builder's
    /// provider; the key is the explicit one, else the configured one, else
    /// empty; the base URL the explicit one, else the configured one, else
    /// the Anthropic endpoint; the model and system prompt the explicit
    /// ones, else `default_model` and `default_system_prompt`. The provider
    /// is then rebuilt from all of that.
    pub fn build(
        self,
        tools: Vec<Tool>,
        config: Config,
        default_model: String,
        default_system_prompt: String,
    ) -> (r: Agent)
        ensures
            r.provider_kind_spec() == self.provider_spec(),
            r.config_spec().same_settings(config),
            r.config_spec().provider_spec() == Some(self.provider_spec()),
            r.api_key_spec() == or_else(
                self.api_key_spec(),
                or_else(config.api_key_spec(self.provider_spec()), Seq::empty()),
            ),
            r.base_url_spec() == or_else(
                self.base_url_spec(),
                or_else(config.api_base_spec(self.provider_spec()), ANTHROPIC_API_BASE@),
            ),
            r.model_spec() == or_else(self.model_spec(), default_model@),
            r.system_prompt_spec() == or_else(self.system_prompt_spec(), default_system_prompt@),
            r.tools_spec() == tools@,
            r.conversation_spec().len() == 0,
            r.max_tokens_spec() == self.max_tokens_spec(),
            r.provider_spec() == rebuilt_provider(
                r.config_spec(),
                self.provider_spec(),
                r.api_key_spec(),
                r.base_url_spec(),
                anthropic_spec(Seq::empty(), ANTHROPIC_API_BASE@),
            ),
    {
        let config0 = config;
        let config = config0.with_provider(self.provider.clone());
        let api_key = match self.api_key {
            Some(k) => k,
            None => match config.resolve_provider_api_key(self.provider.as_str()) {
                Some(k) => k,
                None => String::new(),
            },
        };
        let base_url = match self.base_url {
            Some(b) => b,
            None => match config.resolve_provider_api_base(self.provider.as_str()) {
                Some(b) => b,
                None => String::from_str(ANTHROPIC_API_BASE),
            },
        };
        let model = match self.model {
            Some(m) => m,
            None => default_model,
        };
        let system_prompt = match self.system_prompt {
            Some(p) => p,
            None => default_system_prompt,
        };
        let mut agent = Agent {
            model,
            system_prompt,
            tools,
            conversation: Vec::new(),
            max_tokens: self.max_tokens,
            provider: anthropic_from_config(ClientConfig::default()),
            provider_kind: self.provider,
            api_key,
            base_url,
            config,
        };
        agent.rebuild_provider();
        agent
    }
}

/// The file ids of the uploads that succeeded, in order.
pub open spec fn ok_ids(u: Seq<Result<String, String>>) -> Seq<Seq<char>>
    decreases u.len(),
{
    if u.len() == 0 {
        Seq::empty()
    } else {
        let rest = ok_ids(u.drop_last());
        match u.last() {
            Ok(id) => rest.push(id@),
            Err(_) => rest,
        }
    }
}

/// The messages reported for the uploads that failed, in order.
pub open spec fn upload_errors(u: Seq<Result<String, String>>) -> Seq<Seq<char>>
    decreases u.len(),
{
    if u.len() == 0 {
        Seq::empty()
    } else {
        let rest = upload_errors(u.drop_last());
        match u.last() {
            Ok(_) => rest,
            Err(e) => rest.push("Failed to upload file: "@ + e@),
        }
    }
}

/// `b` is a document block referring to uploaded file `id`.
pub open spec fn is_file_document(b: ContentBlock, id: Seq<char>) -> bool {
    &&& b matches ContentBlock::Document { source, title, context, citations }
    &&& b->Document_title is None
    &&& b->Document_context is None
    &&& b->Document_citations is None
    &&& b->Document_source.source_type@ == "file"@
    &&& b->Document_source.media_type is None
    &&& b->Document_source.data is None
    &&& b->Document_source.url is None
    &&& b->Document_source.file_id matches Some(f) && f@ == id
}

/// The user content of a chat turn: the text, then one document block per
/// file that uploaded, in order; and the message reported for each file
/// that did not, in order.
pub fn chat_user_content(content: String, uploads: Vec<Result<String, String>>) -> (r: (
    Vec<ContentBlock>,
    Vec<String>,
))
    ensures
        r.0@.len() == 1 + ok_ids(uploads@).len(),
        r.0@[0] == (ContentBlock::Text { text: content }),
        forall|i: int| 1 <= i < r.0@.len() ==> is_file_document(#[trigger] r.0@[i], ok_ids(uploads@)[i - 1]),
        r.1@.map_values(|s: String| s@) == upload_errors(uploads@),
{
    let mut blocks: Vec<ContentBlock> = vec![ContentBlock::Text { text: content }];
    let mut errors: Vec<String> = Vec::new();
    let n = uploads.len();
    let mut i: usize = 0;
    assert(uploads@.take(0) =~= Seq::<Result<String, String>>::empty());
    while i < n
        invariant
            n == uploads@.len(),
            i <= n,
            blocks@.len() == 1 + ok_ids(uploads@.take(i as int)).len(),
            blocks@[0] == (ContentBlock::Text { text: content }),
            forall|k: int|
                1 <= k < blocks@.len() ==> is_file_document(
                    #[trigger] blocks@[k],
                    ok_ids(uploads@.take(i as int))[k - 1],
                ),
            errors@.map_values(|s: String| s@) == upload_errors(uploads@.take(i as int)),
        decreases n - i,
    {
        assert(uploads@.take(i + 1).drop_last() =~= uploads@.take(i as int));
        match &uploads[i] {
            Ok(id) => {
                blocks.push(
                    ContentBlock::Document {
                        source: DocumentSource::file(id.as_str()),
                        title: None,
                        context: None,
                        citations: None,
                    },
                );
            },
            Err(e) => {
                let mut msg = String::from_str("Failed to upload file: ");
                msg.append(e.as_str());
                let ghost before = errors@;
                errors.push(msg);
                assert(errors@.map_values(|s: String| s@) =~= before.map_values(|s: String| s@).push(
                    msg@,
                ));
            },
        }
        i = i + 1;
    }
    assert(uploads@.take(n as int) =~= uploads@);
    (blocks, errors)
}

} // verus!
