//! The conversation data model: messages, tool calls, responses and
//! requests, all over plain values, with their mathematical views.
use vstd::prelude::*;

use crate::llm::LLMSettings;
use crate::tool::ToolDescriptor;

verus! {

/// One tool call requested by the model.
pub struct ToolCall {
    pub id: String,
    pub name: String,
    pub arguments: String,
}

pub ghost struct ToolCallV {
    pub id: Seq<char>,
    pub name: Seq<char>,
    pub arguments: Seq<char>,
}

impl View for ToolCall {
    type V = ToolCallV;

    open spec fn view(&self) -> ToolCallV {
        ToolCallV { id: self.id@, name: self.name@, arguments: self.arguments@ }
    }
}

impl DeepView for ToolCall {
    type V = ToolCallV;

    open spec fn deep_view(&self) -> ToolCallV {
        self@
    }
}

impl ToolCall {
    /// An equal copy.
    pub fn duplicate(&self) -> (r: ToolCall)
        ensures
            r@ == self@,
    {
        ToolCall {
            id: self.id.clone(),
            name: self.name.clone(),
            arguments: self.arguments.clone(),
        }
    }
}

/// Copies a list of tool calls.
pub fn duplicate_calls(calls: &Vec<ToolCall>) -> (r: Vec<ToolCall>)
    ensures
        r.deep_view() == calls.deep_view(),
{
    let mut r: Vec<ToolCall> = Vec::new();
    let mut i: usize = 0;
    while i < calls.len()
        invariant
            i <= calls@.len(),
            r.deep_view() == calls.deep_view().take(i as int),
        decreases calls@.len() - i,
    {
        let ghost old_dv = r.deep_view();
        r.push(calls[i].duplicate());
        proof {
            assert(r.deep_view() =~= old_dv.push(calls@[i as int]@));
            assert(calls.deep_view().take(i + 1)
                =~= calls.deep_view().take(i as int).push(calls.deep_view()[i as int]));
            assert(calls.deep_view()[i as int] == calls@[i as int]@);
        }
        i = i + 1;
    }
    proof {
        assert(calls.deep_view().take(calls@.len() as int) =~= calls.deep_view());
    }
    r
}

/// What an assistant message carries: exactly one of plain text, a refusal,
/// or a list of tool calls.
pub enum AssistantContent {
    Text(String),
    Refusal(String),
    ToolCalls(Vec<ToolCall>),
}

pub ghost enum AssistantContentV {
    Text(Seq<char>),
    Refusal(Seq<char>),
    ToolCalls(Seq<ToolCallV>),
}

impl View for AssistantContent {
    type V = AssistantContentV;

    open spec fn view(&self) -> AssistantContentV {
        match self {
            AssistantContent::Text(s) => AssistantContentV::Text(s@),
            AssistantContent::Refusal(s) => AssistantContentV::Refusal(s@),
            AssistantContent::ToolCalls(c) => AssistantContentV::ToolCalls(c.deep_view()),
        }
    }
}

/// One message of the conversation, by role. The context is an append-only
/// ordered sequence of these.
pub enum ChatMessage {
    System(String),
    User(String),
    Assistant(AssistantContent),
    Tool(String),
    Developer(String),
}

pub ghost enum ChatMessageV {
    System(Seq<char>),
    User(Seq<char>),
    Assistant(AssistantContentV),
    Tool(Seq<char>),
    Developer(Seq<char>),
}

impl View for ChatMessage {
    type V = ChatMessageV;

    open spec fn view(&self) -> ChatMessageV {
        match self {
            ChatMessage::System(s) => ChatMessageV::System(s@),
            ChatMessage::User(s) => ChatMessageV::User(s@),
            ChatMessage::Assistant(c) => ChatMessageV::Assistant(c@),
            ChatMessage::Tool(s) => ChatMessageV::Tool(s@),
            ChatMessage::Developer(s) => ChatMessageV::Developer(s@),
        }
    }
}

impl DeepView for ChatMessage {
    type V = ChatMessageV;

    open spec fn deep_view(&self) -> ChatMessageV {
        self@
    }
}

/// Copies one message.
pub fn duplicate_message(m: &ChatMessage) -> (r: ChatMessage)
    ensures
        r@ == m@,
{
    match m {
        ChatMessage::System(s) => ChatMessage::System(s.clone()),
        ChatMessage::User(s) => ChatMessage::User(s.clone()),
        ChatMessage::Assistant(c) => ChatMessage::Assistant(match c {
            AssistantContent::Text(s) => AssistantContent::Text(s.clone()),
            AssistantContent::Refusal(s) => AssistantContent::Refusal(s.clone()),
            AssistantContent::ToolCalls(calls) => AssistantContent::ToolCalls(duplicate_calls(
                calls,
            )),
        }),
        ChatMessage::Tool(s) => ChatMessage::Tool(s.clone()),
        ChatMessage::Developer(s) => ChatMessage::Developer(s.clone()),
    }
}

/// Copies the whole context.
pub fn duplicate_messages(ms: &Vec<ChatMessage>) -> (r: Vec<ChatMessage>)
    ensures
        r.deep_view() == ms.deep_view(),
{
    let mut r: Vec<ChatMessage> = Vec::new();
    let mut i: usize = 0;
    while i < ms.len()
        invariant
            i <= ms@.len(),
            r.deep_view() == ms.deep_view().take(i as int),
        decreases ms@.len() - i,
    {
        let ghost old_dv = r.deep_view();
        r.push(duplicate_message(&ms[i]));
        proof {
            assert(r.deep_view() =~= old_dv.push(ms@[i as int]@));
            assert(ms.deep_view().take(i + 1)
                =~= ms.deep_view().take(i as int).push(ms.deep_view()[i as int]));
            assert(ms.deep_view()[i as int] == ms@[i as int]@);
        }
        i = i + 1;
    }
    proof {
        assert(ms.deep_view().take(ms@.len() as int) =~= ms.deep_view());
    }
    r
}

/// Why the service stopped generating.
#[derive(Clone, Copy, Debug, PartialEq, Eq, Structural)]
pub enum FinishReason {
    Stop,
    Length,
    ToolCalls,
    ContentFilter,
    FunctionCall,
}

/// The message body of one response choice. At most one of the three
/// payloads is expected to matter; classification settles any overlap.
pub struct RespMessage {
    pub content: Option<String>,
    pub refusal: Option<String>,
    pub tool_calls: Option<Vec<ToolCall>>,
}

/// One choice of a completion response.
pub struct ChatChoice {
    pub finish_reason: Option<FinishReason>,
    pub message: RespMessage,
}

/// Token usage the service reports for one completion.
#[derive(Clone, Copy, Debug, PartialEq, Eq, Structural)]
pub struct Usage {
    pub prompt_tokens: u32,
    pub completion_tokens: u32,
}

/// A completion response: its choices and, optionally, token usage.
pub struct CompletionResponse {
    pub choices: Vec<ChatChoice>,
    pub usage: Option<Usage>,
}

/// A completion request: the model identifier, a snapshot of the
/// conversation, the advertised tool catalog and the sampling settings.
pub struct CompletionRequest {
    pub model: String,
    pub messages: Vec<ChatMessage>,
    pub tools: Vec<ToolDescriptor>,
    pub settings: LLMSettings,
}

} // verus!
