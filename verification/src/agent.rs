//! The agent: conversation state and the turn state machine. Each turn
//! classifies one response choice, appends the matching assistant message,
//! and decides how the driving loop goes on. All I/O — the completion call
//! and the tool invocations — happens outside; its outcomes come in as
//! plain values.
use vstd::prelude::*;
use vstd::string::StringExecFns;

use crate::error::PromptError;
use crate::message::AssistantContent;
use crate::message::AssistantContentV;
use crate::message::ChatChoice;
use crate::message::ChatMessage;
use crate::message::ChatMessageV;
use crate::message::CompletionRequest;
use crate::message::CompletionResponse;
use crate::message::ToolCall;
use crate::message::ToolCallV;
use crate::message::duplicate_calls;
use crate::message::duplicate_messages;
use crate::llm::LLMSettings;
use crate::text::join_lines;
use crate::text::spec_join_lines;
use crate::tool::ToolBox;
use crate::tool::spec_lookup;
use crate::OpenAIModel;

verus! {

/// What one turn tells the driving loop: keep going, a terminal value, or
/// terminal text where none was expected.
#[derive(Debug, Clone)]
pub enum AgentAction<T> {
    Continue,
    Unexpected(String),
    Out(T),
}

/// The classified payload of one turn, after the assistant message was
/// appended.
pub enum TurnEvent {
    ToolCalls(Vec<ToolCall>),
    Refusal(String),
    Message(String),
}

/// The agent: its tool registry and the ordered conversation context. The
/// context is append-only; every turn pushes exactly one assistant
/// message, and tool replies are pushed as one user message.
pub struct Agent {
    pub tools: ToolBox,
    pub context: Vec<ChatMessage>,
}

/// Priority class a of a choice: the finish signal names tool calls, or
/// the message carries a non-empty call list.
pub open spec fn spec_is_toolcalls(c: &ChatChoice) -> bool {
    c.finish_reason == Some(crate::message::FinishReason::ToolCalls) || (
    c.message.tool_calls matches Some(t) && t@.len() > 0)
}

/// Priority class b: a content-filter signal or a present refusal string.
pub open spec fn spec_is_refusal(c: &ChatChoice) -> bool {
    c.finish_reason == Some(crate::message::FinishReason::ContentFilter)
        || c.message.refusal is Some
}

/// Priority class c: a stop or length signal, or non-empty content.
pub open spec fn spec_is_message(c: &ChatChoice) -> bool {
    c.finish_reason == Some(crate::message::FinishReason::Stop) || c.finish_reason == Some(
        crate::message::FinishReason::Length,
    ) || (c.message.content matches Some(s) && s@.len() > 0)
}

/// The call list a tool-call choice records: the message's list, or empty
/// where the finish signal says tool calls but none came.
pub open spec fn spec_recorded_calls(c: &ChatChoice) -> Seq<ToolCallV> {
    match c.message.tool_calls {
        Some(t) => t.deep_view(),
        None => Seq::empty(),
    }
}

impl Agent {
    /// A fresh agent around a registry, seeded with the system message —
    /// the given one, or the standing default — and the user message.
    pub fn new(tools: ToolBox, system: Option<String>, user: String) -> (r: Agent)
        ensures
            r.tools == tools,
            r.context.deep_view() =~= seq![
                ChatMessageV::System(
                    match system {
                        Some(s) => s@,
                        None => "You are an expert agent that calls tool to complete your task."@,
                    },
                ),
                ChatMessageV::User(user@),
            ],
    {
        let sys: String = match system {
            Some(s) => s,
            None => String::from_str(
                "You are an expert agent that calls tool to complete your task.",
            ),
        };
        let mut context: Vec<ChatMessage> = Vec::new();
        context.push(ChatMessage::System(sys));
        context.push(ChatMessage::User(user));
        Agent { tools, context }
    }

    /// Builds the request of one turn: the model identifier, a snapshot of
    /// the context, the advertised catalog, and the given settings.
    pub fn build_request(&self, model: &OpenAIModel, settings: &LLMSettings) -> (r:
        CompletionRequest)
        ensures
            r.model@ == model.spec_name(),
            r.messages.deep_view() == self.context.deep_view(),
            r.tools.deep_view() == self.tools.tools.deep_view(),
            r.settings@ == settings@,
    {
        CompletionRequest {
            model: model.name(),
            messages: duplicate_messages(&self.context),
            tools: self.tools.openai_objects(),
            settings: settings.duplicate(),
        }
    }

    /// Takes one classified response choice: appends exactly one assistant
    /// message for it — the tool calls in their received order, the
    /// refusal text, or the content text — and hands the same payload
    /// back. A choice in none of the known classes changes nothing and is
    /// an unsupported response.
    pub fn accept_choice(&mut self, choice: ChatChoice) -> (r: Result<TurnEvent, PromptError>)
        ensures
            final(self).tools == old(self).tools,
            ({
                let ctx0 = old(self).context.deep_view();
                let ctx1 = final(self).context.deep_view();
                if spec_is_toolcalls(&choice) {
                    &&& ctx1 == ctx0.push(
                        ChatMessageV::Assistant(
                            AssistantContentV::ToolCalls(spec_recorded_calls(&choice)),
                        ),
                    )
                    &&& r matches Ok(TurnEvent::ToolCalls(ev)) && ev.deep_view()
                        == spec_recorded_calls(&choice)
                } else if spec_is_refusal(&choice) {
                    let text = match choice.message.refusal {
                        Some(s) => s@,
                        None => Seq::<char>::empty(),
                    };
                    &&& ctx1 == ctx0.push(
                        ChatMessageV::Assistant(AssistantContentV::Refusal(text)),
                    )
                    &&& r matches Ok(TurnEvent::Refusal(t)) && t@ == text
                } else if spec_is_message(&choice) {
                    let text = match choice.message.content {
                        Some(s) => s@,
                        None => Seq::<char>::empty(),
                    };
                    &&& ctx1 == ctx0.push(ChatMessageV::Assistant(AssistantContentV::Text(text)))
                    &&& r matches Ok(TurnEvent::Message(t)) && t@ == text
                } else {
                    &&& ctx1 == ctx0
                    &&& r matches Err(e) && e matches PromptError::UnsupportedResponse(_)
                }
            }),
    {
        let ghost ctx0 = self.context.deep_view();
        let is_toolcalls = matches!(
            choice.finish_reason,
            Some(crate::message::FinishReason::ToolCalls)
        ) || (match &choice.message.tool_calls {
            Some(t) => t.len() > 0,
            None => false,
        });
        if is_toolcalls {
            let calls: Vec<ToolCall> = match choice.message.tool_calls {
                Some(t) => t,
                None => Vec::new(),
            };
            let recorded = duplicate_calls(&calls);
            proof {
                assert(recorded.deep_view() =~= spec_recorded_calls(&choice));
                assert(calls.deep_view() =~= spec_recorded_calls(&choice));
            }
            self.context.push(
                ChatMessage::Assistant(AssistantContent::ToolCalls(recorded)),
            );
            proof {
                assert(self.context.deep_view() =~= ctx0.push(
                    ChatMessageV::Assistant(
                        AssistantContentV::ToolCalls(spec_recorded_calls(&choice)),
                    ),
                ));
            }
            Ok(TurnEvent::ToolCalls(calls))
        } else {
            let is_refusal = matches!(
                choice.finish_reason,
                Some(crate::message::FinishReason::ContentFilter)
            ) || choice.message.refusal.is_some();
            if is_refusal {
                let text: String = match choice.message.refusal {
                    Some(s) => s,
                    None => String::new(),
                };
                self.context.push(
                    ChatMessage::Assistant(AssistantContent::Refusal(text.clone())),
                );
                proof {
                    assert(self.context.deep_view() =~= ctx0.push(
                        ChatMessageV::Assistant(AssistantContentV::Refusal(text@)),
                    ));
                }
                Ok(TurnEvent::Refusal(text))
            } else {
                let is_message = matches!(
                    choice.finish_reason,
                    Some(crate::message::FinishReason::Stop)
                ) || matches!(
                    choice.finish_reason,
                    Some(crate::message::FinishReason::Length)
                ) || (match &choice.message.content {
                    Some(s) => s.as_str().unicode_len() > 0,
                    None => false,
                });
                if is_message {
                    let text: String = match choice.message.content {
                        Some(s) => s,
                        None => String::new(),
                    };
                    self.context.push(
                        ChatMessage::Assistant(AssistantContent::Text(text.clone())),
                    );
                    proof {
                        assert(self.context.deep_view() =~= ctx0.push(
                            ChatMessageV::Assistant(AssistantContentV::Text(text@)),
                        ));
                    }
                    Ok(TurnEvent::Message(text))
                } else {
                    Err(PromptError::UnsupportedResponse(String::from_str(
                        "choice matches no known finish category",
                    )))
                }
            }
        }
    }

    /// Appends tool replies, or any caller text, as one user message.
    pub fn append_context(&mut self, ctx: String) -> (r: Result<(), PromptError>)
        ensures
            r == Ok::<(), PromptError>(()),
            final(self).tools == old(self).tools,
            final(self).context.deep_view() == old(self).context.deep_view().push(
                ChatMessageV::User(ctx@),
            ),
    {
        let ghost ctx0 = self.context.deep_view();
        let ghost cv = ctx@;
        self.context.push(ChatMessage::User(ctx));
        proof {
            assert(self.context.deep_view() =~= ctx0.push(ChatMessageV::User(cv)));
        }
        Ok(())
    }
}

/// A walk over one turn's tool calls, in the model-given order: `next`
/// points at the call to dispatch, `replies` holds one text per completed
/// call.
pub struct ToolDispatch {
    pub calls: Vec<ToolCall>,
    pub next: usize,
    pub replies: Vec<String>,
}

impl ToolDispatch {
    /// Intact walk state: one reply per completed call.
    pub open spec fn wf(&self) -> bool {
        self.next <= self.calls@.len() && self.replies@.len() == self.next
    }

    /// Starts the walk at the first call.
    pub fn begin(calls: Vec<ToolCall>) -> (r: ToolDispatch)
        ensures
            r.wf(),
            r.calls == calls,
            r.next == 0,
            r.replies@.len() == 0,
    {
        ToolDispatch { calls, next: 0, replies: Vec::new() }
    }
}

/// What the dispatch walk asks for next: run one call, give up on an
/// unknown name, or hand back the joined replies.
pub enum DispatchStep {
    Invoke(ToolCall),
    Reject(PromptError),
    Complete(String),
}

impl Agent {
    /// Decides the next dispatch action: the walk is complete once every
    /// call is answered, a name the registry does not know rejects the
    /// whole walk, and otherwise the pending call is to be invoked.
    pub fn dispatch_step(&self, d: &ToolDispatch) -> (r: DispatchStep)
        requires
            d.wf(),
        ensures
            ({
                let cv = d.calls.deep_view();
                if d.next == cv.len() {
                    r matches DispatchStep::Complete(s) && s@ == spec_join_lines(
                        d.replies.deep_view(),
                    )
                } else if spec_lookup(self.tools.tools.deep_view(), cv[d.next as int].name)
                    is None {
                    r matches DispatchStep::Reject(e) && e matches PromptError::NoSuchTool(n)
                        && n@ == cv[d.next as int].name
                } else {
                    r matches DispatchStep::Invoke(c) && c@ == cv[d.next as int]
                }
            }),
    {
        if d.next == d.calls.len() {
            DispatchStep::Complete(join_lines(&d.replies))
        } else {
            let call = &d.calls[d.next];
            proof {
                assert(d.calls.deep_view()[d.next as int] == d.calls@[d.next as int]@);
            }
            match self.tools.lookup(call.name.as_str()) {
                None => DispatchStep::Reject(PromptError::NoSuchTool(call.name.clone())),
                Some(_) => DispatchStep::Invoke(call.duplicate()),
            }
        }
    }
}

/// Feeds one call's outcome back into the walk: a reply is recorded and
/// the walk moves on; a tool failure stops the walk and propagates.
pub fn dispatch_reply(d: &mut ToolDispatch, outcome: Result<String, PromptError>) -> (r: Result<
    (),
    PromptError,
>)
    requires
        old(d).wf(),
        old(d).next < old(d).calls@.len(),
    ensures
        match outcome {
            Ok(v) => {
                &&& final(d).wf()
                &&& final(d).calls == old(d).calls
                &&& final(d).next == old(d).next + 1
                &&& final(d).replies.deep_view() == old(d).replies.deep_view().push(v@)
                &&& r == Ok::<(), PromptError>(())
            },
            Err(e) => *final(d) == *old(d) && r == Err::<(), PromptError>(e),
        },
{
    match outcome {
        Ok(v) => {
            let ghost r0 = d.replies.deep_view();
            let ghost vv = v@;
            d.replies.push(v);
            d.next = d.replies.len();
            proof {
                assert(d.replies.deep_view() =~= r0.push(vv));
            }
            Ok(())
        },
        Err(e) => Err(e),
    }
}

/// The position of the first call named `n`, or the length if none is.
pub open spec fn spec_first_match(calls: Seq<ToolCallV>, n: Seq<char>) -> int
    decreases calls.len(),
{
    if calls.len() == 0 {
        0
    } else if calls[0].name == n {
        0
    } else {
        1 + spec_first_match(calls.drop_first(), n)
    }
}

proof fn lemma_first_match_bounds(calls: Seq<ToolCallV>, n: Seq<char>)
    ensures
        0 <= spec_first_match(calls, n) <= calls.len(),
    decreases calls.len(),
{
    if calls.len() > 0 && calls[0].name != n {
        lemma_first_match_bounds(calls.drop_first(), n);
    }
}

proof fn lemma_first_match_is(calls: Seq<ToolCallV>, n: Seq<char>, i: int)
    requires
        0 <= i <= calls.len(),
        forall|k: int| 0 <= k < i ==> calls[k].name != n,
        i == calls.len() || calls[i].name == n,
    ensures
        spec_first_match(calls, n) == i,
    decreases calls.len(),
{
    if calls.len() > 0 && calls[0].name != n {
        let t = calls.drop_first();
        assert(forall|k: int| 0 <= k < i - 1 ==> t[k] == calls[k + 1] && t[k].name != n);
        lemma_first_match_is(t, n, i - 1);
    }
}

/// Scans the calls of one response in their model-given order for the
/// first one bearing the target name.
pub fn find_target_call(calls: &Vec<ToolCall>, target_name: &str) -> (r: Option<usize>)
    ensures
        ({
            let i = spec_first_match(calls.deep_view(), target_name@);
            if i < calls.deep_view().len() {
                r == Some(i as usize)
            } else {
                r is None
            }
        }),
{
    let ghost cv = calls.deep_view();
    let mut i: usize = 0;
    while i < calls.len()
        invariant
            i <= cv.len(),
            cv == calls.deep_view(),
            forall|k: int| 0 <= k < i ==> cv[k].name != target_name@,
        decreases cv.len() - i,
    {
        proof {
            assert(cv[i as int] == calls@[i as int]@);
        }
        if crate::text::eq_str(calls[i].name.as_str(), target_name) {
            proof {
                lemma_first_match_is(cv, target_name@, i as int);
            }
            return Some(i);
        }
        i = i + 1;
    }
    proof {
        lemma_first_match_is(cv, target_name@, cv.len() as int);
    }
    None
}

/// What a turn's classified event means to one of the two driving loops.
pub enum ToolTurnPlan<T> {
    /// The target call is present: parse its arguments.
    ParseTarget(ToolCall),
    /// No target: dispatch every call in order.
    Dispatch(ToolDispatch),
    /// The turn already decided the loop's action.
    Decided(AgentAction<T>),
}

impl Agent {
    /// One turn of the run-until-tool loop, after classification: the
    /// first call bearing the target name — whatever else came with it —
    /// is the terminal candidate; without one, every call is dispatched;
    /// a message or a refusal is terminal and unexpected.
    pub fn until_tool_turn<T>(&self, target_name: &str, ev: TurnEvent) -> (r: ToolTurnPlan<T>)
        ensures
            match ev {
                TurnEvent::ToolCalls(calls) => ({
                    let cv = calls.deep_view();
                    let i = spec_first_match(cv, target_name@);
                    if i < cv.len() {
                        r matches ToolTurnPlan::ParseTarget(c) && c@ == cv[i]
                    } else {
                        r matches ToolTurnPlan::Dispatch(d) && d.wf() && d.calls.deep_view()
                            == cv && d.next == 0
                    }
                }),
                TurnEvent::Refusal(s) => r == ToolTurnPlan::Decided(
                    AgentAction::<T>::Unexpected(s),
                ),
                TurnEvent::Message(s) => r == ToolTurnPlan::Decided(
                    AgentAction::<T>::Unexpected(s),
                ),
            },
    {
        match ev {
            TurnEvent::ToolCalls(calls) => {
                match find_target_call(&calls, target_name) {
                    Some(i) => {
                        proof {
                            lemma_first_match_bounds(calls.deep_view(), target_name@);
                            assert(i < calls@.len());
                            assert(calls.deep_view()[i as int] == calls@[i as int]@);
                        }
                        ToolTurnPlan::ParseTarget(calls[i].duplicate())
                    },
                    None => ToolTurnPlan::Dispatch(ToolDispatch::begin(calls)),
                }
            },
            TurnEvent::Refusal(s) => ToolTurnPlan::Decided(AgentAction::Unexpected(s)),
            TurnEvent::Message(s) => ToolTurnPlan::Decided(AgentAction::Unexpected(s)),
        }
    }

    /// One turn of the run-until-text loop, after classification: tool
    /// calls are always dispatched, never terminal; a message is the
    /// terminal value; a refusal is terminal text of its own kind.
    pub fn until_text_turn(&self, ev: TurnEvent) -> (r: ToolTurnPlan<String>)
        ensures
            match ev {
                TurnEvent::ToolCalls(calls) => r matches ToolTurnPlan::Dispatch(d) && d.wf()
                    && d.calls.deep_view() == calls.deep_view() && d.next == 0,
                TurnEvent::Refusal(s) => r == ToolTurnPlan::Decided(
                    AgentAction::<String>::Unexpected(s),
                ),
                TurnEvent::Message(s) => r == ToolTurnPlan::Decided(
                    AgentAction::<String>::Out(s),
                ),
            },
    {
        match ev {
            TurnEvent::ToolCalls(calls) => ToolTurnPlan::Dispatch(ToolDispatch::begin(calls)),
            TurnEvent::Refusal(s) => ToolTurnPlan::Decided(AgentAction::Unexpected(s)),
            TurnEvent::Message(s) => ToolTurnPlan::Decided(AgentAction::Out(s)),
        }
    }
}

/// Maps a dispatch failure to the loop's decision: an unknown tool or
/// mismatched arguments only cost the turn — the loop continues with a
/// fresh one — while any other failure propagates and ends the loop.
pub fn tool_error_action<T>(e: PromptError) -> (r: Result<AgentAction<T>, PromptError>)
    ensures
        if e.spec_recoverable() {
            r matches Ok(a) && a matches AgentAction::<T>::Continue
        } else {
            r == Err::<AgentAction<T>, PromptError>(e)
        },
{
    if e.is_recoverable() {
        Ok(AgentAction::Continue)
    } else {
        Err(e)
    }
}

/// After the target call was found: parsed arguments end the loop with
/// them; a failed parse surfaces a schema error for exactly that call,
/// carrying the expected schema and the raw argument text.
pub fn target_parse_action<T>(schema: &str, call: &ToolCall, parsed: Option<T>) -> (r: Result<
    AgentAction<T>,
    PromptError,
>)
    ensures
        match parsed {
            Some(t) => r matches Ok(a) && a matches AgentAction::Out(out) && out == t,
            None => r matches Err(e) && e matches PromptError::IncorrectToolCall(sch, raw)
                && sch@ == schema@ && raw@ == call@.arguments,
        },
{
    match parsed {
        Some(t) => Ok(AgentAction::Out(t)),
        None => Err(PromptError::IncorrectToolCall(
            schema.to_owned(),
            call.arguments.clone(),
        )),
    }
}

/// Ends or continues the run-until-tool loop: `Continue` keeps looping,
/// a terminal value is the result, unexpected text is an error.
pub fn until_tool_finish<T>(action: AgentAction<T>) -> (r: Result<Option<T>, PromptError>)
    ensures
        match action {
            AgentAction::Continue => r == Ok::<Option<T>, PromptError>(None),
            AgentAction::Unexpected(s) => r matches Err(e) && e == PromptError::Unexpected(s),
            AgentAction::Out(t) => r matches Ok(o) && o == Some(t),
        },
{
    match action {
        AgentAction::Continue => Ok(None),
        AgentAction::Unexpected(s) => Err(PromptError::Unexpected(s)),
        AgentAction::Out(t) => Ok(Some(t)),
    }
}

/// Ends or continues the run-until-text loop: `Continue` keeps looping;
/// both a message and a refusal are valid terminal text for this loop.
pub fn until_text_finish(action: AgentAction<String>) -> (r: Option<String>)
    ensures
        match action {
            AgentAction::Continue => r is None,
            AgentAction::Unexpected(s) => r == Some(s),
            AgentAction::Out(s) => r == Some(s),
        },
{
    match action {
        AgentAction::Continue => None,
        AgentAction::Unexpected(s) => Some(s),
        AgentAction::Out(s) => Some(s),
    }
}

/// Builds the one-shot request of a plain prompt: a system and a user
/// message, no advertised tools, the given settings.
pub fn prompt_request(
    model: &OpenAIModel,
    sys_msg: &str,
    user_msg: &str,
    settings: &LLMSettings,
) -> (r: CompletionRequest)
    ensures
        r.model@ == model.spec_name(),
        r.messages.deep_view() =~= seq![
            ChatMessageV::System(sys_msg@),
            ChatMessageV::User(user_msg@),
        ],
        r.tools@.len() == 0,
        r.settings@ == settings@,
{
    let mut messages: Vec<ChatMessage> = Vec::new();
    messages.push(ChatMessage::System(sys_msg.to_owned()));
    messages.push(ChatMessage::User(user_msg.to_owned()));
    CompletionRequest {
        model: model.name(),
        messages,
        tools: Vec::new(),
        settings: settings.duplicate(),
    }
}

/// Takes the first choice of a response; a response without choices is an
/// unsupported shape.
pub fn take_first_choice(resp: CompletionResponse) -> (r: Result<ChatChoice, PromptError>)
    ensures
        match r {
            Ok(c) => resp.choices@.len() > 0 && c == resp.choices@[0],
            Err(e) => resp.choices@.len() == 0 && e matches PromptError::UnsupportedResponse(_),
        },
{
    let mut choices = resp.choices;
    if choices.len() == 0 {
        Err(PromptError::UnsupportedResponse(String::from_str("response carries no choice")))
    } else {
        Ok(choices.swap_remove(0))
    }
}

} // verus!
