//! Human-readable transcript renderings of messages, responses and
//! requests, exactly as the debug recorder writes them.
use vstd::prelude::*;
use vstd::string::StrSliceExecFns;
use vstd::string::StringExecFns;

use crate::message::ChatMessage;
use crate::message::ChatMessageV;
use crate::message::AssistantContentV;
use crate::message::CompletionRequest;
use crate::message::RespMessage;
use crate::message::ToolCall;
use crate::message::ToolCallV;
use crate::text::join_lines;
use crate::text::spec_join_lines;
use crate::tool::ToolDescriptor;
use crate::tool::ToolDescriptorV;

verus! {

/// The role tag of a message.
pub open spec fn spec_role(m: ChatMessageV) -> Seq<char> {
    match m {
        ChatMessageV::Assistant(_) => "ASSISTANT"@,
        ChatMessageV::Developer(_) => "DEVELOPER"@,
        ChatMessageV::System(_) => "SYSTEM"@,
        ChatMessageV::Tool(_) => "TOOL"@,
        ChatMessageV::User(_) => "USER"@,
    }
}

/// The role tag of a message, upper-case.
pub fn completion_to_role(msg: &ChatMessage) -> (r: &'static str)
    ensures
        r@ == spec_role(msg@),
{
    match msg {
        ChatMessage::Assistant(_) => "ASSISTANT",
        ChatMessage::Developer(_) => "DEVELOPER",
        ChatMessage::System(_) => "SYSTEM",
        ChatMessage::Tool(_) => "TOOL",
        ChatMessage::User(_) => "USER",
    }
}

/// The tag one tool call renders to inside a context message: the
/// argument text stands inline.
pub open spec fn spec_toolcall_tag(c: ToolCallV) -> Seq<char> {
    "<toolcall name=\""@ + c.name + "\">"@ + c.arguments + "</toolcall>"@
}

/// The tags of a call list, joined with newlines.
pub open spec fn spec_toolcall_tags(calls: Seq<ToolCallV>) -> Seq<char> {
    spec_join_lines(calls.map_values(|c: ToolCallV| spec_toolcall_tag(c)))
}

fn toolcall_tag(c: &ToolCall) -> (r: String)
    ensures
        r@ == spec_toolcall_tag(c@),
{
    let mut r = String::from_str("<toolcall name=\"");
    r.append(c.name.as_str());
    r.append("\">");
    r.append(c.arguments.as_str());
    r.append("</toolcall>");
    r
}

fn toolcall_tags(calls: &Vec<ToolCall>) -> (r: String)
    ensures
        r@ == spec_toolcall_tags(calls.deep_view()),
{
    let mut tags: Vec<String> = Vec::new();
    let mut i: usize = 0;
    let ghost f = |c: ToolCallV| spec_toolcall_tag(c);
    while i < calls.len()
        invariant
            i <= calls@.len(),
            tags.deep_view() == calls.deep_view().take(i as int).map_values(f),
            f == (|c: ToolCallV| spec_toolcall_tag(c)),
        decreases calls@.len() - i,
    {
        let ghost old_dv = tags.deep_view();
        tags.push(toolcall_tag(&calls[i]));
        proof {
            let cv = calls.deep_view();
            assert(tags.deep_view() =~= old_dv.push(spec_toolcall_tag(calls@[i as int]@)));
            assert(cv[i as int] == calls@[i as int]@);
            assert(cv.take(i + 1) =~= cv.take(i as int).push(cv[i as int]));
            assert(cv.take(i + 1).map_values(f)
                =~= cv.take(i as int).map_values(f).push(f(cv[i as int])));
        }
        i = i + 1;
    }
    proof {
        assert(calls.deep_view().take(calls@.len() as int) =~= calls.deep_view());
    }
    join_lines(&tags)
}

/// The tag one tool call renders to inside a response transcript: the
/// argument text stands on its own line.
pub open spec fn spec_resp_toolcall_tag(c: ToolCallV) -> Seq<char> {
    "<toolcall name=\""@ + c.name + "\">\n"@ + c.arguments + "\n</toolcall>"@
}

/// The response-side tags of a call list, joined with newlines.
pub open spec fn spec_resp_toolcall_tags(calls: Seq<ToolCallV>) -> Seq<char> {
    spec_join_lines(calls.map_values(|c: ToolCallV| spec_resp_toolcall_tag(c)))
}

fn resp_toolcall_tag(c: &ToolCall) -> (r: String)
    ensures
        r@ == spec_resp_toolcall_tag(c@),
{
    let mut r = String::from_str("<toolcall name=\"");
    r.append(c.name.as_str());
    r.append("\">\n");
    r.append(c.arguments.as_str());
    r.append("\n</toolcall>");
    r
}

fn resp_toolcall_tags(calls: &Vec<ToolCall>) -> (r: String)
    ensures
        r@ == spec_resp_toolcall_tags(calls.deep_view()),
{
    let mut tags: Vec<String> = Vec::new();
    let mut i: usize = 0;
    let ghost f = |c: ToolCallV| spec_resp_toolcall_tag(c);
    while i < calls.len()
        invariant
            i <= calls@.len(),
            tags.deep_view() == calls.deep_view().take(i as int).map_values(f),
            f == (|c: ToolCallV| spec_resp_toolcall_tag(c)),
        decreases calls@.len() - i,
    {
        let ghost old_dv = tags.deep_view();
        tags.push(resp_toolcall_tag(&calls[i]));
        proof {
            let cv = calls.deep_view();
            assert(tags.deep_view() =~= old_dv.push(spec_resp_toolcall_tag(calls@[i as int]@)));
            assert(cv[i as int] == calls@[i as int]@);
            assert(cv.take(i + 1) =~= cv.take(i as int).push(cv[i as int]));
            assert(cv.take(i + 1).map_values(f)
                =~= cv.take(i as int).map_values(f).push(f(cv[i as int])));
        }
        i = i + 1;
    }
    proof {
        assert(calls.deep_view().take(calls@.len() as int) =~= calls.deep_view());
    }
    join_lines(&tags)
}

/// The body text of one context message: its plain text, or the tags of
/// its tool calls.
pub open spec fn spec_message_body(m: ChatMessageV) -> Seq<char> {
    match m {
        ChatMessageV::System(s) => s,
        ChatMessageV::User(s) => s,
        ChatMessageV::Tool(s) => s,
        ChatMessageV::Developer(s) => s,
        ChatMessageV::Assistant(c) => match c {
            AssistantContentV::Text(s) => s,
            AssistantContentV::Refusal(s) => s,
            AssistantContentV::ToolCalls(calls) => spec_toolcall_tags(calls),
        },
    }
}

/// A body wrapped in its role tags.
pub open spec fn spec_wrapped(role: Seq<char>, body: Seq<char>) -> Seq<char> {
    "<"@ + role + ">\n"@ + body + "\n</"@ + role + ">\n"@
}

fn wrap_in_role(role: &str, body: &str) -> (r: String)
    ensures
        r@ == spec_wrapped(role@, body@),
{
    let mut r = String::from_str("<");
    r.append(role);
    r.append(">\n");
    r.append(body);
    r.append("\n</");
    r.append(role);
    r.append(">\n");
    r
}

/// The transcript rendering of one context message.
pub open spec fn spec_completion_text(m: ChatMessageV) -> Seq<char> {
    spec_wrapped(spec_role(m), spec_message_body(m))
}

/// Renders one context message for the transcript: its body between its
/// role tags.
pub fn completion_to_string(msg: &ChatMessage) -> (r: String)
    ensures
        r@ == spec_completion_text(msg@),
{
    let role = completion_to_role(msg);
    let body: String = match msg {
        ChatMessage::System(s) => s.clone(),
        ChatMessage::User(s) => s.clone(),
        ChatMessage::Tool(s) => s.clone(),
        ChatMessage::Developer(s) => s.clone(),
        ChatMessage::Assistant(c) => match c {
            crate::message::AssistantContent::Text(s) => s.clone(),
            crate::message::AssistantContent::Refusal(s) => s.clone(),
            crate::message::AssistantContent::ToolCalls(calls) => toolcall_tags(calls),
        },
    };
    wrap_in_role(role, body.as_str())
}

/// The transcript rendering of a response message's body: its content,
/// its response-side tool-call tags and its refusal, each part only where
/// present.
pub open spec fn spec_response_body(m: &RespMessage) -> Seq<char> {
    (match m.content {
        Some(c) => c@ + "\n"@,
        None => Seq::<char>::empty(),
    }) + (match m.tool_calls {
        Some(t) => spec_resp_toolcall_tags(t.deep_view()),
        None => Seq::<char>::empty(),
    }) + (match m.refusal {
        Some(r) => r@ + "\n"@,
        None => Seq::<char>::empty(),
    })
}

/// Renders one response message between `ASSISTANT` role tags.
pub fn response_to_string(resp: &RespMessage) -> (r: String)
    ensures
        r@ == spec_wrapped("ASSISTANT"@, spec_response_body(resp)),
{
    let mut body = String::new();
    match &resp.content {
        Some(c) => {
            body.append(c.as_str());
            body.append("\n");
        },
        None => {},
    }
    match &resp.tool_calls {
        Some(t) => {
            let tags = resp_toolcall_tags(t);
            body.append(tags.as_str());
        },
        None => {},
    }
    match &resp.refusal {
        Some(rf) => {
            body.append(rf.as_str());
            body.append("\n");
        },
        None => {},
    }
    proof {
        assert(body@ =~= spec_response_body(resp));
    }
    wrap_in_role("ASSISTANT", body.as_str())
}

/// The tag one advertised tool renders to.
pub open spec fn spec_tool_tag(d: ToolDescriptorV) -> Seq<char> {
    "<tool name=\""@ + d.name + "\", description=\""@ + (match d.description {
        Some(s) => s,
        None => Seq::<char>::empty(),
    }) + "\", strict="@ + (if d.strict {
        "true"@
    } else {
        "false"@
    }) + ">\n"@ + d.parameters + "\n</tool>"@
}

fn tool_tag(d: &ToolDescriptor) -> (r: String)
    ensures
        r@ == spec_tool_tag(d@),
{
    let mut r = String::from_str("<tool name=\"");
    r.append(d.name.as_str());
    r.append("\", description=\"");
    match &d.description {
        Some(s) => r.append(s.as_str()),
        None => {},
    }
    r.append("\", strict=");
    if d.strict {
        r.append("true");
    } else {
        r.append("false");
    }
    r.append(">\n");
    r.append(d.parameters.as_str());
    r.append("\n</tool>");
    proof {
        assert(r@ =~= spec_tool_tag(d@));
    }
    r
}

/// The renderings of every context message, concatenated in order.
pub open spec fn spec_messages_text(ms: Seq<ChatMessageV>) -> Seq<char>
    decreases ms.len(),
{
    if ms.len() == 0 {
        Seq::empty()
    } else {
        spec_messages_text(ms.drop_last()) + spec_completion_text(ms.last())
    }
}

/// The transcript rendering of a whole request: every message in order,
/// then the advertised tool tags joined with newlines, inside `Request`
/// tags.
pub open spec fn spec_request_text(
    ms: Seq<ChatMessageV>,
    tools: Seq<ToolDescriptorV>,
) -> Seq<char> {
    "<Request>\n"@ + spec_messages_text(ms) + spec_join_lines(
        tools.map_values(|d: ToolDescriptorV| spec_tool_tag(d)),
    ) + "\n</Request>\n"@
}

/// Renders one whole request for the transcript.
pub fn request_to_string(req: &CompletionRequest) -> (r: String)
    ensures
        r@ == spec_request_text(req.messages.deep_view(), req.tools.deep_view()),
{
    let mut r = String::from_str("<Request>\n");
    let mut i: usize = 0;
    while i < req.messages.len()
        invariant
            i <= req.messages@.len(),
            r@ == "<Request>\n"@ + spec_messages_text(req.messages.deep_view().take(i as int)),
        decreases req.messages@.len() - i,
    {
        let m = completion_to_string(&req.messages[i]);
        r.append(m.as_str());
        proof {
            let mv = req.messages.deep_view();
            assert(mv.take(i + 1).drop_last() =~= mv.take(i as int));
            assert(mv.take(i + 1).last() == mv[i as int]);
            assert(mv[i as int] == req.messages@[i as int]@);
        }
        i = i + 1;
    }
    proof {
        assert(req.messages.deep_view().take(req.messages@.len() as int)
            =~= req.messages.deep_view());
    }
    let mut tags: Vec<String> = Vec::new();
    let mut j: usize = 0;
    let ghost g = |d: ToolDescriptorV| spec_tool_tag(d);
    while j < req.tools.len()
        invariant
            j <= req.tools@.len(),
            tags.deep_view() == req.tools.deep_view().take(j as int).map_values(g),
            g == (|d: ToolDescriptorV| spec_tool_tag(d)),
        decreases req.tools@.len() - j,
    {
        let ghost old_dv = tags.deep_view();
        tags.push(tool_tag(&req.tools[j]));
        proof {
            let tv = req.tools.deep_view();
            assert(tags.deep_view() =~= old_dv.push(spec_tool_tag(req.tools@[j as int]@)));
            assert(tv[j as int] == req.tools@[j as int]@);
            assert(tv.take(j + 1) =~= tv.take(j as int).push(tv[j as int]));
            assert(tv.take(j + 1).map_values(g)
                =~= tv.take(j as int).map_values(g).push(g(tv[j as int])));
        }
        j = j + 1;
    }
    proof {
        assert(req.tools.deep_view().take(req.tools@.len() as int) =~= req.tools.deep_view());
    }
    let joined = join_lines(&tags);
    r.append(joined.as_str());
    r.append("\n</Request>\n");
    r
}

} // verus!
