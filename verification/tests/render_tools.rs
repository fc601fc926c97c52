use llm_agent::message::AssistantContent;
use llm_agent::message::ChatMessage;
use llm_agent::message::CompletionRequest;
use llm_agent::message::RespMessage;
use llm_agent::message::ToolCall;
use llm_agent::llm::LLMSettings;
use llm_agent::render::completion_to_role;
use llm_agent::render::completion_to_string;
use llm_agent::render::request_to_string;
use llm_agent::render::response_to_string;
use llm_agent::tool::ToolDescriptor;
use llm_agent::tools::check_list_path;
use llm_agent::tools::file_payload_to_text;
use llm_agent::tools::not_directory_message;
use llm_agent::tools::render_listing;
use llm_agent::tools::DirEntryInfo;
use llm_agent::tools::EntryKind;
use llm_agent::tools::ListDirectoryTool;

fn call(name: &str, args: &str) -> ToolCall {
    ToolCall {
        id: "id".to_string(),
        name: name.to_string(),
        arguments: args.to_string(),
    }
}

#[test]
fn roles_render_upper_case() {
    assert_eq!(completion_to_role(&ChatMessage::System("s".into())), "SYSTEM");
    assert_eq!(completion_to_role(&ChatMessage::User("u".into())), "USER");
    assert_eq!(completion_to_role(&ChatMessage::Tool("t".into())), "TOOL");
    assert_eq!(
        completion_to_role(&ChatMessage::Developer("d".into())),
        "DEVELOPER"
    );
    assert_eq!(
        completion_to_role(&ChatMessage::Assistant(AssistantContent::Text("a".into()))),
        "ASSISTANT"
    );
}

#[test]
fn user_message_renders_wrapped() {
    let m = ChatMessage::User("hi".to_string());
    assert_eq!(completion_to_string(&m), "<USER>\nhi\n</USER>\n");
}

#[test]
fn assistant_toolcalls_render_as_tags() {
    let m = ChatMessage::Assistant(AssistantContent::ToolCalls(vec![
        call("a", "{\"x\":1}"),
        call("b", "{}"),
    ]));
    assert_eq!(
        completion_to_string(&m),
        "<ASSISTANT>\n<toolcall name=\"a\">{\"x\":1}</toolcall>\n<toolcall name=\"b\">{}</toolcall>\n</ASSISTANT>\n"
    );
}

#[test]
fn response_renders_every_present_part() {
    let resp = RespMessage {
        content: Some("c".to_string()),
        refusal: Some("r".to_string()),
        tool_calls: Some(vec![call("t", "a")]),
    };
    assert_eq!(
        response_to_string(&resp),
        "<ASSISTANT>\nc\n<toolcall name=\"t\">\na\n</toolcall>r\n\n</ASSISTANT>\n"
    );
}

#[test]
fn response_calls_put_arguments_on_their_own_line() {
    let resp = RespMessage {
        content: None,
        refusal: None,
        tool_calls: Some(vec![call("a", "1"), call("b", "2")]),
    };
    assert_eq!(
        response_to_string(&resp),
        "<ASSISTANT>\n<toolcall name=\"a\">\n1\n</toolcall>\n<toolcall name=\"b\">\n2\n</toolcall>\n</ASSISTANT>\n"
    );
}

#[test]
fn response_with_content_only() {
    let resp = RespMessage {
        content: Some("done".to_string()),
        refusal: None,
        tool_calls: None,
    };
    assert_eq!(response_to_string(&resp), "<ASSISTANT>\ndone\n\n</ASSISTANT>\n");
}

#[test]
fn request_renders_messages_and_tools() {
    let req = CompletionRequest {
        model: "gpt-4o".to_string(),
        messages: vec![ChatMessage::User("hi".to_string())],
        tools: vec![ToolDescriptor {
            name: "t".to_string(),
            description: Some("d".to_string()),
            parameters: "{}".to_string(),
            strict: true,
        }],
        settings: LLMSettings::standard(),
    };
    assert_eq!(
        request_to_string(&req),
        "<Request>\n<USER>\nhi\n</USER>\n<tool name=\"t\", description=\"d\", strict=true>\n{}\n</tool>\n</Request>\n"
    );
}

#[test]
fn assistant_refusal_and_system_render_plainly() {
    let m = ChatMessage::Assistant(AssistantContent::Refusal("no".to_string()));
    assert_eq!(completion_to_string(&m), "<ASSISTANT>\nno\n</ASSISTANT>\n");
    let m = ChatMessage::System("be brief".to_string());
    assert_eq!(completion_to_string(&m), "<SYSTEM>\nbe brief\n</SYSTEM>\n");
}

#[test]
fn request_without_tools_renders_empty_catalog() {
    let req = CompletionRequest {
        model: "o1".to_string(),
        messages: vec![ChatMessage::System("s".to_string())],
        tools: vec![],
        settings: LLMSettings::standard(),
    };
    assert_eq!(
        request_to_string(&req),
        "<Request>\n<SYSTEM>\ns\n</SYSTEM>\n\n</Request>\n"
    );
}

#[test]
fn absolute_paths_are_refused() {
    assert_eq!(
        check_list_path("/etc").as_deref(),
        Some("\"/etc\" is an absolute path")
    );
}

#[test]
fn parent_pieces_are_refused() {
    assert_eq!(
        check_list_path("a/../b").as_deref(),
        Some("\"a/../b\" contains '..'")
    );
    assert_eq!(check_list_path("..").as_deref(), Some("\"..\" contains '..'"));
}

#[test]
fn plain_relative_paths_pass() {
    assert_eq!(check_list_path("a/b"), None);
    assert_eq!(check_list_path("."), None);
    assert_eq!(check_list_path(""), None);
    // Dots inside a name are not a parent piece.
    assert_eq!(check_list_path("a..b/c"), None);
}

#[test]
fn not_directory_text() {
    assert_eq!(not_directory_message("x"), "\"x\" is not a directory");
}

#[test]
fn listing_renders_header_and_lines() {
    let entries = vec![
        DirEntryInfo {
            name: "f.txt".to_string(),
            kind: EntryKind::File,
            len: 10,
        },
        DirEntryInfo {
            name: "sub".to_string(),
            kind: EntryKind::Directory,
            len: 0,
        },
        DirEntryInfo {
            name: "ln".to_string(),
            kind: EntryKind::Symlink,
            len: 3,
        },
    ];
    assert_eq!(
        render_listing("here", &entries),
        "The contents of folder \"here\" is:\nname\ttype\tsize\n\"f.txt\"\tfile\t10\n\"sub\"\tdirectory\t0\n\"ln\"\tsymlink\t3"
    );
}

#[test]
fn empty_listing_is_just_the_header() {
    assert_eq!(
        render_listing("d", &Vec::new()),
        "The contents of folder \"d\" is:\nname\ttype\tsize\n"
    );
}

#[test]
fn utf8_payload_comes_back_as_text() {
    assert_eq!(file_payload_to_text(b"hello world".to_vec()), "hello world");
    assert_eq!(file_payload_to_text(Vec::new()), "");
}

#[test]
fn binary_payload_is_hex_dumped() {
    let out = file_payload_to_text(vec![0xff, 0xfe, 0x00, 0x01]);
    // A hex dump is much longer than the bytes themselves and is not the
    // bytes handed back unchanged.
    assert!(out.len() > 8, "dump was {:?}", out);
    assert!(out.is_ascii());
}

#[test]
fn listing_tool_keeps_its_root() {
    let t = ListDirectoryTool::new_root("root/dir".to_string());
    assert_eq!(t.relative_path, "root/dir");
}
