use daily::transcript::parser::{holds_string, holds_text, truncate_text};
use daily::transcript::{
    ContentBlock, MessageContent, TranscriptData, TranscriptEntry, TranscriptParser,
};

fn create_empty_transcript_data() -> TranscriptData {
    TranscriptData {
        entries: vec![],
        user_messages: vec![],
        assistant_messages: vec![],
        tool_calls: vec![],
        files_modified: vec![],
        summary: None,
    }
}

fn entry() -> TranscriptEntry {
    TranscriptEntry {
        entry_type: None,
        role: None,
        content: None,
        timestamp: None,
        tool_name: None,
        tool_file_path: None,
        summary: None,
        message_content: None,
    }
}

fn block(kind: Option<&str>, text: Option<&str>) -> ContentBlock {
    ContentBlock {
        block_type: kind.map(String::from),
        text: text.map(String::from),
    }
}

#[test]
fn test_truncate_text() {
    assert_eq!(truncate_text("short", 10), "short");
    assert_eq!(truncate_text("this is a longer text", 10), "this is a ...");
}

#[test]
fn test_is_empty_no_messages() {
    let data = create_empty_transcript_data();
    assert!(data.is_empty());
}

#[test]
fn test_is_empty_whitespace_only() {
    let mut data = create_empty_transcript_data();
    data.user_messages = vec!["   ".to_string(), "\n\t".to_string()];
    assert!(data.is_empty());
}

#[test]
fn test_is_empty_with_content() {
    let mut data = create_empty_transcript_data();
    data.user_messages = vec!["Hello, world!".to_string()];
    assert!(!data.is_empty());
}

#[test]
fn test_is_empty_mixed_messages() {
    let mut data = create_empty_transcript_data();
    data.user_messages = vec!["   ".to_string(), "actual content".to_string()];
    assert!(!data.is_empty());
}

#[test]
fn truncate_text_counts_characters() {
    assert_eq!(truncate_text("äöüß", 4), "äöüß");
    assert_eq!(truncate_text("äöüß", 3), "äöü...");
    assert_eq!(truncate_text("", 0), "");
    assert_eq!(truncate_text("a", 0), "...");
}

#[test]
fn lines_of_white_space_hold_no_entry() {
    assert!(!TranscriptParser::holds_entry(""));
    assert!(!TranscriptParser::holds_entry("  \t "));
    assert!(TranscriptParser::holds_entry(" {} "));
}

#[test]
fn message_text_prefers_own_content() {
    let mut e = entry();
    e.content = Some(MessageContent::Text("old".into()));
    e.message_content = Some(MessageContent::Text("new".into()));
    assert_eq!(
        TranscriptParser::extract_message_content(&e),
        Some("old".to_string())
    );
    e.content = Some(MessageContent::Other);
    assert_eq!(
        TranscriptParser::extract_message_content(&e),
        Some("new".to_string())
    );
    e.message_content = Some(MessageContent::Blocks(vec![
        block(Some("text"), Some("a")),
        block(Some("image"), Some("x")),
        block(Some("text"), None),
        block(None, Some("y")),
        block(Some("text"), Some("b")),
    ]));
    assert_eq!(
        TranscriptParser::extract_message_content(&e),
        Some("a\nb".to_string())
    );
    e.message_content = Some(MessageContent::Blocks(vec![block(Some("image"), Some("x"))]));
    assert_eq!(TranscriptParser::extract_message_content(&e), None);
    e.message_content = Some(MessageContent::Other);
    assert_eq!(TranscriptParser::extract_message_content(&e), None);
    assert_eq!(TranscriptParser::extract_message_content(&entry()), None);
}

#[test]
fn parse_gathers_messages_tools_files_and_summary() {
    let mut user_old = entry();
    user_old.role = Some("user".into());
    user_old.content = Some(MessageContent::Text("hello".into()));
    let mut user_new = entry();
    user_new.entry_type = Some("user".into());
    user_new.message_content = Some(MessageContent::Text("again".into()));
    let mut user_silent = entry();
    user_silent.role = Some("user".into());
    let mut assistant = entry();
    assistant.entry_type = Some("assistant".into());
    assistant.message_content =
        Some(MessageContent::Blocks(vec![block(Some("text"), Some("hi"))]));
    let mut write = entry();
    write.tool_name = Some("Write".into());
    write.tool_file_path = Some("a.rs".into());
    let mut edit = entry();
    edit.tool_name = Some("Edit".into());
    edit.tool_file_path = Some("a.rs".into());
    let mut read = entry();
    read.tool_name = Some("Read".into());
    read.tool_file_path = Some("b.rs".into());
    let mut edit_other = entry();
    edit_other.tool_name = Some("Edit".into());
    edit_other.tool_file_path = Some("c.rs".into());
    let mut summary = entry();
    summary.entry_type = Some("TranscriptSummary".into());
    summary.summary = Some("sum".into());

    let data = TranscriptParser::parse(vec![
        user_old,
        assistant,
        write,
        user_new,
        edit,
        read,
        user_silent,
        edit_other,
        summary,
    ]);
    assert_eq!(data.entries.len(), 9);
    assert_eq!(data.user_messages, vec!["hello", "again"]);
    assert_eq!(data.assistant_messages, vec!["hi"]);
    let names: Vec<&str> = data.tool_calls.iter().map(|c| c.name.as_str()).collect();
    assert_eq!(names, vec!["Write", "Edit", "Read", "Edit"]);
    assert_eq!(data.files_modified, vec!["a.rs", "c.rs"]);
    assert_eq!(data.summary, Some("sum".to_string()));
    assert!(!data.is_empty());
}

#[test]
fn a_later_summary_entry_without_summary_clears_it() {
    let mut first = entry();
    first.entry_type = Some("TranscriptSummary".into());
    first.summary = Some("sum".into());
    let mut second = entry();
    second.entry_type = Some("TranscriptSummary".into());
    let data = TranscriptParser::parse(vec![first, second]);
    assert_eq!(data.summary, None);
    let empty = TranscriptParser::parse(Vec::new());
    assert!(empty.is_empty());
    assert_eq!(empty.summary, None);
}

#[test]
fn condensed_text_is_exact() {
    let mut user = entry();
    user.role = Some("user".into());
    user.content = Some(MessageContent::Text("first".into()));
    let mut user2 = entry();
    user2.role = Some("user".into());
    user2.content = Some(MessageContent::Text("x".repeat(501)));
    let mut write = entry();
    write.tool_name = Some("Write".into());
    write.tool_file_path = Some("a.rs".into());
    let mut read = entry();
    read.tool_name = Some("Read".into());
    let mut write2 = entry();
    write2.tool_name = Some("Write".into());
    write2.tool_file_path = Some("b.rs".into());
    let mut summary = entry();
    summary.entry_type = Some("TranscriptSummary".into());
    summary.summary = Some("sum".into());
    let data = TranscriptParser::parse(vec![user, user2, write, read, write2, summary]);
    let expected = format!(
        "## User Requests\n\n1. first\n\n2. {}...\n\n## Tools Used\n\n- Write: 2 calls\n- Read: 1 calls\n\n## Files Modified\n\n- a.rs\n- b.rs\n\n## Existing Summary\n\nsum\n",
        "x".repeat(500)
    );
    assert_eq!(TranscriptParser::to_condensed_text(&data), expected);
    assert_eq!(
        TranscriptParser::to_condensed_text(&create_empty_transcript_data()),
        ""
    );
}

#[test]
fn holding_texts() {
    assert!(holds_text(&Some("user".to_string()), "user"));
    assert!(!holds_text(&Some("User".to_string()), "user"));
    assert!(!holds_text(&None, "user"));
    assert!(holds_string(&vec!["a".to_string(), "b".to_string()], "b"));
    assert!(!holds_string(&vec!["a".to_string()], "b"));
    assert!(!holds_string(&Vec::new(), ""));
}
