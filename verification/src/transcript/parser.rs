//! Gathering the messages, tool calls and touched files of a transcript.
//!
//! A transcript is a file of JSON lines. Decoding a line is left to whoever reads the file;
//! an entry arrives here as the plain values that the gathering reads.

use crate::text;
use crate::text::{decimal, join, string_views, trim};
use vstd::prelude::*;

verus! {

/// Longest user message, in characters, that the condensed text shows in full.
pub const MAX_MESSAGE_CHARS: usize = 500;

/// One block of a message whose content is a list of blocks.
#[derive(Debug, Clone)]
pub struct ContentBlock {
    /// The `type` of the block, where it is a string.
    pub block_type: Option<String>,
    /// The `text` of the block, where it is a string.
    pub text: Option<String>,
}

/// The content of a message, as far as it is read.
#[derive(Debug, Clone)]
pub enum MessageContent {
    /// A string.
    Text(String),
    /// A list of blocks.
    Blocks(Vec<ContentBlock>),
    /// Any other value.
    Other,
}

/// A single entry of a transcript.
#[derive(Debug, Clone)]
pub struct TranscriptEntry {
    pub entry_type: Option<String>,
    pub role: Option<String>,
    /// The `content` of the entry itself, as older transcripts have it.
    pub content: Option<MessageContent>,
    pub timestamp: Option<String>,
    pub tool_name: Option<String>,
    /// The `file_path` of the tool's input, where the input has one that is a string.
    pub tool_file_path: Option<String>,
    pub summary: Option<String>,
    /// The `content` of the entry's `message`, as newer transcripts have it.
    pub message_content: Option<MessageContent>,
}

/// One use of a tool.
#[derive(Debug, Clone)]
pub struct ToolCall {
    pub name: String,
    /// The file the tool was pointed at, where its input names one.
    pub file_path: Option<String>,
}

/// What was gathered from a transcript.
#[derive(Debug, Clone)]
pub struct TranscriptData {
    pub entries: Vec<TranscriptEntry>,
    pub user_messages: Vec<String>,
    pub assistant_messages: Vec<String>,
    pub tool_calls: Vec<ToolCall>,
    pub files_modified: Vec<String>,
    pub summary: Option<String>,
}

/// Whether the optional string is present and holds the text.
pub open spec fn is_text(value: Option<String>, wanted: Seq<char>) -> bool {
    value matches Some(s) && s@ == wanted
}

/// The texts of the blocks of type `text`, in order.
pub open spec fn block_texts(blocks: Seq<ContentBlock>) -> Seq<Seq<char>>
    decreases blocks.len(),
{
    if blocks.len() == 0 {
        Seq::empty()
    } else {
        let rest = block_texts(blocks.drop_last());
        let last = blocks.last();
        if is_text(last.block_type, "text"@) && last.text is Some {
            rest.push(last.text->0@)
        } else {
            rest
        }
    }
}

/// The text of a message content of the newer form: the string itself, or the texts of
/// its blocks joined by line feeds where there is at least one.
pub open spec fn nested_text(content: MessageContent) -> Option<Seq<char>> {
    match content {
        MessageContent::Text(t) => Some(t@),
        MessageContent::Blocks(blocks) => if block_texts(blocks@).len() > 0 {
            Some(join(block_texts(blocks@), "\n"@))
        } else {
            None
        },
        MessageContent::Other => None,
    }
}

/// The text of an entry: its own content where that is a string, else the text of its
/// message.
pub open spec fn message_text(entry: TranscriptEntry) -> Option<Seq<char>> {
    match entry.content {
        Some(MessageContent::Text(t)) => Some(t@),
        _ => match entry.message_content {
            Some(content) => nested_text(content),
            None => None,
        },
    }
}

/// Whether the entry is said by the given party, by its role or by its type.
pub open spec fn said_by(entry: TranscriptEntry, party: Seq<char>) -> bool {
    is_text(entry.role, party) || is_text(entry.entry_type, party)
}

/// The texts of the entries said by the party, in order.
pub open spec fn messages_of(entries: Seq<TranscriptEntry>, party: Seq<char>) -> Seq<Seq<char>>
    decreases entries.len(),
{
    if entries.len() == 0 {
        Seq::empty()
    } else {
        let rest = messages_of(entries.drop_last(), party);
        let last = entries.last();
        if said_by(last, party) && message_text(last) is Some {
            rest.push(message_text(last)->0)
        } else {
            rest
        }
    }
}

/// Whether the entry records a tool that writes a file, with the file it wrote.
pub open spec fn writes_file(entry: TranscriptEntry) -> bool {
    (is_text(entry.tool_name, "Write"@) || is_text(entry.tool_name, "Edit"@))
        && entry.tool_file_path is Some
}

/// The files written in the entries, each once, in the order of their first writing.
pub open spec fn files_written(entries: Seq<TranscriptEntry>) -> Seq<Seq<char>>
    decreases entries.len(),
{
    if entries.len() == 0 {
        Seq::empty()
    } else {
        let rest = files_written(entries.drop_last());
        let last = entries.last();
        if writes_file(last) && !rest.contains(last.tool_file_path->0@) {
            rest.push(last.tool_file_path->0@)
        } else {
            rest
        }
    }
}

/// The number of entries that record a use of a tool.
pub open spec fn tool_uses(entries: Seq<TranscriptEntry>) -> nat
    decreases entries.len(),
{
    if entries.len() == 0 {
        0
    } else {
        tool_uses(entries.drop_last()) + if entries.last().tool_name is Some {
            1nat
        } else {
            0nat
        }
    }
}

/// The names of the tools used in the entries, in order.
pub open spec fn tool_names(entries: Seq<TranscriptEntry>) -> Seq<Seq<char>>
    decreases entries.len(),
{
    if entries.len() == 0 {
        Seq::empty()
    } else {
        let rest = tool_names(entries.drop_last());
        match entries.last().tool_name {
            Some(name) => rest.push(name@),
            None => rest,
        }
    }
}

/// The names of the tool calls, in order.
pub open spec fn call_names(calls: Seq<ToolCall>) -> Seq<Seq<char>> {
    calls.map_values(|c: ToolCall| c.name@)
}

/// The summary that the entries carry: that of the last entry of type `TranscriptSummary`,
/// which may be none.
pub open spec fn summary_of(entries: Seq<TranscriptEntry>) -> Option<Seq<char>>
    decreases entries.len(),
{
    if entries.len() == 0 {
        None
    } else {
        let last = entries.last();
        if is_text(last.entry_type, "TranscriptSummary"@) {
            match last.summary {
                Some(s) => Some(s@),
                None => None,
            }
        } else {
            summary_of(entries.drop_last())
        }
    }
}

/// The view of an optional string.
pub open spec fn opt_view(value: Option<String>) -> Option<Seq<char>> {
    match value {
        Some(s) => Some(s@),
        None => None,
    }
}

/// Whether every one of the messages is white space only.
pub open spec fn all_blank(messages: Seq<Seq<char>>) -> bool {
    forall|i: int| 0 <= i < messages.len() ==> trim(#[trigger] messages[i]).len() == 0
}

/// A text cut to `max_len` characters, with an ellipsis where something was cut.
pub open spec fn truncated_text(s: Seq<char>, max_len: int) -> Seq<char> {
    if s.len() <= max_len {
        s
    } else {
        s.subrange(0, max_len) + "..."@
    }
}

/// The numbered list of the first `upto` user requests.
pub open spec fn request_list(messages: Seq<Seq<char>>, upto: int) -> Seq<char>
    decreases upto,
{
    if upto <= 0 || upto > messages.len() {
        Seq::empty()
    } else {
        request_list(messages, upto - 1) + decimal(upto as nat) + ". "@ + truncated_text(
            messages[upto - 1],
            500,
        ) + "\n\n"@
    }
}

/// The number of the first `upto` names that equal `name`.
pub open spec fn count_of(names: Seq<Seq<char>>, name: Seq<char>, upto: int) -> nat
    decreases upto,
{
    if upto <= 0 || upto > names.len() {
        0
    } else {
        count_of(names, name, upto - 1) + if names[upto - 1] == name {
            1nat
        } else {
            0nat
        }
    }
}

/// Whether the name at `i` stands there for the first time.
pub open spec fn first_use(names: Seq<Seq<char>>, i: int) -> bool {
    forall|k: int| 0 <= k < i ==> names[k] != names[i]
}

/// The list of the tools among the first `upto` names, each at its first use with the
/// number of all its uses.
pub open spec fn tool_list(names: Seq<Seq<char>>, upto: int) -> Seq<char>
    decreases upto,
{
    if upto <= 0 || upto > names.len() {
        Seq::empty()
    } else {
        let rest = tool_list(names, upto - 1);
        if first_use(names, upto - 1) {
            rest + "- "@ + names[upto - 1] + ": "@ + decimal(
                count_of(names, names[upto - 1], names.len() as int),
            ) + " calls\n"@
        } else {
            rest
        }
    }
}

/// The list of the first `upto` files.
pub open spec fn file_list(files: Seq<Seq<char>>, upto: int) -> Seq<char>
    decreases upto,
{
    if upto <= 0 || upto > files.len() {
        Seq::empty()
    } else {
        file_list(files, upto - 1) + "- "@ + files[upto - 1] + "\n"@
    }
}

/// The condensed text of what was gathered: the user's requests, the tools used, the files
/// modified and the summary, each under its heading and only where there is something to
/// show.
pub open spec fn condensed_text(
    user_messages: Seq<Seq<char>>,
    tools: Seq<Seq<char>>,
    files: Seq<Seq<char>>,
    summary: Option<Seq<char>>,
) -> Seq<char> {
    (if user_messages.len() > 0 {
        "## User Requests\n\n"@ + request_list(user_messages, user_messages.len() as int)
    } else {
        Seq::empty()
    }) + (if tools.len() > 0 {
        "## Tools Used\n\n"@ + tool_list(tools, tools.len() as int) + "\n"@
    } else {
        Seq::empty()
    }) + (if files.len() > 0 {
        "## Files Modified\n\n"@ + file_list(files, files.len() as int) + "\n"@
    } else {
        Seq::empty()
    }) + (match summary {
        Some(s) => "## Existing Summary\n\n"@ + s + "\n"@,
        None => Seq::empty(),
    })
}

impl TranscriptData {
    /// Whether the gathered data is that of the given entries.
    pub open spec fn gathered_from(&self, entries: Seq<TranscriptEntry>) -> bool {
        &&& self.entries@ == entries
        &&& string_views(self.user_messages@) == messages_of(entries, "user"@)
        &&& string_views(self.assistant_messages@) == messages_of(entries, "assistant"@)
        &&& call_names(self.tool_calls@) == tool_names(entries)
        &&& string_views(self.files_modified@) == files_written(entries)
        &&& opt_view(self.summary) == summary_of(entries)
    }

    /// Whether the session held no word of the user: there are no user messages, or all of
    /// them are white space only.
    pub fn is_empty(&self) -> (r: bool)
        ensures
            r == all_blank(string_views(self.user_messages@)),
    {
        let mut i: usize = 0;
        while i < self.user_messages.len()
            invariant
                i <= self.user_messages.len(),
                forall|k: int|
                    0 <= k < i ==> trim(#[trigger] string_views(self.user_messages@)[k]).len()
                        == 0,
            decreases self.user_messages.len() - i,
        {
            let chars = text::chars_of(self.user_messages[i].as_str());
            if !text::is_blank(&chars) {
                assert(string_views(self.user_messages@)[i as int] == chars@);
                return false;
            }
            assert(string_views(self.user_messages@)[i as int] == chars@);
            i += 1;
        }
        true
    }
}

/// Whether the optional string is present and holds the text.
pub fn holds_text(value: &Option<String>, wanted: &str) -> (r: bool)
    ensures
        r == is_text(*value, wanted@),
{
    match value {
        Some(s) => {
            let chars = text::chars_of(s.as_str());
            text::same_str(&chars, wanted)
        },
        None => false,
    }
}

/// Whether the list holds the text.
pub fn holds_string(list: &Vec<String>, wanted: &str) -> (r: bool)
    ensures
        r == string_views(list@).contains(wanted@),
{
    let w = text::chars_of(wanted);
    let mut i: usize = 0;
    while i < list.len()
        invariant
            i <= list.len(),
            w@ == wanted@,
            forall|k: int| 0 <= k < i ==> string_views(list@)[k] != wanted@,
        decreases list.len() - i,
    {
        let here = text::chars_of(list[i].as_str());
        if text::same(&here, &w) {
            assert(string_views(list@)[i as int] == wanted@);
            return true;
        }
        i += 1;
    }
    false
}

/// A text cut to `max_len` characters, with an ellipsis where something was cut.
pub fn truncate_text(s: &str, max_len: usize) -> (r: String)
    ensures
        r@ == truncated_text(s@, max_len as int),
{
    let chars = text::chars_of(s);
    if chars.len() <= max_len {
        String::from_str(s)
    } else {
        let mut out = text::slice(&chars, 0, max_len);
        text::push_str(&mut out, "...");
        text::string_of(&out)
    }
}

/// The reader of transcripts.
pub struct TranscriptParser;

impl TranscriptParser {
    /// Whether a line of a transcript file holds an entry: a line of white space holds
    /// none.
    pub fn holds_entry(line: &str) -> (r: bool)
        ensures
            r == (trim(line@).len() > 0),
    {
        let chars = text::chars_of(line);
        !text::is_blank(&chars)
    }

    /// The text of a message content of the newer form.
    fn nested_message_text(content: &MessageContent) -> (r: Option<String>)
        ensures
            opt_view(r) == nested_text(*content),
    {
        match content {
            MessageContent::Text(t) => Some(t.clone()),
            MessageContent::Blocks(blocks) => {
                let mut texts: Vec<Vec<char>> = Vec::new();
                let mut i: usize = 0;
                assert(text::views(texts@) =~= Seq::<Seq<char>>::empty());
                assert(blocks@.subrange(0, 0) =~= Seq::<ContentBlock>::empty());
                while i < blocks.len()
                    invariant
                        i <= blocks.len(),
                        text::views(texts@) == block_texts(blocks@.subrange(0, i as int)),
                    decreases blocks.len() - i,
                {
                    proof {
                        let next = blocks@.subrange(0, i + 1);
                        assert(next.drop_last() =~= blocks@.subrange(0, i as int));
                        assert(next.last() == blocks@[i as int]);
                    }
                    if holds_text(&blocks[i].block_type, "text") {
                        match &blocks[i].text {
                            Some(t) => {
                                let ghost prior = text::views(texts@);
                                let chars = text::chars_of(t.as_str());
                                texts.push(chars);
                                assert(text::views(texts@) =~= prior.push(t@));
                            },
                            None => {},
                        }
                    }
                    i += 1;
                }
                assert(blocks@.subrange(0, blocks.len() as int) =~= blocks@);
                if texts.len() > 0 {
                    let joined = text::join_lines(&texts, "\n");
                    Some(text::string_of(&joined))
                } else {
                    None
                }
            },
            MessageContent::Other => None,
        }
    }

    /// The text of an entry: its own content where that is a string, else the text of its
    /// message.
    pub fn extract_message_content(entry: &TranscriptEntry) -> (r: Option<String>)
        ensures
            opt_view(r) == message_text(*entry),
    {
        match &entry.content {
            Some(MessageContent::Text(t)) => Some(t.clone()),
            _ => match &entry.message_content {
                Some(content) => Self::nested_message_text(content),
                None => None,
            },
        }
    }

    /// Gathers the messages, the tool calls, the written files and the summary of the
    /// entries of a transcript.
    pub fn parse(entries: Vec<TranscriptEntry>) -> (r: TranscriptData)
        ensures
            r.gathered_from(entries@),
    {
        let mut user_messages: Vec<String> = Vec::new();
        let mut assistant_messages: Vec<String> = Vec::new();
        let mut tool_calls: Vec<ToolCall> = Vec::new();
        let mut files_modified: Vec<String> = Vec::new();
        let mut summary: Option<String> = None;
        let mut i: usize = 0;
        proof {
            assert(entries@.subrange(0, 0) =~= Seq::<TranscriptEntry>::empty());
            assert(string_views(user_messages@) =~= Seq::<Seq<char>>::empty());
            assert(string_views(assistant_messages@) =~= Seq::<Seq<char>>::empty());
            assert(string_views(files_modified@) =~= Seq::<Seq<char>>::empty());
            assert(call_names(tool_calls@) =~= Seq::<Seq<char>>::empty());
        }
        while i < entries.len()
            invariant
                i <= entries.len(),
                string_views(user_messages@) == messages_of(
                    entries@.subrange(0, i as int),
                    "user"@,
                ),
                string_views(assistant_messages@) == messages_of(
                    entries@.subrange(0, i as int),
                    "assistant"@,
                ),
                call_names(tool_calls@) == tool_names(entries@.subrange(0, i as int)),
                string_views(files_modified@) == files_written(entries@.subrange(0, i as int)),
                opt_view(summary) == summary_of(entries@.subrange(0, i as int)),
            decreases entries.len() - i,
        {
            proof {
                let next = entries@.subrange(0, i + 1);
                assert(next.drop_last() =~= entries@.subrange(0, i as int));
                assert(next.last() == entries@[i as int]);
            }
            let entry = &entries[i];
            if holds_text(&entry.role, "user") || holds_text(&entry.entry_type, "user") {
                match Self::extract_message_content(entry) {
                    Some(t) => {
                        let ghost prior = string_views(user_messages@);
                        user_messages.push(t);
                        assert(string_views(user_messages@) =~= prior.push(t@));
                    },
                    None => {},
                }
            }
            if holds_text(&entry.role, "assistant") || holds_text(&entry.entry_type, "assistant") {
                match Self::extract_message_content(entry) {
                    Some(t) => {
                        let ghost prior = string_views(assistant_messages@);
                        assistant_messages.push(t);
                        assert(string_views(assistant_messages@) =~= prior.push(t@));
                    },
                    None => {},
                }
            }
            match &entry.tool_name {
                Some(name) => {
                    if holds_text(&entry.tool_name, "Write") || holds_text(
                        &entry.tool_name,
                        "Edit",
                    ) {
                        match &entry.tool_file_path {
                            Some(path) => {
                                if !holds_string(&files_modified, path.as_str()) {
                                    let ghost prior = string_views(files_modified@);
                                    let copy = path.clone();
                                    files_modified.push(copy);
                                    assert(string_views(files_modified@) =~= prior.push(path@));
                                }
                            },
                            None => {},
                        }
                    }
                    let ghost prior = call_names(tool_calls@);
                    let call = ToolCall {
                        name: name.clone(),
                        file_path: match &entry.tool_file_path {
                            Some(path) => Some(path.clone()),
                            None => None,
                        },
                    };
                    tool_calls.push(call);
                    assert(call_names(tool_calls@) =~= prior.push(name@));
                },
                None => {},
            }
            if holds_text(&entry.entry_type, "TranscriptSummary") {
                summary = match &entry.summary {
                    Some(s) => Some(s.clone()),
                    None => None,
                };
            }
            i += 1;
        }
        assert(entries@.subrange(0, entries.len() as int) =~= entries@);
        TranscriptData {
            entries,
            user_messages,
            assistant_messages,
            tool_calls,
            files_modified,
            summary,
        }
    }

    /// The condensed text of what was gathered, for the summarizer to read.
    pub fn to_condensed_text(data: &TranscriptData) -> (r: String)
        ensures
            r@ == condensed_text(
                string_views(data.user_messages@),
                call_names(data.tool_calls@),
                string_views(data.files_modified@),
                opt_view(data.summary),
            ),
    {
        let ghost users = string_views(data.user_messages@);
        let ghost tools = call_names(data.tool_calls@);
        let ghost files = string_views(data.files_modified@);
        let mut out: Vec<char> = Vec::new();
        if data.user_messages.len() > 0 {
            text::push_str(&mut out, "## User Requests\n\n");
            let ghost head = out@;
            let mut i: usize = 0;
            while i < data.user_messages.len()
                invariant
                    i <= data.user_messages.len(),
                    users == string_views(data.user_messages@),
                    out@ == head + request_list(users, i as int),
                decreases data.user_messages.len() - i,
            {
                let shown = truncate_text(data.user_messages[i].as_str(), MAX_MESSAGE_CHARS);
                let ghost before = out@;
                text::push_decimal(&mut out, (i + 1) as u64);
                text::push_str(&mut out, ". ");
                text::push_str(&mut out, shown.as_str());
                text::push_str(&mut out, "\n\n");
                assert(out@ =~= head + (request_list(users, i as int) + decimal((i + 1) as nat)
                    + ". "@ + truncated_text(users[i as int], 500) + "\n\n"@));
                i += 1;
            }
        }
        let ghost part1 = out@;
        if data.tool_calls.len() > 0 {
            text::push_str(&mut out, "## Tools Used\n\n");
            let ghost head = out@;
            let n: usize = data.tool_calls.len();
            let mut i: usize = 0;
            while i < n
                invariant
                    i <= n,
                    n == data.tool_calls.len(),
                    tools == call_names(data.tool_calls@),
                    out@ == head + tool_list(tools, i as int),
                decreases n - i,
            {
                let name = text::chars_of(data.tool_calls[i].name.as_str());
                let mut seen: bool = false;
                let mut k: usize = 0;
                while k < i
                    invariant
                        k <= i < n,
                        n == data.tool_calls.len(),
                        tools == call_names(data.tool_calls@),
                        name@ == tools[i as int],
                        seen == !(forall|j: int| 0 <= j < k ==> tools[j] != tools[i as int]),
                    decreases i - k,
                {
                    let other = text::chars_of(data.tool_calls[k].name.as_str());
                    assert(tools[k as int] == other@);
                    if text::same(&other, &name) {
                        seen = true;
                    }
                    k += 1;
                }
                if !seen {
                    let mut count: u64 = 0;
                    let mut k: usize = 0;
                    while k < n
                        invariant
                            k <= n,
                            n == data.tool_calls.len(),
                            i < n,
                            tools == call_names(data.tool_calls@),
                            name@ == tools[i as int],
                            count == count_of(tools, tools[i as int], k as int),
                            count <= k,
                        decreases n - k,
                    {
                        let other = text::chars_of(data.tool_calls[k].name.as_str());
                        assert(tools[k as int] == other@);
                        if text::same(&other, &name) {
                            count += 1;
                        }
                        k += 1;
                    }
                    text::push_str(&mut out, "- ");
                    text::push_all(&mut out, &name);
                    text::push_str(&mut out, ": ");
                    text::push_decimal(&mut out, count);
                    text::push_str(&mut out, " calls\n");
                    assert(out@ =~= head + (tool_list(tools, i as int) + "- "@ + tools[i as int]
                        + ": "@ + decimal(count_of(tools, tools[i as int], tools.len() as int))
                        + " calls\n"@));
                }
                i += 1;
            }
            text::push_str(&mut out, "\n");
        }
        let ghost part2 = out@;
        if data.files_modified.len() > 0 {
            text::push_str(&mut out, "## Files Modified\n\n");
            let ghost head = out@;
            let mut i: usize = 0;
            while i < data.files_modified.len()
                invariant
                    i <= data.files_modified.len(),
                    files == string_views(data.files_modified@),
                    out@ == head + file_list(files, i as int),
                decreases data.files_modified.len() - i,
            {
                text::push_str(&mut out, "- ");
                text::push_str(&mut out, data.files_modified[i].as_str());
                text::push_str(&mut out, "\n");
                assert(out@ =~= head + (file_list(files, i as int) + "- "@ + files[i as int]
                    + "\n"@));
                i += 1;
            }
            text::push_str(&mut out, "\n");
        }
        let ghost part3 = out@;
        match &data.summary {
            Some(s) => {
                text::push_str(&mut out, "## Existing Summary\n\n");
                text::push_str(&mut out, s.as_str());
                text::push_str(&mut out, "\n");
            },
            None => {},
        }
        proof {
            let requests = if users.len() > 0 {
                "## User Requests\n\n"@ + request_list(users, users.len() as int)
            } else {
                Seq::<char>::empty()
            };
            let tools_part = if tools.len() > 0 {
                "## Tools Used\n\n"@ + tool_list(tools, tools.len() as int) + "\n"@
            } else {
                Seq::<char>::empty()
            };
            let files_part = if files.len() > 0 {
                "## Files Modified\n\n"@ + file_list(files, files.len() as int) + "\n"@
            } else {
                Seq::<char>::empty()
            };
            let summary_part = match opt_view(data.summary) {
                Some(s) => "## Existing Summary\n\n"@ + s + "\n"@,
                None => Seq::<char>::empty(),
            };
            assert(part1 =~= requests);
            assert(part2 =~= requests + tools_part);
            assert(part3 =~= requests + tools_part + files_part);
            assert(out@ =~= requests + tools_part + files_part + summary_part);
        }
        text::string_of(&out)
    }
}

} // verus!
