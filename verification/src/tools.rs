//! The tool calls of the agent.
//!
//! The agent answers with the name of a tool and a JSON value that holds the
//! tool's arguments. This module reads them into a [`ToolCall`], filling in
//! what is missing and clamping what is out of range; nothing is rejected.

use vstd::prelude::*;
use crate::command::{CommandView, PlayerCommand, MAX_VOLUME};
use crate::song::text_of;
use crate::text::same_text;

verus! {

/// Number of results to queue where a search names none.
pub const DEFAULT_SEARCH_COUNT: u64 = 3;

/// Number of results that each query of a queue replacement contributes.
pub const REPLACE_SEARCH_COUNT: u32 = 2;

/// Volume level where a volume request names none.
pub const DEFAULT_VOLUME: u64 = 70;

/// A JSON value of `serde_json`.
#[verifier::external_type_specification]
#[verifier::external_body]
pub struct ExJsonValue(serde_json::Value);

/// The members of a JSON object that are strings, by key. A value that is
/// no object has none.
pub uninterp spec fn json_texts(value: serde_json::Value) -> Map<Seq<char>, Seq<char>>;

/// The members of a JSON object that are whole numbers from 0 to the largest
/// `u64`, by key. A value that is no object has none.
pub uninterp spec fn json_counts(value: serde_json::Value) -> Map<Seq<char>, u64>;

/// The members of a JSON object that are arrays, by key. Of each array it
/// gives the items in order, an item that is a string by its text and any
/// other item as `None`. A value that is no object has none.
pub uninterp spec fn json_lists(value: serde_json::Value) -> Map<
    Seq<char>,
    Seq<Option<Seq<char>>>,
>;

/// The texts of a sequence of optional strings, in the same order.
pub open spec fn item_texts(items: Seq<Option<String>>) -> Seq<Option<Seq<char>>> {
    Seq::new(items.len(), |i: int| text_of(items[i]))
}

/// The texts of a sequence of strings, in the same order.
pub open spec fn texts(items: Seq<String>) -> Seq<Seq<char>> {
    Seq::new(items.len(), |i: int| items[i]@)
}

/// The texts of an optional list of optional strings.
pub open spec fn list_texts(list: Option<Vec<Option<String>>>) -> Option<Seq<Option<Seq<char>>>> {
    match list {
        Some(items) => Some(item_texts(items@)),
        None => None,
    }
}

/// `Value::get` of `serde_json` with a string key, then `Value::as_str`:
/// the member `key` of an object, where the value is an object, has that
/// member, and the member is a string.
#[verifier::external_body]
fn text_member(value: &serde_json::Value, key: &str) -> (text: Option<String>)
    ensures
        text_of(text) == json_texts(*value).get(key@),
{
    value.get(key).and_then(|member| member.as_str()).map(String::from)
}

/// `Value::get` of `serde_json` with a string key, then `Value::as_u64`:
/// the member `key` of an object, where the value is an object, has that
/// member, and the member is a whole number that a `u64` holds.
#[verifier::external_body]
fn count_member(value: &serde_json::Value, key: &str) -> (count: Option<u64>)
    ensures
        count == json_counts(*value).get(key@),
{
    value.get(key).and_then(|member| member.as_u64())
}

/// `Value::get` of `serde_json` with a string key, then `Value::as_array`,
/// and `Value::as_str` on each item: the member `key` of an object, where
/// the value is an object, has that member, and the member is an array.
#[verifier::external_body]
fn list_member(value: &serde_json::Value, key: &str) -> (list: Option<Vec<Option<String>>>)
    ensures
        list_texts(list) == json_lists(*value).get(key@),
{
    value.get(key).and_then(|member| member.as_array()).map(
        |items| items.iter().map(|item| item.as_str().map(String::from)).collect(),
    )
}

/// What the agent asks for.
#[derive(Debug, PartialEq, Eq)]
pub enum ToolCall {
    /// Retrieve the track of this source and play it at once.
    PlayUrl { url: String },
    /// Search and put this many of the results at the end of the queue.
    SearchAndQueue { query: String, count: u32 },
    /// Clear the queue and fill it from these searches.
    ReplaceQueue { queries: Vec<String> },
    Skip,
    Pause,
    Resume,
    /// Set the volume to this level, which is at most the highest.
    SetVolume { level: u8 },
    /// A tool that the session does not know. It is passed over.
    Unknown,
}

/// What a [`ToolCall`] is, as plain mathematical values.
pub ghost enum ToolCallView {
    PlayUrl { url: Seq<char> },
    SearchAndQueue { query: Seq<char>, count: u32 },
    ReplaceQueue { queries: Seq<Seq<char>> },
    Skip,
    Pause,
    Resume,
    SetVolume { level: u8 },
    Unknown,
}

impl View for ToolCall {
    type V = ToolCallView;

    open spec fn view(&self) -> ToolCallView {
        match self {
            ToolCall::PlayUrl { url } => ToolCallView::PlayUrl { url: url@ },
            ToolCall::SearchAndQueue { query, count } => ToolCallView::SearchAndQueue {
                query: query@,
                count: *count,
            },
            ToolCall::ReplaceQueue { queries } => ToolCallView::ReplaceQueue {
                queries: texts(queries@),
            },
            ToolCall::Skip => ToolCallView::Skip,
            ToolCall::Pause => ToolCallView::Pause,
            ToolCall::Resume => ToolCallView::Resume,
            ToolCall::SetVolume { level } => ToolCallView::SetVolume { level: *level },
            ToolCall::Unknown => ToolCallView::Unknown,
        }
    }
}

/// A text argument: the text, or no text where it is missing.
pub open spec fn text_or_empty(text: Option<Seq<char>>) -> Seq<char> {
    match text {
        Some(t) => t,
        None => Seq::empty(),
    }
}

/// The number of search results asked for: 3 where none is named, and the
/// low 32 bits of a number that is named.
pub open spec fn search_count(count: Option<u64>) -> u32 {
    match count {
        Some(n) => (n % 0x1_0000_0000) as u32,
        None => DEFAULT_SEARCH_COUNT as u32,
    }
}

/// The volume level asked for: 70 where none is named, and the highest
/// level for any number above it.
pub open spec fn volume_level(level: Option<u64>) -> u8 {
    match level {
        Some(n) => if n >= MAX_VOLUME {
            MAX_VOLUME
        } else {
            n as u8
        },
        None => DEFAULT_VOLUME as u8,
    }
}

/// The items of a list that are strings, in order.
pub open spec fn present(items: Seq<Option<Seq<char>>>) -> Seq<Seq<char>>
    decreases items.len(),
{
    if items.len() == 0 {
        Seq::empty()
    } else {
        match items.last() {
            Some(text) => present(items.drop_last()).push(text),
            None => present(items.drop_last()),
        }
    }
}

/// The queries of a queue replacement: the strings of the list, or none
/// where the list is missing.
pub open spec fn query_list(list: Option<Seq<Option<Seq<char>>>>) -> Seq<Seq<char>> {
    match list {
        Some(items) => present(items),
        None => Seq::empty(),
    }
}

/// The call that the tool `name` with the given arguments stands for.
pub open spec fn tool_call(
    name: Seq<char>,
    texts: Map<Seq<char>, Seq<char>>,
    counts: Map<Seq<char>, u64>,
    lists: Map<Seq<char>, Seq<Option<Seq<char>>>>,
) -> ToolCallView {
    if name == "play_url"@ {
        ToolCallView::PlayUrl { url: text_or_empty(texts.get("url"@)) }
    } else if name == "search_and_queue"@ {
        ToolCallView::SearchAndQueue {
            query: text_or_empty(texts.get("query"@)),
            count: search_count(counts.get("count"@)),
        }
    } else if name == "replace_queue"@ {
        ToolCallView::ReplaceQueue { queries: query_list(lists.get("queries"@)) }
    } else if name == "skip"@ {
        ToolCallView::Skip
    } else if name == "pause"@ {
        ToolCallView::Pause
    } else if name == "resume"@ {
        ToolCallView::Resume
    } else if name == "set_volume"@ {
        ToolCallView::SetVolume { level: volume_level(counts.get("level"@)) }
    } else {
        ToolCallView::Unknown
    }
}

impl ToolCallView {
    /// The command that the call appends to the pending commands, for the
    /// calls that are plain commands.
    pub open spec fn command(self) -> Option<CommandView> {
        match self {
            ToolCallView::Skip => Some(CommandView::Skip),
            ToolCallView::Pause => Some(CommandView::Pause),
            ToolCallView::Resume => Some(CommandView::Resume),
            ToolCallView::SetVolume { level } => Some(CommandView::SetVolume(level)),
            _ => None,
        }
    }
}

/// The view of a command, if there is one.
pub open spec fn command_view(command: Option<PlayerCommand>) -> Option<CommandView> {
    match command {
        Some(c) => Some(c@),
        None => None,
    }
}

/// Reads a text argument.
pub fn text_argument(text: Option<String>) -> (r: String)
    ensures
        r@ == text_or_empty(text_of(text)),
{
    match text {
        Some(t) => t,
        None => String::new(),
    }
}

/// Reads the number of search results asked for.
pub fn count_argument(count: Option<u64>) -> (r: u32)
    ensures
        r == search_count(count),
{
    match count {
        Some(n) => (n % 0x1_0000_0000) as u32,
        None => DEFAULT_SEARCH_COUNT as u32,
    }
}

/// Reads the volume level asked for.
pub fn volume_argument(level: Option<u64>) -> (r: u8)
    ensures
        r == volume_level(level),
        r <= MAX_VOLUME,
{
    match level {
        Some(n) => if n >= MAX_VOLUME as u64 {
            MAX_VOLUME
        } else {
            n as u8
        },
        None => DEFAULT_VOLUME as u8,
    }
}

/// Reads the queries of a queue replacement.
pub fn queries_argument(list: Option<Vec<Option<String>>>) -> (queries: Vec<String>)
    ensures
        texts(queries@) == query_list(list_texts(list)),
{
    let mut queries: Vec<String> = Vec::new();
    match list {
        Some(items) => {
            let mut i: usize = 0;
            assert(item_texts(items@).take(0) =~= Seq::empty());
            assert(texts(queries@) =~= Seq::empty());
            while i < items.len()
                invariant
                    0 <= i <= items.len(),
                    texts(queries@) == present(item_texts(items@).take(i as int)),
                decreases items.len() - i,
            {
                proof {
                    let upto = item_texts(items@).take(i as int + 1);
                    assert(upto.drop_last() =~= item_texts(items@).take(i as int));
                    assert(upto.last() == text_of(items@[i as int]));
                }
                let ghost before = queries@;
                match &items[i] {
                    Some(text) => {
                        queries.push(text.clone());
                        assert(texts(queries@) =~= texts(before).push(text@));
                    },
                    None => {},
                }
                i = i + 1;
            }
            assert(item_texts(items@).take(items.len() as int) =~= item_texts(items@));
        },
        None => {
            assert(texts(queries@) =~= Seq::empty());
        },
    }
    queries
}

impl ToolCall {
    /// Reads the call of the tool `name` with the arguments `input`.
    pub fn parse(name: &str, input: &serde_json::Value) -> (call: ToolCall)
        ensures
            call@ == tool_call(name@, json_texts(*input), json_counts(*input), json_lists(*input)),
    {
        if same_text(name, "play_url") {
            ToolCall::PlayUrl { url: text_argument(text_member(input, "url")) }
        } else if same_text(name, "search_and_queue") {
            ToolCall::SearchAndQueue {
                query: text_argument(text_member(input, "query")),
                count: count_argument(count_member(input, "count")),
            }
        } else if same_text(name, "replace_queue") {
            ToolCall::ReplaceQueue { queries: queries_argument(list_member(input, "queries")) }
        } else if same_text(name, "skip") {
            ToolCall::Skip
        } else if same_text(name, "pause") {
            ToolCall::Pause
        } else if same_text(name, "resume") {
            ToolCall::Resume
        } else if same_text(name, "set_volume") {
            ToolCall::SetVolume { level: volume_argument(count_member(input, "level")) }
        } else {
            ToolCall::Unknown
        }
    }

    /// The command that the call appends to the pending commands, for the
    /// calls that are plain commands.
    pub fn command(&self) -> (command: Option<PlayerCommand>)
        ensures
            command_view(command) == self@.command(),
    {
        match self {
            ToolCall::Skip => Some(PlayerCommand::Skip),
            ToolCall::Pause => Some(PlayerCommand::Pause),
            ToolCall::Resume => Some(PlayerCommand::Resume),
            ToolCall::SetVolume { level } => Some(PlayerCommand::SetVolume(*level)),
            _ => None,
        }
    }
}

} // verus!
