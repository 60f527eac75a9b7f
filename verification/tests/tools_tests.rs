use serde_json::{Number, Value};
use vibeplayer::command::PlayerCommand;
use vibeplayer::tools::{
    count_argument, queries_argument, text_argument, volume_argument, ToolCall,
};

fn object(members: Vec<(&str, Value)>) -> Value {
    let mut map = serde_json::Map::new();
    for (key, value) in members {
        map.insert(key.to_string(), value);
    }
    Value::Object(map)
}

fn text(s: &str) -> Value {
    Value::String(s.to_string())
}

fn number(n: u64) -> Value {
    Value::Number(Number::from(n))
}

#[test]
fn play_url_reads_the_url() {
    let call = ToolCall::parse("play_url", &object(vec![("url", text("https://x/v"))]));
    assert_eq!(call, ToolCall::PlayUrl { url: "https://x/v".to_string() });
}

#[test]
fn play_url_without_a_url_has_an_empty_one() {
    assert_eq!(ToolCall::parse("play_url", &object(vec![])), ToolCall::PlayUrl { url: String::new() });
    assert_eq!(
        ToolCall::parse("play_url", &object(vec![("url", number(5))])),
        ToolCall::PlayUrl { url: String::new() }
    );
    assert_eq!(ToolCall::parse("play_url", &Value::Null), ToolCall::PlayUrl { url: String::new() });
    assert_eq!(
        ToolCall::parse("play_url", &text("https://x/v")),
        ToolCall::PlayUrl { url: String::new() }
    );
}

#[test]
fn search_and_queue_reads_query_and_count() {
    let call = ToolCall::parse(
        "search_and_queue",
        &object(vec![("query", text("lofi beats")), ("count", number(5))]),
    );
    assert_eq!(call, ToolCall::SearchAndQueue { query: "lofi beats".to_string(), count: 5 });
}

#[test]
fn search_and_queue_defaults_to_three_results() {
    let call = ToolCall::parse("search_and_queue", &object(vec![("query", text("jazz"))]));
    assert_eq!(call, ToolCall::SearchAndQueue { query: "jazz".to_string(), count: 3 });
    let negative = ToolCall::parse(
        "search_and_queue",
        &object(vec![("query", text("jazz")), ("count", Value::Number(Number::from(-2)))]),
    );
    assert_eq!(negative, ToolCall::SearchAndQueue { query: "jazz".to_string(), count: 3 });
    let word = ToolCall::parse(
        "search_and_queue",
        &object(vec![("count", text("4"))]),
    );
    assert_eq!(word, ToolCall::SearchAndQueue { query: String::new(), count: 3 });
}

#[test]
fn search_count_keeps_the_low_32_bits() {
    let call = ToolCall::parse(
        "search_and_queue",
        &object(vec![("query", text("q")), ("count", number(0x1_0000_0002))]),
    );
    assert_eq!(call, ToolCall::SearchAndQueue { query: "q".to_string(), count: 2 });
    assert_eq!(count_argument(Some(u64::MAX)), u32::MAX);
    assert_eq!(count_argument(Some(0)), 0);
    assert_eq!(count_argument(None), 3);
}

#[test]
fn replace_queue_reads_the_strings_of_the_list() {
    let call = ToolCall::parse(
        "replace_queue",
        &object(vec![(
            "queries",
            Value::Array(vec![text("a"), number(1), text("b"), Value::Null, text("c")]),
        )]),
    );
    assert_eq!(
        call,
        ToolCall::ReplaceQueue { queries: vec!["a".to_string(), "b".to_string(), "c".to_string()] }
    );
}

#[test]
fn replace_queue_without_a_list_has_no_queries() {
    assert_eq!(
        ToolCall::parse("replace_queue", &object(vec![])),
        ToolCall::ReplaceQueue { queries: vec![] }
    );
    assert_eq!(
        ToolCall::parse("replace_queue", &object(vec![("queries", text("a"))])),
        ToolCall::ReplaceQueue { queries: vec![] }
    );
    assert_eq!(
        ToolCall::parse("replace_queue", &object(vec![("queries", Value::Array(vec![]))])),
        ToolCall::ReplaceQueue { queries: vec![] }
    );
}

#[test]
fn plain_tools() {
    assert_eq!(ToolCall::parse("skip", &object(vec![])), ToolCall::Skip);
    assert_eq!(ToolCall::parse("pause", &object(vec![])), ToolCall::Pause);
    assert_eq!(ToolCall::parse("resume", &Value::Null), ToolCall::Resume);
    assert_eq!(ToolCall::parse("dance", &object(vec![])), ToolCall::Unknown);
    assert_eq!(ToolCall::parse("", &object(vec![])), ToolCall::Unknown);
    assert_eq!(ToolCall::parse("Skip", &object(vec![])), ToolCall::Unknown);
}

#[test]
fn set_volume_is_clamped_and_defaults_to_seventy() {
    assert_eq!(
        ToolCall::parse("set_volume", &object(vec![("level", number(30))])),
        ToolCall::SetVolume { level: 30 }
    );
    assert_eq!(
        ToolCall::parse("set_volume", &object(vec![("level", number(100))])),
        ToolCall::SetVolume { level: 100 }
    );
    assert_eq!(
        ToolCall::parse("set_volume", &object(vec![("level", number(300))])),
        ToolCall::SetVolume { level: 100 }
    );
    assert_eq!(
        ToolCall::parse("set_volume", &object(vec![("level", number(u64::MAX))])),
        ToolCall::SetVolume { level: 100 }
    );
    assert_eq!(
        ToolCall::parse("set_volume", &object(vec![])),
        ToolCall::SetVolume { level: 70 }
    );
    assert_eq!(
        ToolCall::parse("set_volume", &object(vec![("level", text("loud"))])),
        ToolCall::SetVolume { level: 70 }
    );
    assert_eq!(volume_argument(Some(99)), 99);
    assert_eq!(volume_argument(Some(101)), 100);
    assert_eq!(volume_argument(None), 70);
}

#[test]
fn arguments_by_themselves() {
    assert_eq!(text_argument(Some("x".to_string())), "x");
    assert_eq!(text_argument(None), "");
    assert_eq!(queries_argument(None), Vec::<String>::new());
    assert_eq!(
        queries_argument(Some(vec![None, Some("a".to_string()), None, Some("b".to_string())])),
        vec!["a".to_string(), "b".to_string()]
    );
}

#[test]
fn commands_of_calls() {
    assert_eq!(ToolCall::Skip.command(), Some(PlayerCommand::Skip));
    assert_eq!(ToolCall::Pause.command(), Some(PlayerCommand::Pause));
    assert_eq!(ToolCall::Resume.command(), Some(PlayerCommand::Resume));
    assert_eq!(ToolCall::SetVolume { level: 40 }.command(), Some(PlayerCommand::SetVolume(40)));
    assert_eq!(ToolCall::Unknown.command(), None);
    assert_eq!(ToolCall::PlayUrl { url: "u".to_string() }.command(), None);
    assert_eq!(ToolCall::SearchAndQueue { query: "q".to_string(), count: 1 }.command(), None);
    assert_eq!(ToolCall::ReplaceQueue { queries: vec![] }.command(), None);
}
