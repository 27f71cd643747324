use agent_sessions::events::Event;
use agent_sessions::parser::StreamParser;

fn sid() -> String {
    "sess-1".to_string()
}

#[test]
fn blank_line_emits_nothing() {
    let p = StreamParser::new();
    assert_eq!(p.parse_line("sess-1", ""), vec![]);
    assert_eq!(p.parse_line("sess-1", "   \t  "), vec![]);
}

#[test]
fn malformed_line_emits_nothing_and_later_lines_still_work() {
    let p = StreamParser::new();
    assert_eq!(p.parse_line("sess-1", "this is { not json"), vec![]);
    assert_eq!(p.parse_line("sess-1", "{\"type\":"), vec![]);
    // the same parser still handles a valid line afterwards
    let events = p.parse_line("sess-1", "{\"type\":\"system\",\"subtype\":\"compaction\"}");
    assert_eq!(events.len(), 2);
    assert_eq!(events[1], Event::Compaction { session_id: sid() });
}

#[test]
fn valid_line_is_republished_raw() {
    let p = StreamParser::new();
    let events = p.parse_line("sess-1", "  {\"type\":\"unknown_kind\"}  ");
    assert_eq!(
        events,
        vec![Event::StreamEvent {
            session_id: sid(),
            payload: "{\"type\":\"unknown_kind\"}".to_string(),
        }]
    );
}

#[test]
fn system_init_is_informational() {
    let p = StreamParser::new();
    let events =
        p.parse_line("sess-1", "{\"type\":\"system\",\"subtype\":\"init\",\"session_id\":\"e\"}");
    assert_eq!(events.len(), 1);
    assert!(matches!(events[0], Event::StreamEvent { .. }));
}

#[test]
fn system_compaction_publishes() {
    let p = StreamParser::new();
    let events = p.parse_line("sess-1", "{\"type\":\"system\",\"subtype\":\"compaction\"}");
    assert_eq!(events[1], Event::Compaction { session_id: sid() });
}

#[test]
fn assistant_message_publishes_nothing() {
    let p = StreamParser::new();
    let events = p.parse_line(
        "sess-1",
        "{\"type\":\"assistant\",\"message\":{\"role\":\"assistant\",\"model\":\"m\"}}",
    );
    assert_eq!(events.len(), 1);
}

#[test]
fn tool_use_block_start_publishes_tool_start() {
    let p = StreamParser::new();
    let line = "{\"type\":\"stream_event\",\"event\":{\"type\":\"content_block_start\",\
                \"content_block\":{\"type\":\"tool_use\",\"name\":\"Bash\",\"id\":\"tu_1\"}}}";
    let events = p.parse_line("sess-1", line);
    assert_eq!(
        events[1],
        Event::ToolStart {
            session_id: sid(),
            tool_name: "Bash".to_string(),
            tool_id: "tu_1".to_string(),
        }
    );
}

#[test]
fn tool_use_block_without_name_uses_unknown() {
    let p = StreamParser::new();
    let line = "{\"type\":\"stream_event\",\"event\":{\"type\":\"content_block_start\",\
                \"content_block\":{\"type\":\"tool_use\"}}}";
    let events = p.parse_line("sess-1", line);
    assert_eq!(
        events[1],
        Event::ToolStart {
            session_id: sid(),
            tool_name: "unknown".to_string(),
            tool_id: "".to_string(),
        }
    );
}

#[test]
fn text_block_start_publishes_nothing() {
    let p = StreamParser::new();
    let line = "{\"type\":\"stream_event\",\"event\":{\"type\":\"content_block_start\",\
                \"content_block\":{\"type\":\"text\"}}}";
    assert_eq!(p.parse_line("sess-1", line).len(), 1);
}

#[test]
fn text_delta_publishes_text() {
    let p = StreamParser::new();
    let line = "{\"type\":\"stream_event\",\"event\":{\"type\":\"content_block_delta\",\
                \"delta\":{\"type\":\"text_delta\",\"text\":\"hello\"}}}";
    let events = p.parse_line("sess-1", line);
    assert_eq!(events[1], Event::TextDelta { session_id: sid(), text: "hello".to_string() });
}

#[test]
fn tool_input_delta_publishes_partial_json() {
    let p = StreamParser::new();
    let line = "{\"type\":\"stream_event\",\"event\":{\"type\":\"content_block_delta\",\
                \"delta\":{\"type\":\"input_json_delta\",\"partial_json\":\"{\\\"cmd\\\"\"}}}";
    let events = p.parse_line("sess-1", line);
    assert_eq!(
        events[1],
        Event::ToolInputDelta { session_id: sid(), partial_json: "{\"cmd\"".to_string() }
    );
}

#[test]
fn message_delta_republishes_usage() {
    let p = StreamParser::new();
    let line = "{\"type\":\"stream_event\",\"event\":{\"type\":\"message_delta\",\
                \"usage\":{\"input_tokens\":3,\"output_tokens\":7,\
                \"cache_creation_input_tokens\":11,\"cache_read_input_tokens\":13}}}";
    let events = p.parse_line("sess-1", line);
    assert_eq!(
        events[1],
        Event::UsageUpdate {
            session_id: sid(),
            input_tokens: 3,
            output_tokens: 7,
            cache_creation_input_tokens: 11,
            cache_read_input_tokens: 13,
        }
    );
}

#[test]
fn message_stop_publishes_message_complete() {
    let p = StreamParser::new();
    let line = "{\"type\":\"stream_event\",\"event\":{\"type\":\"message_stop\"}}";
    let events = p.parse_line("sess-1", line);
    assert_eq!(events[1], Event::MessageComplete { session_id: sid() });
}

#[test]
fn result_publishes_usage_then_message_complete() {
    let p = StreamParser::new();
    let line = "{\"type\":\"result\",\"usage\":{\"input_tokens\":10,\"output_tokens\":5}}";
    let events = p.parse_line("sess-1", line);
    assert_eq!(events.len(), 3);
    assert_eq!(
        events[1],
        Event::UsageUpdate {
            session_id: sid(),
            input_tokens: 10,
            output_tokens: 5,
            cache_creation_input_tokens: 0,
            cache_read_input_tokens: 0,
        }
    );
    assert_eq!(events[2], Event::MessageComplete { session_id: sid() });
}

#[test]
fn result_without_usage_still_completes_the_message() {
    let p = StreamParser::new();
    let events = p.parse_line("sess-1", "{\"type\":\"result\",\"is_error\":true}");
    assert_eq!(events.len(), 2);
    assert_eq!(events[1], Event::MessageComplete { session_id: sid() });
}

#[test]
fn unknown_inner_event_is_ignored() {
    let p = StreamParser::new();
    let line = "{\"type\":\"stream_event\",\"event\":{\"type\":\"something_new\"}}";
    assert_eq!(p.parse_line("sess-1", line).len(), 1);
}

#[test]
fn event_channels() {
    assert_eq!(
        Event::Compaction { session_id: sid() }.channel(),
        "agent:compaction".to_string()
    );
    assert_eq!(
        Event::MessageComplete { session_id: sid() }.channel(),
        "agent:message_complete".to_string()
    );
    assert_eq!(
        Event::TextDelta { session_id: sid(), text: "x".to_string() }.channel(),
        "agent:text_delta".to_string()
    );
}
