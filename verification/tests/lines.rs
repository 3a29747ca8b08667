use synapse_agents::json::{Json, JsonNumber, read_json_bytes};
use synapse_agents::transcripts::claude::restored_message_ids;
use synapse_agents::transcripts::cursor::{SourceBoundary, SourceFingerprint, TranscriptCursor};
use synapse_agents::transcripts::lines::{AgentTranscriptRecord, parse_line, place_reading};
use synapse_agents::transcripts::record::{
    StreamState, TranscriptParseStatus, TranscriptRole, TranscriptRules, TranscriptSource,
};
use synapse_agents::transcripts::times::{
    epoch_from_digest, parse_rfc3339_unix_ms, stable_source_epoch_ms, stable_transcript_ts_ns,
    timestamp_ms_with_line_offset, transcript_source_ts_ns, unix_ms_of, uuid_v7_unix_ms,
    value_as_u64,
};

fn rules() -> TranscriptRules {
    TranscriptRules {
        max_summary_chars: 10,
        max_tool_args_chars: 8,
        max_tool_result_chars: 6,
        tool_status_error: "error".to_owned(),
        tool_status_ok: "ok".to_owned(),
        vendor: "acme".to_owned(),
    }
}

fn cursor(source: TranscriptSource) -> TranscriptCursor {
    TranscriptCursor {
        record_version: 1,
        spawn_id: "agent-spawn-1".to_owned(),
        source,
        source_path: "/spawns/1/stdout.jsonl".to_owned(),
        offset_bytes: 0,
        lines_ingested: 0,
        parsed_rows: 0,
        invalid_rows: 0,
        stream: StreamState {
            turn_index: 0,
            last_assistant_message_id: None,
            seen_message_ids: Vec::new(),
            conversation_id: None,
            model: None,
        },
        source_epoch_unix_ms: Some(1_000),
        fingerprint: SourceFingerprint { bytes: None, sha256: None },
        boundary: SourceBoundary { start_offset_bytes: None, bytes: None, sha256: None },
        source_complete: false,
        completed_reason: None,
        end_state_anchor_outcome: None,
        end_state_anchor_rows: None,
        error: None,
        updated_ts_ns: 0,
    }
}

fn parse(source: TranscriptSource, line: &str) -> (AgentTranscriptRecord, TranscriptCursor) {
    let mut cursor = cursor(source);
    let record = parse_line(line.as_bytes(), 1, &mut cursor, &rules());
    (record, cursor)
}

fn refusal(source: TranscriptSource, line: &str) -> String {
    let (record, _) = parse(source, line);
    assert_eq!(record.status, TranscriptParseStatus::Invalid);
    assert!(record.body.is_none());
    record.parse_error.unwrap()
}

const STREAM: TranscriptSource = TranscriptSource::ClaudeStreamJson;
const CODEX: TranscriptSource = TranscriptSource::CodexExecJson;
const SERVER: TranscriptSource = TranscriptSource::CodexAppServerJsonRpc;
const LOCAL: TranscriptSource = TranscriptSource::LocalModelJson;

#[test]
fn instants_of_lines_keep_their_order() {
    assert_eq!(timestamp_ms_with_line_offset(2, 3), 2_000_003);
    assert_eq!(timestamp_ms_with_line_offset(2, 1_000_003), 2_000_003);
    assert_eq!(timestamp_ms_with_line_offset(u64::MAX, 3), u64::MAX);
    assert!(timestamp_ms_with_line_offset(5, 1) < timestamp_ms_with_line_offset(5, 2));
}

#[test]
fn version_seven_identifiers_hold_their_time() {
    assert_eq!(
        uuid_v7_unix_ms(" 018f0e2a-1234-7abc-8def-0123456789ab ", "acme"),
        Some(1_713_929_589_300)
    );
    assert_eq!(
        uuid_v7_unix_ms("agent-spawn-ambient-acme-018F0E2A-1234-7abc-8def-0123456789ab", "acme"),
        Some(1_713_929_589_300)
    );
    assert_eq!(uuid_v7_unix_ms("018f0e2a-1234-4abc-8def-0123456789ab", "acme"), None);
    assert_eq!(uuid_v7_unix_ms("018f0e2a-1234", "acme"), None);
    assert_eq!(uuid_v7_unix_ms("018f0e2a-1234-7abx-8def-0123456789ab", "acme"), None);
}

#[test]
fn dates_are_read_as_rfc3339() {
    assert_eq!(parse_rfc3339_unix_ms("2024-01-02T03:04:05.678Z"), Some(1_704_164_645_678));
    assert_eq!(parse_rfc3339_unix_ms("2024-01-02T04:04:05.678+01:00"), Some(1_704_164_645_678));
    assert_eq!(parse_rfc3339_unix_ms("1960-01-01T00:00:00Z"), None);
    assert_eq!(parse_rfc3339_unix_ms("yesterday"), None);
    assert_eq!(unix_ms_of(Some(-1)), None);
    assert_eq!(unix_ms_of(Some(7)), Some(7));
}

#[test]
fn sources_without_a_time_get_a_stable_one() {
    assert_eq!(stable_source_epoch_ms("plain-source"), 2_021_763_707_641);
    assert_eq!(stable_transcript_ts_ns("plain-source", 4, None, "acme"), 2_021_763_707_641_000_004);
    assert_eq!(stable_transcript_ts_ns("plain-source", 4, Some(9), "acme"), 9_000_004);
    assert_eq!(
        stable_transcript_ts_ns("018f0e2a-1234-7abc-8def-0123456789ab", 1, None, "acme"),
        1_713_929_589_300_000_001
    );
    let mut digest = [0u8; 32];
    digest[7] = 5;
    assert_eq!(epoch_from_digest(&digest), 1_600_000_000_005);
}

#[test]
fn the_time_of_a_line_is_the_best_that_it_says() {
    let time = |line: &str| {
        let value = read_json_bytes(line.as_bytes()).unwrap();
        transcript_source_ts_ns(Some(&value), "s", 2, Some(1), "acme")
    };
    assert_eq!(time(r#"{"a":{"ts_ns":77},"created_unix_ms":5}"#), 77);
    assert_eq!(time(r#"{"created_unix_ms":" 5 "}"#), 5_000_002);
    assert_eq!(time(r#"{"x":[{"timestamp":"1970-01-01T00:00:01Z"}]}"#), 1_000_000_002);
    assert_eq!(
        time(r#"{"message":{"id":"msg_018f0e2a12347abc8def0123456789ab"}}"#),
        1_713_929_589_300_000_002
    );
    assert_eq!(time(r#"{"id":"plain"}"#), 1_000_002);
}

#[test]
fn loose_numbers() {
    assert_eq!(value_as_u64(&Json::Str(" 12 ".to_owned())), Some(12));
    assert_eq!(value_as_u64(&Json::Number(JsonNumber::Unsigned(3))), Some(3));
    assert_eq!(value_as_u64(&Json::Number(JsonNumber::Negative(-3))), None);
    assert_eq!(value_as_u64(&Json::Bool(true)), None);
}

#[test]
fn every_line_has_its_row() {
    for line in ["", "[]", "{\"type\":\"x\"}", "not json"] {
        let (record, _) = parse(STREAM, line);
        assert_eq!(record.line_no, 1);
        assert_eq!(record.spawn_id, "agent-spawn-1");
        assert_eq!(record.raw_line_bytes, line.len() as u64);
        assert_eq!(record.raw_line_sha256, synapse_agents::digest::sha256_hex(line.as_bytes()));
        assert!(record.parse_error.is_some());
    }
}

#[test]
fn lines_that_cannot_be_read_leave_the_stream() {
    let mut own = cursor(STREAM);
    let record = parse_line(&[0xff, 0xfe], 1, &mut own, &rules());
    assert!(record.parse_error.unwrap().starts_with("LINE_NOT_UTF8: invalid utf-8"));
    assert!(refusal(STREAM, "{").starts_with("LINE_NOT_JSON: "));
    assert_eq!(refusal(STREAM, "[1]"), "LINE_NOT_JSON_OBJECT");
    assert_eq!(own.stream.turn_index, 0);
}

#[test]
fn claude_init_names_the_conversation() {
    let (record, own) = parse(
        STREAM,
        r#"{"type":"system","subtype":"init","session_id":"s1","model":"m1"}"#,
    );
    assert_eq!(record.status, TranscriptParseStatus::Parsed);
    assert_eq!(record.conversation_id.as_deref(), Some("s1"));
    assert_eq!(record.model.as_deref(), Some("m1"));
    assert_eq!(record.turn_index, None);
    let body = record.body.unwrap();
    assert_eq!(body.event_kind, "system/init");
    assert_eq!(body.role, TranscriptRole::System);
    assert_eq!(own.stream.model.as_deref(), Some("m1"));
}

#[test]
fn claude_assistant_messages_count_turns_once() {
    let mut own = cursor(STREAM);
    let line = r#"{"type":"assistant","message":{"id":"m","model":"opus","content":[
        {"type":"text","text":"one"},{"type":"thinking","thinking":"two"},
        {"type":"redacted_thinking"},
        {"type":"tool_use","name":"Bash","id":"t1","input":{"command":"ls -la"}},
        {"type":"web_search_tool_result","tool_use_id":"t2","content":"found it"}],
        "usage":{"input_tokens":3,"output_tokens":4,"cache_creation":{"ephemeral_5m_input_tokens":5}}}}"#;
    let record = parse_line(line.as_bytes(), 1, &mut own, &rules());
    assert_eq!(record.turn_index, Some(1));
    assert_eq!(record.model.as_deref(), Some("opus"));
    let body = record.body.unwrap();
    let content = body.content.unwrap();
    assert_eq!(content.summary, "one\ntwo");
    assert_eq!(content.bytes, 7);
    assert!(!content.truncated);
    assert_eq!(body.tool_calls.len(), 2);
    assert_eq!(body.tool_calls[0].tool_name, "Bash");
    assert_eq!(body.tool_calls[0].arguments.as_deref(), Some("{\"comman"));
    assert_eq!(body.tool_calls[0].arguments_bytes, Some(20));
    assert!(body.tool_calls[0].arguments_truncated);
    assert_eq!(body.tool_calls[1].result_summary.as_deref(), Some("found "));
    let usage = body.usage.unwrap();
    assert_eq!(usage.input_tokens, Some(3));
    assert_eq!(usage.cache_creation_5m_input_tokens, Some(5));
    assert_eq!(usage.cache_creation_1h_input_tokens, None);
    let again = parse_line(line.as_bytes(), 2, &mut own, &rules());
    assert_eq!(again.turn_index, Some(1));
    let other = line.replace("\"id\":\"m\"", "\"id\":\"n\"");
    let next = parse_line(other.as_bytes(), 3, &mut own, &rules());
    assert_eq!(next.turn_index, Some(2));
}

#[test]
fn a_message_that_comes_back_is_no_new_turn() {
    let mut own = cursor(STREAM);
    let mut turns = Vec::new();
    for (at, id) in ["m1", "m1", "m2", "m1"].into_iter().enumerate() {
        let line = format!(r#"{{"type":"assistant","message":{{"id":"{id}","content":[]}}}}"#);
        let record = parse_line(line.as_bytes(), at as u64 + 1, &mut own, &rules());
        assert_eq!(record.status, TranscriptParseStatus::Parsed);
        turns.push(own.stream.turn_index);
    }
    assert_eq!(turns, [1, 1, 2, 2]);
    assert_eq!(own.stream.seen_message_ids, ["m1", "m2"]);
    assert_eq!(own.stream.last_assistant_message_id.as_deref(), Some("m1"));
}

#[test]
fn a_cursor_without_ids_knows_its_last_message() {
    assert_eq!(restored_message_ids(Vec::new(), &Some("m".to_owned())), ["m"]);
    assert!(restored_message_ids(Vec::new(), &None).is_empty());
    let kept = vec!["a".to_owned(), "b".to_owned()];
    assert_eq!(restored_message_ids(kept, &Some("b".to_owned())), ["a", "b"]);
}

#[test]
fn a_refused_assistant_message_still_counts_for_the_stream() {
    let (record, own) = parse(
        STREAM,
        r#"{"type":"assistant","message":{"id":"m","model":"opus","content":[{"type":"odd"}]}}"#,
    );
    assert_eq!(record.parse_error.as_deref(), Some("UNKNOWN_ASSISTANT_CONTENT_BLOCK: odd"));
    assert_eq!(record.model.as_deref(), Some("opus"));
    assert_eq!(record.conversation_id, None);
    assert_eq!(own.stream.turn_index, 1);
}

#[test]
fn claude_refusals() {
    let cases = [
        (r#"{}"#, "MISSING_TYPE: line has no string `type` field"),
        (r#"{"type":"odd"}"#, "UNKNOWN_EVENT_TYPE: odd"),
        (r#"{"type":"system"}"#, "SYSTEM_MISSING_SUBTYPE"),
        (r#"{"type":"assistant"}"#, "ASSISTANT_MISSING_MESSAGE"),
        (r#"{"type":"assistant","message":{}}"#, "ASSISTANT_MISSING_CONTENT_ARRAY"),
        (r#"{"type":"assistant","message":{"content":[1]}}"#, "ASSISTANT_CONTENT_BLOCK_NOT_OBJECT"),
        (r#"{"type":"assistant","message":{"content":[{}]}}"#, "ASSISTANT_CONTENT_BLOCK_MISSING_TYPE"),
        (
            r#"{"type":"assistant","message":{"content":[{"type":"tool_use"}]}}"#,
            "TOOL_USE_MISSING_NAME",
        ),
        (r#"{"type":"user"}"#, "USER_MISSING_MESSAGE"),
        (r#"{"type":"user","message":{}}"#, "USER_MISSING_CONTENT"),
        (r#"{"type":"user","message":{"content":7}}"#, "USER_CONTENT_NOT_STRING_OR_ARRAY"),
        (r#"{"type":"user","message":{"content":[7]}}"#, "USER_CONTENT_BLOCK_NOT_OBJECT"),
        (r#"{"type":"user","message":{"content":[{}]}}"#, "USER_CONTENT_BLOCK_MISSING_TYPE"),
        (
            r#"{"type":"user","message":{"content":[{"type":"text"}]}}"#,
            "UNKNOWN_USER_CONTENT_BLOCK: text",
        ),
        (r#"{"type":"result","modelUsage":3}"#, "RESULT_MODEL_USAGE_NOT_OBJECT"),
    ];
    for (line, expected) in cases {
        assert_eq!(refusal(STREAM, line), expected);
    }
}

#[test]
fn claude_tool_results_and_fallbacks() {
    let (record, _) = parse(
        STREAM,
        r#"{"type":"user","message":{"content":[{"type":"tool_result","tool_use_id":"t","content":"1234567"}]}}"#,
    );
    let body = record.body.unwrap();
    assert_eq!(body.event_kind, "user/tool_result");
    assert_eq!(body.tool_calls[0].result_bytes, Some(7));
    assert_eq!(body.tool_calls[0].result_summary.as_deref(), Some("123456"));
    assert!(body.tool_calls[0].result_truncated);
    let (record, _) = parse(
        STREAM,
        r#"{"type":"assistant","message":{"content":[{"type":"fallback","to":"x"}]}}"#,
    );
    let content = record.body.unwrap().content.unwrap();
    assert_eq!(content.bytes, 28);
    assert!(content.truncated);
    let (record, _) = parse(STREAM, r#"{"type":"rate_limit_event"}"#);
    assert_eq!(record.body.unwrap().event_kind, "rate_limit_event");
}

#[test]
fn claude_results_account_for_models_in_order() {
    let (record, _) = parse(
        STREAM,
        r#"{"type":"result","subtype":"error","result":"done","is_error":true,"total_cost_usd":0.25,
            "modelUsage":{"zeta":{"inputTokens":1},"alpha":{"outputTokens":2,"costUSD":3}}}"#,
    );
    let body = record.body.unwrap();
    assert_eq!(body.event_kind, "result/error");
    assert_eq!(body.source_error.as_deref(), Some("result/error"));
    let usage = body.usage.unwrap();
    assert!(matches!(&usage.total_cost_usd, Some(JsonNumber::Decimal(text)) if text == "0.25"));
    assert_eq!(usage.model_usage.len(), 2);
    assert_eq!(usage.model_usage[0].model, "alpha");
    assert_eq!(usage.model_usage[0].output_tokens, 2);
    assert!(matches!(usage.model_usage[0].cost_usd, Some(JsonNumber::Unsigned(3))));
    assert_eq!(usage.model_usage[1].model, "zeta");
    let (plain, _) = parse(STREAM, r#"{"type":"result"}"#);
    let body = plain.body.unwrap();
    assert_eq!(body.event_kind, "result/unknown");
    assert!(body.usage.is_none());
    assert!(body.source_error.is_none());
}

#[test]
fn codex_events() {
    let (record, own) = parse(CODEX, r#"{"type":"thread.started","thread_id":"th"}"#);
    assert_eq!(record.conversation_id.as_deref(), Some("th"));
    assert_eq!(own.stream.turn_index, 0);
    let (record, _) = parse(CODEX, r#"{"type":"turn.started"}"#);
    assert_eq!(record.turn_index, Some(1));
    let (record, _) = parse(
        CODEX,
        r#"{"type":"turn.completed","usage":{"input_tokens":1,"cached_input_tokens":2,"reasoning_output_tokens":3}}"#,
    );
    let usage = record.body.unwrap().usage.unwrap();
    assert_eq!(usage.cache_read_input_tokens, Some(2));
    assert_eq!(usage.reasoning_output_tokens, Some(3));
    let (record, _) = parse(CODEX, r#"{"type":"turn.failed","error":{"message":"boom"}}"#);
    assert_eq!(record.body.unwrap().source_error.as_deref(), Some("boom"));
    let (record, _) = parse(CODEX, r#"{"type":"turn.failed","error":{"code":1}}"#);
    assert_eq!(record.body.unwrap().source_error.as_deref(), Some("{\"code\":1}"));
    let (record, _) = parse(CODEX, r#"{"type":"turn.failed"}"#);
    assert_eq!(
        record.body.unwrap().source_error.as_deref(),
        Some("turn.failed without error detail")
    );
    let (record, _) = parse(CODEX, r#"{"type":"error","message":"bad"}"#);
    assert_eq!(record.body.unwrap().source_error.as_deref(), Some("bad"));
}

#[test]
fn codex_items() {
    let (record, _) = parse(
        CODEX,
        r#"{"type":"item.completed","item":{"type":"mcp_tool_call","server":"fs","tool":"read","id":"i",
            "arguments":{},"result":null,"status":"ok"}}"#,
    );
    let body = record.body.unwrap();
    assert_eq!(body.event_kind, "item.completed/mcp_tool_call");
    assert_eq!(body.tool_calls[0].tool_name, "fs.read");
    assert_eq!(body.tool_calls[0].arguments.as_deref(), Some("{}"));
    assert_eq!(body.tool_calls[0].result_summary, None);
    assert_eq!(body.tool_calls[0].status.as_deref(), Some("ok"));
    let (record, _) = parse(
        CODEX,
        r#"{"type":"item.updated","item":{"type":"command_execution","command":"ls","aggregated_output":"out","exit_code":-1}}"#,
    );
    let body = record.body.unwrap();
    assert_eq!(body.tool_calls[0].tool_name, "command_execution");
    assert_eq!(body.tool_calls[0].exit_code, Some(-1));
    assert_eq!(body.tool_calls[0].result_summary.as_deref(), Some("out"));
    let (record, _) = parse(CODEX, r#"{"type":"item.started","item":{"type":"reasoning","text":"hm"}}"#);
    assert_eq!(record.body.unwrap().content.unwrap().summary, "hm");
    let (record, _) = parse(CODEX, r#"{"type":"item.started","item":{"type":"web_search"}}"#);
    assert_eq!(record.body.unwrap().content.unwrap().bytes, 21);
}

#[test]
fn codex_refusals() {
    let cases = [
        (r#"{}"#, "MISSING_TYPE: line has no string `type` field"),
        (r#"{"type":"odd"}"#, "UNKNOWN_EVENT_TYPE: odd"),
        (r#"{"type":"turn.completed"}"#, "TURN_COMPLETED_MISSING_USAGE"),
        (r#"{"type":"item.started"}"#, "item.started: missing `item` object"),
        (r#"{"type":"item.updated","item":{}}"#, "item.updated: item has no string `type`"),
        (r#"{"type":"item.started","item":{"type":"mcp_tool_call"}}"#, "MCP_TOOL_CALL_MISSING_TOOL"),
        (r#"{"type":"item.started","item":{"type":"odd"}}"#, "UNKNOWN_ITEM_TYPE: odd"),
    ];
    for (line, expected) in cases {
        assert_eq!(refusal(CODEX, line), expected);
    }
}

#[test]
fn app_server_notifications() {
    let (record, own) = parse(
        SERVER,
        r#"{"method":"turn/started","params":{"threadId":"t","thread":{"model":"m"}}}"#,
    );
    assert_eq!(own.stream.turn_index, 1);
    assert_eq!(record.conversation_id.as_deref(), Some("t"));
    assert_eq!(record.model.as_deref(), Some("m"));
    assert_eq!(record.body.unwrap().event_kind, "codex_app_server/turn/started");
    let (record, _) = parse(
        SERVER,
        r#"{"method":"turn/completed","params":{"turn":{"error":{"e":1}}}}"#,
    );
    assert_eq!(record.body.unwrap().source_error.as_deref(), Some("{\"e\":1}"));
    let (record, _) = parse(
        SERVER,
        r#"{"method":"thread/tokenUsage/updated","params":{"tokenUsage":{"total":{"inputTokens":4,"output_tokens":5}}}}"#,
    );
    let usage = record.body.unwrap().usage.unwrap();
    assert_eq!((usage.input_tokens, usage.output_tokens), (Some(4), Some(5)));
    let (record, _) = parse(SERVER, r#"{"method":"item/agentMessage/delta","params":{"delta":"hi"}}"#);
    assert_eq!(record.body.unwrap().content.unwrap().summary, "hi");
    let (record, _) = parse(
        SERVER,
        r#"{"method":"item/commandExecution/outputDelta","params":{"itemId":"i","delta":"out"}}"#,
    );
    let body = record.body.unwrap();
    assert_eq!(body.tool_calls[0].tool_call_id.as_deref(), Some("i"));
    let (record, _) = parse(SERVER, r#"{"method":"some/thing"}"#);
    assert_eq!(record.body.unwrap().content.unwrap().summary, "null");
}

#[test]
fn app_server_items_and_responses() {
    let (record, _) = parse(
        SERVER,
        r#"{"method":"item/completed","params":{"item":{"type":"userMessage","content":[{"text":"a"},7,{"text":"b"}]}}}"#,
    );
    let body = record.body.unwrap();
    assert_eq!(body.role, TranscriptRole::System);
    assert_eq!(body.content.unwrap().summary, "a\nb");
    let (record, _) = parse(
        SERVER,
        r#"{"method":"item/started","params":{"item":{"type":"commandExecution","command":"ls","exitCode":3}}}"#,
    );
    assert_eq!(record.body.unwrap().tool_calls[0].exit_code, Some(3));
    let (record, own) = parse(
        SERVER,
        r#"{"id":1,"result":{"model":"m","thread":{"sessionId":"s"}}}"#,
    );
    assert_eq!(record.model.as_deref(), Some("m"));
    assert_eq!(own.stream.conversation_id.as_deref(), Some("s"));
    let (record, _) = parse(SERVER, r#"{"id":1,"error":"bad"}"#);
    assert_eq!(record.body.unwrap().source_error.as_deref(), Some("\"bad\""));
    let (record, _) = parse(
        SERVER,
        r#"{"method":"item/started","params":{"item":{"type":"mcpToolCall","tool":"read"}}}"#,
    );
    assert_eq!(record.body.unwrap().tool_calls[0].tool_name, "read");
}

#[test]
fn app_server_refusals() {
    let cases = [
        (
            r#"{}"#,
            "CODEX_APP_SERVER_MESSAGE_MISSING_METHOD_OR_ID: expected notification or response",
        ),
        (r#"{"id":1}"#, "CODEX_APP_SERVER_RESPONSE_MISSING_RESULT_OR_ERROR"),
        (r#"{"method":"item/started"}"#, "item/started: missing `item` object"),
        (
            r#"{"method":"item/started","params":{"item":{}}}"#,
            "item/started: item has no string `type`",
        ),
        (
            r#"{"method":"item/started","params":{"item":{"type":"mcpToolCall"}}}"#,
            "CODEX_APP_SERVER_MCP_TOOL_CALL_MISSING_TOOL",
        ),
    ];
    for (line, expected) in cases {
        assert_eq!(refusal(SERVER, line), expected);
    }
}

#[test]
fn local_model_lines() {
    let (record, own) = parse(
        LOCAL,
        r#"{"type":"local.turn.started","turn_index":7,"model":"m","conversation_id":"c"}"#,
    );
    assert_eq!(record.turn_index, Some(7));
    assert_eq!(own.stream.turn_index, 7);
    assert_eq!(record.conversation_id.as_deref(), Some("c"));
    let (record, _) = parse(
        LOCAL,
        r#"{"type":"local.tool_call.gate_bypassed","tool_name":"t"}"#,
    );
    assert_eq!(
        record.body.unwrap().tool_calls[0].status.as_deref(),
        Some("gate_bypassed:gate_bypassed")
    );
    let (record, _) = parse(
        LOCAL,
        r#"{"type":"local.tool_call.arguments_normalized","tool_name":"t","reason_code":"r","model_arguments":{}}"#,
    );
    let body = record.body.unwrap();
    assert_eq!(body.tool_calls[0].status.as_deref(), Some("arguments_normalized:r"));
    assert_eq!(body.tool_calls[0].arguments.as_deref(), Some("{}"));
    let (record, _) = parse(LOCAL, r#"{"type":"local.tool_parse_error"}"#);
    let body = record.body.unwrap();
    assert_eq!(body.source_error.as_deref(), Some("MODEL_TOOL_ARGUMENTS_INVALID"));
    assert_eq!(body.tool_calls[0].tool_name, "unknown");
    let (record, _) = parse(LOCAL, r#"{"type":"local.turn.finished","usage":{"prompt_tokens":1,"completion_tokens":2}}"#);
    let usage = record.body.unwrap().usage.unwrap();
    assert_eq!((usage.input_tokens, usage.output_tokens), (Some(1), Some(2)));
    let (record, _) = parse(LOCAL, r#"{"type":"local.error","error_code":"E"}"#);
    assert_eq!(record.body.unwrap().source_error.as_deref(), Some("E"));
    let (record, _) = parse(
        LOCAL,
        r#"{"type":"local.hold_open.started","session_id":"s","hold_open_ms":1,"started_at_unix_ms":2}"#,
    );
    assert_eq!(record.status, TranscriptParseStatus::Parsed);
    let (record, _) = parse(LOCAL, r#"{"type":"local.agent.completed","final_message":"bye"}"#);
    assert_eq!(record.body.unwrap().content.unwrap().summary, "bye");
}

#[test]
fn local_model_refusals() {
    let cases = [
        (r#"{}"#, "MISSING_TYPE: line has no string `type` field"),
        (r#"{"type":"odd"}"#, "UNKNOWN_EVENT_TYPE: odd"),
        (r#"{"type":"local.turn.finished"}"#, "LOCAL_TURN_FINISHED_MISSING_USAGE"),
        (
            r#"{"type":"local.tool_call.started","tool_name":""}"#,
            "required string field \"tool_name\" is missing or empty",
        ),
        (
            r#"{"type":"local.hold_open.finished","session_id":"s","hold_open_ms":1,"started_at_unix_ms":2}"#,
            "required u64 field \"finished_at_unix_ms\" is missing or invalid",
        ),
        (
            r#"{"type":"local.tool_call.arguments_normalized","tool_name":"t","reason_code":"r","attributed_arguments":3}"#,
            "required object field \"attributed_arguments\" is present but not an object",
        ),
        (
            r#"{"type":"local.tool_call.arguments_normalized","tool_name":"t","reason_code":"r"}"#,
            "one of required object fields [\"contract_arguments\", \"attributed_arguments\", \"model_arguments\"] is missing",
        ),
        (
            r#"{"type":"local.steering.received","message_id":"m"}"#,
            "required string field \"kind\" is missing or empty",
        ),
    ];
    for (line, expected) in cases {
        assert_eq!(refusal(LOCAL, line), expected);
    }
}

#[test]
fn a_refused_local_line_keeps_what_it_names() {
    let (record, own) = parse(LOCAL, r#"{"type":"odd","model":"m","turn_index":0}"#);
    assert_eq!(record.status, TranscriptParseStatus::Invalid);
    assert_eq!(record.model.as_deref(), Some("m"));
    assert_eq!(record.turn_index, Some(0));
    assert_eq!(own.stream.model.as_deref(), Some("m"));
}

#[test]
fn session_files_are_not_read_here() {
    assert!(refusal(TranscriptSource::ClaudeSessionJsonl, "{}").starts_with("CLAUDE_SESSION_JSONL_MISROUTED: "));
}

#[test]
fn a_reading_is_placed_as_it_stands() {
    let mut stream = StreamState {
        turn_index: 4,
        last_assistant_message_id: None,
        seen_message_ids: Vec::new(),
        conversation_id: Some("c".to_owned()),
        model: Some("m".to_owned()),
    };
    let bare = AgentTranscriptRecord::bare(b"raw", 9, "s", CODEX, Some(1), "acme");
    assert_eq!(bare.ts_ns, 1_000_009);
    let value = Json::Object(vec![("type".to_owned(), Json::Str("turn.started".to_owned()))]);
    let placed = place_reading(bare, Ok(value), Some(1), &mut stream, &rules());
    assert_eq!(placed.turn_index, Some(5));
    assert_eq!(placed.conversation_id.as_deref(), Some("c"));
    assert_eq!(placed.model.as_deref(), Some("m"));
    let bare = AgentTranscriptRecord::bare(b"raw", 9, "s", CODEX, Some(1), "acme");
    let refused = place_reading(bare, Err("why".to_owned()), Some(1), &mut stream, &rules());
    assert_eq!(refused.parse_error.as_deref(), Some("LINE_NOT_JSON: why"));
}
