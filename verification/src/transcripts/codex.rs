//! The stream vocabularies of Codex: the events of `exec` and the messages of
//! the app server.
use crate::json;
use crate::json::{
    Json, array_member_of, as_i64, member_of, object_member_of, str_member_of, string_member_of,
    u64_member_of, write_json,
};
use crate::text;
use crate::text::{joined, str_equal};
use crate::transcripts::claude;
use crate::transcripts::claude::join_lines;
use crate::transcripts::record;
use crate::transcripts::record::{
    BodyView, LineBody, LineParse, ParseView, RulesView, StreamState, StreamView, ToolCallView,
    TranscriptRole, TranscriptRules, TranscriptToolCall, TranscriptUsage, UsageView, accept,
    new_call, refuse, refuse_with, set_arguments, set_present_result, set_result,
};
use vstd::prelude::*;
use vstd::string::*;

verus! {

/// The tokens that a completed turn accounts for.
pub open spec fn codex_usage_of(usage: Json) -> UsageView {
    UsageView {
        input_tokens: json::u64_member(usage, "input_tokens"@),
        output_tokens: json::u64_member(usage, "output_tokens"@),
        cache_read_input_tokens: json::u64_member(usage, "cached_input_tokens"@),
        reasoning_output_tokens: json::u64_member(usage, "reasoning_output_tokens"@),
        ..record::no_usage()
    }
}

fn codex_usage(usage: &Json) -> (accounted: TranscriptUsage)
    ensures
        accounted@ == codex_usage_of(*usage),
{
    let mut accounted = TranscriptUsage::none();
    accounted.input_tokens = u64_member_of(usage, "input_tokens");
    accounted.output_tokens = u64_member_of(usage, "output_tokens");
    accounted.cache_read_input_tokens = u64_member_of(usage, "cached_input_tokens");
    accounted.reasoning_output_tokens = u64_member_of(usage, "reasoning_output_tokens");
    accounted
}

/// Why a turn failed: the message of its error, else the error as it stands.
pub open spec fn turn_failure(object: Json) -> Seq<char> {
    match json::member(object, "error"@) {
        None => "turn.failed without error detail"@,
        Some(error) => match json::str_member(error, "message"@) {
            Some(message) => message,
            None => json::json_writing(error),
        },
    }
}

fn read_turn_failure(object: &Json) -> (failure: String)
    ensures
        failure@ == turn_failure(*object),
{
    match member_of(object, "error") {
        None => "turn.failed without error detail".to_owned(),
        Some(error) => match string_member_of(error, "message") {
            Some(message) => message,
            None => write_json(error),
        },
    }
}

/// A tool behind a server carries the server's name before its own.
pub open spec fn qualified_tool(item: Json, tool: Seq<char>) -> Seq<char> {
    match json::str_member(item, "server"@) {
        Some(server) => if server.len() == 0 {
            tool
        } else {
            server + "."@ + tool
        },
        None => tool,
    }
}

fn qualify_tool(item: &Json, tool: &str) -> (name: String)
    ensures
        name@ == qualified_tool(*item, tool@),
{
    match str_member_of(item, "server") {
        Some(server) => if server.unicode_len() == 0 {
            tool.to_owned()
        } else {
            let mut name = joined(server, ".");
            name.append(tool);
            name
        },
        None => tool.to_owned(),
    }
}

/// The call of a tool behind a server.
pub open spec fn server_call(item: Json, tool: Seq<char>, rules: RulesView) -> ToolCallView {
    ToolCallView {
        status: json::str_member(item, "status"@),
        ..record::with_present_result(
            record::with_arguments(
                record::named_call(qualified_tool(item, tool), json::str_member(item, "id"@)),
                record::bounded_or_empty(json::member(item, "arguments"@), rules.max_tool_args_chars),
            ),
            json::member(item, "result"@),
            rules.max_tool_result_chars,
        )
    }
}

fn read_server_call(item: &Json, tool: &str, rules: &TranscriptRules) -> (call: TranscriptToolCall)
    ensures
        call@ == server_call(*item, tool@, rules@),
{
    let mut call = new_call(qualify_tool(item, tool), string_member_of(item, "id"));
    set_arguments(&mut call, member_of(item, "arguments"), rules.max_tool_args_chars);
    set_present_result(&mut call, member_of(item, "result"), rules.max_tool_result_chars);
    call.status = string_member_of(item, "status");
    call
}

/// The call that ran a command.
pub open spec fn command_call(
    item: Json,
    output: Option<Json>,
    exit_code: Option<Json>,
    rules: RulesView,
) -> ToolCallView {
    ToolCallView {
        status: json::str_member(item, "status"@),
        exit_code: json::i64_of(exit_code),
        ..record::with_present_result(
            record::with_arguments(
                record::named_call("command_execution"@, json::str_member(item, "id"@)),
                record::bounded_or_empty(json::member(item, "command"@), rules.max_tool_args_chars),
            ),
            output,
            rules.max_tool_result_chars,
        )
    }
}

fn read_command_call(
    item: &Json,
    output: Option<&Json>,
    exit_code: Option<&Json>,
    rules: &TranscriptRules,
) -> (call: TranscriptToolCall)
    ensures
        call@ == command_call(*item, record::behind(output), record::behind(exit_code), rules@),
{
    let mut call = new_call("command_execution".to_owned(), string_member_of(item, "id"));
    set_arguments(&mut call, member_of(item, "command"), rules.max_tool_args_chars);
    set_present_result(&mut call, output, rules.max_tool_result_chars);
    call.status = string_member_of(item, "status");
    call.exit_code = as_i64(exit_code);
    call
}

/// The body of an item event, or why it has none.
pub open spec fn item_body(event: Seq<char>, object: Json, rules: RulesView) -> Result<
    BodyView,
    Seq<char>,
> {
    match json::object_member(object, "item"@) {
        None => Err(event + ": missing `item` object"@),
        Some(item) => match json::str_member(item, "type"@) {
            None => Err(event + ": item has no string `type`"@),
            Some(kind) => {
                let event_kind = event + "/"@ + kind;
                if kind == "agent_message"@ || kind == "reasoning"@ {
                    Ok(
                        record::with_opt_content(
                            record::plain_body(TranscriptRole::Assistant, event_kind),
                            json::str_member(item, "text"@),
                            rules,
                        ),
                    )
                } else if kind == "mcp_tool_call"@ {
                    match json::str_member(item, "tool"@) {
                        None => Err("MCP_TOOL_CALL_MISSING_TOOL"@),
                        Some(tool) => Ok(
                            record::with_call(
                                record::plain_body(TranscriptRole::Tool, event_kind),
                                server_call(item, tool, rules),
                            ),
                        ),
                    }
                } else if kind == "command_execution"@ {
                    Ok(
                        record::with_call(
                            record::plain_body(TranscriptRole::Tool, event_kind),
                            command_call(
                                item,
                                json::member(item, "aggregated_output"@),
                                json::member(item, "exit_code"@),
                                rules,
                            ),
                        ),
                    )
                } else if kind == "file_change"@ || kind == "web_search"@ || kind == "todo_list"@ {
                    Ok(
                        record::with_content(
                            record::plain_body(TranscriptRole::Tool, event_kind),
                            json::json_writing(item),
                            rules,
                        ),
                    )
                } else {
                    Err("UNKNOWN_ITEM_TYPE: "@ + kind)
                }
            },
        },
    }
}

fn read_item(event: &str, object: &Json, rules: &TranscriptRules) -> (outcome: Result<
    LineBody,
    String,
>)
    ensures
        record::outcome_view(outcome) == item_body(event@, *object, rules@),
{
    let item = match object_member_of(object, "item") {
        Some(item) => item,
        None => {
            return Err(joined(event, ": missing `item` object"));
        },
    };
    let kind = match str_member_of(item, "type") {
        Some(kind) => kind,
        None => {
            return Err(joined(event, ": item has no string `type`"));
        },
    };
    let mut event_kind = joined(event, "/");
    event_kind.append(kind);
    if str_equal(kind, "agent_message") || str_equal(kind, "reasoning") {
        let mut body = LineBody::plain(TranscriptRole::Assistant, event_kind);
        body.set_opt_content(str_member_of(item, "text"), rules);
        Ok(body)
    } else if str_equal(kind, "mcp_tool_call") {
        match str_member_of(item, "tool") {
            None => Err("MCP_TOOL_CALL_MISSING_TOOL".to_owned()),
            Some(tool) => {
                let mut body = LineBody::plain(TranscriptRole::Tool, event_kind);
                body.push_call(read_server_call(item, tool, rules));
                Ok(body)
            },
        }
    } else if str_equal(kind, "command_execution") {
        let mut body = LineBody::plain(TranscriptRole::Tool, event_kind);
        body.push_call(
            read_command_call(
                item,
                member_of(item, "aggregated_output"),
                member_of(item, "exit_code"),
                rules,
            ),
        );
        Ok(body)
    } else if str_equal(kind, "file_change") || str_equal(kind, "web_search") || str_equal(
        kind,
        "todo_list",
    ) {
        let mut body = LineBody::plain(TranscriptRole::Tool, event_kind);
        body.set_content(write_json(item).as_str(), rules);
        Ok(body)
    } else {
        Err(joined("UNKNOWN_ITEM_TYPE: ", kind))
    }
}

/// What an `exec` line that leaves the stream alone says.
pub open spec fn codex_event(kind: Seq<char>, object: Json, rules: RulesView) -> Result<
    BodyView,
    Seq<char>,
> {
    if kind == "thread.started"@ {
        Ok(record::plain_body(TranscriptRole::System, "thread.started"@))
    } else if kind == "turn.started"@ {
        Ok(record::plain_body(TranscriptRole::System, "turn.started"@))
    } else if kind == "turn.completed"@ {
        match json::member(object, "usage"@) {
            None => Err("TURN_COMPLETED_MISSING_USAGE"@),
            Some(usage) => Ok(
                BodyView {
                    usage: Some(codex_usage_of(usage)),
                    ..record::plain_body(TranscriptRole::Result, "turn.completed"@)
                },
            ),
        }
    } else if kind == "turn.failed"@ {
        Ok(
            BodyView {
                source_error: Some(turn_failure(object)),
                ..record::plain_body(TranscriptRole::Result, "turn.failed"@)
            },
        )
    } else if kind == "error"@ {
        Ok(
            BodyView {
                source_error: Some(
                    match json::str_member(object, "message"@) {
                        Some(message) => message,
                        None => json::json_writing(object),
                    },
                ),
                ..record::plain_body(TranscriptRole::System, "error"@)
            },
        )
    } else if kind == "item.started"@ || kind == "item.updated"@ || kind == "item.completed"@ {
        item_body(kind, object, rules)
    } else {
        Err("UNKNOWN_EVENT_TYPE: "@ + kind)
    }
}

/// The stream after an `exec` line: a thread gives the conversation, a turn
/// counts.
pub open spec fn after_codex_event(
    kind: Seq<char>,
    object: Json,
    stream: StreamView,
) -> StreamView {
    if kind == "thread.started"@ {
        match json::str_member(object, "thread_id"@) {
            Some(id) => StreamView { conversation_id: Some(id), ..stream },
            None => stream,
        }
    } else if kind == "turn.started"@ {
        StreamView { turn_index: (stream.turn_index + 1) as u64, ..stream }
    } else {
        stream
    }
}

/// What the vocabulary says of an `exec` line, and the stream after it.
pub open spec fn codex_parse(object: Json, stream: StreamView, rules: RulesView) -> (
    StreamView,
    ParseView,
) {
    match json::str_member(object, "type"@) {
        None => (stream, record::refused("MISSING_TYPE: line has no string `type` field"@)),
        Some(kind) => (
            after_codex_event(kind, object, stream),
            record::parse_of(codex_event(kind, object, rules)),
        ),
    }
}

/// Reads one line of `exec`.
pub fn parse_codex_object(object: &Json, stream: &mut StreamState, rules: &TranscriptRules) -> (parse:
    LineParse)
    requires
        old(stream)@.turn_index < u64::MAX,
    ensures
        (final(stream)@, parse@) == codex_parse(*object, old(stream)@, rules@),
{
    let kind = match str_member_of(object, "type") {
        Some(kind) => kind,
        None => {
            return refuse("MISSING_TYPE: line has no string `type` field");
        },
    };
    if str_equal(kind, "thread.started") {
        if let Some(id) = string_member_of(object, "thread_id") {
            stream.conversation_id = Some(id);
        }
        accept(LineBody::plain(TranscriptRole::System, "thread.started".to_owned()))
    } else if str_equal(kind, "turn.started") {
        stream.turn_index = stream.turn_index + 1;
        accept(LineBody::plain(TranscriptRole::System, "turn.started".to_owned()))
    } else if str_equal(kind, "turn.completed") {
        let usage = match member_of(object, "usage") {
            Some(usage) => usage,
            None => {
                return refuse("TURN_COMPLETED_MISSING_USAGE");
            },
        };
        let mut body = LineBody::plain(TranscriptRole::Result, "turn.completed".to_owned());
        body.usage = Some(codex_usage(usage));
        accept(body)
    } else if str_equal(kind, "turn.failed") {
        let mut body = LineBody::plain(TranscriptRole::Result, "turn.failed".to_owned());
        body.source_error = Some(read_turn_failure(object));
        accept(body)
    } else if str_equal(kind, "error") {
        let mut body = LineBody::plain(TranscriptRole::System, "error".to_owned());
        let message = match string_member_of(object, "message") {
            Some(message) => message,
            None => write_json(object),
        };
        body.source_error = Some(message);
        accept(body)
    } else if str_equal(kind, "item.started") || str_equal(kind, "item.updated") || str_equal(
        kind,
        "item.completed",
    ) {
        LineParse { model: None, turn_index: None, outcome: read_item(kind, object, rules) }
    } else {
        refuse_with("UNKNOWN_EVENT_TYPE: ", kind)
    }
}

/// The first member that is there.
pub open spec fn either_member(value: Json, first: Seq<char>, second: Seq<char>) -> Option<Json> {
    match json::member(value, first) {
        Some(inner) => Some(inner),
        None => json::member(value, second),
    }
}

fn either_member_of<'a>(value: &'a Json, first: &str, second: &str) -> (found: Option<&'a Json>)
    ensures
        record::behind(found) == either_member(*value, first@, second@),
{
    match member_of(value, first) {
        Some(inner) => Some(inner),
        None => member_of(value, second),
    }
}

/// The text of a value, where it is one.
fn text_of<'a>(value: Option<&'a Json>) -> (text: Option<&'a str>)
    ensures
        text is Some == json::str_of(record::behind(value)) is Some,
        text matches Some(inner) ==> json::str_of(record::behind(value)) == Some(inner@),
{
    match value {
        Some(Json::Str(text)) => Some(text.as_str()),
        _ => None,
    }
}

/// The identifier of a thread object.
pub open spec fn thread_identifier(value: Json) -> Option<Seq<char>> {
    match json::member(value, "thread"@) {
        Some(thread) => json::str_of(either_member(thread, "id"@, "sessionId"@)),
        None => None,
    }
}

fn read_thread_identifier<'a>(value: &'a Json) -> (id: Option<&'a str>)
    ensures
        id is Some == thread_identifier(*value) is Some,
        id matches Some(inner) ==> thread_identifier(*value) == Some(inner@),
{
    match member_of(value, "thread") {
        Some(thread) => text_of(either_member_of(thread, "id", "sessionId")),
        None => None,
    }
}

/// The conversation that a notification names.
pub open spec fn notified_thread(params: Json) -> Option<Seq<char>> {
    match json::str_of(either_member(params, "threadId"@, "thread_id"@)) {
        Some(id) => Some(id),
        None => thread_identifier(params),
    }
}

/// The model that a notification names.
pub open spec fn notified_model(params: Json) -> Option<Seq<char>> {
    match json::str_member(params, "model"@) {
        Some(model) => Some(model),
        None => match json::member(params, "thread"@) {
            Some(thread) => json::str_member(thread, "model"@),
            None => None,
        },
    }
}

/// The stream with the conversation and the model that a notification names.
pub open spec fn after_notification(params: Json, stream: StreamView) -> StreamView {
    StreamView {
        conversation_id: match notified_thread(params) {
            Some(id) => Some(id),
            None => stream.conversation_id,
        },
        model: match notified_model(params) {
            Some(model) => Some(model),
            None => stream.model,
        },
        ..stream
    }
}

/// Notes the conversation and the model that a notification names.
pub fn stamp_codex_app_server_identity(params: &Json, stream: &mut StreamState)
    ensures
        final(stream)@ == after_notification(*params, old(stream)@),
{
    let thread = match text_of(either_member_of(params, "threadId", "thread_id")) {
        Some(id) => Some(id),
        None => read_thread_identifier(params),
    };
    if let Some(id) = thread {
        stream.conversation_id = Some(id.to_owned());
    }
    let model = match str_member_of(params, "model") {
        Some(model) => Some(model),
        None => match member_of(params, "thread") {
            Some(inner) => str_member_of(inner, "model"),
            None => None,
        },
    };
    if let Some(name) = model {
        stream.model = Some(name.to_owned());
    }
}

/// The first of two members that is an unsigned number.
pub open spec fn either_u64(value: Json, first: Seq<char>, second: Seq<char>) -> Option<u64> {
    match json::u64_member(value, first) {
        Some(number) => Some(number),
        None => json::u64_member(value, second),
    }
}

fn either_u64_of(value: &Json, first: &str, second: &str) -> (number: Option<u64>)
    ensures
        number == either_u64(*value, first@, second@),
{
    match u64_member_of(value, first) {
        Some(number) => Some(number),
        None => u64_member_of(value, second),
    }
}

/// The tokens of a thread so far; the totals where the usage states them apart.
pub open spec fn app_server_usage_of(usage: Json) -> UsageView {
    let total = match json::member(usage, "total"@) {
        Some(total) => total,
        None => usage,
    };
    UsageView {
        input_tokens: either_u64(total, "inputTokens"@, "input_tokens"@),
        output_tokens: either_u64(total, "outputTokens"@, "output_tokens"@),
        cache_read_input_tokens: either_u64(
            total,
            "cachedInputTokens"@,
            "cached_input_tokens"@,
        ),
        reasoning_output_tokens: either_u64(
            total,
            "reasoningOutputTokens"@,
            "reasoning_output_tokens"@,
        ),
        ..record::no_usage()
    }
}

/// Reads the tokens of a thread so far.
pub fn codex_app_server_usage(usage: &Json) -> (accounted: TranscriptUsage)
    ensures
        accounted@ == app_server_usage_of(*usage),
{
    let total = match member_of(usage, "total") {
        Some(total) => total,
        None => usage,
    };
    let mut accounted = TranscriptUsage::none();
    accounted.input_tokens = either_u64_of(total, "inputTokens", "input_tokens");
    accounted.output_tokens = either_u64_of(total, "outputTokens", "output_tokens");
    accounted.cache_read_input_tokens = either_u64_of(
        total,
        "cachedInputTokens",
        "cached_input_tokens",
    );
    accounted.reasoning_output_tokens = either_u64_of(
        total,
        "reasoningOutputTokens",
        "reasoning_output_tokens",
    );
    accounted
}

/// The texts of the content blocks that have one.
pub open spec fn block_texts(items: Seq<Json>) -> Seq<Seq<char>>
    decreases items.len(),
{
    if items.len() == 0 {
        Seq::<Seq<char>>::empty()
    } else {
        match json::str_member(items.last(), "text"@) {
            Some(text) => block_texts(items.drop_last()).push(text),
            None => block_texts(items.drop_last()),
        }
    }
}

/// The text of an item: its own, else those of its content line by line.
pub open spec fn item_text(item: Json) -> Option<Seq<char>> {
    match json::str_member(item, "text"@) {
        Some(text) => Some(text),
        None => match json::array_member(item, "content"@) {
            Some(items) => claude::joined_texts(block_texts(items)),
            None => None,
        },
    }
}

/// Reads the text of an item.
pub fn codex_app_server_item_text(item: &Json) -> (text: Option<String>)
    ensures
        text::opt_text(text) == item_text(*item),
{
    if let Some(text) = string_member_of(item, "text") {
        return Some(text);
    }
    let items = match array_member_of(item, "content") {
        Some(items) => items,
        None => {
            return None;
        },
    };
    let mut parts: Vec<String> = Vec::new();
    let mut index: usize = 0;
    assert(text::texts(parts@) =~= Seq::<Seq<char>>::empty());
    while index < items.len()
        invariant
            index <= items@.len(),
            text::texts(parts@) == block_texts(items@.subrange(0, index as int)),
        decreases items@.len() - index,
    {
        proof {
            let prefix = items@.subrange(0, index as int + 1);
            assert(prefix.drop_last() =~= items@.subrange(0, index as int));
            assert(prefix.last() == items@[index as int]);
        }
        let before: Ghost<Seq<String>> = Ghost(parts@);
        if let Some(text) = string_member_of(&items[index], "text") {
            parts.push(text);
            assert(text::texts(parts@) =~= text::texts(before@).push(text@));
        }
        index = index + 1;
    }
    assert(items@.subrange(0, items@.len() as int) =~= items@);
    join_lines(&parts)
}

/// The body of an item notification, or why it has none.
pub open spec fn app_server_item(method: Seq<char>, params: Json, rules: RulesView) -> Result<
    BodyView,
    Seq<char>,
> {
    match json::object_member(params, "item"@) {
        None => Err(method + ": missing `item` object"@),
        Some(item) => match json::str_member(item, "type"@) {
            None => Err(method + ": item has no string `type`"@),
            Some(kind) => {
                let event_kind = "codex_app_server/"@ + method + "/"@ + kind;
                let text = match item_text(item) {
                    Some(text) => text,
                    None => json::json_writing(item),
                };
                if kind == "agentMessage"@ || kind == "reasoning"@ {
                    Ok(
                        record::with_content(
                            record::plain_body(TranscriptRole::Assistant, event_kind),
                            text,
                            rules,
                        ),
                    )
                } else if kind == "userMessage"@ {
                    Ok(record::with_content(record::plain_body(TranscriptRole::System, event_kind), text, rules))
                } else if kind == "mcpToolCall"@ {
                    match json::str_member(item, "tool"@) {
                        None => Err("CODEX_APP_SERVER_MCP_TOOL_CALL_MISSING_TOOL"@),
                        Some(tool) => Ok(
                            record::with_call(
                                record::plain_body(TranscriptRole::Tool, event_kind),
                                server_call(item, tool, rules),
                            ),
                        ),
                    }
                } else if kind == "commandExecution"@ {
                    Ok(
                        record::with_call(
                            record::plain_body(TranscriptRole::Tool, event_kind),
                            command_call(
                                item,
                                either_member(item, "aggregatedOutput"@, "aggregated_output"@),
                                either_member(item, "exitCode"@, "exit_code"@),
                                rules,
                            ),
                        ),
                    )
                } else {
                    Ok(
                        record::with_content(
                            record::plain_body(TranscriptRole::System, event_kind),
                            json::json_writing(item),
                            rules,
                        ),
                    )
                }
            },
        },
    }
}

/// Reads the body of an item notification.
pub fn parse_codex_app_server_item(method: &str, params: &Json, rules: &TranscriptRules) -> (outcome:
    Result<LineBody, String>)
    ensures
        record::outcome_view(outcome) == app_server_item(method@, *params, rules@),
{
    let item = match object_member_of(params, "item") {
        Some(item) => item,
        None => {
            return Err(joined(method, ": missing `item` object"));
        },
    };
    let kind = match str_member_of(item, "type") {
        Some(kind) => kind,
        None => {
            return Err(joined(method, ": item has no string `type`"));
        },
    };
    let mut event_kind = joined("codex_app_server/", method);
    event_kind.append("/");
    event_kind.append(kind);
    if str_equal(kind, "agentMessage") || str_equal(kind, "reasoning") || str_equal(
        kind,
        "userMessage",
    ) {
        let role = if str_equal(kind, "userMessage") {
            TranscriptRole::System
        } else {
            TranscriptRole::Assistant
        };
        proof {
            reveal_strlit("agentMessage");
            reveal_strlit("reasoning");
            reveal_strlit("userMessage");
            assert("agentMessage"@.len() == 12 && "reasoning"@.len() == 9 && "userMessage"@.len()
                == 11);
        }
        let text = match codex_app_server_item_text(item) {
            Some(text) => text,
            None => write_json(item),
        };
        let mut body = LineBody::plain(role, event_kind);
        body.set_content(text.as_str(), rules);
        Ok(body)
    } else if str_equal(kind, "mcpToolCall") {
        match str_member_of(item, "tool") {
            None => Err("CODEX_APP_SERVER_MCP_TOOL_CALL_MISSING_TOOL".to_owned()),
            Some(tool) => {
                let mut body = LineBody::plain(TranscriptRole::Tool, event_kind);
                body.push_call(read_server_call(item, tool, rules));
                Ok(body)
            },
        }
    } else if str_equal(kind, "commandExecution") {
        let mut body = LineBody::plain(TranscriptRole::Tool, event_kind);
        body.push_call(
            read_command_call(
                item,
                either_member_of(item, "aggregatedOutput", "aggregated_output"),
                either_member_of(item, "exitCode", "exit_code"),
                rules,
            ),
        );
        Ok(body)
    } else {
        let mut body = LineBody::plain(TranscriptRole::System, event_kind);
        body.set_content(write_json(item).as_str(), rules);
        Ok(body)
    }
}

/// The body of a notification, or why it has none. Methods outside the known
/// ones are kept as they stand.
pub open spec fn notification_body(method: Seq<char>, params: Json, rules: RulesView) -> Result<
    BodyView,
    Seq<char>,
> {
    let event_kind = "codex_app_server/"@ + method;
    let whole = json::json_writing(params);
    if method == "turn/started"@ {
        Ok(record::with_content(record::plain_body(TranscriptRole::System, event_kind), whole, rules))
    } else if method == "turn/completed"@ {
        Ok(
            BodyView {
                source_error: turn_error(params),
                ..record::with_content(record::plain_body(TranscriptRole::Result, event_kind), whole, rules)
            },
        )
    } else if method == "thread/tokenUsage/updated"@ {
        Ok(
            BodyView {
                usage: match json::member(params, "tokenUsage"@) {
                    Some(usage) => Some(app_server_usage_of(usage)),
                    None => None,
                },
                ..record::with_content(record::plain_body(TranscriptRole::Result, event_kind), whole, rules)
            },
        )
    } else if method == "item/agentMessage/delta"@ {
        Ok(
            record::with_content(
                record::plain_body(TranscriptRole::Assistant, event_kind),
                match json::str_member(params, "delta"@) {
                    Some(delta) => delta,
                    None => whole,
                },
                rules,
            ),
        )
    } else if method == "item/commandExecution/outputDelta"@ {
        Ok(
            record::with_call(
                record::plain_body(TranscriptRole::Tool, event_kind),
                record::with_result(
                    record::named_call("command_execution"@, json::str_member(params, "itemId"@)),
                    record::bounded_or_empty(json::member(params, "delta"@), rules.max_tool_result_chars),
                ),
            ),
        )
    } else if method == "item/started"@ || method == "item/completed"@ {
        app_server_item(method, params, rules)
    } else {
        Ok(record::with_content(record::plain_body(TranscriptRole::System, event_kind), whole, rules))
    }
}

/// The error of a completed turn, where it has one that is not null.
pub open spec fn turn_error(params: Json) -> Option<Seq<char>> {
    match json::member(params, "turn"@) {
        Some(turn) => match json::member(turn, "error"@) {
            Some(Json::Null) => None,
            Some(error) => Some(json::json_writing(error)),
            None => None,
        },
        None => None,
    }
}

fn read_turn_error(params: &Json) -> (error: Option<String>)
    ensures
        text::opt_text(error) == turn_error(*params),
{
    match member_of(params, "turn") {
        Some(turn) => match member_of(turn, "error") {
            Some(Json::Null) => None,
            Some(error) => Some(write_json(error)),
            None => None,
        },
        None => None,
    }
}

fn read_notification(method: &str, params: &Json, rules: &TranscriptRules) -> (outcome: Result<
    LineBody,
    String,
>)
    ensures
        record::outcome_view(outcome) == notification_body(method@, *params, rules@),
{
    let event_kind = joined("codex_app_server/", method);
    let whole = write_json(params);
    if str_equal(method, "turn/started") {
        let mut body = LineBody::plain(TranscriptRole::System, event_kind);
        body.set_content(whole.as_str(), rules);
        Ok(body)
    } else if str_equal(method, "turn/completed") {
        let mut body = LineBody::plain(TranscriptRole::Result, event_kind);
        body.set_content(whole.as_str(), rules);
        body.source_error = read_turn_error(params);
        Ok(body)
    } else if str_equal(method, "thread/tokenUsage/updated") {
        let mut body = LineBody::plain(TranscriptRole::Result, event_kind);
        body.set_content(whole.as_str(), rules);
        body.usage = match member_of(params, "tokenUsage") {
            Some(usage) => Some(codex_app_server_usage(usage)),
            None => None,
        };
        Ok(body)
    } else if str_equal(method, "item/agentMessage/delta") {
        let mut body = LineBody::plain(TranscriptRole::Assistant, event_kind);
        let text = match str_member_of(params, "delta") {
            Some(delta) => delta,
            None => whole.as_str(),
        };
        body.set_content(text, rules);
        Ok(body)
    } else if str_equal(method, "item/commandExecution/outputDelta") {
        let mut body = LineBody::plain(TranscriptRole::Tool, event_kind);
        let mut call = new_call(
            "command_execution".to_owned(),
            string_member_of(params, "itemId"),
        );
        set_result(&mut call, member_of(params, "delta"), rules.max_tool_result_chars);
        body.push_call(call);
        Ok(body)
    } else if str_equal(method, "item/started") || str_equal(method, "item/completed") {
        parse_codex_app_server_item(method, params, rules)
    } else {
        let mut body = LineBody::plain(TranscriptRole::System, event_kind);
        body.set_content(whole.as_str(), rules);
        Ok(body)
    }
}

/// What a response says, and the stream after it.
pub open spec fn response_parse(object: Json, stream: StreamView, rules: RulesView) -> (
    StreamView,
    ParseView,
) {
    if json::member(object, "id"@) is None {
        (
            stream,
            record::refused(
                "CODEX_APP_SERVER_MESSAGE_MISSING_METHOD_OR_ID: expected notification or response"@,
            ),
        )
    } else {
        match json::member(object, "result"@) {
            Some(result) => (
                StreamView {
                    model: match json::str_member(result, "model"@) {
                        Some(model) => Some(model),
                        None => stream.model,
                    },
                    conversation_id: match thread_identifier(result) {
                        Some(id) => Some(id),
                        None => stream.conversation_id,
                    },
                    ..stream
                },
                ParseView {
                    model: json::str_member(result, "model"@),
                    turn_index: None,
                    outcome: Ok(
                        record::with_content(
                            record::plain_body(
                                TranscriptRole::System,
                                "codex_app_server/response/result"@,
                            ),
                            json::json_writing(result),
                            rules,
                        ),
                    ),
                },
            ),
            None => match json::member(object, "error"@) {
                Some(error) => (
                    stream,
                    record::parse_of(
                        Ok(
                            BodyView {
                                source_error: Some(json::json_writing(error)),
                                ..record::with_content(
                                    record::plain_body(
                                        TranscriptRole::Result,
                                        "codex_app_server/response/error"@,
                                    ),
                                    json::json_writing(error),
                                    rules,
                                )
                            },
                        ),
                    ),
                ),
                None => (
                    stream,
                    record::refused("CODEX_APP_SERVER_RESPONSE_MISSING_RESULT_OR_ERROR"@),
                ),
            },
        }
    }
}

/// The parameters of a message, null where it has none.
pub open spec fn params_of(object: Json) -> Json {
    match json::member(object, "params"@) {
        Some(params) => params,
        None => Json::Null,
    }
}

/// What the vocabulary says of an app server message, and the stream after it.
pub open spec fn app_server_parse(object: Json, stream: StreamView, rules: RulesView) -> (
    StreamView,
    ParseView,
) {
    match json::str_member(object, "method"@) {
        Some(method) => {
            let named = after_notification(params_of(object), stream);
            (
                if method == "turn/started"@ {
                    StreamView { turn_index: (named.turn_index + 1) as u64, ..named }
                } else {
                    named
                },
                record::parse_of(notification_body(method, params_of(object), rules)),
            )
        },
        None => response_parse(object, stream, rules),
    }
}

/// Reads one message of the app server.
pub fn parse_codex_app_server_object(
    object: &Json,
    stream: &mut StreamState,
    rules: &TranscriptRules,
) -> (parse: LineParse)
    requires
        old(stream)@.turn_index < u64::MAX,
    ensures
        (final(stream)@, parse@) == app_server_parse(*object, old(stream)@, rules@),
{
    if let Some(method) = str_member_of(object, "method") {
        let null = Json::Null;
        let params = match member_of(object, "params") {
            Some(params) => params,
            None => &null,
        };
        stamp_codex_app_server_identity(params, stream);
        if str_equal(method, "turn/started") {
            stream.turn_index = stream.turn_index + 1;
        }
        return LineParse {
            model: None,
            turn_index: None,
            outcome: read_notification(method, params, rules),
        };
    }
    if member_of(object, "id").is_none() {
        return refuse(
            "CODEX_APP_SERVER_MESSAGE_MISSING_METHOD_OR_ID: expected notification or response",
        );
    }
    if let Some(result) = member_of(object, "result") {
        let mut body = LineBody::plain(
            TranscriptRole::System,
            "codex_app_server/response/result".to_owned(),
        );
        body.set_content(write_json(result).as_str(), rules);
        if let Some(model) = string_member_of(result, "model") {
            stream.model = Some(model);
        }
        if let Some(id) = read_thread_identifier(result) {
            stream.conversation_id = Some(id.to_owned());
        }
        return LineParse {
            model: string_member_of(result, "model"),
            turn_index: None,
            outcome: Ok(body),
        };
    }
    if let Some(error) = member_of(object, "error") {
        let mut body = LineBody::plain(
            TranscriptRole::Result,
            "codex_app_server/response/error".to_owned(),
        );
        let text = write_json(error);
        body.set_content(text.as_str(), rules);
        body.source_error = Some(text);
        return accept(body);
    }
    refuse("CODEX_APP_SERVER_RESPONSE_MISSING_RESULT_OR_ERROR")
}

} // verus!
