//! What the row of a line of the two codex sources says of that line.
use crate::json;
use crate::json::Json;
use crate::text;
use crate::transcripts::codex;
use crate::transcripts::record::{BodyView, RulesView, StreamView, ToolCallView, TranscriptRole};
use crate::transcripts::rows;
use vstd::prelude::*;
use vstd::string::*;

verus! {

proof fn lemma_event_kinds()
    ensures
        "thread.started"@ != "turn.started"@,
        "thread.started"@ != "turn.completed"@,
        "thread.started"@ != "turn.failed"@,
        "thread.started"@ != "error"@,
        "thread.started"@ != "item.started"@,
        "thread.started"@ != "item.updated"@,
        "thread.started"@ != "item.completed"@,
        "turn.started"@ != "turn.completed"@,
        "turn.started"@ != "turn.failed"@,
        "turn.started"@ != "error"@,
        "turn.started"@ != "item.started"@,
        "turn.started"@ != "item.updated"@,
        "turn.started"@ != "item.completed"@,
        "turn.completed"@ != "turn.failed"@,
        "turn.completed"@ != "error"@,
        "turn.completed"@ != "item.started"@,
        "turn.completed"@ != "item.updated"@,
        "turn.completed"@ != "item.completed"@,
        "turn.failed"@ != "error"@,
        "turn.failed"@ != "item.started"@,
        "turn.failed"@ != "item.updated"@,
        "turn.failed"@ != "item.completed"@,
        "error"@ != "item.started"@,
        "error"@ != "item.updated"@,
        "error"@ != "item.completed"@,
        "item.started"@ != "item.updated"@,
        "item.started"@ != "item.completed"@,
        "item.updated"@ != "item.completed"@,
{
    reveal_strlit("thread.started");
    reveal_strlit("turn.started");
    reveal_strlit("turn.completed");
    reveal_strlit("turn.failed");
    reveal_strlit("error");
    reveal_strlit("item.started");
    reveal_strlit("item.updated");
    reveal_strlit("item.completed");
    assert("thread.started"@.len() == 14);
    assert("turn.started"@.len() == 12);
    assert("turn.completed"@.len() == 14);
    assert("turn.failed"@.len() == 11);
    assert("error"@.len() == 5);
    assert("item.started"@.len() == 12);
    assert("item.updated"@.len() == 12);
    assert("item.completed"@.len() == 14);
    assert("thread.started"@[1] == 'h' && "turn.completed"@[1] == 'u');
    assert("thread.started"@[0] == 't' && "item.completed"@[0] == 'i');
    assert("turn.started"@[0] == 't' && "item.started"@[0] == 'i');
    assert("turn.started"@[0] == 't' && "item.updated"@[0] == 'i');
    assert("turn.completed"@[0] == 't' && "item.completed"@[0] == 'i');
    assert("item.started"@[5] == 's' && "item.updated"@[5] == 'u');
}

proof fn lemma_item_kinds()
    ensures
        "agent_message"@ != "reasoning"@,
        "agent_message"@ != "mcp_tool_call"@,
        "agent_message"@ != "command_execution"@,
        "agent_message"@ != "file_change"@,
        "agent_message"@ != "web_search"@,
        "agent_message"@ != "todo_list"@,
        "reasoning"@ != "mcp_tool_call"@,
        "reasoning"@ != "command_execution"@,
        "reasoning"@ != "file_change"@,
        "reasoning"@ != "web_search"@,
        "reasoning"@ != "todo_list"@,
        "mcp_tool_call"@ != "command_execution"@,
        "mcp_tool_call"@ != "file_change"@,
        "mcp_tool_call"@ != "web_search"@,
        "mcp_tool_call"@ != "todo_list"@,
        "command_execution"@ != "file_change"@,
        "command_execution"@ != "web_search"@,
        "command_execution"@ != "todo_list"@,
        "file_change"@ != "web_search"@,
        "file_change"@ != "todo_list"@,
        "web_search"@ != "todo_list"@,
{
    reveal_strlit("agent_message");
    reveal_strlit("reasoning");
    reveal_strlit("mcp_tool_call");
    reveal_strlit("command_execution");
    reveal_strlit("file_change");
    reveal_strlit("web_search");
    reveal_strlit("todo_list");
    assert("agent_message"@.len() == 13);
    assert("reasoning"@.len() == 9);
    assert("mcp_tool_call"@.len() == 13);
    assert("command_execution"@.len() == 17);
    assert("file_change"@.len() == 11);
    assert("web_search"@.len() == 10);
    assert("todo_list"@.len() == 9);
    assert("agent_message"@[0] == 'a' && "mcp_tool_call"@[0] == 'm');
    assert("reasoning"@[0] == 'r' && "todo_list"@[0] == 't');
}

proof fn lemma_methods()
    ensures
        "turn/started"@ != "turn/completed"@,
        "turn/started"@ != "thread/tokenUsage/updated"@,
        "turn/started"@ != "item/agentMessage/delta"@,
        "turn/started"@ != "item/commandExecution/outputDelta"@,
        "turn/started"@ != "item/started"@,
        "turn/started"@ != "item/completed"@,
        "turn/completed"@ != "thread/tokenUsage/updated"@,
        "turn/completed"@ != "item/agentMessage/delta"@,
        "turn/completed"@ != "item/commandExecution/outputDelta"@,
        "turn/completed"@ != "item/started"@,
        "turn/completed"@ != "item/completed"@,
        "thread/tokenUsage/updated"@ != "item/agentMessage/delta"@,
        "thread/tokenUsage/updated"@ != "item/commandExecution/outputDelta"@,
        "thread/tokenUsage/updated"@ != "item/started"@,
        "thread/tokenUsage/updated"@ != "item/completed"@,
        "item/agentMessage/delta"@ != "item/commandExecution/outputDelta"@,
        "item/agentMessage/delta"@ != "item/started"@,
        "item/agentMessage/delta"@ != "item/completed"@,
        "item/commandExecution/outputDelta"@ != "item/started"@,
        "item/commandExecution/outputDelta"@ != "item/completed"@,
        "item/started"@ != "item/completed"@,
{
    reveal_strlit("turn/started");
    reveal_strlit("turn/completed");
    reveal_strlit("thread/tokenUsage/updated");
    reveal_strlit("item/agentMessage/delta");
    reveal_strlit("item/commandExecution/outputDelta");
    reveal_strlit("item/started");
    reveal_strlit("item/completed");
    assert("turn/started"@.len() == 12);
    assert("turn/completed"@.len() == 14);
    assert("thread/tokenUsage/updated"@.len() == 25);
    assert("item/agentMessage/delta"@.len() == 23);
    assert("item/commandExecution/outputDelta"@.len() == 33);
    assert("item/started"@.len() == 12);
    assert("item/completed"@.len() == 14);
    assert("turn/started"@[0] == 't' && "item/started"@[0] == 'i');
    assert("turn/completed"@[0] == 't' && "item/completed"@[0] == 'i');
}

proof fn lemma_app_server_item_kinds()
    ensures
        "agentMessage"@ != "reasoning"@,
        "agentMessage"@ != "userMessage"@,
        "agentMessage"@ != "mcpToolCall"@,
        "agentMessage"@ != "commandExecution"@,
        "reasoning"@ != "userMessage"@,
        "reasoning"@ != "mcpToolCall"@,
        "reasoning"@ != "commandExecution"@,
        "userMessage"@ != "mcpToolCall"@,
        "userMessage"@ != "commandExecution"@,
        "mcpToolCall"@ != "commandExecution"@,
{
    reveal_strlit("agentMessage");
    reveal_strlit("reasoning");
    reveal_strlit("userMessage");
    reveal_strlit("mcpToolCall");
    reveal_strlit("commandExecution");
    assert("agentMessage"@.len() == 12);
    assert("reasoning"@.len() == 9);
    assert("userMessage"@.len() == 11);
    assert("mcpToolCall"@.len() == 11);
    assert("commandExecution"@.len() == 16);
    assert("userMessage"@[0] == 'u' && "mcpToolCall"@[0] == 'm');
}

/// The kinds of the events that are about an item.
pub open spec fn is_item_event(kind: Seq<char>) -> bool {
    kind == "item.started"@ || kind == "item.updated"@ || kind == "item.completed"@
}

/// The row of a message or reasoning item is an assistant's, of the kind of its event and
/// its own; its content is the string `text`, and none where the item has none.
pub proof fn law_message_items_tell_their_text(
    object: Json,
    stream: StreamView,
    rules: RulesView,
    event: Seq<char>,
    item: Json,
    kind: Seq<char>,
)
    requires
        json::str_member(object, "type"@) == Some(event),
        is_item_event(event),
        json::object_member(object, "item"@) == Some(item),
        json::str_member(item, "type"@) == Some(kind),
        kind == "agent_message"@ || kind == "reasoning"@,
    ensures
        ({
            let parse = codex::codex_parse(object, stream, rules).1;
            let body = parse.outcome->Ok_0;
            &&& parse.outcome is Ok
            &&& body.role == TranscriptRole::Assistant
            &&& body.event_kind == event + "/"@ + kind
            &&& rows::tells_if_any(body.content, json::str_member(item, "text"@), rules)
            &&& body.tool_calls.len() == 0
            &&& body.usage is None
            &&& body.source_error is None
        }),
{
    lemma_event_kinds();
    lemma_item_kinds();
}

/// The call is one of a tool of a server: under the name of the server and the tool, with
/// the `arguments`, the `result` if it is there and not null, and the `status` of the item.
pub open spec fn tells_server_call(call: ToolCallView, item: Json, rules: RulesView) -> bool {
    let server = json::str_member(item, "server"@);
    let tool = json::str_member(item, "tool"@)->0;
    let result = json::member(item, "result"@);
    &&& server is None || server->0.len() == 0 ==> call.tool_name == tool
    &&& server is Some && server->0.len() > 0 ==> call.tool_name == server->0 + "."@ + tool
    &&& call.tool_call_id == json::str_member(item, "id"@)
    &&& rows::has_arguments(call, json::member(item, "arguments"@), rules.max_tool_args_chars)
    &&& result is None || result == Some(Json::Null) ==> rows::lacks_result(call)
    &&& result is Some && result != Some(Json::Null) ==> rows::has_result(
        call,
        result,
        rules.max_tool_result_chars,
    )
    &&& call.status == json::str_member(item, "status"@)
    &&& call.exit_code is None
}

/// The call is a command: its `command` are the arguments, its output the result if it is
/// there and not null, and its exit code the integer given.
pub open spec fn tells_command(
    call: ToolCallView,
    item: Json,
    output: Option<Json>,
    exit_code: Option<Json>,
    rules: RulesView,
) -> bool {
    &&& call.tool_name == "command_execution"@
    &&& call.tool_call_id == json::str_member(item, "id"@)
    &&& rows::has_arguments(call, json::member(item, "command"@), rules.max_tool_args_chars)
    &&& output is None || output == Some(Json::Null) ==> rows::lacks_result(call)
    &&& output is Some && output != Some(Json::Null) ==> rows::has_result(
        call,
        output,
        rules.max_tool_result_chars,
    )
    &&& call.status == json::str_member(item, "status"@)
    &&& call.exit_code == json::i64_of(exit_code)
}

/// The row of a tool item is a tool's with the one call of the item; a call of a server
/// without the name of its tool is refused.
pub proof fn law_tool_items_tell_their_call(
    object: Json,
    stream: StreamView,
    rules: RulesView,
    event: Seq<char>,
    item: Json,
)
    requires
        json::str_member(object, "type"@) == Some(event),
        is_item_event(event),
        json::object_member(object, "item"@) == Some(item),
    ensures
        ({
            let parse = codex::codex_parse(object, stream, rules).1;
            let body = parse.outcome->Ok_0;
            &&& json::str_member(item, "type"@) == Some("mcp_tool_call"@) && json::str_member(
                item,
                "tool"@,
            ) is None ==> parse.outcome == Err::<BodyView, Seq<char>>("MCP_TOOL_CALL_MISSING_TOOL"@)
            &&& json::str_member(item, "type"@) == Some("mcp_tool_call"@) && json::str_member(
                item,
                "tool"@,
            ) is Some ==> {
                &&& parse.outcome is Ok
                &&& body.role == TranscriptRole::Tool
                &&& body.event_kind == event + "/"@ + "mcp_tool_call"@
                &&& body.tool_calls.len() == 1
                &&& tells_server_call(body.tool_calls[0], item, rules)
                &&& body.content is None
                &&& body.usage is None
                &&& body.source_error is None
            }
            &&& json::str_member(item, "type"@) == Some("command_execution"@) ==> {
                &&& parse.outcome is Ok
                &&& body.role == TranscriptRole::Tool
                &&& body.event_kind == event + "/"@ + "command_execution"@
                &&& body.tool_calls.len() == 1
                &&& tells_command(
                    body.tool_calls[0],
                    item,
                    json::member(item, "aggregated_output"@),
                    json::member(item, "exit_code"@),
                    rules,
                )
                &&& body.content is None
                &&& body.usage is None
                &&& body.source_error is None
            }
        }),
{
    lemma_event_kinds();
    lemma_item_kinds();
}

/// The row of a file change, a web search or a to-do list is a tool's with the notation of
/// the item as its content. An item that is missing or no object, that has no type or
/// another type, is refused.
pub proof fn law_other_items_tell_their_notation(
    object: Json,
    stream: StreamView,
    rules: RulesView,
    event: Seq<char>,
    kind: Seq<char>,
)
    requires
        json::str_member(object, "type"@) == Some(event),
        is_item_event(event),
    ensures
        ({
            let parse = codex::codex_parse(object, stream, rules).1;
            let body = parse.outcome->Ok_0;
            let item = json::object_member(object, "item"@);
            &&& codex::codex_parse(object, stream, rules).0 == stream
            &&& parse.model is None
            &&& parse.turn_index is None
            &&& item is None ==> parse.outcome == Err::<BodyView, Seq<char>>(
                event + ": missing `item` object"@,
            )
            &&& item is Some && json::str_member(item->0, "type"@) is None ==> parse.outcome == Err::<
                BodyView,
                Seq<char>,
            >(event + ": item has no string `type`"@)
            &&& item is Some && json::str_member(item->0, "type"@) == Some(kind) && (kind
                == "file_change"@ || kind == "web_search"@ || kind == "todo_list"@) ==> {
                &&& parse.outcome is Ok
                &&& body.role == TranscriptRole::Tool
                &&& body.event_kind == event + "/"@ + kind
                &&& rows::tells(body.content, json::json_writing(item->0), rules)
                &&& body.tool_calls.len() == 0
                &&& body.usage is None
                &&& body.source_error is None
            }
            &&& item is Some && json::str_member(item->0, "type"@) == Some(kind) && kind
                != "agent_message"@ && kind != "reasoning"@ && kind != "mcp_tool_call"@ && kind
                != "command_execution"@ && kind != "file_change"@ && kind != "web_search"@ && kind
                != "todo_list"@ ==> parse.outcome == Err::<BodyView, Seq<char>>(
                "UNKNOWN_ITEM_TYPE: "@ + kind,
            )
        }),
{
    lemma_event_kinds();
    lemma_item_kinds();
}

/// The row of a completed turn is a result's that counts what the `usage` of the line says,
/// each counter under its own key; without a usage it is refused.
pub proof fn law_completed_turns_count_by_key(object: Json, stream: StreamView, rules: RulesView)
    requires
        json::str_member(object, "type"@) == Some("turn.completed"@),
    ensures
        ({
            let parse = codex::codex_parse(object, stream, rules).1;
            let body = parse.outcome->Ok_0;
            let usage = json::member(object, "usage"@);
            &&& codex::codex_parse(object, stream, rules).0 == stream
            &&& usage is None ==> parse.outcome == Err::<BodyView, Seq<char>>(
                "TURN_COMPLETED_MISSING_USAGE"@,
            )
            &&& usage is Some ==> {
                &&& parse.outcome is Ok
                &&& body.role == TranscriptRole::Result
                &&& body.event_kind == "turn.completed"@
                &&& body.tool_calls.len() == 0
                &&& body.content is None
                &&& body.source_error is None
                &&& body.usage is Some
                &&& body.usage->0.input_tokens == json::u64_member(usage->0, "input_tokens"@)
                &&& body.usage->0.output_tokens == json::u64_member(usage->0, "output_tokens"@)
                &&& body.usage->0.cache_read_input_tokens == json::u64_member(
                    usage->0,
                    "cached_input_tokens"@,
                )
                &&& body.usage->0.reasoning_output_tokens == json::u64_member(
                    usage->0,
                    "reasoning_output_tokens"@,
                )
                &&& body.usage->0.cache_creation_input_tokens is None
                &&& body.usage->0.cache_creation_5m_input_tokens is None
                &&& body.usage->0.cache_creation_1h_input_tokens is None
                &&& body.usage->0.total_cost_usd is None
                &&& body.usage->0.model_usage.len() == 0
            }
        }),
{
    lemma_event_kinds();
}

/// The row of a failed turn reports the `message` of its `error`, the notation of an error
/// without one, and a fixed text where the line has no error; an error line reports its own
/// `message`, or its notation.
pub proof fn law_failures_report_their_message(object: Json, stream: StreamView, rules: RulesView)
    ensures
        json::str_member(object, "type"@) == Some("turn.failed"@) ==> {
            let parse = codex::codex_parse(object, stream, rules).1;
            let body = parse.outcome->Ok_0;
            let error = json::member(object, "error"@);
            &&& codex::codex_parse(object, stream, rules).0 == stream
            &&& parse.outcome is Ok
            &&& body.role == TranscriptRole::Result
            &&& body.event_kind == "turn.failed"@
            &&& body.tool_calls.len() == 0
            &&& body.content is None
            &&& body.usage is None
            &&& error is None ==> body.source_error == Some("turn.failed without error detail"@)
            &&& error is Some && json::str_member(error->0, "message"@) is Some
                ==> body.source_error == json::str_member(error->0, "message"@)
            &&& error is Some && json::str_member(error->0, "message"@) is None
                ==> body.source_error == Some(json::json_writing(error->0))
        },
        json::str_member(object, "type"@) == Some("error"@) ==> {
            let parse = codex::codex_parse(object, stream, rules).1;
            let body = parse.outcome->Ok_0;
            &&& codex::codex_parse(object, stream, rules).0 == stream
            &&& parse.outcome is Ok
            &&& body.role == TranscriptRole::System
            &&& body.event_kind == "error"@
            &&& body.tool_calls.len() == 0
            &&& body.content is None
            &&& body.usage is None
            &&& json::str_member(object, "message"@) is Some ==> body.source_error
                == json::str_member(object, "message"@)
            &&& json::str_member(object, "message"@) is None ==> body.source_error == Some(
                json::json_writing(object),
            )
        },
{
    lemma_event_kinds();
}

/// A started thread names the conversation of the stream, a started turn is a turn more;
/// both rows say nothing else. A line without a string `type`, or of another type, is
/// refused and leaves the stream.
pub proof fn law_starts_move_the_stream(
    object: Json,
    stream: StreamView,
    rules: RulesView,
    kind: Seq<char>,
)
    requires
        stream.turn_index < 0xffff_ffff_ffff_ffff,
    ensures
        json::str_member(object, "type"@) == Some("thread.started"@) ==> {
            let after = codex::codex_parse(object, stream, rules).0;
            let parse = codex::codex_parse(object, stream, rules).1;
            &&& parse.outcome is Ok
            &&& parse.outcome->Ok_0.role == TranscriptRole::System
            &&& parse.outcome->Ok_0.event_kind == "thread.started"@
            &&& rows::says_nothing(parse.outcome->Ok_0)
            &&& json::str_member(object, "thread_id"@) is Some ==> after.conversation_id
                == json::str_member(object, "thread_id"@)
            &&& json::str_member(object, "thread_id"@) is None ==> after.conversation_id
                == stream.conversation_id
            &&& after.turn_index == stream.turn_index
            &&& after.model == stream.model
            &&& after.seen_message_ids == stream.seen_message_ids
        },
        json::str_member(object, "type"@) == Some("turn.started"@) ==> {
            let after = codex::codex_parse(object, stream, rules).0;
            let parse = codex::codex_parse(object, stream, rules).1;
            &&& parse.outcome is Ok
            &&& parse.outcome->Ok_0.role == TranscriptRole::System
            &&& parse.outcome->Ok_0.event_kind == "turn.started"@
            &&& rows::says_nothing(parse.outcome->Ok_0)
            &&& after.turn_index == stream.turn_index + 1
            &&& after.conversation_id == stream.conversation_id
            &&& after.model == stream.model
            &&& after.seen_message_ids == stream.seen_message_ids
        },
        json::str_member(object, "type"@) is None ==> {
            &&& codex::codex_parse(object, stream, rules).0 == stream
            &&& codex::codex_parse(object, stream, rules).1.outcome == Err::<BodyView, Seq<char>>(
                "MISSING_TYPE: line has no string `type` field"@,
            )
        },
        json::str_member(object, "type"@) == Some(kind) && kind != "thread.started"@ && kind
            != "turn.started"@ && kind != "turn.completed"@ && kind != "turn.failed"@ && kind
            != "error"@ && !is_item_event(kind) ==> {
            &&& codex::codex_parse(object, stream, rules).0 == stream
            &&& codex::codex_parse(object, stream, rules).1.outcome == Err::<BodyView, Seq<char>>(
                "UNKNOWN_EVENT_TYPE: "@ + kind,
            )
        },
        codex::codex_parse(object, stream, rules).1.model is None,
        codex::codex_parse(object, stream, rules).1.turn_index is None,
{
    lemma_event_kinds();
}

/// The row of a notification is of the kind `codex_app_server/` and its method: a started
/// turn is the system's and a turn more, a completed one a result's that reports the error
/// of the turn if it is there and not null; both tell their parameters.
pub proof fn law_turn_notifications_tell_their_parameters(
    object: Json,
    stream: StreamView,
    rules: RulesView,
    params: Json,
)
    requires
        json::member(object, "params"@) == Some(params),
        stream.turn_index < 0xffff_ffff_ffff_ffff,
    ensures
        json::str_member(object, "method"@) == Some("turn/started"@) ==> {
            let parse = codex::app_server_parse(object, stream, rules).1;
            let body = parse.outcome->Ok_0;
            &&& parse.outcome is Ok
            &&& body.role == TranscriptRole::System
            &&& body.event_kind == "codex_app_server/"@ + "turn/started"@
            &&& rows::tells(body.content, json::json_writing(params), rules)
            &&& body.tool_calls.len() == 0
            &&& body.usage is None
            &&& body.source_error is None
            &&& codex::app_server_parse(object, stream, rules).0.turn_index == stream.turn_index
                + 1
        },
        json::str_member(object, "method"@) == Some("turn/completed"@) ==> {
            let parse = codex::app_server_parse(object, stream, rules).1;
            let body = parse.outcome->Ok_0;
            let turn = json::member(params, "turn"@);
            let error = json::member(turn->0, "error"@);
            &&& parse.outcome is Ok
            &&& body.role == TranscriptRole::Result
            &&& body.event_kind == "codex_app_server/"@ + "turn/completed"@
            &&& rows::tells(body.content, json::json_writing(params), rules)
            &&& body.tool_calls.len() == 0
            &&& body.usage is None
            &&& turn is Some && error is Some && error != Some(Json::Null) ==> body.source_error
                == Some(json::json_writing(error->0))
            &&& turn is None || error is None || error == Some(Json::Null)
                ==> body.source_error is None
        },
        json::str_member(object, "method"@) is Some && json::str_member(object, "method"@) != Some(
            "turn/started"@,
        ) ==> codex::app_server_parse(object, stream, rules).0.turn_index == stream.turn_index,
        json::str_member(object, "method"@) is Some ==> codex::app_server_parse(
            object,
            stream,
            rules,
        ).1.model is None && codex::app_server_parse(object, stream, rules).1.turn_index is None,
{
    lemma_methods();
}

/// The counter under the first of two keys that has a number, or under the second.
pub open spec fn counted_under(count: Option<u64>, value: Json, first: Seq<char>, second: Seq<char>) -> bool {
    &&& json::u64_member(value, first) is Some ==> count == json::u64_member(value, first)
    &&& json::u64_member(value, first) is None ==> count == json::u64_member(value, second)
}

/// The row of a usage notification is a result's that counts what `total` of the
/// `tokenUsage` says, or the token usage itself where it has no total; each counter under
/// either spelling of its own key.
pub proof fn law_usage_notifications_count_by_key(
    object: Json,
    stream: StreamView,
    rules: RulesView,
    params: Json,
)
    requires
        json::member(object, "params"@) == Some(params),
        json::str_member(object, "method"@) == Some("thread/tokenUsage/updated"@),
    ensures
        ({
            let parse = codex::app_server_parse(object, stream, rules).1;
            let body = parse.outcome->Ok_0;
            let usage = json::member(params, "tokenUsage"@);
            let total = if json::member(usage->0, "total"@) is Some {
                json::member(usage->0, "total"@)->0
            } else {
                usage->0
            };
            &&& parse.outcome is Ok
            &&& body.role == TranscriptRole::Result
            &&& body.event_kind == "codex_app_server/"@ + "thread/tokenUsage/updated"@
            &&& rows::tells(body.content, json::json_writing(params), rules)
            &&& body.tool_calls.len() == 0
            &&& body.source_error is None
            &&& usage is None ==> body.usage is None
            &&& usage is Some ==> {
                &&& body.usage is Some
                &&& counted_under(
                    body.usage->0.input_tokens,
                    total,
                    "inputTokens"@,
                    "input_tokens"@,
                )
                &&& counted_under(
                    body.usage->0.output_tokens,
                    total,
                    "outputTokens"@,
                    "output_tokens"@,
                )
                &&& counted_under(
                    body.usage->0.cache_read_input_tokens,
                    total,
                    "cachedInputTokens"@,
                    "cached_input_tokens"@,
                )
                &&& counted_under(
                    body.usage->0.reasoning_output_tokens,
                    total,
                    "reasoningOutputTokens"@,
                    "reasoning_output_tokens"@,
                )
                &&& body.usage->0.cache_creation_input_tokens is None
                &&& body.usage->0.cache_creation_5m_input_tokens is None
                &&& body.usage->0.cache_creation_1h_input_tokens is None
                &&& body.usage->0.total_cost_usd is None
                &&& body.usage->0.model_usage.len() == 0
            }
        }),
{
    lemma_methods();
}

/// The row of a message delta is an assistant's and tells the string `delta`, or the
/// parameters where there is none; that of an output delta is a tool's with one call, of the
/// item it names, whose result is the `delta`. Any other notification but those about items
/// is the system's and tells its parameters.
pub proof fn law_delta_notifications_tell_their_delta(
    object: Json,
    stream: StreamView,
    rules: RulesView,
    params: Json,
    method: Seq<char>,
)
    requires
        json::member(object, "params"@) == Some(params),
        json::str_member(object, "method"@) == Some(method),
    ensures
        method == "item/agentMessage/delta"@ ==> {
            let parse = codex::app_server_parse(object, stream, rules).1;
            let body = parse.outcome->Ok_0;
            &&& parse.outcome is Ok
            &&& body.role == TranscriptRole::Assistant
            &&& body.event_kind == "codex_app_server/"@ + method
            &&& json::str_member(params, "delta"@) is Some ==> rows::tells(
                body.content,
                json::str_member(params, "delta"@)->0,
                rules,
            )
            &&& json::str_member(params, "delta"@) is None ==> rows::tells(
                body.content,
                json::json_writing(params),
                rules,
            )
            &&& body.tool_calls.len() == 0
            &&& body.usage is None
            &&& body.source_error is None
        },
        method == "item/commandExecution/outputDelta"@ ==> {
            let parse = codex::app_server_parse(object, stream, rules).1;
            let body = parse.outcome->Ok_0;
            &&& parse.outcome is Ok
            &&& body.role == TranscriptRole::Tool
            &&& body.event_kind == "codex_app_server/"@ + method
            &&& body.tool_calls.len() == 1
            &&& body.tool_calls[0].tool_name == "command_execution"@
            &&& body.tool_calls[0].tool_call_id == json::str_member(params, "itemId"@)
            &&& rows::has_result(
                body.tool_calls[0],
                json::member(params, "delta"@),
                rules.max_tool_result_chars,
            )
            &&& rows::lacks_arguments(body.tool_calls[0])
            &&& body.tool_calls[0].status is None
            &&& body.tool_calls[0].exit_code is None
            &&& body.content is None
            &&& body.usage is None
            &&& body.source_error is None
        },
        method != "turn/started"@ && method != "turn/completed"@ && method
            != "thread/tokenUsage/updated"@ && method != "item/agentMessage/delta"@ && method
            != "item/commandExecution/outputDelta"@ && method != "item/started"@ && method
            != "item/completed"@ ==> {
            let parse = codex::app_server_parse(object, stream, rules).1;
            let body = parse.outcome->Ok_0;
            &&& parse.outcome is Ok
            &&& body.role == TranscriptRole::System
            &&& body.event_kind == "codex_app_server/"@ + method
            &&& rows::tells(body.content, json::json_writing(params), rules)
            &&& body.tool_calls.len() == 0
            &&& body.usage is None
            &&& body.source_error is None
        },
{
    lemma_methods();
}

/// The text of an item: its string `text`; without one, the texts of its `content` blocks,
/// one per line; without any, its notation.
pub open spec fn is_item_text(told: Seq<char>, item: Json) -> bool {
    let text = json::str_member(item, "text"@);
    let blocks = json::array_member(item, "content"@);
    &&& text is Some ==> told == text->0
    &&& text is None && blocks is Some && codex::block_texts(blocks->0).len() > 0 ==> told
        == text::join_spec(codex::block_texts(blocks->0), "\n"@)
    &&& text is None && (blocks is None || codex::block_texts(blocks->0).len() == 0) ==> told
        == json::json_writing(item)
}

/// One block more adds its string `text` behind the texts of the blocks before it, and
/// nothing where it has none.
pub proof fn law_block_texts_are_told_in_order(items: Seq<Json>, block: Json)
    ensures
        codex::block_texts(Seq::<Json>::empty()).len() == 0,
        json::str_member(block, "text"@) is Some ==> codex::block_texts(items.push(block))
            == codex::block_texts(items) + seq![json::str_member(block, "text"@)->0],
        json::str_member(block, "text"@) is None ==> codex::block_texts(items.push(block))
            == codex::block_texts(items),
{
    assert(items.push(block).drop_last() =~= items);
    if json::str_member(block, "text"@) is Some {
        let text = json::str_member(block, "text"@)->0;
        assert(codex::block_texts(items).push(text) =~= codex::block_texts(items) + seq![text]);
    }
}

/// The row of an item notification is by the type of the item: a message or reasoning is an
/// assistant's and a user message the system's, both with the text of the item; any other
/// type but a call is the system's with the notation of the item.
pub proof fn law_item_notifications_tell_their_text(
    object: Json,
    stream: StreamView,
    rules: RulesView,
    params: Json,
    method: Seq<char>,
    item: Json,
    kind: Seq<char>,
)
    requires
        json::member(object, "params"@) == Some(params),
        json::str_member(object, "method"@) == Some(method),
        method == "item/started"@ || method == "item/completed"@,
        json::object_member(params, "item"@) == Some(item),
        json::str_member(item, "type"@) == Some(kind),
        kind != "mcpToolCall"@,
        kind != "commandExecution"@,
    ensures
        ({
            let parse = codex::app_server_parse(object, stream, rules).1;
            let body = parse.outcome->Ok_0;
            &&& parse.outcome is Ok
            &&& body.event_kind == "codex_app_server/"@ + method + "/"@ + kind
            &&& kind == "agentMessage"@ || kind == "reasoning"@ ==> body.role
                == TranscriptRole::Assistant
            &&& kind != "agentMessage"@ && kind != "reasoning"@ ==> body.role
                == TranscriptRole::System
            &&& kind == "agentMessage"@ || kind == "reasoning"@ || kind == "userMessage"@
                ==> exists|told: Seq<char>| #[trigger]
                is_item_text(told, item) && rows::tells(body.content, told, rules)
            &&& kind != "agentMessage"@ && kind != "reasoning"@ && kind != "userMessage"@
                ==> rows::tells(body.content, json::json_writing(item), rules)
            &&& body.tool_calls.len() == 0
            &&& body.usage is None
            &&& body.source_error is None
        }),
{
    lemma_methods();
    lemma_app_server_item_kinds();
    let told = match codex::item_text(item) {
        Some(text) => text,
        None => json::json_writing(item),
    };
    assert(is_item_text(told, item));
    if kind == "agentMessage"@ || kind == "reasoning"@ || kind == "userMessage"@ {
        assert(rows::tells(
            codex::app_server_parse(object, stream, rules).1.outcome->Ok_0.content,
            told,
            rules,
        ));
    }
}

/// The row of a call notification is a tool's with the one call of the item; an item that
/// is missing or has no type, and a call of a server without the name of its tool, are
/// refused.
pub proof fn law_call_notifications_tell_their_call(
    object: Json,
    stream: StreamView,
    rules: RulesView,
    params: Json,
    method: Seq<char>,
)
    requires
        json::member(object, "params"@) == Some(params),
        json::str_member(object, "method"@) == Some(method),
        method == "item/started"@ || method == "item/completed"@,
    ensures
        ({
            let parse = codex::app_server_parse(object, stream, rules).1;
            let body = parse.outcome->Ok_0;
            let item = json::object_member(params, "item"@);
            let kind = json::str_member(item->0, "type"@);
            let output = if json::member(item->0, "aggregatedOutput"@) is Some {
                json::member(item->0, "aggregatedOutput"@)
            } else {
                json::member(item->0, "aggregated_output"@)
            };
            let exit_code = if json::member(item->0, "exitCode"@) is Some {
                json::member(item->0, "exitCode"@)
            } else {
                json::member(item->0, "exit_code"@)
            };
            &&& item is None ==> parse.outcome == Err::<BodyView, Seq<char>>(
                method + ": missing `item` object"@,
            )
            &&& item is Some && kind is None ==> parse.outcome == Err::<BodyView, Seq<char>>(
                method + ": item has no string `type`"@,
            )
            &&& item is Some && kind == Some("mcpToolCall"@) && json::str_member(item->0, "tool"@) is None
                ==> parse.outcome == Err::<BodyView, Seq<char>>(
                "CODEX_APP_SERVER_MCP_TOOL_CALL_MISSING_TOOL"@,
            )
            &&& item is Some && kind == Some("mcpToolCall"@) && json::str_member(item->0, "tool"@) is Some
                ==> {
                &&& parse.outcome is Ok
                &&& body.role == TranscriptRole::Tool
                &&& body.event_kind == "codex_app_server/"@ + method + "/"@ + "mcpToolCall"@
                &&& body.tool_calls.len() == 1
                &&& tells_server_call(body.tool_calls[0], item->0, rules)
                &&& body.content is None
                &&& body.usage is None
                &&& body.source_error is None
            }
            &&& item is Some && kind == Some("commandExecution"@) ==> {
                &&& parse.outcome is Ok
                &&& body.role == TranscriptRole::Tool
                &&& body.event_kind == "codex_app_server/"@ + method + "/"@ + "commandExecution"@
                &&& body.tool_calls.len() == 1
                &&& tells_command(body.tool_calls[0], item->0, output, exit_code, rules)
                &&& body.content is None
                &&& body.usage is None
                &&& body.source_error is None
            }
        }),
{
    lemma_methods();
    lemma_app_server_item_kinds();
}

/// A notification names the conversation of the stream by `threadId`, by `thread_id`, or by
/// the `id` or `sessionId` of its `thread`, in that order, and the model by `model` or that
/// of its `thread`; what it does not name stays.
pub proof fn law_notifications_name_the_conversation(
    object: Json,
    stream: StreamView,
    rules: RulesView,
    params: Json,
)
    requires
        json::member(object, "params"@) == Some(params),
        json::str_member(object, "method"@) is Some,
    ensures
        ({
            let after = codex::app_server_parse(object, stream, rules).0;
            let direct = if json::member(params, "threadId"@) is Some {
                json::str_member(params, "threadId"@)
            } else {
                json::str_member(params, "thread_id"@)
            };
            let thread = json::member(params, "thread"@);
            let nested = if json::member(thread->0, "id"@) is Some {
                json::str_member(thread->0, "id"@)
            } else {
                json::str_member(thread->0, "sessionId"@)
            };
            &&& direct is Some ==> after.conversation_id == direct
            &&& direct is None && thread is Some && nested is Some ==> after.conversation_id == nested
            &&& direct is None && (thread is None || nested is None) ==> after.conversation_id
                == stream.conversation_id
            &&& json::str_member(params, "model"@) is Some ==> after.model == json::str_member(
                params,
                "model"@,
            )
            &&& json::str_member(params, "model"@) is None && thread is Some && json::str_member(
                thread->0,
                "model"@,
            ) is Some ==> after.model == json::str_member(thread->0, "model"@)
            &&& json::str_member(params, "model"@) is None && (thread is None || json::str_member(
                thread->0,
                "model"@,
            ) is None) ==> after.model == stream.model
            &&& after.seen_message_ids == stream.seen_message_ids
            &&& after.last_assistant_message_id == stream.last_assistant_message_id
        }),
{
}

/// A notification without parameters has the parameters null.
pub proof fn law_missing_parameters_are_null(object: Json)
    ensures
        json::member(object, "params"@) is None ==> codex::params_of(object) == Json::Null,
        json::member(object, "params"@) is Some ==> Some(codex::params_of(object)) == json::member(
            object,
            "params"@,
        ),
{
}

/// A message without a method is a response if it has an `id`: its `result` is told as the
/// system's and names model and conversation; without one its `error` is told, as a result's
/// that reports it; without either, and without an id, it is refused.
pub proof fn law_responses_tell_result_or_error(
    object: Json,
    stream: StreamView,
    rules: RulesView,
)
    requires
        json::str_member(object, "method"@) is None,
    ensures
        ({
            let after = codex::app_server_parse(object, stream, rules).0;
            let parse = codex::app_server_parse(object, stream, rules).1;
            let body = parse.outcome->Ok_0;
            let result = json::member(object, "result"@);
            let error = json::member(object, "error"@);
            let thread = json::member(result->0, "thread"@);
            let nested = if json::member(thread->0, "id"@) is Some {
                json::str_member(thread->0, "id"@)
            } else {
                json::str_member(thread->0, "sessionId"@)
            };
            &&& json::member(object, "id"@) is None ==> after == stream && parse.outcome == Err::<
                BodyView,
                Seq<char>,
            >("CODEX_APP_SERVER_MESSAGE_MISSING_METHOD_OR_ID: expected notification or response"@)
            &&& json::member(object, "id"@) is Some && result is Some ==> {
                &&& parse.outcome is Ok
                &&& parse.model == json::str_member(result->0, "model"@)
                &&& parse.turn_index is None
                &&& body.role == TranscriptRole::System
                &&& body.event_kind == "codex_app_server/response/result"@
                &&& rows::tells(body.content, json::json_writing(result->0), rules)
                &&& body.tool_calls.len() == 0
                &&& body.usage is None
                &&& body.source_error is None
                &&& json::str_member(result->0, "model"@) is Some ==> after.model
                    == json::str_member(result->0, "model"@)
                &&& json::str_member(result->0, "model"@) is None ==> after.model == stream.model
                &&& thread is Some && nested is Some ==> after.conversation_id == nested
                &&& thread is None || nested is None ==> after.conversation_id
                    == stream.conversation_id
                &&& after.turn_index == stream.turn_index
            }
            &&& json::member(object, "id"@) is Some && result is None && error is Some ==> {
                &&& after == stream
                &&& parse.outcome is Ok
                &&& parse.model is None
                &&& parse.turn_index is None
                &&& body.role == TranscriptRole::Result
                &&& body.event_kind == "codex_app_server/response/error"@
                &&& rows::tells(body.content, json::json_writing(error->0), rules)
                &&& body.source_error == Some(json::json_writing(error->0))
                &&& body.tool_calls.len() == 0
                &&& body.usage is None
            }
            &&& json::member(object, "id"@) is Some && result is None && error is None ==> after
                == stream && parse.outcome == Err::<BodyView, Seq<char>>(
                "CODEX_APP_SERVER_RESPONSE_MISSING_RESULT_OR_ERROR"@,
            )
        }),
{
}

} // verus!
