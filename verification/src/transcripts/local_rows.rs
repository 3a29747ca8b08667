//! What the row of a line of the local model runner says of that line.
use crate::json;
use crate::json::Json;
use crate::transcripts::local;
use crate::transcripts::record::{BodyView, RulesView, StreamView, TranscriptRole};
use crate::transcripts::rows;
use vstd::prelude::*;
use vstd::string::*;

verus! {

proof fn lemma_event_kinds()
    ensures
        "local.thread.started"@ != "local.turn.started"@,
        "local.thread.started"@ != "local.assistant.message"@,
        "local.thread.started"@ != "local.turn.finished"@,
        "local.thread.started"@ != "local.tool_call.started"@,
        "local.thread.started"@ != "local.tool_call.finished"@,
        "local.thread.started"@ != "local.tool_call.gate_bypassed"@,
        "local.thread.started"@ != "local.tool_call.arguments_normalized"@,
        "local.thread.started"@ != "local.tool_parse_error"@,
        "local.thread.started"@ != "local.context.truncated"@,
        "local.thread.started"@ != "local.steering.received"@,
        "local.thread.started"@ != "local.hold_open.started"@,
        "local.thread.started"@ != "local.hold_open.finished"@,
        "local.thread.started"@ != "local.agent.completed"@,
        "local.thread.started"@ != "local.error"@,
        "local.turn.started"@ != "local.assistant.message"@,
        "local.turn.started"@ != "local.turn.finished"@,
        "local.turn.started"@ != "local.tool_call.started"@,
        "local.turn.started"@ != "local.tool_call.finished"@,
        "local.turn.started"@ != "local.tool_call.gate_bypassed"@,
        "local.turn.started"@ != "local.tool_call.arguments_normalized"@,
        "local.turn.started"@ != "local.tool_parse_error"@,
        "local.turn.started"@ != "local.context.truncated"@,
        "local.turn.started"@ != "local.steering.received"@,
        "local.turn.started"@ != "local.hold_open.started"@,
        "local.turn.started"@ != "local.hold_open.finished"@,
        "local.turn.started"@ != "local.agent.completed"@,
        "local.turn.started"@ != "local.error"@,
        "local.assistant.message"@ != "local.turn.finished"@,
        "local.assistant.message"@ != "local.tool_call.started"@,
        "local.assistant.message"@ != "local.tool_call.finished"@,
        "local.assistant.message"@ != "local.tool_call.gate_bypassed"@,
        "local.assistant.message"@ != "local.tool_call.arguments_normalized"@,
        "local.assistant.message"@ != "local.tool_parse_error"@,
        "local.assistant.message"@ != "local.context.truncated"@,
        "local.assistant.message"@ != "local.steering.received"@,
        "local.assistant.message"@ != "local.hold_open.started"@,
        "local.assistant.message"@ != "local.hold_open.finished"@,
        "local.assistant.message"@ != "local.agent.completed"@,
        "local.assistant.message"@ != "local.error"@,
        "local.turn.finished"@ != "local.tool_call.started"@,
        "local.turn.finished"@ != "local.tool_call.finished"@,
        "local.turn.finished"@ != "local.tool_call.gate_bypassed"@,
        "local.turn.finished"@ != "local.tool_call.arguments_normalized"@,
        "local.turn.finished"@ != "local.tool_parse_error"@,
        "local.turn.finished"@ != "local.context.truncated"@,
        "local.turn.finished"@ != "local.steering.received"@,
        "local.turn.finished"@ != "local.hold_open.started"@,
        "local.turn.finished"@ != "local.hold_open.finished"@,
        "local.turn.finished"@ != "local.agent.completed"@,
        "local.turn.finished"@ != "local.error"@,
        "local.tool_call.started"@ != "local.tool_call.finished"@,
        "local.tool_call.started"@ != "local.tool_call.gate_bypassed"@,
        "local.tool_call.started"@ != "local.tool_call.arguments_normalized"@,
        "local.tool_call.started"@ != "local.tool_parse_error"@,
        "local.tool_call.started"@ != "local.context.truncated"@,
        "local.tool_call.started"@ != "local.steering.received"@,
        "local.tool_call.started"@ != "local.hold_open.started"@,
        "local.tool_call.started"@ != "local.hold_open.finished"@,
        "local.tool_call.started"@ != "local.agent.completed"@,
        "local.tool_call.started"@ != "local.error"@,
        "local.tool_call.finished"@ != "local.tool_call.gate_bypassed"@,
        "local.tool_call.finished"@ != "local.tool_call.arguments_normalized"@,
        "local.tool_call.finished"@ != "local.tool_parse_error"@,
        "local.tool_call.finished"@ != "local.context.truncated"@,
        "local.tool_call.finished"@ != "local.steering.received"@,
        "local.tool_call.finished"@ != "local.hold_open.started"@,
        "local.tool_call.finished"@ != "local.hold_open.finished"@,
        "local.tool_call.finished"@ != "local.agent.completed"@,
        "local.tool_call.finished"@ != "local.error"@,
        "local.tool_call.gate_bypassed"@ != "local.tool_call.arguments_normalized"@,
        "local.tool_call.gate_bypassed"@ != "local.tool_parse_error"@,
        "local.tool_call.gate_bypassed"@ != "local.context.truncated"@,
        "local.tool_call.gate_bypassed"@ != "local.steering.received"@,
        "local.tool_call.gate_bypassed"@ != "local.hold_open.started"@,
        "local.tool_call.gate_bypassed"@ != "local.hold_open.finished"@,
        "local.tool_call.gate_bypassed"@ != "local.agent.completed"@,
        "local.tool_call.gate_bypassed"@ != "local.error"@,
        "local.tool_call.arguments_normalized"@ != "local.tool_parse_error"@,
        "local.tool_call.arguments_normalized"@ != "local.context.truncated"@,
        "local.tool_call.arguments_normalized"@ != "local.steering.received"@,
        "local.tool_call.arguments_normalized"@ != "local.hold_open.started"@,
        "local.tool_call.arguments_normalized"@ != "local.hold_open.finished"@,
        "local.tool_call.arguments_normalized"@ != "local.agent.completed"@,
        "local.tool_call.arguments_normalized"@ != "local.error"@,
        "local.tool_parse_error"@ != "local.context.truncated"@,
        "local.tool_parse_error"@ != "local.steering.received"@,
        "local.tool_parse_error"@ != "local.hold_open.started"@,
        "local.tool_parse_error"@ != "local.hold_open.finished"@,
        "local.tool_parse_error"@ != "local.agent.completed"@,
        "local.tool_parse_error"@ != "local.error"@,
        "local.context.truncated"@ != "local.steering.received"@,
        "local.context.truncated"@ != "local.hold_open.started"@,
        "local.context.truncated"@ != "local.hold_open.finished"@,
        "local.context.truncated"@ != "local.agent.completed"@,
        "local.context.truncated"@ != "local.error"@,
        "local.steering.received"@ != "local.hold_open.started"@,
        "local.steering.received"@ != "local.hold_open.finished"@,
        "local.steering.received"@ != "local.agent.completed"@,
        "local.steering.received"@ != "local.error"@,
        "local.hold_open.started"@ != "local.hold_open.finished"@,
        "local.hold_open.started"@ != "local.agent.completed"@,
        "local.hold_open.started"@ != "local.error"@,
        "local.hold_open.finished"@ != "local.agent.completed"@,
        "local.hold_open.finished"@ != "local.error"@,
        "local.agent.completed"@ != "local.error"@,
{
    reveal_strlit("local.thread.started");
    reveal_strlit("local.turn.started");
    reveal_strlit("local.assistant.message");
    reveal_strlit("local.turn.finished");
    reveal_strlit("local.tool_call.started");
    reveal_strlit("local.tool_call.finished");
    reveal_strlit("local.tool_call.gate_bypassed");
    reveal_strlit("local.tool_call.arguments_normalized");
    reveal_strlit("local.tool_parse_error");
    reveal_strlit("local.context.truncated");
    reveal_strlit("local.steering.received");
    reveal_strlit("local.hold_open.started");
    reveal_strlit("local.hold_open.finished");
    reveal_strlit("local.agent.completed");
    reveal_strlit("local.error");
    assert("local.thread.started"@.len() == 20);
    assert("local.turn.started"@.len() == 18);
    assert("local.assistant.message"@.len() == 23);
    assert("local.turn.finished"@.len() == 19);
    assert("local.tool_call.started"@.len() == 23);
    assert("local.tool_call.finished"@.len() == 24);
    assert("local.tool_call.gate_bypassed"@.len() == 29);
    assert("local.tool_call.arguments_normalized"@.len() == 36);
    assert("local.tool_parse_error"@.len() == 22);
    assert("local.context.truncated"@.len() == 23);
    assert("local.steering.received"@.len() == 23);
    assert("local.hold_open.started"@.len() == 23);
    assert("local.hold_open.finished"@.len() == 24);
    assert("local.agent.completed"@.len() == 21);
    assert("local.error"@.len() == 11);
    assert("local.assistant.message"@[6] == 'a' && "local.tool_call.started"@[6] == 't');
    assert("local.assistant.message"@[6] == 'a' && "local.context.truncated"@[6] == 'c');
    assert("local.assistant.message"@[6] == 'a' && "local.steering.received"@[6] == 's');
    assert("local.assistant.message"@[6] == 'a' && "local.hold_open.started"@[6] == 'h');
    assert("local.tool_call.started"@[6] == 't' && "local.context.truncated"@[6] == 'c');
    assert("local.tool_call.started"@[6] == 't' && "local.steering.received"@[6] == 's');
    assert("local.tool_call.started"@[6] == 't' && "local.hold_open.started"@[6] == 'h');
    assert("local.tool_call.finished"@[6] == 't' && "local.hold_open.finished"@[6] == 'h');
    assert("local.context.truncated"@[6] == 'c' && "local.steering.received"@[6] == 's');
    assert("local.context.truncated"@[6] == 'c' && "local.hold_open.started"@[6] == 'h');
    assert("local.steering.received"@[6] == 's' && "local.hold_open.started"@[6] == 'h');
}

/// The string member under a name, where it is there and not empty.
pub open spec fn given_text(object: Json, name: Seq<char>) -> bool {
    json::str_member(object, name) is Some && json::str_member(object, name)->0.len() > 0
}

/// Why a line is refused that lacks a text which it must have.
pub open spec fn text_wanted(name: Seq<char>) -> Seq<char> {
    "required string field \""@ + name + "\" is missing or empty"@
}

/// Why a line is refused that lacks a number which it must have.
pub open spec fn number_wanted(name: Seq<char>) -> Seq<char> {
    "required u64 field \""@ + name + "\" is missing or invalid"@
}

/// Each line names, where it does, the conversation, the model and the turn of the stream;
/// what it does not name stays. Its row has the model and the turn that the line itself
/// names. A line without a string `type` is refused and leaves the stream.
pub proof fn law_local_lines_move_the_stream(object: Json, stream: StreamView, rules: RulesView)
    ensures
        ({
            let after = local::local_parse(object, stream, rules).0;
            let parse = local::local_parse(object, stream, rules).1;
            &&& json::str_member(object, "type"@) is None ==> after == stream && parse.model is None
                && parse.turn_index is None && parse.outcome == Err::<BodyView, Seq<char>>(
                "MISSING_TYPE: line has no string `type` field"@,
            )
            &&& json::str_member(object, "type"@) is Some ==> {
                &&& parse.model == json::str_member(object, "model"@)
                &&& parse.turn_index == json::u64_member(object, "turn_index"@)
                &&& json::str_member(object, "conversation_id"@) is Some ==> after.conversation_id
                    == json::str_member(object, "conversation_id"@)
                &&& json::str_member(object, "conversation_id"@) is None ==> after.conversation_id
                    == stream.conversation_id
                &&& json::str_member(object, "model"@) is Some ==> after.model == json::str_member(
                    object,
                    "model"@,
                )
                &&& json::str_member(object, "model"@) is None ==> after.model == stream.model
                &&& json::u64_member(object, "turn_index"@) is Some ==> Some(after.turn_index)
                    == json::u64_member(object, "turn_index"@)
                &&& json::u64_member(object, "turn_index"@) is None ==> after.turn_index
                    == stream.turn_index
                &&& after.seen_message_ids == stream.seen_message_ids
                &&& after.last_assistant_message_id == stream.last_assistant_message_id
            }
        }),
{
}

/// The rows of a started thread and a started turn say nothing; that of an assistant's
/// message tells its string `content`; that of a finished turn counts the prompt and the
/// completion of its `usage`, and is refused without one.
pub proof fn law_turn_rows_tell_content_and_usage(
    object: Json,
    stream: StreamView,
    rules: RulesView,
    kind: Seq<char>,
)
    requires
        json::str_member(object, "type"@) == Some(kind),
    ensures
        ({
            let outcome = local::local_parse(object, stream, rules).1.outcome;
            let body = outcome->Ok_0;
            let usage = json::member(object, "usage"@);
            &&& kind == "local.thread.started"@ || kind == "local.turn.started"@ ==> {
                &&& outcome is Ok
                &&& body.role == TranscriptRole::System
                &&& body.event_kind == kind
                &&& rows::says_nothing(body)
            }
            &&& kind == "local.assistant.message"@ ==> {
                &&& outcome is Ok
                &&& body.role == TranscriptRole::Assistant
                &&& body.event_kind == kind
                &&& rows::tells_if_any(body.content, json::str_member(object, "content"@), rules)
                &&& body.tool_calls.len() == 0
                &&& body.usage is None
                &&& body.source_error is None
            }
            &&& kind == "local.turn.finished"@ && usage is None ==> outcome == Err::<
                BodyView,
                Seq<char>,
            >("LOCAL_TURN_FINISHED_MISSING_USAGE"@)
            &&& kind == "local.turn.finished"@ && usage is Some ==> {
                &&& outcome is Ok
                &&& body.role == TranscriptRole::Result
                &&& body.event_kind == kind
                &&& body.usage is Some
                &&& body.usage->0.input_tokens == json::u64_member(usage->0, "prompt_tokens"@)
                &&& body.usage->0.output_tokens == json::u64_member(usage->0, "completion_tokens"@)
                &&& body.usage->0.cache_read_input_tokens is None
                &&& body.usage->0.cache_creation_input_tokens is None
                &&& body.usage->0.cache_creation_5m_input_tokens is None
                &&& body.usage->0.cache_creation_1h_input_tokens is None
                &&& body.usage->0.reasoning_output_tokens is None
                &&& body.usage->0.total_cost_usd is None
                &&& body.usage->0.model_usage.len() == 0
                &&& body.content is None
                &&& body.tool_calls.len() == 0
                &&& body.source_error is None
            }
        }),
{
    lemma_event_kinds();
}

/// The body is a tool's with one call, under the tool and the id that the line names, and
/// without an exit code.
pub open spec fn is_call_body(body: BodyView, object: Json, kind: Seq<char>) -> bool {
    &&& body.role == TranscriptRole::Tool
    &&& body.event_kind == kind
    &&& body.content is None
    &&& body.usage is None
    &&& body.source_error is None
    &&& body.tool_calls.len() == 1
    &&& Some(body.tool_calls[0].tool_name) == json::str_member(object, "tool_name"@)
    &&& body.tool_calls[0].tool_call_id == json::str_member(object, "tool_call_id"@)
    &&& body.tool_calls[0].exit_code is None
}

/// The row of a started tool call has the `arguments` and the status `started`, that of a
/// finished one the `result`, if it is there, and the `status` of the line, that of a
/// bypassed gate the reason of the bypass as its status. Without a tool name each is refused.
pub proof fn law_tool_rows_tell_their_call(
    object: Json,
    stream: StreamView,
    rules: RulesView,
    kind: Seq<char>,
)
    requires
        json::str_member(object, "type"@) == Some(kind),
    ensures
        ({
            let outcome = local::local_parse(object, stream, rules).1.outcome;
            let body = outcome->Ok_0;
            let named = given_text(object, "tool_name"@);
            let result = json::member(object, "result"@);
            &&& !named && (kind == "local.tool_call.started"@ || kind == "local.tool_call.finished"@
                || kind == "local.tool_call.gate_bypassed"@ || kind
                == "local.tool_call.arguments_normalized"@) ==> outcome == Err::<BodyView, Seq<char>>(
                text_wanted("tool_name"@),
            )
            &&& named && kind == "local.tool_call.started"@ ==> {
                &&& outcome is Ok
                &&& is_call_body(body, object, kind)
                &&& rows::has_arguments(
                    body.tool_calls[0],
                    json::member(object, "arguments"@),
                    rules.max_tool_args_chars,
                )
                &&& rows::lacks_result(body.tool_calls[0])
                &&& body.tool_calls[0].status == Some("started"@)
            }
            &&& named && kind == "local.tool_call.finished"@ ==> {
                &&& outcome is Ok
                &&& is_call_body(body, object, kind)
                &&& rows::lacks_arguments(body.tool_calls[0])
                &&& result is Some ==> rows::has_result(
                    body.tool_calls[0],
                    result,
                    rules.max_tool_result_chars,
                )
                &&& result is None ==> rows::lacks_result(body.tool_calls[0])
                &&& body.tool_calls[0].status == json::str_member(object, "status"@)
            }
            &&& named && kind == "local.tool_call.gate_bypassed"@ ==> {
                &&& outcome is Ok
                &&& is_call_body(body, object, kind)
                &&& rows::lacks_arguments(body.tool_calls[0])
                &&& rows::lacks_result(body.tool_calls[0])
                &&& json::str_member(object, "reason_code"@) is Some ==> body.tool_calls[0].status
                    == Some("gate_bypassed:"@ + json::str_member(object, "reason_code"@)->0)
                &&& json::str_member(object, "reason_code"@) is None ==> body.tool_calls[0].status
                    == Some("gate_bypassed:"@ + "gate_bypassed"@)
            }
        }),
{
    lemma_event_kinds();
}

/// The row of normalized arguments has, as its arguments, the object that the line holds
/// under the first of `contract_arguments`, `attributed_arguments` and `model_arguments` that
/// is there; its status names the reason. It is refused without a reason, where none of the
/// three is there, and where the first that is there is no object.
pub proof fn law_normalized_arguments_are_told(
    object: Json,
    stream: StreamView,
    rules: RulesView,
)
    requires
        json::str_member(object, "type"@) == Some("local.tool_call.arguments_normalized"@),
        given_text(object, "tool_name"@),
    ensures
        ({
            let outcome = local::local_parse(object, stream, rules).1.outcome;
            let body = outcome->Ok_0;
            let contract = json::member(object, "contract_arguments"@);
            let attributed = json::member(object, "attributed_arguments"@);
            let model = json::member(object, "model_arguments"@);
            let reasoned = given_text(object, "reason_code"@);
            let found = if contract is Some {
                contract
            } else if attributed is Some {
                attributed
            } else {
                model
            };
            let under = if contract is Some {
                "contract_arguments"@
            } else if attributed is Some {
                "attributed_arguments"@
            } else {
                "model_arguments"@
            };
            &&& !reasoned ==> outcome == Err::<BodyView, Seq<char>>(text_wanted("reason_code"@))
            &&& reasoned && found is None ==> outcome == Err::<BodyView, Seq<char>>(
                "one of required object fields [\"contract_arguments\", \"attributed_arguments\", \"model_arguments\"] is missing"@,
            )
            &&& reasoned && found is Some && found->0 !is Object ==> outcome == Err::<
                BodyView,
                Seq<char>,
            >("required object field \""@ + under + "\" is present but not an object"@)
            &&& reasoned && found is Some && found->0 is Object ==> {
                &&& outcome is Ok
                &&& is_call_body(body, object, "local.tool_call.arguments_normalized"@)
                &&& rows::has_arguments(body.tool_calls[0], found, rules.max_tool_args_chars)
                &&& rows::lacks_result(body.tool_calls[0])
                &&& body.tool_calls[0].status == Some(
                    "arguments_normalized:"@ + json::str_member(object, "reason_code"@)->0,
                )
            }
        }),
{
    lemma_event_kinds();
}

/// The row of a call that could not be read is a tool's with one call in error, under the
/// tool that the line names or `unknown`, and reports the `error_detail` of the line.
pub proof fn law_unreadable_calls_are_reported(object: Json, stream: StreamView, rules: RulesView)
    requires
        json::str_member(object, "type"@) == Some("local.tool_parse_error"@),
    ensures
        ({
            let outcome = local::local_parse(object, stream, rules).1.outcome;
            let body = outcome->Ok_0;
            &&& outcome is Ok
            &&& body.role == TranscriptRole::Tool
            &&& body.event_kind == "local.tool_parse_error"@
            &&& body.content is None
            &&& body.usage is None
            &&& body.tool_calls.len() == 1
            &&& json::str_member(object, "tool_name"@) is Some ==> Some(
                body.tool_calls[0].tool_name,
            ) == json::str_member(object, "tool_name"@)
            &&& json::str_member(object, "tool_name"@) is None ==> body.tool_calls[0].tool_name
                == "unknown"@
            &&& body.tool_calls[0].tool_call_id == json::str_member(object, "tool_call_id"@)
            &&& body.tool_calls[0].status == Some("error"@)
            &&& body.tool_calls[0].exit_code is None
            &&& rows::lacks_arguments(body.tool_calls[0])
            &&& rows::lacks_result(body.tool_calls[0])
            &&& json::str_member(object, "error_detail"@) is Some ==> body.source_error
                == json::str_member(object, "error_detail"@)
            &&& json::str_member(object, "error_detail"@) is None ==> body.source_error == Some(
                "MODEL_TOOL_ARGUMENTS_INVALID"@,
            )
        }),
{
    lemma_event_kinds();
}

/// The row of a truncated context tells the line itself; that of received steering its
/// `payload_summary`, or the line itself, and is refused without a `message_id` or a `kind`;
/// that of a completed agent tells its `final_message`, which it must have; an error reports
/// its `error_detail`, its `error_code`, or a fixed text.
pub proof fn law_runner_rows_tell_their_line(
    object: Json,
    stream: StreamView,
    rules: RulesView,
    kind: Seq<char>,
)
    requires
        json::str_member(object, "type"@) == Some(kind),
    ensures
        ({
            let outcome = local::local_parse(object, stream, rules).1.outcome;
            let body = outcome->Ok_0;
            &&& kind == "local.context.truncated"@ ==> {
                &&& outcome is Ok
                &&& body.role == TranscriptRole::System
                &&& body.event_kind == kind
                &&& rows::tells(body.content, json::json_writing(object), rules)
                &&& body.tool_calls.len() == 0
                &&& body.usage is None
                &&& body.source_error is None
            }
            &&& kind == "local.steering.received"@ && !given_text(object, "message_id"@) ==> outcome
                == Err::<BodyView, Seq<char>>(text_wanted("message_id"@))
            &&& kind == "local.steering.received"@ && given_text(object, "message_id"@)
                && !given_text(object, "kind"@) ==> outcome == Err::<BodyView, Seq<char>>(
                text_wanted("kind"@),
            )
            &&& kind == "local.steering.received"@ && given_text(object, "message_id"@)
                && given_text(object, "kind"@) ==> {
                &&& outcome is Ok
                &&& body.role == TranscriptRole::System
                &&& body.event_kind == kind
                &&& json::str_member(object, "payload_summary"@) is Some ==> rows::tells(
                    body.content,
                    json::str_member(object, "payload_summary"@)->0,
                    rules,
                )
                &&& json::str_member(object, "payload_summary"@) is None ==> rows::tells(
                    body.content,
                    json::json_writing(object),
                    rules,
                )
                &&& body.tool_calls.len() == 0
                &&& body.usage is None
                &&& body.source_error is None
            }
            &&& kind == "local.agent.completed"@ && !given_text(object, "final_message"@) ==> outcome
                == Err::<BodyView, Seq<char>>(text_wanted("final_message"@))
            &&& kind == "local.agent.completed"@ && given_text(object, "final_message"@) ==> {
                &&& outcome is Ok
                &&& body.role == TranscriptRole::Result
                &&& body.event_kind == kind
                &&& rows::tells(
                    body.content,
                    json::str_member(object, "final_message"@)->0,
                    rules,
                )
                &&& body.tool_calls.len() == 0
                &&& body.usage is None
                &&& body.source_error is None
            }
            &&& kind == "local.error"@ ==> {
                let detail = json::str_member(object, "error_detail"@);
                let code = json::str_member(object, "error_code"@);
                &&& outcome is Ok
                &&& body.role == TranscriptRole::Result
                &&& body.event_kind == kind
                &&& body.content is None
                &&& body.tool_calls.len() == 0
                &&& body.usage is None
                &&& detail is Some ==> body.source_error == detail
                &&& detail is None && code is Some ==> body.source_error == code
                &&& detail is None && code is None ==> body.source_error == Some(
                    "local model runner error"@,
                )
            }
        }),
{
    lemma_event_kinds();
}

/// A session that is held open has its id, its length and its start, and at its end the
/// time of the end too; the first of these that is missing refuses the line, and the row
/// tells the line itself. A line of any other type is refused.
pub proof fn law_held_sessions_have_their_times(
    object: Json,
    stream: StreamView,
    rules: RulesView,
    kind: Seq<char>,
)
    requires
        json::str_member(object, "type"@) == Some(kind),
    ensures
        ({
            let outcome = local::local_parse(object, stream, rules).1.outcome;
            let body = outcome->Ok_0;
            let held = kind == "local.hold_open.started"@ || kind == "local.hold_open.finished"@;
            let named = given_text(object, "session_id"@);
            let length = json::u64_member(object, "hold_open_ms"@) is Some;
            let start = json::u64_member(object, "started_at_unix_ms"@) is Some;
            let end = json::u64_member(object, "finished_at_unix_ms"@) is Some;
            &&& held && !named ==> outcome == Err::<BodyView, Seq<char>>(text_wanted("session_id"@))
            &&& held && named && !length ==> outcome == Err::<BodyView, Seq<char>>(
                number_wanted("hold_open_ms"@),
            )
            &&& held && named && length && !start ==> outcome == Err::<BodyView, Seq<char>>(
                number_wanted("started_at_unix_ms"@),
            )
            &&& kind == "local.hold_open.finished"@ && named && length && start && !end ==> outcome
                == Err::<BodyView, Seq<char>>(number_wanted("finished_at_unix_ms"@))
            &&& held && named && length && start && (end || kind == "local.hold_open.started"@) ==> {
                &&& outcome is Ok
                &&& body.role == TranscriptRole::System
                &&& body.event_kind == kind
                &&& rows::tells(body.content, json::json_writing(object), rules)
                &&& body.tool_calls.len() == 0
                &&& body.usage is None
                &&& body.source_error is None
            }
            &&& kind != "local.thread.started"@ && kind != "local.turn.started"@ && kind != "local.assistant.message"@ && kind != "local.turn.finished"@ && kind != "local.tool_call.started"@ && kind != "local.tool_call.finished"@ && kind != "local.tool_call.gate_bypassed"@ && kind != "local.tool_call.arguments_normalized"@ && kind != "local.tool_parse_error"@ && kind != "local.context.truncated"@ && kind != "local.steering.received"@ && kind != "local.hold_open.started"@ && kind != "local.hold_open.finished"@ && kind != "local.agent.completed"@ && kind != "local.error"@ ==> outcome == Err::<BodyView, Seq<char>>(
                "UNKNOWN_EVENT_TYPE: "@ + kind,
            )
        }),
{
    lemma_event_kinds();
}

} // verus!
