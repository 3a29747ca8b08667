//! The stream vocabulary of the local model runner.
use crate::json;
use crate::json::{Json, member_of, str_member_of, string_member_of, u64_member_of, write_json};
use crate::text;
use crate::text::{joined, str_equal};
use crate::transcripts::record;
use crate::transcripts::record::{
    BodyView, LineBody, LineParse, ParseView, RulesView, StreamState, StreamView, ToolCallView,
    TranscriptRole, TranscriptRules, TranscriptToolCall, TranscriptUsage, UsageView, new_call,
    refuse, set_arguments, set_result,
};
use vstd::prelude::*;
use vstd::string::*;

verus! {

/// A string member that must be there and not be empty.
pub open spec fn required_str(object: Json, name: Seq<char>) -> Result<Seq<char>, Seq<char>> {
    match json::str_member(object, name) {
        Some(text) => if text.len() > 0 {
            Ok(text)
        } else {
            Err("required string field \""@ + name + "\" is missing or empty"@)
        },
        None => Err("required string field \""@ + name + "\" is missing or empty"@),
    }
}

/// The view of a required string.
pub open spec fn text_outcome(outcome: Result<&str, String>) -> Result<Seq<char>, Seq<char>> {
    match outcome {
        Ok(text) => Ok(text@),
        Err(refusal) => Err(refusal@),
    }
}

/// The string member `name`, which must be there and not be empty.
pub fn required_local_str<'a>(object: &'a Json, name: &str) -> (outcome: Result<&'a str, String>)
    ensures
        text_outcome(outcome) == required_str(*object, name@),
{
    if let Some(text) = str_member_of(object, name) {
        if text.unicode_len() > 0 {
            return Ok(text);
        }
    }
    let mut refusal = joined("required string field \"", name);
    refusal.append("\" is missing or empty");
    Err(refusal)
}

/// An unsigned member that must be there.
pub open spec fn required_u64(object: Json, name: Seq<char>) -> Result<u64, Seq<char>> {
    match json::u64_member(object, name) {
        Some(number) => Ok(number),
        None => Err("required u64 field \""@ + name + "\" is missing or invalid"@),
    }
}

/// The view of a required number.
pub open spec fn number_outcome(outcome: Result<u64, String>) -> Result<u64, Seq<char>> {
    match outcome {
        Ok(number) => Ok(number),
        Err(refusal) => Err(refusal@),
    }
}

/// The unsigned member `name`, which must be there.
pub fn required_local_u64(object: &Json, name: &str) -> (outcome: Result<u64, String>)
    ensures
        number_outcome(outcome) == required_u64(*object, name@),
{
    if let Some(number) = u64_member_of(object, name) {
        return Ok(number);
    }
    let mut refusal = joined("required u64 field \"", name);
    refusal.append("\" is missing or invalid");
    Err(refusal)
}

/// What is said of a value that should be an object.
pub open spec fn not_an_object(name: Seq<char>) -> Seq<char> {
    "required object field \""@ + name + "\" is present but not an object"@
}

/// A member that is an object, or the refusal of one that is not.
pub open spec fn object_or_refusal(value: Json, name: Seq<char>) -> Result<Json, Seq<char>> {
    if value is Object {
        Ok(value)
    } else {
        Err(not_an_object(name))
    }
}

/// The arguments of a call after they were put in order: the first of the three
/// members that is there, and it must be an object.
pub open spec fn normalized_arguments(object: Json) -> Result<Json, Seq<char>> {
    match json::member(object, "contract_arguments"@) {
        Some(value) => object_or_refusal(value, "contract_arguments"@),
        None => match json::member(object, "attributed_arguments"@) {
            Some(value) => object_or_refusal(value, "attributed_arguments"@),
            None => match json::member(object, "model_arguments"@) {
                Some(value) => object_or_refusal(value, "model_arguments"@),
                None => Err(
                    "one of required object fields [\"contract_arguments\", \"attributed_arguments\", \"model_arguments\"] is missing"@,
                ),
            },
        },
    }
}

/// The view of required arguments.
pub open spec fn json_outcome(outcome: Result<&Json, String>) -> Result<Json, Seq<char>> {
    match outcome {
        Ok(value) => Ok(*value),
        Err(refusal) => Err(refusal@),
    }
}

fn require_object<'a>(value: &'a Json, name: &str) -> (outcome: Result<&'a Json, String>)
    ensures
        json_outcome(outcome) == object_or_refusal(*value, name@),
{
    match value {
        Json::Object(_) => Ok(value),
        _ => {
            let mut refusal = joined("required object field \"", name);
            refusal.append("\" is present but not an object");
            Err(refusal)
        },
    }
}

/// The arguments of a call after they were put in order.
pub fn required_local_normalized_arguments<'a>(object: &'a Json) -> (outcome: Result<
    &'a Json,
    String,
>)
    ensures
        json_outcome(outcome) == normalized_arguments(*object),
{
    if let Some(value) = member_of(object, "contract_arguments") {
        return require_object(value, "contract_arguments");
    }
    if let Some(value) = member_of(object, "attributed_arguments") {
        return require_object(value, "attributed_arguments");
    }
    if let Some(value) = member_of(object, "model_arguments") {
        return require_object(value, "model_arguments");
    }
    Err(
        "one of required object fields [\"contract_arguments\", \"attributed_arguments\", \"model_arguments\"] is missing".to_owned(),
    )
}

/// The stream after a line: its conversation, model and turn where it names
/// them, whether or not the line is refused.
pub open spec fn after_local(object: Json, stream: StreamView) -> StreamView {
    StreamView {
        conversation_id: match json::str_member(object, "conversation_id"@) {
            Some(id) => Some(id),
            None => stream.conversation_id,
        },
        model: match json::str_member(object, "model"@) {
            Some(model) => Some(model),
            None => stream.model,
        },
        turn_index: match json::u64_member(object, "turn_index"@) {
            Some(turn) => turn,
            None => stream.turn_index,
        },
        ..stream
    }
}

/// A tool call of a line that must name its tool.
pub open spec fn local_call(object: Json) -> Result<ToolCallView, Seq<char>> {
    match required_str(object, "tool_name"@) {
        Err(refusal) => Err(refusal),
        Ok(name) => Ok(record::named_call(name, json::str_member(object, "tool_call_id"@))),
    }
}

/// The view of a read call.
pub open spec fn local_call_outcome(outcome: Result<TranscriptToolCall, String>) -> Result<
    ToolCallView,
    Seq<char>,
> {
    match outcome {
        Ok(call) => Ok(call@),
        Err(refusal) => Err(refusal@),
    }
}

fn read_local_call(object: &Json) -> (outcome: Result<TranscriptToolCall, String>)
    ensures
        local_call_outcome(outcome) == local_call(*object),
{
    match required_local_str(object, "tool_name") {
        Err(refusal) => Err(refusal),
        Ok(name) => Ok(new_call(name.to_owned(), string_member_of(object, "tool_call_id"))),
    }
}

/// A string member, or what stands for it.
pub open spec fn str_or(object: Json, name: Seq<char>, otherwise: Seq<char>) -> Seq<char> {
    match json::str_member(object, name) {
        Some(text) => text,
        None => otherwise,
    }
}

fn read_str_or<'a>(object: &'a Json, name: &str, otherwise: &'a str) -> (text: &'a str)
    ensures
        text@ == str_or(*object, name@, otherwise@),
{
    match str_member_of(object, name) {
        Some(text) => text,
        None => otherwise,
    }
}

/// The body of a line about a tool call, or why it has none.
pub open spec fn tool_event(kind: Seq<char>, object: Json, rules: RulesView) -> Result<
    BodyView,
    Seq<char>,
> {
    let plain = record::plain_body(TranscriptRole::Tool, kind);
    if kind == "local.tool_call.started"@ {
        match local_call(object) {
            Err(refusal) => Err(refusal),
            Ok(call) => Ok(
                record::with_call(
                    plain,
                    ToolCallView {
                        status: Some("started"@),
                        ..record::with_arguments(
                            call,
                            record::bounded_or_empty(
                                json::member(object, "arguments"@),
                                rules.max_tool_args_chars,
                            ),
                        )
                    },
                ),
            ),
        }
    } else if kind == "local.tool_call.finished"@ {
        match local_call(object) {
            Err(refusal) => Err(refusal),
            Ok(call) => Ok(
                record::with_call(
                    plain,
                    ToolCallView {
                        status: json::str_member(object, "status"@),
                        ..(match json::member(object, "result"@) {
                            Some(result) => record::with_result(
                                call,
                                record::bounded_value(result, rules.max_tool_result_chars),
                            ),
                            None => call,
                        })
                    },
                ),
            ),
        }
    } else if kind == "local.tool_call.gate_bypassed"@ {
        match local_call(object) {
            Err(refusal) => Err(refusal),
            Ok(call) => Ok(
                record::with_call(
                    plain,
                    ToolCallView {
                        status: Some(
                            "gate_bypassed:"@ + str_or(object, "reason_code"@, "gate_bypassed"@),
                        ),
                        ..call
                    },
                ),
            ),
        }
    } else if kind == "local.tool_call.arguments_normalized"@ {
        match local_call(object) {
            Err(refusal) => Err(refusal),
            Ok(call) => match required_str(object, "reason_code"@) {
                Err(refusal) => Err(refusal),
                Ok(reason) => match normalized_arguments(object) {
                    Err(refusal) => Err(refusal),
                    Ok(arguments) => Ok(
                        record::with_call(
                            plain,
                            ToolCallView {
                                status: Some("arguments_normalized:"@ + reason),
                                ..record::with_arguments(
                                    call,
                                    record::bounded_value(arguments, rules.max_tool_args_chars),
                                )
                            },
                        ),
                    ),
                },
            },
        }
    } else {
        Ok(
            BodyView {
                source_error: Some(
                    str_or(object, "error_detail"@, "MODEL_TOOL_ARGUMENTS_INVALID"@),
                ),
                ..record::with_call(
                    plain,
                    ToolCallView {
                        status: Some("error"@),
                        ..record::named_call(
                            str_or(object, "tool_name"@, "unknown"@),
                            json::str_member(object, "tool_call_id"@),
                        )
                    },
                )
            },
        )
    }
}

fn read_tool_event(kind: &str, object: &Json, rules: &TranscriptRules) -> (outcome: Result<
    LineBody,
    String,
>)
    ensures
        record::outcome_view(outcome) == tool_event(kind@, *object, rules@),
{
    let mut body = LineBody::plain(TranscriptRole::Tool, kind.to_owned());
    if str_equal(kind, "local.tool_call.started") {
        let mut call = match read_local_call(object) {
            Ok(call) => call,
            Err(refusal) => {
                return Err(refusal);
            },
        };
        set_arguments(&mut call, member_of(object, "arguments"), rules.max_tool_args_chars);
        call.status = Some("started".to_owned());
        body.push_call(call);
        Ok(body)
    } else if str_equal(kind, "local.tool_call.finished") {
        let mut call = match read_local_call(object) {
            Ok(call) => call,
            Err(refusal) => {
                return Err(refusal);
            },
        };
        if let Some(result) = member_of(object, "result") {
            set_result(&mut call, Some(result), rules.max_tool_result_chars);
        }
        call.status = string_member_of(object, "status");
        body.push_call(call);
        Ok(body)
    } else if str_equal(kind, "local.tool_call.gate_bypassed") {
        let mut call = match read_local_call(object) {
            Ok(call) => call,
            Err(refusal) => {
                return Err(refusal);
            },
        };
        call.status = Some(
            joined("gate_bypassed:", read_str_or(object, "reason_code", "gate_bypassed")),
        );
        body.push_call(call);
        Ok(body)
    } else if str_equal(kind, "local.tool_call.arguments_normalized") {
        let mut call = match read_local_call(object) {
            Ok(call) => call,
            Err(refusal) => {
                return Err(refusal);
            },
        };
        let reason = match required_local_str(object, "reason_code") {
            Ok(reason) => reason,
            Err(refusal) => {
                return Err(refusal);
            },
        };
        let arguments = match required_local_normalized_arguments(object) {
            Ok(arguments) => arguments,
            Err(refusal) => {
                return Err(refusal);
            },
        };
        set_arguments(&mut call, Some(arguments), rules.max_tool_args_chars);
        call.status = Some(joined("arguments_normalized:", reason));
        body.push_call(call);
        Ok(body)
    } else {
        let mut call = new_call(
            read_str_or(object, "tool_name", "unknown").to_owned(),
            string_member_of(object, "tool_call_id"),
        );
        call.status = Some("error".to_owned());
        body.push_call(call);
        body.source_error = Some(
            read_str_or(object, "error_detail", "MODEL_TOOL_ARGUMENTS_INVALID").to_owned(),
        );
        Ok(body)
    }
}

/// What an agent held open must say, if anything is missing.
pub open spec fn hold_open_refusal(kind: Seq<char>, object: Json) -> Option<Seq<char>> {
    match required_str(object, "session_id"@) {
        Err(refusal) => Some(refusal),
        Ok(_) => match required_u64(object, "hold_open_ms"@) {
            Err(refusal) => Some(refusal),
            Ok(_) => match required_u64(object, "started_at_unix_ms"@) {
                Err(refusal) => Some(refusal),
                Ok(_) => if kind == "local.hold_open.finished"@ {
                    match required_u64(object, "finished_at_unix_ms"@) {
                        Err(refusal) => Some(refusal),
                        Ok(_) => None,
                    }
                } else {
                    None
                },
            },
        },
    }
}

fn check_hold_open(kind: &str, object: &Json) -> (refusal: Option<String>)
    ensures
        text::opt_text(refusal) == hold_open_refusal(kind@, *object),
{
    if let Err(refusal) = required_local_str(object, "session_id") {
        return Some(refusal);
    }
    if let Err(refusal) = required_local_u64(object, "hold_open_ms") {
        return Some(refusal);
    }
    if let Err(refusal) = required_local_u64(object, "started_at_unix_ms") {
        return Some(refusal);
    }
    if str_equal(kind, "local.hold_open.finished") {
        if let Err(refusal) = required_local_u64(object, "finished_at_unix_ms") {
            return Some(refusal);
        }
    }
    None
}

/// The body of a line, or why it has none.
pub open spec fn local_event(kind: Seq<char>, object: Json, rules: RulesView) -> Result<
    BodyView,
    Seq<char>,
> {
    let system = record::plain_body(TranscriptRole::System, kind);
    let result = record::plain_body(TranscriptRole::Result, kind);
    if kind == "local.thread.started"@ || kind == "local.turn.started"@ {
        Ok(system)
    } else if kind == "local.assistant.message"@ {
        Ok(
            record::with_opt_content(
                record::plain_body(TranscriptRole::Assistant, kind),
                json::str_member(object, "content"@),
                rules,
            ),
        )
    } else if kind == "local.turn.finished"@ {
        match json::member(object, "usage"@) {
            None => Err("LOCAL_TURN_FINISHED_MISSING_USAGE"@),
            Some(usage) => Ok(
                BodyView {
                    usage: Some(
                        UsageView {
                            input_tokens: json::u64_member(usage, "prompt_tokens"@),
                            output_tokens: json::u64_member(usage, "completion_tokens"@),
                            ..record::no_usage()
                        },
                    ),
                    ..result
                },
            ),
        }
    } else if kind == "local.tool_call.started"@ || kind == "local.tool_call.finished"@ || kind
        == "local.tool_call.gate_bypassed"@ || kind == "local.tool_call.arguments_normalized"@
        || kind == "local.tool_parse_error"@ {
        tool_event(kind, object, rules)
    } else if kind == "local.context.truncated"@ {
        Ok(record::with_content(system, json::json_writing(object), rules))
    } else if kind == "local.steering.received"@ {
        match required_str(object, "message_id"@) {
            Err(refusal) => Err(refusal),
            Ok(_) => match required_str(object, "kind"@) {
                Err(refusal) => Err(refusal),
                Ok(_) => Ok(
                    record::with_content(
                        system,
                        str_or(object, "payload_summary"@, json::json_writing(object)),
                        rules,
                    ),
                ),
            },
        }
    } else if kind == "local.hold_open.started"@ || kind == "local.hold_open.finished"@ {
        match hold_open_refusal(kind, object) {
            Some(refusal) => Err(refusal),
            None => Ok(record::with_content(system, json::json_writing(object), rules)),
        }
    } else if kind == "local.agent.completed"@ {
        match required_str(object, "final_message"@) {
            Err(refusal) => Err(refusal),
            Ok(message) => Ok(record::with_content(result, message, rules)),
        }
    } else if kind == "local.error"@ {
        Ok(
            BodyView {
                source_error: Some(
                    match json::str_member(object, "error_detail"@) {
                        Some(detail) => detail,
                        None => str_or(object, "error_code"@, "local model runner error"@),
                    },
                ),
                ..result
            },
        )
    } else {
        Err("UNKNOWN_EVENT_TYPE: "@ + kind)
    }
}

fn read_local_event(kind: &str, object: &Json, rules: &TranscriptRules) -> (outcome: Result<
    LineBody,
    String,
>)
    ensures
        record::outcome_view(outcome) == local_event(kind@, *object, rules@),
{
    if str_equal(kind, "local.thread.started") || str_equal(kind, "local.turn.started") {
        Ok(LineBody::plain(TranscriptRole::System, kind.to_owned()))
    } else if str_equal(kind, "local.assistant.message") {
        let mut body = LineBody::plain(TranscriptRole::Assistant, kind.to_owned());
        body.set_opt_content(str_member_of(object, "content"), rules);
        Ok(body)
    } else if str_equal(kind, "local.turn.finished") {
        match member_of(object, "usage") {
            None => Err("LOCAL_TURN_FINISHED_MISSING_USAGE".to_owned()),
            Some(usage) => {
                let mut body = LineBody::plain(TranscriptRole::Result, kind.to_owned());
                let mut accounted = TranscriptUsage::none();
                accounted.input_tokens = u64_member_of(usage, "prompt_tokens");
                accounted.output_tokens = u64_member_of(usage, "completion_tokens");
                body.usage = Some(accounted);
                Ok(body)
            },
        }
    } else if str_equal(kind, "local.tool_call.started") || str_equal(
        kind,
        "local.tool_call.finished",
    ) || str_equal(kind, "local.tool_call.gate_bypassed") || str_equal(
        kind,
        "local.tool_call.arguments_normalized",
    ) || str_equal(kind, "local.tool_parse_error") {
        read_tool_event(kind, object, rules)
    } else if str_equal(kind, "local.context.truncated") {
        let mut body = LineBody::plain(TranscriptRole::System, kind.to_owned());
        body.set_content(write_json(object).as_str(), rules);
        Ok(body)
    } else if str_equal(kind, "local.steering.received") {
        if let Err(refusal) = required_local_str(object, "message_id") {
            return Err(refusal);
        }
        if let Err(refusal) = required_local_str(object, "kind") {
            return Err(refusal);
        }
        let mut body = LineBody::plain(TranscriptRole::System, kind.to_owned());
        let whole = write_json(object);
        body.set_content(read_str_or(object, "payload_summary", whole.as_str()), rules);
        Ok(body)
    } else if str_equal(kind, "local.hold_open.started") || str_equal(
        kind,
        "local.hold_open.finished",
    ) {
        if let Some(refusal) = check_hold_open(kind, object) {
            return Err(refusal);
        }
        let mut body = LineBody::plain(TranscriptRole::System, kind.to_owned());
        body.set_content(write_json(object).as_str(), rules);
        Ok(body)
    } else if str_equal(kind, "local.agent.completed") {
        match required_local_str(object, "final_message") {
            Err(refusal) => Err(refusal),
            Ok(message) => {
                let mut body = LineBody::plain(TranscriptRole::Result, kind.to_owned());
                body.set_content(message, rules);
                Ok(body)
            },
        }
    } else if str_equal(kind, "local.error") {
        let mut body = LineBody::plain(TranscriptRole::Result, kind.to_owned());
        let detail = match str_member_of(object, "error_detail") {
            Some(detail) => detail,
            None => read_str_or(object, "error_code", "local model runner error"),
        };
        body.source_error = Some(detail.to_owned());
        Ok(body)
    } else {
        Err(joined("UNKNOWN_EVENT_TYPE: ", kind))
    }
}

/// What the vocabulary says of a line, and the stream after it.
pub open spec fn local_parse(object: Json, stream: StreamView, rules: RulesView) -> (
    StreamView,
    ParseView,
) {
    match json::str_member(object, "type"@) {
        None => (stream, record::refused("MISSING_TYPE: line has no string `type` field"@)),
        Some(kind) => (
            after_local(object, stream),
            ParseView {
                model: json::str_member(object, "model"@),
                turn_index: json::u64_member(object, "turn_index"@),
                outcome: local_event(kind, object, rules),
            },
        ),
    }
}

/// Reads one line of the runner.
pub fn parse_local_model_object(
    object: &Json,
    stream: &mut StreamState,
    rules: &TranscriptRules,
) -> (parse: LineParse)
    ensures
        (final(stream)@, parse@) == local_parse(*object, old(stream)@, rules@),
{
    let kind = match str_member_of(object, "type") {
        Some(kind) => kind,
        None => {
            return refuse("MISSING_TYPE: line has no string `type` field");
        },
    };
    if let Some(id) = string_member_of(object, "conversation_id") {
        stream.conversation_id = Some(id);
    }
    if let Some(model) = string_member_of(object, "model") {
        stream.model = Some(model);
    }
    let turn_index: Option<u64> = u64_member_of(object, "turn_index");
    if let Some(turn) = turn_index {
        stream.turn_index = turn;
    }
    LineParse {
        model: string_member_of(object, "model"),
        turn_index,
        outcome: read_local_event(kind, object, rules),
    }
}

} // verus!
