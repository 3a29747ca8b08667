//! What the row of a line of the stream-json source says of that line.
use crate::json;
use crate::json::Json;
use crate::text;
use crate::transcripts::claude;
use crate::transcripts::claude::{BlockView, BlocksView};
use crate::transcripts::record::{
    BodyView, ParseView, RulesView, StreamView, ToolCallView, TranscriptRole, UsageView,
};
use crate::transcripts::rows;
use vstd::prelude::*;
use vstd::string::*;

verus! {

proof fn lemma_kinds()
    ensures
        "system"@ != "rate_limit_event"@,
        "system"@ != "assistant"@,
        "system"@ != "user"@,
        "system"@ != "result"@,
        "rate_limit_event"@ != "assistant"@,
        "rate_limit_event"@ != "user"@,
        "rate_limit_event"@ != "result"@,
        "assistant"@ != "user"@,
        "assistant"@ != "result"@,
        "user"@ != "result"@,
{
    reveal_strlit("system");
    reveal_strlit("rate_limit_event");
    reveal_strlit("assistant");
    reveal_strlit("user");
    reveal_strlit("result");
    assert("system"@.len() == 6 && "rate_limit_event"@.len() == 16 && "assistant"@.len() == 9
        && "user"@.len() == 4 && "result"@.len() == 6);
    assert("system"@[0] == 's' && "result"@[0] == 'r');
}

proof fn lemma_block_kinds()
    ensures
        "text"@ != "thinking"@,
        "text"@ != "redacted_thinking"@,
        "text"@ != "fallback"@,
        "text"@ != "tool_use"@,
        "text"@ != "server_tool_use"@,
        "text"@ != "web_search_tool_result"@,
        "thinking"@ != "redacted_thinking"@,
        "thinking"@ != "fallback"@,
        "thinking"@ != "tool_use"@,
        "thinking"@ != "server_tool_use"@,
        "thinking"@ != "web_search_tool_result"@,
        "redacted_thinking"@ != "fallback"@,
        "redacted_thinking"@ != "tool_use"@,
        "redacted_thinking"@ != "server_tool_use"@,
        "redacted_thinking"@ != "web_search_tool_result"@,
        "fallback"@ != "tool_use"@,
        "fallback"@ != "server_tool_use"@,
        "fallback"@ != "web_search_tool_result"@,
        "tool_use"@ != "web_search_tool_result"@,
        "server_tool_use"@ != "web_search_tool_result"@,
{
    reveal_strlit("text");
    reveal_strlit("thinking");
    reveal_strlit("redacted_thinking");
    reveal_strlit("fallback");
    reveal_strlit("tool_use");
    reveal_strlit("server_tool_use");
    reveal_strlit("web_search_tool_result");
    assert("text"@.len() == 4 && "thinking"@.len() == 8 && "redacted_thinking"@.len() == 17
        && "fallback"@.len() == 8 && "tool_use"@.len() == 8 && "server_tool_use"@.len() == 15
        && "web_search_tool_result"@.len() == 22);
    assert("thinking"@[0] == 't' && "fallback"@[0] == 'f' && "tool_use"@[0] == 't');
    assert("thinking"@[1] == 'h' && "tool_use"@[1] == 'o');
}

/// The counters of a usage object, each read under its own key.
pub open spec fn counts_by_key(counted: UsageView, usage: Json) -> bool {
    &&& counted.input_tokens == json::u64_member(usage, "input_tokens"@)
    &&& counted.output_tokens == json::u64_member(usage, "output_tokens"@)
    &&& counted.cache_read_input_tokens == json::u64_member(usage, "cache_read_input_tokens"@)
    &&& counted.cache_creation_input_tokens == json::u64_member(
        usage,
        "cache_creation_input_tokens"@,
    )
    &&& json::member(usage, "cache_creation"@) is None
        ==> counted.cache_creation_5m_input_tokens is None
        && counted.cache_creation_1h_input_tokens is None
    &&& json::member(usage, "cache_creation"@) is Some ==> counted.cache_creation_5m_input_tokens
        == json::u64_member(
        json::member(usage, "cache_creation"@)->0,
        "ephemeral_5m_input_tokens"@,
    ) && counted.cache_creation_1h_input_tokens == json::u64_member(
        json::member(usage, "cache_creation"@)->0,
        "ephemeral_1h_input_tokens"@,
    )
    &&& counted.reasoning_output_tokens is None
}

/// The row of an assistant line counts what the `usage` of its message says, each counter
/// under its own key, and nothing where the message has no `usage`.
pub proof fn law_assistant_rows_count_by_key(
    object: Json,
    stream: StreamView,
    rules: RulesView,
    message: Json,
)
    requires
        json::str_member(object, "type"@) == Some("assistant"@),
        json::object_member(object, "message"@) == Some(message),
        claude::claude_parse(object, stream, rules).1.outcome is Ok,
    ensures
        ({
            let body = claude::claude_parse(object, stream, rules).1.outcome->Ok_0;
            &&& json::member(message, "usage"@) is None ==> body.usage is None
            &&& json::member(message, "usage"@) is Some ==> {
                &&& body.usage is Some
                &&& counts_by_key(body.usage->0, json::member(message, "usage"@)->0)
                &&& body.usage->0.total_cost_usd is None
                &&& body.usage->0.model_usage.len() == 0
            }
        }),
{
    lemma_kinds();
}

/// The row of an assistant line is an assistant's: it has the calls of the content blocks
/// in their order, their texts one per line as its content, and no source error; it names
/// the model of the message. It is refused where the message is missing or no object,
/// where its content is no list, and for the first block that cannot be read.
pub proof fn law_assistant_rows_tell_their_blocks(
    object: Json,
    stream: StreamView,
    rules: RulesView,
)
    requires
        json::str_member(object, "type"@) == Some("assistant"@),
    ensures
        ({
            let parse = claude::claude_parse(object, stream, rules).1;
            let message = json::object_member(object, "message"@);
            &&& message is None ==> parse.outcome == Err::<BodyView, Seq<char>>(
                "ASSISTANT_MISSING_MESSAGE"@,
            ) && parse.model is None
            &&& message is Some ==> {
                let items = json::array_member(message->0, "content"@);
                &&& parse.model == json::str_member(message->0, "model"@)
                &&& items is None ==> parse.outcome == Err::<BodyView, Seq<char>>(
                    "ASSISTANT_MISSING_CONTENT_ARRAY"@,
                )
                &&& items is Some ==> match claude::assistant_blocks(items->0, rules) {
                    Err(refusal) => parse.outcome == Err::<BodyView, Seq<char>>(refusal),
                    Ok(blocks) => {
                        &&& parse.outcome is Ok
                        &&& parse.outcome->Ok_0.role == TranscriptRole::Assistant
                        &&& parse.outcome->Ok_0.event_kind == "assistant"@
                        &&& parse.outcome->Ok_0.tool_calls == blocks.calls
                        &&& parse.outcome->Ok_0.source_error is None
                        &&& blocks.texts.len() == 0 ==> parse.outcome->Ok_0.content is None
                        &&& blocks.texts.len() > 0 ==> rows::tells(
                            parse.outcome->Ok_0.content,
                            text::join_spec(blocks.texts, "\n"@),
                            rules,
                        )
                    },
                }
            }
            &&& parse.turn_index is None
        }),
{
    lemma_kinds();
}

/// One content block more adds its text behind the texts and its call behind the calls of
/// the blocks before it; the first block that cannot be read refuses them all.
pub proof fn law_content_blocks_are_told_in_order(
    items: Seq<Json>,
    block: Json,
    rules: RulesView,
)
    ensures
        claude::assistant_blocks(Seq::<Json>::empty(), rules) matches Ok(none)
            && none.texts.len() == 0 && none.calls.len() == 0,
        claude::assistant_blocks(items, rules) is Err ==> claude::assistant_blocks(
            items.push(block),
            rules,
        ) == claude::assistant_blocks(items, rules),
        claude::assistant_blocks(items, rules) matches Ok(before) ==> match claude::assistant_block(
            block,
            rules,
        ) {
            Err(refusal) => claude::assistant_blocks(items.push(block), rules) == Err::<
                BlocksView,
                Seq<char>,
            >(refusal),
            Ok(read) => {
                &&& claude::assistant_blocks(items.push(block), rules) is Ok
                &&& claude::assistant_blocks(items.push(block), rules)->Ok_0.texts == (
                if read.text is Some {
                    before.texts + seq![read.text->0]
                } else {
                    before.texts
                })
                &&& claude::assistant_blocks(items.push(block), rules)->Ok_0.calls == (
                if read.call is Some {
                    before.calls + seq![read.call->0]
                } else {
                    before.calls
                })
            },
        },
{
    assert(items.push(block).drop_last() =~= items);
    assert(items.push(block).last() == block);
    if claude::assistant_blocks(items, rules) is Ok && claude::assistant_block(block, rules) is Ok {
        let before = claude::assistant_blocks(items, rules)->Ok_0;
        let read = claude::assistant_block(block, rules)->Ok_0;
        if read.text is Some {
            assert(before.texts.push(read.text->0) =~= before.texts + seq![read.text->0]);
        }
        if read.call is Some {
            assert(before.calls.push(read.call->0) =~= before.calls + seq![read.call->0]);
        }
    }
}

/// A text block is its `text`, a thinking block its `thinking`, a redacted one nothing, a
/// fallback block its own notation; none of these is a call.
pub proof fn law_text_blocks_tell_their_text(block: Json, rules: RulesView)
    requires
        block is Object,
    ensures
        json::str_member(block, "type"@) == Some("text"@) ==> {
            &&& claude::assistant_block(block, rules) is Ok
            &&& claude::assistant_block(block, rules)->Ok_0.text == json::str_member(block, "text"@)
            &&& claude::assistant_block(block, rules)->Ok_0.call is None
        },
        json::str_member(block, "type"@) == Some("thinking"@) ==> {
            &&& claude::assistant_block(block, rules) is Ok
            &&& claude::assistant_block(block, rules)->Ok_0.text == json::str_member(
                block,
                "thinking"@,
            )
            &&& claude::assistant_block(block, rules)->Ok_0.call is None
        },
        json::str_member(block, "type"@) == Some("redacted_thinking"@) ==> {
            &&& claude::assistant_block(block, rules) is Ok
            &&& claude::assistant_block(block, rules)->Ok_0.text is None
            &&& claude::assistant_block(block, rules)->Ok_0.call is None
        },
        json::str_member(block, "type"@) == Some("fallback"@) ==> {
            &&& claude::assistant_block(block, rules) is Ok
            &&& claude::assistant_block(block, rules)->Ok_0.text == Some(json::json_writing(block))
            &&& claude::assistant_block(block, rules)->Ok_0.call is None
        },
{
    lemma_block_kinds();
}

/// A tool use is a call by its `name` and its `id`, with its `input` as arguments and no
/// result yet; without a name it is refused. A search result is a call with its `content`
/// as result, under the id of the use that it answers.
pub proof fn law_tool_blocks_tell_their_call(block: Json, rules: RulesView)
    requires
        block is Object,
    ensures
        json::str_member(block, "type"@) == Some("tool_use"@) || json::str_member(block, "type"@)
            == Some("server_tool_use"@) ==> {
            let read = claude::assistant_block(block, rules);
            &&& json::str_member(block, "name"@) is None ==> read == Err::<BlockView, Seq<char>>(
                "TOOL_USE_MISSING_NAME"@,
            )
            &&& json::str_member(block, "name"@) is Some ==> {
                &&& read is Ok
                &&& read->Ok_0.text is None
                &&& read->Ok_0.call is Some
                &&& Some(read->Ok_0.call->0.tool_name) == json::str_member(block, "name"@)
                &&& read->Ok_0.call->0.tool_call_id == json::str_member(block, "id"@)
                &&& rows::has_arguments(
                    read->Ok_0.call->0,
                    json::member(block, "input"@),
                    rules.max_tool_args_chars,
                )
                &&& rows::lacks_result(read->Ok_0.call->0)
                &&& read->Ok_0.call->0.status is None
                &&& read->Ok_0.call->0.exit_code is None
            }
        },
        json::str_member(block, "type"@) == Some("web_search_tool_result"@) ==> {
            let read = claude::assistant_block(block, rules);
            &&& read is Ok
            &&& read->Ok_0.text is None
            &&& read->Ok_0.call is Some
            &&& read->Ok_0.call->0.tool_name == "web_search_tool_result"@
            &&& read->Ok_0.call->0.tool_call_id == json::str_member(block, "tool_use_id"@)
            &&& rows::has_result(
                read->Ok_0.call->0,
                json::member(block, "content"@),
                rules.max_tool_result_chars,
            )
            &&& rows::lacks_arguments(read->Ok_0.call->0)
            &&& read->Ok_0.call->0.status is None
            &&& read->Ok_0.call->0.exit_code is None
        },
{
    lemma_block_kinds();
    reveal_strlit("tool_use");
    reveal_strlit("server_tool_use");
    assert("tool_use"@.len() == 8 && "server_tool_use"@.len() == 15);
}

/// A block that is no object, that has no string `type`, or whose type is none of the
/// known ones cannot be read.
pub proof fn law_other_blocks_are_refused(block: Json, rules: RulesView, kind: Seq<char>)
    ensures
        block !is Object ==> claude::assistant_block(block, rules) == Err::<BlockView, Seq<char>>(
            "ASSISTANT_CONTENT_BLOCK_NOT_OBJECT"@,
        ),
        block is Object && json::str_member(block, "type"@) is None ==> claude::assistant_block(
            block,
            rules,
        ) == Err::<BlockView, Seq<char>>("ASSISTANT_CONTENT_BLOCK_MISSING_TYPE"@),
        json::str_member(block, "type"@) == Some(kind) && block is Object && kind != "text"@
            && kind != "thinking"@ && kind != "redacted_thinking"@ && kind != "fallback"@ && kind
            != "tool_use"@ && kind != "server_tool_use"@ && kind != "web_search_tool_result"@
            ==> claude::assistant_block(block, rules) == Err::<BlockView, Seq<char>>(
            "UNKNOWN_ASSISTANT_CONTENT_BLOCK: "@ + kind,
        ),
{
}

/// The row of a user line is a tool's: a string content is its content, of a list of tool
/// results each is a call. It is refused where the message or its content is missing or
/// has another form, and for the first block that is no tool result.
pub proof fn law_user_rows_tell_tool_results(object: Json, stream: StreamView, rules: RulesView)
    requires
        json::str_member(object, "type"@) == Some("user"@),
    ensures
        ({
            let parse = claude::claude_parse(object, stream, rules).1;
            let message = json::object_member(object, "message"@);
            &&& claude::claude_parse(object, stream, rules).0 == stream
            &&& parse.model is None
            &&& parse.turn_index is None
            &&& message is None ==> parse.outcome == Err::<BodyView, Seq<char>>(
                "USER_MISSING_MESSAGE"@,
            )
            &&& message is Some ==> match json::member(message->0, "content"@) {
                None => parse.outcome == Err::<BodyView, Seq<char>>("USER_MISSING_CONTENT"@),
                Some(Json::Str(content)) => {
                    &&& parse.outcome is Ok
                    &&& parse.outcome->Ok_0.role == TranscriptRole::Tool
                    &&& parse.outcome->Ok_0.event_kind == "user/tool_result"@
                    &&& rows::tells(parse.outcome->Ok_0.content, content@, rules)
                    &&& parse.outcome->Ok_0.tool_calls.len() == 0
                    &&& parse.outcome->Ok_0.usage is None
                    &&& parse.outcome->Ok_0.source_error is None
                },
                Some(Json::Array(items)) => match claude::user_blocks(items@, rules) {
                    Err(refusal) => parse.outcome == Err::<BodyView, Seq<char>>(refusal),
                    Ok(calls) => {
                        &&& parse.outcome is Ok
                        &&& parse.outcome->Ok_0.role == TranscriptRole::Tool
                        &&& parse.outcome->Ok_0.event_kind == "user/tool_result"@
                        &&& parse.outcome->Ok_0.tool_calls == calls
                        &&& parse.outcome->Ok_0.content is None
                        &&& parse.outcome->Ok_0.usage is None
                        &&& parse.outcome->Ok_0.source_error is None
                    },
                },
                Some(_) => parse.outcome == Err::<BodyView, Seq<char>>(
                    "USER_CONTENT_NOT_STRING_OR_ARRAY"@,
                ),
            }
        }),
{
    lemma_kinds();
}

proof fn lemma_user_blocks(items: Seq<Json>, rules: RulesView)
    requires
        claude::user_blocks(items, rules) is Ok,
    ensures
        claude::user_blocks(items, rules)->Ok_0.len() == items.len(),
        forall|i: int|
            0 <= i < items.len() ==> claude::user_block(#[trigger] items[i], rules) == Ok::<
                ToolCallView,
                Seq<char>,
            >(claude::user_blocks(items, rules)->Ok_0[i]),
    decreases items.len(),
{
    if items.len() > 0 {
        let shorter = items.drop_last();
        lemma_user_blocks(shorter, rules);
        assert forall|i: int| 0 <= i < items.len() implies claude::user_block(
            #[trigger] items[i],
            rules,
        ) == Ok::<ToolCallView, Seq<char>>(claude::user_blocks(items, rules)->Ok_0[i]) by {
            if i < shorter.len() {
                assert(shorter[i] == items[i]);
            }
        }
    }
}

/// Each block of a user line is a tool result, and the call at its place answers the use
/// that it names, with its `content` as result.
pub proof fn law_tool_results_tell_their_content(items: Seq<Json>, rules: RulesView, at: int)
    requires
        claude::user_blocks(items, rules) is Ok,
        0 <= at < items.len(),
    ensures
        claude::user_blocks(items, rules)->Ok_0.len() == items.len(),
        json::str_member(items[at], "type"@) == Some("tool_result"@),
        ({
            let call = claude::user_blocks(items, rules)->Ok_0[at];
            &&& call.tool_name == "tool_result"@
            &&& call.tool_call_id == json::str_member(items[at], "tool_use_id"@)
            &&& rows::has_result(
                call,
                json::member(items[at], "content"@),
                rules.max_tool_result_chars,
            )
            &&& rows::lacks_arguments(call)
            &&& call.status is None
            &&& call.exit_code is None
        }),
{
    lemma_user_blocks(items, rules);
}

proof fn lemma_user_blocks_refused(items: Seq<Json>, rules: RulesView, at: int)
    requires
        0 <= at < items.len(),
        claude::user_block(items[at], rules) is Err,
        forall|i: int| 0 <= i < at ==> claude::user_block(#[trigger] items[i], rules) is Ok,
    ensures
        claude::user_blocks(items, rules) == Err::<Seq<ToolCallView>, Seq<char>>(
            claude::user_block(items[at], rules)->Err_0,
        ),
    decreases items.len(),
{
    let shorter = items.drop_last();
    if at < shorter.len() {
        lemma_user_blocks_refused(shorter, rules, at);
    } else {
        lemma_user_blocks_taken(shorter, rules);
    }
}

proof fn lemma_user_blocks_taken(items: Seq<Json>, rules: RulesView)
    requires
        forall|i: int| 0 <= i < items.len() ==> claude::user_block(#[trigger] items[i], rules) is Ok,
    ensures
        claude::user_blocks(items, rules) is Ok,
    decreases items.len(),
{
    if items.len() > 0 {
        let shorter = items.drop_last();
        assert forall|i: int| 0 <= i < shorter.len() implies claude::user_block(
            #[trigger] shorter[i],
            rules,
        ) is Ok by {
            assert(claude::user_block(items[i], rules) is Ok);
        }
        lemma_user_blocks_taken(shorter, rules);
        assert(claude::user_block(items[items.len() - 1], rules) is Ok);
    }
}

/// A user line all of whose blocks are tool results is taken; the first block that is no
/// object, has no type or another type refuses the line, by its own name.
pub proof fn law_first_bad_user_block_refuses(items: Seq<Json>, rules: RulesView, at: int)
    requires
        0 <= at <= items.len(),
        forall|i: int|
            0 <= i < at ==> (#[trigger] items[i]) is Object && json::str_member(items[i], "type"@)
                == Some("tool_result"@),
    ensures
        at == items.len() ==> claude::user_blocks(items, rules) is Ok,
        at < items.len() && items[at] !is Object ==> claude::user_blocks(items, rules) == Err::<
            Seq<ToolCallView>,
            Seq<char>,
        >("USER_CONTENT_BLOCK_NOT_OBJECT"@),
        at < items.len() && items[at] is Object && json::str_member(items[at], "type"@) is None
            ==> claude::user_blocks(items, rules) == Err::<Seq<ToolCallView>, Seq<char>>(
            "USER_CONTENT_BLOCK_MISSING_TYPE"@,
        ),
        at < items.len() && items[at] is Object && json::str_member(items[at], "type"@) is Some
            && json::str_member(items[at], "type"@) != Some("tool_result"@) ==> claude::user_blocks(
            items,
            rules,
        ) == Err::<Seq<ToolCallView>, Seq<char>>(
            "UNKNOWN_USER_CONTENT_BLOCK: "@ + json::str_member(items[at], "type"@)->0,
        ),
{
    assert forall|i: int| 0 <= i < at implies claude::user_block(#[trigger] items[i], rules) is Ok by {
        assert(items[i] is Object);
    }
    if at == items.len() {
        lemma_user_blocks_taken(items, rules);
    } else if claude::user_block(items[at], rules) is Err {
        lemma_user_blocks_refused(items, rules, at);
    }
}

/// The row of a result line is a result's, of the kind `result/` and its subtype: its
/// content is the string `result`, its usage the counters of `usage`, the number
/// `total_cost_usd` and the entries of `modelUsage`, and it reports an error exactly where
/// `is_error` is true. A `modelUsage` that is no object refuses the line.
pub proof fn law_result_rows_tell_the_result(object: Json, stream: StreamView, rules: RulesView)
    requires
        json::str_member(object, "type"@) == Some("result"@),
    ensures
        ({
            let parse = claude::claude_parse(object, stream, rules).1;
            let subtype = if json::str_member(object, "subtype"@) is Some {
                json::str_member(object, "subtype"@)->0
            } else {
                "unknown"@
            };
            let models = json::member(object, "modelUsage"@);
            &&& claude::claude_parse(object, stream, rules).0 == stream
            &&& parse.model is None
            &&& parse.turn_index is None
            &&& models is Some && models->0 !is Object ==> parse.outcome == Err::<
                BodyView,
                Seq<char>,
            >("RESULT_MODEL_USAGE_NOT_OBJECT"@)
            &&& models is None || models->0 is Object ==> {
                let body = parse.outcome->Ok_0;
                &&& parse.outcome is Ok
                &&& body.role == TranscriptRole::Result
                &&& body.event_kind == "result/"@ + subtype
                &&& body.tool_calls.len() == 0
                &&& rows::tells_if_any(body.content, json::str_member(object, "result"@), rules)
                &&& json::member(object, "is_error"@) == Some(Json::Bool(true)) ==> body.source_error
                    == Some("result/"@ + subtype)
                &&& json::member(object, "is_error"@) != Some(Json::Bool(true))
                    ==> body.source_error is None
                &&& body.usage is Some ==> {
                    &&& json::member(object, "usage"@) is Some ==> counts_by_key(
                        body.usage->0,
                        json::member(object, "usage"@)->0,
                    )
                    &&& json::member(object, "usage"@) is None ==> body.usage->0.input_tokens is None
                        && body.usage->0.output_tokens is None
                        && body.usage->0.cache_read_input_tokens is None
                        && body.usage->0.cache_creation_input_tokens is None
                        && body.usage->0.cache_creation_5m_input_tokens is None
                        && body.usage->0.cache_creation_1h_input_tokens is None
                    &&& body.usage->0.total_cost_usd == json::number_of(
                        json::member(object, "total_cost_usd"@),
                    )
                    &&& models is None ==> body.usage->0.model_usage.len() == 0
                    &&& models matches Some(Json::Object(entries)) ==> body.usage->0.model_usage
                        == claude::model_usage_list(entries@)
                }
                &&& body.usage is None ==> {
                    &&& json::number_of(json::member(object, "total_cost_usd"@)) is None
                    &&& json::member(object, "usage"@) is Some ==> {
                        &&& json::u64_member(json::member(object, "usage"@)->0, "input_tokens"@) is None
                        &&& json::u64_member(json::member(object, "usage"@)->0, "output_tokens"@) is None
                        &&& json::u64_member(
                            json::member(object, "usage"@)->0,
                            "cache_read_input_tokens"@,
                        ) is None
                        &&& json::u64_member(
                            json::member(object, "usage"@)->0,
                            "cache_creation_input_tokens"@,
                        ) is None
                    }
                    &&& models matches Some(Json::Object(entries)) ==> entries@.len() == 0
                }
            }
        }),
{
    lemma_kinds();
    match json::member(object, "modelUsage"@) {
        Some(Json::Object(entries)) => {
            claude::law_model_usage_is_sorted(entries@);
        },
        _ => {},
    }
}

/// The usage of a model is read of its entry, each counter under its own key and zero
/// where the entry has none; its cost is the number `costUSD`.
pub proof fn law_model_usage_counts_by_key(model: Seq<char>, entry: Json)
    ensures
        ({
            let counted = claude::model_usage_entry(model, entry);
            let input = json::u64_member(entry, "inputTokens"@);
            let output = json::u64_member(entry, "outputTokens"@);
            let read = json::u64_member(entry, "cacheReadInputTokens"@);
            let created = json::u64_member(entry, "cacheCreationInputTokens"@);
            &&& counted.model == model
            &&& input is Some ==> counted.input_tokens == input->0
            &&& input is None ==> counted.input_tokens == 0
            &&& output is Some ==> counted.output_tokens == output->0
            &&& output is None ==> counted.output_tokens == 0
            &&& read is Some ==> counted.cache_read_input_tokens == read->0
            &&& read is None ==> counted.cache_read_input_tokens == 0
            &&& created is Some ==> counted.cache_creation_input_tokens == created->0
            &&& created is None ==> counted.cache_creation_input_tokens == 0
            &&& counted.cost_usd == json::number_of(json::member(entry, "costUSD"@))
        }),
{
}

proof fn lemma_text_order(left: Seq<char>, right: Seq<char>, at: int)
    requires
        0 <= at <= left.len(),
        at < right.len(),
        forall|i: int| 0 <= i < at ==> left[i] == right[i],
        at < left.len() ==> left[at] < right[at],
    ensures
        claude::text_less(left, right),
        !claude::text_less(right, left),
    decreases at,
{
    if at > 0 {
        assert(left[0] == right[0]);
        assert forall|i: int| 0 <= i < at - 1 implies left.skip(1)[i] == right.skip(1)[i] by {
            assert(left[i + 1] == right[i + 1]);
        }
        lemma_text_order(left.skip(1), right.skip(1), at - 1);
    }
}

/// Models are ordered as texts are: by the first character in which they differ, the
/// shorter first where one begins the other.
pub proof fn law_models_are_ordered_as_texts(left: Seq<char>, right: Seq<char>, at: int)
    requires
        0 <= at <= left.len(),
        at < right.len(),
        forall|i: int| 0 <= i < at ==> left[i] == right[i],
        at < left.len() ==> (left[at] as int) < (right[at] as int),
    ensures
        claude::text_less(left, right),
        !claude::text_less(right, left),
{
    lemma_text_order(left, right, at);
}

/// The row of a system line is the system's, of the kind `system/` and its subtype, and
/// says nothing else; without a subtype it is refused. A subtype `init` names the
/// conversation and the model of the stream from then on; any other leaves the stream.
pub proof fn law_system_rows_name_their_subtype(object: Json, stream: StreamView, rules: RulesView)
    requires
        json::str_member(object, "type"@) == Some("system"@),
    ensures
        ({
            let after = claude::claude_parse(object, stream, rules).0;
            let parse = claude::claude_parse(object, stream, rules).1;
            let subtype = json::str_member(object, "subtype"@);
            &&& parse.model is None
            &&& parse.turn_index is None
            &&& subtype is None ==> parse.outcome == Err::<BodyView, Seq<char>>(
                "SYSTEM_MISSING_SUBTYPE"@,
            )
            &&& subtype is Some ==> {
                &&& parse.outcome is Ok
                &&& parse.outcome->Ok_0.role == TranscriptRole::System
                &&& parse.outcome->Ok_0.event_kind == "system/"@ + subtype->0
                &&& rows::says_nothing(parse.outcome->Ok_0)
            }
            &&& subtype != Some("init"@) ==> after == stream
            &&& subtype == Some("init"@) ==> {
                &&& json::str_member(object, "session_id"@) is Some ==> after.conversation_id
                    == json::str_member(object, "session_id"@)
                &&& json::str_member(object, "session_id"@) is None ==> after.conversation_id
                    == stream.conversation_id
                &&& json::str_member(object, "model"@) is Some ==> after.model == json::str_member(
                    object,
                    "model"@,
                )
                &&& json::str_member(object, "model"@) is None ==> after.model == stream.model
                &&& after.turn_index == stream.turn_index
                &&& after.seen_message_ids == stream.seen_message_ids
                &&& after.last_assistant_message_id == stream.last_assistant_message_id
            }
        }),
{
    lemma_kinds();
}

/// A rate-limit line says nothing; a line without a string `type`, or of a type that is
/// none of the known ones, is refused. None of these changes the stream.
pub proof fn law_other_lines_leave_the_stream(
    object: Json,
    stream: StreamView,
    rules: RulesView,
    kind: Seq<char>,
)
    ensures
        json::str_member(object, "type"@) is None ==> claude::claude_parse(object, stream, rules)
            == (
            stream,
            (ParseView {
                model: None,
                turn_index: None,
                outcome: Err("MISSING_TYPE: line has no string `type` field"@),
            }),
        ),
        json::str_member(object, "type"@) == Some("rate_limit_event"@) ==> {
            let parse = claude::claude_parse(object, stream, rules).1;
            &&& claude::claude_parse(object, stream, rules).0 == stream
            &&& parse.outcome is Ok
            &&& parse.outcome->Ok_0.role == TranscriptRole::System
            &&& parse.outcome->Ok_0.event_kind == "rate_limit_event"@
            &&& rows::says_nothing(parse.outcome->Ok_0)
            &&& parse.model is None
            &&& parse.turn_index is None
        },
        json::str_member(object, "type"@) == Some(kind) && kind != "system"@ && kind
            != "rate_limit_event"@ && kind != "assistant"@ && kind != "user"@ && kind != "result"@
            ==> claude::claude_parse(object, stream, rules) == (
            stream,
            (ParseView {
                model: None,
                turn_index: None,
                outcome: Err("UNKNOWN_EVENT_TYPE: "@ + kind),
            }),
        ),
{
    lemma_kinds();
}

/// An assistant line names the model of the stream and its message: a message that was
/// not seen before is a turn more, one that was seen before is none.
pub proof fn law_assistant_lines_count_new_messages(
    object: Json,
    stream: StreamView,
    rules: RulesView,
    message: Json,
)
    requires
        json::str_member(object, "type"@) == Some("assistant"@),
        json::object_member(object, "message"@) == Some(message),
        stream.turn_index < 0xffff_ffff_ffff_ffff,
    ensures
        ({
            let after = claude::claude_parse(object, stream, rules).0;
            let id = json::str_member(message, "id"@);
            &&& json::str_member(message, "model"@) is Some ==> after.model == json::str_member(
                message,
                "model"@,
            )
            &&& json::str_member(message, "model"@) is None ==> after.model == stream.model
            &&& after.conversation_id == stream.conversation_id
            &&& id is None ==> after.turn_index == stream.turn_index && after.seen_message_ids
                == stream.seen_message_ids && after.last_assistant_message_id
                == stream.last_assistant_message_id
            &&& id is Some ==> after.last_assistant_message_id == id
            &&& id is Some && stream.seen_message_ids.contains(id->0) ==> after.turn_index
                == stream.turn_index && after.seen_message_ids == stream.seen_message_ids
            &&& id is Some && !stream.seen_message_ids.contains(id->0) ==> after.turn_index
                == stream.turn_index + 1 && after.seen_message_ids == stream.seen_message_ids.push(
                id->0,
            )
        }),
{
    lemma_kinds();
}

} // verus!
