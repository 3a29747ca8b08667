//! What a row says of the line that it stands for: the parts that every kind of line
//! shares.
use crate::digest;
use crate::json;
use crate::json::{Json, JsonNumber, NumberView};
use crate::text;
use crate::transcripts::record;
use crate::transcripts::record::{
    BodyView, ContentView, LineBody, LineContent, LineParse, RulesView, StreamState, ToolCallView,
    TranscriptModelUsage, TranscriptRules, TranscriptToolCall, TranscriptUsage,
};
use vstd::prelude::*;
use vstd::string::*;

verus! {

/// The content is this text: its first characters as the summary, and the length, the
/// digest and the truncation of the whole.
pub open spec fn tells(content: Option<ContentView>, text: Seq<char>, rules: RulesView) -> bool {
    &&& content is Some
    &&& content->0.summary == text::bounded_spec(text, rules.max_summary_chars)
    &&& content->0.bytes == vstd::utf8::encode_utf8(text).len() as u64
    &&& content->0.sha256 == digest::hex_text(
        digest::sha256_digest(vstd::utf8::encode_utf8(text)),
    )
    &&& content->0.truncated == (text.len() > rules.max_summary_chars)
}

/// The content is the text that is there, and none where none is.
pub open spec fn tells_if_any(
    content: Option<ContentView>,
    text: Option<Seq<char>>,
    rules: RulesView,
) -> bool {
    &&& text is None ==> content is None
    &&& text is Some ==> tells(content, text->0, rules)
}

/// The call has these arguments: the first characters of their plain text, its length
/// in bytes and whether it was cut; of missing arguments the empty text.
pub open spec fn has_arguments(call: ToolCallView, value: Option<Json>, cap: int) -> bool {
    match value {
        Some(inner) => {
            &&& call.arguments == Some(text::bounded_spec(json::plain_text(inner), cap))
            &&& call.arguments_bytes == Some(
                vstd::utf8::encode_utf8(json::plain_text(inner)).len() as u64,
            )
            &&& call.arguments_truncated == (json::plain_text(inner).len() > cap)
        },
        None => {
            &&& call.arguments == Some(Seq::<char>::empty())
            &&& call.arguments_bytes == Some(0u64)
            &&& !call.arguments_truncated
        },
    }
}

/// The call has no arguments.
pub open spec fn lacks_arguments(call: ToolCallView) -> bool {
    call.arguments is None && call.arguments_bytes is None && !call.arguments_truncated
}

/// The call has this result, cut and measured as arguments are.
pub open spec fn has_result(call: ToolCallView, value: Option<Json>, cap: int) -> bool {
    match value {
        Some(inner) => {
            &&& call.result_summary == Some(text::bounded_spec(json::plain_text(inner), cap))
            &&& call.result_bytes == Some(
                vstd::utf8::encode_utf8(json::plain_text(inner)).len() as u64,
            )
            &&& call.result_truncated == (json::plain_text(inner).len() > cap)
        },
        None => {
            &&& call.result_summary == Some(Seq::<char>::empty())
            &&& call.result_bytes == Some(0u64)
            &&& !call.result_truncated
        },
    }
}

/// The call has no result.
pub open spec fn lacks_result(call: ToolCallView) -> bool {
    call.result_summary is None && call.result_bytes is None && !call.result_truncated
}

/// The body says nothing but its role and its kind.
pub open spec fn says_nothing(body: BodyView) -> bool {
    &&& body.tool_calls.len() == 0
    &&& body.usage is None
    &&& body.content is None
    &&& body.source_error is None
}

/// The views of usage, calls, contents and bodies show every field under its own name.
pub proof fn law_views_show_their_fields(
    usage: TranscriptUsage,
    by_model: TranscriptModelUsage,
    call: TranscriptToolCall,
    content: LineContent,
    body: LineBody,
)
    ensures
        usage@.input_tokens == usage.input_tokens,
        usage@.output_tokens == usage.output_tokens,
        usage@.cache_read_input_tokens == usage.cache_read_input_tokens,
        usage@.cache_creation_input_tokens == usage.cache_creation_input_tokens,
        usage@.cache_creation_5m_input_tokens == usage.cache_creation_5m_input_tokens,
        usage@.cache_creation_1h_input_tokens == usage.cache_creation_1h_input_tokens,
        usage@.reasoning_output_tokens == usage.reasoning_output_tokens,
        usage.total_cost_usd is None ==> usage@.total_cost_usd is None,
        usage.total_cost_usd is Some ==> usage@.total_cost_usd == Some(usage.total_cost_usd->0@),
        usage@.model_usage.len() == usage.model_usage@.len(),
        forall|i: int|
            0 <= i < usage.model_usage@.len() ==> #[trigger] usage@.model_usage[i]
                == usage.model_usage@[i]@,
        by_model@.model == by_model.model@,
        by_model@.input_tokens == by_model.input_tokens,
        by_model@.output_tokens == by_model.output_tokens,
        by_model@.cache_read_input_tokens == by_model.cache_read_input_tokens,
        by_model@.cache_creation_input_tokens == by_model.cache_creation_input_tokens,
        by_model.cost_usd is None ==> by_model@.cost_usd is None,
        by_model.cost_usd is Some ==> by_model@.cost_usd == Some(by_model.cost_usd->0@),
        call@.tool_name == call.tool_name@,
        call.tool_call_id is None ==> call@.tool_call_id is None,
        call.tool_call_id is Some ==> call@.tool_call_id == Some(call.tool_call_id->0@),
        call.arguments is None ==> call@.arguments is None,
        call.arguments is Some ==> call@.arguments == Some(call.arguments->0@),
        call@.arguments_bytes == call.arguments_bytes,
        call@.arguments_truncated == call.arguments_truncated,
        call.result_summary is None ==> call@.result_summary is None,
        call.result_summary is Some ==> call@.result_summary == Some(call.result_summary->0@),
        call@.result_bytes == call.result_bytes,
        call@.result_truncated == call.result_truncated,
        call.status is None ==> call@.status is None,
        call.status is Some ==> call@.status == Some(call.status->0@),
        call@.exit_code == call.exit_code,
        content@.summary == content.summary@,
        content@.bytes == content.bytes,
        content@.sha256 == content.sha256@,
        content@.truncated == content.truncated,
        body@.role == body.role,
        body@.event_kind == body.event_kind@,
        body@.tool_calls.len() == body.tool_calls@.len(),
        forall|i: int|
            0 <= i < body.tool_calls@.len() ==> #[trigger] body@.tool_calls[i]
                == body.tool_calls@[i]@,
        body.usage is None ==> body@.usage is None,
        body.usage is Some ==> body@.usage == Some(body.usage->0@),
        body.content is None ==> body@.content is None,
        body.content is Some ==> body@.content == Some(body.content->0@),
        body.source_error is None ==> body@.source_error is None,
        body.source_error is Some ==> body@.source_error == Some(body.source_error->0@),
{
}

/// The views of the stream, of a parse, of the rules and of a number show every field
/// under its own name.
pub proof fn law_stream_views_show_their_fields(
    stream: StreamState,
    parse: LineParse,
    rules: TranscriptRules,
    number: JsonNumber,
)
    ensures
        stream@.turn_index == stream.turn_index,
        stream.last_assistant_message_id is None ==> stream@.last_assistant_message_id is None,
        stream.last_assistant_message_id is Some ==> stream@.last_assistant_message_id == Some(
            stream.last_assistant_message_id->0@,
        ),
        stream@.seen_message_ids.len() == stream.seen_message_ids@.len(),
        forall|i: int|
            0 <= i < stream.seen_message_ids@.len() ==> #[trigger] stream@.seen_message_ids[i]
                == stream.seen_message_ids@[i]@,
        stream.conversation_id is None ==> stream@.conversation_id is None,
        stream.conversation_id is Some ==> stream@.conversation_id == Some(
            stream.conversation_id->0@,
        ),
        stream.model is None ==> stream@.model is None,
        stream.model is Some ==> stream@.model == Some(stream.model->0@),
        parse.model is None ==> parse@.model is None,
        parse.model is Some ==> parse@.model == Some(parse.model->0@),
        parse@.turn_index == parse.turn_index,
        parse.outcome matches Ok(body) ==> parse@.outcome == Ok::<BodyView, Seq<char>>(body@),
        parse.outcome matches Err(refusal) ==> parse@.outcome == Err::<BodyView, Seq<char>>(
            refusal@,
        ),
        rules@.max_summary_chars == rules.max_summary_chars,
        rules@.max_tool_args_chars == rules.max_tool_args_chars,
        rules@.max_tool_result_chars == rules.max_tool_result_chars,
        rules@.tool_status_error == rules.tool_status_error@,
        rules@.tool_status_ok == rules.tool_status_ok@,
        rules@.vendor == rules.vendor@,
        number matches JsonNumber::Unsigned(value) ==> number@ == NumberView::Unsigned(value),
        number matches JsonNumber::Negative(value) ==> number@ == NumberView::Negative(value),
        number matches JsonNumber::Decimal(value) ==> number@ == NumberView::Decimal(value@),
{
}

/// A content is told by its summary, its length, its digest and its truncation; arguments
/// and results stand in their own fields and leave the others.
pub proof fn law_contents_are_bounded_and_measured(
    content: Seq<char>,
    call: ToolCallView,
    value: Json,
    cap: int,
    rules: RulesView,
)
    ensures
        tells(Some(record::content_of(content, rules)), content, rules),
        ({
            let after = record::with_arguments(call, record::bounded_value(value, cap));
            &&& has_arguments(after, Some(value), cap)
            &&& after.tool_name == call.tool_name
            &&& after.tool_call_id == call.tool_call_id
            &&& after.result_summary == call.result_summary
            &&& after.result_bytes == call.result_bytes
            &&& after.result_truncated == call.result_truncated
            &&& after.status == call.status
            &&& after.exit_code == call.exit_code
        }),
        ({
            let after = record::with_result(call, record::bounded_value(value, cap));
            &&& has_result(after, Some(value), cap)
            &&& after.tool_name == call.tool_name
            &&& after.tool_call_id == call.tool_call_id
            &&& after.arguments == call.arguments
            &&& after.arguments_bytes == call.arguments_bytes
            &&& after.arguments_truncated == call.arguments_truncated
            &&& after.status == call.status
            &&& after.exit_code == call.exit_code
        }),
{
}

/// A usage of which nothing is known counts nothing.
pub proof fn law_no_usage_counts_nothing()
    ensures
        record::no_usage().input_tokens is None,
        record::no_usage().output_tokens is None,
        record::no_usage().cache_read_input_tokens is None,
        record::no_usage().cache_creation_input_tokens is None,
        record::no_usage().cache_creation_5m_input_tokens is None,
        record::no_usage().cache_creation_1h_input_tokens is None,
        record::no_usage().reasoning_output_tokens is None,
        record::no_usage().total_cost_usd is None,
        record::no_usage().model_usage.len() == 0,
{
}

} // verus!
