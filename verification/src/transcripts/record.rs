//! Transcript rows and what their lines say.
use crate::digest;
use crate::digest::sha256_hex;
use crate::json;
use crate::json::{Json, JsonNumber, NumberView, bounded_json_string};
use crate::text;
use crate::text::{bounded_chars, copy_texts, joined};
use vstd::prelude::*;
use vstd::string::*;
use vstd::utf8::*;

verus! {

/// Where a transcript comes from, and so which vocabulary its lines have.
#[derive(Clone, Copy, Debug, PartialEq, Eq, Structural)]
pub enum TranscriptSource {
    ClaudeStreamJson,
    CodexExecJson,
    CodexAppServerJsonRpc,
    LocalModelJson,
    ClaudeSessionJsonl,
}

/// Who a line speaks for.
#[derive(Clone, Copy, Debug, PartialEq, Eq, Structural)]
pub enum TranscriptRole {
    System,
    Assistant,
    Tool,
    Result,
}

/// Whether the vocabulary placed the line.
#[derive(Clone, Copy, Debug, PartialEq, Eq, Structural)]
pub enum TranscriptParseStatus {
    Parsed,
    Invalid,
}

/// The bounds on what a row carries of a line, and how tool outcomes are named.
#[derive(Debug)]
pub struct TranscriptRules {
    pub max_summary_chars: usize,
    pub max_tool_args_chars: usize,
    pub max_tool_result_chars: usize,
    pub tool_status_error: String,
    pub tool_status_ok: String,
    /// The vendor whose sessions are discovered, by its name in lower case: the one that
    /// [`TranscriptSource::ClaudeStreamJson`] is named after.
    pub vendor: String,
}

/// The rules with their names taken as text.
pub struct RulesView {
    pub max_summary_chars: int,
    pub max_tool_args_chars: int,
    pub max_tool_result_chars: int,
    pub tool_status_error: Seq<char>,
    pub tool_status_ok: Seq<char>,
    pub vendor: Seq<char>,
}

impl View for TranscriptRules {
    type V = RulesView;

    open spec fn view(&self) -> RulesView {
        RulesView {
            max_summary_chars: self.max_summary_chars as int,
            max_tool_args_chars: self.max_tool_args_chars as int,
            max_tool_result_chars: self.max_tool_result_chars as int,
            tool_status_error: self.tool_status_error@,
            tool_status_ok: self.tool_status_ok@,
            vendor: self.vendor@,
        }
    }
}

/// One tool call, or one result of a tool call.
#[derive(Debug)]
pub struct TranscriptToolCall {
    pub tool_name: String,
    pub tool_call_id: Option<String>,
    pub arguments: Option<String>,
    pub arguments_bytes: Option<u64>,
    pub arguments_truncated: bool,
    pub result_summary: Option<String>,
    pub result_bytes: Option<u64>,
    pub result_truncated: bool,
    pub status: Option<String>,
    pub exit_code: Option<i64>,
}

/// A tool call with its strings taken as text.
pub struct ToolCallView {
    pub tool_name: Seq<char>,
    pub tool_call_id: Option<Seq<char>>,
    pub arguments: Option<Seq<char>>,
    pub arguments_bytes: Option<u64>,
    pub arguments_truncated: bool,
    pub result_summary: Option<Seq<char>>,
    pub result_bytes: Option<u64>,
    pub result_truncated: bool,
    pub status: Option<Seq<char>>,
    pub exit_code: Option<i64>,
}

impl View for TranscriptToolCall {
    type V = ToolCallView;

    open spec fn view(&self) -> ToolCallView {
        ToolCallView {
            tool_name: self.tool_name@,
            tool_call_id: text::opt_text(self.tool_call_id),
            arguments: text::opt_text(self.arguments),
            arguments_bytes: self.arguments_bytes,
            arguments_truncated: self.arguments_truncated,
            result_summary: text::opt_text(self.result_summary),
            result_bytes: self.result_bytes,
            result_truncated: self.result_truncated,
            status: text::opt_text(self.status),
            exit_code: self.exit_code,
        }
    }
}

/// A tool call of which only the name and the identifier are known.
pub open spec fn named_call(tool_name: Seq<char>, tool_call_id: Option<Seq<char>>) -> ToolCallView {
    ToolCallView {
        tool_name,
        tool_call_id,
        arguments: None,
        arguments_bytes: None,
        arguments_truncated: false,
        result_summary: None,
        result_bytes: None,
        result_truncated: false,
        status: None,
        exit_code: None,
    }
}

/// The call named `tool_name` with nothing else known of it.
pub fn new_call(tool_name: String, tool_call_id: Option<String>) -> (call: TranscriptToolCall)
    ensures
        call@ == named_call(tool_name@, text::opt_text(tool_call_id)),
{
    TranscriptToolCall {
        tool_name,
        tool_call_id,
        arguments: None,
        arguments_bytes: None,
        arguments_truncated: false,
        result_summary: None,
        result_bytes: None,
        result_truncated: false,
        status: None,
        exit_code: None,
    }
}

/// The views of tool calls.
pub open spec fn call_views(calls: Seq<TranscriptToolCall>) -> Seq<ToolCallView> {
    Seq::new(calls.len(), |i: int| calls[i]@)
}

/// Pushing a call pushes its view.
pub proof fn lemma_call_views_push(calls: Seq<TranscriptToolCall>, call: TranscriptToolCall)
    ensures
        call_views(calls.push(call)) == call_views(calls).push(call@),
{
    assert(call_views(calls.push(call)) =~= call_views(calls).push(call@));
}

/// A value's plain text after the cut, its length in bytes before the cut, and
/// whether the cut dropped anything.
pub struct BoundedView {
    pub text: Seq<char>,
    pub bytes: u64,
    pub truncated: bool,
}

/// A value as text, cut to the cap.
pub open spec fn bounded_value(value: Json, cap: int) -> BoundedView {
    BoundedView {
        text: text::bounded_spec(json::plain_text(value), cap),
        bytes: json::byte_len(json::plain_text(value)) as u64,
        truncated: json::plain_text(value).len() > cap,
    }
}

/// The bounded value, or the empty text where there is none.
pub open spec fn bounded_or_empty(value: Option<Json>, cap: int) -> BoundedView {
    match value {
        Some(inner) => bounded_value(inner, cap),
        None => BoundedView { text: Seq::<char>::empty(), bytes: 0, truncated: false },
    }
}

/// The call with what went in.
pub open spec fn with_arguments(call: ToolCallView, bounded: BoundedView) -> ToolCallView {
    ToolCallView {
        arguments: Some(bounded.text),
        arguments_bytes: Some(bounded.bytes),
        arguments_truncated: bounded.truncated,
        ..call
    }
}

/// The call with what came out.
pub open spec fn with_result(call: ToolCallView, bounded: BoundedView) -> ToolCallView {
    ToolCallView {
        result_summary: Some(bounded.text),
        result_bytes: Some(bounded.bytes),
        result_truncated: bounded.truncated,
        ..call
    }
}

/// The call with what came out, where anything but null did.
pub open spec fn with_present_result(
    call: ToolCallView,
    value: Option<Json>,
    cap: int,
) -> ToolCallView {
    match value {
        Some(Json::Null) => call,
        Some(inner) => with_result(call, bounded_value(inner, cap)),
        None => call,
    }
}

/// The value behind an optional reference.
pub open spec fn behind(value: Option<&Json>) -> Option<Json> {
    match value {
        Some(inner) => Some(*inner),
        None => None,
    }
}

fn bounded_or_default(value: Option<&Json>, cap: usize) -> (bounded: (String, u64, bool))
    ensures
        bounded_or_empty(behind(value), cap as int) == (BoundedView {
            text: bounded.0@,
            bytes: bounded.1,
            truncated: bounded.2,
        }),
{
    match value {
        Some(inner) => bounded_json_string(inner, cap),
        None => {
            let empty = String::new();
            assert(empty@ =~= Seq::<char>::empty());
            (empty, 0, false)
        },
    }
}

/// Records what went into the call.
pub fn set_arguments(call: &mut TranscriptToolCall, value: Option<&Json>, cap: usize)
    ensures
        final(call)@ == with_arguments(old(call)@, bounded_or_empty(behind(value), cap as int)),
{
    let (text, bytes, truncated) = bounded_or_default(value, cap);
    call.arguments = Some(text);
    call.arguments_bytes = Some(bytes);
    call.arguments_truncated = truncated;
}

/// Records what came out of the call, the empty text where nothing did.
pub fn set_result(call: &mut TranscriptToolCall, value: Option<&Json>, cap: usize)
    ensures
        final(call)@ == with_result(old(call)@, bounded_or_empty(behind(value), cap as int)),
{
    let (text, bytes, truncated) = bounded_or_default(value, cap);
    call.result_summary = Some(text);
    call.result_bytes = Some(bytes);
    call.result_truncated = truncated;
}

/// Records what came out of the call, where anything but null did.
pub fn set_present_result(call: &mut TranscriptToolCall, value: Option<&Json>, cap: usize)
    ensures
        final(call)@ == with_present_result(old(call)@, behind(value), cap as int),
{
    match value {
        Some(Json::Null) => {},
        Some(inner) => {
            set_result(call, Some(inner), cap);
        },
        None => {},
    }
}

/// What one model used. The cost is kept as the line states it.
#[derive(Debug)]
pub struct TranscriptModelUsage {
    pub model: String,
    pub input_tokens: u64,
    pub output_tokens: u64,
    pub cache_read_input_tokens: u64,
    pub cache_creation_input_tokens: u64,
    pub cost_usd: Option<JsonNumber>,
}

/// One model's usage with its strings taken as text.
pub struct ModelUsageView {
    pub model: Seq<char>,
    pub input_tokens: u64,
    pub output_tokens: u64,
    pub cache_read_input_tokens: u64,
    pub cache_creation_input_tokens: u64,
    pub cost_usd: Option<NumberView>,
}

impl View for TranscriptModelUsage {
    type V = ModelUsageView;

    open spec fn view(&self) -> ModelUsageView {
        ModelUsageView {
            model: self.model@,
            input_tokens: self.input_tokens,
            output_tokens: self.output_tokens,
            cache_read_input_tokens: self.cache_read_input_tokens,
            cache_creation_input_tokens: self.cache_creation_input_tokens,
            cost_usd: json::opt_number(self.cost_usd),
        }
    }
}

/// The views of model usages.
pub open spec fn usage_views(usages: Seq<TranscriptModelUsage>) -> Seq<ModelUsageView> {
    Seq::new(usages.len(), |i: int| usages[i]@)
}

/// The tokens that a line accounts for. The cost is kept as the line states it.
#[derive(Debug)]
pub struct TranscriptUsage {
    pub input_tokens: Option<u64>,
    pub output_tokens: Option<u64>,
    pub cache_read_input_tokens: Option<u64>,
    pub cache_creation_input_tokens: Option<u64>,
    pub cache_creation_5m_input_tokens: Option<u64>,
    pub cache_creation_1h_input_tokens: Option<u64>,
    pub reasoning_output_tokens: Option<u64>,
    pub total_cost_usd: Option<JsonNumber>,
    pub model_usage: Vec<TranscriptModelUsage>,
}

/// A usage with its strings taken as text.
pub struct UsageView {
    pub input_tokens: Option<u64>,
    pub output_tokens: Option<u64>,
    pub cache_read_input_tokens: Option<u64>,
    pub cache_creation_input_tokens: Option<u64>,
    pub cache_creation_5m_input_tokens: Option<u64>,
    pub cache_creation_1h_input_tokens: Option<u64>,
    pub reasoning_output_tokens: Option<u64>,
    pub total_cost_usd: Option<NumberView>,
    pub model_usage: Seq<ModelUsageView>,
}

impl View for TranscriptUsage {
    type V = UsageView;

    open spec fn view(&self) -> UsageView {
        UsageView {
            input_tokens: self.input_tokens,
            output_tokens: self.output_tokens,
            cache_read_input_tokens: self.cache_read_input_tokens,
            cache_creation_input_tokens: self.cache_creation_input_tokens,
            cache_creation_5m_input_tokens: self.cache_creation_5m_input_tokens,
            cache_creation_1h_input_tokens: self.cache_creation_1h_input_tokens,
            reasoning_output_tokens: self.reasoning_output_tokens,
            total_cost_usd: json::opt_number(self.total_cost_usd),
            model_usage: usage_views(self.model_usage@),
        }
    }
}

/// The usage that accounts for nothing.
pub open spec fn no_usage() -> UsageView {
    UsageView {
        input_tokens: None,
        output_tokens: None,
        cache_read_input_tokens: None,
        cache_creation_input_tokens: None,
        cache_creation_5m_input_tokens: None,
        cache_creation_1h_input_tokens: None,
        reasoning_output_tokens: None,
        total_cost_usd: None,
        model_usage: Seq::<ModelUsageView>::empty(),
    }
}

impl TranscriptUsage {
    /// The usage that accounts for nothing.
    pub fn none() -> (usage: Self)
        ensures
            usage@ == no_usage(),
    {
        let model_usage: Vec<TranscriptModelUsage> = Vec::new();
        assert(usage_views(model_usage@) =~= Seq::<ModelUsageView>::empty());
        TranscriptUsage {
            input_tokens: None,
            output_tokens: None,
            cache_read_input_tokens: None,
            cache_creation_input_tokens: None,
            cache_creation_5m_input_tokens: None,
            cache_creation_1h_input_tokens: None,
            reasoning_output_tokens: None,
            total_cost_usd: None,
            model_usage,
        }
    }

    /// Whether the usage accounts for nothing.
    pub fn is_empty(&self) -> (empty: bool)
        ensures
            empty == (self@ == no_usage()),
    {
        let empty: bool = self.input_tokens.is_none() && self.output_tokens.is_none()
            && self.cache_read_input_tokens.is_none() && self.cache_creation_input_tokens.is_none()
            && self.cache_creation_5m_input_tokens.is_none()
            && self.cache_creation_1h_input_tokens.is_none()
            && self.reasoning_output_tokens.is_none() && self.total_cost_usd.is_none()
            && self.model_usage.len() == 0;
        proof {
            if empty {
                assert(usage_views(self.model_usage@) =~= Seq::<ModelUsageView>::empty());
            } else if self.model_usage@.len() > 0 {
                assert(usage_views(self.model_usage@).len() > 0);
            }
        }
        empty
    }
}

/// The text of a line: its beginning, its length and its digest.
#[derive(Debug)]
pub struct LineContent {
    pub summary: String,
    pub bytes: u64,
    pub sha256: String,
    pub truncated: bool,
}

/// The content with its strings taken as text.
pub struct ContentView {
    pub summary: Seq<char>,
    pub bytes: u64,
    pub sha256: Seq<char>,
    pub truncated: bool,
}

impl View for LineContent {
    type V = ContentView;

    open spec fn view(&self) -> ContentView {
        ContentView {
            summary: self.summary@,
            bytes: self.bytes,
            sha256: self.sha256@,
            truncated: self.truncated,
        }
    }
}

/// What a row carries of a text.
pub open spec fn content_of(content: Seq<char>, rules: RulesView) -> ContentView {
    ContentView {
        summary: text::bounded_spec(content, rules.max_summary_chars),
        bytes: json::byte_len(content) as u64,
        sha256: digest::sha256_text(encode_utf8(content)),
        truncated: content.len() > rules.max_summary_chars,
    }
}

/// What a row carries of `content`.
pub fn summarize(content: &str, rules: &TranscriptRules) -> (line: LineContent)
    ensures
        line@ == content_of(content@, rules@),
{
    let (summary, truncated) = bounded_chars(content, rules.max_summary_chars);
    let bytes: u64 = content.as_bytes().len() as u64;
    LineContent { summary, bytes, sha256: sha256_hex(content.as_bytes()), truncated }
}

/// What the vocabulary made of a line.
#[derive(Debug)]
pub struct LineBody {
    pub role: TranscriptRole,
    pub event_kind: String,
    pub tool_calls: Vec<TranscriptToolCall>,
    pub usage: Option<TranscriptUsage>,
    pub content: Option<LineContent>,
    pub source_error: Option<String>,
}

/// A body with its strings taken as text.
pub struct BodyView {
    pub role: TranscriptRole,
    pub event_kind: Seq<char>,
    pub tool_calls: Seq<ToolCallView>,
    pub usage: Option<UsageView>,
    pub content: Option<ContentView>,
    pub source_error: Option<Seq<char>>,
}

/// The view of an optional usage.
pub open spec fn opt_usage(value: Option<TranscriptUsage>) -> Option<UsageView> {
    match value {
        Some(usage) => Some(usage@),
        None => None,
    }
}

/// The view of an optional content.
pub open spec fn opt_content(value: Option<LineContent>) -> Option<ContentView> {
    match value {
        Some(content) => Some(content@),
        None => None,
    }
}

impl View for LineBody {
    type V = BodyView;

    open spec fn view(&self) -> BodyView {
        BodyView {
            role: self.role,
            event_kind: self.event_kind@,
            tool_calls: call_views(self.tool_calls@),
            usage: opt_usage(self.usage),
            content: opt_content(self.content),
            source_error: text::opt_text(self.source_error),
        }
    }
}

/// A body with nothing but its role and its kind.
pub open spec fn plain_body(role: TranscriptRole, event_kind: Seq<char>) -> BodyView {
    BodyView {
        role,
        event_kind,
        tool_calls: Seq::<ToolCallView>::empty(),
        usage: None,
        content: None,
        source_error: None,
    }
}

/// A body with a text.
pub open spec fn with_content(body: BodyView, content: Seq<char>, rules: RulesView) -> BodyView {
    BodyView { content: Some(content_of(content, rules)), ..body }
}

/// A body with a text, where there is one.
pub open spec fn with_opt_content(
    body: BodyView,
    content: Option<Seq<char>>,
    rules: RulesView,
) -> BodyView {
    match content {
        Some(text) => with_content(body, text, rules),
        None => body,
    }
}

/// A body with one tool call.
pub open spec fn with_call(body: BodyView, call: ToolCallView) -> BodyView {
    BodyView { tool_calls: body.tool_calls.push(call), ..body }
}

impl LineBody {
    /// A body with nothing but its role and its kind.
    pub fn plain(role: TranscriptRole, event_kind: String) -> (body: Self)
        ensures
            body@ == plain_body(role, event_kind@),
    {
        let tool_calls: Vec<TranscriptToolCall> = Vec::new();
        assert(call_views(tool_calls@) =~= Seq::<ToolCallView>::empty());
        LineBody { role, event_kind, tool_calls, usage: None, content: None, source_error: None }
    }

    /// Gives the body its text.
    pub fn set_content(&mut self, content: &str, rules: &TranscriptRules)
        ensures
            final(self)@ == with_content(old(self)@, content@, rules@),
    {
        self.content = Some(summarize(content, rules));
    }

    /// Gives the body its text, where there is one.
    pub fn set_opt_content(&mut self, content: Option<&str>, rules: &TranscriptRules)
        ensures
            final(self)@ == with_opt_content(
                old(self)@,
                match content {
                    Some(text) => Some(text@),
                    None => None,
                },
                rules@,
            ),
    {
        if let Some(text) = content {
            self.set_content(text, rules);
        }
    }

    /// Adds a tool call.
    pub fn push_call(&mut self, call: TranscriptToolCall)
        ensures
            final(self)@ == with_call(old(self)@, call@),
    {
        proof {
            lemma_call_views_push(self.tool_calls@, call);
        }
        self.tool_calls.push(call);
    }
}

/// What the stream has said of itself so far.
#[derive(Debug)]
pub struct StreamState {
    /// The current turn: the distinct assistant messages so far, or the turns that
    /// the source itself counts.
    pub turn_index: u64,
    pub last_assistant_message_id: Option<String>,
    /// The ids of the assistant messages so far, each once.
    pub seen_message_ids: Vec<String>,
    pub conversation_id: Option<String>,
    pub model: Option<String>,
}

/// The stream's state with its strings taken as text.
pub struct StreamView {
    pub turn_index: u64,
    pub last_assistant_message_id: Option<Seq<char>>,
    pub seen_message_ids: Seq<Seq<char>>,
    pub conversation_id: Option<Seq<char>>,
    pub model: Option<Seq<char>>,
}

impl View for StreamState {
    type V = StreamView;

    open spec fn view(&self) -> StreamView {
        StreamView {
            turn_index: self.turn_index,
            last_assistant_message_id: text::opt_text(self.last_assistant_message_id),
            seen_message_ids: text::texts(self.seen_message_ids@),
            conversation_id: text::opt_text(self.conversation_id),
            model: text::opt_text(self.model),
        }
    }
}

impl Clone for StreamState {
    fn clone(&self) -> (copy: Self)
        ensures
            copy@ == self@,
    {
        StreamState {
            turn_index: self.turn_index,
            last_assistant_message_id: self.last_assistant_message_id.clone(),
            seen_message_ids: copy_texts(&self.seen_message_ids),
            conversation_id: self.conversation_id.clone(),
            model: self.model.clone(),
        }
    }
}

/// What a vocabulary says of one line: the model and the turn that the line
/// names, and its body or why it has none.
#[derive(Debug)]
pub struct LineParse {
    pub model: Option<String>,
    pub turn_index: Option<u64>,
    pub outcome: Result<LineBody, String>,
}

/// A parse with its strings taken as text.
pub struct ParseView {
    pub model: Option<Seq<char>>,
    pub turn_index: Option<u64>,
    pub outcome: Result<BodyView, Seq<char>>,
}

/// The view of an outcome.
pub open spec fn outcome_view(outcome: Result<LineBody, String>) -> Result<BodyView, Seq<char>> {
    match outcome {
        Ok(body) => Ok(body@),
        Err(refusal) => Err(refusal@),
    }
}

impl View for LineParse {
    type V = ParseView;

    open spec fn view(&self) -> ParseView {
        ParseView {
            model: text::opt_text(self.model),
            turn_index: self.turn_index,
            outcome: outcome_view(self.outcome),
        }
    }
}

/// A parse that names neither model nor turn.
pub open spec fn parse_of(outcome: Result<BodyView, Seq<char>>) -> ParseView {
    ParseView { model: None, turn_index: None, outcome }
}

/// A refusal that names neither model nor turn.
pub open spec fn refused(refusal: Seq<char>) -> ParseView {
    parse_of(Err(refusal))
}

/// The parse that refuses a line for the reason given.
pub fn refuse(refusal: &str) -> (parse: LineParse)
    ensures
        parse@ == refused(refusal@),
{
    LineParse { model: None, turn_index: None, outcome: Err(refusal.to_owned()) }
}

/// The parse that refuses a line for the reason given, with its detail.
pub fn refuse_with(refusal: &str, detail: &str) -> (parse: LineParse)
    ensures
        parse@ == refused(refusal@ + detail@),
{
    LineParse { model: None, turn_index: None, outcome: Err(joined(refusal, detail)) }
}

/// The parse that accepts a line.
pub fn accept(body: LineBody) -> (parse: LineParse)
    ensures
        parse@ == parse_of(Ok(body@)),
{
    LineParse { model: None, turn_index: None, outcome: Ok(body) }
}

} // verus!
