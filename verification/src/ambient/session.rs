//! The vocabulary of persisted session files: enveloped messages between records
//! about the session itself.
use crate::ambient::outbox;
use crate::ambient::outbox::{Lifecycle, LifecycleView};
use crate::ambient::tracking::{SessionState, SessionView};
use crate::digest;
use crate::digest::sha256_hex;
use crate::json;
use crate::json::{
    Json, array_member_of, member_of, object_member_of, read_json, str_member_of, string_member_of,
    write_json,
};
use crate::text;
use crate::text::{joined, str_equal, utf8_text};
use crate::transcripts::claude;
use crate::transcripts::claude::{claude_usage, join_lines};
use crate::transcripts::lines;
use crate::transcripts::lines::{AgentTranscriptRecord, RecordView};
use crate::transcripts::record;
use crate::transcripts::record::{
    BodyView, LineBody, RulesView, ToolCallView, TranscriptParseStatus, TranscriptRole,
    TranscriptRules, TranscriptSource, TranscriptToolCall, new_call, set_arguments, set_result,
};
use crate::transcripts::times;
use crate::transcripts::times::{field_matches, transcript_source_ts_ns};
use vstd::prelude::*;
use vstd::string::*;
use vstd::utf8::*;

verus! {

/// What a content block of an assistant message adds.
pub struct SessionBlockView {
    pub text: Option<Seq<char>>,
    pub call: Option<ToolCallView>,
    /// The tool that the block uses, and the digest of its input.
    pub tool: Option<(Seq<char>, Seq<char>)>,
}

/// What the content blocks of an assistant message add up to.
pub struct SessionBlocksView {
    pub texts: Seq<Seq<char>>,
    pub calls: Seq<ToolCallView>,
    pub last_tool: Option<(Seq<char>, Seq<char>)>,
}

/// The input of a tool, null where there is none.
pub open spec fn tool_input(block: Json) -> Json {
    match json::member(block, "input"@) {
        Some(input) => input,
        None => Json::Null,
    }
}

/// What a content block of an assistant message adds, or why it is refused.
pub open spec fn session_block(block: Json, rules: RulesView) -> Result<
    SessionBlockView,
    Seq<char>,
> {
    let nothing = SessionBlockView { text: None, call: None, tool: None };
    if !(block is Object) {
        Err("ASSISTANT_CONTENT_BLOCK_NOT_OBJECT"@)
    } else {
        match json::str_member(block, "type"@) {
            None => Err("ASSISTANT_CONTENT_BLOCK_MISSING_TYPE"@),
            Some(kind) => if kind == "text"@ {
                Ok(SessionBlockView { text: json::str_member(block, "text"@), ..nothing })
            } else if kind == "thinking"@ {
                Ok(SessionBlockView { text: json::str_member(block, "thinking"@), ..nothing })
            } else if kind == "redacted_thinking"@ {
                Ok(nothing)
            } else if kind == "fallback"@ {
                Ok(SessionBlockView { text: Some(json::json_writing(block)), ..nothing })
            } else if kind == "tool_use"@ || kind == "server_tool_use"@ {
                match json::str_member(block, "name"@) {
                    None => Err("TOOL_USE_MISSING_NAME"@),
                    Some(name) => Ok(
                        SessionBlockView {
                            text: None,
                            call: Some(
                                record::with_arguments(
                                    record::named_call(name, json::str_member(block, "id"@)),
                                    record::bounded_value(tool_input(block), rules.max_tool_args_chars),
                                ),
                            ),
                            tool: Some(
                                (name, digest::sha256_text(encode_utf8(json::json_writing(tool_input(block))))),
                            ),
                        },
                    ),
                }
            } else {
                Err("UNKNOWN_ASSISTANT_CONTENT_BLOCK: "@ + kind)
            },
        }
    }
}

/// The blocks so far with one more.
pub open spec fn session_blocks_push(
    blocks: SessionBlocksView,
    block: SessionBlockView,
) -> SessionBlocksView {
    SessionBlocksView {
        texts: match block.text {
            Some(text) => blocks.texts.push(text),
            None => blocks.texts,
        },
        calls: match block.call {
            Some(call) => blocks.calls.push(call),
            None => blocks.calls,
        },
        last_tool: match block.tool {
            Some(tool) => Some(tool),
            None => blocks.last_tool,
        },
    }
}

/// What the content blocks of an assistant message add up to; the first block
/// that is refused refuses them all.
pub open spec fn session_blocks(items: Seq<Json>, rules: RulesView) -> Result<
    SessionBlocksView,
    Seq<char>,
>
    decreases items.len(),
{
    if items.len() == 0 {
        Ok(
            SessionBlocksView {
                texts: Seq::<Seq<char>>::empty(),
                calls: Seq::<ToolCallView>::empty(),
                last_tool: None,
            },
        )
    } else {
        match session_blocks(items.drop_last(), rules) {
            Err(refusal) => Err(refusal),
            Ok(blocks) => match session_block(items.last(), rules) {
                Err(refusal) => Err(refusal),
                Ok(block) => Ok(session_blocks_push(blocks, block)),
            },
        }
    }
}

proof fn lemma_session_blocks_prefix(items: Seq<Json>, upto: int, rules: RulesView)
    requires
        0 <= upto <= items.len(),
        session_blocks(items.subrange(0, upto), rules) is Err,
    ensures
        session_blocks(items, rules) == session_blocks(items.subrange(0, upto), rules),
    decreases items.len(),
{
    if upto == items.len() {
        assert(items.subrange(0, upto) =~= items);
    } else {
        assert(items.drop_last().subrange(0, upto) =~= items.subrange(0, upto));
        lemma_session_blocks_prefix(items.drop_last(), upto, rules);
    }
}

/// A content block that was read.
pub struct SessionBlock {
    pub text: Option<String>,
    pub call: Option<TranscriptToolCall>,
    pub tool: Option<(String, String)>,
}

/// The view of an optional tool.
pub open spec fn opt_tool(tool: Option<(String, String)>) -> Option<(Seq<char>, Seq<char>)> {
    match tool {
        Some(inner) => Some((inner.0@, inner.1@)),
        None => None,
    }
}

impl View for SessionBlock {
    type V = SessionBlockView;

    open spec fn view(&self) -> SessionBlockView {
        SessionBlockView {
            text: text::opt_text(self.text),
            call: claude::opt_call(self.call),
            tool: opt_tool(self.tool),
        }
    }
}

/// The view of a read block.
pub open spec fn session_block_outcome(outcome: Result<SessionBlock, String>) -> Result<
    SessionBlockView,
    Seq<char>,
> {
    match outcome {
        Ok(block) => Ok(block@),
        Err(refusal) => Err(refusal@),
    }
}

/// Reads one content block of an assistant message.
pub fn read_session_block(block: &Json, rules: &TranscriptRules) -> (outcome: Result<
    SessionBlock,
    String,
>)
    ensures
        session_block_outcome(outcome) == session_block(*block, rules@),
{
    match block {
        Json::Object(_) => {},
        _ => {
            return Err("ASSISTANT_CONTENT_BLOCK_NOT_OBJECT".to_owned());
        },
    }
    let kind = match str_member_of(block, "type") {
        Some(kind) => kind,
        None => {
            return Err("ASSISTANT_CONTENT_BLOCK_MISSING_TYPE".to_owned());
        },
    };
    if str_equal(kind, "text") {
        Ok(SessionBlock { text: string_member_of(block, "text"), call: None, tool: None })
    } else if str_equal(kind, "thinking") {
        Ok(SessionBlock { text: string_member_of(block, "thinking"), call: None, tool: None })
    } else if str_equal(kind, "redacted_thinking") {
        Ok(SessionBlock { text: None, call: None, tool: None })
    } else if str_equal(kind, "fallback") {
        Ok(SessionBlock { text: Some(write_json(block)), call: None, tool: None })
    } else if str_equal(kind, "tool_use") || str_equal(kind, "server_tool_use") {
        match string_member_of(block, "name") {
            None => Err("TOOL_USE_MISSING_NAME".to_owned()),
            Some(name) => {
                let null = Json::Null;
                let input = match member_of(block, "input") {
                    Some(input) => input,
                    None => &null,
                };
                let notation = write_json(input);
                let tool = (name.clone(), sha256_hex(notation.as_str().as_bytes()));
                let mut call = new_call(name, string_member_of(block, "id"));
                set_arguments(&mut call, Some(input), rules.max_tool_args_chars);
                Ok(SessionBlock { text: None, call: Some(call), tool: Some(tool) })
            },
        }
    } else {
        Err(joined("UNKNOWN_ASSISTANT_CONTENT_BLOCK: ", kind))
    }
}

/// Content blocks that were read.
pub struct SessionBlocks {
    pub texts: Vec<String>,
    pub calls: Vec<TranscriptToolCall>,
    pub last_tool: Option<(String, String)>,
}

impl View for SessionBlocks {
    type V = SessionBlocksView;

    open spec fn view(&self) -> SessionBlocksView {
        SessionBlocksView {
            texts: text::texts(self.texts@),
            calls: record::call_views(self.calls@),
            last_tool: opt_tool(self.last_tool),
        }
    }
}

/// The view of read blocks.
pub open spec fn session_blocks_outcome(outcome: Result<SessionBlocks, String>) -> Result<
    SessionBlocksView,
    Seq<char>,
> {
    match outcome {
        Ok(blocks) => Ok(blocks@),
        Err(refusal) => Err(refusal@),
    }
}

fn read_session_blocks(items: &Vec<Json>, rules: &TranscriptRules) -> (outcome: Result<
    SessionBlocks,
    String,
>)
    ensures
        session_blocks_outcome(outcome) == session_blocks(items@, rules@),
{
    let mut blocks = SessionBlocks { texts: Vec::new(), calls: Vec::new(), last_tool: None };
    assert(blocks@.texts =~= Seq::<Seq<char>>::empty());
    assert(blocks@.calls =~= Seq::<ToolCallView>::empty());
    let mut index: usize = 0;
    while index < items.len()
        invariant
            index <= items@.len(),
            session_blocks(items@.subrange(0, index as int), rules@) == Ok::<
                SessionBlocksView,
                Seq<char>,
            >(blocks@),
        decreases items@.len() - index,
    {
        proof {
            let prefix = items@.subrange(0, index as int + 1);
            assert(prefix.drop_last() =~= items@.subrange(0, index as int));
            assert(prefix.last() == items@[index as int]);
            if session_blocks(prefix, rules@) is Err {
                lemma_session_blocks_prefix(items@, index as int + 1, rules@);
            }
        }
        let before: Ghost<SessionBlocksView> = Ghost(blocks@);
        match read_session_block(&items[index], rules) {
            Ok(block) => {
                let view: Ghost<SessionBlockView> = Ghost(block@);
                if let Some(text) = block.text {
                    blocks.texts.push(text);
                    assert(text::texts(blocks.texts@) =~= before@.texts.push(text@));
                }
                if let Some(call) = block.call {
                    blocks.calls.push(call);
                    assert(record::call_views(blocks.calls@) =~= before@.calls.push(call@));
                }
                if let Some(tool) = block.tool {
                    blocks.last_tool = Some(tool);
                }
                assert(blocks@ == session_blocks_push(before@, view@));
            },
            Err(refusal) => {
                return Err(refusal);
            },
        }
        index = index + 1;
    }
    assert(items@.subrange(0, items@.len() as int) =~= items@);
    Ok(blocks)
}

/// A body and what it says of the state of the agent.
pub struct SignalView {
    pub body: BodyView,
    pub lifecycle: Option<LifecycleView>,
}

/// What an assistant message says of the state of the agent: a tool that it uses
/// comes first; without one, a stop for anything but a tool ends the turn.
pub open spec fn assistant_signal(
    message: Json,
    last_tool: Option<(Seq<char>, Seq<char>)>,
) -> LifecycleView {
    match last_tool {
        Some((tool_name, input_sha256)) => LifecycleView::ToolUse { tool_name, input_sha256 },
        None => match json::str_member(message, "stop_reason"@) {
            Some(reason) => if reason == "tool_use"@ {
                LifecycleView::Working
            } else {
                LifecycleView::Idle
            },
            None => LifecycleView::Working,
        },
    }
}

/// What an assistant message says, or why it is refused.
pub open spec fn session_assistant(message: Json, rules: RulesView) -> Result<
    SignalView,
    Seq<char>,
> {
    match json::array_member(message, "content"@) {
        None => Err("ASSISTANT_MISSING_CONTENT_ARRAY"@),
        Some(items) => match session_blocks(items, rules) {
            Err(refusal) => Err(refusal),
            Ok(blocks) => Ok(
                SignalView {
                    body: BodyView {
                        tool_calls: blocks.calls,
                        usage: match json::member(message, "usage"@) {
                            Some(usage) => Some(claude::claude_usage_of(usage)),
                            None => None,
                        },
                        ..record::with_opt_content(
                            record::plain_body(TranscriptRole::Assistant, "assistant"@),
                            claude::joined_texts(blocks.texts),
                            rules,
                        )
                    },
                    lifecycle: Some(assistant_signal(message, blocks.last_tool)),
                },
            ),
        },
    }
}

/// A body and what it says of the state of the agent.
pub struct SessionSignal {
    pub body: LineBody,
    pub lifecycle: Option<Lifecycle>,
}

impl View for SessionSignal {
    type V = SignalView;

    open spec fn view(&self) -> SignalView {
        SignalView { body: self.body@, lifecycle: outbox::opt_lifecycle(self.lifecycle) }
    }
}

/// The view of a signal that was read.
pub open spec fn signal_outcome(outcome: Result<SessionSignal, String>) -> Result<
    SignalView,
    Seq<char>,
> {
    match outcome {
        Ok(signal) => Ok(signal@),
        Err(refusal) => Err(refusal@),
    }
}

/// Reads an assistant message.
pub fn classify_assistant(message: &Json, rules: &TranscriptRules) -> (outcome: Result<
    SessionSignal,
    String,
>)
    ensures
        signal_outcome(outcome) == session_assistant(*message, rules@),
{
    let items = match array_member_of(message, "content") {
        Some(items) => items,
        None => {
            return Err("ASSISTANT_MISSING_CONTENT_ARRAY".to_owned());
        },
    };
    let blocks = match read_session_blocks(items, rules) {
        Ok(blocks) => blocks,
        Err(refusal) => {
            return Err(refusal);
        },
    };
    let mut body = LineBody::plain(TranscriptRole::Assistant, "assistant".to_owned());
    let joined_text = join_lines(&blocks.texts);
    match &joined_text {
        Some(text) => {
            body.set_content(text.as_str(), rules);
        },
        None => {},
    }
    body.tool_calls = blocks.calls;
    body.usage = match member_of(message, "usage") {
        Some(usage) => Some(claude_usage(usage)),
        None => None,
    };
    let lifecycle = match blocks.last_tool {
        Some(tool) => Lifecycle::ToolUse { tool_name: tool.0, input_sha256: tool.1 },
        None => match str_member_of(message, "stop_reason") {
            Some(reason) => if str_equal(reason, "tool_use") {
                Lifecycle::Working
            } else {
                Lifecycle::Idle
            },
            None => Lifecycle::Working,
        },
    };
    Ok(SessionSignal { body, lifecycle: Some(lifecycle) })
}

/// How the outcome of a tool call is named: not at all where nothing is said.
pub open spec fn outcome_status(block: Json, rules: RulesView) -> Result<
    Option<Seq<char>>,
    Seq<char>,
> {
    match json::member(block, "is_error"@) {
        None => Ok(None),
        Some(Json::Null) => Ok(None),
        Some(Json::Bool(true)) => Ok(Some(rules.tool_status_error)),
        Some(Json::Bool(false)) => Ok(Some(rules.tool_status_ok)),
        Some(other) => Err("TOOL_RESULT_IS_ERROR_NOT_BOOLEAN: is_error="@ + json::json_writing(other)),
    }
}

/// What the content blocks of a user message add up to.
pub struct UserBlocksView {
    pub results: Seq<ToolCallView>,
    pub texts: Seq<Seq<char>>,
}

/// The blocks so far with one more, or why that one is refused. Attachments add
/// nothing.
pub open spec fn user_blocks_push(blocks: UserBlocksView, block: Json, rules: RulesView) -> Result<
    UserBlocksView,
    Seq<char>,
> {
    if !(block is Object) {
        Err("USER_CONTENT_BLOCK_NOT_OBJECT"@)
    } else if json::str_member(block, "type"@) == Some("tool_result"@) {
        match outcome_status(block, rules) {
            Err(refusal) => Err(refusal),
            Ok(status) => Ok(
                UserBlocksView {
                    results: blocks.results.push(
                        ToolCallView {
                            status,
                            ..record::with_result(
                                record::named_call("tool_result"@, json::str_member(block, "tool_use_id"@)),
                                record::bounded_or_empty(
                                    json::member(block, "content"@),
                                    rules.max_tool_result_chars,
                                ),
                            )
                        },
                    ),
                    texts: blocks.texts,
                },
            ),
        }
    } else if json::str_member(block, "type"@) == Some("text"@) {
        Ok(
            UserBlocksView {
                results: blocks.results,
                texts: match json::str_member(block, "text"@) {
                    Some(text) => blocks.texts.push(text),
                    None => blocks.texts,
                },
            },
        )
    } else {
        Ok(blocks)
    }
}

/// What the content blocks of a user message add up to; the first block that is
/// refused refuses them all.
pub open spec fn session_user_blocks(items: Seq<Json>, rules: RulesView) -> Result<
    UserBlocksView,
    Seq<char>,
>
    decreases items.len(),
{
    if items.len() == 0 {
        Ok(
            UserBlocksView {
                results: Seq::<ToolCallView>::empty(),
                texts: Seq::<Seq<char>>::empty(),
            },
        )
    } else {
        match session_user_blocks(items.drop_last(), rules) {
            Err(refusal) => Err(refusal),
            Ok(blocks) => user_blocks_push(blocks, items.last(), rules),
        }
    }
}

proof fn lemma_user_blocks_prefix(items: Seq<Json>, upto: int, rules: RulesView)
    requires
        0 <= upto <= items.len(),
        session_user_blocks(items.subrange(0, upto), rules) is Err,
    ensures
        session_user_blocks(items, rules) == session_user_blocks(items.subrange(0, upto), rules),
    decreases items.len(),
{
    if upto == items.len() {
        assert(items.subrange(0, upto) =~= items);
    } else {
        assert(items.drop_last().subrange(0, upto) =~= items.subrange(0, upto));
        lemma_user_blocks_prefix(items.drop_last(), upto, rules);
    }
}

/// Content blocks of a user message that were read.
pub struct UserBlocks {
    pub results: Vec<TranscriptToolCall>,
    pub texts: Vec<String>,
}

impl View for UserBlocks {
    type V = UserBlocksView;

    open spec fn view(&self) -> UserBlocksView {
        UserBlocksView { results: record::call_views(self.results@), texts: text::texts(self.texts@) }
    }
}

/// The view of read blocks.
pub open spec fn user_blocks_outcome(outcome: Result<UserBlocks, String>) -> Result<
    UserBlocksView,
    Seq<char>,
> {
    match outcome {
        Ok(blocks) => Ok(blocks@),
        Err(refusal) => Err(refusal@),
    }
}

/// The view of an outcome's name.
pub open spec fn status_outcome(outcome: Result<Option<String>, String>) -> Result<
    Option<Seq<char>>,
    Seq<char>,
> {
    match outcome {
        Ok(status) => Ok(text::opt_text(status)),
        Err(refusal) => Err(refusal@),
    }
}

/// Names the outcome of a tool call.
pub fn read_outcome_status(block: &Json, rules: &TranscriptRules) -> (outcome: Result<
    Option<String>,
    String,
>)
    ensures
        status_outcome(outcome) == outcome_status(*block, rules@),
{
    match member_of(block, "is_error") {
        None => Ok(None),
        Some(Json::Null) => Ok(None),
        Some(Json::Bool(true)) => Ok(Some(rules.tool_status_error.clone())),
        Some(Json::Bool(false)) => Ok(Some(rules.tool_status_ok.clone())),
        Some(other) => Err(
            joined("TOOL_RESULT_IS_ERROR_NOT_BOOLEAN: is_error=", write_json(other).as_str()),
        ),
    }
}

fn add_user_block(blocks: &mut UserBlocks, block: &Json, rules: &TranscriptRules) -> (refusal: Option<
    String,
>)
    ensures
        match user_blocks_push(old(blocks)@, *block, rules@) {
            Ok(pushed) => refusal is None && final(blocks)@ == pushed,
            Err(reason) => text::opt_text(refusal) == Some(reason)
                && final(blocks)@ == old(blocks)@,
        },
{
    match block {
        Json::Object(_) => {},
        _ => {
            return Some("USER_CONTENT_BLOCK_NOT_OBJECT".to_owned());
        },
    }
    let before: Ghost<UserBlocksView> = Ghost(blocks@);
    let kind = match str_member_of(block, "type") {
        Some(kind) => kind,
        None => {
            return None;
        },
    };
    if str_equal(kind, "tool_result") {
        let status = match read_outcome_status(block, rules) {
            Ok(status) => status,
            Err(refusal) => {
                return Some(refusal);
            },
        };
        let mut call = new_call("tool_result".to_owned(), string_member_of(block, "tool_use_id"));
        set_result(&mut call, member_of(block, "content"), rules.max_tool_result_chars);
        call.status = status;
        blocks.results.push(call);
        assert(record::call_views(blocks.results@) =~= before@.results.push(call@));
    } else if str_equal(kind, "text") {
        if let Some(text) = string_member_of(block, "text") {
            blocks.texts.push(text);
            assert(text::texts(blocks.texts@) =~= before@.texts.push(text@));
        }
    }
    None
}

fn read_user_blocks(items: &Vec<Json>, rules: &TranscriptRules) -> (outcome: Result<
    UserBlocks,
    String,
>)
    ensures
        user_blocks_outcome(outcome) == session_user_blocks(items@, rules@),
{
    let mut blocks = UserBlocks { results: Vec::new(), texts: Vec::new() };
    assert(blocks@.texts =~= Seq::<Seq<char>>::empty());
    assert(blocks@.results =~= Seq::<ToolCallView>::empty());
    let mut index: usize = 0;
    while index < items.len()
        invariant
            index <= items@.len(),
            session_user_blocks(items@.subrange(0, index as int), rules@) == Ok::<
                UserBlocksView,
                Seq<char>,
            >(blocks@),
        decreases items@.len() - index,
    {
        proof {
            let prefix = items@.subrange(0, index as int + 1);
            assert(prefix.drop_last() =~= items@.subrange(0, index as int));
            assert(prefix.last() == items@[index as int]);
            if session_user_blocks(prefix, rules@) is Err {
                lemma_user_blocks_prefix(items@, index as int + 1, rules@);
            }
        }
        if let Some(refusal) = add_user_block(&mut blocks, &items[index], rules) {
            return Err(refusal);
        }
        index = index + 1;
    }
    assert(items@.subrange(0, items@.len() as int) =~= items@);
    Ok(blocks)
}

/// What the content of a user message adds up to, or why it is refused.
pub open spec fn user_content(message: Json, rules: RulesView) -> Result<
    UserBlocksView,
    Seq<char>,
> {
    match json::member(message, "content"@) {
        None => Err("USER_MISSING_CONTENT"@),
        Some(Json::Str(text)) => Ok(
            UserBlocksView { results: Seq::<ToolCallView>::empty(), texts: seq![text@] },
        ),
        Some(Json::Array(items)) => session_user_blocks(items@, rules),
        Some(_) => Err("USER_CONTENT_NOT_STRING_OR_ARRAY"@),
    }
}

/// What a user record says, or why it is refused. Results of tools go back to
/// the model; anything else is a prompt, and a prompt begins a turn unless the
/// record is about the session.
pub open spec fn session_user(object: Json, rules: RulesView) -> Result<SignalView, Seq<char>> {
    match json::object_member(object, "message"@) {
        None => Err("USER_MISSING_MESSAGE"@),
        Some(message) => match user_content(message, rules) {
            Err(refusal) => Err(refusal),
            Ok(blocks) => if blocks.results.len() > 0 {
                Ok(
                    SignalView {
                        body: BodyView {
                            tool_calls: blocks.results,
                            ..record::plain_body(TranscriptRole::Tool, "user/tool_result"@)
                        },
                        lifecycle: None,
                    },
                )
            } else {
                let is_meta = json::member(object, "isMeta"@) == Some(Json::Bool(true));
                Ok(
                    SignalView {
                        body: record::with_opt_content(
                            record::plain_body(
                                TranscriptRole::System,
                                if is_meta {
                                    "user/meta"@
                                } else {
                                    "user/prompt"@
                                },
                            ),
                            claude::joined_texts(blocks.texts),
                            rules,
                        ),
                        lifecycle: if is_meta {
                            None
                        } else {
                            Some(LifecycleView::TurnStarted)
                        },
                    },
                )
            },
        },
    }
}

/// Reads a user record.
pub fn classify_user(object: &Json, rules: &TranscriptRules) -> (outcome: Result<
    SessionSignal,
    String,
>)
    ensures
        signal_outcome(outcome) == session_user(*object, rules@),
{
    let is_meta: bool = match member_of(object, "isMeta") {
        Some(Json::Bool(true)) => true,
        _ => false,
    };
    let message = match object_member_of(object, "message") {
        Some(message) => message,
        None => {
            return Err("USER_MISSING_MESSAGE".to_owned());
        },
    };
    let blocks = match member_of(message, "content") {
        None => {
            return Err("USER_MISSING_CONTENT".to_owned());
        },
        Some(Json::Str(text)) => {
            let read = UserBlocks { results: Vec::new(), texts: vec![text.clone()] };
            assert(read@.texts =~= seq![text@]);
            assert(read@.results =~= Seq::<ToolCallView>::empty());
            read
        },
        Some(Json::Array(items)) => match read_user_blocks(items, rules) {
            Ok(blocks) => blocks,
            Err(refusal) => {
                return Err(refusal);
            },
        },
        Some(_) => {
            return Err("USER_CONTENT_NOT_STRING_OR_ARRAY".to_owned());
        },
    };
    assert(blocks@.results.len() == blocks.results@.len());
    if blocks.results.len() > 0 {
        let mut body = LineBody::plain(TranscriptRole::Tool, "user/tool_result".to_owned());
        body.tool_calls = blocks.results;
        return Ok(SessionSignal { body, lifecycle: None });
    }
    let kind = if is_meta {
        "user/meta".to_owned()
    } else {
        "user/prompt".to_owned()
    };
    let mut body = LineBody::plain(TranscriptRole::System, kind);
    let joined_text = join_lines(&blocks.texts);
    match &joined_text {
        Some(text) => {
            body.set_content(text.as_str(), rules);
        },
        None => {},
    }
    let lifecycle = if is_meta {
        None
    } else {
        Some(Lifecycle::TurnStarted)
    };
    Ok(SessionSignal { body, lifecycle })
}

/// The records about the session itself.
pub open spec fn metadata_kinds() -> Seq<Seq<char>> {
    seq![
        "mode"@,
        "file-history-snapshot"@,
        "file-history-delta"@,
        "ai-title"@,
        "attachment"@,
        "last-prompt"@,
        "queue-operation"@,
        "result"@,
        "permission-mode"@,
        "pr-link"@,
        "worktree-state"@,
        "agent-name"@,
    ]
}

/// Whether a record is about the session itself.
pub fn is_session_metadata(kind: &str) -> (found: bool)
    ensures
        found == metadata_kinds().contains(kind@),
{
    let names: Vec<&'static str> = vec![
        "mode",
        "file-history-snapshot",
        "file-history-delta",
        "ai-title",
        "attachment",
        "last-prompt",
        "queue-operation",
        "result",
        "permission-mode",
        "pr-link",
        "worktree-state",
        "agent-name",
    ];
    assert(times::slice_texts(names@) =~= metadata_kinds());
    field_matches(kind, names.as_slice())
}

/// The session after the envelope of a record: the directory is that of the
/// first record that names one, the branch that of the last.
pub open spec fn after_envelope(object: Json, state: SessionView) -> SessionView {
    SessionView {
        cwd: if state.cwd is None {
            match json::str_member(object, "cwd"@) {
                Some(cwd) => if cwd.len() > 0 {
                    Some(cwd)
                } else {
                    None
                },
                None => None,
            }
        } else {
            state.cwd
        },
        git_branch: match json::str_member(object, "gitBranch"@) {
            Some(branch) => if branch.len() > 0 {
                Some(branch)
            } else {
                state.git_branch
            },
            None => state.git_branch,
        },
        ..state
    }
}

fn note_envelope(object: &Json, state: &mut SessionState)
    ensures
        final(state)@ == after_envelope(*object, old(state)@),
{
    if state.cwd.is_none() {
        if let Some(cwd) = str_member_of(object, "cwd") {
            if cwd.unicode_len() > 0 {
                state.cwd = Some(cwd.to_owned());
            }
        }
    }
    if let Some(branch) = str_member_of(object, "gitBranch") {
        if branch.unicode_len() > 0 {
            state.git_branch = Some(branch.to_owned());
        }
    }
}

/// What a record says, apart from what it says of the session.
pub open spec fn session_record(kind: Seq<char>, object: Json, rules: RulesView) -> Result<
    SignalView,
    Seq<char>,
> {
    if kind == "assistant"@ {
        match json::object_member(object, "message"@) {
            None => Err("ASSISTANT_MISSING_MESSAGE"@),
            Some(message) => session_assistant(message, rules),
        }
    } else if kind == "user"@ {
        session_user(object, rules)
    } else if kind == "system"@ {
        Ok(
            SignalView {
                body: record::with_opt_content(
                    record::plain_body(
                        TranscriptRole::System,
                        match json::str_member(object, "subtype"@) {
                            Some(subtype) => "system/"@ + subtype,
                            None => "system"@,
                        },
                    ),
                    json::str_member(object, "content"@),
                    rules,
                ),
                lifecycle: None,
            },
        )
    } else if kind == "summary"@ {
        Ok(
            SignalView {
                body: record::with_opt_content(
                    record::plain_body(TranscriptRole::System, "summary"@),
                    json::str_member(object, "summary"@),
                    rules,
                ),
                lifecycle: None,
            },
        )
    } else if metadata_kinds().contains(kind) {
        Ok(SignalView { body: record::plain_body(TranscriptRole::System, kind), lifecycle: None })
    } else {
        Err("UNKNOWN_RECORD_TYPE: "@ + kind)
    }
}

/// The model that a record names.
pub open spec fn record_model(kind: Seq<char>, object: Json) -> Option<Seq<char>> {
    if kind == "assistant"@ {
        match json::object_member(object, "message"@) {
            Some(message) => json::str_member(message, "model"@),
            None => None,
        }
    } else {
        None
    }
}

/// The session after an assistant message: its model, and one more turn where its id
/// is not that of the message before.
pub open spec fn after_assistant(state: SessionView, message: Json) -> SessionView {
    let named = match json::str_member(message, "model"@) {
        Some(model) => SessionView { model: Some(model), ..state },
        None => state,
    };
    match json::str_member(message, "id"@) {
        Some(id) => if named.last_assistant_message_id == Some(id) {
            named
        } else {
            SessionView {
                turn_index: (named.turn_index + 1) as u64,
                last_assistant_message_id: Some(id),
                ..named
            }
        },
        None => named,
    }
}

fn note_assistant(state: &mut SessionState, message: &Json)
    requires
        old(state)@.turn_index < u64::MAX,
    ensures
        final(state)@ == after_assistant(old(state)@, *message),
{
    if let Some(model) = string_member_of(message, "model") {
        state.model = Some(model);
    }
    if let Some(id) = string_member_of(message, "id") {
        let same = match &state.last_assistant_message_id {
            Some(last) => str_equal(last.as_str(), id.as_str()),
            None => false,
        };
        if !same {
            state.turn_index = state.turn_index + 1;
            state.last_assistant_message_id = Some(id);
        }
    }
}

/// The session after a record.
pub open spec fn after_record(object: Json, state: SessionView) -> SessionView {
    let enveloped = after_envelope(object, state);
    if json::str_member(object, "type"@) == Some("assistant"@) {
        match json::object_member(object, "message"@) {
            Some(message) => after_assistant(enveloped, message),
            None => enveloped,
        }
    } else {
        enveloped
    }
}

/// What a record says, the model that it names, and the session after it.
pub open spec fn session_parse(object: Json, rules: RulesView) -> (
    Option<Seq<char>>,
    Result<SignalView, Seq<char>>,
) {
    match json::str_member(object, "type"@) {
        None => (None, Err("MISSING_TYPE: line has no string `type` field"@)),
        Some(kind) => (record_model(kind, object), session_record(kind, object, rules)),
    }
}

/// A record that was read, and the model that it names.
pub struct SessionParse {
    pub model: Option<String>,
    pub outcome: Result<SessionSignal, String>,
}

/// Reads one record of a session file.
pub fn classify_session_object(object: &Json, state: &mut SessionState, rules: &TranscriptRules) -> (parse:
    SessionParse)
    requires
        old(state)@.turn_index < u64::MAX,
    ensures
        final(state)@ == after_record(*object, old(state)@),
        (text::opt_text(parse.model), signal_outcome(parse.outcome))
            == session_parse(*object, rules@),
{
    note_envelope(object, state);
    let kind = match str_member_of(object, "type") {
        Some(kind) => kind,
        None => {
            return SessionParse {
                model: None,
                outcome: Err("MISSING_TYPE: line has no string `type` field".to_owned()),
            };
        },
    };
    if str_equal(kind, "assistant") {
        let message = match object_member_of(object, "message") {
            Some(message) => message,
            None => {
                return SessionParse {
                    model: None,
                    outcome: Err("ASSISTANT_MISSING_MESSAGE".to_owned()),
                };
            },
        };
        note_assistant(state, message);
        return SessionParse {
            model: string_member_of(message, "model"),
            outcome: classify_assistant(message, rules),
        };
    }
    if str_equal(kind, "user") {
        return SessionParse { model: None, outcome: classify_user(object, rules) };
    }
    if str_equal(kind, "system") {
        let event_kind = match str_member_of(object, "subtype") {
            Some(subtype) => joined("system/", subtype),
            None => "system".to_owned(),
        };
        let mut body = LineBody::plain(TranscriptRole::System, event_kind);
        body.set_opt_content(str_member_of(object, "content"), rules);
        return SessionParse { model: None, outcome: Ok(SessionSignal { body, lifecycle: None }) };
    }
    if str_equal(kind, "summary") {
        let mut body = LineBody::plain(TranscriptRole::System, "summary".to_owned());
        body.set_opt_content(str_member_of(object, "summary"), rules);
        return SessionParse { model: None, outcome: Ok(SessionSignal { body, lifecycle: None }) };
    }
    if is_session_metadata(kind) {
        let body = LineBody::plain(TranscriptRole::System, kind.to_owned());
        return SessionParse { model: None, outcome: Ok(SessionSignal { body, lifecycle: None }) };
    }
    SessionParse { model: None, outcome: Err(joined("UNKNOWN_RECORD_TYPE: ", kind)) }
}

/// A row, what it says of the state of the agent, and the session after it.
pub struct PlacedView {
    pub record: RecordView,
    pub lifecycle: Option<LifecycleView>,
    pub state: SessionView,
}

/// The row of a line that was read as an object.
pub open spec fn placed_session_record(
    record: RecordView,
    object: Json,
    source_epoch_unix_ms: Option<u64>,
    state: SessionView,
    rules: RulesView,
) -> PlacedView {
    let after = after_record(object, state);
    let (model, outcome) = session_parse(object, rules);
    let timed = RecordView {
        ts_ns: times::source_ts_ns(
            Some(object),
            record.spawn_id,
            record.line_no as int,
            source_epoch_unix_ms,
            rules.vendor,
        ),
        model,
        ..record
    };
    match outcome {
        Err(refusal) => PlacedView {
            record: lines::invalid_record(timed, refusal),
            lifecycle: None,
            state: after,
        },
        Ok(signal) => PlacedView {
            record: RecordView {
                model: if model is Some {
                    model
                } else {
                    after.model
                },
                turn_index: if after.turn_index > 0 {
                    Some(after.turn_index)
                } else {
                    None
                },
                body: Some(signal.body),
                ..timed
            },
            lifecycle: signal.lifecycle,
            state: after,
        },
    }
}

/// The row of a line whose text was read as JSON.
pub open spec fn session_record_of_reading(
    record: RecordView,
    reading: Result<Json, Seq<char>>,
    source_epoch_unix_ms: Option<u64>,
    state: SessionView,
    rules: RulesView,
) -> PlacedView {
    match reading {
        Err(refusal) => PlacedView {
            record: lines::invalid_record(record, "LINE_NOT_JSON: "@ + refusal),
            lifecycle: None,
            state,
        },
        Ok(value) => if value is Object {
            placed_session_record(record, value, source_epoch_unix_ms, state, rules)
        } else {
            PlacedView {
                record: lines::invalid_record(record, "LINE_NOT_JSON_OBJECT"@),
                lifecycle: None,
                state,
            }
        },
    }
}

/// The row of a line of a session file. The session is the conversation.
pub open spec fn session_record_of_line(
    raw_line: Seq<u8>,
    line_no: u64,
    spawn_id: Seq<char>,
    session_id: Seq<char>,
    source_epoch_unix_ms: Option<u64>,
    state: SessionView,
    rules: RulesView,
) -> PlacedView {
    let record = RecordView {
        conversation_id: Some(session_id),
        ..lines::bare_record(
            raw_line,
            line_no,
            spawn_id,
            TranscriptSource::ClaudeSessionJsonl,
            source_epoch_unix_ms,
            rules.vendor,
        )
    };
    if valid_utf8(raw_line) {
        session_record_of_reading(
            record,
            json::json_reading(decode_utf8(raw_line)),
            source_epoch_unix_ms,
            state,
            rules,
        )
    } else {
        PlacedView {
            record: lines::invalid_record(record, "LINE_NOT_UTF8: "@ + text::utf8_refusal(raw_line)),
            lifecycle: None,
            state,
        }
    }
}

/// Makes the row of a line from the reading of its text.
pub fn place_session_reading(
    record: AgentTranscriptRecord,
    reading: Result<Json, String>,
    source_epoch_unix_ms: Option<u64>,
    state: &mut SessionState,
    rules: &TranscriptRules,
) -> (placed: (AgentTranscriptRecord, Option<Lifecycle>))
    requires
        old(state)@.turn_index < u64::MAX,
        record@.turn_index is None,
    ensures
        ({
            let view = session_record_of_reading(
                record@,
                json::reading_of(reading),
                source_epoch_unix_ms,
                old(state)@,
                rules@,
            );
            &&& placed.0@ == view.record
            &&& outbox::opt_lifecycle(placed.1) == view.lifecycle
            &&& final(state)@ == view.state
        }),
{
    let mut record = record;
    let value = match reading {
        Ok(value) => value,
        Err(refusal) => {
            record.refuse(joined("LINE_NOT_JSON: ", refusal.as_str()));
            return (record, None);
        },
    };
    match &value {
        Json::Object(_) => {},
        _ => {
            record.refuse("LINE_NOT_JSON_OBJECT".to_owned());
            return (record, None);
        },
    }
    record.ts_ns = transcript_source_ts_ns(
        Some(&value),
        record.spawn_id.as_str(),
        record.line_no,
        source_epoch_unix_ms,
        rules.vendor.as_str(),
    );
    let parse = classify_session_object(&value, state, rules);
    record.model = parse.model;
    match parse.outcome {
        Err(refusal) => {
            record.refuse(refusal);
            (record, None)
        },
        Ok(signal) => {
            if record.model.is_none() {
                record.model = state.model.clone();
            }
            if state.turn_index > 0 {
                record.turn_index = Some(state.turn_index);
            }
            record.body = Some(signal.body);
            (record, signal.lifecycle)
        },
    }
}

/// Makes the row of one line of a session file, with what it says of the state
/// of the agent. A line that the vocabulary cannot place still gives a row.
pub fn parse_session_line(
    raw_line: &[u8],
    line_no: u64,
    spawn_id: &str,
    session_id: &str,
    source_epoch_unix_ms: Option<u64>,
    state: &mut SessionState,
    rules: &TranscriptRules,
) -> (placed: (AgentTranscriptRecord, Option<Lifecycle>))
    requires
        old(state)@.turn_index < u64::MAX,
    ensures
        ({
            let view = session_record_of_line(
                raw_line@,
                line_no,
                spawn_id@,
                session_id@,
                source_epoch_unix_ms,
                old(state)@,
                rules@,
            );
            &&& placed.0@ == view.record
            &&& outbox::opt_lifecycle(placed.1) == view.lifecycle
            &&& final(state)@ == view.state
        }),
{
    let mut record = AgentTranscriptRecord::bare(
        raw_line,
        line_no,
        spawn_id,
        TranscriptSource::ClaudeSessionJsonl,
        source_epoch_unix_ms,
        rules.vendor.as_str(),
    );
    record.conversation_id = Some(session_id.to_owned());
    match utf8_text(raw_line) {
        Err(refusal) => {
            record.refuse(joined("LINE_NOT_UTF8: ", refusal.as_str()));
            (record, None)
        },
        Ok(text) => {
            proof {
                encode_utf8_decode_utf8(text@);
            }
            place_session_reading(record, read_json(text), source_epoch_unix_ms, state, rules)
        },
    }
}

/// Every line of a session file gives its row, and a line that is refused says
/// nothing of the state of the agent.
pub proof fn law_session_lines_have_their_rows(
    raw_line: Seq<u8>,
    line_no: u64,
    spawn_id: Seq<char>,
    session_id: Seq<char>,
    source_epoch_unix_ms: Option<u64>,
    state: SessionView,
    rules: RulesView,
)
    ensures
        ({
            let placed = session_record_of_line(
                raw_line,
                line_no,
                spawn_id,
                session_id,
                source_epoch_unix_ms,
                state,
                rules,
            );
            let row = placed.record;
            &&& row.line_no == line_no
            &&& row.spawn_id == spawn_id
            &&& row.conversation_id == Some(session_id)
            &&& row.raw_line_sha256 == digest::sha256_text(raw_line)
            &&& row.status == TranscriptParseStatus::Parsed <==> row.body is Some
            &&& row.status == TranscriptParseStatus::Parsed <==> row.parse_error is None
            &&& row.status == TranscriptParseStatus::Invalid ==> placed.lifecycle is None
            &&& state.turn_index < u64::MAX ==> state.turn_index
                <= placed.state.turn_index <= state.turn_index + 1
        }),
{
}

/// The session after records, one after the other.
pub open spec fn session_after(state: SessionView, objects: Seq<Json>) -> SessionView
    decreases objects.len(),
{
    if objects.len() == 0 {
        state
    } else {
        after_record(objects.last(), session_after(state, objects.drop_last()))
    }
}

/// The ids of the assistant messages that lines hold, in order.
pub open spec fn message_ids(objects: Seq<Json>) -> Seq<Seq<char>>
    decreases objects.len(),
{
    if objects.len() == 0 {
        Seq::empty()
    } else {
        match claude::assistant_message_id(objects.last()) {
            Some(id) => message_ids(objects.drop_last()).push(id),
            None => message_ids(objects.drop_last()),
        }
    }
}

/// How many runs of equal ids there are.
pub open spec fn runs(ids: Seq<Seq<char>>) -> nat
    decreases ids.len(),
{
    if ids.len() == 0 {
        0
    } else {
        runs(ids.drop_last()) + if ids.len() > 1 && ids[ids.len() - 2] == ids.last() {
            0nat
        } else {
            1nat
        }
    }
}

/// The turns of a session are the runs of its assistant messages: the lines of one
/// message, which stand together, are one turn, and a message that comes back after
/// another one is a turn of its own.
pub proof fn law_session_turns_are_message_runs(state: SessionView, objects: Seq<Json>)
    requires
        state.turn_index == 0,
        state.last_assistant_message_id is None,
        objects.len() <= u64::MAX,
    ensures
        ({
            let ids = message_ids(objects);
            let after = session_after(state, objects);
            &&& after.turn_index == runs(ids)
            &&& after.last_assistant_message_id == (if ids.len() == 0 {
                None::<Seq<char>>
            } else {
                Some(ids.last())
            })
            &&& runs(ids) <= ids.len() <= objects.len()
        }),
    decreases objects.len(),
{
    if objects.len() > 0 {
        law_session_turns_are_message_runs(state, objects.drop_last());
        let earlier = message_ids(objects.drop_last());
        if let Some(id) = claude::assistant_message_id(objects.last()) {
            assert(earlier.push(id).drop_last() =~= earlier);
        }
    }
}

} // verus!
