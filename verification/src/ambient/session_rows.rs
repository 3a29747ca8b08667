//! What the row of a session line says of that line, and what the line tells of the agent.
use crate::ambient::outbox::LifecycleView;
use crate::ambient::session;
use crate::ambient::session::{SessionBlockView, SessionBlocksView, UserBlocksView};
use crate::ambient::tracking::SessionView;
use crate::digest;
use crate::json;
use crate::json::Json;
use crate::text;
use crate::transcripts::claude_rows;
use crate::transcripts::record::{
    RulesView, ToolCallView, TranscriptParseStatus, TranscriptRole, TranscriptSource,
};
use crate::transcripts::rows;
use crate::transcripts::times;
use vstd::prelude::*;
use vstd::string::*;
use vstd::utf8::*;

verus! {

proof fn lemma_record_kinds()
    ensures
        "assistant"@ != "user"@,
        "assistant"@ != "system"@,
        "assistant"@ != "summary"@,
        "user"@ != "system"@,
        "user"@ != "summary"@,
        "system"@ != "summary"@,
{
    reveal_strlit("assistant");
    reveal_strlit("user");
    reveal_strlit("system");
    reveal_strlit("summary");
    assert("assistant"@.len() == 9);
    assert("user"@.len() == 4);
    assert("system"@.len() == 6);
    assert("summary"@.len() == 7);
}

proof fn lemma_block_kinds()
    ensures
        "text"@ != "thinking"@,
        "text"@ != "redacted_thinking"@,
        "text"@ != "fallback"@,
        "text"@ != "tool_use"@,
        "text"@ != "server_tool_use"@,
        "thinking"@ != "redacted_thinking"@,
        "thinking"@ != "fallback"@,
        "thinking"@ != "tool_use"@,
        "thinking"@ != "server_tool_use"@,
        "redacted_thinking"@ != "fallback"@,
        "redacted_thinking"@ != "tool_use"@,
        "redacted_thinking"@ != "server_tool_use"@,
        "fallback"@ != "tool_use"@,
        "fallback"@ != "server_tool_use"@,
        "tool_use"@ != "server_tool_use"@,
{
    reveal_strlit("text");
    reveal_strlit("thinking");
    reveal_strlit("redacted_thinking");
    reveal_strlit("fallback");
    reveal_strlit("tool_use");
    reveal_strlit("server_tool_use");
    assert("text"@.len() == 4);
    assert("thinking"@.len() == 8);
    assert("redacted_thinking"@.len() == 17);
    assert("fallback"@.len() == 8);
    assert("tool_use"@.len() == 8);
    assert("server_tool_use"@.len() == 15);
    assert("thinking"@[0] == 't' && "fallback"@[0] == 'f');
    assert("thinking"@[1] == 'h' && "tool_use"@[1] == 'o');
    assert("fallback"@[0] == 'f' && "tool_use"@[0] == 't');
}

proof fn lemma_metadata_kinds()
    ensures
        "assistant"@ != "user"@,
        "assistant"@ != "system"@,
        "assistant"@ != "summary"@,
        "assistant"@ != "mode"@,
        "assistant"@ != "file-history-snapshot"@,
        "assistant"@ != "file-history-delta"@,
        "assistant"@ != "ai-title"@,
        "assistant"@ != "attachment"@,
        "assistant"@ != "last-prompt"@,
        "assistant"@ != "queue-operation"@,
        "assistant"@ != "result"@,
        "assistant"@ != "permission-mode"@,
        "assistant"@ != "pr-link"@,
        "assistant"@ != "worktree-state"@,
        "assistant"@ != "agent-name"@,
        "user"@ != "system"@,
        "user"@ != "summary"@,
        "user"@ != "mode"@,
        "user"@ != "file-history-snapshot"@,
        "user"@ != "file-history-delta"@,
        "user"@ != "ai-title"@,
        "user"@ != "attachment"@,
        "user"@ != "last-prompt"@,
        "user"@ != "queue-operation"@,
        "user"@ != "result"@,
        "user"@ != "permission-mode"@,
        "user"@ != "pr-link"@,
        "user"@ != "worktree-state"@,
        "user"@ != "agent-name"@,
        "system"@ != "summary"@,
        "system"@ != "mode"@,
        "system"@ != "file-history-snapshot"@,
        "system"@ != "file-history-delta"@,
        "system"@ != "ai-title"@,
        "system"@ != "attachment"@,
        "system"@ != "last-prompt"@,
        "system"@ != "queue-operation"@,
        "system"@ != "result"@,
        "system"@ != "permission-mode"@,
        "system"@ != "pr-link"@,
        "system"@ != "worktree-state"@,
        "system"@ != "agent-name"@,
        "summary"@ != "mode"@,
        "summary"@ != "file-history-snapshot"@,
        "summary"@ != "file-history-delta"@,
        "summary"@ != "ai-title"@,
        "summary"@ != "attachment"@,
        "summary"@ != "last-prompt"@,
        "summary"@ != "queue-operation"@,
        "summary"@ != "result"@,
        "summary"@ != "permission-mode"@,
        "summary"@ != "pr-link"@,
        "summary"@ != "worktree-state"@,
        "summary"@ != "agent-name"@,
        "mode"@ != "file-history-snapshot"@,
        "mode"@ != "file-history-delta"@,
        "mode"@ != "ai-title"@,
        "mode"@ != "attachment"@,
        "mode"@ != "last-prompt"@,
        "mode"@ != "queue-operation"@,
        "mode"@ != "result"@,
        "mode"@ != "permission-mode"@,
        "mode"@ != "pr-link"@,
        "mode"@ != "worktree-state"@,
        "mode"@ != "agent-name"@,
        "file-history-snapshot"@ != "file-history-delta"@,
        "file-history-snapshot"@ != "ai-title"@,
        "file-history-snapshot"@ != "attachment"@,
        "file-history-snapshot"@ != "last-prompt"@,
        "file-history-snapshot"@ != "queue-operation"@,
        "file-history-snapshot"@ != "result"@,
        "file-history-snapshot"@ != "permission-mode"@,
        "file-history-snapshot"@ != "pr-link"@,
        "file-history-snapshot"@ != "worktree-state"@,
        "file-history-snapshot"@ != "agent-name"@,
        "file-history-delta"@ != "ai-title"@,
        "file-history-delta"@ != "attachment"@,
        "file-history-delta"@ != "last-prompt"@,
        "file-history-delta"@ != "queue-operation"@,
        "file-history-delta"@ != "result"@,
        "file-history-delta"@ != "permission-mode"@,
        "file-history-delta"@ != "pr-link"@,
        "file-history-delta"@ != "worktree-state"@,
        "file-history-delta"@ != "agent-name"@,
        "ai-title"@ != "attachment"@,
        "ai-title"@ != "last-prompt"@,
        "ai-title"@ != "queue-operation"@,
        "ai-title"@ != "result"@,
        "ai-title"@ != "permission-mode"@,
        "ai-title"@ != "pr-link"@,
        "ai-title"@ != "worktree-state"@,
        "ai-title"@ != "agent-name"@,
        "attachment"@ != "last-prompt"@,
        "attachment"@ != "queue-operation"@,
        "attachment"@ != "result"@,
        "attachment"@ != "permission-mode"@,
        "attachment"@ != "pr-link"@,
        "attachment"@ != "worktree-state"@,
        "attachment"@ != "agent-name"@,
        "last-prompt"@ != "queue-operation"@,
        "last-prompt"@ != "result"@,
        "last-prompt"@ != "permission-mode"@,
        "last-prompt"@ != "pr-link"@,
        "last-prompt"@ != "worktree-state"@,
        "last-prompt"@ != "agent-name"@,
        "queue-operation"@ != "result"@,
        "queue-operation"@ != "permission-mode"@,
        "queue-operation"@ != "pr-link"@,
        "queue-operation"@ != "worktree-state"@,
        "queue-operation"@ != "agent-name"@,
        "result"@ != "permission-mode"@,
        "result"@ != "pr-link"@,
        "result"@ != "worktree-state"@,
        "result"@ != "agent-name"@,
        "permission-mode"@ != "pr-link"@,
        "permission-mode"@ != "worktree-state"@,
        "permission-mode"@ != "agent-name"@,
        "pr-link"@ != "worktree-state"@,
        "pr-link"@ != "agent-name"@,
        "worktree-state"@ != "agent-name"@,
{
    reveal_strlit("assistant");
    reveal_strlit("user");
    reveal_strlit("system");
    reveal_strlit("summary");
    reveal_strlit("mode");
    reveal_strlit("file-history-snapshot");
    reveal_strlit("file-history-delta");
    reveal_strlit("ai-title");
    reveal_strlit("attachment");
    reveal_strlit("last-prompt");
    reveal_strlit("queue-operation");
    reveal_strlit("result");
    reveal_strlit("permission-mode");
    reveal_strlit("pr-link");
    reveal_strlit("worktree-state");
    reveal_strlit("agent-name");
    assert("assistant"@.len() == 9);
    assert("user"@.len() == 4);
    assert("system"@.len() == 6);
    assert("summary"@.len() == 7);
    assert("mode"@.len() == 4);
    assert("file-history-snapshot"@.len() == 21);
    assert("file-history-delta"@.len() == 18);
    assert("ai-title"@.len() == 8);
    assert("attachment"@.len() == 10);
    assert("last-prompt"@.len() == 11);
    assert("queue-operation"@.len() == 15);
    assert("result"@.len() == 6);
    assert("permission-mode"@.len() == 15);
    assert("pr-link"@.len() == 7);
    assert("worktree-state"@.len() == 14);
    assert("agent-name"@.len() == 10);
    assert("user"@[0] == 'u' && "mode"@[0] == 'm');
    assert("system"@[0] == 's' && "result"@[0] == 'r');
    assert("summary"@[0] == 's' && "pr-link"@[0] == 'p');
    assert("attachment"@[1] == 't' && "agent-name"@[1] == 'g');
    assert("queue-operation"@[0] == 'q' && "permission-mode"@[0] == 'p');
}

/// The line holds this object.
pub open spec fn holds(raw_line: Seq<u8>, object: Json) -> bool {
    &&& valid_utf8(raw_line)
    &&& json::json_reading(decode_utf8(raw_line)) == Ok::<Json, Seq<char>>(object)
    &&& object is Object
}

/// The call is what a tool result says: it answers the use that the block names, has its
/// `content` as result, and has the status of an error where `is_error` is true, that of a
/// success where it is false, and none where the block does not say or says null.
pub open spec fn tells_tool_result(call: ToolCallView, block: Json, rules: RulesView) -> bool {
    &&& call.tool_name == "tool_result"@
    &&& call.tool_call_id == json::str_member(block, "tool_use_id"@)
    &&& rows::has_result(call, json::member(block, "content"@), rules.max_tool_result_chars)
    &&& rows::lacks_arguments(call)
    &&& call.exit_code is None
    &&& json::member(block, "is_error"@) == Some(Json::Bool(true)) ==> call.status == Some(
        rules.tool_status_error,
    )
    &&& json::member(block, "is_error"@) == Some(Json::Bool(false)) ==> call.status == Some(
        rules.tool_status_ok,
    )
    &&& json::member(block, "is_error"@) is None || json::member(block, "is_error"@) == Some(
        Json::Null,
    ) ==> call.status is None
}

proof fn lemma_results_are_told(items: Seq<Json>, rules: RulesView)
    requires
        session::session_user_blocks(items, rules) is Ok,
    ensures
        ({
            let results = session::session_user_blocks(items, rules)->Ok_0.results;
            let blocks = items.filter(
                |block: Json| json::str_member(block, "type"@) == Some("tool_result"@),
            );
            &&& results.len() == blocks.len()
            &&& forall|i: int|
                0 <= i < blocks.len() ==> tells_tool_result(
                    #[trigger] results[i],
                    blocks[i],
                    rules,
                )
        }),
    decreases items.len(),
{
    reveal(Seq::filter);
    if items.len() > 0 {
        lemma_results_are_told(items.drop_last(), rules);
        let before = session::session_user_blocks(items.drop_last(), rules)->Ok_0.results;
        let results = session::session_user_blocks(items, rules)->Ok_0.results;
        let blocks = items.filter(
            |block: Json| json::str_member(block, "type"@) == Some("tool_result"@),
        );
        let earlier = items.drop_last().filter(
            |block: Json| json::str_member(block, "type"@) == Some("tool_result"@),
        );
        assert forall|i: int| 0 <= i < blocks.len() implies tells_tool_result(
            #[trigger] results[i],
            blocks[i],
            rules,
        ) by {
            if i < earlier.len() {
                assert(results[i] == before[i]);
                assert(blocks[i] == earlier[i]);
                assert(tells_tool_result(before[i], earlier[i], rules));
            }
        }
    }
}

/// The row of a session line with tool results has one call for each of them, in their
/// order: a result that says `is_error: true` has the status of an error, one that says
/// `is_error: false` that of a success, and one that says nothing has none.
pub proof fn law_session_rows_tell_tool_results(
    raw_line: Seq<u8>,
    line_no: u64,
    spawn_id: Seq<char>,
    session_id: Seq<char>,
    source_epoch_unix_ms: Option<u64>,
    state: SessionView,
    rules: RulesView,
    object: Json,
    message: Json,
    items: Vec<Json>,
    at: int,
)
    requires
        holds(raw_line, object),
        json::str_member(object, "type"@) == Some("user"@),
        json::object_member(object, "message"@) == Some(message),
        json::member(message, "content"@) == Some(Json::Array(items)),
        session::session_record_of_line(
            raw_line,
            line_no,
            spawn_id,
            session_id,
            source_epoch_unix_ms,
            state,
            rules,
        ).record.body is Some,
        0 <= at < items@.filter(
            |block: Json| json::str_member(block, "type"@) == Some("tool_result"@),
        ).len(),
    ensures
        ({
            let placed = session::session_record_of_line(
                raw_line,
                line_no,
                spawn_id,
                session_id,
                source_epoch_unix_ms,
                state,
                rules,
            );
            let body = placed.record.body->0;
            let block = items@.filter(
                |block: Json| json::str_member(block, "type"@) == Some("tool_result"@),
            )[at];
            let said = json::member(block, "is_error"@);
            &&& body.role == TranscriptRole::Tool
            &&& body.event_kind == "user/tool_result"@
            &&& body.content is None
            &&& body.usage is None
            &&& body.source_error is None
            &&& placed.lifecycle is None
            &&& body.tool_calls.len() == items@.filter(
                |block: Json| json::str_member(block, "type"@) == Some("tool_result"@),
            ).len()
            &&& said == Some(Json::Bool(true)) ==> body.tool_calls[at].status == Some(
                rules.tool_status_error,
            )
            &&& said == Some(Json::Bool(false)) ==> body.tool_calls[at].status == Some(
                rules.tool_status_ok,
            )
            &&& said is None || said == Some(Json::Null) ==> body.tool_calls[at].status is None
            &&& tells_tool_result(body.tool_calls[at], block, rules)
        }),
{
    lemma_record_kinds();
    lemma_results_are_told(items@, rules);
    let results = session::session_user_blocks(items@, rules)->Ok_0.results;
    assert(tells_tool_result(results[at], items@.filter(
        |block: Json| json::str_member(block, "type"@) == Some("tool_result"@),
    )[at], rules));
}

/// One block more of a user line: a tool result adds a call and a text block its text,
/// behind those before it; a block of another type adds nothing. What is no object refuses
/// the line, and so does a result whose `is_error` is neither a boolean nor null.
pub proof fn law_session_user_blocks_are_read_in_order(
    items: Seq<Json>,
    block: Json,
    rules: RulesView,
)
    ensures
        session::session_user_blocks(Seq::<Json>::empty(), rules) matches Ok(none)
            && none.results.len() == 0 && none.texts.len() == 0,
        session::session_user_blocks(items, rules) is Err ==> session::session_user_blocks(
            items.push(block),
            rules,
        ) == session::session_user_blocks(items, rules),
        session::session_user_blocks(items, rules) is Ok ==> {
            let before = session::session_user_blocks(items, rules)->Ok_0;
            let outcome = session::session_user_blocks(items.push(block), rules);
            let after = outcome->Ok_0;
            let kind = json::str_member(block, "type"@);
            let said = json::member(block, "is_error"@);
            let clear = said is None || said == Some(Json::Null) || said == Some(Json::Bool(true))
                || said == Some(Json::Bool(false));
            &&& block !is Object ==> outcome == Err::<UserBlocksView, Seq<char>>(
                "USER_CONTENT_BLOCK_NOT_OBJECT"@,
            )
            &&& block is Object && kind == Some("tool_result"@) && !clear ==> outcome == Err::<
                UserBlocksView,
                Seq<char>,
            >("TOOL_RESULT_IS_ERROR_NOT_BOOLEAN: is_error="@ + json::json_writing(said->0))
            &&& block is Object && kind == Some("tool_result"@) && clear ==> {
                &&& outcome is Ok
                &&& after.texts == before.texts
                &&& after.results.len() == before.results.len() + 1
                &&& after.results.drop_last() == before.results
                &&& tells_tool_result(after.results.last(), block, rules)
            }
            &&& block is Object && kind == Some("text"@) ==> {
                &&& outcome is Ok
                &&& after.results == before.results
                &&& json::str_member(block, "text"@) is Some ==> after.texts == before.texts
                    + seq![json::str_member(block, "text"@)->0]
                &&& json::str_member(block, "text"@) is None ==> after.texts == before.texts
            }
            &&& block is Object && kind != Some("tool_result"@) && kind != Some("text"@) ==> {
                &&& outcome is Ok
                &&& after == before
            }
        },
{
    reveal_strlit("tool_result");
    reveal_strlit("text");
    assert("tool_result"@.len() == 11 && "text"@.len() == 4);
    assert(items.push(block).drop_last() =~= items);
    assert(items.push(block).last() == block);
    if session::session_user_blocks(items, rules) is Ok {
        let before = session::session_user_blocks(items, rules)->Ok_0;
        let outcome = session::session_user_blocks(items.push(block), rules);
        if json::str_member(block, "text"@) is Some {
            let told = json::str_member(block, "text"@)->0;
            assert(before.texts.push(told) =~= before.texts + seq![told]);
        }
        if outcome is Ok && outcome->Ok_0.results.len() == before.results.len() + 1 {
            assert(outcome->Ok_0.results.drop_last() =~= before.results);
        }
    }
}

/// A user line without tool results is a prompt of the system's, or a note where `isMeta`
/// is true: it tells its texts, one per line, and a prompt begins a turn. It is refused
/// where its message or its content is missing or has another form.
pub proof fn law_session_prompts_begin_turns(object: Json, rules: RulesView)
    requires
        json::str_member(object, "type"@) == Some("user"@),
    ensures
        ({
            let outcome = session::session_parse(object, rules).1;
            let body = outcome->Ok_0.body;
            let message = json::object_member(object, "message"@);
            let content = json::member(message->0, "content"@);
            let meta = json::member(object, "isMeta"@) == Some(Json::Bool(true));
            let blocks = match content {
                Some(Json::Array(items)) => session::session_user_blocks(items@, rules),
                _ => Err("none"@),
            };
            &&& session::session_parse(object, rules).0 is None
            &&& message is None ==> outcome is Err && outcome->Err_0 == "USER_MISSING_MESSAGE"@
            &&& message is Some && content is None ==> outcome is Err && outcome->Err_0
                == "USER_MISSING_CONTENT"@
            &&& message is Some && content is Some && !(content->0 is Str) && !(content->0 is Array)
                ==> outcome is Err && outcome->Err_0 == "USER_CONTENT_NOT_STRING_OR_ARRAY"@
            &&& message is Some && content is Some && content->0 is Array && blocks is Err
                ==> outcome is Err && outcome->Err_0 == blocks->Err_0
            &&& message is Some && content is Some && content->0 is Str ==> {
                &&& outcome is Ok
                &&& rows::tells(body.content, json::str_member(message->0, "content"@)->0, rules)
            }
            &&& message is Some && content is Some && content->0 is Array && blocks is Ok
                && blocks->Ok_0.results.len() == 0 ==> {
                &&& outcome is Ok
                &&& blocks->Ok_0.texts.len() == 0 ==> body.content is None
                &&& blocks->Ok_0.texts.len() > 0 ==> rows::tells(
                    body.content,
                    text::join_spec(blocks->Ok_0.texts, "\n"@),
                    rules,
                )
            }
            &&& message is Some && content is Some && (content->0 is Str || (content->0 is Array
                && blocks is Ok && blocks->Ok_0.results.len() == 0)) ==> {
                &&& body.role == TranscriptRole::System
                &&& meta ==> body.event_kind == "user/meta"@
                &&& !meta ==> body.event_kind == "user/prompt"@
                &&& body.tool_calls.len() == 0
                &&& body.usage is None
                &&& body.source_error is None
                &&& meta ==> outcome->Ok_0.lifecycle is None
                &&& !meta ==> outcome->Ok_0.lifecycle == Some(LifecycleView::TurnStarted)
            }
        }),
{
    lemma_record_kinds();
    match json::member(json::object_member(object, "message"@)->0, "content"@) {
        Some(Json::Str(content)) => {
            let parts = seq![content@];
            assert(text::join_spec(parts, "\n"@) == content@);
        },
        _ => {},
    }
}

/// The row of an assistant's session line is an assistant's: the calls of its blocks, their
/// texts one per line, and what the `usage` of the message counts, each counter under its own
/// key. It is refused where message or content is missing and for the first block that cannot
/// be read.
pub proof fn law_session_assistants_tell_their_blocks(object: Json, rules: RulesView)
    requires
        json::str_member(object, "type"@) == Some("assistant"@),
    ensures
        ({
            let outcome = session::session_parse(object, rules).1;
            let body = outcome->Ok_0.body;
            let message = json::object_member(object, "message"@);
            let items = json::array_member(message->0, "content"@);
            let blocks = session::session_blocks(items->0, rules);
            let usage = json::member(message->0, "usage"@);
            &&& message is None ==> outcome is Err && outcome->Err_0 == "ASSISTANT_MISSING_MESSAGE"@
                && session::session_parse(object, rules).0 is None
            &&& message is Some ==> session::session_parse(object, rules).0 == json::str_member(
                message->0,
                "model"@,
            )
            &&& message is Some && items is None ==> outcome is Err && outcome->Err_0
                == "ASSISTANT_MISSING_CONTENT_ARRAY"@
            &&& message is Some && items is Some && blocks is Err ==> outcome is Err
                && outcome->Err_0 == blocks->Err_0
            &&& message is Some && items is Some && blocks is Ok ==> {
                &&& outcome is Ok
                &&& body.role == TranscriptRole::Assistant
                &&& body.event_kind == "assistant"@
                &&& body.tool_calls == blocks->Ok_0.calls
                &&& body.source_error is None
                &&& blocks->Ok_0.texts.len() == 0 ==> body.content is None
                &&& blocks->Ok_0.texts.len() > 0 ==> rows::tells(
                    body.content,
                    text::join_spec(blocks->Ok_0.texts, "\n"@),
                    rules,
                )
                &&& usage is None ==> body.usage is None
                &&& usage is Some ==> body.usage is Some && claude_rows::counts_by_key(
                    body.usage->0,
                    usage->0,
                ) && body.usage->0.total_cost_usd is None && body.usage->0.model_usage.len() == 0
            }
        }),
{
    lemma_record_kinds();
}

/// What an assistant's line tells of the agent: the last tool that it uses, with the digest
/// of the tool's input; without a tool, that the agent is idle where the message stopped for
/// any reason but a tool use, and that it works otherwise.
pub proof fn law_assistants_signal_tool_work_or_idleness(
    object: Json,
    rules: RulesView,
    message: Json,
    items: Seq<Json>,
)
    requires
        json::str_member(object, "type"@) == Some("assistant"@),
        json::object_member(object, "message"@) == Some(message),
        json::array_member(message, "content"@) == Some(items),
        session::session_blocks(items, rules) is Ok,
    ensures
        ({
            let told = session::session_parse(object, rules).1->Ok_0.lifecycle;
            let last = session::session_blocks(items, rules)->Ok_0.last_tool;
            let stop = json::str_member(message, "stop_reason"@);
            &&& last is Some ==> told == Some(
                LifecycleView::ToolUse { tool_name: (last->0).0, input_sha256: (last->0).1 },
            )
            &&& last is None && stop is None ==> told == Some(LifecycleView::Working)
            &&& last is None && stop == Some("tool_use"@) ==> told == Some(LifecycleView::Working)
            &&& last is None && stop is Some && stop != Some("tool_use"@) ==> told == Some(
                LifecycleView::Idle,
            )
        }),
{
    lemma_record_kinds();
}

/// One block more of an assistant's session line adds its text behind the texts, its call
/// behind the calls, and its tool, if it uses one, becomes the last; the first block that
/// cannot be read refuses them all.
pub proof fn law_session_blocks_are_told_in_order(items: Seq<Json>, block: Json, rules: RulesView)
    ensures
        session::session_blocks(Seq::<Json>::empty(), rules) matches Ok(none) && none.texts.len()
            == 0 && none.calls.len() == 0 && none.last_tool is None,
        session::session_blocks(items, rules) is Err ==> session::session_blocks(
            items.push(block),
            rules,
        ) == session::session_blocks(items, rules),
        session::session_blocks(items, rules) is Ok ==> match session::session_block(block, rules) {
            Err(refusal) => session::session_blocks(items.push(block), rules) == Err::<
                SessionBlocksView,
                Seq<char>,
            >(refusal),
            Ok(read) => {
                let before = session::session_blocks(items, rules)->Ok_0;
                let outcome = session::session_blocks(items.push(block), rules);
                &&& outcome is Ok
                &&& read.text is Some ==> outcome->Ok_0.texts == before.texts + seq![read.text->0]
                &&& read.text is None ==> outcome->Ok_0.texts == before.texts
                &&& read.call is Some ==> outcome->Ok_0.calls == before.calls + seq![read.call->0]
                &&& read.call is None ==> outcome->Ok_0.calls == before.calls
                &&& read.tool is Some ==> outcome->Ok_0.last_tool == read.tool
                &&& read.tool is None ==> outcome->Ok_0.last_tool == before.last_tool
            },
        },
{
    assert(items.push(block).drop_last() =~= items);
    assert(items.push(block).last() == block);
    if session::session_blocks(items, rules) is Ok && session::session_block(block, rules) is Ok {
        let before = session::session_blocks(items, rules)->Ok_0;
        let read = session::session_block(block, rules)->Ok_0;
        if read.text is Some {
            assert(before.texts.push(read.text->0) =~= before.texts + seq![read.text->0]);
        }
        if read.call is Some {
            assert(before.calls.push(read.call->0) =~= before.calls + seq![read.call->0]);
        }
    }
}

/// A text block of a session line is its `text`, a thinking block its `thinking`, a redacted
/// one nothing, a fallback block its own notation; a tool use is a call by its `name` and its
/// `id` with its `input`, or null, as arguments, and names the tool and the digest of the
/// input. Every other block is refused.
pub proof fn law_session_blocks_tell_text_or_tool(block: Json, rules: RulesView, kind: Seq<char>)
    ensures
        ({
            let outcome = session::session_block(block, rules);
            let read = outcome->Ok_0;
            let typed = block is Object && json::str_member(block, "type"@) == Some(kind);
            let name = json::str_member(block, "name"@);
            let input = if json::member(block, "input"@) is Some {
                json::member(block, "input"@)->0
            } else {
                Json::Null
            };
            &&& block !is Object ==> outcome == Err::<SessionBlockView, Seq<char>>(
                "ASSISTANT_CONTENT_BLOCK_NOT_OBJECT"@,
            )
            &&& block is Object && json::str_member(block, "type"@) is None ==> outcome == Err::<
                SessionBlockView,
                Seq<char>,
            >("ASSISTANT_CONTENT_BLOCK_MISSING_TYPE"@)
            &&& typed && kind == "text"@ ==> outcome is Ok && read.text == json::str_member(
                block,
                "text"@,
            ) && read.call is None && read.tool is None
            &&& typed && kind == "thinking"@ ==> outcome is Ok && read.text == json::str_member(
                block,
                "thinking"@,
            ) && read.call is None && read.tool is None
            &&& typed && kind == "redacted_thinking"@ ==> outcome is Ok && read.text is None
                && read.call is None && read.tool is None
            &&& typed && kind == "fallback"@ ==> outcome is Ok && read.text == Some(
                json::json_writing(block),
            ) && read.call is None && read.tool is None
            &&& typed && (kind == "tool_use"@ || kind == "server_tool_use"@) && name is None
                ==> outcome == Err::<SessionBlockView, Seq<char>>("TOOL_USE_MISSING_NAME"@)
            &&& typed && (kind == "tool_use"@ || kind == "server_tool_use"@) && name is Some ==> {
                &&& outcome is Ok
                &&& read.text is None
                &&& read.call is Some
                &&& read.call->0.tool_name == name->0
                &&& read.call->0.tool_call_id == json::str_member(block, "id"@)
                &&& rows::has_arguments(read.call->0, Some(input), rules.max_tool_args_chars)
                &&& rows::lacks_result(read.call->0)
                &&& read.call->0.status is None
                &&& read.call->0.exit_code is None
                &&& read.tool == Some(
                    (
                        name->0,
                        digest::hex_text(
                            digest::sha256_digest(encode_utf8(json::json_writing(input))),
                        ),
                    ),
                )
            }
            &&& typed && kind != "text"@ && kind != "thinking"@ && kind != "redacted_thinking"@
                && kind != "fallback"@ && kind != "tool_use"@ && kind != "server_tool_use"@
                ==> outcome == Err::<SessionBlockView, Seq<char>>(
                "UNKNOWN_ASSISTANT_CONTENT_BLOCK: "@ + kind,
            )
        }),
{
    lemma_block_kinds();
}

/// The row of a system line tells its string `content` under its subtype, that of a summary
/// its string `summary`; the twelve kinds of metadata say nothing. A line without a string
/// `type` or of another type is refused. None of these tells anything of the agent.
pub proof fn law_session_notes_tell_their_content(object: Json, rules: RulesView, kind: Seq<char>)
    ensures
        ({
            let outcome = session::session_parse(object, rules).1;
            let body = outcome->Ok_0.body;
            let typed = json::str_member(object, "type"@) == Some(kind);
            let subtype = json::str_member(object, "subtype"@);
            let metadata = kind == "mode"@ || kind == "file-history-snapshot"@ || kind == "file-history-delta"@ || kind == "ai-title"@ || kind == "attachment"@ || kind == "last-prompt"@ || kind == "queue-operation"@ || kind == "result"@ || kind == "permission-mode"@ || kind == "pr-link"@ || kind == "worktree-state"@ || kind == "agent-name"@;
            &&& json::str_member(object, "type"@) is None ==> outcome is Err && outcome->Err_0
                == "MISSING_TYPE: line has no string `type` field"@
            &&& typed && kind == "system"@ ==> {
                &&& outcome is Ok
                &&& body.role == TranscriptRole::System
                &&& subtype is Some ==> body.event_kind == "system/"@ + subtype->0
                &&& subtype is None ==> body.event_kind == "system"@
                &&& rows::tells_if_any(body.content, json::str_member(object, "content"@), rules)
            }
            &&& typed && kind == "summary"@ ==> {
                &&& outcome is Ok
                &&& body.role == TranscriptRole::System
                &&& body.event_kind == "summary"@
                &&& rows::tells_if_any(body.content, json::str_member(object, "summary"@), rules)
            }
            &&& typed && metadata ==> {
                &&& outcome is Ok
                &&& body.role == TranscriptRole::System
                &&& body.event_kind == kind
                &&& body.content is None
            }
            &&& typed && (kind == "system"@ || kind == "summary"@ || metadata) ==> {
                &&& body.tool_calls.len() == 0
                &&& body.usage is None
                &&& body.source_error is None
                &&& outcome->Ok_0.lifecycle is None
            }
            &&& typed && !metadata && kind != "assistant"@ && kind != "user"@ && kind != "system"@
                && kind != "summary"@ ==> outcome is Err && outcome->Err_0
                == "UNKNOWN_RECORD_TYPE: "@ + kind
            &&& typed && kind != "assistant"@ ==> session::session_parse(object, rules).0 is None
        }),
{
    lemma_record_kinds();
    lemma_metadata_kinds();
    let kinds = session::metadata_kinds();
    assert(kinds[0] == "mode"@);
    assert(kinds[1] == "file-history-snapshot"@);
    assert(kinds[2] == "file-history-delta"@);
    assert(kinds[3] == "ai-title"@);
    assert(kinds[4] == "attachment"@);
    assert(kinds[5] == "last-prompt"@);
    assert(kinds[6] == "queue-operation"@);
    assert(kinds[7] == "result"@);
    assert(kinds[8] == "permission-mode"@);
    assert(kinds[9] == "pr-link"@);
    assert(kinds[10] == "worktree-state"@);
    assert(kinds[11] == "agent-name"@);
    if kinds.contains(kind) {
        let i = choose|i: int| 0 <= i < kinds.len() && kinds[i] == kind;
        assert(kinds[i] == kind);
    }
}

/// The row of a session line is of the session source, in the conversation of the session.
/// Where the line is taken it is parsed, has the body, the model of the line or else that of
/// the session, and the turn of the session once one is counted; where it is refused it is
/// invalid for that reason, has no body, and tells nothing of the agent.
pub proof fn law_session_rows_follow_their_line(
    raw_line: Seq<u8>,
    line_no: u64,
    spawn_id: Seq<char>,
    session_id: Seq<char>,
    source_epoch_unix_ms: Option<u64>,
    state: SessionView,
    rules: RulesView,
    object: Json,
)
    requires
        holds(raw_line, object),
    ensures
        ({
            let placed = session::session_record_of_line(
                raw_line,
                line_no,
                spawn_id,
                session_id,
                source_epoch_unix_ms,
                state,
                rules,
            );
            let row = placed.record;
            let after = session::after_record(object, state);
            let model = session::session_parse(object, rules).0;
            let outcome = session::session_parse(object, rules).1;
            &&& placed.state == after
            &&& row.source == TranscriptSource::ClaudeSessionJsonl
            &&& row.conversation_id == Some(session_id)
            &&& row.spawn_id == spawn_id
            &&& row.line_no == line_no
            &&& row.raw_line_bytes == raw_line.len() as u64
            &&& row.raw_line_sha256 == digest::hex_text(digest::sha256_digest(raw_line))
            &&& row.ts_ns == times::source_ts_ns(
                Some(object),
                spawn_id,
                line_no as int,
                source_epoch_unix_ms,
                rules.vendor,
            )
            &&& outcome matches Ok(signal) ==> {
                &&& row.status == TranscriptParseStatus::Parsed
                &&& row.parse_error is None
                &&& row.body == Some(signal.body)
                &&& placed.lifecycle == signal.lifecycle
                &&& model is Some ==> row.model == model
                &&& model is None ==> row.model == after.model
                &&& after.turn_index > 0 ==> row.turn_index == Some(after.turn_index)
                &&& after.turn_index == 0 ==> row.turn_index is None
            }
            &&& outcome matches Err(refusal) ==> {
                &&& row.status == TranscriptParseStatus::Invalid
                &&& row.parse_error == Some(refusal)
                &&& row.body is None
                &&& placed.lifecycle is None
                &&& row.model == model
                &&& row.turn_index is None
            }
        }),
{
}

/// A session line that is no UTF-8, no JSON or no object has an invalid row that says which
/// of these it is, tells nothing of the agent and leaves the session as it was.
pub proof fn law_unreadable_session_lines_leave_the_session(
    raw_line: Seq<u8>,
    line_no: u64,
    spawn_id: Seq<char>,
    session_id: Seq<char>,
    source_epoch_unix_ms: Option<u64>,
    state: SessionView,
    rules: RulesView,
)
    ensures
        ({
            let placed = session::session_record_of_line(
                raw_line,
                line_no,
                spawn_id,
                session_id,
                source_epoch_unix_ms,
                state,
                rules,
            );
            let reading = json::json_reading(decode_utf8(raw_line));
            &&& !valid_utf8(raw_line) ==> placed.record.parse_error == Some(
                "LINE_NOT_UTF8: "@ + text::utf8_refusal(raw_line),
            )
            &&& valid_utf8(raw_line) && reading is Err ==> placed.record.parse_error == Some(
                "LINE_NOT_JSON: "@ + reading->Err_0,
            )
            &&& valid_utf8(raw_line) && reading is Ok && reading->Ok_0 !is Object
                ==> placed.record.parse_error == Some("LINE_NOT_JSON_OBJECT"@)
            &&& !valid_utf8(raw_line) || reading is Err || reading->Ok_0 !is Object ==> {
                &&& placed.record.status == TranscriptParseStatus::Invalid
                &&& placed.record.body is None
                &&& placed.record.model is None
                &&& placed.record.turn_index is None
                &&& placed.record.conversation_id == Some(session_id)
                &&& placed.lifecycle is None
                &&& placed.state == state
            }
        }),
{
}

/// A session keeps the first working directory that a line names and the latest branch; an
/// assistant's line names its model, and its message is a turn more unless it is the one that
/// the line before it named. Nothing else of the session changes.
pub proof fn law_session_lines_move_the_session(object: Json, state: SessionView)
    requires
        state.turn_index < 0xffff_ffff_ffff_ffff,
    ensures
        ({
            let after = session::after_record(object, state);
            let cwd = json::str_member(object, "cwd"@);
            let branch = json::str_member(object, "gitBranch"@);
            let assistant = json::str_member(object, "type"@) == Some("assistant"@)
                && json::object_member(object, "message"@) is Some;
            let message = json::object_member(object, "message"@)->0;
            let id = json::str_member(message, "id"@);
            let model = json::str_member(message, "model"@);
            &&& state.cwd is Some ==> after.cwd == state.cwd
            &&& state.cwd is None && cwd is Some && cwd->0.len() > 0 ==> after.cwd == cwd
            &&& state.cwd is None && (cwd is None || cwd->0.len() == 0) ==> after.cwd is None
            &&& branch is Some && branch->0.len() > 0 ==> after.git_branch == branch
            &&& branch is None || branch->0.len() == 0 ==> after.git_branch == state.git_branch
            &&& assistant && model is Some ==> after.model == model
            &&& !assistant || model is None ==> after.model == state.model
            &&& assistant && id is Some ==> after.last_assistant_message_id == id
            &&& !assistant || id is None ==> after.last_assistant_message_id
                == state.last_assistant_message_id
            &&& assistant && id is Some && state.last_assistant_message_id != id
                ==> after.turn_index == state.turn_index + 1
            &&& !assistant || id is None || state.last_assistant_message_id == id
                ==> after.turn_index == state.turn_index
        }),
{
}

} // verus!
