//! What is told of a discovered agent, to whom, and what a session's cursor keeps of it.
use crate::ambient::discovery;
use crate::ambient::discovery::{FileDecision, SessionFile, SessionFileError};
use crate::ambient::events;
use crate::ambient::events::{
    AgentEvent, AgentEventKind, EventView, GenAiOperationName, Payload, PayloadValue, PayloadView,
    ValueView,
};
use crate::ambient::journal;
use crate::ambient::journal::{
    AmbientCursorError, CursorEvidence, JournalError, JournalRow, JournalView,
};
use crate::ambient::outbox;
use crate::ambient::outbox::{
    CheckpointEvidence, Lifecycle, LifecycleView, OutboxDraft, OutboxError, OutboxEvidence,
};
use crate::ambient::pass;
use crate::ambient::pass::{SessionCheck, SessionError, SessionIngestOutcome, SessionPass};
use crate::ambient::relay;
use crate::ambient::relay::{
    ProjectionError, RelayAction, RelayError, RelayPhase, RetentionError, RetentionTtl,
};
use crate::ambient::tracking;
use crate::ambient::tracking::{
    AmbientCursor, AmbientEventOutbox, AmbientProjectionCheckpoint, AmbientView, CheckpointView,
    OutboxView, SessionState,
};
use crate::checks;
use crate::digest;
use crate::guarded::RowRead;
use crate::tasks::prune;
use crate::text;
use crate::transcripts::ingest::{PassError, SourceFile};
use vstd::prelude::*;
use vstd::string::*;

verus! {

/// The views of cursors, outboxes, checkpoints, sessions and events show every field under
/// its own name.
pub proof fn law_cursor_views_show_their_fields(
    cursor: AmbientCursor,
    pending: AmbientEventOutbox,
    checkpoint: AmbientProjectionCheckpoint,
    state: SessionState,
)
    ensures
        cursor@.record_version == cursor.record_version,
        cursor@.spawn_id == cursor.spawn_id@,
        cursor@.session_id == cursor.session_id@,
        cursor@.source_path == cursor.source_path@,
        cursor@.offset_bytes == cursor.offset_bytes,
        cursor@.lines_ingested == cursor.lines_ingested,
        cursor@.parsed_rows == cursor.parsed_rows,
        cursor@.invalid_rows == cursor.invalid_rows,
        cursor@.state == cursor.state@,
        cursor@.source_epoch_unix_ms == cursor.source_epoch_unix_ms,
        cursor@.fingerprint == cursor.fingerprint@,
        cursor@.boundary == cursor.boundary@,
        cursor@.registered == cursor.registered,
        cursor.last_emitted_state is None ==> cursor@.last_emitted_state is None,
        cursor.last_emitted_state is Some ==> cursor@.last_emitted_state == Some(
            cursor.last_emitted_state->0@,
        ),
        cursor.pending_event_outbox is None ==> cursor@.pending_event_outbox is None,
        cursor.pending_event_outbox is Some ==> cursor@.pending_event_outbox == Some(
            cursor.pending_event_outbox->0@,
        ),
        cursor.projection_checkpoint is None ==> cursor@.projection_checkpoint is None,
        cursor.projection_checkpoint is Some ==> cursor@.projection_checkpoint == Some(
            cursor.projection_checkpoint->0@,
        ),
        cursor.error is None ==> cursor@.error is None,
        cursor.error is Some ==> cursor@.error == Some(cursor.error->0@),
        cursor@.updated_ts_ns == cursor.updated_ts_ns,
        pending@.record_version == pending.record_version,
        pending@.operation_id == pending.operation_id@,
        pending@.checkpoint_offset_bytes == pending.checkpoint_offset_bytes,
        pending@.checkpoint_lines_ingested == pending.checkpoint_lines_ingested,
        pending@.event_ts_ns == pending.event_ts_ns,
        pending@.records.len() == pending.records@.len(),
        forall|i: int|
            0 <= i < pending.records@.len() ==> #[trigger] pending@.records[i]
                == pending.records@[i]@,
        pending@.acknowledge_registration == pending.acknowledge_registration,
        pending.acknowledge_state is None ==> pending@.acknowledge_state is None,
        pending.acknowledge_state is Some ==> pending@.acknowledge_state == Some(
            pending.acknowledge_state->0@,
        ),
        checkpoint@.record_version == checkpoint.record_version,
        checkpoint@.outbox == checkpoint.outbox@,
        checkpoint@.journal_keys.len() == checkpoint.journal_keys@.len(),
        forall|i: int|
            0 <= i < checkpoint.journal_keys@.len() ==> #[trigger] checkpoint@.journal_keys[i]
                == checkpoint.journal_keys@[i]@,
        state@.turn_index == state.turn_index,
        state.last_assistant_message_id is None ==> state@.last_assistant_message_id is None,
        state.last_assistant_message_id is Some ==> state@.last_assistant_message_id == Some(
            state.last_assistant_message_id->0@,
        ),
        state.model is None ==> state@.model is None,
        state.model is Some ==> state@.model == Some(state.model->0@),
        state.cwd is None ==> state@.cwd is None,
        state.cwd is Some ==> state@.cwd == Some(state.cwd->0@),
        state.git_branch is None ==> state@.git_branch is None,
        state.git_branch is Some ==> state@.git_branch == Some(state.git_branch->0@),
{
}

/// The view of an event shows every field under its own name, its payload member by member.
pub proof fn law_event_views_show_their_fields(
    event: AgentEvent,
    payload: Payload,
    value: PayloadValue,
    signal: Lifecycle,
)
    ensures
        event@.ts_ns == event.ts_ns,
        event@.kind == event.kind,
        event.spawn_id is None ==> event@.spawn_id is None,
        event.spawn_id is Some ==> event@.spawn_id == Some(event.spawn_id->0@),
        event.session_id is None ==> event@.session_id is None,
        event.session_id is Some ==> event@.session_id == Some(event.session_id->0@),
        event.reason_code is None ==> event@.reason_code is None,
        event.reason_code is Some ==> event@.reason_code == Some(event.reason_code->0@),
        event@.operation_name == event.operation_name,
        event.agent_name is None ==> event@.agent_name is None,
        event.agent_name is Some ==> event@.agent_name == Some(event.agent_name->0@),
        event.provider_name is None ==> event@.provider_name is None,
        event.provider_name is Some ==> event@.provider_name == Some(event.provider_name->0@),
        event.conversation_id is None ==> event@.conversation_id is None,
        event.conversation_id is Some ==> event@.conversation_id == Some(event.conversation_id->0@),
        event.response_model is None ==> event@.response_model is None,
        event.response_model is Some ==> event@.response_model == Some(event.response_model->0@),
        event.tool_name is None ==> event@.tool_name is None,
        event.tool_name is Some ==> event@.tool_name == Some(event.tool_name->0@),
        event@.payload == event.payload@,
        payload is Null ==> payload@ == PayloadView::Null,
        payload matches Payload::Other(notation) ==> payload@ == PayloadView::Other(notation@),
        payload matches Payload::Object(members) ==> {
            &&& payload@ is Object
            &&& payload@->Object_0.len() == members@.len()
            &&& forall|i: int|
                0 <= i < members@.len() ==> #[trigger] payload@->Object_0[i] == (
                    members@[i].0@,
                    members@[i].1@,
                )
        },
        value is Null ==> value@ == ValueView::Null,
        value matches PayloadValue::Flag(flag) ==> value@ == ValueView::Flag(flag),
        value matches PayloadValue::Text(text) ==> value@ == ValueView::Text(text@),
        value matches PayloadValue::Other(text) ==> value@ == ValueView::Other(text@),
        signal matches Lifecycle::ToolUse { tool_name, input_sha256 } ==> signal@
            == (LifecycleView::ToolUse { tool_name: tool_name@, input_sha256: input_sha256@ }),
        signal is Working ==> signal@ == LifecycleView::Working,
        signal is Idle ==> signal@ == LifecycleView::Idle,
        signal is TurnStarted ==> signal@ == LifecycleView::TurnStarted,
{
}

/// A discovered agent is named after its vendor and its session, and its cursor stands under
/// its name.
pub proof fn law_discovered_agents_are_named_by_session(session_id: Seq<char>, vendor: Seq<char>)
    ensures
        tracking::ambient_spawn_id(session_id, vendor) == "agent-spawn-"@ + ("ambient-"@ + vendor
            + "-"@) + session_id,
        tracking::ambient_cursor_key(session_id) == "ambient-agents/cursor/"@ + session_id,
{
}

/// A session's id is hexadecimal digits in groups of eight, four, four, four and twelve with
/// hyphens between them.
pub proof fn law_session_ids_have_their_shape(stem: Seq<char>)
    ensures
        tracking::is_session_id(stem) <==> stem.len() == 8 + 1 + 4 + 1 + 4 + 1 + 4 + 1 + 12
            && stem[8] == '-' && stem[13] == '-' && stem[18] == '-' && stem[23] == '-' && (forall|
            i: int,
        |
            0 <= i < stem.len() && i != 8 && i != 13 && i != 18 && i != 23
                ==> "0123456789abcdefABCDEF"@.contains(#[trigger] stem[i])),
{
    reveal_strlit("0123456789abcdefABCDEF");
    let digits = "0123456789abcdefABCDEF"@;
    assert forall|ch: char| tracking::is_hex_digit(ch) == #[trigger] digits.contains(ch) by {
        if tracking::is_hex_digit(ch) {
            let code = ch as int;
            let at: int = if code <= 57 {
                code - 48
            } else if code >= 97 {
                code - 97 + 10
            } else {
                code - 65 + 16
            };
            assert(digits[at] == ch);
        }
        if digits.contains(ch) {
            let i = choose|i: int| 0 <= i < digits.len() && digits[i] == ch;
            assert(digits[i] == ch);
        }
    }
    if tracking::is_session_id(stem) {
        assert(tracking::is_dash_place(8) && tracking::is_dash_place(13) && tracking::is_dash_place(
            18,
        ) && tracking::is_dash_place(23));
        assert(stem[8] == '-' && stem[13] == '-' && stem[18] == '-' && stem[23] == '-');
        assert forall|i: int|
            0 <= i < stem.len() && i != 8 && i != 13 && i != 18 && i != 23 implies digits.contains(
            #[trigger] stem[i],
        ) by {
            assert(!tracking::is_dash_place(i));
            assert(tracking::is_hex_digit(stem[i]));
        }
    }
    if stem.len() == 36 && stem[8] == '-' && stem[13] == '-' && stem[18] == '-' && stem[23] == '-'
        && (forall|i: int|
        0 <= i < stem.len() && i != 8 && i != 13 && i != 18 && i != 23 ==> digits.contains(
            #[trigger] stem[i],
        )) {
        assert forall|i: int| 0 <= i < 36 implies (if tracking::is_dash_place(i) {
            #[trigger] stem[i] == '-'
        } else {
            tracking::is_hex_digit(stem[i])
        }) by {
            if !tracking::is_dash_place(i) {
                assert(digits.contains(stem[i]));
            }
        }
    }
}

/// A new cursor names its agent, its session and its file, has seen nothing, owes nothing and
/// is not registered.
pub proof fn law_new_session_cursors_are_empty(
    spawn_id: Seq<char>,
    session_id: Seq<char>,
    source_path: Seq<char>,
    now_ns: u64,
)
    ensures
        ({
            let cursor = tracking::seeded(spawn_id, session_id, source_path, now_ns);
            &&& cursor.record_version == 1
            &&& cursor.spawn_id == spawn_id
            &&& cursor.session_id == session_id
            &&& cursor.source_path == source_path
            &&& cursor.offset_bytes == 0
            &&& cursor.lines_ingested == 0
            &&& cursor.parsed_rows == 0
            &&& cursor.invalid_rows == 0
            &&& cursor.state.turn_index == 0
            &&& cursor.state.last_assistant_message_id is None
            &&& cursor.state.model is None
            &&& cursor.state.cwd is None
            &&& cursor.state.git_branch is None
            &&& cursor.source_epoch_unix_ms is None
            &&& cursor.fingerprint.bytes is None
            &&& cursor.fingerprint.sha256 is None
            &&& cursor.boundary.start_offset_bytes is None
            &&& cursor.boundary.bytes is None
            &&& cursor.boundary.sha256 is None
            &&& !cursor.registered
            &&& cursor.last_emitted_state is None
            &&& cursor.pending_event_outbox is None
            &&& cursor.projection_checkpoint is None
            &&& cursor.error is None
            &&& cursor.updated_ts_ns == now_ns
        }),
{
}

/// A file is a session exactly where its extension is `jsonl` and its stem a session's id;
/// any other file is ignored. A session is ingested where it is tracked or was changed within
/// the idle limit, and is stale otherwise.
pub proof fn law_session_files_are_ingested_or_stale(
    file: SessionFile,
    now_secs: u64,
    max_idle_secs: u64,
)
    ensures
        ({
            let decision = discovery::file_decision(file, now_secs, max_idle_secs);
            let named = file.extension is Text && file.extension->Text_0@ == "jsonl"@ && file.stem
                is Text && tracking::is_session_id(file.stem->Text_0@);
            let readable = file.is_file == Some(true) && file.modified is Seconds
                && file.known is Some;
            let idle = now_secs > file.modified->Seconds_0 + max_idle_secs;
            &&& file.extension is Absent ==> decision == FileDecision::Ignore
            &&& file.extension is NotUtf8 ==> decision == FileDecision::Refuse(
                SessionFileError::ExtensionNotUtf8,
            )
            &&& file.extension is Text && file.extension->Text_0@ != "jsonl"@ ==> decision
                == FileDecision::Ignore
            &&& file.extension is Text && file.extension->Text_0@ == "jsonl"@ && file.stem !is Text
                ==> decision == FileDecision::Refuse(SessionFileError::StemNotUtf8)
            &&& file.extension is Text && file.extension->Text_0@ == "jsonl"@ && file.stem is Text
                && !tracking::is_session_id(file.stem->Text_0@) ==> decision == FileDecision::Ignore
            &&& named && file.is_file is None ==> decision == FileDecision::Refuse(
                SessionFileError::StatFailed,
            )
            &&& named && file.is_file == Some(false) ==> decision == FileDecision::Refuse(
                SessionFileError::NotFile,
            )
            &&& named && file.is_file == Some(true) && file.modified is Failed ==> decision
                == FileDecision::Refuse(SessionFileError::ModifiedTimeFailed)
            &&& named && file.is_file == Some(true) && file.modified is BeforeEpoch ==> decision
                == FileDecision::Refuse(SessionFileError::ModifiedTimeInvalid)
            &&& named && file.is_file == Some(true) && file.modified is Seconds && file.known is None
                ==> decision == FileDecision::Refuse(SessionFileError::CursorReadFailed)
            &&& named && readable && (file.known == Some(true) || !idle) ==> decision
                == FileDecision::Ingest
            &&& named && readable && file.known == Some(false) && idle ==> decision
                == FileDecision::Stale
        }),
{
}

proof fn lemma_part_end(list: Seq<char>, from: int)
    requires
        0 <= from <= list.len(),
    ensures
        from <= discovery::part_end(list, from) <= list.len(),
        forall|i: int|
            from <= i < discovery::part_end(list, from) ==> (#[trigger] list[i]) != ';' && list[i]
                != ':',
        discovery::part_end(list, from) < list.len() ==> list[discovery::part_end(list, from)]
            == ';' || list[discovery::part_end(list, from)] == ':',
    decreases list.len() - from,
{
    if from < list.len() && !discovery::is_separator(list[from]) {
        lemma_part_end(list, from + 1);
    }
}

/// A part of a list ends before the next `;` or `:`, or at the end of the list.
pub proof fn law_parts_end_at_separators(list: Seq<char>, from: int)
    requires
        0 <= from <= list.len(),
    ensures
        from <= discovery::part_end(list, from) <= list.len(),
        forall|i: int|
            from <= i < discovery::part_end(list, from) ==> (#[trigger] list[i]) != ';' && list[i]
                != ':',
        discovery::part_end(list, from) < list.len() ==> list[discovery::part_end(list, from)]
            == ';' || list[discovery::part_end(list, from)] == ':',
{
    lemma_part_end(list, from);
}

/// The configuration directory of a list is its first part that is not blank, without the
/// white space around it; a list of blank parts is itself the directory.
pub proof fn law_first_part_is_the_directory(list: Seq<char>, from: int)
    requires
        0 <= from <= list.len(),
    ensures
        ({
            let end = discovery::part_end(list, from);
            let part = text::trim_spec(list.subrange(from, end));
            &&& part.len() > 0 ==> discovery::first_part(list, from) == Some(part)
            &&& part.len() == 0 && end >= list.len() ==> discovery::first_part(list, from) is None
            &&& part.len() == 0 && end < list.len() ==> discovery::first_part(list, from)
                == discovery::first_part(list, end + 1)
        }),
        discovery::first_part(list, 0) is Some ==> Some(discovery::config_dir(list))
            == discovery::first_part(list, 0),
        discovery::first_part(list, 0) is None ==> discovery::config_dir(list) == list,
{
}

/// The event is of the agent and the session of the cursor, named after the vendor.
pub open spec fn is_of(
    event: EventView,
    cursor: AmbientView,
    vendor: Seq<char>,
    ts_ns: u64,
) -> bool {
    &&& event.ts_ns == ts_ns
    &&& event.spawn_id == Some(cursor.spawn_id)
    &&& event.session_id is None
    &&& event.conversation_id == Some(cursor.session_id)
    &&& event.agent_name == Some(vendor)
    &&& event.payload is Object
}

/// An agent that is not registered is requested and ready, in that order: the request tells
/// where it was discovered, its session, its file, its directory, its branch and its model.
pub proof fn law_registration_tells_the_agent(
    cursor: AmbientView,
    vendor: Seq<char>,
    lifecycle: Option<LifecycleView>,
    provider: Option<Seq<char>>,
    ts_ns: u64,
)
    requires
        !cursor.registered,
    ensures
        ({
            let owed = outbox::owed_events(cursor, vendor, lifecycle, provider, ts_ns);
            let requested = owed[0];
            let ready = owed[1];
            let told = requested.payload->Object_0;
            &&& owed.len() >= 2
            &&& is_of(requested, cursor, vendor, ts_ns)
            &&& requested.kind == AgentEventKind::SpawnRequested
            &&& requested.reason_code == Some("ambient_discovered"@)
            &&& requested.operation_name == Some(GenAiOperationName::CreateAgent)
            &&& requested.provider_name == provider
            &&& requested.response_model == cursor.state.model
            &&& requested.tool_name is None
            &&& told.len() == 7
            &&& told[0] == ("source"@, ValueView::Text("ambient_transcript"@))
            &&& told[1] == ("cli"@, ValueView::Text(vendor))
            &&& told[2] == ("discovered_via"@, ValueView::Text("claude_projects_tail"@))
            &&& told[3] == ("session_id"@, ValueView::Text(cursor.session_id))
            &&& told[4] == ("transcript_path"@, ValueView::Text(cursor.source_path))
            &&& told[5].0 == "working_dir"@
            &&& cursor.state.cwd is Some ==> told[5].1 == ValueView::Text(cursor.state.cwd->0)
            &&& cursor.state.cwd is None ==> told[5].1 == ValueView::Null
            &&& told[6].0 == "git_branch"@
            &&& cursor.state.git_branch is Some ==> told[6].1 == ValueView::Text(
                cursor.state.git_branch->0,
            )
            &&& cursor.state.git_branch is None ==> told[6].1 == ValueView::Null
            &&& is_of(ready, cursor, vendor, ts_ns)
            &&& ready.kind == AgentEventKind::SpawnReady
            &&& ready.reason_code == Some("ambient_observed"@)
            &&& ready.operation_name is None
            &&& ready.provider_name == provider
            &&& ready.response_model is None
            &&& ready.tool_name is None
            &&& ready.payload->Object_0.len() == 2
            &&& ready.payload->Object_0[0] == ("source"@, ValueView::Text("ambient_transcript"@))
            &&& ready.payload->Object_0[1] == ("ambient"@, ValueView::Flag(true))
        }),
{
}

/// The state that a signal puts the agent in, as the journal names it.
pub open spec fn names_state(state: Seq<char>, signal: LifecycleView) -> bool {
    match signal {
        LifecycleView::ToolUse { tool_name, .. } => state == "tool:"@ + tool_name,
        LifecycleView::Working => state == "working"@,
        LifecycleView::Idle => state == "idle"@,
        LifecycleView::TurnStarted => state == "turn_started"@,
    }
}

/// A signal is owed exactly where it puts the agent in another state than the one that was
/// told last: as a started call of the tool, a finished call, a finished turn or a started
/// turn, each for its own reason, behind the registration if that is owed too. Nothing else
/// is owed.
pub proof fn law_changed_states_are_told(
    cursor: AmbientView,
    vendor: Seq<char>,
    signal: LifecycleView,
    provider: Option<Seq<char>>,
    ts_ns: u64,
    state: Seq<char>,
)
    requires
        names_state(state, signal),
    ensures
        ({
            let owed = outbox::owed_events(cursor, vendor, Some(signal), provider, ts_ns);
            let before: int = if cursor.registered {
                0
            } else {
                2
            };
            let changed = cursor.last_emitted_state != Some(state);
            let event = owed.last();
            &&& outbox::owed_events(cursor, vendor, None, provider, ts_ns).len() == before
            &&& !changed ==> owed.len() == before
            &&& !changed ==> outbox::changed_state(cursor, Some(signal)) is None
            &&& changed ==> outbox::changed_state(cursor, Some(signal)) == Some(state)
            &&& outbox::changed_state(cursor, None) is None
            &&& changed ==> {
                &&& owed.len() == before + 1
                &&& is_of(event, cursor, vendor, ts_ns)
                &&& event.provider_name is None
                &&& event.response_model is None
                &&& signal matches LifecycleView::ToolUse { tool_name, input_sha256 } ==> {
                    &&& event.kind == AgentEventKind::ToolCallStarted
                    &&& event.reason_code == Some("ambient_tool_activity"@)
                    &&& event.operation_name == Some(GenAiOperationName::ExecuteTool)
                    &&& event.tool_name == Some(tool_name)
                    &&& event.payload->Object_0.len() == 2
                    &&& event.payload->Object_0[0] == (
                        "tool_input_sha256"@,
                        ValueView::Text(input_sha256),
                    )
                    &&& event.payload->Object_0[1] == ("ambient"@, ValueView::Flag(true))
                }
                &&& signal !is ToolUse ==> event.operation_name is None && event.tool_name is None
                    && event.payload->Object_0.len() == 0
                &&& signal is Working ==> event.kind == AgentEventKind::ToolCallFinished
                    && event.reason_code == Some("ambient_active"@)
                &&& signal is Idle ==> event.kind == AgentEventKind::TurnFinished
                    && event.reason_code == Some("ambient_turn_finished"@)
                &&& signal is TurnStarted ==> event.kind == AgentEventKind::TurnStarted
                    && event.reason_code == Some("ambient_turn_started"@)
            }
        }),
{
}

proof fn lemma_without_member(members: Seq<(Seq<char>, ValueView)>, name: Seq<char>)
    ensures
        events::without_member(members, name) == members.filter(
            |member: (Seq<char>, ValueView)| member.0 != name,
        ),
    decreases members.len(),
{
    reveal(Seq::filter);
    if members.len() > 0 {
        lemma_without_member(members.drop_last(), name);
    }
}

/// Stamping puts the name of the operation behind all other members of an object, in place
/// of any earlier stamp; cleaning takes every stamp off and keeps the other members in their
/// order. What is no object is left.
pub proof fn law_stamps_name_the_operation(
    payload: PayloadView,
    operation_id: Seq<char>,
    field: Seq<char>,
)
    requires
        field == "ambient_outbox_operation_id"@,
    ensures
        payload matches PayloadView::Object(members) ==> {
            let kept = members.filter(
                |member: (Seq<char>, ValueView)| member.0 != field,
            );
            &&& events::stamped_payload(payload, operation_id) == PayloadView::Object(
                kept.push((field, ValueView::Text(operation_id))),
            )
            &&& events::clean_payload(payload) == PayloadView::Object(kept)
        },
        payload !is Object ==> events::stamped_payload(payload, operation_id) == payload
            && events::clean_payload(payload) == payload,
        payload is Null ==> events::normal_payload(payload) is Object && events::normal_payload(
            payload,
        )->Object_0.len() == 0,
        payload !is Null ==> events::normal_payload(payload) == payload,
{
    match payload {
        PayloadView::Object(members) => {
            lemma_without_member(members, field);
        },
        _ => {},
    }
}

/// The member of a payload under a name is the last of that name.
pub proof fn law_last_member_counts(
    members: Seq<(Seq<char>, ValueView)>,
    name: Seq<char>,
    other: Seq<char>,
    value: ValueView,
)
    ensures
        events::payload_member(Seq::<(Seq<char>, ValueView)>::empty(), name) is None,
        events::payload_member(members.push((name, value)), name) == Some(value),
        other != name ==> events::payload_member(members.push((other, value)), name)
            == events::payload_member(members, name),
        value matches ValueView::Text(text) ==> events::text_member(
            PayloadView::Object(members.push((name, value))),
            name,
        ) == Some(text),
        value !is Text ==> events::text_member(
            PayloadView::Object(members.push((name, value))),
            name,
        ) is None,
        events::text_member(PayloadView::Null, name) is None,
        events::text_member(PayloadView::Other(name), name) is None,
{
    assert(members.push((name, value)).drop_last() =~= members);
    assert(members.push((other, value)).drop_last() =~= members);
}

/// An event tells the state that an outbox acknowledges: a finished call `working`, a finished
/// turn `idle`, a started turn `turn_started`, and a started call of a tool `tool:` and the
/// name of that tool.
pub proof fn law_events_tell_their_state(event: EventView, tool: Seq<char>, state: Seq<char>)
    ensures
        outbox::matches_state(event, "working"@) <==> event.kind
            == AgentEventKind::ToolCallFinished,
        outbox::matches_state(event, "idle"@) <==> event.kind == AgentEventKind::TurnFinished,
        outbox::matches_state(event, "turn_started"@) <==> event.kind
            == AgentEventKind::TurnStarted,
        tool.len() > 0 ==> (outbox::matches_state(event, "tool:"@ + tool) <==> event.kind
            == AgentEventKind::ToolCallStarted && event.tool_name == Some(tool)),
        !outbox::matches_state(event, "tool:"@),
        !text::has_prefix(state, "tool:"@) && state != "working"@ && state != "idle"@ && state
            != "turn_started"@ ==> !outbox::matches_state(event, state),
{
    reveal_strlit("working");
    reveal_strlit("idle");
    reveal_strlit("turn_started");
    reveal_strlit("tool:");
    assert("working"@.len() == 7 && "working"@[0] == 'w');
    assert("idle"@.len() == 4 && "idle"@[0] == 'i');
    assert("turn_started"@.len() == 12 && "turn_started"@[0] == 't' && "turn_started"@[1] == 'u');
    assert("tool:"@.len() == 5 && "tool:"@[0] == 't' && "tool:"@[1] == 'o');
    let whole = "tool:"@ + tool;
    assert(whole[0] == 't' && whole[1] == 'o');
    assert(whole.subrange(0, 5) =~= "tool:"@);
    assert(whole.subrange(5, whole.len() as int) =~= tool);
}

/// An outbox fits where the cursor stands: it is of the known version, named by a digest, made
/// at the offset and the line of the cursor, dated, and holds one to three events.
pub proof fn law_outboxes_fit_their_cursor(
    outbox: OutboxView,
    offset_bytes: u64,
    lines_ingested: u64,
)
    ensures
        outbox::envelope_fits(outbox, offset_bytes, lines_ingested) <==> {
            &&& outbox.record_version == 1
            &&& digest::is_lower_sha256_spec(outbox.operation_id)
            &&& outbox.checkpoint_offset_bytes == offset_bytes
            &&& outbox.checkpoint_lines_ingested == lines_ingested
            &&& outbox.event_ts_ns > 0
            &&& 1 <= outbox.records.len()
            &&& outbox.records.len() <= 3
        },
{
}

/// An event of an outbox is taken exactly where it has the time of the outbox, is of the
/// agent and the session and of no other session, has an object with the stamp of the
/// operation as payload, can be encoded, and registers the agent or tells the state that the
/// outbox acknowledges.
pub proof fn law_outbox_events_are_its_own(
    record: EventView,
    outbox: OutboxView,
    spawn_id: Seq<char>,
    session_id: Seq<char>,
    encodable: bool,
)
    ensures
        ({
            let refusal = outbox::record_refusal(record, outbox, spawn_id, session_id, encodable);
            let own = record.ts_ns == outbox.event_ts_ns && record.spawn_id == Some(spawn_id)
                && record.session_id is None && record.conversation_id == Some(session_id);
            let stamped = events::text_member(record.payload, "ambient_outbox_operation_id"@) == Some(
                outbox.operation_id,
            );
            let registers = record.kind == AgentEventKind::SpawnRequested || record.kind
                == AgentEventKind::SpawnReady;
            let told = outbox.acknowledge_state is Some && outbox::matches_state(
                record,
                outbox.acknowledge_state->0,
            );
            &&& !own ==> refusal == Some(OutboxError::RecordIdentityInvalid)
            &&& own && record.payload !is Object ==> refusal == Some(
                OutboxError::RecordPayloadInvalid,
            )
            &&& own && record.payload is Object && !stamped ==> refusal == Some(
                OutboxError::OperationStampMismatch,
            )
            &&& own && record.payload is Object && stamped && !encodable ==> refusal == Some(
                OutboxError::RecordInvalid,
            )
            &&& own && record.payload is Object && stamped && encodable && !registers && !told
                ==> refusal == Some(OutboxError::RecordKindInvalid)
            &&& own && record.payload is Object && stamped && encodable && (registers || told)
                ==> refusal is None
        }),
{
}

proof fn lemma_kind_count(records: Seq<EventView>, kind: AgentEventKind)
    ensures
        outbox::kind_count(records, kind) == records.filter(
            |record: EventView| record.kind == kind,
        ).len(),
    decreases records.len(),
{
    reveal(Seq::filter);
    if records.len() > 0 {
        lemma_kind_count(records.drop_last(), kind);
    }
}

/// The events of an outbox are complete where each of the two events of a registration stands
/// there once if the outbox acknowledges one and not at all otherwise, and one event more
/// exactly where it acknowledges a state.
pub proof fn law_outbox_events_are_complete(outbox: OutboxView)
    ensures
        ({
            let requested = outbox.records.filter(
                |record: EventView| record.kind == AgentEventKind::SpawnRequested,
            ).len();
            let ready = outbox.records.filter(
                |record: EventView| record.kind == AgentEventKind::SpawnReady,
            ).len();
            &&& outbox.acknowledge_registration && outbox.acknowledge_state is Some
                ==> (outbox::set_complete(outbox) <==> requested == 1 && ready == 1
                && outbox.records.len() == 3)
            &&& outbox.acknowledge_registration && outbox.acknowledge_state is None
                ==> (outbox::set_complete(outbox) <==> requested == 1 && ready == 1
                && outbox.records.len() == 2)
            &&& !outbox.acknowledge_registration && outbox.acknowledge_state is Some
                ==> (outbox::set_complete(outbox) <==> requested == 0 && ready == 0
                && outbox.records.len() == 1)
            &&& !outbox.acknowledge_registration && outbox.acknowledge_state is None
                ==> (outbox::set_complete(outbox) <==> outbox.records.len() == 0)
        }),
{
    lemma_kind_count(outbox.records, AgentEventKind::SpawnRequested);
    lemma_kind_count(outbox.records, AgentEventKind::SpawnReady);
    reveal(Seq::filter);
}

/// An outbox has an effect that its cursor still lacks: it acknowledges the registration
/// exactly where the cursor is not registered, or a state other than the last one told, and
/// at least one of the two.
pub proof fn law_outboxes_have_an_effect(cursor: AmbientView, outbox: OutboxView)
    ensures
        cursor.registered ==> (outbox::effect_fits(cursor, outbox)
            <==> !outbox.acknowledge_registration && outbox.acknowledge_state is Some
            && cursor.last_emitted_state != outbox.acknowledge_state),
        !cursor.registered ==> (outbox::effect_fits(cursor, outbox)
            <==> outbox.acknowledge_registration && (outbox.acknowledge_state is Some
            ==> cursor.last_emitted_state != outbox.acknowledge_state)),
{
}

/// An outbox is taken by its cursor exactly where it fits, its events are its own and
/// complete, its name is the digest of its identity, and it has an effect; what is wrong first
/// in that order is named.
pub proof fn law_outboxes_are_checked_in_order(
    cursor: AmbientView,
    outbox: OutboxView,
    evidence: OutboxEvidence,
)
    ensures
        ({
            let refusal = outbox::outbox_refusal(cursor, outbox, evidence);
            let fits = outbox::envelope_fits(outbox, cursor.offset_bytes, cursor.lines_ingested);
            let own = forall|i: int|
                0 <= i < outbox.records.len() ==> outbox::record_refusal(
                    #[trigger] outbox.records[i],
                    outbox,
                    cursor.spawn_id,
                    cursor.session_id,
                    i < evidence.encodable@.len() && evidence.encodable@[i],
                ) is None;
            let complete = outbox::set_complete(outbox);
            let named = evidence.identity is Some && digest::hex_text(
                digest::sha256_digest(evidence.identity->0@),
            ) == outbox.operation_id;
            &&& refusal is None <==> fits && own && complete && named && outbox::effect_fits(
                cursor,
                outbox,
            )
            &&& !fits ==> refusal == Some(OutboxError::EnvelopeInvalid)
            &&& fits && own && !complete ==> refusal == Some(OutboxError::RecordSetInvalid)
            &&& fits && own && complete && evidence.identity is None ==> refusal == Some(
                OutboxError::IdentityEncodeFailed,
            )
            &&& fits && own && complete && evidence.identity is Some && !named ==> refusal == Some(
                OutboxError::OperationIdMismatch,
            )
            &&& fits && own && complete && named && !outbox::effect_fits(cursor, outbox) ==> refusal
                == Some(OutboxError::EffectInvalid)
        }),
{
    let refusals = outbox::record_refusals(
        outbox,
        cursor.spawn_id,
        cursor.session_id,
        evidence.encodable@,
    );
    let own = forall|i: int|
        0 <= i < outbox.records.len() ==> outbox::record_refusal(
            #[trigger] outbox.records[i],
            outbox,
            cursor.spawn_id,
            cursor.session_id,
            i < evidence.encodable@.len() && evidence.encodable@[i],
        ) is None;
    if own {
        assert forall|i: int| 0 <= i < refusals.len() implies (#[trigger] refusals[i]) is None by {
            assert(outbox::record_refusal(
                outbox.records[i],
                outbox,
                cursor.spawn_id,
                cursor.session_id,
                i < evidence.encodable@.len() && evidence.encodable@[i],
            ) is None);
        }
        checks::lemma_first_some_none(refusals);
    } else if checks::first_some(refusals) is None {
        checks::lemma_first_some_all(refusals);
        assert forall|i: int| 0 <= i < outbox.records.len() implies outbox::record_refusal(
            #[trigger] outbox.records[i],
            outbox,
            cursor.spawn_id,
            cursor.session_id,
            i < evidence.encodable@.len() && evidence.encodable@[i],
        ) is None by {
            assert(refusals[i] is None);
        }
        assert(false);
    }
}

/// A named outbox is made at the place of the cursor, has the time, the events and the
/// acknowledgements of its draft, and stamps every event with its name.
pub proof fn law_named_outboxes_hold_their_draft(
    cursor: AmbientView,
    draft: OutboxDraft,
    operation_id: Seq<char>,
)
    ensures
        ({
            let outbox = outbox::named_outbox(cursor, draft, operation_id);
            &&& outbox.record_version == 1
            &&& outbox.operation_id == operation_id
            &&& outbox.checkpoint_offset_bytes == cursor.offset_bytes
            &&& outbox.checkpoint_lines_ingested == cursor.lines_ingested
            &&& outbox.event_ts_ns == draft.event_ts_ns
            &&& outbox.acknowledge_registration == draft.acknowledge_registration
            &&& draft.acknowledge_state is None ==> outbox.acknowledge_state is None
            &&& draft.acknowledge_state is Some ==> outbox.acknowledge_state == Some(
                draft.acknowledge_state->0@,
            )
            &&& outbox.records.len() == draft.records@.len()
            &&& forall|i: int|
                0 <= i < draft.records@.len() ==> #[trigger] outbox.records[i] == (EventView {
                    payload: events::stamped_payload(draft.records@[i]@.payload, operation_id),
                    ..draft.records@[i]@
                })
        }),
{
}

/// The identity of an outbox is all that it says of its agent and session but its name and the
/// stamps of its events.
pub proof fn law_identities_hold_all_but_the_name(
    spawn_id: Seq<char>,
    session_id: Seq<char>,
    outbox: OutboxView,
)
    ensures
        ({
            let identity = outbox::identity_of(spawn_id, session_id, outbox);
            &&& identity.record_version == outbox.record_version
            &&& identity.spawn_id == spawn_id
            &&& identity.session_id == session_id
            &&& identity.checkpoint_offset_bytes == outbox.checkpoint_offset_bytes
            &&& identity.checkpoint_lines_ingested == outbox.checkpoint_lines_ingested
            &&& identity.event_ts_ns == outbox.event_ts_ns
            &&& identity.acknowledge_registration == outbox.acknowledge_registration
            &&& identity.acknowledge_state == outbox.acknowledge_state
            &&& identity.records.len() == outbox.records.len()
            &&& forall|i: int|
                0 <= i < outbox.records.len() ==> #[trigger] identity.records[i] == (EventView {
                    payload: events::clean_payload(outbox.records[i].payload),
                    ..outbox.records[i]
                })
        }),
{
}

/// A checkpoint has the known version and as many keys as its outbox has events, one to three.
/// Its keys ascend, and each stands for the time of the outbox.
pub proof fn law_checkpoints_name_the_events(
    spawn_id: Seq<char>,
    session_id: Seq<char>,
    checkpoint: CheckpointView,
    evidence: CheckpointEvidence,
    at: int,
)
    requires
        outbox::checkpoint_refusal(spawn_id, session_id, checkpoint, evidence) is None,
        0 <= at < checkpoint.journal_keys.len(),
    ensures
        checkpoint.record_version == 1,
        checkpoint.journal_keys.len() == checkpoint.outbox.records.len(),
        1 <= checkpoint.journal_keys.len(),
        checkpoint.journal_keys.len() <= 3,
        at > 0 ==> prune::bytes_less(checkpoint.journal_keys[at - 1], checkpoint.journal_keys[at]),
        at < evidence.key_times@.len(),
        evidence.key_times@[at] == Some(checkpoint.outbox.event_ts_ns),
        digest::is_lower_sha256_spec(checkpoint.outbox.operation_id),
{
    let refusals = outbox::key_refusals(checkpoint, evidence.key_times@);
    checks::lemma_first_some_all(refusals);
    assert(refusals[at] is None);
}

/// A stored cursor is taken where it has the known version, is of the agent asked for, names a
/// file, and its outbox and its checkpoint, if any, are in order.
pub proof fn law_stored_cursors_are_of_their_agent(
    cursor: AmbientView,
    spawn_id: Seq<char>,
    evidence: CursorEvidence,
)
    ensures
        ({
            let refusal = journal::cursor_refusal(cursor, spawn_id, evidence);
            let own = cursor.record_version == 1 && cursor.spawn_id == spawn_id
                && !text::is_blank_spec(cursor.source_path);
            let owed = cursor.pending_event_outbox is Some ==> outbox::outbox_refusal(
                cursor,
                cursor.pending_event_outbox->0,
                evidence.outbox,
            ) is None;
            let known = cursor.projection_checkpoint is Some ==> outbox::checkpoint_refusal(
                cursor.spawn_id,
                cursor.session_id,
                cursor.projection_checkpoint->0,
                evidence.checkpoint,
            ) is None;
            &&& refusal is None <==> own && owed && known
            &&& !own ==> refusal == Some(AmbientCursorError::IdentityInvalid)
            &&& own && !owed ==> refusal == Some(
                AmbientCursorError::Outbox(
                    outbox::outbox_refusal(
                        cursor,
                        cursor.pending_event_outbox->0,
                        evidence.outbox,
                    )->0,
                ),
            )
            &&& own && owed && !known ==> refusal == Some(
                AmbientCursorError::Outbox(
                    outbox::checkpoint_refusal(
                        cursor.spawn_id,
                        cursor.session_id,
                        cursor.projection_checkpoint->0,
                        evidence.checkpoint,
                    )->0,
                ),
            )
        }),
{
}

/// One row more of the journal counts for an operation exactly where it bears its name.
pub proof fn law_journal_rows_are_found_by_operation(
    rows: Seq<JournalRow>,
    row: JournalRow,
    operation_id: Seq<char>,
)
    ensures
        journal::rows_of(Seq::<JournalRow>::empty(), operation_id).len() == 0,
        row.operation_id is Some && row.operation_id->0@ == operation_id ==> journal::rows_of(
            rows.push(row),
            operation_id,
        ) == journal::rows_of(rows, operation_id) + seq![(row.key@, row.value@)],
        row.operation_id is None || row.operation_id->0@ != operation_id ==> journal::rows_of(
            rows.push(row),
            operation_id,
        ) == journal::rows_of(rows, operation_id),
{
    assert(rows.push(row).drop_last() =~= rows);
    assert(rows.push(row).last() == row);
    let found = journal::rows_of(rows, operation_id);
    assert(found.push((row.key@, row.value@)) =~= found + seq![(row.key@, row.value@)]);
}

/// The journal holds the events of an outbox exactly where every row can be decoded and the
/// rows of the operation have just the values expected; it holds none of them where no row is
/// of the operation; anything else diverges.
pub proof fn law_journals_hold_all_or_nothing(
    rows: Seq<JournalRow>,
    operation_id: Seq<char>,
    expected: Seq<Seq<u8>>,
)
    ensures
        ({
            let state = journal::journal_state(rows, operation_id, expected);
            let found = journal::rows_of(rows, operation_id);
            let values = Seq::new(found.len(), |i: int| found[i].1);
            let decoded = forall|i: int| 0 <= i < rows.len() ==> (#[trigger] rows[i]).decoded;
            &&& !decoded ==> state == Err::<JournalView, JournalError>(JournalError::RowInvalid)
            &&& decoded && found.len() == 0 ==> state == Ok::<JournalView, JournalError>(
                JournalView::Absent,
            )
            &&& decoded && found.len() > 0 && values.to_multiset() == expected.to_multiset() ==> state
                == Ok::<JournalView, JournalError>(JournalView::Exact(found))
            &&& decoded && found.len() > 0 && values.to_multiset() != expected.to_multiset() ==> state
                == Err::<JournalView, JournalError>(
                JournalError::Diverged {
                    expected: expected.len() as usize,
                    actual: found.len() as usize,
                },
            )
        }),
{
    let found = journal::rows_of(rows, operation_id);
    assert(journal::values_of(found) =~= Seq::new(found.len(), |i: int| found[i].1));
}

/// The checkpoint of an outbox has the known version, the outbox, and the keys of its rows in
/// their order.
pub proof fn law_checkpoints_keep_the_keys(outbox: OutboxView, rows: Seq<(Seq<u8>, Seq<u8>)>, at: int)
    requires
        0 <= at < rows.len(),
    ensures
        journal::checkpoint_of(outbox, rows).record_version == 1,
        journal::checkpoint_of(outbox, rows).outbox == outbox,
        journal::checkpoint_of(outbox, rows).journal_keys.len() == rows.len(),
        journal::checkpoint_of(outbox, rows).journal_keys[at] == rows[at].0,
{
}

proof fn lemma_gone_count(reads: Seq<RowRead>)
    ensures
        0 <= journal::gone_count(reads) <= reads.len(),
        journal::gone_count(reads) == 0 <==> forall|i: int|
            0 <= i < reads.len() ==> !journal::is_gone(#[trigger] reads[i]),
        journal::gone_count(reads) == reads.len() <==> forall|i: int|
            0 <= i < reads.len() ==> journal::is_gone(#[trigger] reads[i]),
    decreases reads.len(),
{
    if reads.len() > 0 {
        let shorter = reads.drop_last();
        lemma_gone_count(shorter);
        assert(forall|i: int| 0 <= i < shorter.len() ==> shorter[i] == reads[i]);
        if forall|i: int| 0 <= i < reads.len() ==> !journal::is_gone(#[trigger] reads[i]) {
            assert(!journal::is_gone(reads[reads.len() - 1]));
            assert forall|i: int| 0 <= i < shorter.len() implies !journal::is_gone(
                #[trigger] shorter[i],
            ) by {
                assert(!journal::is_gone(reads[i]));
            }
        }
        if forall|i: int| 0 <= i < reads.len() ==> journal::is_gone(#[trigger] reads[i]) {
            assert(journal::is_gone(reads[reads.len() - 1]));
            assert forall|i: int| 0 <= i < shorter.len() implies journal::is_gone(
                #[trigger] shorter[i],
            ) by {
                assert(journal::is_gone(reads[i]));
            }
        }
        if journal::gone_count(reads) == 0 {
            assert forall|i: int| 0 <= i < reads.len() implies !journal::is_gone(
                #[trigger] reads[i],
            ) by {
                if i < shorter.len() {
                    assert(!journal::is_gone(shorter[i]));
                }
            }
        }
        if journal::gone_count(reads) == reads.len() {
            assert forall|i: int| 0 <= i < reads.len() implies journal::is_gone(
                #[trigger] reads[i],
            ) by {
                if i < shorter.len() {
                    assert(journal::is_gone(shorter[i]));
                }
            }
        }
    }
}

/// The rows of a checkpoint are all there, each with the value expected, or all gone: absent
/// or without a value. Where each is there or gone as expected but not all alike, the
/// checkpoint is partial.
pub proof fn law_checkpoint_rows_are_all_or_none(
    keys: Seq<Seq<u8>>,
    expected: Seq<Option<Vec<u8>>>,
    reads: Seq<RowRead>,
)
    requires
        expected.len() == keys.len(),
        reads.len() == keys.len(),
        keys.len() > 0,
        forall|i: int| 0 <= i < expected.len() ==> (#[trigger] expected[i]) is Some,
    ensures
        ({
            let state = journal::checkpoint_state(keys, expected, reads);
            &&& (forall|i: int|
                0 <= i < reads.len() ==> (#[trigger] reads[i] matches RowRead::Found {
                    value: Some(value),
                    ..
                } && value@ == expected[i]->0@)) ==> state is Ok && state->Ok_0 is Exact
                && state->Ok_0->Exact_0.len() == keys.len()
            &&& (forall|i: int|
                0 <= i < reads.len() ==> (#[trigger] reads[i]) is Absent || (
                reads[i] matches RowRead::Found { value: None, .. })) ==> state == Ok::<
                JournalView,
                JournalError,
            >(JournalView::Absent)
            &&& state matches Ok(JournalView::Exact(rows)) ==> forall|i: int|
                0 <= i < reads.len() ==> (#[trigger] reads[i] matches RowRead::Found {
                    value: Some(value),
                    ..
                } && value@ == expected[i]->0@ && rows[i] == (keys[i], value@))
            &&& state == Ok::<JournalView, JournalError>(JournalView::Absent) ==> forall|i: int|
                0 <= i < reads.len() ==> (#[trigger] reads[i]) is Absent || (
                reads[i] matches RowRead::Found { value: None, .. })
        }),
{
    let refusals = journal::checkpoint_row_refusals(expected, reads);
    lemma_gone_count(reads);
    if checks::first_some(refusals) is None {
        checks::lemma_first_some_all(refusals);
        assert forall|i: int| 0 <= i < reads.len() implies journal::checkpoint_row_refusal(
            expected[i],
            #[trigger] reads[i],
        ) is None by {
            assert(refusals[i] is None);
        }
        if journal::gone_count(reads) == 0 {
            assert forall|i: int| 0 <= i < reads.len() implies (#[trigger] reads[
                i
            ] matches RowRead::Found { value: Some(value), .. } && value@ == expected[i]->0@) by {
                assert(!journal::is_gone(reads[i]));
                assert(expected[i] is Some);
            }
        } else if journal::gone_count(reads) == reads.len() {
            assert forall|i: int| 0 <= i < reads.len() implies (#[trigger] reads[i]) is Absent || (
            reads[i] matches RowRead::Found { value: None, .. }) by {
                assert(journal::is_gone(reads[i]));
            }
        }
    }
    if forall|i: int|
        0 <= i < reads.len() ==> (#[trigger] reads[i] matches RowRead::Found {
            value: Some(value),
            ..
        } && value@ == expected[i]->0@) {
        assert forall|i: int| 0 <= i < refusals.len() implies (#[trigger] refusals[i]) is None by {
            assert(reads[i] matches RowRead::Found { value: Some(value), .. } && value@
                == expected[i]->0@);
            assert(expected[i] is Some);
        }
        checks::lemma_first_some_none(refusals);
        assert forall|i: int| 0 <= i < reads.len() implies !journal::is_gone(#[trigger] reads[i]) by {}
    }
    if forall|i: int|
        0 <= i < reads.len() ==> (#[trigger] reads[i]) is Absent || (
        reads[i] matches RowRead::Found { value: None, .. }) {
        assert forall|i: int| 0 <= i < refusals.len() implies (#[trigger] refusals[i]) is None by {
            assert(reads[i] is Absent || (reads[i] matches RowRead::Found { value: None, .. }));
            assert(expected[i] is Some);
        }
        checks::lemma_first_some_none(refusals);
        assert forall|i: int| 0 <= i < reads.len() implies journal::is_gone(#[trigger] reads[i]) by {}
    }
}

/// The live projection has caught up with an event where it shows one of the same millisecond
/// or later; without any it is missing.
pub proof fn law_projections_catch_up(event_ts_ns: u64, last_event_unix_ms: Option<u64>)
    ensures
        last_event_unix_ms is None ==> relay::projection_reading(event_ts_ns, last_event_unix_ms)
            == Err::<(), ProjectionError>(ProjectionError::Missing),
        last_event_unix_ms is Some && (last_event_unix_ms->0 + 1) * 1_000_000 > event_ts_ns
            ==> relay::projection_reading(event_ts_ns, last_event_unix_ms) is Ok,
        last_event_unix_ms is Some && (last_event_unix_ms->0 + 1) * 1_000_000 <= event_ts_ns
            ==> relay::projection_reading(event_ts_ns, last_event_unix_ms) == Err::<
            (),
            ProjectionError,
        >(ProjectionError::Stale { projected_last_event_unix_ms: last_event_unix_ms->0 }),
{
}

/// The journal keeps its rows for the hours or days of its contract, in nanoseconds; a
/// contract that is missing, unbounded or too long to count gives no such time.
pub proof fn law_retention_is_counted(hours: u64, days: u64)
    ensures
        relay::retention_spec(None) == Err::<u64, RetentionError>(RetentionError::ContractMissing),
        relay::retention_spec(Some(RetentionTtl::Unlimited)) == Err::<u64, RetentionError>(
            RetentionError::ContractInvalid,
        ),
        relay::retention_spec(Some(RetentionTtl::LruOnly)) == Err::<u64, RetentionError>(
            RetentionError::ContractInvalid,
        ),
        hours <= 5_124_095 ==> relay::retention_spec(Some(RetentionTtl::Hours(hours))) == Ok::<
            u64,
            RetentionError,
        >((hours * 60 * 60 * 1_000_000_000) as u64),
        hours > 5_124_095 ==> relay::retention_spec(Some(RetentionTtl::Hours(hours))) == Err::<
            u64,
            RetentionError,
        >(RetentionError::ContractOverflow),
        days * 24 <= 5_124_095 ==> relay::retention_spec(Some(RetentionTtl::Days(days)))
            == relay::retention_spec(Some(RetentionTtl::Hours((days * 24) as u64))),
        days * 24 > 5_124_095 ==> relay::retention_spec(Some(RetentionTtl::Days(days))) == Err::<
            u64,
            RetentionError,
        >(RetentionError::ContractOverflow),
{
}

/// That events are absent can be trusted while they are younger than the retention of the
/// journal; from then on it is ambiguous.
pub proof fn law_absence_is_trusted_within_retention(
    event_ts_ns: u64,
    now_ns: u64,
    ttl: Option<RetentionTtl>,
)
    ensures
        relay::retention_spec(ttl) matches Err(error) ==> relay::absence_refusal(
            event_ts_ns,
            now_ns,
            ttl,
        ) == Some(RelayError::Retention(error)),
        relay::retention_spec(ttl) matches Ok(retention) ==> {
            &&& retention > 0 && event_ts_ns + retention > now_ns ==> relay::absence_refusal(
                event_ts_ns,
                now_ns,
                ttl,
            ) is None
            &&& event_ts_ns + retention <= now_ns ==> relay::absence_refusal(
                event_ts_ns,
                now_ns,
                ttl,
            ) == Some(RelayError::JournalAbsenceAmbiguous)
            &&& retention == 0 ==> relay::absence_refusal(event_ts_ns, now_ns, ttl) == Some(
                RelayError::JournalAbsenceAmbiguous,
            )
        },
{
}

/// What the relay does once it has read the journal: at first it writes the events where they
/// are absent for sure, and goes on to the projection where they stand there; after writing
/// them it fails where they do not stand there; at the end it makes the checkpoint where the
/// same rows still stand there, and fails otherwise.
pub proof fn law_relay_follows_the_journal(
    phase: RelayPhase,
    rows: Seq<(Seq<u8>, Seq<u8>)>,
    found: Seq<(Seq<u8>, Seq<u8>)>,
    journal_error: JournalError,
    absence: Option<RelayError>,
    trouble: RelayError,
)
    ensures
        relay::after_journal(RelayPhase::Inspect, rows, Ok(JournalView::Absent), None) == (
            RelayPhase::Write,
            false,
            RelayAction::WriteEvents,
        ),
        relay::after_journal(RelayPhase::Inspect, rows, Ok(JournalView::Absent), Some(trouble)) == (
            RelayPhase::Over,
            false,
            (RelayAction::Fail { error: trouble, latch: true }),
        ),
        relay::after_journal(RelayPhase::Inspect, rows, Ok(JournalView::Exact(found)), absence) == (
            RelayPhase::Project,
            true,
            RelayAction::ReadProjection,
        ),
        relay::after_journal(RelayPhase::Inspect, rows, Err(journal_error), absence) == (
            RelayPhase::Over,
            false,
            (RelayAction::Fail { error: RelayError::Journal(journal_error), latch: false }),
        ),
        relay::after_journal(RelayPhase::Reinspect, rows, Ok(JournalView::Exact(found)), absence)
            == (RelayPhase::Project, true, RelayAction::ReadProjection),
        relay::after_journal(RelayPhase::Reinspect, rows, Ok(JournalView::Absent), absence) == (
            RelayPhase::Over,
            false,
            (RelayAction::Fail { error: RelayError::ReadbackMissing, latch: true }),
        ),
        relay::after_journal(RelayPhase::Reinspect, rows, Err(journal_error), absence) == (
            RelayPhase::Over,
            false,
            (RelayAction::Fail { error: RelayError::ReadbackFailed(journal_error), latch: true }),
        ),
        relay::after_journal(RelayPhase::Confirm, rows, Ok(JournalView::Exact(rows)), absence) == (
            RelayPhase::Build,
            false,
            RelayAction::BuildCheckpoint,
        ),
        found != rows ==> relay::after_journal(
            RelayPhase::Confirm,
            rows,
            Ok(JournalView::Exact(found)),
            absence,
        ) == (
            RelayPhase::Over,
            false,
            (RelayAction::Fail { error: RelayError::FinalRowsChanged, latch: true }),
        ),
        relay::after_journal(RelayPhase::Confirm, rows, Ok(JournalView::Absent), absence) == (
            RelayPhase::Over,
            false,
            (RelayAction::Fail { error: RelayError::FinalRowsMissing, latch: true }),
        ),
        relay::after_journal(RelayPhase::Confirm, rows, Err(journal_error), absence) == (
            RelayPhase::Over,
            false,
            (RelayAction::Fail { error: RelayError::FinalReadFailed(journal_error), latch: true }),
        ),
{
}

/// What the relay does once it has read the projection: where it has caught up, the journal is
/// confirmed; where it has not, it is recovered once if the events stood in the journal
/// before, and the relay fails otherwise.
pub proof fn law_relay_follows_the_projection(recovered: bool, lag: ProjectionError)
    ensures
        relay::after_projection(RelayPhase::Project, recovered, Ok(())) == (
            RelayPhase::Confirm,
            RelayAction::InspectJournal,
        ),
        relay::after_projection(RelayPhase::Reproject, recovered, Ok(())) == (
            RelayPhase::Confirm,
            RelayAction::InspectJournal,
        ),
        relay::after_projection(RelayPhase::Project, true, Err(lag)) == (
            RelayPhase::Recover,
            RelayAction::RecoverProjection,
        ),
        relay::after_projection(RelayPhase::Project, false, Err(lag)) == (
            RelayPhase::Over,
            (RelayAction::Fail { error: RelayError::Projection(lag), latch: true }),
        ),
        relay::after_projection(RelayPhase::Reproject, recovered, Err(lag)) == (
            RelayPhase::Over,
            (RelayAction::Fail { error: RelayError::RecoveryReadbackFailed(lag), latch: true }),
        ),
{
}

/// An acknowledgement registers the agent if the outbox did, keeps the state that it told,
/// holds the checkpoint and owes nothing; retiring takes the checkpoint off. Nothing else of
/// the cursor changes.
pub proof fn law_acknowledgements_keep_what_was_told(
    cursor: AmbientView,
    outbox: OutboxView,
    checkpoint: CheckpointView,
    now_ns: u64,
)
    ensures
        ({
            let after = relay::acknowledged(cursor, outbox, checkpoint, now_ns);
            &&& after.registered <==> cursor.registered || outbox.acknowledge_registration
            &&& outbox.acknowledge_state is Some ==> after.last_emitted_state
                == outbox.acknowledge_state
            &&& outbox.acknowledge_state is None ==> after.last_emitted_state
                == cursor.last_emitted_state
            &&& after.projection_checkpoint == Some(checkpoint)
            &&& after.pending_event_outbox is None
            &&& after.updated_ts_ns == now_ns
            &&& after.spawn_id == cursor.spawn_id
            &&& after.session_id == cursor.session_id
            &&& after.source_path == cursor.source_path
            &&& after.offset_bytes == cursor.offset_bytes
            &&& after.lines_ingested == cursor.lines_ingested
            &&& after.parsed_rows == cursor.parsed_rows
            &&& after.invalid_rows == cursor.invalid_rows
            &&& after.state == cursor.state
            &&& after.fingerprint == cursor.fingerprint
            &&& after.boundary == cursor.boundary
            &&& after.error == cursor.error
        }),
        ({
            let after = relay::retired(cursor, now_ns);
            &&& after.projection_checkpoint is None
            &&& after.updated_ts_ns == now_ns
            &&& after.registered == cursor.registered
            &&& after.last_emitted_state == cursor.last_emitted_state
            &&& after.pending_event_outbox == cursor.pending_event_outbox
            &&& after.spawn_id == cursor.spawn_id
            &&& after.offset_bytes == cursor.offset_bytes
            &&& after.lines_ingested == cursor.lines_ingested
            &&& after.state == cursor.state
            &&& after.error == cursor.error
        }),
{
}

/// A parked session is skipped; a file that cannot be looked at, that is none, or that has
/// become shorter than what was read of it parks the session; any other is read up to its
/// size.
pub proof fn law_sessions_are_surveyed(cursor: AmbientView, newly_registered: bool, file: SourceFile)
    ensures
        ({
            let check = pass::session_survey(cursor, newly_registered, file);
            &&& cursor.error is Some ==> check == SessionCheck::Done(
                (SessionIngestOutcome {
                    new_parsed_rows: 0,
                    new_invalid_rows: 0,
                    newly_registered,
                    deferred_for_pressure: false,
                    skipped: true,
                    cancelled: false,
                }),
            )
            &&& cursor.error is None && file is StatFailed ==> check == SessionCheck::Stick(
                SessionError::Pass(PassError::SourceStatFailed),
            )
            &&& cursor.error is None && file is NotFile ==> check == SessionCheck::Stick(
                SessionError::Pass(PassError::SourceNotFile),
            )
            &&& cursor.error is None && (file matches SourceFile::Size(size) && size
                < cursor.offset_bytes) ==> check == SessionCheck::Stick(
                SessionError::Pass(
                    (PassError::SourceTruncated { file_size_bytes: file->Size_0 }),
                ),
            )
            &&& cursor.error is None && (file matches SourceFile::Size(size) && size
                >= cursor.offset_bytes) ==> check == (SessionCheck::Ready {
                file_size_bytes: file->Size_0,
                store: false,
            })
        }),
{
}

/// The cursor that covers a chunk has the bytes and the lines of the chunk behind it, counts
/// its parsed and its invalid rows, and has the state of the session after it; nothing else of
/// it changes.
pub proof fn law_covering_cursors_count_the_chunk(pass: SessionPass)
    requires
        pass.wf(),
    ensures
        ({
            let before = pass.cursor@;
            let covered = pass::session_covered(pass);
            let after = covered->Ok_0;
            let parses = before.parsed_rows + pass.chunk_parsed <= 0xffff_ffff_ffff_ffff;
            let refuses = before.invalid_rows + pass.chunk_invalid <= 0xffff_ffff_ffff_ffff;
            &&& covered is Ok <==> parses && refuses
            &&& !parses ==> covered == Err::<AmbientView, PassError>(
                PassError::ParsedCounterOverflow,
            )
            &&& parses && !refuses ==> covered == Err::<AmbientView, PassError>(
                PassError::InvalidCounterOverflow,
            )
            &&& covered is Ok ==> {
                &&& after.offset_bytes == before.offset_bytes + pass.chunk_bytes
                &&& after.lines_ingested == before.lines_ingested + pass.chunk@.len()
                &&& after.parsed_rows == before.parsed_rows + pass.chunk_parsed
                &&& after.invalid_rows == before.invalid_rows + pass.chunk_invalid
                &&& after.state == pass.state@
                &&& after.spawn_id == before.spawn_id
                &&& after.session_id == before.session_id
                &&& after.source_path == before.source_path
                &&& after.registered == before.registered
                &&& after.last_emitted_state == before.last_emitted_state
                &&& after.pending_event_outbox == before.pending_event_outbox
                &&& after.projection_checkpoint == before.projection_checkpoint
                &&& after.error == before.error
            }
        }),
{
}

} // verus!
