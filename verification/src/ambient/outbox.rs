//! The events that a cursor owes the journal: how they are made, and when a
//! stored outbox can be trusted.
use crate::ambient::events;
use crate::ambient::events::{
    AMBIENT_OUTBOX_OPERATION_FIELD, AgentEvent, AgentEventKind, EventView, GenAiOperationName,
    Payload, PayloadValue, PayloadView, ValueView, has_text_member, new_event,
};
use crate::ambient::tracking::{
    AMBIENT_OUTBOX_VERSION, AMBIENT_PROJECTION_CHECKPOINT_VERSION, AmbientCursor,
    AmbientEventOutbox, AmbientProjectionCheckpoint, AmbientView, CheckpointView,
    MAX_AMBIENT_OUTBOX_RECORDS, OutboxView,
};
use crate::checks;
use crate::digest;
use crate::digest::{is_lower_sha256, sha256_hex};
use crate::tasks::prune;
use crate::tasks::prune::is_bytes_less;
use crate::text;
use crate::text::{joined, opt_equals, str_equal, strip_prefix};
use vstd::prelude::*;
use vstd::string::*;

verus! {

/// What a line says of the state of its agent.
#[derive(Debug)]
pub enum Lifecycle {
    /// The agent uses a tool.
    ToolUse { tool_name: String, input_sha256: String },
    /// The agent works, on nothing that it names.
    Working,
    /// The agent has ended its turn.
    Idle,
    /// A turn begins.
    TurnStarted,
}

/// A signal with its strings taken as text.
pub enum LifecycleView {
    ToolUse { tool_name: Seq<char>, input_sha256: Seq<char> },
    Working,
    Idle,
    TurnStarted,
}

impl View for Lifecycle {
    type V = LifecycleView;

    open spec fn view(&self) -> LifecycleView {
        match *self {
            Lifecycle::ToolUse { tool_name, input_sha256 } => LifecycleView::ToolUse {
                tool_name: tool_name@,
                input_sha256: input_sha256@,
            },
            Lifecycle::Working => LifecycleView::Working,
            Lifecycle::Idle => LifecycleView::Idle,
            Lifecycle::TurnStarted => LifecycleView::TurnStarted,
        }
    }
}

/// The view of an optional signal.
pub open spec fn opt_lifecycle(lifecycle: Option<Lifecycle>) -> Option<LifecycleView> {
    match lifecycle {
        Some(inner) => Some(inner@),
        None => None,
    }
}

/// The name of the state that a signal stands for.
pub open spec fn state_tag(lifecycle: LifecycleView) -> Seq<char> {
    match lifecycle {
        LifecycleView::ToolUse { tool_name, .. } => "tool:"@ + tool_name,
        LifecycleView::Working => "working"@,
        LifecycleView::Idle => "idle"@,
        LifecycleView::TurnStarted => "turn_started"@,
    }
}

/// The name of the state that a signal stands for.
pub fn lifecycle_state_tag(lifecycle: &Lifecycle) -> (tag: String)
    ensures
        tag@ == state_tag(lifecycle@),
{
    match lifecycle {
        Lifecycle::ToolUse { tool_name, .. } => joined("tool:", tool_name.as_str()),
        Lifecycle::Working => "working".to_owned(),
        Lifecycle::Idle => "idle".to_owned(),
        Lifecycle::TurnStarted => "turn_started".to_owned(),
    }
}

/// An optional text as a payload has it.
pub open spec fn text_or_null(text: Option<Seq<char>>) -> ValueView {
    match text {
        Some(inner) => ValueView::Text(inner),
        None => ValueView::Null,
    }
}

fn text_value(text: &Option<String>) -> (value: PayloadValue)
    ensures
        value@ == text_or_null(text::opt_text(*text)),
{
    match text {
        Some(inner) => PayloadValue::Text(inner.clone()),
        None => PayloadValue::Null,
    }
}

/// The event that asks for a discovered agent.
pub open spec fn requested_event(
    cursor: AmbientView,
    vendor: Seq<char>,
    provider: Option<Seq<char>>,
    ts_ns: u64,
) -> EventView {
    EventView {
        operation_name: Some(GenAiOperationName::CreateAgent),
        provider_name: provider,
        response_model: cursor.state.model,
        payload: PayloadView::Object(
            seq![
                ("source"@, ValueView::Text("ambient_transcript"@)),
                ("cli"@, ValueView::Text(vendor)),
                ("discovered_via"@, ValueView::Text("claude_projects_tail"@)),
                ("session_id"@, ValueView::Text(cursor.session_id)),
                ("transcript_path"@, ValueView::Text(cursor.source_path)),
                ("working_dir"@, text_or_null(cursor.state.cwd)),
                ("git_branch"@, text_or_null(cursor.state.git_branch)),
            ],
        ),
        ..events::bare_event(
            ts_ns,
            AgentEventKind::SpawnRequested,
            cursor.spawn_id,
            cursor.session_id,
            "ambient_discovered"@,
            vendor,
        )
    }
}

/// The event that reports a discovered agent as ready.
pub open spec fn ready_event(
    cursor: AmbientView,
    vendor: Seq<char>,
    provider: Option<Seq<char>>,
    ts_ns: u64,
) -> EventView {
    EventView {
        provider_name: provider,
        payload: PayloadView::Object(
            seq![
                ("source"@, ValueView::Text("ambient_transcript"@)),
                ("ambient"@, ValueView::Flag(true)),
            ],
        ),
        ..events::bare_event(
            ts_ns,
            AgentEventKind::SpawnReady,
            cursor.spawn_id,
            cursor.session_id,
            "ambient_observed"@,
            vendor,
        )
    }
}

/// The events that register a discovered agent.
pub fn registration_records(
    cursor: &AmbientCursor,
    vendor: &str,
    provider: &Option<String>,
    event_ts_ns: u64,
) -> (records: Vec<AgentEvent>)
    ensures
        events::event_views(records@) == seq![
            requested_event(
                cursor@,
                vendor@,
                text::opt_text(*provider),
                event_ts_ns,
            ),
            ready_event(
                cursor@,
                vendor@,
                text::opt_text(*provider),
                event_ts_ns,
            ),
        ],
{
    let mut requested = new_event(
        event_ts_ns,
        AgentEventKind::SpawnRequested,
        cursor.spawn_id.as_str(),
        cursor.session_id.as_str(),
        "ambient_discovered",
        vendor,
    );
    requested.operation_name = Some(GenAiOperationName::CreateAgent);
    requested.provider_name = provider.clone();
    requested.response_model = cursor.state.model.clone();
    let members = vec![
        ("source".to_owned(), PayloadValue::Text("ambient_transcript".to_owned())),
        ("cli".to_owned(), PayloadValue::Text(vendor.to_owned())),
        ("discovered_via".to_owned(), PayloadValue::Text("claude_projects_tail".to_owned())),
        ("session_id".to_owned(), PayloadValue::Text(cursor.session_id.clone())),
        ("transcript_path".to_owned(), PayloadValue::Text(cursor.source_path.clone())),
        ("working_dir".to_owned(), text_value(&cursor.state.cwd)),
        ("git_branch".to_owned(), text_value(&cursor.state.git_branch)),
    ];
    assert(events::member_views(members@) =~= requested_event(
                cursor@,
                vendor@,
                text::opt_text(*provider),
                event_ts_ns,
            ).payload->Object_0);
    requested.payload = Payload::Object(members);
    let mut ready = new_event(
        event_ts_ns,
        AgentEventKind::SpawnReady,
        cursor.spawn_id.as_str(),
        cursor.session_id.as_str(),
        "ambient_observed",
        vendor,
    );
    ready.provider_name = provider.clone();
    let members = vec![
        ("source".to_owned(), PayloadValue::Text("ambient_transcript".to_owned())),
        ("ambient".to_owned(), PayloadValue::Flag(true)),
    ];
    assert(events::member_views(members@) =~= ready_event(
                cursor@,
                vendor@,
                text::opt_text(*provider),
                event_ts_ns,
            ).payload->Object_0);
    ready.payload = Payload::Object(members);
    let records = vec![requested, ready];
    assert(events::event_views(records@) =~= seq![
        requested_event(
                cursor@,
                vendor@,
                text::opt_text(*provider),
                event_ts_ns,
            ),
        ready_event(
                cursor@,
                vendor@,
                text::opt_text(*provider),
                event_ts_ns,
            ),
    ]);
    records
}

/// The event that reports the state of a discovered agent.
pub open spec fn state_event(
    cursor: AmbientView,
    vendor: Seq<char>,
    lifecycle: LifecycleView,
    ts_ns: u64,
) -> EventView {
    match lifecycle {
        LifecycleView::ToolUse { tool_name, input_sha256 } => EventView {
            operation_name: Some(GenAiOperationName::ExecuteTool),
            tool_name: Some(tool_name),
            payload: PayloadView::Object(
                seq![
                    ("tool_input_sha256"@, ValueView::Text(input_sha256)),
                    ("ambient"@, ValueView::Flag(true)),
                ],
            ),
            ..events::bare_event(
                ts_ns,
                AgentEventKind::ToolCallStarted,
                cursor.spawn_id,
                cursor.session_id,
                "ambient_tool_activity"@,
                vendor,
            )
        },
        LifecycleView::Working => events::bare_event(
            ts_ns,
            AgentEventKind::ToolCallFinished,
            cursor.spawn_id,
            cursor.session_id,
            "ambient_active"@,
            vendor,
        ),
        LifecycleView::Idle => events::bare_event(
            ts_ns,
            AgentEventKind::TurnFinished,
            cursor.spawn_id,
            cursor.session_id,
            "ambient_turn_finished"@,
            vendor,
        ),
        LifecycleView::TurnStarted => events::bare_event(
            ts_ns,
            AgentEventKind::TurnStarted,
            cursor.spawn_id,
            cursor.session_id,
            "ambient_turn_started"@,
            vendor,
        ),
    }
}

/// The event that reports the state of a discovered agent.
pub fn lifecycle_record(
    cursor: &AmbientCursor,
    vendor: &str,
    lifecycle: &Lifecycle,
    event_ts_ns: u64,
) -> (record: AgentEvent)
    ensures
        record@ == state_event(cursor@, vendor@, lifecycle@, event_ts_ns),
{
    let spawn_id = cursor.spawn_id.as_str();
    let session_id = cursor.session_id.as_str();
    match lifecycle {
        Lifecycle::ToolUse { tool_name, input_sha256 } => {
            let mut record = new_event(
                event_ts_ns,
                AgentEventKind::ToolCallStarted,
                spawn_id,
                session_id,
                "ambient_tool_activity",
                vendor,
            );
            record.operation_name = Some(GenAiOperationName::ExecuteTool);
            record.tool_name = Some(tool_name.clone());
            let members = vec![
                ("tool_input_sha256".to_owned(), PayloadValue::Text(input_sha256.clone())),
                ("ambient".to_owned(), PayloadValue::Flag(true)),
            ];
            assert(events::member_views(members@) =~= state_event(
                cursor@,
                vendor@,
                lifecycle@,
                event_ts_ns,
            ).payload->Object_0);
            record.payload = Payload::Object(members);
            record
        },
        Lifecycle::Working => new_event(
            event_ts_ns,
            AgentEventKind::ToolCallFinished,
            spawn_id,
            session_id,
            "ambient_active",
            vendor,
        ),
        Lifecycle::Idle => new_event(
            event_ts_ns,
            AgentEventKind::TurnFinished,
            spawn_id,
            session_id,
            "ambient_turn_finished",
            vendor,
        ),
        Lifecycle::TurnStarted => new_event(
            event_ts_ns,
            AgentEventKind::TurnStarted,
            spawn_id,
            session_id,
            "ambient_turn_started",
            vendor,
        ),
    }
}

/// An outbox before its operation is named.
#[derive(Debug)]
pub struct OutboxDraft {
    pub event_ts_ns: u64,
    pub records: Vec<AgentEvent>,
    pub acknowledge_registration: bool,
    pub acknowledge_state: Option<String>,
}

/// The state that a signal changes to, if it changes anything.
pub open spec fn changed_state(cursor: AmbientView, lifecycle: Option<LifecycleView>) -> Option<
    Seq<char>,
> {
    match lifecycle {
        Some(signal) => if cursor.last_emitted_state == Some(state_tag(signal)) {
            None
        } else {
            Some(state_tag(signal))
        },
        None => None,
    }
}

/// The event with an object for its payload.
pub open spec fn normal_event(event: EventView) -> EventView {
    EventView { payload: events::normal_payload(event.payload), ..event }
}

/// The events that a cursor owes the journal: those that register its agent, and
/// the one that reports a new state.
pub open spec fn owed_events(
    cursor: AmbientView,
    vendor: Seq<char>,
    lifecycle: Option<LifecycleView>,
    provider: Option<Seq<char>>,
    ts_ns: u64,
) -> Seq<EventView> {
    let registration = if cursor.registered {
        Seq::<EventView>::empty()
    } else {
        seq![
            normal_event(requested_event(cursor, vendor, provider, ts_ns)),
            normal_event(ready_event(cursor, vendor, provider, ts_ns)),
        ]
    };
    match lifecycle {
        Some(signal) => if changed_state(cursor, lifecycle) is Some {
            registration.push(normal_event(state_event(cursor, vendor, signal, ts_ns)))
        } else {
            registration
        },
        None => registration,
    }
}

/// Drafts the outbox of a cursor: nothing where the agent is registered and its
/// state has not changed.
pub fn draft_event_outbox(
    cursor: &AmbientCursor,
    vendor: &str,
    lifecycle: Option<&Lifecycle>,
    provider: &Option<String>,
    now_ns: u64,
) -> (draft: Option<OutboxDraft>)
    ensures
        ({
            let signal = match lifecycle {
                Some(inner) => Some(inner@),
                None => None,
            };
            let state = changed_state(cursor@, signal);
            match draft {
                None => cursor@.registered && state is None,
                Some(drafted) => {
                    &&& !(cursor@.registered && state is None)
                    &&& drafted.event_ts_ns == now_ns
                    &&& events::event_views(drafted.records@) == owed_events(
                        cursor@,
                        vendor@,
                        signal,
                        text::opt_text(*provider),
                        now_ns,
                    )
                    &&& drafted.acknowledge_registration == !cursor@.registered
                    &&& text::opt_text(drafted.acknowledge_state) == state
                    &&& 0 < drafted.records@.len() <= MAX_AMBIENT_OUTBOX_RECORDS
                },
            }
        }),
{
    let acknowledge_registration: bool = !cursor.registered;
    let acknowledge_state: Option<String> = match lifecycle {
        Some(signal) => {
            let tag = lifecycle_state_tag(signal);
            if opt_equals(&cursor.last_emitted_state, tag.as_str()) {
                None
            } else {
                Some(tag)
            }
        },
        None => None,
    };
    if !acknowledge_registration && acknowledge_state.is_none() {
        return None;
    }
    let ghost signal_view = match lifecycle {
        Some(inner) => Some(inner@),
        None => None,
    };
    let mut records: Vec<AgentEvent> = if acknowledge_registration {
        registration_records(cursor, vendor, provider, now_ns)
    } else {
        Vec::new()
    };
    let ghost registration = events::event_views(records@);
    let mut index: usize = 0;
    let total: usize = records.len();
    while index < total
        invariant
            index <= total == records@.len(),
            registration.len() == total,
            forall|i: int| 0 <= i < index
                ==> (#[trigger] records@[i])@ == normal_event(registration[i]),
            forall|i: int| index <= i < total ==> (#[trigger] records@[i])@ == registration[i],
        decreases total - index,
    {
        let mut record = records[index].clone();
        record.normalize();
        records.set(index, record);
        index = index + 1;
    }
    let ghost normalized = events::event_views(records@);
    if acknowledge_state.is_some() {
        if let Some(signal) = lifecycle {
            let mut record = lifecycle_record(cursor, vendor, signal, now_ns);
            record.normalize();
            records.push(record);
        }
    }
    proof {
        assert(events::event_views(records@) =~= owed_events(
            cursor@,
            vendor@,
            signal_view,
            text::opt_text(*provider),
            now_ns,
        ));
    }
    Some(
        OutboxDraft {
            event_ts_ns: now_ns,
            records,
            acknowledge_registration,
            acknowledge_state,
        },
    )
}

/// Why an outbox or a checkpoint cannot be trusted.
#[derive(Clone, Copy, Debug, PartialEq, Eq, Structural)]
pub enum OutboxError {
    EnvelopeInvalid,
    RecordIdentityInvalid,
    RecordPayloadInvalid,
    OperationStampMismatch,
    RecordInvalid,
    RecordKindInvalid,
    RecordSetInvalid,
    IdentityEncodeFailed,
    OperationIdMismatch,
    EffectInvalid,
    CheckpointEnvelopeInvalid,
    CheckpointKeyOrderInvalid,
    CheckpointKeyInvalid,
    CheckpointTimestampMismatch,
}

/// How the parts of an outbox are encoded.
#[derive(Debug)]
pub struct OutboxEvidence {
    /// Whether each event is valid in itself and can be encoded.
    pub encodable: Vec<bool>,
    /// The encoded identity of the operation, over the events without their
    /// stamps.
    pub identity: Option<Vec<u8>>,
}

/// Whether an event reports this state.
pub open spec fn matches_state(event: EventView, state: Seq<char>) -> bool {
    if state == "working"@ {
        event.kind == AgentEventKind::ToolCallFinished
    } else if state == "idle"@ {
        event.kind == AgentEventKind::TurnFinished
    } else if state == "turn_started"@ {
        event.kind == AgentEventKind::TurnStarted
    } else {
        &&& text::has_prefix(state, "tool:"@)
        &&& state.len() > 5
        &&& event.kind == AgentEventKind::ToolCallStarted
        &&& event.tool_name == Some(state.subrange(5, state.len() as int))
    }
}

/// Whether an event reports this state.
pub fn event_matches_state(record: &AgentEvent, state: &str) -> (matched: bool)
    ensures
        matched == matches_state(record@, state@),
{
    if str_equal(state, "working") {
        return record.kind == AgentEventKind::ToolCallFinished;
    }
    if str_equal(state, "idle") {
        return record.kind == AgentEventKind::TurnFinished;
    }
    if str_equal(state, "turn_started") {
        return record.kind == AgentEventKind::TurnStarted;
    }
    proof {
        reveal_strlit("tool:");
        assert("tool:"@.len() == 5);
    }
    match strip_prefix(state, "tool:") {
        None => false,
        Some(tool_name) => tool_name.unicode_len() > 0 && record.kind
            == AgentEventKind::ToolCallStarted && opt_equals(&record.tool_name, tool_name),
    }
}

/// Whether the envelope of an outbox fits its cursor.
pub open spec fn envelope_fits(
    outbox: OutboxView,
    offset_bytes: u64,
    lines_ingested: u64,
) -> bool {
    &&& outbox.record_version == AMBIENT_OUTBOX_VERSION
    &&& digest::is_lower_sha256_spec(outbox.operation_id)
    &&& outbox.checkpoint_offset_bytes == offset_bytes
    &&& outbox.checkpoint_lines_ingested == lines_ingested
    &&& outbox.event_ts_ns != 0
    &&& 0 < outbox.records.len() <= MAX_AMBIENT_OUTBOX_RECORDS
}

/// Why an event does not belong into an outbox, if it does not.
pub open spec fn record_refusal(
    record: EventView,
    outbox: OutboxView,
    spawn_id: Seq<char>,
    session_id: Seq<char>,
    encodable: bool,
) -> Option<OutboxError> {
    if record.ts_ns != outbox.event_ts_ns || record.spawn_id != Some(spawn_id)
        || record.session_id is Some || record.conversation_id != Some(session_id) {
        Some(OutboxError::RecordIdentityInvalid)
    } else if !(record.payload is Object) {
        Some(OutboxError::RecordPayloadInvalid)
    } else if events::text_member(record.payload, AMBIENT_OUTBOX_OPERATION_FIELD@) != Some(
        outbox.operation_id,
    ) {
        Some(OutboxError::OperationStampMismatch)
    } else if !encodable {
        Some(OutboxError::RecordInvalid)
    } else if record.kind == AgentEventKind::SpawnRequested || record.kind
        == AgentEventKind::SpawnReady {
        None
    } else if outbox.acknowledge_state is Some && matches_state(
        record,
        outbox.acknowledge_state->Some_0,
    ) {
        None
    } else {
        Some(OutboxError::RecordKindInvalid)
    }
}

/// Whether an event is known to be encodable.
pub open spec fn encodable_at(encodable: Seq<bool>, at: int) -> bool {
    at < encodable.len() && encodable[at]
}

/// The refusals of the events of an outbox.
pub open spec fn record_refusals(
    outbox: OutboxView,
    spawn_id: Seq<char>,
    session_id: Seq<char>,
    encodable: Seq<bool>,
) -> Seq<Option<OutboxError>> {
    Seq::new(
        outbox.records.len(),
        |i: int|
            record_refusal(
                outbox.records[i],
                outbox,
                spawn_id,
                session_id,
                encodable_at(encodable, i),
            ),
    )
}

/// How many events are of a kind.
pub open spec fn kind_count(records: Seq<EventView>, kind: AgentEventKind) -> int
    decreases records.len(),
{
    if records.len() == 0 {
        0
    } else {
        kind_count(records.drop_last(), kind) + (if records.last().kind == kind {
            1int
        } else {
            0int
        })
    }
}

/// Whether an outbox holds exactly the events that it acknowledges.
pub open spec fn set_complete(outbox: OutboxView) -> bool {
    let registration = if outbox.acknowledge_registration {
        1int
    } else {
        0int
    };
    let state = if outbox.acknowledge_state is Some {
        1int
    } else {
        0int
    };
    &&& kind_count(outbox.records, AgentEventKind::SpawnRequested) == registration
    &&& kind_count(outbox.records, AgentEventKind::SpawnReady) == registration
    &&& outbox.records.len() == registration * 2 + state
}

/// Why an outbox is not what its cursor says it is, if it is not.
pub open spec fn identity_refusal(
    outbox: OutboxView,
    spawn_id: Seq<char>,
    session_id: Seq<char>,
    offset_bytes: u64,
    lines_ingested: u64,
    evidence: OutboxEvidence,
) -> Option<OutboxError> {
    if !envelope_fits(outbox, offset_bytes, lines_ingested) {
        Some(OutboxError::EnvelopeInvalid)
    } else {
        match checks::first_some(record_refusals(outbox, spawn_id, session_id, evidence.encodable@)) {
            Some(error) => Some(error),
            None => if !set_complete(outbox) {
                Some(OutboxError::RecordSetInvalid)
            } else {
                match evidence.identity {
                    None => Some(OutboxError::IdentityEncodeFailed),
                    Some(identity) => if digest::sha256_text(identity@) != outbox.operation_id {
                        Some(OutboxError::OperationIdMismatch)
                    } else {
                        None
                    },
                }
            },
        }
    }
}

fn check_record(
    record: &AgentEvent,
    outbox: &AmbientEventOutbox,
    spawn_id: &str,
    session_id: &str,
    encodable: bool,
) -> (refusal: Option<OutboxError>)
    ensures
        refusal == record_refusal(record@, outbox@, spawn_id@, session_id@, encodable),
{
    if record.ts_ns != outbox.event_ts_ns || !opt_equals(&record.spawn_id, spawn_id)
        || record.session_id.is_some() || !opt_equals(&record.conversation_id, session_id) {
        return Some(OutboxError::RecordIdentityInvalid);
    }
    match &record.payload {
        Payload::Object(_) => {},
        _ => {
            return Some(OutboxError::RecordPayloadInvalid);
        },
    }
    if !has_text_member(
        &record.payload,
        AMBIENT_OUTBOX_OPERATION_FIELD,
        outbox.operation_id.as_str(),
    ) {
        return Some(OutboxError::OperationStampMismatch);
    }
    if !encodable {
        return Some(OutboxError::RecordInvalid);
    }
    if record.kind == AgentEventKind::SpawnRequested || record.kind == AgentEventKind::SpawnReady {
        return None;
    }
    match &outbox.acknowledge_state {
        Some(state) => if event_matches_state(record, state.as_str()) {
            None
        } else {
            Some(OutboxError::RecordKindInvalid)
        },
        None => Some(OutboxError::RecordKindInvalid),
    }
}

/// Holds an outbox against the agent and the part of the source that it stands
/// for.
pub fn validate_event_outbox_identity(
    outbox: &AmbientEventOutbox,
    spawn_id: &str,
    session_id: &str,
    offset_bytes: u64,
    lines_ingested: u64,
    evidence: &OutboxEvidence,
) -> (checked: Result<(), OutboxError>)
    ensures
        checked == (match identity_refusal(
            outbox@,
            spawn_id@,
            session_id@,
            offset_bytes,
            lines_ingested,
            *evidence,
        ) {
            Some(error) => Err::<(), OutboxError>(error),
            None => Ok(()),
        }),
{
    if outbox.record_version != AMBIENT_OUTBOX_VERSION || !is_lower_sha256(
        outbox.operation_id.as_str(),
    ) || outbox.checkpoint_offset_bytes != offset_bytes || outbox.checkpoint_lines_ingested
        != lines_ingested || outbox.event_ts_ns == 0 || outbox.records.len() == 0
        || outbox.records.len() > MAX_AMBIENT_OUTBOX_RECORDS {
        return Err(OutboxError::EnvelopeInvalid);
    }
    let mut requested: usize = 0;
    let mut ready: usize = 0;
    let mut index: usize = 0;
    let ghost refusals = record_refusals(outbox@, spawn_id@, session_id@, evidence.encodable@);
    while index < outbox.records.len()
        invariant
            index <= outbox.records@.len() <= MAX_AMBIENT_OUTBOX_RECORDS,
            envelope_fits(outbox@, offset_bytes, lines_ingested),
            refusals == record_refusals(outbox@, spawn_id@, session_id@, evidence.encodable@),
            forall|i: int| 0 <= i < index ==> (#[trigger] refusals[i]) is None,
            requested <= index,
            ready <= index,
            requested == kind_count(
                outbox@.records.subrange(0, index as int),
                AgentEventKind::SpawnRequested,
            ),
            ready == kind_count(
                outbox@.records.subrange(0, index as int),
                AgentEventKind::SpawnReady,
            ),
        decreases outbox.records@.len() - index,
    {
        let record = &outbox.records[index];
        let encodable: bool = index < evidence.encodable.len() && evidence.encodable[index];
        proof {
            let prefix = outbox@.records.subrange(0, index as int + 1);
            assert(prefix.drop_last() =~= outbox@.records.subrange(0, index as int));
            assert(prefix.last() == record@);
        }
        if let Some(error) = check_record(record, outbox, spawn_id, session_id, encodable) {
            proof {
                assert(refusals[index as int] == Some(error));
                checks::lemma_first_some_at(refusals, index as int);
            }
            return Err(error);
        }
        assert(refusals[index as int] is None);
        if record.kind == AgentEventKind::SpawnRequested {
            requested = requested + 1;
        }
        if record.kind == AgentEventKind::SpawnReady {
            ready = ready + 1;
        }
        index = index + 1;
    }
    proof {
        checks::lemma_first_some_none(refusals);
        assert(outbox@.records.subrange(0, outbox@.records.len() as int) =~= outbox@.records);
    }
    let registration: usize = if outbox.acknowledge_registration {
        1
    } else {
        0
    };
    let state: usize = if outbox.acknowledge_state.is_some() {
        1
    } else {
        0
    };
    if requested != registration || ready != registration || outbox.records.len() != registration
        * 2 + state {
        return Err(OutboxError::RecordSetInvalid);
    }
    match &evidence.identity {
        None => Err(OutboxError::IdentityEncodeFailed),
        Some(identity) => if str_equal(
            sha256_hex(identity.as_slice()).as_str(),
            outbox.operation_id.as_str(),
        ) {
            Ok(())
        } else {
            Err(OutboxError::OperationIdMismatch)
        },
    }
}

/// Whether acknowledging an outbox would change its cursor as it says.
pub open spec fn effect_fits(cursor: AmbientView, outbox: OutboxView) -> bool {
    &&& outbox.acknowledge_registration || outbox.acknowledge_state is Some
    &&& outbox.acknowledge_registration == !cursor.registered
    &&& outbox.acknowledge_state is Some ==> cursor.last_emitted_state != outbox.acknowledge_state
}

/// Why the outbox of a cursor cannot be trusted, if it cannot.
pub open spec fn outbox_refusal(
    cursor: AmbientView,
    outbox: OutboxView,
    evidence: OutboxEvidence,
) -> Option<OutboxError> {
    match identity_refusal(
        outbox,
        cursor.spawn_id,
        cursor.session_id,
        cursor.offset_bytes,
        cursor.lines_ingested,
        evidence,
    ) {
        Some(error) => Some(error),
        None => if effect_fits(cursor, outbox) {
            None
        } else {
            Some(OutboxError::EffectInvalid)
        },
    }
}

/// Holds an outbox against its cursor.
pub fn validate_event_outbox(
    cursor: &AmbientCursor,
    outbox: &AmbientEventOutbox,
    evidence: &OutboxEvidence,
) -> (checked: Result<(), OutboxError>)
    ensures
        checked == (match outbox_refusal(cursor@, outbox@, *evidence) {
            Some(error) => Err::<(), OutboxError>(error),
            None => Ok(()),
        }),
{
    validate_event_outbox_identity(
        outbox,
        cursor.spawn_id.as_str(),
        cursor.session_id.as_str(),
        cursor.offset_bytes,
        cursor.lines_ingested,
        evidence,
    )?;
    let same_state: bool = match &outbox.acknowledge_state {
        Some(state) => opt_equals(&cursor.last_emitted_state, state.as_str()),
        None => false,
    };
    if (!outbox.acknowledge_registration && outbox.acknowledge_state.is_none()) || (
    outbox.acknowledge_registration && cursor.registered) || (!outbox.acknowledge_registration
        && !cursor.registered) || same_state {
        return Err(OutboxError::EffectInvalid);
    }
    Ok(())
}

/// The event with the stamp of its operation.
pub open spec fn stamped_event(event: EventView, operation_id: Seq<char>) -> EventView {
    EventView { payload: events::stamped_payload(event.payload, operation_id), ..event }
}

/// The outbox of a draft whose operation has this name.
pub open spec fn named_outbox(
    cursor: AmbientView,
    draft: OutboxDraft,
    operation_id: Seq<char>,
) -> OutboxView {
    OutboxView {
        record_version: AMBIENT_OUTBOX_VERSION,
        operation_id,
        checkpoint_offset_bytes: cursor.offset_bytes,
        checkpoint_lines_ingested: cursor.lines_ingested,
        event_ts_ns: draft.event_ts_ns,
        records: Seq::new(
            draft.records@.len(),
            |i: int| stamped_event(draft.records@[i]@, operation_id),
        ),
        acknowledge_registration: draft.acknowledge_registration,
        acknowledge_state: text::opt_text(draft.acknowledge_state),
    }
}

/// Names the operation of a draft, and stamps its events with the name.
pub fn name_outbox(cursor: &AmbientCursor, draft: &OutboxDraft, operation_id: &str) -> (outbox:
    AmbientEventOutbox)
    ensures
        outbox@ == named_outbox(cursor@, *draft, operation_id@),
{
    let mut records: Vec<AgentEvent> = Vec::new();
    let mut index: usize = 0;
    while index < draft.records.len()
        invariant
            index <= draft.records@.len(),
            records@.len() == index,
            forall|i: int|
                0 <= i < index ==> (#[trigger] records@[i])@ == stamped_event(
                    draft.records@[i]@,
                    operation_id@,
                ),
        decreases draft.records@.len() - index,
    {
        let mut record = draft.records[index].clone();
        record.stamp(operation_id);
        records.push(record);
        index = index + 1;
    }
    let outbox = AmbientEventOutbox {
        record_version: AMBIENT_OUTBOX_VERSION,
        operation_id: operation_id.to_owned(),
        checkpoint_offset_bytes: cursor.offset_bytes,
        checkpoint_lines_ingested: cursor.lines_ingested,
        event_ts_ns: draft.event_ts_ns,
        records,
        acknowledge_registration: draft.acknowledge_registration,
        acknowledge_state: draft.acknowledge_state.clone(),
    };
    assert(outbox@.records =~= named_outbox(cursor@, *draft, operation_id@).records);
    outbox
}

/// What names an operation: everything that its outbox holds but the name.
#[derive(Debug)]
pub struct OutboxIdentity {
    pub record_version: u32,
    pub spawn_id: String,
    pub session_id: String,
    pub checkpoint_offset_bytes: u64,
    pub checkpoint_lines_ingested: u64,
    pub event_ts_ns: u64,
    /// The events without their stamps.
    pub records: Vec<AgentEvent>,
    pub acknowledge_registration: bool,
    pub acknowledge_state: Option<String>,
}

/// An [`OutboxIdentity`] with its strings taken as text.
pub struct IdentityView {
    pub record_version: u32,
    pub spawn_id: Seq<char>,
    pub session_id: Seq<char>,
    pub checkpoint_offset_bytes: u64,
    pub checkpoint_lines_ingested: u64,
    pub event_ts_ns: u64,
    pub records: Seq<EventView>,
    pub acknowledge_registration: bool,
    pub acknowledge_state: Option<Seq<char>>,
}

impl View for OutboxIdentity {
    type V = IdentityView;

    open spec fn view(&self) -> IdentityView {
        IdentityView {
            record_version: self.record_version,
            spawn_id: self.spawn_id@,
            session_id: self.session_id@,
            checkpoint_offset_bytes: self.checkpoint_offset_bytes,
            checkpoint_lines_ingested: self.checkpoint_lines_ingested,
            event_ts_ns: self.event_ts_ns,
            records: events::event_views(self.records@),
            acknowledge_registration: self.acknowledge_registration,
            acknowledge_state: text::opt_text(self.acknowledge_state),
        }
    }
}

/// The event without the stamp of its operation.
pub open spec fn clean_event(event: EventView) -> EventView {
    EventView { payload: events::clean_payload(event.payload), ..event }
}

/// What names the operation of an outbox.
pub open spec fn identity_of(
    spawn_id: Seq<char>,
    session_id: Seq<char>,
    outbox: OutboxView,
) -> IdentityView {
    IdentityView {
        record_version: outbox.record_version,
        spawn_id,
        session_id,
        checkpoint_offset_bytes: outbox.checkpoint_offset_bytes,
        checkpoint_lines_ingested: outbox.checkpoint_lines_ingested,
        event_ts_ns: outbox.event_ts_ns,
        records: Seq::new(outbox.records.len(), |i: int| clean_event(outbox.records[i])),
        acknowledge_registration: outbox.acknowledge_registration,
        acknowledge_state: outbox.acknowledge_state,
    }
}

/// Hands out what names the operation of an outbox.
pub fn outbox_identity(cursor: &AmbientCursor, outbox: &AmbientEventOutbox) -> (identity:
    OutboxIdentity)
    ensures
        identity@ == identity_of(cursor@.spawn_id, cursor@.session_id, outbox@),
{
    let mut records: Vec<AgentEvent> = Vec::new();
    let mut index: usize = 0;
    while index < outbox.records.len()
        invariant
            index <= outbox.records@.len(),
            records@.len() == index,
            forall|i: int|
                0 <= i < index ==> (#[trigger] records@[i])@ == clean_event(outbox.records@[i]@),
        decreases outbox.records@.len() - index,
    {
        records.push(outbox.records[index].cleaned());
        index = index + 1;
    }
    let identity = OutboxIdentity {
        record_version: outbox.record_version,
        spawn_id: cursor.spawn_id.clone(),
        session_id: cursor.session_id.clone(),
        checkpoint_offset_bytes: outbox.checkpoint_offset_bytes,
        checkpoint_lines_ingested: outbox.checkpoint_lines_ingested,
        event_ts_ns: outbox.event_ts_ns,
        records,
        acknowledge_registration: outbox.acknowledge_registration,
        acknowledge_state: outbox.acknowledge_state.clone(),
    };
    assert(identity@.records =~= identity_of(
        cursor@.spawn_id,
        cursor@.session_id,
        outbox@,
    ).records);
    identity
}

/// Hands out what names the operation of a draft, whatever name it gets.
pub fn draft_identity(cursor: &AmbientCursor, draft: &OutboxDraft) -> (identity: OutboxIdentity)
    ensures
        forall|operation_id: Seq<char>|
            identity@ == identity_of(
                cursor@.spawn_id,
                cursor@.session_id,
                #[trigger] named_outbox(cursor@, *draft, operation_id),
            ),
{
    let unnamed = name_outbox(cursor, draft, "");
    let identity = outbox_identity(cursor, &unnamed);
    assert forall|operation_id: Seq<char>| identity@ == identity_of(
        cursor@.spawn_id,
        cursor@.session_id,
        #[trigger] named_outbox(cursor@, *draft, operation_id),
    ) by {
        law_names_do_not_name(cursor@, *draft, ""@, operation_id);
    }
    identity
}

/// The name of an operation is no part of what names it: a draft has the same
/// identity under any two names.
pub proof fn law_names_do_not_name(
    cursor: AmbientView,
    draft: OutboxDraft,
    left: Seq<char>,
    right: Seq<char>,
)
    ensures
        identity_of(cursor.spawn_id, cursor.session_id, named_outbox(cursor, draft, left))
            == identity_of(cursor.spawn_id, cursor.session_id, named_outbox(cursor, draft, right)),
{
    let a = identity_of(cursor.spawn_id, cursor.session_id, named_outbox(cursor, draft, left));
    let b = identity_of(cursor.spawn_id, cursor.session_id, named_outbox(cursor, draft, right));
    assert forall|i: int| 0 <= i < a.records.len() implies a.records[i] == b.records[i] by {
        events::lemma_stamp_leaves_no_trace(draft.records@[i]@.payload, left);
        events::lemma_stamp_leaves_no_trace(draft.records@[i]@.payload, right);
    }
    assert(a.records =~= b.records);
}

/// Names the operation of a draft by the digest of its identity, and stamps its
/// events with the name.
pub fn build_event_outbox(
    cursor: &AmbientCursor,
    draft: OutboxDraft,
    evidence: &OutboxEvidence,
) -> (built: Result<AmbientEventOutbox, OutboxError>)
    ensures
        match evidence.identity {
            None => built matches Err(error) && error == OutboxError::IdentityEncodeFailed,
            Some(identity) => {
                let outbox = named_outbox(cursor@, draft, digest::sha256_text(identity@));
                match outbox_refusal(cursor@, outbox, *evidence) {
                    Some(error) => built matches Err(given) && given == error,
                    None => built matches Ok(given) && given@ == outbox,
                }
            },
        },
{
    let operation_id = match &evidence.identity {
        None => {
            return Err(OutboxError::IdentityEncodeFailed);
        },
        Some(identity) => sha256_hex(identity.as_slice()),
    };
    let outbox = name_outbox(cursor, &draft, operation_id.as_str());
    validate_event_outbox(cursor, &outbox, evidence)?;
    Ok(outbox)
}

/// How the keys of a checkpoint are read.
#[derive(Debug)]
pub struct CheckpointEvidence {
    pub outbox: OutboxEvidence,
    /// The time that each key of the journal stands for.
    pub key_times: Vec<Option<u64>>,
}

/// Why a key of a checkpoint cannot be trusted, if it cannot.
pub open spec fn key_refusal(
    keys: Seq<Seq<u8>>,
    at: int,
    key_times: Seq<Option<u64>>,
    event_ts_ns: u64,
) -> Option<OutboxError> {
    if at > 0 && !prune::bytes_less(keys[at - 1], keys[at]) {
        Some(OutboxError::CheckpointKeyOrderInvalid)
    } else if at >= key_times.len() || key_times[at] is None {
        Some(OutboxError::CheckpointKeyInvalid)
    } else if key_times[at] != Some(event_ts_ns) {
        Some(OutboxError::CheckpointTimestampMismatch)
    } else {
        None
    }
}

/// The refusals of the keys of a checkpoint.
pub open spec fn key_refusals(checkpoint: CheckpointView, key_times: Seq<Option<u64>>) -> Seq<
    Option<OutboxError>,
> {
    Seq::new(
        checkpoint.journal_keys.len(),
        |i: int|
            key_refusal(
                checkpoint.journal_keys,
                i,
                key_times,
                checkpoint.outbox.event_ts_ns,
            ),
    )
}

/// Why a checkpoint cannot be trusted, if it cannot.
pub open spec fn checkpoint_refusal(
    spawn_id: Seq<char>,
    session_id: Seq<char>,
    checkpoint: CheckpointView,
    evidence: CheckpointEvidence,
) -> Option<OutboxError> {
    if checkpoint.record_version != AMBIENT_PROJECTION_CHECKPOINT_VERSION
        || checkpoint.journal_keys.len() != checkpoint.outbox.records.len()
        || checkpoint.journal_keys.len() == 0 || checkpoint.journal_keys.len()
        > MAX_AMBIENT_OUTBOX_RECORDS {
        Some(OutboxError::CheckpointEnvelopeInvalid)
    } else {
        match identity_refusal(
            checkpoint.outbox,
            spawn_id,
            session_id,
            checkpoint.outbox.checkpoint_offset_bytes,
            checkpoint.outbox.checkpoint_lines_ingested,
            evidence.outbox,
        ) {
            Some(error) => Some(error),
            None => checks::first_some(key_refusals(checkpoint, evidence.key_times@)),
        }
    }
}

/// Holds a checkpoint against its agent. It stands for a part of the source that
/// the cursor may have left behind since.
pub fn validate_projection_checkpoint(
    spawn_id: &str,
    session_id: &str,
    checkpoint: &AmbientProjectionCheckpoint,
    evidence: &CheckpointEvidence,
) -> (checked: Result<(), OutboxError>)
    ensures
        checked == (match checkpoint_refusal(spawn_id@, session_id@, checkpoint@, *evidence) {
            Some(error) => Err::<(), OutboxError>(error),
            None => Ok(()),
        }),
{
    if checkpoint.record_version != AMBIENT_PROJECTION_CHECKPOINT_VERSION
        || checkpoint.journal_keys.len() != checkpoint.outbox.records.len()
        || checkpoint.journal_keys.len() == 0 || checkpoint.journal_keys.len()
        > MAX_AMBIENT_OUTBOX_RECORDS {
        return Err(OutboxError::CheckpointEnvelopeInvalid);
    }
    validate_event_outbox_identity(
        &checkpoint.outbox,
        spawn_id,
        session_id,
        checkpoint.outbox.checkpoint_offset_bytes,
        checkpoint.outbox.checkpoint_lines_ingested,
        &evidence.outbox,
    )?;
    let ghost refusals = key_refusals(checkpoint@, evidence.key_times@);
    let mut index: usize = 0;
    while index < checkpoint.journal_keys.len()
        invariant
            index <= checkpoint.journal_keys@.len(),
            refusals == key_refusals(checkpoint@, evidence.key_times@),
            refusals.len() == checkpoint.journal_keys@.len(),
            forall|i: int| 0 <= i < index ==> (#[trigger] refusals[i]) is None,
            !(checkpoint@.record_version != AMBIENT_PROJECTION_CHECKPOINT_VERSION
                || checkpoint@.journal_keys.len() != checkpoint@.outbox.records.len()
                || checkpoint@.journal_keys.len() == 0 || checkpoint@.journal_keys.len()
                > MAX_AMBIENT_OUTBOX_RECORDS),
            identity_refusal(
                checkpoint@.outbox,
                spawn_id@,
                session_id@,
                checkpoint@.outbox.checkpoint_offset_bytes,
                checkpoint@.outbox.checkpoint_lines_ingested,
                evidence.outbox,
            ) is None,
        decreases checkpoint.journal_keys@.len() - index,
    {
        let refusal: Option<OutboxError> = if index > 0 && !is_bytes_less(
            &checkpoint.journal_keys[index - 1],
            &checkpoint.journal_keys[index],
        ) {
            Some(OutboxError::CheckpointKeyOrderInvalid)
        } else if index >= evidence.key_times.len() {
            Some(OutboxError::CheckpointKeyInvalid)
        } else {
            match evidence.key_times[index] {
                None => Some(OutboxError::CheckpointKeyInvalid),
                Some(time) => if time != checkpoint.outbox.event_ts_ns {
                    Some(OutboxError::CheckpointTimestampMismatch)
                } else {
                    None
                },
            }
        };
        assert(refusals[index as int] == refusal);
        if let Some(error) = refusal {
            proof {
                checks::lemma_first_some_at(refusals, index as int);
            }
            return Err(error);
        }
        index = index + 1;
    }
    proof {
        checks::lemma_first_some_none(refusals);
    }
    Ok(())
}

proof fn lemma_kinds_are_apart(records: Seq<EventView>)
    ensures
        0 <= kind_count(records, AgentEventKind::SpawnRequested),
        0 <= kind_count(records, AgentEventKind::SpawnReady),
        kind_count(records, AgentEventKind::SpawnRequested) + kind_count(
            records,
            AgentEventKind::SpawnReady,
        ) + state_count(records) == records.len(),
    decreases records.len(),
{
    if records.len() > 0 {
        lemma_kinds_are_apart(records.drop_last());
    }
}

/// How many of the events report a state.
pub open spec fn state_count(records: Seq<EventView>) -> int
    decreases records.len(),
{
    if records.len() == 0 {
        0
    } else {
        state_count(records.drop_last()) + (if records.last().kind
            != AgentEventKind::SpawnRequested && records.last().kind
            != AgentEventKind::SpawnReady {
            1int
        } else {
            0int
        })
    }
}

/// However much a pass reads, the outbox that its cursor accepts reports at most one
/// state, and the registration once or not at all.
pub proof fn law_outboxes_report_one_state(
    cursor: AmbientView,
    outbox: OutboxView,
    evidence: OutboxEvidence,
)
    requires
        outbox_refusal(cursor, outbox, evidence) is None,
    ensures
        state_count(outbox.records) == (if outbox.acknowledge_state is Some {
            1int
        } else {
            0int
        }),
        kind_count(outbox.records, AgentEventKind::SpawnRequested) == kind_count(
            outbox.records,
            AgentEventKind::SpawnReady,
        ),
        kind_count(outbox.records, AgentEventKind::SpawnReady) == (if cursor.registered {
            0int
        } else {
            1int
        }),
        outbox.records.len() <= 3,
{
    lemma_kinds_are_apart(outbox.records);
}

/// An outbox that was built for its cursor is accepted by it, where its events
/// can be encoded and their tool, if any, has a name.
pub proof fn law_built_outboxes_are_accepted(
    cursor: AmbientView,
    vendor: Seq<char>,
    lifecycle: Option<LifecycleView>,
    provider: Option<Seq<char>>,
    draft: OutboxDraft,
    evidence: OutboxEvidence,
    now_ns: u64,
)
    requires
        now_ns != 0,
        !(cursor.registered && changed_state(cursor, lifecycle) is None),
        draft.event_ts_ns == now_ns,
        events::event_views(draft.records@)
            == owed_events(cursor, vendor, lifecycle, provider, now_ns),
        draft.acknowledge_registration == !cursor.registered,
        text::opt_text(draft.acknowledge_state) == changed_state(cursor, lifecycle),
        lifecycle matches Some(LifecycleView::ToolUse { tool_name, .. }) ==> tool_name.len() > 0,
        evidence.encodable@.len() == draft.records@.len(),
        forall|i: int| 0 <= i < evidence.encodable@.len() ==> evidence.encodable@[i],
        evidence.identity is Some,
        digest::is_lower_sha256_spec(digest::sha256_text(evidence.identity->Some_0@)),
    ensures
        outbox_refusal(
            cursor,
            named_outbox(cursor, draft, digest::sha256_text(evidence.identity->Some_0@)),
            evidence,
        ) is None,
{
    let operation_id = digest::sha256_text(evidence.identity->Some_0@);
    let outbox = named_outbox(cursor, draft, operation_id);
    let owed = owed_events(cursor, vendor, lifecycle, provider, now_ns);
    let refusals = record_refusals(outbox, cursor.spawn_id, cursor.session_id, evidence.encodable@);
    let field = AMBIENT_OUTBOX_OPERATION_FIELD@;
    reveal_strlit("tool:");
    reveal_strlit("working");
    reveal_strlit("idle");
    reveal_strlit("turn_started");
    assert("tool:"@.len() == 5 && "working"@.len() == 7 && "idle"@.len() == 4 && "turn_started"@.len()
        == 12);
    assert("tool:"@[0] == 't' && "tool:"@[1] == 'o');
    assert("working"@[0] == 'w' && "idle"@[0] == 'i' && "turn_started"@[1] == 'u');
    assert forall|i: int| 0 <= i < refusals.len() implies (#[trigger] refusals[i]) is None by {
        let event = draft.records@[i]@;
        assert(event == events::event_views(draft.records@)[i]);
        assert(event == owed[i]);
        lemma_owed_event(cursor, vendor, lifecycle, provider, now_ns, i);
        let record = outbox.records[i];
        assert(record == stamped_event(event, operation_id));
        let members = event.payload->Object_0;
        let stamped = events::without_member(members, field).push((field, ValueView::Text(operation_id)));
        assert(stamped.last().0 == field);
        assert(events::text_member(record.payload, field) == Some(operation_id));
        if event.kind != AgentEventKind::SpawnRequested
            && event.kind != AgentEventKind::SpawnReady {
            let signal = lifecycle->Some_0;
            let state = state_tag(signal);
            assert(outbox.acknowledge_state == Some(state));
            match signal {
                LifecycleView::ToolUse { tool_name, .. } => {
                    assert(state[0] == 't' && state[1] == 'o');
                    assert(state != "working"@ && state != "idle"@ && state != "turn_started"@);
                    assert(state.subrange(0, 5) =~= "tool:"@);
                    assert(state.subrange(5, state.len() as int) =~= tool_name);
                },
                _ => {},
            }
        }
    }
    checks::lemma_first_some_none(refusals);
    lemma_owed_counts(cursor, vendor, lifecycle, provider, now_ns);
    lemma_stamping_keeps_kinds(owed, outbox.records, AgentEventKind::SpawnRequested);
    lemma_stamping_keeps_kinds(owed, outbox.records, AgentEventKind::SpawnReady);
}

proof fn lemma_owed_event(
    cursor: AmbientView,
    vendor: Seq<char>,
    lifecycle: Option<LifecycleView>,
    provider: Option<Seq<char>>,
    ts_ns: u64,
    at: int,
)
    requires
        0 <= at < owed_events(cursor, vendor, lifecycle, provider, ts_ns).len(),
    ensures
        ({
            let event = owed_events(cursor, vendor, lifecycle, provider, ts_ns)[at];
            &&& event.payload is Object
            &&& event.ts_ns == ts_ns
            &&& event.spawn_id == Some(cursor.spawn_id)
            &&& event.session_id is None
            &&& event.conversation_id == Some(cursor.session_id)
            &&& {
                ||| event.kind == AgentEventKind::SpawnRequested
                ||| event.kind == AgentEventKind::SpawnReady
                ||| changed_state(cursor, lifecycle) is Some && lifecycle is Some && event
                    == normal_event(state_event(cursor, vendor, lifecycle->Some_0, ts_ns))
            }
        }),
{
    let owed = owed_events(cursor, vendor, lifecycle, provider, ts_ns);
    if !cursor.registered && at == 0 {
        assert(owed[at] == normal_event(requested_event(cursor, vendor, provider, ts_ns)));
    } else if !cursor.registered && at == 1 {
        assert(owed[at] == normal_event(ready_event(cursor, vendor, provider, ts_ns)));
    } else {
        assert(owed[at] == normal_event(state_event(cursor, vendor, lifecycle->Some_0, ts_ns)));
    }
}

proof fn lemma_stamping_keeps_kinds(
    events: Seq<EventView>,
    stamped: Seq<EventView>,
    kind: AgentEventKind,
)
    requires
        events.len() == stamped.len(),
        forall|i: int| 0 <= i < events.len() ==> (#[trigger] stamped[i]).kind == events[i].kind,
    ensures
        kind_count(stamped, kind) == kind_count(events, kind),
    decreases events.len(),
{
    if events.len() > 0 {
        assert forall|i: int| 0 <= i < events.len() - 1 implies (
        #[trigger] stamped.drop_last()[i]).kind == events.drop_last()[i].kind by {
            assert(stamped[i].kind == events[i].kind);
        }
        lemma_stamping_keeps_kinds(events.drop_last(), stamped.drop_last(), kind);
        assert(stamped[events.len() - 1].kind == events[events.len() - 1].kind);
    }
}

proof fn lemma_owed_counts(
    cursor: AmbientView,
    vendor: Seq<char>,
    lifecycle: Option<LifecycleView>,
    provider: Option<Seq<char>>,
    ts_ns: u64,
)
    ensures
        ({
            let owed = owed_events(cursor, vendor, lifecycle, provider, ts_ns);
            let registration = if cursor.registered {
                0int
            } else {
                1int
            };
            let state = if changed_state(cursor, lifecycle) is Some {
                1int
            } else {
                0int
            };
            &&& kind_count(owed, AgentEventKind::SpawnRequested) == registration
            &&& kind_count(owed, AgentEventKind::SpawnReady) == registration
            &&& owed.len() == registration * 2 + state
        }),
{
    reveal_with_fuel(kind_count, 4);
    let owed = owed_events(cursor, vendor, lifecycle, provider, ts_ns);
    let two = seq![
        normal_event(requested_event(cursor, vendor, provider, ts_ns)),
        normal_event(ready_event(cursor, vendor, provider, ts_ns)),
    ];
    let none = Seq::<EventView>::empty();
    assert(two.drop_last() =~= seq![normal_event(requested_event(cursor, vendor, provider, ts_ns))]);
    assert(two.drop_last().drop_last() =~= none);
    if changed_state(cursor, lifecycle) is Some {
        assert(owed.drop_last() =~= (if cursor.registered {
            none
        } else {
            two
        }));
    }
}

} // verus!
