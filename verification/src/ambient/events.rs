//! The events that the journal holds of a discovered agent.
use crate::text;
use crate::text::str_equal;
use vstd::prelude::*;
use vstd::string::*;

verus! {

/// The member of a payload that names the operation that it belongs to.
pub const AMBIENT_OUTBOX_OPERATION_FIELD: &'static str = "ambient_outbox_operation_id";

/// What happened to an agent.
#[derive(Clone, Copy, Debug, PartialEq, Eq, Structural)]
pub enum AgentEventKind {
    SpawnRequested,
    SpawnReady,
    ToolCallStarted,
    ToolCallFinished,
    TurnStarted,
    TurnFinished,
    /// A kind that is never journaled of a discovered agent.
    Other,
}

/// What the agent was doing.
#[derive(Clone, Copy, Debug, PartialEq, Eq, Structural)]
pub enum GenAiOperationName {
    CreateAgent,
    ExecuteTool,
    /// An operation that is never journaled of a discovered agent.
    Other,
}

/// A value in a payload. Values of other kinds are kept in their notation.
#[derive(Debug)]
pub enum PayloadValue {
    Null,
    Flag(bool),
    Text(String),
    Other(String),
}

/// A value with its strings taken as text.
pub enum ValueView {
    Null,
    Flag(bool),
    Text(Seq<char>),
    Other(Seq<char>),
}

impl View for PayloadValue {
    type V = ValueView;

    open spec fn view(&self) -> ValueView {
        match *self {
            PayloadValue::Null => ValueView::Null,
            PayloadValue::Flag(flag) => ValueView::Flag(flag),
            PayloadValue::Text(text) => ValueView::Text(text@),
            PayloadValue::Other(notation) => ValueView::Other(notation@),
        }
    }
}

impl Clone for PayloadValue {
    fn clone(&self) -> (copy: Self)
        ensures
            copy@ == self@,
    {
        match self {
            PayloadValue::Null => PayloadValue::Null,
            PayloadValue::Flag(flag) => PayloadValue::Flag(*flag),
            PayloadValue::Text(text) => PayloadValue::Text(text.clone()),
            PayloadValue::Other(notation) => PayloadValue::Other(notation.clone()),
        }
    }
}

/// The payload of an event. One that is no object is kept in its notation.
#[derive(Debug)]
pub enum Payload {
    Null,
    Object(Vec<(String, PayloadValue)>),
    Other(String),
}

/// A payload with its strings taken as text.
pub enum PayloadView {
    Null,
    Object(Seq<(Seq<char>, ValueView)>),
    Other(Seq<char>),
}

/// The views of the members of a payload.
pub open spec fn member_views(members: Seq<(String, PayloadValue)>) -> Seq<(Seq<char>, ValueView)> {
    Seq::new(members.len(), |i: int| (members[i].0@, members[i].1@))
}

impl View for Payload {
    type V = PayloadView;

    open spec fn view(&self) -> PayloadView {
        match *self {
            Payload::Null => PayloadView::Null,
            Payload::Object(members) => PayloadView::Object(member_views(members@)),
            Payload::Other(notation) => PayloadView::Other(notation@),
        }
    }
}

/// The members without those under `name`.
pub open spec fn without_member(members: Seq<(Seq<char>, ValueView)>, name: Seq<char>) -> Seq<
    (Seq<char>, ValueView),
>
    decreases members.len(),
{
    if members.len() == 0 {
        members
    } else if members.last().0 == name {
        without_member(members.drop_last(), name)
    } else {
        without_member(members.drop_last(), name).push(members.last())
    }
}

/// The member under `name`; the last one where there are several.
pub open spec fn payload_member(members: Seq<(Seq<char>, ValueView)>, name: Seq<char>) -> Option<
    ValueView,
>
    decreases members.len(),
{
    if members.len() == 0 {
        None
    } else if members.last().0 == name {
        Some(members.last().1)
    } else {
        payload_member(members.drop_last(), name)
    }
}

/// Copies the members but those under `name`.
pub fn copy_members_without(members: &Vec<(String, PayloadValue)>, name: &str) -> (copy: Vec<
    (String, PayloadValue),
>)
    ensures
        member_views(copy@) == without_member(member_views(members@), name@),
{
    let mut copy: Vec<(String, PayloadValue)> = Vec::new();
    let mut index: usize = 0;
    let ghost views = member_views(members@);
    assert(views.subrange(0, 0) =~= Seq::<(Seq<char>, ValueView)>::empty());
    assert(member_views(copy@) =~= Seq::<(Seq<char>, ValueView)>::empty());
    while index < members.len()
        invariant
            index <= members@.len(),
            views == member_views(members@),
            member_views(copy@) == without_member(views.subrange(0, index as int), name@),
        decreases members@.len() - index,
    {
        let before: Ghost<Seq<(String, PayloadValue)>> = Ghost(copy@);
        proof {
            let prefix = views.subrange(0, index as int + 1);
            assert(prefix.drop_last() =~= views.subrange(0, index as int));
            assert(prefix.last() == views[index as int]);
        }
        let entry: &(String, PayloadValue) = &members[index];
        if !str_equal(entry.0.as_str(), name) {
            let kept = (entry.0.clone(), entry.1.clone());
            copy.push(kept);
            assert(member_views(copy@) =~= member_views(before@).push((kept.0@, kept.1@)));
        }
        index = index + 1;
    }
    assert(views.subrange(0, views.len() as int) =~= views);
    copy
}

/// Copies all members.
fn copy_members(members: &Vec<(String, PayloadValue)>) -> (copy: Vec<(String, PayloadValue)>)
    ensures
        member_views(copy@) == member_views(members@),
{
    let mut copy: Vec<(String, PayloadValue)> = Vec::new();
    let mut index: usize = 0;
    while index < members.len()
        invariant
            index <= members@.len(),
            copy@.len() == index,
            forall|i: int|
                0 <= i < index ==> (#[trigger] copy@[i]).0@ == members@[i].0@ && copy@[i].1@
                    == members@[i].1@,
        decreases members@.len() - index,
    {
        let entry: &(String, PayloadValue) = &members[index];
        copy.push((entry.0.clone(), entry.1.clone()));
        index = index + 1;
    }
    assert(member_views(copy@) =~= member_views(members@));
    copy
}

impl Clone for Payload {
    fn clone(&self) -> (copy: Self)
        ensures
            copy@ == self@,
    {
        match self {
            Payload::Null => Payload::Null,
            Payload::Object(members) => Payload::Object(copy_members(members)),
            Payload::Other(notation) => Payload::Other(notation.clone()),
        }
    }
}

/// The text member under `name`.
pub open spec fn text_member(payload: PayloadView, name: Seq<char>) -> Option<Seq<char>> {
    match payload {
        PayloadView::Object(members) => match payload_member(members, name) {
            Some(ValueView::Text(text)) => Some(text),
            _ => None,
        },
        _ => None,
    }
}

/// The text member under `name`, if there is one.
pub fn text_member_of<'a>(payload: &'a Payload, name: &str) -> (found: Option<&'a str>)
    ensures
        match found {
            Some(text) => text_member(payload@, name@) == Some(text@),
            None => text_member(payload@, name@) is None,
        },
{
    let members = match payload {
        Payload::Object(members) => members,
        _ => {
            return None;
        },
    };
    let ghost views = member_views(members@);
    let mut index: usize = members.len();
    assert(views.subrange(0, views.len() as int) =~= views);
    while index > 0
        invariant
            index <= members@.len(),
            views == member_views(members@),
            payload@ == PayloadView::Object(views),
            payload_member(views, name@) == payload_member(views.subrange(0, index as int), name@),
        decreases index,
    {
        proof {
            let prefix = views.subrange(0, index as int);
            assert(prefix.drop_last() =~= views.subrange(0, index - 1));
            assert(prefix.last() == views[index - 1]);
        }
        index = index - 1;
        let entry: &(String, PayloadValue) = &members[index];
        if str_equal(entry.0.as_str(), name) {
            return match &entry.1 {
                PayloadValue::Text(found) => Some(found.as_str()),
                _ => None,
            };
        }
    }
    None
}

/// Whether the member under `name` is this text.
pub fn has_text_member(payload: &Payload, name: &str, text: &str) -> (found: bool)
    ensures
        found == (text_member(payload@, name@) == Some(text@)),
{
    match text_member_of(payload, name) {
        Some(found) => str_equal(found, text),
        None => false,
    }
}

/// The operation that the stamp of an event names, if it has one.
pub fn operation_id_of(payload: &Payload) -> (operation_id: Option<String>)
    ensures
        text::opt_text(operation_id) == text_member(payload@, AMBIENT_OUTBOX_OPERATION_FIELD@),
{
    match text_member_of(payload, AMBIENT_OUTBOX_OPERATION_FIELD) {
        Some(found) => Some(found.to_owned()),
        None => None,
    }
}

/// An event of the journal.
#[derive(Debug)]
pub struct AgentEvent {
    pub ts_ns: u64,
    pub kind: AgentEventKind,
    pub spawn_id: Option<String>,
    pub session_id: Option<String>,
    pub reason_code: Option<String>,
    pub operation_name: Option<GenAiOperationName>,
    pub agent_name: Option<String>,
    pub provider_name: Option<String>,
    pub conversation_id: Option<String>,
    pub response_model: Option<String>,
    pub tool_name: Option<String>,
    pub payload: Payload,
}

/// An event with its strings taken as text.
pub struct EventView {
    pub ts_ns: u64,
    pub kind: AgentEventKind,
    pub spawn_id: Option<Seq<char>>,
    pub session_id: Option<Seq<char>>,
    pub reason_code: Option<Seq<char>>,
    pub operation_name: Option<GenAiOperationName>,
    pub agent_name: Option<Seq<char>>,
    pub provider_name: Option<Seq<char>>,
    pub conversation_id: Option<Seq<char>>,
    pub response_model: Option<Seq<char>>,
    pub tool_name: Option<Seq<char>>,
    pub payload: PayloadView,
}

impl View for AgentEvent {
    type V = EventView;

    open spec fn view(&self) -> EventView {
        EventView {
            ts_ns: self.ts_ns,
            kind: self.kind,
            spawn_id: text::opt_text(self.spawn_id),
            session_id: text::opt_text(self.session_id),
            reason_code: text::opt_text(self.reason_code),
            operation_name: self.operation_name,
            agent_name: text::opt_text(self.agent_name),
            provider_name: text::opt_text(self.provider_name),
            conversation_id: text::opt_text(self.conversation_id),
            response_model: text::opt_text(self.response_model),
            tool_name: text::opt_text(self.tool_name),
            payload: self.payload@,
        }
    }
}

impl Clone for AgentEvent {
    fn clone(&self) -> (copy: Self)
        ensures
            copy@ == self@,
    {
        AgentEvent {
            ts_ns: self.ts_ns,
            kind: self.kind,
            spawn_id: self.spawn_id.clone(),
            session_id: self.session_id.clone(),
            reason_code: self.reason_code.clone(),
            operation_name: self.operation_name,
            agent_name: self.agent_name.clone(),
            provider_name: self.provider_name.clone(),
            conversation_id: self.conversation_id.clone(),
            response_model: self.response_model.clone(),
            tool_name: self.tool_name.clone(),
            payload: self.payload.clone(),
        }
    }
}

/// Copies events.
pub fn copy_events(events: &Vec<AgentEvent>) -> (copy: Vec<AgentEvent>)
    ensures
        event_views(copy@) == event_views(events@),
{
    let mut copy: Vec<AgentEvent> = Vec::new();
    let mut index: usize = 0;
    while index < events.len()
        invariant
            index <= events@.len(),
            copy@.len() == index,
            forall|i: int| 0 <= i < index ==> (#[trigger] copy@[i])@ == events@[i]@,
        decreases events@.len() - index,
    {
        copy.push(events[index].clone());
        index = index + 1;
    }
    assert(event_views(copy@) =~= event_views(events@));
    copy
}

/// The views of events.
pub open spec fn event_views(events: Seq<AgentEvent>) -> Seq<EventView> {
    Seq::new(events.len(), |i: int| events[i]@)
}

/// An event of which only the time, the kind and the agent are known.
pub open spec fn bare_event(
    ts_ns: u64,
    kind: AgentEventKind,
    spawn_id: Seq<char>,
    session_id: Seq<char>,
    reason_code: Seq<char>,
    vendor: Seq<char>,
) -> EventView {
    EventView {
        ts_ns,
        kind,
        spawn_id: Some(spawn_id),
        session_id: None,
        reason_code: Some(reason_code),
        operation_name: None,
        agent_name: Some(vendor),
        provider_name: None,
        conversation_id: Some(session_id),
        response_model: None,
        tool_name: None,
        payload: PayloadView::Null,
    }
}

/// An event of which only the time, the kind and the agent are known. A
/// discovered agent has no session of ours; its own is the conversation.
pub fn new_event(
    ts_ns: u64,
    kind: AgentEventKind,
    spawn_id: &str,
    session_id: &str,
    reason_code: &str,
    vendor: &str,
) -> (event: AgentEvent)
    ensures
        event@ == bare_event(ts_ns, kind, spawn_id@, session_id@, reason_code@, vendor@),
{
    AgentEvent {
        ts_ns,
        kind,
        spawn_id: Some(spawn_id.to_owned()),
        session_id: None,
        reason_code: Some(reason_code.to_owned()),
        operation_name: None,
        agent_name: Some(vendor.to_owned()),
        provider_name: None,
        conversation_id: Some(session_id.to_owned()),
        response_model: None,
        tool_name: None,
        payload: Payload::Null,
    }
}

/// The payload with the operation that it belongs to.
pub open spec fn stamped_payload(payload: PayloadView, operation_id: Seq<char>) -> PayloadView {
    match payload {
        PayloadView::Object(members) => PayloadView::Object(
            without_member(members, AMBIENT_OUTBOX_OPERATION_FIELD@).push(
                (AMBIENT_OUTBOX_OPERATION_FIELD@, ValueView::Text(operation_id)),
            ),
        ),
        other => other,
    }
}

/// The payload without the operation that it belongs to.
pub open spec fn clean_payload(payload: PayloadView) -> PayloadView {
    match payload {
        PayloadView::Object(members) => PayloadView::Object(
            without_member(members, AMBIENT_OUTBOX_OPERATION_FIELD@),
        ),
        other => other,
    }
}

/// The payload as an object; an absent one becomes an empty object.
pub open spec fn normal_payload(payload: PayloadView) -> PayloadView {
    match payload {
        PayloadView::Null => PayloadView::Object(Seq::<(Seq<char>, ValueView)>::empty()),
        other => other,
    }
}

/// The payload of a copied event without the operation that it belongs to.
fn copy_clean_payload(payload: &Payload) -> (copy: Payload)
    ensures
        copy@ == clean_payload(payload@),
{
    match payload {
        Payload::Null => Payload::Null,
        Payload::Object(members) => Payload::Object(
            copy_members_without(members, AMBIENT_OUTBOX_OPERATION_FIELD),
        ),
        Payload::Other(notation) => Payload::Other(notation.clone()),
    }
}

impl AgentEvent {
    /// A copy of the event without the operation that it belongs to.
    pub fn cleaned(&self) -> (copy: AgentEvent)
        ensures
            copy@ == (EventView { payload: clean_payload(self@.payload), ..self@ }),
    {
        AgentEvent {
            ts_ns: self.ts_ns,
            kind: self.kind,
            spawn_id: self.spawn_id.clone(),
            session_id: self.session_id.clone(),
            reason_code: self.reason_code.clone(),
            operation_name: self.operation_name,
            agent_name: self.agent_name.clone(),
            provider_name: self.provider_name.clone(),
            conversation_id: self.conversation_id.clone(),
            response_model: self.response_model.clone(),
            tool_name: self.tool_name.clone(),
            payload: copy_clean_payload(&self.payload),
        }
    }

    /// Stamps the event with the operation that it belongs to.
    pub fn stamp(&mut self, operation_id: &str)
        ensures
            final(self)@ == (EventView {
                payload: stamped_payload(old(self)@.payload, operation_id@),
                ..old(self)@
            }),
    {
        let stamped = match &self.payload {
            Payload::Object(members) => {
                let mut kept = copy_members_without(members, AMBIENT_OUTBOX_OPERATION_FIELD);
                let before: Ghost<Seq<(String, PayloadValue)>> = Ghost(kept@);
                let entry = (
                    AMBIENT_OUTBOX_OPERATION_FIELD.to_owned(),
                    PayloadValue::Text(operation_id.to_owned()),
                );
                kept.push(entry);
                assert(member_views(kept@) =~= member_views(before@).push((entry.0@, entry.1@)));
                Some(Payload::Object(kept))
            },
            _ => None,
        };
        if let Some(payload) = stamped {
            self.payload = payload;
        }
    }

    /// Gives the event a payload where it has none.
    pub fn normalize(&mut self)
        ensures
            final(self)@ == (EventView {
                payload: normal_payload(old(self)@.payload),
                ..old(self)@
            }),
    {
        let empty: bool = match &self.payload {
            Payload::Null => true,
            _ => false,
        };
        if empty {
            let members: Vec<(String, PayloadValue)> = Vec::new();
            assert(member_views(members@) =~= Seq::<(Seq<char>, ValueView)>::empty());
            self.payload = Payload::Object(members);
        }
    }
}

proof fn lemma_without_twice(members: Seq<(Seq<char>, ValueView)>, name: Seq<char>)
    ensures
        without_member(without_member(members, name), name) == without_member(members, name),
    decreases members.len(),
{
    if members.len() > 0 {
        lemma_without_twice(members.drop_last(), name);
        if members.last().0 != name {
            let rest = without_member(members.drop_last(), name);
            assert(rest.push(members.last()).drop_last() =~= rest);
        }
    }
}

/// A payload that was stamped is, without the stamp, what it was without any.
pub proof fn lemma_stamp_leaves_no_trace(payload: PayloadView, operation_id: Seq<char>)
    ensures
        clean_payload(stamped_payload(payload, operation_id)) == clean_payload(payload),
{
    if let PayloadView::Object(members) = payload {
        let field = AMBIENT_OUTBOX_OPERATION_FIELD@;
        let rest = without_member(members, field);
        let stamped = rest.push((field, ValueView::Text(operation_id)));
        assert(stamped.drop_last() =~= rest);
        lemma_without_twice(members, field);
    }
}

/// Taking the stamp off a payload gives back what was stamped, and the stamp
/// names its operation.
pub proof fn law_stamps_come_off(payload: PayloadView, operation_id: Seq<char>)
    requires
        payload is Object,
        text_member(payload, AMBIENT_OUTBOX_OPERATION_FIELD@) is None,
        clean_payload(payload) == payload,
    ensures
        clean_payload(stamped_payload(payload, operation_id)) == payload,
        text_member(stamped_payload(payload, operation_id), AMBIENT_OUTBOX_OPERATION_FIELD@)
            == Some(operation_id),
{
    let field = AMBIENT_OUTBOX_OPERATION_FIELD@;
    let members = payload->Object_0;
    let stamped = without_member(members, field).push((field, ValueView::Text(operation_id)));
    assert(stamped.drop_last() =~= without_member(members, field));
    assert(stamped.last().0 == field);
    assert(without_member(stamped, field) == without_member(stamped.drop_last(), field));
}

} // verus!
