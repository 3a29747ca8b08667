//! Relaying the events of an outbox into the journal, and keeping the projection
//! of an agent in step with the events that were acknowledged last. An outcome
//! that stays open latches the relay until the daemon starts anew.
use crate::ambient::journal;
use crate::ambient::journal::{
    AmbientCursorError, AmbientExactJournalRow, AmbientOutboxJournalState, JournalError,
    JournalView, projection_checkpoint_from_exact_rows, same_rows,
};
use crate::ambient::outbox;
use crate::ambient::outbox::{CheckpointEvidence, LifecycleView, OutboxError};
use crate::ambient::streaks::{MAX_CONSECUTIVE_PROJECTION_RECOVERIES, ProjectionRecoveryStreaks};
use crate::ambient::tracking::{
    AmbientCursor, AmbientProjectionCheckpoint, AmbientView, CheckpointView, OutboxView,
};
use vstd::prelude::*;
use vstd::string::*;

verus! {

pub const NS_PER_MS: u64 = 1_000_000;

/// Why the live projection does not show an event.
#[derive(Clone, Copy, Debug, PartialEq, Eq, Structural)]
pub enum ProjectionError {
    Missing,
    Stale { projected_last_event_unix_ms: u64 },
}

/// What the live projection says of the events of an outbox: it must know the
/// agent, and nothing older than the events.
pub open spec fn projection_reading(event_ts_ns: u64, last_event_unix_ms: Option<u64>) -> Result<
    (),
    ProjectionError,
> {
    match last_event_unix_ms {
        None => Err(ProjectionError::Missing),
        Some(projected_last_event_unix_ms) => if projected_last_event_unix_ms < event_ts_ns
            / 1_000_000 {
            Err(ProjectionError::Stale { projected_last_event_unix_ms })
        } else {
            Ok(())
        },
    }
}

/// Judges what the live projection says of an agent.
pub fn inspect_outbox_live_projection(event_ts_ns: u64, last_event_unix_ms: Option<u64>) -> (shown:
    Result<(), ProjectionError>)
    ensures
        shown == projection_reading(event_ts_ns, last_event_unix_ms),
{
    match last_event_unix_ms {
        None => Err(ProjectionError::Missing),
        Some(projected_last_event_unix_ms) => if projected_last_event_unix_ms < event_ts_ns
            / NS_PER_MS {
            Err(ProjectionError::Stale { projected_last_event_unix_ms })
        } else {
            Ok(())
        },
    }
}

/// How long rows of the journal are kept.
#[derive(Clone, Copy, Debug, PartialEq, Eq, Structural)]
pub enum RetentionTtl {
    Hours(u64),
    Days(u64),
    Unlimited,
    LruOnly,
}

/// Why it cannot be told how long rows of the journal are kept.
#[derive(Clone, Copy, Debug, PartialEq, Eq, Structural)]
pub enum RetentionError {
    ContractMissing,
    ContractInvalid,
    ContractOverflow,
}

/// The nanoseconds for which rows of the journal are kept.
pub open spec fn retention_spec(ttl: Option<RetentionTtl>) -> Result<u64, RetentionError> {
    match ttl {
        None => Err(RetentionError::ContractMissing),
        Some(RetentionTtl::Unlimited) => Err(RetentionError::ContractInvalid),
        Some(RetentionTtl::LruOnly) => Err(RetentionError::ContractInvalid),
        Some(RetentionTtl::Hours(hours)) => if hours * 3_600 * 1_000_000_000 > u64::MAX {
            Err(RetentionError::ContractOverflow)
        } else {
            Ok((hours * 3_600 * 1_000_000_000) as u64)
        },
        Some(RetentionTtl::Days(days)) => if days * 24 * 3_600 * 1_000_000_000 > u64::MAX {
            Err(RetentionError::ContractOverflow)
        } else {
            Ok((days * 24 * 3_600 * 1_000_000_000) as u64)
        },
    }
}

/// The nanoseconds for which rows of the journal are kept. Without a finite
/// time, the absence of a row could never be judged.
pub fn agent_event_retention_ns(ttl: Option<RetentionTtl>) -> (retention: Result<u64, RetentionError>)
    ensures
        retention == retention_spec(ttl),
{
    let hours: u64 = match ttl {
        None => {
            return Err(RetentionError::ContractMissing);
        },
        Some(RetentionTtl::Unlimited) => {
            return Err(RetentionError::ContractInvalid);
        },
        Some(RetentionTtl::LruOnly) => {
            return Err(RetentionError::ContractInvalid);
        },
        Some(RetentionTtl::Hours(hours)) => hours,
        Some(RetentionTtl::Days(days)) => match days.checked_mul(24) {
            Some(hours) => hours,
            None => {
                return Err(RetentionError::ContractOverflow);
            },
        },
    };
    match hours.checked_mul(3_600) {
        None => Err(RetentionError::ContractOverflow),
        Some(seconds) => match seconds.checked_mul(1_000_000_000) {
            None => Err(RetentionError::ContractOverflow),
            Some(nanoseconds) => Ok(nanoseconds),
        },
    }
}

/// The age of an event, zero for one from the future.
pub open spec fn age_ns(event_ts_ns: u64, now_ns: u64) -> int {
    if now_ns > event_ts_ns {
        now_ns - event_ts_ns
    } else {
        0
    }
}

fn age_of(event_ts_ns: u64, now_ns: u64) -> (age: u64)
    ensures
        age == age_ns(event_ts_ns, now_ns),
{
    if now_ns > event_ts_ns {
        now_ns - event_ts_ns
    } else {
        0
    }
}

/// Why a relay or a recovery fails.
#[derive(Clone, Copy, Debug, PartialEq, Eq, Structural)]
pub enum RelayError {
    ReconciliationRequired,
    Cursor(AmbientCursorError),
    CursorMissing,
    PendingOutbox,
    Journal(JournalError),
    Retention(RetentionError),
    JournalAbsenceAmbiguous,
    EventCommitFailed,
    ReadbackMissing,
    ReadbackFailed(JournalError),
    Projection(ProjectionError),
    RecoveryFailed,
    RecoveryReadbackFailed(ProjectionError),
    FinalRowsChanged,
    FinalRowsMissing,
    FinalReadFailed(JournalError),
    CheckpointBuildFailed(OutboxError),
    AcknowledgementFailed(AmbientCursorError),
    CheckpointRowsMissing,
    RetireFailed(AmbientCursorError),
    NotConverging { consecutive_recoveries: u32 },
}

/// Whether the absence of an operation can only mean that it was never written:
/// its rows would still be kept.
pub open spec fn absence_refusal(
    event_ts_ns: u64,
    now_ns: u64,
    ttl: Option<RetentionTtl>,
) -> Option<RelayError> {
    match retention_spec(ttl) {
        Err(error) => Some(RelayError::Retention(error)),
        Ok(retention) => if age_ns(event_ts_ns, now_ns) >= retention {
            Some(RelayError::JournalAbsenceAmbiguous)
        } else {
            None
        },
    }
}

/// Accepts the absence of an operation from the journal only where its rows
/// would still be kept.
pub fn ensure_absent_outbox_is_within_journal_retention(
    event_ts_ns: u64,
    now_ns: u64,
    ttl: Option<RetentionTtl>,
) -> (checked: Result<(), RelayError>)
    ensures
        checked == (match absence_refusal(event_ts_ns, now_ns, ttl) {
            Some(error) => Err::<(), RelayError>(error),
            None => Ok(()),
        }),
{
    match agent_event_retention_ns(ttl) {
        Err(error) => Err(RelayError::Retention(error)),
        Ok(retention) => if age_of(event_ts_ns, now_ns) >= retention {
            Err(RelayError::JournalAbsenceAmbiguous)
        } else {
            Ok(())
        },
    }
}

/// Where a relay stands.
#[derive(Clone, Copy, Debug, PartialEq, Eq, Structural)]
pub enum RelayPhase {
    /// The journal is read for the first time.
    Inspect,
    /// The events are written.
    Write,
    /// The journal is read after the events were written.
    Reinspect,
    /// The live projection is read.
    Project,
    /// The projection is recovered from the journal.
    Recover,
    /// The live projection is read after it was recovered.
    Reproject,
    /// The journal is read for the last time.
    Confirm,
    /// The checkpoint is made.
    Build,
    /// The cursor is stored.
    Store,
    Over,
}

/// What a relay does next.
#[derive(Clone, Copy, Debug, PartialEq, Eq, Structural)]
pub enum RelayAction {
    InspectJournal,
    WriteEvents,
    ReadProjection,
    RecoverProjection,
    BuildCheckpoint,
    StoreCursor,
    Done { newly_registered: bool },
    /// The relay fails. Where it latches, no relay runs until the daemon starts
    /// anew.
    Fail { error: RelayError, latch: bool },
}

/// What a relay does after a read of the journal: where it stands then, whether
/// it keeps the rows that it read, and its action.
pub open spec fn after_journal(
    phase: RelayPhase,
    rows: Seq<(Seq<u8>, Seq<u8>)>,
    state: Result<JournalView, JournalError>,
    absence: Option<RelayError>,
) -> (RelayPhase, bool, RelayAction) {
    match phase {
        RelayPhase::Inspect => match state {
            Err(error) => (
                RelayPhase::Over,
                false,
                RelayAction::Fail { error: RelayError::Journal(error), latch: false },
            ),
            Ok(JournalView::Absent) => match absence {
                Some(error) => (
                    RelayPhase::Over,
                    false,
                    RelayAction::Fail { error, latch: true },
                ),
                None => (RelayPhase::Write, false, RelayAction::WriteEvents),
            },
            Ok(JournalView::Exact(_)) => (RelayPhase::Project, true, RelayAction::ReadProjection),
        },
        RelayPhase::Reinspect => match state {
            Err(error) => (
                RelayPhase::Over,
                false,
                RelayAction::Fail { error: RelayError::ReadbackFailed(error), latch: true },
            ),
            Ok(JournalView::Absent) => (
                RelayPhase::Over,
                false,
                RelayAction::Fail { error: RelayError::ReadbackMissing, latch: true },
            ),
            Ok(JournalView::Exact(_)) => (RelayPhase::Project, true, RelayAction::ReadProjection),
        },
        _ => match state {
            Err(error) => (
                RelayPhase::Over,
                false,
                RelayAction::Fail { error: RelayError::FinalReadFailed(error), latch: true },
            ),
            Ok(JournalView::Absent) => (
                RelayPhase::Over,
                false,
                RelayAction::Fail { error: RelayError::FinalRowsMissing, latch: true },
            ),
            Ok(JournalView::Exact(found)) => if found == rows {
                (RelayPhase::Build, false, RelayAction::BuildCheckpoint)
            } else {
                (
                    RelayPhase::Over,
                    false,
                    RelayAction::Fail { error: RelayError::FinalRowsChanged, latch: true },
                )
            },
        },
    }
}

/// What a relay does after a read of the live projection. Only events that stood
/// in the journal before may be replayed.
pub open spec fn after_projection(
    phase: RelayPhase,
    recovered_existing_journal: bool,
    shown: Result<(), ProjectionError>,
) -> (RelayPhase, RelayAction) {
    match shown {
        Ok(_) => (RelayPhase::Confirm, RelayAction::InspectJournal),
        Err(error) => if phase == RelayPhase::Reproject {
            (
                RelayPhase::Over,
                RelayAction::Fail {
                    error: RelayError::RecoveryReadbackFailed(error),
                    latch: true,
                },
            )
        } else if recovered_existing_journal {
            (RelayPhase::Recover, RelayAction::RecoverProjection)
        } else {
            (
                RelayPhase::Over,
                RelayAction::Fail { error: RelayError::Projection(error), latch: true },
            )
        },
    }
}

/// The cursor after its outbox was acknowledged.
pub open spec fn acknowledged(
    cursor: AmbientView,
    outbox: OutboxView,
    checkpoint: CheckpointView,
    now_ns: u64,
) -> AmbientView {
    AmbientView {
        registered: cursor.registered || outbox.acknowledge_registration,
        last_emitted_state: if outbox.acknowledge_state is Some {
            outbox.acknowledge_state
        } else {
            cursor.last_emitted_state
        },
        projection_checkpoint: Some(checkpoint),
        pending_event_outbox: None,
        updated_ts_ns: now_ns,
        ..cursor
    }
}

/// A relay of the events of one outbox.
#[derive(Debug)]
pub struct OutboxRelay {
    pub cursor: AmbientCursor,
    pub phase: RelayPhase,
    /// The rows of the journal in which the events stand.
    pub rows: Vec<AmbientExactJournalRow>,
    /// Whether the events stood in the journal before.
    pub recovered_existing_journal: bool,
    pub projection_recovered: bool,
    pub newly_registered: bool,
}

/// How a relay begins.
#[derive(Debug)]
pub enum RelayStart {
    Fail(RelayError),
    /// The cursor owes the journal nothing.
    Nothing(AmbientCursor),
    /// The journal is read next.
    Relay(OutboxRelay),
}

/// Begins the relay of what a cursor owes the journal. While the relay is
/// latched, nothing begins.
pub fn relay_pending_event_outbox(
    latched: bool,
    loaded: Result<Option<AmbientCursor>, AmbientCursorError>,
) -> (start: RelayStart)
    ensures
        if latched {
            start == RelayStart::Fail(RelayError::ReconciliationRequired)
        } else {
            match loaded {
                Err(error) => start == RelayStart::Fail(RelayError::Cursor(error)),
                Ok(None) => start == RelayStart::Fail(RelayError::CursorMissing),
                Ok(Some(cursor)) => if cursor@.pending_event_outbox is None {
                    start == RelayStart::Nothing(cursor)
                } else {
                    start matches RelayStart::Relay(relay) && relay.cursor == cursor && relay.phase
                        == RelayPhase::Inspect && relay.rows@.len() == 0
                        && !relay.recovered_existing_journal && !relay.projection_recovered
                        && !relay.newly_registered
                },
            }
        },
{
    if latched {
        return RelayStart::Fail(RelayError::ReconciliationRequired);
    }
    let cursor = match loaded {
        Err(error) => {
            return RelayStart::Fail(RelayError::Cursor(error));
        },
        Ok(None) => {
            return RelayStart::Fail(RelayError::CursorMissing);
        },
        Ok(Some(cursor)) => cursor,
    };
    if cursor.pending_event_outbox.is_none() {
        return RelayStart::Nothing(cursor);
    }
    RelayStart::Relay(
        OutboxRelay {
            cursor,
            phase: RelayPhase::Inspect,
            rows: Vec::new(),
            recovered_existing_journal: false,
            projection_recovered: false,
            newly_registered: false,
        },
    )
}

impl OutboxRelay {
    /// Goes on from a read of the journal. `absence` says why its absence from
    /// the journal could not be trusted.
    pub fn on_journal(
        &mut self,
        state: Result<AmbientOutboxJournalState, JournalError>,
        absence: Option<RelayError>,
    ) -> (action: RelayAction)
        requires
            old(self).phase == RelayPhase::Inspect || old(self).phase == RelayPhase::Reinspect
                || old(self).phase == RelayPhase::Confirm,
        ensures
            ({
                let (phase, keeps, next) = after_journal(
                    old(self).phase,
                    journal::exact_views(old(self).rows@),
                    journal::state_view(state),
                    absence,
                );
                &&& final(self).phase == phase
                &&& action == next
                &&& final(self).cursor == old(self).cursor
                &&& final(self).projection_recovered == old(self).projection_recovered
                &&& final(self).newly_registered == old(self).newly_registered
                &&& final(self).recovered_existing_journal == (
                old(self).recovered_existing_journal || (keeps && old(self).phase
                    == RelayPhase::Inspect))
                &&& if keeps {
                    state matches Ok(AmbientOutboxJournalState::Exact(found)) && final(self).rows
                        == found
                } else {
                    final(self).rows == old(self).rows
                }
            }),
    {
        let phase = self.phase;
        match state {
            Err(error) => {
                self.phase = RelayPhase::Over;
                match phase {
                    RelayPhase::Inspect => RelayAction::Fail {
                        error: RelayError::Journal(error),
                        latch: false,
                    },
                    RelayPhase::Reinspect => RelayAction::Fail {
                        error: RelayError::ReadbackFailed(error),
                        latch: true,
                    },
                    _ => RelayAction::Fail {
                        error: RelayError::FinalReadFailed(error),
                        latch: true,
                    },
                }
            },
            Ok(AmbientOutboxJournalState::Absent) => match phase {
                RelayPhase::Inspect => match absence {
                    Some(error) => {
                        self.phase = RelayPhase::Over;
                        RelayAction::Fail { error, latch: true }
                    },
                    None => {
                        self.phase = RelayPhase::Write;
                        RelayAction::WriteEvents
                    },
                },
                RelayPhase::Reinspect => {
                    self.phase = RelayPhase::Over;
                    RelayAction::Fail { error: RelayError::ReadbackMissing, latch: true }
                },
                _ => {
                    self.phase = RelayPhase::Over;
                    RelayAction::Fail { error: RelayError::FinalRowsMissing, latch: true }
                },
            },
            Ok(AmbientOutboxJournalState::Exact(found)) => match phase {
                RelayPhase::Inspect => {
                    self.recovered_existing_journal = true;
                    self.rows = found;
                    self.phase = RelayPhase::Project;
                    RelayAction::ReadProjection
                },
                RelayPhase::Reinspect => {
                    self.rows = found;
                    self.phase = RelayPhase::Project;
                    RelayAction::ReadProjection
                },
                _ => {
                    if same_rows(&found, &self.rows) {
                        self.phase = RelayPhase::Build;
                        RelayAction::BuildCheckpoint
                    } else {
                        self.phase = RelayPhase::Over;
                        RelayAction::Fail { error: RelayError::FinalRowsChanged, latch: true }
                    }
                },
            },
        }
    }

    /// Goes on from the write of the events.
    pub fn on_written(&mut self, written: bool) -> (action: RelayAction)
        requires
            old(self).phase == RelayPhase::Write,
        ensures
            *final(self) == (OutboxRelay { phase: final(self).phase, ..*old(self) }),
            if written {
                final(self).phase == RelayPhase::Reinspect && action == RelayAction::InspectJournal
            } else {
                final(self).phase == RelayPhase::Over && action == (RelayAction::Fail {
                    error: RelayError::EventCommitFailed,
                    latch: true,
                })
            },
    {
        if written {
            self.phase = RelayPhase::Reinspect;
            RelayAction::InspectJournal
        } else {
            self.phase = RelayPhase::Over;
            RelayAction::Fail { error: RelayError::EventCommitFailed, latch: true }
        }
    }

    /// Goes on from a read of the live projection.
    pub fn on_projection(&mut self, shown: Result<(), ProjectionError>) -> (action: RelayAction)
        requires
            old(self).phase == RelayPhase::Project || old(self).phase == RelayPhase::Reproject,
        ensures
            *final(self) == (OutboxRelay { phase: final(self).phase, ..*old(self) }),
            (final(self).phase, action) == after_projection(
                old(self).phase,
                old(self).recovered_existing_journal,
                shown,
            ),
    {
        let phase = self.phase;
        match shown {
            Ok(()) => {
                self.phase = RelayPhase::Confirm;
                RelayAction::InspectJournal
            },
            Err(error) => {
                if phase == RelayPhase::Reproject {
                    self.phase = RelayPhase::Over;
                    RelayAction::Fail {
                        error: RelayError::RecoveryReadbackFailed(error),
                        latch: true,
                    }
                } else if self.recovered_existing_journal {
                    self.phase = RelayPhase::Recover;
                    RelayAction::RecoverProjection
                } else {
                    self.phase = RelayPhase::Over;
                    RelayAction::Fail { error: RelayError::Projection(error), latch: true }
                }
            },
        }
    }

    /// Goes on from a recovery of the projection.
    pub fn on_recovered(&mut self, rows_applied: Option<usize>) -> (action: RelayAction)
        requires
            old(self).phase == RelayPhase::Recover,
        ensures
            *final(self) == (OutboxRelay {
                phase: final(self).phase,
                projection_recovered: final(self).projection_recovered,
                ..*old(self)
            }),
            match rows_applied {
                None => final(self).phase == RelayPhase::Over && action == (RelayAction::Fail {
                    error: RelayError::RecoveryFailed,
                    latch: true,
                }) && final(self).projection_recovered == old(self).projection_recovered,
                Some(rows) => final(self).phase == RelayPhase::Reproject && action
                    == RelayAction::ReadProjection && final(self).projection_recovered == (rows
                    > 0),
            },
    {
        match rows_applied {
            None => {
                self.phase = RelayPhase::Over;
                RelayAction::Fail { error: RelayError::RecoveryFailed, latch: true }
            },
            Some(rows) => {
                self.projection_recovered = rows > 0;
                self.phase = RelayPhase::Reproject;
                RelayAction::ReadProjection
            },
        }
    }

    /// Acknowledges the outbox in the cursor, with a checkpoint of where its
    /// events stand.
    pub fn acknowledge(&mut self, evidence: &CheckpointEvidence, now_ns: u64) -> (action: RelayAction)
        requires
            old(self).phase == RelayPhase::Build,
            old(self).cursor@.pending_event_outbox is Some,
        ensures
            ({
                let outbox = old(self).cursor@.pending_event_outbox->Some_0;
                let checkpoint = journal::checkpoint_of(outbox, journal::exact_views(old(self).rows@));
                &&& final(self).rows == old(self).rows
                &&& final(self).recovered_existing_journal == old(self).recovered_existing_journal
                &&& final(self).projection_recovered == old(self).projection_recovered
                &&& match outbox::checkpoint_refusal(
                    old(self).cursor@.spawn_id,
                    old(self).cursor@.session_id,
                    checkpoint,
                    *evidence,
                ) {
                    Some(error) => {
                        &&& final(self).phase == RelayPhase::Over
                        &&& action == (RelayAction::Fail {
                            error: RelayError::CheckpointBuildFailed(error),
                            latch: true,
                        })
                        &&& final(self).cursor == old(self).cursor
                        &&& final(self).newly_registered == old(self).newly_registered
                    },
                    None => {
                        &&& final(self).phase == RelayPhase::Store
                        &&& action == RelayAction::StoreCursor
                        &&& final(self).cursor@ == acknowledged(
                            old(self).cursor@,
                            outbox,
                            checkpoint,
                            now_ns,
                        )
                        &&& final(self).newly_registered == (outbox.acknowledge_registration
                            && !old(self).cursor@.registered)
                    },
                }
            }),
    {
        let mut made: Result<AmbientProjectionCheckpoint, OutboxError> = Err(
            OutboxError::CheckpointEnvelopeInvalid,
        );
        let mut acknowledge_registration: bool = false;
        let mut acknowledge_state: Option<String> = None;
        if let Some(outbox) = &self.cursor.pending_event_outbox {
            acknowledge_registration = outbox.acknowledge_registration;
            acknowledge_state = outbox.acknowledge_state.clone();
            made = projection_checkpoint_from_exact_rows(
                &self.cursor,
                outbox,
                &self.rows,
                evidence,
            );
        }
        let checkpoint = match made {
            Ok(checkpoint) => checkpoint,
            Err(error) => {
                self.phase = RelayPhase::Over;
                return RelayAction::Fail {
                    error: RelayError::CheckpointBuildFailed(error),
                    latch: true,
                };
            },
        };
        self.newly_registered = acknowledge_registration && !self.cursor.registered;
        if acknowledge_registration {
            self.cursor.registered = true;
        }
        if acknowledge_state.is_some() {
            self.cursor.last_emitted_state = acknowledge_state;
        }
        self.cursor.projection_checkpoint = Some(checkpoint);
        self.cursor.pending_event_outbox = None;
        self.cursor.updated_ts_ns = now_ns;
        self.phase = RelayPhase::Store;
        RelayAction::StoreCursor
    }

    /// Goes on from the store of the cursor.
    pub fn on_stored(&mut self, stored: Result<(), AmbientCursorError>) -> (action: RelayAction)
        requires
            old(self).phase == RelayPhase::Store,
        ensures
            *final(self) == (OutboxRelay { phase: RelayPhase::Over, ..*old(self) }),
            action == (match stored {
                Ok(_) => RelayAction::Done { newly_registered: old(self).newly_registered },
                Err(error) => RelayAction::Fail {
                    error: RelayError::AcknowledgementFailed(error),
                    latch: true,
                },
            }),
    {
        self.phase = RelayPhase::Over;
        match stored {
            Ok(()) => RelayAction::Done { newly_registered: self.newly_registered },
            Err(error) => RelayAction::Fail {
                error: RelayError::AcknowledgementFailed(error),
                latch: true,
            },
        }
    }
}

/// A checkpoint is made only after the journal was read twice with the same
/// exact rows: the first read kept them, the last confirmed them.
pub proof fn law_acknowledged_events_are_confirmed(
    phase: RelayPhase,
    rows: Seq<(Seq<u8>, Seq<u8>)>,
    state: Result<JournalView, JournalError>,
    absence: Option<RelayError>,
)
    requires
        after_journal(phase, rows, state, absence).2 == RelayAction::BuildCheckpoint,
    ensures
        phase != RelayPhase::Inspect,
        phase != RelayPhase::Reinspect,
        state == Ok::<JournalView, JournalError>(JournalView::Exact(rows)),
{
}

/// The events are written at most where the journal holds none of them and their
/// absence can be trusted.
pub proof fn law_events_are_written_only_when_absent(
    phase: RelayPhase,
    rows: Seq<(Seq<u8>, Seq<u8>)>,
    state: Result<JournalView, JournalError>,
    absence: Option<RelayError>,
)
    requires
        after_journal(phase, rows, state, absence).2 == RelayAction::WriteEvents,
    ensures
        phase == RelayPhase::Inspect,
        state == Ok::<JournalView, JournalError>(JournalView::Absent),
        absence is None,
{
}

/// Once events may have been written, every failure latches the relay.
pub proof fn law_open_outcomes_latch(
    phase: RelayPhase,
    rows: Seq<(Seq<u8>, Seq<u8>)>,
    state: Result<JournalView, JournalError>,
    absence: Option<RelayError>,
    recovered_existing_journal: bool,
    shown: Result<(), ProjectionError>,
)
    ensures
        phase != RelayPhase::Inspect ==> (after_journal(phase, rows, state, absence).2 matches
            RelayAction::Fail { latch, .. } ==> latch),
        after_projection(phase, recovered_existing_journal, shown).1 matches RelayAction::Fail {
            latch,
            ..
        } ==> latch,
{
}

/// Acknowledging an outbox that the cursor accepts takes away what it owed, and
/// leaves a cursor that owes nothing for the same state.
pub proof fn law_acknowledging_settles_the_outbox(
    cursor: AmbientView,
    outbox: OutboxView,
    checkpoint: CheckpointView,
    now_ns: u64,
)
    requires
        outbox::effect_fits(cursor, outbox),
    ensures
        ({
            let after = acknowledged(cursor, outbox, checkpoint, now_ns);
            &&& after.registered
            &&& after.pending_event_outbox is None
            &&& after.offset_bytes == cursor.offset_bytes
            &&& after.lines_ingested == cursor.lines_ingested
            &&& !outbox::effect_fits(after, outbox)
        }),
{
}

/// A signal that was told is not told again: once the outbox that a cursor drafted
/// for it is acknowledged, the same signal owes nothing, nor does the registration.
pub proof fn law_told_signals_are_not_told_again(
    cursor: AmbientView,
    lifecycle: Option<LifecycleView>,
    outbox: OutboxView,
    checkpoint: CheckpointView,
    now_ns: u64,
)
    requires
        outbox.acknowledge_registration == !cursor.registered,
        outbox.acknowledge_state == outbox::changed_state(cursor, lifecycle),
    ensures
        ({
            let after = acknowledged(cursor, outbox, checkpoint, now_ns);
            after.registered && outbox::changed_state(after, lifecycle) is None
        }),
{
}

/// Where the recovery of a projection stands.
#[derive(Clone, Copy, Debug, PartialEq, Eq, Structural)]
pub enum ProjectionPhase {
    /// The journal and the projection are read.
    Inspect,
    /// The projection is recovered.
    Recover,
    /// The projection is read again.
    Reproject,
    /// The journal is read again.
    Confirm,
    /// The cursor is stored without its checkpoint.
    Retire,
    Over,
}

/// What the recovery of a projection does next.
#[derive(Clone, Copy, Debug, PartialEq, Eq, Structural)]
pub enum ProjectionAction {
    RecoverProjection,
    ReadProjection,
    InspectJournal,
    StoreCursor,
    Done,
    Fail { error: RelayError, latch: bool },
}

/// The recovery of the projection of one agent.
#[derive(Debug)]
pub struct ProjectionRecovery {
    pub cursor: AmbientCursor,
    pub phase: ProjectionPhase,
    pub rows: Vec<AmbientExactJournalRow>,
    /// Whether the agent died so long ago that the projection need not know it.
    pub beyond_dead_retention: bool,
}

/// How the recovery of a projection begins.
#[derive(Debug)]
pub enum ProjectionStart {
    Fail(RelayError),
    /// The cursor has no checkpoint.
    Nothing(AmbientCursor),
    /// The journal and the projection are read next.
    Recovery(ProjectionRecovery),
}

/// Begins to hold the projection against the checkpoint of a cursor. While the
/// relay is latched, or the cursor owes newer events, nothing begins.
pub fn reconcile_projection_checkpoint(
    latched: bool,
    loaded: Result<Option<AmbientCursor>, AmbientCursorError>,
) -> (start: ProjectionStart)
    ensures
        if latched {
            start == ProjectionStart::Fail(RelayError::ReconciliationRequired)
        } else {
            match loaded {
                Err(error) => start == ProjectionStart::Fail(RelayError::Cursor(error)),
                Ok(None) => start == ProjectionStart::Fail(RelayError::CursorMissing),
                Ok(Some(cursor)) => if cursor@.pending_event_outbox is Some {
                    start == ProjectionStart::Fail(RelayError::PendingOutbox)
                } else if cursor@.projection_checkpoint is None {
                    start == ProjectionStart::Nothing(cursor)
                } else {
                    start matches ProjectionStart::Recovery(recovery) && recovery.cursor == cursor
                        && recovery.phase == ProjectionPhase::Inspect && recovery.rows@.len() == 0
                        && !recovery.beyond_dead_retention
                },
            }
        },
{
    if latched {
        return ProjectionStart::Fail(RelayError::ReconciliationRequired);
    }
    let cursor = match loaded {
        Err(error) => {
            return ProjectionStart::Fail(RelayError::Cursor(error));
        },
        Ok(None) => {
            return ProjectionStart::Fail(RelayError::CursorMissing);
        },
        Ok(Some(cursor)) => cursor,
    };
    if cursor.pending_event_outbox.is_some() {
        return ProjectionStart::Fail(RelayError::PendingOutbox);
    }
    if cursor.projection_checkpoint.is_none() {
        return ProjectionStart::Nothing(cursor);
    }
    ProjectionStart::Recovery(
        ProjectionRecovery {
            cursor,
            phase: ProjectionPhase::Inspect,
            rows: Vec::new(),
            beyond_dead_retention: false,
        },
    )
}

/// The cursor without its checkpoint.
pub open spec fn retired(cursor: AmbientView, now_ns: u64) -> AmbientView {
    AmbientView { projection_checkpoint: None, updated_ts_ns: now_ns, ..cursor }
}

impl ProjectionRecovery {
    /// Goes on from the first reads. Rows that are gone must have outlived their
    /// time; rows that stand make the projection the one to judge.
    pub fn on_inspected(
        &mut self,
        shown: Result<(), ProjectionError>,
        state: Result<AmbientOutboxJournalState, JournalError>,
        ttl: Option<RetentionTtl>,
        now_ns: u64,
        streaks: &mut ProjectionRecoveryStreaks,
    ) -> (action: ProjectionAction)
        requires
            old(self).phase == ProjectionPhase::Inspect,
            old(self).cursor@.projection_checkpoint is Some,
            old(streaks).wf(),
        ensures
            final(streaks).wf(),
            final(self).beyond_dead_retention == old(self).beyond_dead_retention,
            ({
                let spawn_id = old(self).cursor@.spawn_id;
                let event_ts_ns =
                    old(self).cursor@.projection_checkpoint->Some_0.outbox.event_ts_ns;
                match state {
                    Err(error) => {
                        &&& action == (ProjectionAction::Fail {
                            error: RelayError::Journal(error),
                            latch: true,
                        })
                        &&& final(self).cursor == old(self).cursor
                        &&& final(self).phase == ProjectionPhase::Over
                        &&& *final(streaks) == *old(streaks)
                    },
                    Ok(AmbientOutboxJournalState::Absent) => {
                        &&& *final(streaks) == *old(streaks)
                        &&& match retention_spec(ttl) {
                            Err(error) => {
                                &&& action == (ProjectionAction::Fail {
                                    error: RelayError::Retention(error),
                                    latch: true,
                                })
                                &&& final(self).cursor == old(self).cursor
                                &&& final(self).phase == ProjectionPhase::Over
                            },
                            Ok(retention) => if age_ns(event_ts_ns, now_ns) < retention {
                                &&& action == (ProjectionAction::Fail {
                                    error: RelayError::CheckpointRowsMissing,
                                    latch: true,
                                })
                                &&& final(self).cursor == old(self).cursor
                                &&& final(self).phase == ProjectionPhase::Over
                            } else {
                                &&& action == ProjectionAction::StoreCursor
                                &&& final(self).cursor@ == retired(old(self).cursor@, now_ns)
                                &&& final(self).phase == ProjectionPhase::Retire
                            },
                        }
                    },
                    Ok(AmbientOutboxJournalState::Exact(found)) => {
                        &&& final(self).cursor == old(self).cursor
                        &&& final(self).rows == found
                        &&& match shown {
                            Ok(_) => {
                                &&& action == ProjectionAction::Done
                                &&& final(self).phase == ProjectionPhase::Over
                                &&& final(streaks).streak(spawn_id) == 0
                                &&& forall|other: Seq<char>|
                                    other != spawn_id ==> #[trigger] final(streaks).streak(other)
                                        == old(streaks).streak(other)
                            },
                            Err(_) => {
                                &&& action == ProjectionAction::RecoverProjection
                                &&& final(self).phase == ProjectionPhase::Recover
                                &&& *final(streaks) == *old(streaks)
                            },
                        }
                    },
                }
            }),
    {
        let event_ts_ns: u64 = match &self.cursor.projection_checkpoint {
            Some(checkpoint) => checkpoint.outbox.event_ts_ns,
            None => 0,
        };
        match state {
            Err(error) => {
                self.phase = ProjectionPhase::Over;
                ProjectionAction::Fail { error: RelayError::Journal(error), latch: true }
            },
            Ok(AmbientOutboxJournalState::Absent) => match agent_event_retention_ns(ttl) {
                Err(error) => {
                    self.phase = ProjectionPhase::Over;
                    ProjectionAction::Fail { error: RelayError::Retention(error), latch: true }
                },
                Ok(retention) => {
                    if age_of(event_ts_ns, now_ns) < retention {
                        self.phase = ProjectionPhase::Over;
                        ProjectionAction::Fail {
                            error: RelayError::CheckpointRowsMissing,
                            latch: true,
                        }
                    } else {
                        self.cursor.projection_checkpoint = None;
                        self.cursor.updated_ts_ns = now_ns;
                        self.phase = ProjectionPhase::Retire;
                        ProjectionAction::StoreCursor
                    }
                },
            },
            Ok(AmbientOutboxJournalState::Exact(found)) => {
                self.rows = found;
                match shown {
                    Ok(()) => {
                        streaks.clear_projection_recovery_streak(self.cursor.spawn_id.as_str());
                        self.phase = ProjectionPhase::Over;
                        ProjectionAction::Done
                    },
                    Err(_) => {
                        self.phase = ProjectionPhase::Recover;
                        ProjectionAction::RecoverProjection
                    },
                }
            },
        }
    }

    /// Goes on from the recovery of the projection. It says whether the agent
    /// died so long ago that the projection need not know it.
    pub fn on_recovered(&mut self, beyond_dead_retention: Option<bool>) -> (action: ProjectionAction)
        requires
            old(self).phase == ProjectionPhase::Recover,
        ensures
            final(self).cursor == old(self).cursor,
            final(self).rows == old(self).rows,
            match beyond_dead_retention {
                None => action == (ProjectionAction::Fail {
                    error: RelayError::RecoveryFailed,
                    latch: true,
                }) && final(self).phase == ProjectionPhase::Over
                    && final(self).beyond_dead_retention == old(self).beyond_dead_retention,
                Some(beyond) => action == ProjectionAction::ReadProjection && final(self).phase
                    == ProjectionPhase::Reproject && final(self).beyond_dead_retention == beyond,
            },
    {
        match beyond_dead_retention {
            None => {
                self.phase = ProjectionPhase::Over;
                ProjectionAction::Fail { error: RelayError::RecoveryFailed, latch: true }
            },
            Some(beyond) => {
                self.beyond_dead_retention = beyond;
                self.phase = ProjectionPhase::Reproject;
                ProjectionAction::ReadProjection
            },
        }
    }

    /// Goes on from the second read of the projection.
    pub fn on_projection(&mut self, shown: Result<(), ProjectionError>) -> (action: ProjectionAction)
        requires
            old(self).phase == ProjectionPhase::Reproject,
        ensures
            *final(self) == (ProjectionRecovery { phase: final(self).phase, ..*old(self) }),
            match shown {
                Ok(_) => action == ProjectionAction::InspectJournal && final(self).phase
                    == ProjectionPhase::Confirm,
                Err(error) => action == (ProjectionAction::Fail {
                    error: RelayError::RecoveryReadbackFailed(error),
                    latch: true,
                }) && final(self).phase == ProjectionPhase::Over,
            },
    {
        match shown {
            Ok(()) => {
                self.phase = ProjectionPhase::Confirm;
                ProjectionAction::InspectJournal
            },
            Err(error) => {
                self.phase = ProjectionPhase::Over;
                ProjectionAction::Fail {
                    error: RelayError::RecoveryReadbackFailed(error),
                    latch: true,
                }
            },
        }
    }

    /// Goes on from the second read of the journal. The checkpoint of an agent
    /// that the projection need not know is retired; any other recovery counts
    /// towards the limit.
    pub fn on_confirmed(
        &mut self,
        state: Result<AmbientOutboxJournalState, JournalError>,
        now_ns: u64,
        streaks: &mut ProjectionRecoveryStreaks,
    ) -> (action: ProjectionAction)
        requires
            old(self).phase == ProjectionPhase::Confirm,
            old(streaks).wf(),
        ensures
            final(streaks).wf(),
            final(self).beyond_dead_retention == old(self).beyond_dead_retention,
            ({
                let spawn_id = old(self).cursor@.spawn_id;
                let confirmed = journal::state_view(state) == Ok::<JournalView, JournalError>(
                    JournalView::Exact(journal::exact_views(old(self).rows@)),
                );
                if !confirmed {
                    &&& final(self).cursor == old(self).cursor
                    &&& final(self).phase == ProjectionPhase::Over
                    &&& *final(streaks) == *old(streaks)
                    &&& action == (ProjectionAction::Fail {
                        error: match state {
                            Err(error) => RelayError::Journal(error),
                            Ok(AmbientOutboxJournalState::Absent) => RelayError::FinalRowsMissing,
                            Ok(AmbientOutboxJournalState::Exact(_)) => RelayError::FinalRowsChanged,
                        },
                        latch: true,
                    })
                } else if old(self).beyond_dead_retention {
                    &&& final(self).cursor@ == retired(old(self).cursor@, now_ns)
                    &&& final(self).phase == ProjectionPhase::Retire
                    &&& *final(streaks) == *old(streaks)
                    &&& action == ProjectionAction::StoreCursor
                } else {
                    &&& final(self).cursor == old(self).cursor
                    &&& final(self).phase == ProjectionPhase::Over
                    &&& final(streaks).streak(spawn_id) == (if old(streaks).streak(spawn_id)
                        == u32::MAX {
                        u32::MAX as int
                    } else {
                        old(streaks).streak(spawn_id) + 1
                    })
                    &&& forall|other: Seq<char>|
                        other != spawn_id ==> #[trigger] final(streaks).streak(other) == old(
                            streaks,
                        ).streak(other)
                    &&& action == (if final(streaks).streak(spawn_id)
                        > MAX_CONSECUTIVE_PROJECTION_RECOVERIES {
                        ProjectionAction::Fail {
                            error: RelayError::NotConverging {
                                consecutive_recoveries: final(streaks).streak(spawn_id),
                            },
                            latch: true,
                        }
                    } else {
                        ProjectionAction::Done
                    })
                }
            }),
    {
        match state {
            Err(error) => {
                self.phase = ProjectionPhase::Over;
                return ProjectionAction::Fail { error: RelayError::Journal(error), latch: true };
            },
            Ok(AmbientOutboxJournalState::Absent) => {
                self.phase = ProjectionPhase::Over;
                return ProjectionAction::Fail { error: RelayError::FinalRowsMissing, latch: true };
            },
            Ok(AmbientOutboxJournalState::Exact(found)) => {
                if !same_rows(&found, &self.rows) {
                    self.phase = ProjectionPhase::Over;
                    return ProjectionAction::Fail {
                        error: RelayError::FinalRowsChanged,
                        latch: true,
                    };
                }
            },
        }
        if self.beyond_dead_retention {
            self.cursor.projection_checkpoint = None;
            self.cursor.updated_ts_ns = now_ns;
            self.phase = ProjectionPhase::Retire;
            return ProjectionAction::StoreCursor;
        }
        self.phase = ProjectionPhase::Over;
        let consecutive_recoveries: u32 = streaks.record_projection_recovery(
            self.cursor.spawn_id.as_str(),
        );
        if consecutive_recoveries > MAX_CONSECUTIVE_PROJECTION_RECOVERIES {
            ProjectionAction::Fail {
                error: RelayError::NotConverging { consecutive_recoveries },
                latch: true,
            }
        } else {
            ProjectionAction::Done
        }
    }

    /// Goes on from the store of the cursor without its checkpoint. An agent that
    /// the projection need not know starts anew.
    pub fn on_stored(
        &mut self,
        stored: Result<(), AmbientCursorError>,
        streaks: &mut ProjectionRecoveryStreaks,
    ) -> (action: ProjectionAction)
        requires
            old(self).phase == ProjectionPhase::Retire,
            old(streaks).wf(),
        ensures
            final(streaks).wf(),
            *final(self) == (ProjectionRecovery { phase: ProjectionPhase::Over, ..*old(self) }),
            ({
                let spawn_id = old(self).cursor@.spawn_id;
                match stored {
                    Err(error) => {
                        &&& action == (ProjectionAction::Fail {
                            error: RelayError::RetireFailed(error),
                            latch: true,
                        })
                        &&& *final(streaks) == *old(streaks)
                    },
                    Ok(_) => {
                        &&& action == ProjectionAction::Done
                        &&& if old(self).beyond_dead_retention {
                            &&& final(streaks).streak(spawn_id) == 0
                            &&& forall|other: Seq<char>|
                                other != spawn_id ==> #[trigger] final(streaks).streak(other)
                                    == old(streaks).streak(other)
                        } else {
                            *final(streaks) == *old(streaks)
                        }
                    },
                }
            }),
    {
        self.phase = ProjectionPhase::Over;
        match stored {
            Err(error) => ProjectionAction::Fail {
                error: RelayError::RetireFailed(error),
                latch: true,
            },
            Ok(()) => {
                if self.beyond_dead_retention {
                    streaks.clear_projection_recovery_streak(self.cursor.spawn_id.as_str());
                }
                ProjectionAction::Done
            },
        }
    }
}

} // verus!
