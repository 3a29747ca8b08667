//! What the journal holds of an operation, and what is loaded of a cursor.
use crate::ambient::outbox;
use crate::ambient::outbox::{
    CheckpointEvidence, OutboxError, OutboxEvidence, validate_event_outbox,
    validate_projection_checkpoint,
};
use crate::ambient::tracking;
use crate::ambient::tracking::{
    AMBIENT_PROJECTION_CHECKPOINT_VERSION, AmbientCursor, AmbientEventOutbox,
    AmbientProjectionCheckpoint, AmbientView, CURSOR_VERSION, CheckpointView, OutboxView, copy_of,
};
use crate::guarded;
use crate::guarded::{GuardedError, GuardedWrite, RowRead, settle_guarded_write};
use crate::text;
use crate::text::{bytes_equal, is_blank, opt_equals, str_equal};
use vstd::multiset::*;
use vstd::prelude::*;
use vstd::seq_lib::*;
use vstd::string::*;

verus! {

/// The most rows that one page of the journal gives.
pub const AMBIENT_OUTBOX_SCAN_PAGE_ROWS: usize = 256;

/// The most rows of one instant that are looked at.
pub const MAX_AMBIENT_OUTBOX_TIMESTAMP_CANDIDATES: usize = 4 * 1024;

/// Why a session cursor cannot be loaded or stored.
#[derive(Clone, Copy, Debug, PartialEq, Eq, Structural)]
pub enum AmbientCursorError {
    ReadFailed,
    Expired,
    DecodeFailed,
    IdentityInvalid,
    Outbox(OutboxError),
    Store(GuardedError),
}

/// What is stored under the key of a session cursor.
#[derive(Debug)]
pub enum StoredAmbientCursor {
    Failed,
    Absent,
    Expired,
    Undecodable,
    Found { cursor: AmbientCursor, revision_sha256: [u8; 32] },
}

/// How the outbox and the checkpoint of a cursor are encoded. Only what the
/// cursor has is looked at.
#[derive(Debug)]
pub struct CursorEvidence {
    pub outbox: OutboxEvidence,
    pub checkpoint: CheckpointEvidence,
}

/// A cursor as it was loaded, and the revision that it had.
#[derive(Debug)]
pub struct LoadedAmbientCursor {
    pub cursor: Option<AmbientCursor>,
    pub revision_sha256: Option<[u8; 32]>,
}

/// Why a stored cursor cannot be trusted, if it cannot.
pub open spec fn cursor_refusal(
    cursor: AmbientView,
    spawn_id: Seq<char>,
    evidence: CursorEvidence,
) -> Option<AmbientCursorError> {
    if cursor.record_version != CURSOR_VERSION || cursor.spawn_id != spawn_id
        || text::is_blank_spec(
        cursor.source_path,
    ) {
        Some(AmbientCursorError::IdentityInvalid)
    } else {
        let outbox = match cursor.pending_event_outbox {
            Some(pending) => outbox::outbox_refusal(cursor, pending, evidence.outbox),
            None => None,
        };
        match outbox {
            Some(error) => Some(AmbientCursorError::Outbox(error)),
            None => match cursor.projection_checkpoint {
                Some(checkpoint) => match outbox::checkpoint_refusal(
                    cursor.spawn_id,
                    cursor.session_id,
                    checkpoint,
                    evidence.checkpoint,
                ) {
                    Some(error) => Some(AmbientCursorError::Outbox(error)),
                    None => None,
                },
                None => None,
            },
        }
    }
}

fn check_cursor(cursor: &AmbientCursor, spawn_id: &str, evidence: &CursorEvidence) -> (refusal: Option<
    AmbientCursorError,
>)
    ensures
        refusal == cursor_refusal(cursor@, spawn_id@, *evidence),
{
    if cursor.record_version != CURSOR_VERSION || !str_equal(cursor.spawn_id.as_str(), spawn_id)
        || is_blank(cursor.source_path.as_str()) {
        return Some(AmbientCursorError::IdentityInvalid);
    }
    if let Some(pending) = &cursor.pending_event_outbox {
        if let Err(error) = validate_event_outbox(cursor, pending, &evidence.outbox) {
            return Some(AmbientCursorError::Outbox(error));
        }
    }
    if let Some(checkpoint) = &cursor.projection_checkpoint {
        if let Err(error) = validate_projection_checkpoint(
            cursor.spawn_id.as_str(),
            cursor.session_id.as_str(),
            checkpoint,
            &evidence.checkpoint,
        ) {
            return Some(AmbientCursorError::Outbox(error));
        }
    }
    None
}

/// Loads the cursor of a discovered agent. A row that is there but cannot be
/// used is an error, never an absent cursor.
pub fn load_cursor(stored: StoredAmbientCursor, spawn_id: &str, evidence: &CursorEvidence) -> (loaded:
    Result<LoadedAmbientCursor, AmbientCursorError>)
    ensures
        match stored {
            StoredAmbientCursor::Failed => loaded matches Err(error) && error
                == AmbientCursorError::ReadFailed,
            StoredAmbientCursor::Expired => loaded matches Err(error) && error
                == AmbientCursorError::Expired,
            StoredAmbientCursor::Undecodable => loaded matches Err(error) && error
                == AmbientCursorError::DecodeFailed,
            StoredAmbientCursor::Absent => loaded matches Ok(none) && none.cursor is None
                && none.revision_sha256 is None,
            StoredAmbientCursor::Found { cursor, revision_sha256 } => match cursor_refusal(
                cursor@,
                spawn_id@,
                *evidence,
            ) {
                Some(error) => loaded matches Err(given) && given == error,
                None => loaded matches Ok(found) && found.cursor == Some(cursor)
                    && found.revision_sha256 == Some(revision_sha256),
            },
        },
{
    match stored {
        StoredAmbientCursor::Failed => Err(AmbientCursorError::ReadFailed),
        StoredAmbientCursor::Expired => Err(AmbientCursorError::Expired),
        StoredAmbientCursor::Undecodable => Err(AmbientCursorError::DecodeFailed),
        StoredAmbientCursor::Absent => Ok(
            LoadedAmbientCursor { cursor: None, revision_sha256: None },
        ),
        StoredAmbientCursor::Found { cursor, revision_sha256 } => {
            match check_cursor(&cursor, spawn_id, evidence) {
                Some(error) => Err(error),
                None => Ok(
                    LoadedAmbientCursor {
                        cursor: Some(cursor),
                        revision_sha256: Some(revision_sha256),
                    },
                ),
            }
        },
    }
}

/// Settles the write of a session cursor.
pub fn store_cursor(
    expected: &mut Option<[u8; 32]>,
    write: GuardedWrite,
    readback: &RowRead,
    encoded: &[u8],
) -> (stored: Result<(), AmbientCursorError>)
    ensures
        match guarded::guarded_refusal(write, *readback, encoded@) {
            None => stored is Ok && *final(expected) == guarded::committed(write),
            Some(error) => (stored matches Err(given) && given == AmbientCursorError::Store(error))
                && *final(expected) == *old(expected),
        },
{
    match settle_guarded_write(expected, write, readback, encoded) {
        Ok(()) => Ok(()),
        Err(error) => Err(AmbientCursorError::Store(error)),
    }
}

/// Why the journal cannot say what it holds of an operation.
#[derive(Clone, Copy, Debug, PartialEq, Eq, Structural)]
pub enum JournalError {
    Outbox(OutboxError),
    TimestampExhausted,
    SnapshotPinFailed,
    RangeOversized { candidates: usize },
    ScanFailed,
    ScanCounterOverflow,
    SnapshotReleaseFailed,
    SnapshotExpiredAtRelease,
    RecordEncodeFailed,
    RowInvalid,
    Diverged { expected: usize, actual: usize },
    CheckpointRecordInvalid,
    CheckpointReadsMissing,
    CheckpointRowReadFailed,
    CheckpointRowDiverged,
    CheckpointPartial { missing: usize },
}

/// The instants that a scan for an operation covers: its own and no other.
pub fn plan_journal_range(event_ts_ns: u64) -> (range: Result<(u64, u64), JournalError>)
    ensures
        range == (if event_ts_ns == u64::MAX {
            Err(JournalError::TimestampExhausted)
        } else {
            Ok((event_ts_ns, (event_ts_ns + 1) as u64))
        }),
{
    if event_ts_ns == u64::MAX {
        Err(JournalError::TimestampExhausted)
    } else {
        Ok((event_ts_ns, event_ts_ns + 1))
    }
}

/// How many rows the next page of a scan may give.
pub fn plan_journal_page(examined: usize) -> (rows: Result<usize, JournalError>)
    ensures
        rows == (if examined >= MAX_AMBIENT_OUTBOX_TIMESTAMP_CANDIDATES {
            Err(JournalError::RangeOversized { candidates: examined })
        } else if MAX_AMBIENT_OUTBOX_TIMESTAMP_CANDIDATES - examined
            < AMBIENT_OUTBOX_SCAN_PAGE_ROWS {
            Ok((MAX_AMBIENT_OUTBOX_TIMESTAMP_CANDIDATES - examined) as usize)
        } else {
            Ok(AMBIENT_OUTBOX_SCAN_PAGE_ROWS)
        }),
{
    if examined >= MAX_AMBIENT_OUTBOX_TIMESTAMP_CANDIDATES {
        return Err(JournalError::RangeOversized { candidates: examined });
    }
    let remaining: usize = MAX_AMBIENT_OUTBOX_TIMESTAMP_CANDIDATES - examined;
    if remaining < AMBIENT_OUTBOX_SCAN_PAGE_ROWS {
        Ok(remaining)
    } else {
        Ok(AMBIENT_OUTBOX_SCAN_PAGE_ROWS)
    }
}

/// Counts the rows that a page of a scan examined.
pub fn count_journal_page(examined: usize, page_rows: usize) -> (total: Result<usize, JournalError>)
    ensures
        total == (if examined + page_rows > usize::MAX {
            Err(JournalError::ScanCounterOverflow)
        } else {
            Ok((examined + page_rows) as usize)
        }),
{
    match examined.checked_add(page_rows) {
        Some(total) => Ok(total),
        None => Err(JournalError::ScanCounterOverflow),
    }
}

/// Settles a scan: its rows count only where the snapshot held until the end.
pub fn settle_journal_scan(
    scan: Result<(), JournalError>,
    released: Option<bool>,
) -> (settled: Result<(), JournalError>)
    ensures
        settled == (match scan {
            Err(error) => Err(error),
            Ok(_) => match released {
                None => Err(JournalError::SnapshotReleaseFailed),
                Some(false) => Err(JournalError::SnapshotExpiredAtRelease),
                Some(true) => Ok(()),
            },
        }),
{
    match scan {
        Err(error) => Err(error),
        Ok(()) => match released {
            None => Err(JournalError::SnapshotReleaseFailed),
            Some(false) => Err(JournalError::SnapshotExpiredAtRelease),
            Some(true) => Ok(()),
        },
    }
}

/// A row of the journal, with the operation that its payload names.
#[derive(Debug)]
pub struct JournalRow {
    pub key: Vec<u8>,
    pub value: Vec<u8>,
    /// Whether the value could be decoded.
    pub decoded: bool,
    pub operation_id: Option<String>,
}

/// A row of the journal that belongs to an operation.
#[derive(Debug)]
pub struct AmbientExactJournalRow {
    pub key: Vec<u8>,
    pub value: Vec<u8>,
}

/// The keys and values of rows.
pub open spec fn exact_views(rows: Seq<AmbientExactJournalRow>) -> Seq<(Seq<u8>, Seq<u8>)> {
    Seq::new(rows.len(), |i: int| (rows[i].key@, rows[i].value@))
}

/// What the journal holds of an operation.
#[derive(Debug)]
pub enum AmbientOutboxJournalState {
    Absent,
    Exact(Vec<AmbientExactJournalRow>),
}

/// What the journal holds of an operation, with the rows taken as sequences.
pub enum JournalView {
    Absent,
    Exact(Seq<(Seq<u8>, Seq<u8>)>),
}

impl View for AmbientOutboxJournalState {
    type V = JournalView;

    open spec fn view(&self) -> JournalView {
        match *self {
            AmbientOutboxJournalState::Absent => JournalView::Absent,
            AmbientOutboxJournalState::Exact(rows) => JournalView::Exact(exact_views(rows@)),
        }
    }
}

/// The rows of an operation, in the order of the journal.
pub open spec fn rows_of(rows: Seq<JournalRow>, operation_id: Seq<char>) -> Seq<
    (Seq<u8>, Seq<u8>),
>
    decreases rows.len(),
{
    if rows.len() == 0 {
        Seq::<(Seq<u8>, Seq<u8>)>::empty()
    } else if text::opt_text(rows.last().operation_id) == Some(operation_id) {
        rows_of(rows.drop_last(), operation_id).push((rows.last().key@, rows.last().value@))
    } else {
        rows_of(rows.drop_last(), operation_id)
    }
}

/// The values of rows.
pub open spec fn values_of(rows: Seq<(Seq<u8>, Seq<u8>)>) -> Seq<Seq<u8>> {
    Seq::new(rows.len(), |i: int| rows[i].1)
}

/// Whether every row could be decoded.
pub open spec fn all_decoded(rows: Seq<JournalRow>) -> bool {
    forall|i: int| 0 <= i < rows.len() ==> (#[trigger] rows[i]).decoded
}

/// What the journal holds of an operation whose events have these encodings: all
/// of them and nothing else, or nothing at all.
pub open spec fn journal_state(
    rows: Seq<JournalRow>,
    operation_id: Seq<char>,
    expected: Seq<Seq<u8>>,
) -> Result<JournalView, JournalError> {
    let found = rows_of(rows, operation_id);
    if !all_decoded(rows) {
        Err(JournalError::RowInvalid)
    } else if found.len() == 0 {
        Ok(JournalView::Absent)
    } else if values_of(found).to_multiset() != expected.to_multiset() {
        Err(
            JournalError::Diverged {
                expected: expected.len() as usize,
                actual: found.len() as usize,
            },
        )
    } else {
        Ok(JournalView::Exact(found))
    }
}

/// The view of a judged journal.
pub open spec fn state_view(state: Result<AmbientOutboxJournalState, JournalError>) -> Result<
    JournalView,
    JournalError,
> {
    match state {
        Ok(found) => Ok(found@),
        Err(error) => Err(error),
    }
}

fn count_value(values: &Vec<Vec<u8>>, value: &[u8]) -> (count: usize)
    ensures
        count == tracking::byte_views(values@).to_multiset().count(value@),
{
    broadcast use group_to_multiset_ensures;

    let mut count: usize = 0;
    let mut index: usize = 0;
    let ghost views = tracking::byte_views(values@);
    assert(views.subrange(0, 0) =~= Seq::<Seq<u8>>::empty());
    while index < values.len()
        invariant
            index <= values@.len(),
            count <= index,
            views == tracking::byte_views(values@),
            count == views.subrange(0, index as int).to_multiset().count(value@),
        decreases values@.len() - index,
    {
        proof {
            let prefix = views.subrange(0, index as int);
            assert(views.subrange(0, index as int + 1) =~= prefix.push(views[index as int]));
            to_multiset_build(prefix, views[index as int]);
        }
        if bytes_equal(values[index].as_slice(), value) {
            count = count + 1;
        }
        index = index + 1;
    }
    assert(views.subrange(0, views.len() as int) =~= views);
    count
}

fn counts_agree(left: &Vec<Vec<u8>>, right: &Vec<Vec<u8>>) -> (agree: bool)
    ensures
        agree == (forall|i: int|
            0 <= i < left@.len() ==> tracking::byte_views(left@).to_multiset().count(
                #[trigger] tracking::byte_views(left@)[i],
            ) == tracking::byte_views(right@).to_multiset().count(tracking::byte_views(left@)[i])),
{
    let mut index: usize = 0;
    while index < left.len()
        invariant
            index <= left@.len(),
            forall|i: int|
                0 <= i < index ==> tracking::byte_views(left@).to_multiset().count(
                    #[trigger] tracking::byte_views(left@)[i],
                ) == tracking::byte_views(right@).to_multiset().count(tracking::byte_views(left@)[i]),
        decreases left@.len() - index,
    {
        let value = left[index].as_slice();
        if count_value(left, value) != count_value(right, value) {
            assert(tracking::byte_views(left@)[index as int] == value@);
            return false;
        }
        index = index + 1;
    }
    true
}

/// Whether two lists hold the same byte strings, each as often.
pub fn same_values(left: &Vec<Vec<u8>>, right: &Vec<Vec<u8>>) -> (same: bool)
    ensures
        same == (tracking::byte_views(left@).to_multiset()
            == tracking::byte_views(right@).to_multiset()),
{
    broadcast use group_to_multiset_ensures;

    let same: bool = counts_agree(left, right) && counts_agree(right, left);
    proof {
        let a = tracking::byte_views(left@);
        let b = tracking::byte_views(right@);
        if same {
            assert forall|value: Seq<u8>| a.to_multiset().count(value) == b.to_multiset().count(
                value,
            ) by {
                if a.contains(value) {
                    let i = choose|i: int| 0 <= i < a.len() && a[i] == value;
                    assert(a.to_multiset().count(a[i]) == b.to_multiset().count(a[i]));
                } else if b.contains(value) {
                    let i = choose|i: int| 0 <= i < b.len() && b[i] == value;
                    assert(b.to_multiset().count(b[i]) == a.to_multiset().count(b[i]));
                } else {
                    assert(!a.to_multiset().contains(value));
                    assert(!b.to_multiset().contains(value));
                }
            }
            assert(a.to_multiset() =~= b.to_multiset());
        }
    }
    same
}

/// Judges what the journal holds of an operation, from all its rows of the
/// operation's instant.
pub fn inspect_outbox_journal(
    rows: &Vec<JournalRow>,
    operation_id: &str,
    expected: &Vec<Vec<u8>>,
) -> (state: Result<AmbientOutboxJournalState, JournalError>)
    ensures
        state_view(state) == journal_state(rows@, operation_id@, tracking::byte_views(expected@)),
{
    let mut found: Vec<AmbientExactJournalRow> = Vec::new();
    let mut values: Vec<Vec<u8>> = Vec::new();
    let mut index: usize = 0;
    assert(exact_views(found@) =~= Seq::<(Seq<u8>, Seq<u8>)>::empty());
    while index < rows.len()
        invariant
            index <= rows@.len(),
            forall|i: int| 0 <= i < index ==> (#[trigger] rows@[i]).decoded,
            found@.len() <= index,
            exact_views(found@) == rows_of(rows@.subrange(0, index as int), operation_id@),
            tracking::byte_views(values@) == values_of(exact_views(found@)),
        decreases rows@.len() - index,
    {
        let row = &rows[index];
        if !row.decoded {
            assert(!rows@[index as int].decoded);
            return Err(JournalError::RowInvalid);
        }
        proof {
            let prefix = rows@.subrange(0, index as int + 1);
            assert(prefix.drop_last() =~= rows@.subrange(0, index as int));
            assert(prefix.last() == *row);
        }
        let before: Ghost<Seq<AmbientExactJournalRow>> = Ghost(found@);
        let values_before: Ghost<Seq<Vec<u8>>> = Ghost(values@);
        if opt_equals(&row.operation_id, operation_id) {
            values.push(copy_of(&row.value));
            found.push(
                AmbientExactJournalRow { key: copy_of(&row.key), value: copy_of(&row.value) },
            );
            proof {
                assert(exact_views(found@) =~= exact_views(before@).push((row.key@, row.value@)));
                assert(tracking::byte_views(values@) =~= tracking::byte_views(values_before@).push(row.value@));
                assert(values_of(exact_views(found@)) =~= values_of(exact_views(before@)).push(
                    row.value@,
                ));
            }
        }
        index = index + 1;
    }
    assert(rows@.subrange(0, rows@.len() as int) =~= rows@);
    if found.len() == 0 {
        return Ok(AmbientOutboxJournalState::Absent);
    }
    if !same_values(&values, expected) {
        return Err(
            JournalError::Diverged { expected: expected.len(), actual: found.len() },
        );
    }
    Ok(AmbientOutboxJournalState::Exact(found))
}

/// Whether two lists of rows are the same.
pub fn same_rows(left: &Vec<AmbientExactJournalRow>, right: &Vec<AmbientExactJournalRow>) -> (same: bool)
    ensures
        same == (exact_views(left@) == exact_views(right@)),
{
    if left.len() != right.len() {
        assert(exact_views(left@).len() != exact_views(right@).len());
        return false;
    }
    let mut index: usize = 0;
    while index < left.len()
        invariant
            left@.len() == right@.len(),
            index <= left@.len(),
            forall|i: int| 0 <= i < index ==> exact_views(left@)[i] == exact_views(right@)[i],
        decreases left@.len() - index,
    {
        if !bytes_equal(left[index].key.as_slice(), right[index].key.as_slice()) || !bytes_equal(
            left[index].value.as_slice(),
            right[index].value.as_slice(),
        ) {
            assert(exact_views(left@)[index as int] != exact_views(right@)[index as int]);
            return false;
        }
        index = index + 1;
    }
    assert(exact_views(left@) =~= exact_views(right@));
    true
}

/// The keys of rows.
pub open spec fn keys_of(rows: Seq<(Seq<u8>, Seq<u8>)>) -> Seq<Seq<u8>> {
    Seq::new(rows.len(), |i: int| rows[i].0)
}

/// The checkpoint of an outbox whose events stand in these rows of the journal.
pub open spec fn checkpoint_of(outbox: OutboxView, rows: Seq<(Seq<u8>, Seq<u8>)>) -> CheckpointView {
    CheckpointView {
        record_version: AMBIENT_PROJECTION_CHECKPOINT_VERSION,
        outbox,
        journal_keys: keys_of(rows),
    }
}

/// Makes the checkpoint of an outbox from the rows of the journal in which its
/// events stand.
pub fn projection_checkpoint_from_exact_rows(
    cursor: &AmbientCursor,
    outbox: &AmbientEventOutbox,
    rows: &Vec<AmbientExactJournalRow>,
    evidence: &CheckpointEvidence,
) -> (made: Result<AmbientProjectionCheckpoint, OutboxError>)
    ensures
        match outbox::checkpoint_refusal(
            cursor@.spawn_id,
            cursor@.session_id,
            checkpoint_of(outbox@, exact_views(rows@)),
            *evidence,
        ) {
            Some(error) => made matches Err(given) && given == error,
            None => made matches Ok(checkpoint) && checkpoint@ == checkpoint_of(
                outbox@,
                exact_views(rows@),
            ),
        },
{
    let mut journal_keys: Vec<Vec<u8>> = Vec::new();
    let mut index: usize = 0;
    while index < rows.len()
        invariant
            index <= rows@.len(),
            journal_keys@.len() == index,
            forall|i: int| 0 <= i < index ==> (#[trigger] journal_keys@[i])@ == rows@[i].key@,
        decreases rows@.len() - index,
    {
        journal_keys.push(copy_of(&rows[index].key));
        index = index + 1;
    }
    let checkpoint = AmbientProjectionCheckpoint {
        record_version: AMBIENT_PROJECTION_CHECKPOINT_VERSION,
        outbox: outbox.clone(),
        journal_keys,
    };
    assert(checkpoint@.journal_keys =~= keys_of(exact_views(rows@)));
    validate_projection_checkpoint(
        cursor.spawn_id.as_str(),
        cursor.session_id.as_str(),
        &checkpoint,
        evidence,
    )?;
    Ok(checkpoint)
}

/// Why a row of a checkpoint does not bear it out, if it does not. A row that is
/// gone is no reason by itself.
pub open spec fn checkpoint_row_refusal(expected: Option<Vec<u8>>, read: RowRead) -> Option<
    JournalError,
> {
    match expected {
        None => Some(JournalError::CheckpointRecordInvalid),
        Some(encoded) => match read {
            RowRead::Failed => Some(JournalError::CheckpointRowReadFailed),
            RowRead::Found { value: Some(value), .. } => if value@ != encoded@ {
                Some(JournalError::CheckpointRowDiverged)
            } else {
                None
            },
            _ => None,
        },
    }
}

/// Whether a row is gone.
pub open spec fn is_gone(read: RowRead) -> bool {
    match read {
        RowRead::Absent => true,
        RowRead::Found { value: None, .. } => true,
        _ => false,
    }
}

/// How many rows are gone.
pub open spec fn gone_count(reads: Seq<RowRead>) -> int
    decreases reads.len(),
{
    if reads.len() == 0 {
        0
    } else {
        gone_count(reads.drop_last()) + (if is_gone(reads.last()) {
            1int
        } else {
            0int
        })
    }
}

/// The refusals of the rows of a checkpoint.
pub open spec fn checkpoint_row_refusals(expected: Seq<Option<Vec<u8>>>, reads: Seq<RowRead>) -> Seq<
    Option<JournalError>,
> {
    Seq::new(reads.len(), |i: int| checkpoint_row_refusal(expected[i], reads[i]))
}

/// What the journal holds of a checkpoint: all of its rows as they were written,
/// or none of them.
pub open spec fn checkpoint_state(
    keys: Seq<Seq<u8>>,
    expected: Seq<Option<Vec<u8>>>,
    reads: Seq<RowRead>,
) -> Result<JournalView, JournalError> {
    if expected.len() != keys.len() || reads.len() != keys.len() {
        Err(JournalError::CheckpointReadsMissing)
    } else {
        match crate::checks::first_some(checkpoint_row_refusals(expected, reads)) {
            Some(error) => Err(error),
            None => if gone_count(reads) == keys.len() {
                Ok(JournalView::Absent)
            } else if gone_count(reads) != 0 {
                Err(JournalError::CheckpointPartial { missing: gone_count(reads) as usize })
            } else {
                Ok(
                    JournalView::Exact(
                        Seq::new(keys.len(), |i: int| (keys[i], expected[i]->Some_0@)),
                    ),
                )
            },
        }
    }
}

proof fn lemma_gone_count(reads: Seq<RowRead>)
    ensures
        0 <= gone_count(reads) <= reads.len(),
        gone_count(reads) == 0 ==> forall|i: int|
            0 <= i < reads.len() ==> !is_gone(#[trigger] reads[i]),
    decreases reads.len(),
{
    if reads.len() > 0 {
        lemma_gone_count(reads.drop_last());
        if gone_count(reads) == 0 {
            assert forall|i: int| 0 <= i < reads.len() implies !is_gone(#[trigger] reads[i]) by {
                if i < reads.len() - 1 {
                    assert(!is_gone(reads.drop_last()[i]));
                }
            }
        }
    }
}

/// Judges what the journal holds of a valid checkpoint, from a read of each of
/// its rows.
pub fn inspect_projection_checkpoint_journal(
    checkpoint: &AmbientProjectionCheckpoint,
    expected: &Vec<Option<Vec<u8>>>,
    reads: &Vec<RowRead>,
) -> (state: Result<AmbientOutboxJournalState, JournalError>)
    ensures
        state_view(state) == checkpoint_state(checkpoint@.journal_keys, expected@, reads@),
{
    let total: usize = checkpoint.journal_keys.len();
    if expected.len() != total || reads.len() != total {
        return Err(JournalError::CheckpointReadsMissing);
    }
    let ghost refusals = checkpoint_row_refusals(expected@, reads@);
    let mut rows: Vec<AmbientExactJournalRow> = Vec::new();
    let mut missing: usize = 0;
    let mut index: usize = 0;
    while index < total
        invariant
            index <= total,
            total == checkpoint.journal_keys@.len(),
            total == expected@.len(),
            total == reads@.len(),
            refusals == checkpoint_row_refusals(expected@, reads@),
            forall|i: int| 0 <= i < index ==> (#[trigger] refusals[i]) is None,
            missing == gone_count(reads@.subrange(0, index as int)),
            missing <= index,
            missing == 0 ==> rows@.len() == index,
            missing == 0 ==> forall|i: int|
                0 <= i < index ==> (#[trigger] rows@[i]).key@ == checkpoint.journal_keys@[i]@
                    && rows@[i].value@ == expected@[i]->Some_0@,
        decreases total - index,
    {
        proof {
            let prefix = reads@.subrange(0, index as int + 1);
            assert(prefix.drop_last() =~= reads@.subrange(0, index as int));
            assert(prefix.last() == reads@[index as int]);
        }
        let refusal: Option<JournalError> = match &expected[index] {
            None => Some(JournalError::CheckpointRecordInvalid),
            Some(encoded) => match &reads[index] {
                RowRead::Failed => Some(JournalError::CheckpointRowReadFailed),
                RowRead::Absent => {
                    missing = missing + 1;
                    None
                },
                RowRead::Found { value: None, .. } => {
                    missing = missing + 1;
                    None
                },
                RowRead::Found { value: Some(value), .. } => {
                    if bytes_equal(value.as_slice(), encoded.as_slice()) {
                        rows.push(
                            AmbientExactJournalRow {
                                key: copy_of(&checkpoint.journal_keys[index]),
                                value: copy_of(value),
                            },
                        );
                        None
                    } else {
                        Some(JournalError::CheckpointRowDiverged)
                    }
                },
            },
        };
        assert(refusals[index as int] == refusal);
        if let Some(error) = refusal {
            proof {
                crate::checks::lemma_first_some_at(refusals, index as int);
            }
            return Err(error);
        }
        index = index + 1;
    }
    proof {
        crate::checks::lemma_first_some_none(refusals);
        assert(reads@.subrange(0, reads@.len() as int) =~= reads@);
    }
    if missing == total {
        return Ok(AmbientOutboxJournalState::Absent);
    }
    if missing != 0 {
        return Err(JournalError::CheckpointPartial { missing });
    }
    proof {
        let keys = checkpoint@.journal_keys;
        assert(exact_views(rows@) =~= Seq::new(
            keys.len(),
            |i: int| (keys[i], expected@[i]->Some_0@),
        ));
    }
    Ok(AmbientOutboxJournalState::Exact(rows))
}

/// An exact journal holds each event of the operation as often as the outbox
/// does, and a partial or doubled one is never taken for exact.
pub proof fn law_exact_journals_hold_the_outbox(
    rows: Seq<JournalRow>,
    operation_id: Seq<char>,
    expected: Seq<Seq<u8>>,
)
    requires
        journal_state(rows, operation_id, expected) matches Ok(JournalView::Exact(_)),
    ensures
        ({
            let found = journal_state(rows, operation_id, expected)->Ok_0->Exact_0;
            &&& found.len() == expected.len()
            &&& values_of(found).to_multiset() == expected.to_multiset()
        }),
{
    broadcast use group_to_multiset_ensures;

    let found = rows_of(rows, operation_id);
    assert(values_of(found).to_multiset().len() == expected.to_multiset().len());
    assert(values_of(found).len() == expected.len());
}

} // verus!
