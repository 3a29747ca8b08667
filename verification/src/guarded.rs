//! Writes that are guarded by the revision of the row that they replace, and
//! read back before they count.
use crate::digest::digests_equal;
use crate::text::bytes_equal;
use vstd::prelude::*;

verus! {

/// What a point read of a revisioned row gives.
#[derive(Debug)]
pub enum RowRead {
    Failed,
    Absent,
    /// The row; its value is gone where the row has expired.
    Found { value: Option<Vec<u8>>, revision_sha256: [u8; 32] },
}

/// What a guarded write gives.
#[derive(Clone, Copy, Debug)]
pub enum GuardedWrite {
    Failed,
    /// The row was not at the expected revision.
    Conflict,
    Applied { committed_revision_sha256: Option<[u8; 32]> },
}

/// Why a guarded write does not count.
#[derive(Clone, Copy, Debug, PartialEq, Eq, Structural)]
pub enum GuardedError {
    WriteFailed,
    RevisionConflict,
    WriteOutcomeInvalid,
    ReadbackFailed,
    ReadbackMissing,
    ReadbackMismatch,
}

/// Whether a read gives exactly this value at this revision.
pub open spec fn reads_back(readback: RowRead, revision: Seq<u8>, encoded: Seq<u8>) -> bool {
    readback matches RowRead::Found { value: Some(value), revision_sha256 } && revision_sha256@
        == revision && value@ == encoded
}

/// Why a guarded write does not count, if it does not.
pub open spec fn guarded_refusal(
    write: GuardedWrite,
    readback: RowRead,
    encoded: Seq<u8>,
) -> Option<GuardedError> {
    match write {
        GuardedWrite::Failed => Some(GuardedError::WriteFailed),
        GuardedWrite::Conflict => Some(GuardedError::RevisionConflict),
        GuardedWrite::Applied { committed_revision_sha256: None } => Some(
            GuardedError::WriteOutcomeInvalid,
        ),
        GuardedWrite::Applied { committed_revision_sha256: Some(revision) } => match readback {
            RowRead::Failed => Some(GuardedError::ReadbackFailed),
            RowRead::Absent => Some(GuardedError::ReadbackMissing),
            RowRead::Found { .. } => if reads_back(readback, revision@, encoded) {
                None
            } else {
                Some(GuardedError::ReadbackMismatch)
            },
        },
    }
}

/// The revision that an applied write committed.
pub open spec fn committed(write: GuardedWrite) -> Option<[u8; 32]> {
    match write {
        GuardedWrite::Applied { committed_revision_sha256 } => committed_revision_sha256,
        _ => None,
    }
}

/// Settles a guarded write: the expected revision moves only where the row was
/// read back exactly as it was written.
pub fn settle_guarded_write(
    expected: &mut Option<[u8; 32]>,
    write: GuardedWrite,
    readback: &RowRead,
    encoded: &[u8],
) -> (settled: Result<(), GuardedError>)
    ensures
        match guarded_refusal(write, *readback, encoded@) {
            None => settled is Ok && *final(expected) == committed(write),
            Some(error) => settled == Err::<(), GuardedError>(error)
                && *final(expected) == *old(expected),
        },
{
    match write {
        GuardedWrite::Failed => Err(GuardedError::WriteFailed),
        GuardedWrite::Conflict => Err(GuardedError::RevisionConflict),
        GuardedWrite::Applied { committed_revision_sha256: None } => Err(
            GuardedError::WriteOutcomeInvalid,
        ),
        GuardedWrite::Applied { committed_revision_sha256: Some(revision) } => match readback {
            RowRead::Failed => Err(GuardedError::ReadbackFailed),
            RowRead::Absent => Err(GuardedError::ReadbackMissing),
            RowRead::Found { value: Some(value), revision_sha256 } => {
                if digests_equal(revision_sha256, &revision) && bytes_equal(
                    value.as_slice(),
                    encoded,
                ) {
                    *expected = Some(revision);
                    Ok(())
                } else {
                    Err(GuardedError::ReadbackMismatch)
                }
            },
            RowRead::Found { value: None, .. } => Err(GuardedError::ReadbackMismatch),
        },
    }
}

/// A guarded write is proved exactly where it was applied with a revision and the row
/// then reads back live, at that revision, with the bytes that were written. Anything
/// else is refused, each failure by its own name.
pub proof fn law_guarded_writes_are_proved_by_readback(
    write: GuardedWrite,
    readback: RowRead,
    encoded: Seq<u8>,
)
    ensures
        guarded_refusal(write, readback, encoded) is None <==> (write matches GuardedWrite::Applied {
            committed_revision_sha256: Some(revision),
        } && readback matches RowRead::Found { value: Some(value), revision_sha256 }
            && revision_sha256@ == revision@ && value@ == encoded),
        write is Failed ==> guarded_refusal(write, readback, encoded) == Some(
            GuardedError::WriteFailed,
        ),
        write is Conflict ==> guarded_refusal(write, readback, encoded) == Some(
            GuardedError::RevisionConflict,
        ),
        write matches GuardedWrite::Applied { committed_revision_sha256 } ==> {
            &&& committed_revision_sha256 is None ==> guarded_refusal(write, readback, encoded)
                == Some(GuardedError::WriteOutcomeInvalid)
            &&& committed_revision_sha256 is Some && readback is Failed ==> guarded_refusal(
                write,
                readback,
                encoded,
            ) == Some(GuardedError::ReadbackFailed)
            &&& committed_revision_sha256 is Some && readback is Absent ==> guarded_refusal(
                write,
                readback,
                encoded,
            ) == Some(GuardedError::ReadbackMissing)
            &&& committed(write) == committed_revision_sha256
        },
        readback is Found && guarded_refusal(write, readback, encoded) is Some && (
        write matches GuardedWrite::Applied { committed_revision_sha256: Some(_) })
            ==> guarded_refusal(write, readback, encoded) == Some(GuardedError::ReadbackMismatch),
        write !is Applied ==> committed(write) is None,
{
}

} // verus!
