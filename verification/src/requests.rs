//! Which audits and replays are taken, what they answer, and when two paths are the same.
use crate::facades;
use crate::facades::{
    AuditOperation, AuditPayload, AuditStep, Caller, CommandStage, FacadeError, LedgerVerifyReport,
    ReplayOperation, ReproduceReport,
};
use crate::replays;
use crate::replays::{ReplayAction, ReplayFailure, ReplayStage};
use crate::roots;
use crate::roots::{DefaultPaths, PathStyle};
use crate::text;
use vstd::prelude::*;
use vstd::string::*;

verus! {

/// An audit that needs a payload has one; the two that change rows need maintenance and leave
/// to read and to write, the profile and the export need the leave that they ask for. The first
/// that is missing refuses it.
pub proof fn law_audits_need_payload_and_leave(
    operation: AuditOperation,
    payload_given: bool,
    caller: Caller,
)
    ensures
        ({
            let refusal = facades::audit_refusal(operation, payload_given, caller);
            let lifecycle = operation == AuditOperation::LifecycleEvents || operation
                == AuditOperation::LifecycleExits;
            let changes = operation == AuditOperation::RepairLegacyProbeRow || operation
                == AuditOperation::AdjudicateRawCommitmentSeal;
            let asks = operation == AuditOperation::ProfileIntelligence || operation
                == AuditOperation::ExportBundle;
            let given = payload_given || lifecycle;
            let stored = caller.storage_read && caller.storage_write;
            &&& !given ==> refusal == Some(FacadeError::MissingPayload)
            &&& given && changes && !caller.maintenance ==> refusal == Some(
                FacadeError::MaintenanceOnly,
            )
            &&& given && changes && caller.maintenance && !stored ==> refusal == Some(
                FacadeError::StoragePermissionDenied,
            )
            &&& given && asks && !caller.request_permitted ==> refusal == Some(
                FacadeError::PermissionDenied,
            )
            &&& refusal is None <==> given && (changes ==> caller.maintenance && stored) && (asks
                ==> caller.request_permitted)
        }),
{
}

/// A window has both ends or none.
pub proof fn law_windows_have_both_ends(from: u64, to: u64)
    ensures
        facades::window_of(None, None) == Ok::<Option<(u64, u64)>, FacadeError>(None),
        facades::window_of(Some(from), Some(to)) == Ok::<Option<(u64, u64)>, FacadeError>(
            Some((from, to)),
        ),
        facades::window_of(Some(from), None) == Err::<Option<(u64, u64)>, FacadeError>(
            FacadeError::WindowIncomplete,
        ),
        facades::window_of(None, Some(to)) == Err::<Option<(u64, u64)>, FacadeError>(
            FacadeError::WindowIncomplete,
        ),
{
}

/// An audit that is taken takes the step of its operation: a chain is verified within its
/// window, a record is reproduced by its id without the white space around it, which must not
/// be blank.
pub proof fn law_audits_take_their_step(
    operation: AuditOperation,
    payload: AuditPayload,
    caller: Caller,
    step: Result<AuditStep, FacadeError>,
)
    requires
        facades::audits(operation, payload, caller, step),
        facades::audit_refusal(operation, facades::payload_fits(operation, payload), caller) is None,
    ensures
        operation == AuditOperation::CommandQuery ==> step == Ok::<AuditStep, FacadeError>(
            AuditStep::QueryCommands,
        ),
        operation == AuditOperation::RepairLegacyProbeRow ==> step == Ok::<AuditStep, FacadeError>(
            AuditStep::RepairLegacyProbeRow,
        ),
        operation == AuditOperation::LifecycleEvents ==> step == Ok::<AuditStep, FacadeError>(
            AuditStep::ReadToolEvents,
        ),
        operation == AuditOperation::LifecycleExits ==> step == Ok::<AuditStep, FacadeError>(
            AuditStep::ReadExitEvents,
        ),
        operation == AuditOperation::ProfileIntelligence ==> step == Ok::<AuditStep, FacadeError>(
            AuditStep::QueryProfile,
        ),
        operation == AuditOperation::ExportBundle ==> step == Ok::<AuditStep, FacadeError>(
            AuditStep::ExportBundle,
        ),
        operation == AuditOperation::AdjudicateRawCommitmentSeal ==> step == Ok::<
            AuditStep,
            FacadeError,
        >(AuditStep::AdjudicateSeal),
        operation == AuditOperation::VerifyChain ==> payload is VerifyChain,
        operation == AuditOperation::VerifyChain && payload->VerifyChain_from_seq is None
            && payload->VerifyChain_to_seq is None ==> step == Ok::<AuditStep, FacadeError>(
            AuditStep::VerifyChain { window: None, read_seq: payload->VerifyChain_read_seq },
        ),
        operation == AuditOperation::VerifyChain && payload->VerifyChain_from_seq is Some
            && payload->VerifyChain_to_seq is Some ==> step == Ok::<AuditStep, FacadeError>(
            AuditStep::VerifyChain {
                window: Some(
                    (payload->VerifyChain_from_seq->0, payload->VerifyChain_to_seq->0),
                ),
                read_seq: payload->VerifyChain_read_seq,
            },
        ),
        operation == AuditOperation::VerifyChain && payload->VerifyChain_from_seq is Some
            && payload->VerifyChain_to_seq is None ==> step == Err::<AuditStep, FacadeError>(
            FacadeError::WindowIncomplete,
        ),
        operation == AuditOperation::Reproduce ==> payload is Reproduce,
        operation == AuditOperation::Reproduce && text::is_blank_spec(payload->Reproduce_cx_id@)
            ==> step == Err::<AuditStep, FacadeError>(FacadeError::RecordIdEmpty),
        operation == AuditOperation::Reproduce && !text::is_blank_spec(payload->Reproduce_cx_id@)
            ==> (step matches Ok(AuditStep::Reproduce { record }) && record@ == text::trim_spec(
            payload->Reproduce_cx_id@,
        )),
{
}

/// Each operation has its own name.
pub proof fn law_facade_operations_are_named()
    ensures
        AuditOperation::CommandQuery.name() == "command_query"@,
        AuditOperation::RepairLegacyProbeRow.name() == "repair_legacy_probe_row"@,
        AuditOperation::LifecycleEvents.name() == "lifecycle_events"@,
        AuditOperation::LifecycleExits.name() == "lifecycle_exits"@,
        AuditOperation::ProfileIntelligence.name() == "profile_intelligence"@,
        AuditOperation::ExportBundle.name() == "export_bundle"@,
        AuditOperation::AdjudicateRawCommitmentSeal.name() == "adjudicate_raw_commitment_seal"@,
        AuditOperation::VerifyChain.name() == "verify_chain"@,
        AuditOperation::Reproduce.name() == "reproduce"@,
        ReplayOperation::Record.name() == "record"@,
        ReplayOperation::DemoStatus.name() == "demo_status"@,
        ReplayOperation::DemoStart.name() == "demo_start"@,
        ReplayOperation::DemoStop.name() == "demo_stop"@,
        ReplayOperation::ArtifactInspect.name() == "artifact_inspect"@,
{
}

/// The readback of a verified chain names the verdict, the height, the range and the counts of
/// the report in its words, each number in decimal; that of a reproduction the record, whether
/// it was reproduced, its place and the drift.
pub proof fn law_ledger_readbacks_tell_the_report(
    report: LedgerVerifyReport,
    reproduced: ReproduceReport,
)
    ensures
        facades::verify_chain_text(report) == "CF_LEDGER verdict="@ + report.verdict@
            + " head_height="@ + text::decimal_text(report.head_height as nat) + " verified=["@
            + text::decimal_text(report.verified_from_seq as nat) + ".."@ + text::decimal_text(
            report.verified_to_seq as nat,
        ) + ") entries="@ + text::decimal_text(report.entry_count as nat) + " raw_commitments="@
            + text::decimal_text(report.raw_commitment_count as nat) + " raw_sealed="@
            + text::decimal_text(report.raw_commitment_sealed_count as nat) + " raw_pending="@
            + text::decimal_text(report.raw_commitment_pending_count as nat) + " raw_seals="@
            + text::decimal_text(report.raw_commitment_seal_count as nat),
        reproduced.reproduced ==> facades::reproduce_text(reproduced)
            == "CF_LEDGER reproduce cx_id="@ + reproduced.cx_id@ + " reproduced="@ + "true"@
            + " recorded_seq="@ + text::decimal_text(reproduced.recorded_seq as nat) + " drift="@
            + reproduced.drift@,
        !reproduced.reproduced ==> facades::reproduce_text(reproduced)
            == "CF_LEDGER reproduce cx_id="@ + reproduced.cx_id@ + " reproduced="@ + "false"@
            + " recorded_seq="@ + text::decimal_text(reproduced.recorded_seq as nat) + " drift="@
            + reproduced.drift@,
{
}

/// A replay that needs a payload has one, and recordings and demonstrations the leave that they
/// ask for.
pub proof fn law_replays_need_payload_and_leave(
    operation: ReplayOperation,
    payload_given: bool,
    request_permitted: bool,
)
    ensures
        ({
            let refusal = replays::replay_refusal(operation, payload_given, request_permitted);
            let given = payload_given || operation == ReplayOperation::DemoStatus;
            let asks = operation == ReplayOperation::Record || operation
                == ReplayOperation::DemoStart || operation == ReplayOperation::DemoStop;
            &&& !given ==> refusal == Some(FacadeError::MissingPayload)
            &&& given && asks && !request_permitted ==> refusal == Some(
                FacadeError::PermissionDenied,
            )
            &&& given && (!asks || request_permitted) ==> refusal is None
        }),
{
}

/// A demonstration is recorded before it starts or stops and again when it has; a recording and
/// a stopped demonstration leave an artifact that is inspected; an inspection runs nothing.
pub proof fn law_replays_follow_their_operation(succeeded: bool)
    ensures
        replays::replay_begin(ReplayOperation::DemoStart) == (
            ReplayStage::Intent,
            ReplayAction::RecordIntent,
        ),
        replays::replay_begin(ReplayOperation::DemoStop) == (
            ReplayStage::Intent,
            ReplayAction::RecordIntent,
        ),
        replays::replay_begin(ReplayOperation::ArtifactInspect) == (
            ReplayStage::Inspect,
            ReplayAction::InspectArtifact,
        ),
        replays::replay_begin(ReplayOperation::Record) == (ReplayStage::Run, ReplayAction::Run),
        replays::replay_begin(ReplayOperation::DemoStatus) == (ReplayStage::Run, ReplayAction::Run),
        replays::after_run(ReplayOperation::DemoStart, true) == (
            (ReplayStage::Outcome { succeeded: true }),
            ReplayAction::RecordOutcome(CommandStage::Succeeded),
        ),
        replays::after_run(ReplayOperation::DemoStop, false) == (
            (ReplayStage::Outcome { succeeded: false }),
            ReplayAction::RecordOutcome(CommandStage::Failed),
        ),
        replays::after_run(ReplayOperation::DemoStart, succeeded).0 == (ReplayStage::Outcome {
            succeeded,
        }),
        replays::after_run(ReplayOperation::DemoStop, succeeded).0 == (ReplayStage::Outcome {
            succeeded,
        }),
        replays::after_run(ReplayOperation::Record, true) == (
            ReplayStage::Inspect,
            ReplayAction::InspectArtifact,
        ),
        replays::after_run(ReplayOperation::DemoStatus, true) == (
            ReplayStage::Over,
            ReplayAction::Answer,
        ),
        replays::after_run(ReplayOperation::Record, false) == (
            ReplayStage::Over,
            ReplayAction::Fail(ReplayFailure::RunFailed),
        ),
        replays::after_run(ReplayOperation::DemoStatus, false) == (
            ReplayStage::Over,
            ReplayAction::Fail(ReplayFailure::RunFailed),
        ),
        replays::after_success(ReplayOperation::DemoStop) == (
            ReplayStage::Inspect,
            ReplayAction::InspectArtifact,
        ),
        replays::after_success(ReplayOperation::DemoStart) == (
            ReplayStage::Over,
            ReplayAction::Answer,
        ),
{
}

/// The ASCII capitals are lowered, each to its own small letter; every other character stays.
pub proof fn law_capitals_are_lowered(at: int, ch: char)
    requires
        0 <= at < 26,
    ensures
        roots::lower("ABCDEFGHIJKLMNOPQRSTUVWXYZ"@[at]) == "abcdefghijklmnopqrstuvwxyz"@[at],
        !("ABCDEFGHIJKLMNOPQRSTUVWXYZ"@.contains(ch)) ==> roots::lower(ch) == ch,
{
    reveal_strlit("ABCDEFGHIJKLMNOPQRSTUVWXYZ");
    reveal_strlit("abcdefghijklmnopqrstuvwxyz");
    if 'A' <= ch <= 'Z' {
        assert("ABCDEFGHIJKLMNOPQRSTUVWXYZ"@[ch as int - 65] == ch);
    }
}

proof fn lemma_without_trailing(path: Seq<char>) -> (end: int)
    ensures
        0 <= end <= path.len(),
        roots::without_trailing(path) == path.subrange(0, end),
        forall|i: int| end <= i < path.len() ==> #[trigger] path[i] == '\\',
        end > 0 ==> path[end - 1] != '\\',
    decreases path.len(),
{
    if path.len() > 0 && path.last() == '\\' {
        let end = lemma_without_trailing(path.drop_last());
        assert(path.drop_last().subrange(0, end) =~= path.subrange(0, end));
        assert forall|i: int| end <= i < path.len() implies #[trigger] path[i] == '\\' by {
            if i < path.len() - 1 {
                assert(path.drop_last()[i] == '\\');
            }
        }
        end
    } else {
        assert(path.subrange(0, path.len() as int) =~= path);
        path.len() as int
    }
}

/// The key of a path is the path with backslashes for slashes and without separators at its
/// end, lowered where case is ignored.
pub proof fn law_path_keys_are_backslashed(path: Seq<char>, at: int)
    ensures
        ({
            let key = roots::path_key_spec(path, false);
            &&& key.len() <= path.len()
            &&& 0 <= at < key.len() && path[at] == '/' ==> key[at] == '\\'
            &&& 0 <= at < key.len() && path[at] != '/' ==> key[at] == path[at]
            &&& key.len() > 0 ==> key.last() != '\\'
            &&& key.len() <= at < path.len() ==> path[at] == '/' || path[at] == '\\'
            &&& roots::path_key_spec(path, true).len() == key.len()
            &&& 0 <= at < key.len() ==> roots::path_key_spec(path, true)[at] == roots::lower(key[at])
        }),
{
    let plain = roots::backslashed(path);
    let end = lemma_without_trailing(plain);
    if end <= at < path.len() {
        assert(plain[at] == '\\');
    }
}

/// A database is the host's own exactly where its key is that of one of the two default paths.
pub proof fn law_host_databases_have_default_paths(db_path: Seq<char>, defaults: DefaultPaths)
    ensures
        roots::is_host_db(db_path, defaults) <==> (roots::path_key_spec(
            db_path,
            defaults.ignore_case,
        ) == roots::path_key_spec(defaults.db_path@, defaults.ignore_case) || roots::path_key_spec(
            db_path,
            defaults.ignore_case,
        ) == roots::path_key_spec(defaults.daemon_db_path@, defaults.ignore_case)),
{
}

/// Whether a character separates the parts of a path: a slash, and on Windows a backslash.
pub open spec fn separates(ch: char, style: PathStyle) -> bool {
    ch == '/' || (style == PathStyle::Windows && ch == '\\')
}

proof fn lemma_part_end(path: Seq<char>, from: int, end: int, style: PathStyle)
    requires
        0 <= from <= end <= path.len(),
        forall|i: int| from <= i < end ==> !separates(#[trigger] path[i], style),
        end < path.len() ==> separates(path[end], style),
    ensures
        roots::path_part_end(path, from, style) == end,
    decreases end - from,
{
    if from < end {
        assert(!separates(path[from], style));
        lemma_part_end(path, from + 1, end, style);
    }
}

/// The parts of a path stand between its separators. A part that is empty, and a dot that is
/// not the first part, do not count; on Windows the letter of a drive has no case.
pub proof fn law_path_parts_stand_between_separators(
    path: Seq<char>,
    from: int,
    end: int,
    style: PathStyle,
)
    requires
        0 <= from <= end <= path.len(),
        from < path.len(),
        forall|i: int| from <= i < end ==> !separates(#[trigger] path[i], style),
        end < path.len() ==> separates(path[end], style),
    ensures
        ({
            let rest = roots::path_parts(path, end + 1, style);
            let part = path.subrange(from, end);
            let drive = style == PathStyle::Windows && from == 0 && part.len() == 2 && part[1]
                == ':';
            let dot = from > 0 && part == seq!['.'];
            &&& from == end || dot ==> roots::path_parts(path, from, style) == rest
            &&& from < end && !dot && !drive ==> roots::path_parts(path, from, style) == seq![part]
                + rest
            &&& from < end && drive ==> roots::path_parts(path, from, style) == seq![
                seq![roots::lower(part[0]), ':'],
            ] + rest
        }),
        roots::path_parts(path, path.len() as int, style).len() == 0,
{
    lemma_part_end(path, from, end, style);
    let part = path.subrange(from, end);
    if part == seq!['.'] {
        assert(part.len() == 1 && part[0] == '.');
        assert(path[from] == '.');
    }
    if end == from + 1 && path[from] == '.' {
        assert(part =~= seq!['.']);
    }
    if part.len() == 2 && part[1] == ':' {
        assert(roots::lower(':') == ':');
        assert(roots::lowered(part) =~= seq![roots::lower(part[0]), ':']);
    }
}

/// Two paths are the same where they begin with as many separators, up to two on Windows and up
/// to one elsewhere, and have the same parts.
pub proof fn law_same_paths_have_the_same_parts(
    left: Seq<char>,
    right: Seq<char>,
    style: PathStyle,
)
    ensures
        ({
            let rooted = |path: Seq<char>| path.len() > 0 && separates(path[0], style);
            let shared = |path: Seq<char>|
                style == PathStyle::Windows && rooted(path) && path.len() > 1 && separates(
                    path[1],
                    style,
                );
            roots::same_path_spec(left, right, style) <==> rooted(left) == rooted(right) && shared(
                left,
            ) == shared(right) && roots::path_parts(left, 0, style) == roots::path_parts(
                right,
                0,
                style,
            )
        }),
{
}

} // verus!
