//! The audit and the replay tool: which payload an operation needs, who may run
//! it, and what its readback says.
use crate::text;
use crate::text::{decimal, joined, trim};
use vstd::prelude::*;
use vstd::string::*;

verus! {

pub const AUDIT_TOOL: &'static str = "audit";

pub const REPLAY_TOOL: &'static str = "replay";

/// What the operations on the ledger read.
pub const LEDGER_SOT: &'static str = "CF_LEDGER append-only provenance hash chain + raw_commitment checkpoint-cohort Merkle seals";

/// What the audit tool does.
#[derive(Clone, Copy, Debug, PartialEq, Eq, Structural)]
pub enum AuditOperation {
    CommandQuery,
    RepairLegacyProbeRow,
    LifecycleEvents,
    LifecycleExits,
    ProfileIntelligence,
    ExportBundle,
    AdjudicateRawCommitmentSeal,
    VerifyChain,
    Reproduce,
}

impl AuditOperation {
    /// The name of the operation.
    pub open spec fn name(self) -> Seq<char> {
        match self {
            AuditOperation::CommandQuery => "command_query"@,
            AuditOperation::RepairLegacyProbeRow => "repair_legacy_probe_row"@,
            AuditOperation::LifecycleEvents => "lifecycle_events"@,
            AuditOperation::LifecycleExits => "lifecycle_exits"@,
            AuditOperation::ProfileIntelligence => "profile_intelligence"@,
            AuditOperation::ExportBundle => "export_bundle"@,
            AuditOperation::AdjudicateRawCommitmentSeal => "adjudicate_raw_commitment_seal"@,
            AuditOperation::VerifyChain => "verify_chain"@,
            AuditOperation::Reproduce => "reproduce"@,
        }
    }

    /// The name of the operation.
    pub fn as_str(self) -> (name: &'static str)
        ensures
            name@ == self.name(),
    {
        match self {
            AuditOperation::CommandQuery => "command_query",
            AuditOperation::RepairLegacyProbeRow => "repair_legacy_probe_row",
            AuditOperation::LifecycleEvents => "lifecycle_events",
            AuditOperation::LifecycleExits => "lifecycle_exits",
            AuditOperation::ProfileIntelligence => "profile_intelligence",
            AuditOperation::ExportBundle => "export_bundle",
            AuditOperation::AdjudicateRawCommitmentSeal => "adjudicate_raw_commitment_seal",
            AuditOperation::VerifyChain => "verify_chain",
            AuditOperation::Reproduce => "reproduce",
        }
    }

    /// Whether the operation runs on a payload of its own; the others take the
    /// defaults where there is none.
    pub open spec fn needs_payload(self) -> bool {
        self != AuditOperation::LifecycleEvents && self != AuditOperation::LifecycleExits
    }

    /// Whether the operation needs what its request asks for.
    pub open spec fn asks_leave(self) -> bool {
        self == AuditOperation::ProfileIntelligence || self == AuditOperation::ExportBundle
    }

    /// Whether the operation changes what is audited, and so is kept for
    /// maintenance.
    pub open spec fn is_maintenance(self) -> bool {
        self == AuditOperation::RepairLegacyProbeRow || self
            == AuditOperation::AdjudicateRawCommitmentSeal
    }
}

/// What the replay tool does.
#[derive(Clone, Copy, Debug, PartialEq, Eq, Structural)]
pub enum ReplayOperation {
    Record,
    DemoStatus,
    DemoStart,
    DemoStop,
    ArtifactInspect,
}

impl ReplayOperation {
    /// The name of the operation.
    pub open spec fn name(self) -> Seq<char> {
        match self {
            ReplayOperation::Record => "record"@,
            ReplayOperation::DemoStatus => "demo_status"@,
            ReplayOperation::DemoStart => "demo_start"@,
            ReplayOperation::DemoStop => "demo_stop"@,
            ReplayOperation::ArtifactInspect => "artifact_inspect"@,
        }
    }

    /// The name of the operation.
    pub fn as_str(self) -> (name: &'static str)
        ensures
            name@ == self.name(),
    {
        match self {
            ReplayOperation::Record => "record",
            ReplayOperation::DemoStatus => "demo_status",
            ReplayOperation::DemoStart => "demo_start",
            ReplayOperation::DemoStop => "demo_stop",
            ReplayOperation::ArtifactInspect => "artifact_inspect",
        }
    }

    /// Whether the operation runs on a payload of its own.
    pub open spec fn needs_payload(self) -> bool {
        self != ReplayOperation::DemoStatus
    }
}

/// Why a request is refused.
#[derive(Clone, Copy, Debug, PartialEq, Eq, Structural)]
pub enum FacadeError {
    /// The payload of the operation is missing.
    MissingPayload,
    /// The operation is kept for maintenance.
    MaintenanceOnly,
    /// Reading and writing of the storage are not both permitted.
    StoragePermissionDenied,
    /// What the request asks for is not permitted.
    PermissionDenied,
    /// A window has both ends or none.
    WindowIncomplete,
    /// The record is not named.
    RecordIdEmpty,
}

/// What a caller may do.
#[derive(Clone, Copy, Debug, PartialEq, Eq, Structural)]
pub struct Caller {
    pub maintenance: bool,
    pub storage_read: bool,
    pub storage_write: bool,
    /// Whether the caller has what the request itself asks for.
    pub request_permitted: bool,
}

/// Why the audit tool refuses an operation before it looks at its payload, if it
/// does.
pub open spec fn audit_refusal(
    operation: AuditOperation,
    payload_given: bool,
    caller: Caller,
) -> Option<FacadeError> {
    if operation.needs_payload() && !payload_given {
        Some(FacadeError::MissingPayload)
    } else if operation.is_maintenance() && !caller.maintenance {
        Some(FacadeError::MaintenanceOnly)
    } else if operation.is_maintenance() && !(caller.storage_read && caller.storage_write) {
        Some(FacadeError::StoragePermissionDenied)
    } else if operation.asks_leave() && !caller.request_permitted {
        Some(FacadeError::PermissionDenied)
    } else {
        None
    }
}

/// Lets the audit tool run an operation: on its payload, and one that changes
/// what is audited only for maintenance.
pub fn check_audit(operation: AuditOperation, payload_given: bool, caller: Caller) -> (checked: Result<
    (),
    FacadeError,
>)
    ensures
        checked == (match audit_refusal(operation, payload_given, caller) {
            Some(error) => Err::<(), FacadeError>(error),
            None => Ok(()),
        }),
{
    let needs_payload: bool = match operation {
        AuditOperation::LifecycleEvents => false,
        AuditOperation::LifecycleExits => false,
        _ => true,
    };
    if needs_payload && !payload_given {
        return Err(FacadeError::MissingPayload);
    }
    let maintenance: bool = match operation {
        AuditOperation::RepairLegacyProbeRow => true,
        AuditOperation::AdjudicateRawCommitmentSeal => true,
        _ => false,
    };
    if maintenance && !caller.maintenance {
        return Err(FacadeError::MaintenanceOnly);
    }
    if maintenance && !(caller.storage_read && caller.storage_write) {
        return Err(FacadeError::StoragePermissionDenied);
    }
    let asks_leave: bool = match operation {
        AuditOperation::ProfileIntelligence => true,
        AuditOperation::ExportBundle => true,
        _ => false,
    };
    if asks_leave && !caller.request_permitted {
        return Err(FacadeError::PermissionDenied);
    }
    Ok(())
}

/// The window that two ends name.
pub open spec fn window_of(from_seq: Option<u64>, to_seq: Option<u64>) -> Result<
    Option<(u64, u64)>,
    FacadeError,
> {
    match (from_seq, to_seq) {
        (None, None) => Ok(None),
        (Some(from), Some(to)) => Ok(Some((from, to))),
        _ => Err(FacadeError::WindowIncomplete),
    }
}

/// The window of the ledger that is verified: all of it where neither end is
/// named.
pub fn verify_window(from_seq: Option<u64>, to_seq: Option<u64>) -> (window: Result<
    Option<(u64, u64)>,
    FacadeError,
>)
    ensures
        window == window_of(from_seq, to_seq),
{
    match (from_seq, to_seq) {
        (None, None) => Ok(None),
        (Some(from), Some(to)) => Ok(Some((from, to))),
        _ => Err(FacadeError::WindowIncomplete),
    }
}

/// The record that is reproduced, without the white space around its name.
pub fn reproduced_record(cx_id: &str) -> (record: Result<String, FacadeError>)
    ensures
        if text::is_blank_spec(cx_id@) {
            record matches Err(error) && error == FacadeError::RecordIdEmpty
        } else {
            record matches Ok(id) && id@ == text::trim_spec(cx_id@)
        },
{
    let trimmed = trim(cx_id);
    if trimmed.unicode_len() == 0 {
        return Err(FacadeError::RecordIdEmpty);
    }
    Ok(trimmed.to_owned())
}

/// The payload of a request, as far as the tool looks into it.
#[derive(Debug)]
pub enum AuditPayload {
    Absent,
    /// A payload that is handed on.
    Given,
    VerifyChain { from_seq: Option<u64>, to_seq: Option<u64>, read_seq: Option<u64> },
    Reproduce { cx_id: String },
}

/// What the audit tool has done for it.
#[derive(Debug)]
pub enum AuditStep {
    QueryCommands,
    RepairLegacyProbeRow,
    ReadToolEvents,
    ReadExitEvents,
    QueryProfile,
    ExportBundle,
    AdjudicateSeal,
    VerifyChain { window: Option<(u64, u64)>, read_seq: Option<u64> },
    Reproduce { record: String },
}

/// Whether a payload is the one of an operation.
pub open spec fn payload_fits(operation: AuditOperation, payload: AuditPayload) -> bool {
    match operation {
        AuditOperation::VerifyChain => payload is VerifyChain,
        AuditOperation::Reproduce => payload is Reproduce,
        _ => payload is Given,
    }
}

/// Whether the audit tool does this for a request, or refuses it so.
pub open spec fn audits(
    operation: AuditOperation,
    payload: AuditPayload,
    caller: Caller,
    step: Result<AuditStep, FacadeError>,
) -> bool {
    match audit_refusal(operation, payload_fits(operation, payload), caller) {
        Some(error) => step == Err::<AuditStep, FacadeError>(error),
        None => match operation {
            AuditOperation::CommandQuery => step == Ok::<_, FacadeError>(AuditStep::QueryCommands),
            AuditOperation::RepairLegacyProbeRow => step == Ok::<_, FacadeError>(
                AuditStep::RepairLegacyProbeRow,
            ),
            AuditOperation::LifecycleEvents => step == Ok::<_, FacadeError>(
                AuditStep::ReadToolEvents,
            ),
            AuditOperation::LifecycleExits => step == Ok::<_, FacadeError>(
                AuditStep::ReadExitEvents,
            ),
            AuditOperation::ProfileIntelligence => step == Ok::<_, FacadeError>(
                AuditStep::QueryProfile,
            ),
            AuditOperation::ExportBundle => step == Ok::<_, FacadeError>(AuditStep::ExportBundle),
            AuditOperation::AdjudicateRawCommitmentSeal => step == Ok::<_, FacadeError>(
                AuditStep::AdjudicateSeal,
            ),
            AuditOperation::VerifyChain => match window_of(
                payload->VerifyChain_from_seq,
                payload->VerifyChain_to_seq,
            ) {
                Err(error) => step == Err::<AuditStep, FacadeError>(error),
                Ok(window) => step == Ok::<_, FacadeError>(
                    AuditStep::VerifyChain { window, read_seq: payload->VerifyChain_read_seq },
                ),
            },
            AuditOperation::Reproduce => if text::is_blank_spec(payload->Reproduce_cx_id@) {
                step == Err::<AuditStep, FacadeError>(FacadeError::RecordIdEmpty)
            } else {
                step matches Ok(AuditStep::Reproduce { record }) && record@ == text::trim_spec(
                    payload->Reproduce_cx_id@,
                )
            },
        },
    }
}

/// Decides what the audit tool does for a request: nothing without its payload or
/// its leave, and what concerns the ledger only on a window or a record that is
/// named in full.
pub fn audit(operation: AuditOperation, payload: AuditPayload, caller: Caller) -> (step: Result<
    AuditStep,
    FacadeError,
>)
    ensures
        audits(operation, payload, caller, step),
{
    let fits: bool = match (operation, &payload) {
        (AuditOperation::VerifyChain, AuditPayload::VerifyChain { .. }) => true,
        (AuditOperation::VerifyChain, _) => false,
        (AuditOperation::Reproduce, AuditPayload::Reproduce { .. }) => true,
        (AuditOperation::Reproduce, _) => false,
        (_, AuditPayload::Given) => true,
        _ => false,
    };
    check_audit(operation, fits, caller)?;
    match operation {
        AuditOperation::CommandQuery => Ok(AuditStep::QueryCommands),
        AuditOperation::RepairLegacyProbeRow => Ok(AuditStep::RepairLegacyProbeRow),
        AuditOperation::LifecycleEvents => Ok(AuditStep::ReadToolEvents),
        AuditOperation::LifecycleExits => Ok(AuditStep::ReadExitEvents),
        AuditOperation::ProfileIntelligence => Ok(AuditStep::QueryProfile),
        AuditOperation::ExportBundle => Ok(AuditStep::ExportBundle),
        AuditOperation::AdjudicateRawCommitmentSeal => Ok(AuditStep::AdjudicateSeal),
        AuditOperation::VerifyChain => match payload {
            AuditPayload::VerifyChain { from_seq, to_seq, read_seq } => {
                let window = verify_window(from_seq, to_seq)?;
                Ok(AuditStep::VerifyChain { window, read_seq })
            },
            _ => Err(FacadeError::MissingPayload),
        },
        AuditOperation::Reproduce => match payload {
            AuditPayload::Reproduce { cx_id } => {
                let record = reproduced_record(cx_id.as_str())?;
                Ok(AuditStep::Reproduce { record })
            },
            _ => Err(FacadeError::MissingPayload),
        },
    }
}

/// An entry of the ledger.
#[derive(Debug)]
pub struct AuditLedgerEntryReadback {
    pub seq: u64,
    pub present: bool,
    pub kind: Option<String>,
    pub subject: Option<String>,
    pub actor: Option<String>,
    pub ts: Option<u64>,
    pub prev_hash: Option<String>,
    pub entry_hash: Option<String>,
    pub payload_len: Option<u64>,
    pub payload_sha256: Option<String>,
    pub self_verifies: Option<bool>,
}

/// What the verification of the ledger found.
#[derive(Debug)]
pub struct LedgerVerifyReport {
    pub intact: bool,
    pub verdict: String,
    pub head_height: u64,
    pub verified_from_seq: u64,
    pub verified_to_seq: u64,
    pub entry_count: u64,
    pub tip_hash: Option<String>,
    pub quarantine_seq: Option<u64>,
    pub broken_expected_hash: Option<String>,
    pub broken_found_hash: Option<String>,
    pub corrupt_reason: Option<String>,
    pub raw_commitments_intact: bool,
    pub raw_commitment_seal_count: u64,
    pub raw_commitment_count: u64,
    pub raw_commitment_sealed_count: u64,
    pub raw_commitment_pending_count: u64,
    pub raw_commitment_coverage_from_seq: Option<u64>,
    pub raw_commitment_sealed_through_seq: Option<u64>,
    pub raw_commitment_first_pending_seq: Option<u64>,
    pub raw_commitment_failure: Option<String>,
    pub raw_commitment_failure_sha256: Option<String>,
    pub raw_commitment_adjudicated_count: u64,
    pub raw_commitment_adjudicated_exceptions: Vec<String>,
    pub raw_commitment_failed_seal_count: u64,
    pub raw_commitment_failed_seal_examples: Vec<String>,
    pub raw_commitment_uncovered_count: u64,
    pub reader_lease_duration_ms: u64,
    pub reader_lease_renewal_count: u64,
    pub covers_full_history: bool,
    pub chain_origin: String,
    pub history_coverage: String,
    pub attested_from_seq: Option<u64>,
    pub vault_generation: u64,
    pub vault_reset_count: u64,
    pub predecessor_vault_id: Option<String>,
    pub predecessor_high_water_seq: Option<u64>,
}

/// What the verification of the ledger is answered with.
#[derive(Debug)]
pub struct AuditVerifyChainResponse {
    pub source_of_truth: String,
    pub report: LedgerVerifyReport,
    pub entry_readback: Option<AuditLedgerEntryReadback>,
}

/// Answers the verification of the ledger.
pub fn verify_chain_response(
    report: LedgerVerifyReport,
    entry: Option<AuditLedgerEntryReadback>,
) -> (response: AuditVerifyChainResponse)
    ensures
        response.source_of_truth@ == LEDGER_SOT@,
        response.report == report,
        response.entry_readback == entry,
{
    AuditVerifyChainResponse {
        source_of_truth: LEDGER_SOT.to_owned(),
        report,
        entry_readback: entry,
    }
}

/// What the reproduction of a record found.
#[derive(Debug)]
pub struct ReproduceReport {
    pub cx_id: String,
    pub reproduced: bool,
    pub recorded_seq: u64,
    pub recorded_hash: String,
    pub input_hash: String,
    pub entry_present: bool,
    pub entry_hash: Option<String>,
    pub entry_self_verifies: bool,
    pub subject_matches: bool,
    pub coverage: String,
    pub coverage_matches: bool,
    pub drift: String,
}

/// What the reproduction of a record is answered with.
#[derive(Debug)]
pub struct AuditReproduceResponse {
    pub source_of_truth: String,
    pub report: ReproduceReport,
}

/// Answers the reproduction of a record.
pub fn reproduce_response(report: ReproduceReport) -> (response: AuditReproduceResponse)
    ensures
        response.source_of_truth@ == LEDGER_SOT@,
        response.report == report,
{
    AuditReproduceResponse { source_of_truth: LEDGER_SOT.to_owned(), report }
}

/// A truth value as text.
pub open spec fn flag_text(flag: bool) -> Seq<char> {
    if flag {
        "true"@
    } else {
        "false"@
    }
}

fn flag_str(flag: bool) -> (text: &'static str)
    ensures
        text@ == flag_text(flag),
{
    if flag {
        "true"
    } else {
        "false"
    }
}

/// A number in decimal notation.
pub open spec fn number_text(number: u64) -> Seq<char> {
    text::decimal_text(number as nat)
}

/// What the readback of a verification says.
pub open spec fn verify_chain_text(report: LedgerVerifyReport) -> Seq<char> {
    "CF_LEDGER verdict="@ + report.verdict@ + " head_height="@ + number_text(report.head_height)
        + " verified=["@ + number_text(report.verified_from_seq) + ".."@ + number_text(
        report.verified_to_seq,
    ) + ") entries="@ + number_text(report.entry_count) + " raw_commitments="@ + number_text(
        report.raw_commitment_count,
    ) + " raw_sealed="@ + number_text(report.raw_commitment_sealed_count) + " raw_pending="@
        + number_text(report.raw_commitment_pending_count) + " raw_seals="@ + number_text(
        report.raw_commitment_seal_count,
    )
}

/// The readback of a verification.
pub fn verify_chain_readback(report: &LedgerVerifyReport) -> (text: String)
    ensures
        text@ == verify_chain_text(*report),
{
    let mut text = joined("CF_LEDGER verdict=", report.verdict.as_str());
    text.append(" head_height=");
    text.append(decimal(report.head_height).as_str());
    text.append(" verified=[");
    text.append(decimal(report.verified_from_seq).as_str());
    text.append("..");
    text.append(decimal(report.verified_to_seq).as_str());
    text.append(") entries=");
    text.append(decimal(report.entry_count).as_str());
    text.append(" raw_commitments=");
    text.append(decimal(report.raw_commitment_count).as_str());
    text.append(" raw_sealed=");
    text.append(decimal(report.raw_commitment_sealed_count).as_str());
    text.append(" raw_pending=");
    text.append(decimal(report.raw_commitment_pending_count).as_str());
    text.append(" raw_seals=");
    text.append(decimal(report.raw_commitment_seal_count).as_str());
    text
}

/// What the readback of a reproduction says.
pub open spec fn reproduce_text(report: ReproduceReport) -> Seq<char> {
    "CF_LEDGER reproduce cx_id="@ + report.cx_id@ + " reproduced="@ + flag_text(report.reproduced)
        + " recorded_seq="@ + number_text(report.recorded_seq) + " drift="@ + report.drift@
}

/// The readback of a reproduction.
pub fn reproduce_readback(report: &ReproduceReport) -> (text: String)
    ensures
        text@ == reproduce_text(*report),
{
    let mut text = joined("CF_LEDGER reproduce cx_id=", report.cx_id.as_str());
    text.append(" reproduced=");
    text.append(flag_str(report.reproduced));
    text.append(" recorded_seq=");
    text.append(decimal(report.recorded_seq).as_str());
    text.append(" drift=");
    text.append(report.drift.as_str());
    text
}

/// The readback of a query over commands.
pub fn command_query_readback(scanned_rows: u64, returned_count: u64) -> (text: String)
    ensures
        text@ == "CF_ACTION_LOG scanned_rows="@ + number_text(scanned_rows) + " returned_count="@
            + number_text(returned_count),
{
    let mut text = joined("CF_ACTION_LOG scanned_rows=", decimal(scanned_rows).as_str());
    text.append(" returned_count=");
    text.append(decimal(returned_count).as_str());
    text
}

/// The readback of a repaired row.
pub fn repair_readback(
    previous_key_sha256: &str,
    source_row_absent: bool,
    repair_key_hex: &str,
) -> (text: String)
    ensures
        text@ == "CF_ACTION_LOG legacy_key_sha256="@ + previous_key_sha256@
            + " source_row_absent="@ + flag_text(source_row_absent) + " repair_key_hex="@
            + repair_key_hex@,
{
    let mut text = joined("CF_ACTION_LOG legacy_key_sha256=", previous_key_sha256);
    text.append(" source_row_absent=");
    text.append(flag_str(source_row_absent));
    text.append(" repair_key_hex=");
    text.append(repair_key_hex);
    text
}

/// The readback of a ledger of the daemon's life.
pub fn lifecycle_readback(path: &str, lines_read: u64, returned_count: u64) -> (text: String)
    ensures
        text@ == path@ + " lines_read="@ + number_text(lines_read) + " returned_count="@
            + number_text(returned_count),
{
    let mut text = joined(path, " lines_read=");
    text.append(decimal(lines_read).as_str());
    text.append(" returned_count=");
    text.append(decimal(returned_count).as_str());
    text
}

/// The readback of what the audit says of a profile.
pub fn profile_readback(profile_id: &str, max_rows: u64) -> (text: String)
    ensures
        text@ == "profile_id="@ + profile_id@ + " max_rows="@ + number_text(max_rows),
{
    let mut text = joined("profile_id=", profile_id);
    text.append(" max_rows=");
    text.append(decimal(max_rows).as_str());
    text
}

/// The readback of an exported bundle.
pub fn export_readback(manifest_path: &str, rows: u64, redacted_fields: u64) -> (text: String)
    ensures
        text@ == "manifest="@ + manifest_path@ + " rows="@ + number_text(rows)
            + " redacted_fields="@ + number_text(redacted_fields),
{
    let mut text = joined("manifest=", manifest_path);
    text.append(" rows=");
    text.append(decimal(rows).as_str());
    text.append(" redacted_fields=");
    text.append(decimal(redacted_fields).as_str());
    text
}

/// The readback of a seal that was set aside.
pub fn adjudication_readback(
    adjudicated_seq: u64,
    adjudication_seq: u64,
    entry_hash: &str,
) -> (text: String)
    ensures
        text@ == "CF_LEDGER adjudicated_seal_seq="@ + number_text(adjudicated_seq)
            + " adjudication_ledger_seq="@ + number_text(adjudication_seq)
            + " adjudication_entry_hash="@ + entry_hash@,
{
    let mut text = joined("CF_LEDGER adjudicated_seal_seq=", decimal(adjudicated_seq).as_str());
    text.append(" adjudication_ledger_seq=");
    text.append(decimal(adjudication_seq).as_str());
    text.append(" adjudication_entry_hash=");
    text.append(entry_hash);
    text
}

/// The readback of an inspected recording.
pub fn artifact_readback(path: &str, bytes: u64, records_read: u64) -> (text: String)
    ensures
        text@ == path@ + " bytes="@ + number_text(bytes) + " records_read="@ + number_text(
            records_read,
        ),
{
    let mut text = joined(path, " bytes=");
    text.append(decimal(bytes).as_str());
    text.append(" records_read=");
    text.append(decimal(records_read).as_str());
    text
}

/// The readback of the state of a demonstration.
pub fn demo_status_readback(source_of_truth: &str, armed: bool, expired_active_row: bool) -> (text:
    String)
    ensures
        text@ == source_of_truth@ + " armed="@ + flag_text(armed) + " expired_active_row="@
            + flag_text(expired_active_row),
{
    let mut text = joined(source_of_truth, " armed=");
    text.append(flag_str(armed));
    text.append(" expired_active_row=");
    text.append(flag_str(expired_active_row));
    text
}

/// The readback of a demonstration that began.
pub fn demo_start_readback(demo_id: &str, persisted: bool, marker_row_written: bool) -> (text: String)
    ensures
        text@ == "demo_id="@ + demo_id@ + " persisted="@ + flag_text(persisted)
            + " marker_row_written="@ + flag_text(marker_row_written),
{
    let mut text = joined("demo_id=", demo_id);
    text.append(" persisted=");
    text.append(flag_str(persisted));
    text.append(" marker_row_written=");
    text.append(flag_str(marker_row_written));
    text
}

/// Who a demonstration is recorded for: the session, or the standard streams
/// where there is none.
pub fn demo_session(session_id: Option<String>) -> (session: String)
    ensures
        session@ == (match session_id {
            Some(id) => id@,
            None => "stdio"@,
        }),
{
    match session_id {
        Some(id) => id,
        None => "stdio".to_owned(),
    }
}

/// What the audit of a command says of its outcome: first that it is pending,
/// then whether it went well.
#[derive(Clone, Copy, Debug, PartialEq, Eq, Structural)]
pub enum CommandStage {
    Intent,
    Succeeded,
    Failed,
}

/// The word for the stage of a command.
pub fn command_status(stage: CommandStage) -> (status: &'static str)
    ensures
        status@ == (match stage {
            CommandStage::Intent => "pending"@,
            CommandStage::Succeeded => "ok"@,
            CommandStage::Failed => "error"@,
        }),
{
    match stage {
        CommandStage::Intent => "pending",
        CommandStage::Succeeded => "ok",
        CommandStage::Failed => "error",
    }
}

/// What an error of the replay tool is about, where the request does not say.
pub fn replay_subject(operation: ReplayOperation, named: Option<String>) -> (subject: Option<String>)
    ensures
        text::opt_text(subject) == (match named {
            Some(name) => Some(name@),
            None => match operation {
                ReplayOperation::Record => Some("default_replay_path"@),
                ReplayOperation::DemoStatus => Some("timeline/demo-record/v1"@),
                ReplayOperation::DemoStop => Some("active_demo_recording"@),
                _ => None,
            },
        }),
{
    match named {
        Some(name) => Some(name),
        None => match operation {
            ReplayOperation::Record => Some("default_replay_path".to_owned()),
            ReplayOperation::DemoStatus => Some("timeline/demo-record/v1".to_owned()),
            ReplayOperation::DemoStop => Some("active_demo_recording".to_owned()),
            _ => None,
        },
    }
}

/// What came back for the audit tool.
#[derive(Debug)]
pub enum AuditReply {
    Commands { scanned_rows: u64, returned_count: u64 },
    Repaired { previous_key_sha256: String, source_row_absent: bool, repair_key_hex: String },
    Lifecycle { path: String, lines_read: u64, returned_count: u64 },
    Profile { profile_id: String, max_rows: u64 },
    Exported { manifest_path: String, rows: u64, redacted_fields: u64 },
    Adjudicated { adjudicated_seq: u64, adjudication_seq: u64, entry_hash: String },
    Verified(LedgerVerifyReport),
    Reproduced(ReproduceReport),
}

/// Tells what came back.
pub fn audit_readback(reply: &AuditReply) -> (text: String)
    ensures
        text@ == (match *reply {
            AuditReply::Commands { scanned_rows, returned_count } => "CF_ACTION_LOG scanned_rows="@
                + number_text(scanned_rows) + " returned_count="@ + number_text(returned_count),
            AuditReply::Repaired { previous_key_sha256, source_row_absent, repair_key_hex } => {
                "CF_ACTION_LOG legacy_key_sha256="@ + previous_key_sha256@ + " source_row_absent="@
                    + flag_text(source_row_absent) + " repair_key_hex="@ + repair_key_hex@
            },
            AuditReply::Lifecycle { path, lines_read, returned_count } => path@ + " lines_read="@
                + number_text(lines_read) + " returned_count="@ + number_text(returned_count),
            AuditReply::Profile { profile_id, max_rows } => "profile_id="@ + profile_id@
                + " max_rows="@ + number_text(max_rows),
            AuditReply::Exported { manifest_path, rows, redacted_fields } => "manifest="@
                + manifest_path@ + " rows="@ + number_text(rows) + " redacted_fields="@
                + number_text(redacted_fields),
            AuditReply::Adjudicated { adjudicated_seq, adjudication_seq, entry_hash } => {
                "CF_LEDGER adjudicated_seal_seq="@ + number_text(adjudicated_seq)
                    + " adjudication_ledger_seq="@ + number_text(adjudication_seq)
                    + " adjudication_entry_hash="@ + entry_hash@
            },
            AuditReply::Verified(report) => verify_chain_text(report),
            AuditReply::Reproduced(report) => reproduce_text(report),
        }),
{
    match reply {
        AuditReply::Commands { scanned_rows, returned_count } => command_query_readback(
            *scanned_rows,
            *returned_count,
        ),
        AuditReply::Repaired { previous_key_sha256, source_row_absent, repair_key_hex } => {
            repair_readback(
                previous_key_sha256.as_str(),
                *source_row_absent,
                repair_key_hex.as_str(),
            )
        },
        AuditReply::Lifecycle { path, lines_read, returned_count } => lifecycle_readback(
            path.as_str(),
            *lines_read,
            *returned_count,
        ),
        AuditReply::Profile { profile_id, max_rows } => profile_readback(
            profile_id.as_str(),
            *max_rows,
        ),
        AuditReply::Exported { manifest_path, rows, redacted_fields } => export_readback(
            manifest_path.as_str(),
            *rows,
            *redacted_fields,
        ),
        AuditReply::Adjudicated { adjudicated_seq, adjudication_seq, entry_hash } => {
            adjudication_readback(*adjudicated_seq, *adjudication_seq, entry_hash.as_str())
        },
        AuditReply::Verified(report) => verify_chain_readback(report),
        AuditReply::Reproduced(report) => reproduce_readback(report),
    }
}

/// Nothing that is audited is changed but for maintenance and with leave to
/// write.
pub proof fn law_audit_changes_need_maintenance(
    operation: AuditOperation,
    payload_given: bool,
    caller: Caller,
)
    requires
        operation.is_maintenance(),
        audit_refusal(operation, payload_given, caller) is None,
    ensures
        payload_given,
        caller.maintenance,
        caller.storage_read,
        caller.storage_write,
{
}

} // verus!
