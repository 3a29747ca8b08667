//! What launches, sources, cursors and chunks are taken for, and what they are refused for.
use crate::digest;
use crate::guarded::RowRead;
use crate::json;
use crate::json::Json;
use crate::text;
use crate::transcripts::chunk;
use crate::transcripts::chunk::{
    ChunkError, ChunkWrite, PointRead, PreparedTranscriptRow, RowPrecondition, RowReadback,
};
use crate::transcripts::cursor;
use crate::transcripts::cursor::{
    BoundaryView, CursorView, FingerprintView, SourceBoundary, SourceFingerprint, SpawnIdError,
    TranscriptCursor,
};
use crate::transcripts::cycle;
use crate::transcripts::cycle::{EntryDecision, EntryError, SpawnEntry};
use crate::transcripts::launch;
use crate::transcripts::launch::{
    CompletionError, LaunchError, LaunchMarker, ManifestError, MarkerState, SeedView,
    SourceMarkers,
};
use crate::transcripts::record::TranscriptSource;
use crate::transcripts::source;
use crate::transcripts::source::{
    BoundaryEvidence, FingerprintEvidence, RangePurpose, RangeRead, ReadStage, RowStamp,
    SourceError,
};
use vstd::prelude::*;
use vstd::string::*;

verus! {

/// The views of a cursor, a fingerprint and a boundary show every field under its own name.
pub proof fn law_cursor_views_show_their_fields(
    cursor: TranscriptCursor,
    fingerprint: SourceFingerprint,
    boundary: SourceBoundary,
)
    ensures
        cursor@.record_version == cursor.record_version,
        cursor@.spawn_id == cursor.spawn_id@,
        cursor@.source == cursor.source,
        cursor@.source_path == cursor.source_path@,
        cursor@.offset_bytes == cursor.offset_bytes,
        cursor@.lines_ingested == cursor.lines_ingested,
        cursor@.parsed_rows == cursor.parsed_rows,
        cursor@.invalid_rows == cursor.invalid_rows,
        cursor@.stream == cursor.stream@,
        cursor@.source_epoch_unix_ms == cursor.source_epoch_unix_ms,
        cursor@.fingerprint == cursor.fingerprint@,
        cursor@.boundary == cursor.boundary@,
        cursor@.source_complete == cursor.source_complete,
        cursor.completed_reason is None ==> cursor@.completed_reason is None,
        cursor.completed_reason is Some ==> cursor@.completed_reason == Some(
            cursor.completed_reason->0@,
        ),
        cursor.end_state_anchor_outcome is None ==> cursor@.end_state_anchor_outcome is None,
        cursor.end_state_anchor_outcome is Some ==> cursor@.end_state_anchor_outcome == Some(
            cursor.end_state_anchor_outcome->0@,
        ),
        cursor@.end_state_anchor_rows == cursor.end_state_anchor_rows,
        cursor.error is None ==> cursor@.error is None,
        cursor.error is Some ==> cursor@.error == Some(cursor.error->0@),
        cursor@.updated_ts_ns == cursor.updated_ts_ns,
        fingerprint@.bytes == fingerprint.bytes,
        fingerprint.sha256 is None ==> fingerprint@.sha256 is None,
        fingerprint.sha256 is Some ==> fingerprint@.sha256 == Some(fingerprint.sha256->0@),
        boundary@.start_offset_bytes == boundary.start_offset_bytes,
        boundary@.bytes == boundary.bytes,
        boundary.sha256 is None ==> boundary@.sha256 is None,
        boundary.sha256 is Some ==> boundary@.sha256 == Some(boundary.sha256->0@),
{
}

/// No marker stands for something that is no file or that cannot be looked at.
pub open spec fn markers_are_plain(markers: SourceMarkers) -> bool {
    let plain = |state: MarkerState| state == MarkerState::Absent || state == MarkerState::File;
    &&& plain(markers.claude_mcp_config)
    &&& plain(markers.claude_hook_settings)
    &&& plain(markers.claude_debug_log)
    &&& plain(markers.codex_app_server_runner)
    &&& plain(markers.codex_control)
    &&& plain(markers.codex_app_server_events)
    &&& plain(markers.codex_notify)
    &&& plain(markers.local_model_runner)
}

/// A launch is of the one kind whose markers are there: an app server's runner, control or
/// events mark the app server whatever the notifier says, and without them the notifier marks
/// the plain codex source. No marker at all is an unknown format; two kinds are ambiguous.
pub proof fn law_launches_are_told_by_their_markers(markers: SourceMarkers)
    requires
        markers_are_plain(markers),
    ensures
        ({
            let there = |state: MarkerState| state == MarkerState::File;
            let stream = there(markers.claude_mcp_config) || there(markers.claude_hook_settings)
                || there(markers.claude_debug_log);
            let server = there(markers.codex_app_server_runner) || there(markers.codex_control)
                || there(markers.codex_app_server_events);
            let notify = there(markers.codex_notify);
            let local = there(markers.local_model_runner);
            &&& launch::detected(markers) == Ok::<TranscriptSource, LaunchError>(
                TranscriptSource::ClaudeStreamJson,
            ) <==> stream && !server && !notify && !local
            &&& launch::detected(markers) == Ok::<TranscriptSource, LaunchError>(
                TranscriptSource::CodexAppServerJsonRpc,
            ) <==> server && !stream && !local
            &&& launch::detected(markers) == Ok::<TranscriptSource, LaunchError>(
                TranscriptSource::CodexExecJson,
            ) <==> notify && !server && !stream && !local
            &&& launch::detected(markers) == Ok::<TranscriptSource, LaunchError>(
                TranscriptSource::LocalModelJson,
            ) <==> local && !stream && !server && !notify
            &&& launch::detected(markers) == Err::<TranscriptSource, LaunchError>(
                LaunchError::FormatUnknown,
            ) <==> !stream && !server && !notify && !local
            &&& launch::detected(markers) is Err && (stream || server || notify || local)
                ==> launch::detected(markers) == Err::<TranscriptSource, LaunchError>(
                LaunchError::Ambiguous,
            )
        }),
{
}

/// A marker that is no file, or that cannot be looked at, refuses the launch by its name: the
/// first of them in the order of the markers, the notifier only where no app server is marked.
pub proof fn law_bad_markers_refuse_the_launch(markers: SourceMarkers)
    ensures
        markers.claude_mcp_config == MarkerState::NotFile ==> launch::detected(markers) == Err::<
            TranscriptSource,
            LaunchError,
        >(LaunchError::MarkerInvalid { marker: LaunchMarker::ClaudeMcpConfig }),
        markers.claude_mcp_config == MarkerState::StatFailed ==> launch::detected(markers) == Err::<
            TranscriptSource,
            LaunchError,
        >(LaunchError::MarkerStatFailed { marker: LaunchMarker::ClaudeMcpConfig }),
        launch::detected(markers) matches Err(LaunchError::MarkerInvalid { marker }) ==> {
            ||| marker == LaunchMarker::ClaudeMcpConfig && markers.claude_mcp_config
                == MarkerState::NotFile
            ||| marker == LaunchMarker::ClaudeHookSettings && markers.claude_hook_settings
                == MarkerState::NotFile
            ||| marker == LaunchMarker::ClaudeDebugLog && markers.claude_debug_log
                == MarkerState::NotFile
            ||| marker == LaunchMarker::CodexAppServerRunner && markers.codex_app_server_runner
                == MarkerState::NotFile
            ||| marker == LaunchMarker::CodexControl && markers.codex_control
                == MarkerState::NotFile
            ||| marker == LaunchMarker::CodexAppServerEvents && markers.codex_app_server_events
                == MarkerState::NotFile
            ||| marker == LaunchMarker::CodexNotify && markers.codex_notify == MarkerState::NotFile
            ||| marker == LaunchMarker::LocalModelRunner && markers.local_model_runner
                == MarkerState::NotFile
        },
        launch::detected(markers) matches Err(LaunchError::MarkerStatFailed { marker }) ==> {
            ||| marker == LaunchMarker::ClaudeMcpConfig && markers.claude_mcp_config
                == MarkerState::StatFailed
            ||| marker == LaunchMarker::ClaudeHookSettings && markers.claude_hook_settings
                == MarkerState::StatFailed
            ||| marker == LaunchMarker::ClaudeDebugLog && markers.claude_debug_log
                == MarkerState::StatFailed
            ||| marker == LaunchMarker::CodexAppServerRunner && markers.codex_app_server_runner
                == MarkerState::StatFailed
            ||| marker == LaunchMarker::CodexControl && markers.codex_control
                == MarkerState::StatFailed
            ||| marker == LaunchMarker::CodexAppServerEvents && markers.codex_app_server_events
                == MarkerState::StatFailed
            ||| marker == LaunchMarker::CodexNotify && markers.codex_notify
                == MarkerState::StatFailed
            ||| marker == LaunchMarker::LocalModelRunner && markers.local_model_runner
                == MarkerState::StatFailed
        },
        launch::detected(markers) is Ok ==> markers_are_plain(markers) || markers.app_server(),
{
}

/// The files that mark a launch, by their names.
pub proof fn law_markers_have_their_names(vendor: Seq<char>)
    ensures
        LaunchMarker::ClaudeMcpConfig.name(vendor) == vendor + "-mcp-config.json"@,
        LaunchMarker::ClaudeHookSettings.name(vendor) == vendor + "-hook-settings.json"@,
        LaunchMarker::ClaudeDebugLog.name(vendor) == vendor + "-debug.log"@,
        LaunchMarker::CodexAppServerRunner.name(vendor) == "codex-app-server-runner.ps1"@,
        LaunchMarker::CodexControl.name(vendor) == "codex-control.json"@,
        LaunchMarker::CodexAppServerEvents.name(vendor) == "codex-app-server-events.jsonl"@,
        LaunchMarker::CodexNotify.name(vendor) == "codex-notify.ps1"@,
        LaunchMarker::LocalModelRunner.name(vendor) == "local-model-runner.json"@,
{
}

/// A manifest names the model without the white space around it and the time of the spawn;
/// each may be missing, but a model that is blank or no string, and a time that is no
/// unsigned number, refuse the manifest.
pub proof fn law_manifests_name_model_and_time(manifest: Json)
    ensures
        ({
            let seed = launch::manifest_seed(Some(manifest));
            let model = json::member(manifest, "model"@);
            let named = json::str_member(manifest, "model"@);
            let time = json::member(manifest, "created_unix_ms"@);
            let stamp = json::u64_member(manifest, "created_unix_ms"@);
            let well_named = model is None || (named is Some && !text::is_blank_spec(named->0));
            let well_timed = time is None || stamp is Some;
            &&& launch::manifest_seed(None) == Err::<SeedView, ManifestError>(ManifestError::NotJson)
            &&& manifest !is Object ==> seed == Err::<SeedView, ManifestError>(
                ManifestError::NotObject,
            )
            &&& manifest is Object && !well_named ==> seed == Err::<SeedView, ManifestError>(
                ManifestError::ModelInvalid,
            )
            &&& manifest is Object && well_named && !well_timed ==> seed == Err::<
                SeedView,
                ManifestError,
            >(ManifestError::CreatedInvalid)
            &&& manifest is Object && well_named && well_timed ==> {
                &&& seed is Ok
                &&& named is Some ==> seed->Ok_0.model == Some(text::trim_spec(named->0))
                &&& named is None ==> seed->Ok_0.model is None
                &&& seed->Ok_0.created_unix_ms == stamp
            }
        }),
{
    if json::str_member(manifest, "model"@) is Some {
        text::law_trimming_strips_white_space(json::str_member(manifest, "model"@)->0);
    }
}

/// A spawn has ended where its status is a string other than `running`.
pub proof fn law_spawns_end_with_their_status(status: Json)
    ensures
        launch::status_terminal(None) == Err::<bool, CompletionError>(CompletionError::NotJson),
        json::str_member(status, "status"@) is None ==> launch::status_terminal(Some(status))
            == Err::<bool, CompletionError>(CompletionError::StatusMissing),
        json::str_member(status, "status"@) == Some("running"@) ==> launch::status_terminal(
            Some(status),
        ) == Ok::<bool, CompletionError>(false),
        json::str_member(status, "status"@) is Some && json::str_member(status, "status"@) != Some(
            "running"@,
        ) ==> launch::status_terminal(Some(status)) == Ok::<bool, CompletionError>(true),
{
}

/// A spawn's id begins with `agent-spawn-`, has at most 128 bytes, and holds ASCII letters,
/// digits and hyphens only. Its cursor stands under its id.
pub proof fn law_spawn_ids_have_their_shape(spawn_id: Seq<char>)
    ensures
        ({
            let refusal = cursor::spawn_id_refusal(spawn_id);
            let bytes = vstd::utf8::encode_utf8(spawn_id).len();
            let begins = text::has_prefix(spawn_id, "agent-spawn-"@);
            let plain = forall|i: int|
                0 <= i < spawn_id.len() ==> {
                    let code = (#[trigger] spawn_id[i]) as int;
                    ||| 0x61 <= code <= 0x7a
                    ||| 0x41 <= code <= 0x5a
                    ||| 0x30 <= code <= 0x39
                    ||| code == 0x2d
                };
            &&& refusal is None <==> begins && bytes <= 128 && plain
            &&& !begins ==> refusal == Some(SpawnIdError::PrefixMissing)
            &&& begins && bytes > 128 ==> refusal == Some(
                SpawnIdError::TooLong { bytes: bytes as usize },
            )
            &&& begins && bytes <= 128 && !plain ==> refusal == Some(SpawnIdError::CharacterInvalid)
        }),
        cursor::cursor_key_spec(spawn_id) == "agent-transcripts/cursor/"@ + spawn_id,
{
    if exists|i: int| 0 <= i < spawn_id.len() && !cursor::is_spawn_char(#[trigger] spawn_id[i]) {
        let i = choose|i: int|
            0 <= i < spawn_id.len() && !cursor::is_spawn_char(#[trigger] spawn_id[i]);
        let code = spawn_id[i] as int;
        assert(!(0x61 <= code <= 0x7a || 0x41 <= code <= 0x5a || 0x30 <= code <= 0x39 || code
            == 0x2d));
    } else {
        assert forall|i: int| 0 <= i < spawn_id.len() implies {
            let code = (#[trigger] spawn_id[i]) as int;
            ||| 0x61 <= code <= 0x7a
            ||| 0x41 <= code <= 0x5a
            ||| 0x30 <= code <= 0x39
            ||| code == 0x2d
        } by {
            assert(cursor::is_spawn_char(spawn_id[i]));
        }
    }
}

/// A stored cursor is a spawn's where it has the known version and the id of the spawn, and
/// names a source.
pub proof fn law_stored_cursors_are_of_their_spawn(stored: CursorView, spawn_id: Seq<char>)
    ensures
        cursor::cursor_is_for(stored, spawn_id) <==> stored.record_version == 1 && stored.spawn_id
            == spawn_id && text::trim_spec(stored.source_path).len() > 0,
{
    text::law_trimming_strips_white_space(stored.source_path);
}

/// An entry of the spawn root is ingested where its name is a spawn's id and it is a
/// directory; an entry whose name does not begin as a spawn's is none of ours; every other
/// entry is refused.
pub proof fn law_spawn_directories_are_ingested(name: String, is_dir: Option<bool>)
    ensures
        ({
            let decision = cycle::entry_decision(SpawnEntry::Named { name, is_dir });
            let begins = text::has_prefix(name@, "agent-spawn-"@);
            let refusal = cursor::spawn_id_refusal(name@);
            &&& !begins ==> decision == EntryDecision::Ignore
            &&& begins && refusal is Some ==> decision == EntryDecision::Refuse(
                EntryError::SpawnIdInvalid(refusal->0),
            )
            &&& refusal is None && is_dir is None ==> decision == EntryDecision::Refuse(
                EntryError::TypeFailed,
            )
            &&& refusal is None && is_dir == Some(false) ==> decision == EntryDecision::Refuse(
                EntryError::NotDirectory,
            )
            &&& refusal is None && is_dir == Some(true) ==> decision == EntryDecision::Ingest
        }),
        cycle::entry_decision(SpawnEntry::EnumerationFailed) == EntryDecision::Refuse(
            EntryError::EnumerationFailed,
        ),
        cycle::entry_decision(SpawnEntry::NameNotUtf8) == EntryDecision::Refuse(
            EntryError::NameNotUtf8,
        ),
{
}

/// A fingerprint is the digest of the first bytes of a source: as many as it was taken with,
/// or else the whole source up to 65536 bytes. It is refused of no bytes or more than that, of
/// more than the source has, and where the read failed or gave another number of bytes.
pub proof fn law_fingerprints_are_digests_of_the_front(
    snapshot_size_bytes: u64,
    expected_bytes: Option<u64>,
    read: RangeRead,
)
    ensures
        ({
            let print = source::fingerprint_spec(snapshot_size_bytes, expected_bytes, read);
            let bytes = if expected_bytes is Some {
                expected_bytes->0
            } else if snapshot_size_bytes <= 65_536 {
                snapshot_size_bytes
            } else {
                65_536
            };
            let sized = 1 <= bytes && bytes <= 65_536;
            &&& !sized ==> print == Err::<FingerprintView, SourceError>(
                SourceError::FingerprintLengthInvalid { bytes },
            )
            &&& sized && bytes > snapshot_size_bytes ==> print == Err::<
                FingerprintView,
                SourceError,
            >(SourceError::FingerprintTruncated { snapshot_size_bytes, bytes })
            &&& sized && bytes <= snapshot_size_bytes ==> match read {
                RangeRead::Failed(stage) => print == Err::<FingerprintView, SourceError>(
                    SourceError::FingerprintReadFailed { stage },
                ),
                RangeRead::Bytes(found) => {
                    &&& found@.len() != bytes ==> print == Err::<FingerprintView, SourceError>(
                        SourceError::FingerprintReadFailed { stage: ReadStage::Read },
                    )
                    &&& found@.len() == bytes ==> print is Ok && print->Ok_0.bytes == Some(bytes)
                        && print->Ok_0.sha256 == Some(
                        digest::hex_text(digest::sha256_digest(found@)),
                    )
                },
            }
        }),
{
}

/// A source is the one that a cursor has seen where its front still has the digest that the
/// cursor holds; the cursor keeps its fingerprint. A digest that is none is invalid, another
/// front is another source, and half a fingerprint is refused.
pub proof fn law_known_fronts_keep_their_fingerprint(
    fingerprint: FingerprintView,
    source_id: Seq<char>,
    snapshot_size_bytes: u64,
    cursor_offset_bytes: u64,
    evidence: FingerprintEvidence,
)
    ensures
        ({
            let ensured = source::ensured_fingerprint(
                fingerprint,
                source_id,
                snapshot_size_bytes,
                cursor_offset_bytes,
                evidence,
            );
            let held = fingerprint.sha256;
            let found = source::fingerprint_spec(
                snapshot_size_bytes,
                fingerprint.bytes,
                evidence.prefix,
            );
            let whole = fingerprint.bytes is Some && held is Some;
            let half = fingerprint.bytes is Some && held is None || fingerprint.bytes is None
                && held is Some;
            &&& half ==> ensured == Err::<FingerprintView, SourceError>(
                SourceError::FingerprintPartial,
            )
            &&& whole && !digest::is_lower_sha256_spec(held->0) ==> ensured == Err::<
                FingerprintView,
                SourceError,
            >(SourceError::FingerprintInvalid)
            &&& whole && digest::is_lower_sha256_spec(held->0) && found is Err ==> ensured == found
            &&& whole && digest::is_lower_sha256_spec(held->0) && found is Ok && found->Ok_0.sha256
                == held ==> ensured == Ok::<FingerprintView, SourceError>(fingerprint)
            &&& whole && digest::is_lower_sha256_spec(held->0) && found is Ok && found->Ok_0.sha256
                != held ==> ensured == Err::<FingerprintView, SourceError>(
                SourceError::IdentityMismatch,
            )
            &&& !half && !whole && cursor_offset_bytes == 0 ==> ensured == Ok::<
                FingerprintView,
                SourceError,
            >(fingerprint)
            &&& !half && !whole && cursor_offset_bytes > 0 ==> match source::migration_refusal(
                evidence,
                source_id,
            ) {
                Some(error) => ensured == Err::<FingerprintView, SourceError>(error),
                None => ensured == found,
            }
        }),
{
}

/// A row stands for a line where it is of the source, has the number of the line, its length
/// and its digest.
pub proof fn law_rows_stand_for_their_line(
    row: RowStamp,
    source_id: Seq<char>,
    line_no: u64,
    line: Seq<u8>,
)
    ensures
        source::stamps_line(row, source_id, line_no, line) <==> row.spawn_id@ == source_id
            && row.line_no == line_no && row.raw_line_bytes == line.len() && row.raw_line_sha256@
            == digest::hex_text(digest::sha256_digest(line)),
{
}

/// A boundary is the digest of the last bytes before the cursor, up to 65536 of them; a cursor
/// at the beginning has none.
pub proof fn law_boundaries_are_digests_before_the_cursor(
    snapshot_size_bytes: u64,
    cursor_offset_bytes: u64,
    read: RangeRead,
)
    ensures
        ({
            let edge = source::boundary_spec(snapshot_size_bytes, cursor_offset_bytes, read);
            let bytes = if cursor_offset_bytes <= 65_536 {
                cursor_offset_bytes
            } else {
                65_536
            };
            let start = (cursor_offset_bytes - bytes) as u64;
            &&& cursor_offset_bytes == 0 ==> edge == Err::<BoundaryView, SourceError>(
                SourceError::BoundaryOffsetInvalid,
            )
            &&& cursor_offset_bytes > snapshot_size_bytes ==> edge == Err::<
                BoundaryView,
                SourceError,
            >(SourceError::RangeTruncated { purpose: RangePurpose::Boundary })
            &&& 0 < cursor_offset_bytes && cursor_offset_bytes <= snapshot_size_bytes ==> match read {
                RangeRead::Failed(stage) => edge == Err::<BoundaryView, SourceError>(
                    SourceError::RangeReadFailed { purpose: RangePurpose::Boundary, stage },
                ),
                RangeRead::Bytes(found) => {
                    &&& found@.len() != bytes ==> edge == Err::<BoundaryView, SourceError>(
                        SourceError::RangeReadFailed {
                            purpose: RangePurpose::Boundary,
                            stage: ReadStage::Read,
                        },
                    )
                    &&& found@.len() == bytes ==> edge is Ok && edge->Ok_0.start_offset_bytes
                        == Some(start) && edge->Ok_0.bytes == Some(bytes) && edge->Ok_0.sha256
                        == Some(digest::hex_text(digest::sha256_digest(found@)))
                },
            }
        }),
{
}

/// A range can be read that is not empty and ends within the source.
pub proof fn law_ranges_lie_within_the_source(
    snapshot_size_bytes: u64,
    start_offset_bytes: u64,
    bytes: u64,
    purpose: RangePurpose,
    read: RangeRead,
)
    ensures
        ({
            let found = source::range_spec(
                snapshot_size_bytes,
                start_offset_bytes,
                bytes,
                purpose,
                read,
            );
            let end = start_offset_bytes + bytes;
            &&& bytes == 0 ==> found == Err::<Seq<u8>, SourceError>(
                SourceError::RangeLengthInvalid { purpose },
            )
            &&& bytes > 0 && end > 0xffff_ffff_ffff_ffff ==> found == Err::<Seq<u8>, SourceError>(
                SourceError::RangeOffsetOverflow { purpose },
            )
            &&& bytes > 0 && end <= 0xffff_ffff_ffff_ffff && end > snapshot_size_bytes ==> found
                == Err::<Seq<u8>, SourceError>(SourceError::RangeTruncated { purpose })
            &&& bytes > 0 && end <= snapshot_size_bytes ==> match read {
                RangeRead::Failed(stage) => found == Err::<Seq<u8>, SourceError>(
                    SourceError::RangeReadFailed { purpose, stage },
                ),
                RangeRead::Bytes(content) => {
                    &&& content@.len() == bytes ==> found == Ok::<Seq<u8>, SourceError>(content@)
                    &&& content@.len() != bytes ==> found == Err::<Seq<u8>, SourceError>(
                        SourceError::RangeReadFailed { purpose, stage: ReadStage::Read },
                    )
                },
            }
        }),
{
}

/// A cursor in the middle of a source that holds a boundary keeps it where the bytes before the
/// cursor are the ones that the boundary names and still have its digest; a cursor at the
/// beginning has no lines and no boundary; part of a boundary is refused.
pub proof fn law_known_boundaries_are_kept(
    boundary: BoundaryView,
    source_id: Seq<char>,
    snapshot_size_bytes: u64,
    cursor_offset_bytes: u64,
    lines_ingested: u64,
    evidence: BoundaryEvidence,
)
    ensures
        ({
            let ensured = source::ensured_boundary(
                boundary,
                source_id,
                snapshot_size_bytes,
                cursor_offset_bytes,
                lines_ingested,
                evidence,
            );
            let start = boundary.start_offset_bytes;
            let length = boundary.bytes;
            let held = boundary.sha256;
            let whole = start is Some && length is Some && held is Some;
            let empty = start is None && length is None && held is None;
            let found = source::boundary_spec(
                snapshot_size_bytes,
                cursor_offset_bytes,
                evidence.boundary,
            );
            let same = found is Ok && found->Ok_0.start_offset_bytes == start && found->Ok_0.bytes
                == length && digest::is_lower_sha256_spec(held->0);
            let inside = cursor_offset_bytes > 0 && lines_ingested > 0;
            &&& cursor_offset_bytes == 0 && lines_ingested == 0 && empty ==> ensured == Ok::<
                BoundaryView,
                SourceError,
            >(boundary)
            &&& cursor_offset_bytes == 0 && !(lines_ingested == 0 && empty) ==> ensured == Err::<
                BoundaryView,
                SourceError,
            >(SourceError::BoundaryZeroOffsetInvalid)
            &&& cursor_offset_bytes > 0 && lines_ingested == 0 ==> ensured == Err::<
                BoundaryView,
                SourceError,
            >(SourceError::BoundaryCounterInvalid)
            &&& inside && !whole && !empty ==> ensured == Err::<BoundaryView, SourceError>(
                SourceError::BoundaryPartial,
            )
            &&& inside && whole && found is Err ==> ensured == found
            &&& inside && whole && found is Ok && !same ==> ensured == Err::<
                BoundaryView,
                SourceError,
            >(SourceError::BoundaryInvalid)
            &&& inside && whole && same && found->Ok_0.sha256 != held ==> ensured == Err::<
                BoundaryView,
                SourceError,
            >(SourceError::BoundaryMismatch)
            &&& inside && whole && same && found->Ok_0.sha256 == held ==> ensured == Ok::<
                BoundaryView,
                SourceError,
            >(boundary)
            &&& inside && empty ==> match source::legacy_refusal(
                source_id,
                snapshot_size_bytes,
                cursor_offset_bytes,
                lines_ingested,
                evidence,
            ) {
                Some(error) => ensured == Err::<BoundaryView, SourceError>(error),
                None => ensured == found,
            }
        }),
{
}

proof fn lemma_line_start(bytes: Seq<u8>, end: int)
    requires
        0 <= end <= bytes.len(),
    ensures
        0 <= source::line_start_before(bytes, end) <= end,
        forall|i: int|
            source::line_start_before(bytes, end) <= i < end ==> #[trigger] bytes[i] != 10,
        source::line_start_before(bytes, end) > 0 ==> bytes[source::line_start_before(bytes, end)
            - 1] == 10,
    decreases end,
{
    if end > 0 && bytes[end - 1] != 10 {
        lemma_line_start(bytes, end - 1);
    }
}

/// The last line of bytes that end with a line feed stands between the feed before it, or the
/// beginning, and the terminator, which may begin with a carriage return; it holds no feed.
pub proof fn law_last_lines_stand_before_their_terminator(bytes: Seq<u8>)
    requires
        bytes.len() > 0,
        bytes.last() == 10,
    ensures
        exists|start: int, end: int|
            0 <= start <= end < bytes.len() && source::last_line(bytes) == #[trigger] bytes.subrange(
                start,
                end,
            ) && (start > 0 ==> bytes[start - 1] == 10) && (forall|i: int|
                start <= i < end ==> #[trigger] bytes[i] != 10) && (end == bytes.len() - 1 || (end
                == bytes.len() - 2 && bytes[end] == 13)),
        bytes.len() > 1 && bytes[bytes.len() - 2] == 13 ==> source::last_line_end(bytes)
            == bytes.len() - 2,
        bytes.len() == 1 || bytes[bytes.len() - 2] != 13 ==> source::last_line_end(bytes)
            == bytes.len() - 1,
{
    let end = source::last_line_end(bytes);
    lemma_line_start(bytes, end);
    let start = source::line_start_before(bytes, end);
    assert(source::last_line(bytes) == bytes.subrange(start, end));
}

/// One row more makes a chunk longer by the bytes of the row; a chunk has at most 64 rows and
/// two mebibytes.
pub proof fn law_chunks_are_bounded(rows: Seq<PreparedTranscriptRow>, row: PreparedTranscriptRow)
    ensures
        chunk::encoded_bytes(Seq::<PreparedTranscriptRow>::empty()) == 0,
        chunk::encoded_bytes(rows.push(row)) == chunk::encoded_bytes(rows) + row.encoded@.len(),
        chunk::size_refusal(rows) is None <==> rows.len() <= 64 && chunk::encoded_bytes(rows)
            <= 2 * 1024 * 1024,
        rows.len() > 64 ==> chunk::size_refusal(rows) == Some(
            ChunkError::TooManyRows { rows: rows.len() as usize },
        ),
{
    assert(rows.push(row).drop_last() =~= rows);
    assert(64 * 32 * 1024 == 2 * 1024 * 1024);
}

/// A row may be written where its place and that of its index entry are each empty or hold just
/// what would be written; a place that cannot be read and one that holds anything else refuse
/// it.
pub proof fn law_rows_are_written_into_free_places(
    row: PreparedTranscriptRow,
    precondition: RowPrecondition,
)
    ensures
        ({
            let refusal = chunk::precondition_refusal(row, precondition);
            let line_no = row.record.line_no;
            let fits = |read: RowRead, expected: Seq<u8>|
                read is Absent || (read matches RowRead::Found { value: Some(value), .. } && value@
                    == expected);
            let row_fits = fits(precondition.source, row.encoded@);
            let index_fits = fits(precondition.index, row.source_key@);
            &&& refusal is None <==> row_fits && index_fits
            &&& precondition.source is Failed ==> refusal == Some(
                ChunkError::RowPreconditionReadFailed { line_no },
            )
            &&& precondition.source !is Failed && !row_fits ==> refusal == Some(
                ChunkError::RowIdentityConflict { line_no },
            )
            &&& row_fits && precondition.index is Failed ==> refusal == Some(
                ChunkError::IndexPreconditionReadFailed { line_no },
            )
            &&& row_fits && precondition.index !is Failed && !index_fits ==> refusal == Some(
                ChunkError::IndexIdentityConflict { line_no },
            )
        }),
{
}

/// A written row is proved where it and its index entry read back just as they were written and
/// its measurement was published; what failed first is named.
pub proof fn law_written_rows_read_back(row: PreparedTranscriptRow, readback: RowReadback)
    ensures
        ({
            let refusal = chunk::readback_refusal(row, readback);
            let line_no = row.record.line_no;
            let row_back = readback.source matches PointRead::Value(value) && value@ == row.encoded@;
            let index_back = readback.index matches PointRead::Value(value) && value@
                == row.source_key@;
            &&& refusal is None <==> row_back && index_back && readback.measured
            &&& readback.source is Failed ==> refusal == Some(
                ChunkError::RowReadbackFailed { line_no },
            )
            &&& readback.source !is Failed && !row_back ==> refusal == Some(
                ChunkError::RowReadbackMismatch { line_no },
            )
            &&& row_back && readback.index is Failed ==> refusal == Some(
                ChunkError::IndexReadbackFailed { line_no },
            )
            &&& row_back && readback.index !is Failed && !index_back ==> refusal == Some(
                ChunkError::IndexReadbackMismatch { line_no },
            )
            &&& row_back && index_back && !readback.measured ==> refusal == Some(
                ChunkError::ConstellationMeasurementFailed { line_no },
            )
        }),
{
}

proof fn lemma_readbacks(rows: Seq<PreparedTranscriptRow>, readbacks: Seq<RowReadback>)
    requires
        readbacks.len() == rows.len(),
    ensures
        chunk::readbacks_refusal(rows, readbacks) is None <==> forall|i: int|
            0 <= i < rows.len() ==> chunk::readback_refusal(#[trigger] rows[i], readbacks[i]) is None,
    decreases rows.len(),
{
    if rows.len() > 0 {
        let shorter = rows.drop_last();
        let fewer = readbacks.drop_last();
        lemma_readbacks(shorter, fewer);
        assert(forall|i: int| 0 <= i < shorter.len() ==> shorter[i] == rows[i] && fewer[i]
            == readbacks[i]);
        if chunk::readbacks_refusal(rows, readbacks) is None {
            assert forall|i: int| 0 <= i < rows.len() implies chunk::readback_refusal(
                #[trigger] rows[i],
                readbacks[i],
            ) is None by {
                if i < shorter.len() {
                    assert(chunk::readback_refusal(shorter[i], fewer[i]) is None);
                }
            }
        }
        if forall|i: int|
            0 <= i < rows.len() ==> chunk::readback_refusal(#[trigger] rows[i], readbacks[i]) is None {
            assert(chunk::readback_refusal(rows[rows.len() - 1], readbacks[rows.len() - 1]) is None);
            assert forall|i: int| 0 <= i < shorter.len() implies chunk::readback_refusal(
                #[trigger] shorter[i],
                fewer[i],
            ) is None by {
                assert(chunk::readback_refusal(rows[i], readbacks[i]) is None);
            }
        }
    }
}

proof fn lemma_preconditions(rows: Seq<PreparedTranscriptRow>, given: Seq<RowPrecondition>)
    requires
        given.len() == rows.len(),
    ensures
        chunk::preconditions_refusal(rows, given) is None <==> forall|i: int|
            0 <= i < rows.len() ==> chunk::precondition_refusal(#[trigger] rows[i], given[i]) is None,
    decreases rows.len(),
{
    if rows.len() > 0 {
        let shorter = rows.drop_last();
        let fewer = given.drop_last();
        lemma_preconditions(shorter, fewer);
        assert(forall|i: int| 0 <= i < shorter.len() ==> shorter[i] == rows[i] && fewer[i]
            == given[i]);
        if chunk::preconditions_refusal(rows, given) is None {
            assert forall|i: int| 0 <= i < rows.len() implies chunk::precondition_refusal(
                #[trigger] rows[i],
                given[i],
            ) is None by {
                if i < shorter.len() {
                    assert(chunk::precondition_refusal(shorter[i], fewer[i]) is None);
                }
            }
        }
        if forall|i: int|
            0 <= i < rows.len() ==> chunk::precondition_refusal(#[trigger] rows[i], given[i]) is None {
            assert(chunk::precondition_refusal(rows[rows.len() - 1], given[rows.len() - 1]) is None);
            assert forall|i: int| 0 <= i < shorter.len() implies chunk::precondition_refusal(
                #[trigger] shorter[i],
                fewer[i],
            ) is None by {
                assert(chunk::precondition_refusal(rows[i], given[i]) is None);
            }
        }
    }
}

/// A chunk with rows is committed exactly where it is within its bounds, every row may be
/// written, the write was applied, and every row reads back.
pub proof fn law_committed_chunks_are_proved(
    rows: Seq<PreparedTranscriptRow>,
    preconditions: Seq<RowPrecondition>,
    write: ChunkWrite,
    readbacks: Seq<RowReadback>,
)
    requires
        rows.len() > 0,
    ensures
        ({
            let refusal = chunk::commit_refusal(rows, preconditions, write, readbacks);
            let planned = chunk::size_refusal(rows) is None && preconditions.len() == rows.len() && (
            forall|i: int|
                0 <= i < rows.len() ==> chunk::precondition_refusal(
                    #[trigger] rows[i],
                    preconditions[i],
                ) is None);
            let proved = readbacks.len() == rows.len() && (forall|i: int|
                0 <= i < rows.len() ==> chunk::readback_refusal(
                    #[trigger] rows[i],
                    readbacks[i],
                ) is None);
            &&& refusal is None <==> planned && write == ChunkWrite::Applied && proved
            &&& planned && write == ChunkWrite::Failed ==> refusal == Some(
                ChunkError::RowsWriteFailed,
            )
            &&& planned && write == ChunkWrite::Conflict ==> refusal == Some(
                ChunkError::RowsRevisionConflict,
            )
        }),
{
    if preconditions.len() == rows.len() {
        lemma_preconditions(rows, preconditions);
    }
    if readbacks.len() == rows.len() {
        lemma_readbacks(rows, readbacks);
    }
}

} // verus!
