use synapse_agents::browser::codes::{dnd_code, upload_code};
use synapse_agents::browser::dnd::{
    BrowserDndMode, BrowserDndParams, DeliveryOrigin, DndError, GeometryVerdict,
    NormalizedBrowserDndParams, SelectorName, SessionTarget, dispatch_expression_of, dispatch_parts,
    dnd_provenance, drag_data, drag_mime, geometry_expression, geometry_expression_of,
    geometry_wait_budget_ms, judge_geometry, resolve_browser_dnd_target, validate_browser_dnd_params,
};
use synapse_agents::browser::files::{
    BrowserFileUploadOperation, BrowserFileUploadParams, ElementReading, InputLocator, PathCheck,
    UploadError, UploadField, browser_file_upload_operation_name, check_upload_target, element_input,
    input_locator, located_input, path_to_chrome_string, validate_browser_file_upload_params,
};
use synapse_agents::browser::run::{DndAction, DndRun, RunFailure, UploadAction, UploadRun};
use synapse_agents::facades::{
    AuditOperation, AuditPayload, AuditReply, AuditStep, Caller, CommandStage, FacadeError,
    LedgerVerifyReport, ReplayOperation, ReproduceReport, adjudication_readback, artifact_readback,
    audit, audit_readback, check_audit, command_query_readback, command_status, demo_session,
    demo_start_readback, demo_status_readback, export_readback, lifecycle_readback,
    profile_readback, repair_readback, replay_subject, reproduce_readback, reproduce_response,
    reproduced_record, verify_chain_readback, verify_chain_response, verify_window,
};
use synapse_agents::replays::{
    ReplayAction, ReplayFailure, ReplayReply, ReplayStage, replay, replay_readback,
};

fn dnd_params() -> BrowserDndParams {
    BrowserDndParams {
        source_selector: " #a ".to_owned(),
        target_selector: "#b".to_owned(),
        mode: None,
        steps: None,
        duration_ms: None,
        data_mime_type: None,
        data_text: None,
        cdp_target_id: None,
        window_hwnd: None,
        wait_timeout_ms: None,
        auto_wait: None,
        auto_wait_timeout_ms: None,
    }
}

fn dnd() -> NormalizedBrowserDndParams {
    validate_browser_dnd_params(&dnd_params(), BrowserDndMode::Html5).unwrap()
}

fn dnd_refusal(params: BrowserDndParams) -> DndError {
    validate_browser_dnd_params(&params, BrowserDndMode::Mouse).unwrap_err()
}

#[test]
fn drags_have_their_defaults() {
    let dnd = dnd();
    assert!(matches!(dnd.mode, BrowserDndMode::Html5));
    assert_eq!((dnd.source_selector.as_str(), dnd.target_selector.as_str()), ("#a", "#b"));
    assert_eq!((dnd.steps, dnd.duration_ms), (12, 350));
    assert_eq!((dnd.wait_timeout_ms, dnd.auto_wait_timeout_ms, dnd.auto_wait), (5_000, 2_000, true));
    assert_eq!(geometry_wait_budget_ms(&dnd), 2_000);
    assert_eq!(drag_mime(&dnd), "text/plain");
    assert_eq!(drag_data(&dnd, "seen"), "seen");
}

#[test]
fn drags_out_of_range_are_refused() {
    let with = |change: fn(&mut BrowserDndParams)| {
        let mut params = dnd_params();
        change(&mut params);
        dnd_refusal(params)
    };
    assert_eq!(
        with(|params| params.source_selector = " ".to_owned()),
        DndError::SelectorEmpty { name: SelectorName::Source }
    );
    assert_eq!(
        with(|params| params.target_selector = "x".repeat(4_097)),
        DndError::SelectorTooLong { name: SelectorName::Target }
    );
    assert_eq!(with(|params| params.steps = Some(0)), DndError::StepsOutOfRange { steps: 0 });
    assert_eq!(with(|params| params.steps = Some(101)), DndError::StepsOutOfRange { steps: 101 });
    assert_eq!(
        with(|params| params.duration_ms = Some(10_001)),
        DndError::DurationOutOfRange { duration_ms: 10_001 }
    );
    assert_eq!(
        with(|params| params.wait_timeout_ms = Some(49)),
        DndError::WaitTimeoutOutOfRange { wait_timeout_ms: 49 }
    );
    assert_eq!(
        with(|params| params.auto_wait_timeout_ms = Some(30_001)),
        DndError::AutoWaitTimeoutOutOfRange { auto_wait_timeout_ms: 30_001 }
    );
    assert_eq!(
        with(|params| params.data_mime_type = Some("m".repeat(256))),
        DndError::MimeTypeTooLong
    );
    assert_eq!(
        with(|params| params.data_text = Some("d".repeat(16_385))),
        DndError::DataTextTooLong
    );
}

#[test]
fn drags_need_a_page_that_can_be_driven() {
    let page = |id: &str| SessionTarget::Cdp { window_hwnd: 7, cdp_target_id: id.to_owned() };
    assert_eq!(resolve_browser_dnd_target(page("T1"), true), Ok((7, "T1".to_owned())));
    assert_eq!(
        resolve_browser_dnd_target(page("T1"), false),
        Err(DndError::EndpointUnreachable)
    );
    assert_eq!(
        resolve_browser_dnd_target(page("chrome-tab:3"), true),
        Err(DndError::TargetForbidsDebugging)
    );
    assert_eq!(
        resolve_browser_dnd_target(SessionTarget::Window, true),
        Err(DndError::TargetIsWindow)
    );
    assert_eq!(resolve_browser_dnd_target(SessionTarget::Unset, true), Err(DndError::TargetNotSet));
}

#[test]
fn geometry_is_waited_for_within_its_budget() {
    let dnd = dnd();
    assert_eq!(judge_geometry(&dnd, true, "", 9_999), GeometryVerdict::Ready);
    assert_eq!(judge_geometry(&dnd, false, "hidden", 1_999), GeometryVerdict::Wait);
    assert_eq!(
        judge_geometry(&dnd, false, "hidden", 2_000),
        GeometryVerdict::Refuse(DndError::NotActionable)
    );
    assert_eq!(
        judge_geometry(&dnd, false, "invalid_selector: x", 0),
        GeometryVerdict::Refuse(DndError::NotActionable)
    );
}

#[test]
fn expressions_quote_what_they_are_given() {
    let mut dnd = dnd();
    dnd.source_selector = "a[title=\"x\"]".to_owned();
    let expression = geometry_expression(&dnd).unwrap();
    assert!(expression.contains(r##""a[title=\"x\"]""##));
    assert_eq!(expression, geometry_expression_of(r##""a[title=\"x\"]""##, r##""#b""##));
    dnd.data_text = Some("é".to_owned());
    let parts = dispatch_parts(&dnd, "seen", "T1").unwrap();
    assert_eq!(parts.data, "\"é\"");
    assert_eq!(parts.data_length, 2);
    assert_eq!(parts.mime, "\"text/plain\"");
    let expression = dispatch_expression_of(&parts);
    assert!(expression.contains("data_length:2"));
    assert!(expression.contains("\"T1\""));
}

#[test]
fn quoting_escapes_what_a_json_string_cannot_hold() {
    let quoted = |data: &str| {
        let mut dnd = dnd();
        dnd.data_text = Some(data.to_owned());
        dispatch_parts(&dnd, "seen", "T1").unwrap().data
    };
    assert_eq!(quoted(""), "\"\"");
    assert_eq!(quoted("a\"b\\c/d"), r#""a\"b\\c/d""#);
    assert_eq!(quoted("\u{8}\t\n\u{c}\r"), r#""\b\t\n\f\r""#);
    assert_eq!(quoted("\0\u{1}\u{b}\u{1f}"), r#""\u0000\u0001\u000b\u001f""#);
    assert_eq!(quoted(" ~\u{7f}\u{80}é\u{2028}"), "\" ~\u{7f}\u{80}é\u{2028}\"");
}

#[test]
fn each_way_to_drag_says_where_it_comes_from() {
    let real = dnd_provenance(BrowserDndMode::Html5Real);
    assert!(real.trusted && real.user_agent_input);
    assert_eq!(real.protocol_method, "Input.dispatchDragEvent(dragEnter,dragOver,drop)");
    let synthetic = dnd_provenance(BrowserDndMode::Html5);
    assert!(!synthetic.trusted);
    assert!(matches!(synthetic.delivery_origin, DeliveryOrigin::DomDispatch));
    assert!(dnd_provenance(BrowserDndMode::Mouse).trusted);
}

fn upload_params(operation: BrowserFileUploadOperation) -> BrowserFileUploadParams {
    BrowserFileUploadParams {
        operation,
        files: Vec::new(),
        selector: None,
        element_id: None,
        active_element: false,
        cdp_target_id: None,
        window_hwnd: None,
        since_seq: None,
        limit: None,
    }
}

fn upload_refusal(params: &BrowserFileUploadParams, checks: &Vec<PathCheck>) -> UploadError {
    validate_browser_file_upload_params(params, true, checks).unwrap_err()
}

#[test]
fn uploads_name_one_input_and_readable_files() {
    let mut params = upload_params(BrowserFileUploadOperation::SetFiles);
    params.selector = Some(" input ".to_owned());
    params.files = vec!["a.txt".to_owned()];
    let regular = vec![PathCheck::Regular("/w/a.txt".to_owned())];
    let upload = validate_browser_file_upload_params(&params, true, &regular).unwrap();
    assert_eq!(upload.files, ["/w/a.txt"]);
    assert_eq!(upload.selector.as_deref(), Some("input"));
    assert_eq!(upload.limit, 20);
    assert_eq!(input_locator(&upload), Some(InputLocator::Selector));
    for (check, error) in [
        (PathCheck::Unresolvable, UploadError::FileUnresolvable { index: 0 }),
        (PathCheck::Unreadable, UploadError::FileUnreadable { index: 0 }),
        (PathCheck::NotRegular, UploadError::FileNotRegular { index: 0 }),
    ] {
        assert_eq!(upload_refusal(&params, &vec![check]), error);
    }
    params.files = vec!["a\0".to_owned()];
    assert_eq!(upload_refusal(&params, &regular), UploadError::FileHasNul { index: 0 });
    params.files = vec![" ".to_owned()];
    assert_eq!(upload_refusal(&params, &regular), UploadError::FileEmpty { index: 0 });
    params.files = vec!["a".to_owned(); 257];
    assert_eq!(upload_refusal(&params, &regular), UploadError::TooManyFiles { files: 257 });
    params.files = Vec::new();
    assert_eq!(upload_refusal(&params, &regular), UploadError::FilesRequired);
    params.active_element = true;
    assert_eq!(upload_refusal(&params, &regular), UploadError::LocatorRequired);
    params.selector = Some("x\0".to_owned());
    assert_eq!(
        upload_refusal(&params, &regular),
        UploadError::FieldHasNul { field: UploadField::Selector }
    );
    params.selector = Some("x".repeat(4_097));
    assert_eq!(upload_refusal(&params, &regular), UploadError::SelectorTooLong);
    params.cdp_target_id = Some("?".to_owned());
    assert_eq!(
        validate_browser_file_upload_params(&params, false, &regular).unwrap_err(),
        UploadError::TargetIdInvalid
    );
}

#[test]
fn chooser_operations_take_no_input() {
    let mut params = upload_params(BrowserFileUploadOperation::ReadChooser);
    params.limit = Some(1_000);
    let none = Vec::new();
    assert_eq!(validate_browser_file_upload_params(&params, true, &none).unwrap().limit, 100);
    params.files = vec!["a".to_owned()];
    assert_eq!(upload_refusal(&params, &none), UploadError::FilesForbidden);
    params.active_element = true;
    assert_eq!(upload_refusal(&params, &none), UploadError::LocatorForbidden);
    assert_eq!(
        browser_file_upload_operation_name(BrowserFileUploadOperation::CancelChooser),
        "cancel_chooser"
    );
    assert_eq!(path_to_chrome_string("/w/a"), "/w/a");
}

#[test]
fn inputs_are_found_in_their_own_page() {
    assert_eq!(check_upload_target("T1", true), Ok(()));
    assert_eq!(check_upload_target("T1", false), Err(UploadError::EndpointUnreachable));
    assert_eq!(
        check_upload_target("chrome-tab:1", true),
        Err(UploadError::TargetForbidsDebugging)
    );
    assert_eq!(located_input(&vec![5, 6], 2), Ok((5, 2)));
    assert_eq!(located_input(&vec![], 0), Err(UploadError::SelectorUnmatched));
    assert_eq!(
        located_input(&vec![5], u64::from(u32::MAX) + 1),
        Err(UploadError::MatchCountOverflow)
    );
    let reading = |target: Option<&str>| ElementReading {
        readable: true,
        backend_node_id: Some(4),
        target: target.map(str::to_owned),
    };
    assert_eq!(element_input(&reading(Some("ab")), "AB"), Ok(4));
    assert_eq!(
        element_input(&reading(Some("cd")), "AB"),
        Err(UploadError::ElementOfOtherTarget)
    );
    assert_eq!(element_input(&reading(None), "AB"), Err(UploadError::ElementWithoutTarget));
    let native = ElementReading { readable: true, backend_node_id: None, target: None };
    assert_eq!(element_input(&native, "AB"), Err(UploadError::ElementNotInPage));
    let broken = ElementReading { readable: false, backend_node_id: None, target: None };
    assert_eq!(element_input(&broken, "AB"), Err(UploadError::ElementIdInvalid));
}

#[test]
fn audits_need_their_payload_and_their_rights() {
    let anyone = Caller { maintenance: false, storage_read: true, storage_write: true, request_permitted: true };
    assert_eq!(check_audit(AuditOperation::LifecycleExits, false, anyone), Ok(()));
    assert_eq!(
        check_audit(AuditOperation::VerifyChain, false, anyone),
        Err(FacadeError::MissingPayload)
    );
    assert_eq!(
        check_audit(AuditOperation::AdjudicateRawCommitmentSeal, true, anyone),
        Err(FacadeError::MaintenanceOnly)
    );
    let reader = Caller { maintenance: true, storage_read: true, storage_write: false, request_permitted: true };
    assert_eq!(
        check_audit(AuditOperation::RepairLegacyProbeRow, true, reader),
        Err(FacadeError::StoragePermissionDenied)
    );
    let keeper = Caller { maintenance: true, storage_read: true, storage_write: true, request_permitted: true };
    assert_eq!(check_audit(AuditOperation::RepairLegacyProbeRow, true, keeper), Ok(()));
    assert_eq!(AuditOperation::CommandQuery.as_str(), "command_query");
    let stranger = Caller { request_permitted: false, ..anyone };
    assert_eq!(
        check_audit(AuditOperation::ExportBundle, true, stranger),
        Err(FacadeError::PermissionDenied)
    );
    assert_eq!(ReplayOperation::ArtifactInspect.as_str(), "artifact_inspect");
}

fn report() -> LedgerVerifyReport {
    LedgerVerifyReport {
        intact: true,
        verdict: "intact".to_owned(),
        head_height: 9,
        verified_from_seq: 1,
        verified_to_seq: 9,
        entry_count: 8,
        tip_hash: None,
        quarantine_seq: None,
        broken_expected_hash: None,
        broken_found_hash: None,
        corrupt_reason: None,
        raw_commitments_intact: true,
        raw_commitment_seal_count: 2,
        raw_commitment_count: 5,
        raw_commitment_sealed_count: 4,
        raw_commitment_pending_count: 1,
        raw_commitment_coverage_from_seq: None,
        raw_commitment_sealed_through_seq: None,
        raw_commitment_first_pending_seq: None,
        raw_commitment_failure: None,
        raw_commitment_failure_sha256: None,
        raw_commitment_adjudicated_count: 0,
        raw_commitment_adjudicated_exceptions: Vec::new(),
        raw_commitment_failed_seal_count: 0,
        raw_commitment_failed_seal_examples: Vec::new(),
        raw_commitment_uncovered_count: 0,
        reader_lease_duration_ms: 0,
        reader_lease_renewal_count: 0,
        covers_full_history: true,
        chain_origin: "genesis".to_owned(),
        history_coverage: "full".to_owned(),
        attested_from_seq: None,
        vault_generation: 1,
        vault_reset_count: 0,
        predecessor_vault_id: None,
        predecessor_high_water_seq: None,
    }
}

#[test]
fn chains_are_verified_whole_or_in_a_full_window() {
    assert_eq!(verify_window(None, None), Ok(None));
    assert_eq!(verify_window(Some(1), Some(4)), Ok(Some((1, 4))));
    assert_eq!(verify_window(Some(1), None), Err(FacadeError::WindowIncomplete));
    assert_eq!(verify_window(None, Some(1)), Err(FacadeError::WindowIncomplete));
    assert_eq!(
        verify_chain_readback(&report()),
        "CF_LEDGER verdict=intact head_height=9 verified=[1..9) entries=8 raw_commitments=5 \
         raw_sealed=4 raw_pending=1 raw_seals=2"
    );
    let response = verify_chain_response(report(), None);
    assert!(response.source_of_truth.starts_with("CF_LEDGER append-only"));
    assert!(response.report.intact && response.entry_readback.is_none());
}

#[test]
fn reproductions_name_their_record() {
    assert_eq!(reproduced_record(" cx "), Ok("cx".to_owned()));
    assert_eq!(reproduced_record(" "), Err(FacadeError::RecordIdEmpty));
    let report = ReproduceReport {
        cx_id: "cx".to_owned(),
        reproduced: true,
        recorded_seq: 3,
        recorded_hash: "h".to_owned(),
        input_hash: "i".to_owned(),
        entry_present: true,
        entry_hash: None,
        entry_self_verifies: true,
        subject_matches: true,
        coverage: "c".to_owned(),
        coverage_matches: true,
        drift: "none".to_owned(),
    };
    assert_eq!(
        reproduce_readback(&report),
        "CF_LEDGER reproduce cx_id=cx reproduced=true recorded_seq=3 drift=none"
    );
    assert!(reproduce_response(report).report.reproduced);
}

#[test]
fn readbacks_say_what_was_read() {
    assert_eq!(command_query_readback(5, 2), "CF_ACTION_LOG scanned_rows=5 returned_count=2");
    assert_eq!(
        repair_readback("aa", true, "bb"),
        "CF_ACTION_LOG legacy_key_sha256=aa source_row_absent=true repair_key_hex=bb"
    );
    assert_eq!(lifecycle_readback("/l", 5, 2), "/l lines_read=5 returned_count=2");
    assert_eq!(profile_readback("p", 3), "profile_id=p max_rows=3");
    assert_eq!(export_readback("/m", 3, 1), "manifest=/m rows=3 redacted_fields=1");
    assert_eq!(
        adjudication_readback(3, 9, "hh"),
        "CF_LEDGER adjudicated_seal_seq=3 adjudication_ledger_seq=9 adjudication_entry_hash=hh"
    );
    assert_eq!(artifact_readback("/a", 10, 2), "/a bytes=10 records_read=2");
    assert_eq!(demo_status_readback("s", false, true), "s armed=false expired_active_row=true");
    assert_eq!(
        demo_start_readback("d", true, false),
        "demo_id=d persisted=true marker_row_written=false"
    );
    assert_eq!(demo_session(None), "stdio");
    assert_eq!(command_status(CommandStage::Failed), "error");
    assert_eq!(
        replay_subject(ReplayOperation::Record, None).as_deref(),
        Some("default_replay_path")
    );
    assert_eq!(replay_subject(ReplayOperation::DemoStart, None), None);
    assert_eq!(replay_subject(ReplayOperation::DemoStart, Some("x".to_owned())).as_deref(), Some("x"));
}

#[test]
fn browser_failures_have_their_codes() {
    assert_eq!(dnd_code(DndError::TargetNotSet), "TARGET_NOT_SET");
    assert_eq!(dnd_code(DndError::StepsOutOfRange { steps: 0 }), "TOOL_PARAMS_INVALID");
    assert_eq!(dnd_code(DndError::NotActionable), "ACTION_TARGET_INVALID");
    assert_eq!(dnd_code(DndError::GeometryMalformed), "ACTION_POSTCONDITION_FAILED");
    assert_eq!(upload_code(UploadError::EndpointUnreachable), "A11Y_CDP_UNREACHABLE");
    assert_eq!(upload_code(UploadError::FileNotRegular { index: 1 }), "ACTION_TARGET_INVALID");
    assert_eq!(upload_code(UploadError::FilesRequired), "TOOL_PARAMS_INVALID");
    assert_eq!(
        BrowserDndMode::Html5.delegated_method(),
        "raw_cdp.Runtime.evaluate.DragEvent"
    );
}

#[test]
fn audits_are_handed_on_in_full() {
    let keeper =
        Caller { maintenance: true, storage_read: true, storage_write: true, request_permitted: true };
    assert!(matches!(
        audit(AuditOperation::CommandQuery, AuditPayload::Given, keeper),
        Ok(AuditStep::QueryCommands)
    ));
    assert!(matches!(
        audit(AuditOperation::LifecycleExits, AuditPayload::Absent, keeper),
        Ok(AuditStep::ReadExitEvents)
    ));
    let window = |from_seq, to_seq| {
        let payload = AuditPayload::VerifyChain { from_seq, to_seq, read_seq: Some(3) };
        audit(AuditOperation::VerifyChain, payload, keeper)
    };
    assert!(matches!(
        window(Some(1), Some(4)),
        Ok(AuditStep::VerifyChain { window: Some((1, 4)), read_seq: Some(3) })
    ));
    assert!(matches!(window(Some(1), None), Err(FacadeError::WindowIncomplete)));
    assert!(matches!(
        audit(AuditOperation::VerifyChain, AuditPayload::Given, keeper),
        Err(FacadeError::MissingPayload)
    ));
    let reproduce = |cx_id: &str| {
        let payload = AuditPayload::Reproduce { cx_id: cx_id.to_owned() };
        audit(AuditOperation::Reproduce, payload, keeper)
    };
    assert!(matches!(reproduce(" cx "), Ok(AuditStep::Reproduce { record }) if record == "cx"));
    assert!(matches!(reproduce(" "), Err(FacadeError::RecordIdEmpty)));
    assert_eq!(
        audit_readback(&AuditReply::Commands { scanned_rows: 5, returned_count: 2 }),
        command_query_readback(5, 2)
    );
    assert_eq!(audit_readback(&AuditReply::Verified(report())), verify_chain_readback(&report()));
}

#[test]
fn demonstrations_are_recorded_before_and_after() {
    let begin = |operation| replay(operation, true, true, None);
    let (mut start, action) = begin(ReplayOperation::DemoStart).unwrap();
    assert_eq!(start.by_session, "stdio");
    assert_eq!(action, ReplayAction::RecordIntent);
    assert_eq!(start.on_intent(true), ReplayAction::Run);
    assert_eq!(start.on_run(true), ReplayAction::RecordOutcome(CommandStage::Succeeded));
    assert_eq!(start.on_outcome(true), ReplayAction::Answer);
    let (mut stop, _) = begin(ReplayOperation::DemoStop).unwrap();
    stop.on_intent(true);
    assert_eq!(stop.on_run(true), ReplayAction::RecordOutcome(CommandStage::Succeeded));
    assert_eq!(stop.on_outcome(true), ReplayAction::InspectArtifact);
    assert_eq!(
        stop.on_inspected(false),
        ReplayAction::Fail(ReplayFailure::ArtifactUnreadable)
    );
    let (mut failing, _) = begin(ReplayOperation::DemoStop).unwrap();
    failing.on_intent(true);
    assert_eq!(failing.on_run(false), ReplayAction::RecordOutcome(CommandStage::Failed));
    assert_eq!(failing.on_outcome(true), ReplayAction::Fail(ReplayFailure::RunFailed));
    let (mut unrecorded, _) = begin(ReplayOperation::DemoStart).unwrap();
    assert_eq!(
        unrecorded.on_intent(false),
        ReplayAction::Fail(ReplayFailure::IntentNotRecorded)
    );
    let (mut lost, _) = begin(ReplayOperation::DemoStart).unwrap();
    lost.on_intent(true);
    lost.on_run(true);
    assert_eq!(
        lost.on_outcome(false),
        ReplayAction::Fail(ReplayFailure::OutcomeNotRecorded)
    );
    assert_eq!(lost.stage, ReplayStage::Over);
}

#[test]
fn replays_need_their_payload_and_their_leave() {
    assert!(matches!(
        replay(ReplayOperation::DemoStop, false, true, None),
        Err(FacadeError::MissingPayload)
    ));
    assert!(matches!(
        replay(ReplayOperation::Record, true, false, None),
        Err(FacadeError::PermissionDenied)
    ));
    let (mut record, action) =
        replay(ReplayOperation::Record, true, true, Some("s".to_owned())).unwrap();
    assert_eq!(record.by_session, "s");
    assert_eq!(action, ReplayAction::Run);
    assert_eq!(record.on_run(true), ReplayAction::InspectArtifact);
    assert_eq!(record.on_inspected(true), ReplayAction::Answer);
    let (mut status, _) = replay(ReplayOperation::DemoStatus, false, false, None).unwrap();
    assert_eq!(status.on_run(false), ReplayAction::Fail(ReplayFailure::RunFailed));
    let (_, action) = replay(ReplayOperation::ArtifactInspect, true, false, None).unwrap();
    assert_eq!(action, ReplayAction::InspectArtifact);
    let reply =
        ReplayReply::Artifact { path: "/a".to_owned(), bytes: 10, records_read: 2 };
    assert_eq!(replay_readback(&reply), artifact_readback("/a", 10, 2));
}

#[test]
fn uploads_ask_for_leave_before_and_after() {
    let (mut set, action) = UploadRun::begin(BrowserFileUploadOperation::SetFiles);
    assert_eq!(action, UploadAction::CheckFence);
    assert_eq!(set.on_fence(false), UploadAction::SetInput { clear: false });
    assert_eq!(set.on_acted(true), UploadAction::CheckFence);
    assert_eq!(set.on_fence(true), UploadAction::Fail(RunFailure::Fenced));
    let (mut clear, _) = UploadRun::begin(BrowserFileUploadOperation::Clear);
    assert_eq!(clear.on_fence(false), UploadAction::SetInput { clear: true });
    assert_eq!(clear.on_acted(false), UploadAction::Fail(RunFailure::PageFailed));
    let (mut answer, _) = UploadRun::begin(BrowserFileUploadOperation::SetChooser);
    assert_eq!(answer.on_fence(false), UploadAction::AnswerChooser);
    assert_eq!(answer.on_acted(true), UploadAction::ReadChooser);
    assert_eq!(answer.on_read(true), UploadAction::CheckFence);
    assert_eq!(answer.on_fence(false), UploadAction::Answer);
    let (mut read, action) = UploadRun::begin(BrowserFileUploadOperation::ReadChooser);
    assert_eq!(action, UploadAction::ReadChooser);
    assert_eq!(read.on_read(true), UploadAction::Answer);
}

#[test]
fn drags_ask_for_leave_before_and_after() {
    let (mut run, action) = DndRun::begin(BrowserDndMode::Html5);
    assert_eq!(action, DndAction::ReadGeometry);
    assert_eq!(run.on_geometry(GeometryVerdict::Wait), DndAction::WaitForGeometry);
    assert_eq!(run.on_geometry(GeometryVerdict::Ready), DndAction::CheckFence);
    assert_eq!(run.on_fence(false), DndAction::Dispatch(BrowserDndMode::Html5));
    assert_eq!(run.on_dispatched(true), DndAction::CheckFence);
    assert_eq!(run.on_fence(false), DndAction::Answer);
    let (mut refused, _) = DndRun::begin(BrowserDndMode::Mouse);
    assert_eq!(
        refused.on_geometry(GeometryVerdict::Refuse(DndError::NotActionable)),
        DndAction::Fail(RunFailure::Drag(DndError::NotActionable))
    );
    let (mut stopped, _) = DndRun::begin(BrowserDndMode::Mouse);
    stopped.on_geometry(GeometryVerdict::Ready);
    assert_eq!(stopped.on_fence(true), DndAction::Fail(RunFailure::Fenced));
}
