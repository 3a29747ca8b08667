//! Which drags and uploads are taken, and what is made of what they leave open.
use crate::browser::dnd;
use crate::browser::dnd::{
    BrowserDndMode, BrowserDndParams, DispatchParts, DndError, NormalizedBrowserDndParams,
    SelectorName,
};
use crate::browser::files;
use crate::browser::files::{
    BrowserFileUploadOperation, BrowserFileUploadParams, NormalizedBrowserFileUploadParams,
    PathCheck, UploadError, UploadField,
};
use crate::browser::run;
use crate::browser::run::UploadAction;
use crate::checks;
use crate::text;
use vstd::prelude::*;
use vstd::string::*;

verus! {

/// A selector is taken that is not blank and has, without the white space around it, at most
/// 4096 characters.
pub proof fn law_selectors_are_within_limits(name: SelectorName, value: Seq<char>)
    ensures
        dnd::selector_refusal(name, value) is None <==> !text::is_blank_spec(value)
            && text::trim_spec(value).len() <= 4_096,
        text::is_blank_spec(value) ==> dnd::selector_refusal(name, value) == Some(
            DndError::SelectorEmpty { name },
        ),
        !text::is_blank_spec(value) && text::trim_spec(value).len() > 4_096
            ==> dnd::selector_refusal(name, value) == Some(DndError::SelectorTooLong { name }),
{
    text::law_trimming_strips_white_space(value);
}

/// A drag is taken exactly where both selectors are, its steps are 1 to 100, it lasts at most
/// ten seconds, its two waits are 50 milliseconds to half a minute, its media type has at most
/// 255 bytes and its data at most 16384 characters; what it leaves open counts as twelve steps,
/// and waits of five and of two seconds.
pub proof fn law_drags_are_within_limits(params: BrowserDndParams)
    ensures
        ({
            let mime = params.data_mime_type;
            dnd::dnd_refusal(params) is None <==> {
                &&& dnd::selector_refusal(SelectorName::Source, params.source_selector@) is None
                &&& dnd::selector_refusal(SelectorName::Target, params.target_selector@) is None
                &&& params.steps is Some ==> 1 <= params.steps->0 <= 100
                &&& params.duration_ms is Some ==> params.duration_ms->0 <= 10_000
                &&& params.wait_timeout_ms is Some ==> 50 <= params.wait_timeout_ms->0 <= 30_000
                &&& params.auto_wait_timeout_ms is Some ==> 50 <= params.auto_wait_timeout_ms->0
                    <= 30_000
                &&& mime is Some ==> vstd::utf8::encode_utf8(text::trim_spec(mime->0@)).len() <= 255
                    || text::is_blank_spec(mime->0@)
                &&& params.data_text is Some ==> params.data_text->0@.len() <= 16_384
            }
        }),
{
    if params.data_mime_type is Some {
        text::law_trimming_strips_white_space(params.data_mime_type->0@);
    }
}

/// What is wrong with a drag first is named, in the order of its fields.
pub proof fn law_bad_drags_are_named(params: BrowserDndParams)
    ensures
        ({
            let refusal = dnd::dnd_refusal(params);
            let source = dnd::selector_refusal(SelectorName::Source, params.source_selector@);
            let target = dnd::selector_refusal(SelectorName::Target, params.target_selector@);
            let named = source is None && target is None;
            let stepped = params.steps is None || 1 <= params.steps->0 <= 100;
            let short = params.duration_ms is None || params.duration_ms->0 <= 10_000;
            let waits = params.wait_timeout_ms is None || 50 <= params.wait_timeout_ms->0 <= 30_000;
            let auto = params.auto_wait_timeout_ms is None || 50 <= params.auto_wait_timeout_ms->0
                <= 30_000;
            &&& source is Some ==> refusal == source
            &&& source is None && target is Some ==> refusal == target
            &&& named && !stepped ==> refusal == Some(
                DndError::StepsOutOfRange { steps: params.steps->0 },
            )
            &&& named && stepped && !short ==> refusal == Some(
                DndError::DurationOutOfRange { duration_ms: params.duration_ms->0 },
            )
            &&& named && stepped && short && !waits ==> refusal == Some(
                DndError::WaitTimeoutOutOfRange { wait_timeout_ms: params.wait_timeout_ms->0 },
            )
            &&& named && stepped && short && waits && !auto ==> refusal == Some(
                DndError::AutoWaitTimeoutOutOfRange {
                    auto_wait_timeout_ms: params.auto_wait_timeout_ms->0,
                },
            )
            &&& refusal == Some(DndError::DataTextTooLong) ==> params.data_text is Some
                && params.data_text->0@.len() > 16_384
            &&& refusal == Some(DndError::MimeTypeTooLong) ==> params.data_mime_type is Some
                && vstd::utf8::encode_utf8(text::trim_spec(params.data_mime_type->0@)).len() > 255
        }),
{
}

/// A drag that was taken keeps what was asked for, its selectors and its media type without
/// white space around them, and has the defaults where nothing was asked for.
pub proof fn law_drags_are_filled_in(
    dnd: NormalizedBrowserDndParams,
    params: BrowserDndParams,
    default_mode: BrowserDndMode,
)
    requires
        dnd::fills_in(dnd, params, default_mode),
    ensures
        params.mode is Some ==> Some(dnd.mode) == params.mode,
        params.mode is None ==> dnd.mode == default_mode,
        dnd.source_selector@ == text::trim_spec(params.source_selector@),
        dnd.target_selector@ == text::trim_spec(params.target_selector@),
        params.steps is Some ==> Some(dnd.steps) == params.steps,
        params.steps is None ==> dnd.steps == 12,
        params.duration_ms is Some ==> Some(dnd.duration_ms) == params.duration_ms,
        params.duration_ms is None ==> dnd.duration_ms == 350,
        params.wait_timeout_ms is Some ==> Some(dnd.wait_timeout_ms) == params.wait_timeout_ms,
        params.wait_timeout_ms is None ==> dnd.wait_timeout_ms == 5_000,
        params.auto_wait is Some ==> Some(dnd.auto_wait) == params.auto_wait,
        params.auto_wait is None ==> dnd.auto_wait,
        params.auto_wait_timeout_ms is Some ==> Some(dnd.auto_wait_timeout_ms)
            == params.auto_wait_timeout_ms,
        params.auto_wait_timeout_ms is None ==> dnd.auto_wait_timeout_ms == 2_000,
        params.data_text is None ==> dnd.data_text is None,
        params.data_text is Some ==> dnd.data_text is Some && dnd.data_text->0@
            == params.data_text->0@,
        params.data_mime_type is None || text::is_blank_spec(params.data_mime_type->0@)
            ==> dnd.data_mime_type is None,
        params.data_mime_type is Some && !text::is_blank_spec(params.data_mime_type->0@)
            ==> dnd.data_mime_type is Some && dnd.data_mime_type->0@ == text::trim_spec(
            params.data_mime_type->0@,
        ),
{
    if params.data_mime_type is Some {
        text::law_trimming_strips_white_space(params.data_mime_type->0@);
    }
}

/// What is dragged: the data that was asked for or else the text of the source, as the media
/// type that was asked for or else as plain text.
pub proof fn law_drags_carry_data_or_text(dnd: NormalizedBrowserDndParams, source_text: Seq<char>)
    ensures
        dnd.data_mime_type is Some ==> dnd::dragged_mime(dnd) == dnd.data_mime_type->0@,
        dnd.data_mime_type is None ==> dnd::dragged_mime(dnd) == "text/plain"@,
        dnd.data_text is Some ==> dnd::dragged_data(dnd, source_text) == dnd.data_text->0@,
        dnd.data_text is None ==> dnd::dragged_data(dnd, source_text) == source_text,
{
}

/// The parts of a dispatched drag are the selectors, the media type, the data and the target,
/// each quoted, and the length of the data in bytes.
pub proof fn law_dispatched_drags_quote_their_parts(
    parts: DispatchParts,
    dnd: NormalizedBrowserDndParams,
    source_text: Seq<char>,
    cdp_target_id: Seq<char>,
)
    requires
        dnd::quotes_drag(parts, dnd, source_text, cdp_target_id),
    ensures
        parts.source@ == dnd::json_quoting(dnd.source_selector@),
        parts.target@ == dnd::json_quoting(dnd.target_selector@),
        parts.target_id@ == dnd::json_quoting(cdp_target_id),
        dnd.data_mime_type is Some ==> parts.mime@ == dnd::json_quoting(dnd.data_mime_type->0@),
        dnd.data_mime_type is None ==> parts.mime@ == dnd::json_quoting("text/plain"@),
        dnd.data_text is Some ==> parts.data@ == dnd::json_quoting(dnd.data_text->0@),
        dnd.data_text is None ==> parts.data@ == dnd::json_quoting(source_text),
        dnd.data_text is Some ==> parts.data_length == vstd::utf8::encode_utf8(
            dnd.data_text->0@,
        ).len() as u64,
        dnd.data_text is None ==> parts.data_length == vstd::utf8::encode_utf8(
            source_text,
        ).len() as u64,
{
}

proof fn lemma_flatten_push(pieces: Seq<Seq<char>>, piece: Seq<char>)
    ensures
        pieces.push(piece).flatten() == pieces.flatten() + piece,
    decreases pieces.len(),
{
    reveal_with_fuel(Seq::flatten, 3);
    if pieces.len() > 0 {
        lemma_flatten_push(pieces.drop_first(), piece);
        assert(pieces.push(piece).drop_first() =~= pieces.drop_first().push(piece));
        assert(pieces.push(piece).first() == pieces.first());
        assert(pieces.flatten() == pieces.first() + pieces.drop_first().flatten());
        assert(pieces.push(piece).flatten() =~= pieces.flatten() + piece);
    } else {
        assert(pieces.push(piece).drop_first() =~= Seq::<Seq<char>>::empty());
        assert(pieces.push(piece).flatten() =~= piece);
        assert(pieces.flatten() + piece =~= piece);
    }
}

/// Quoting puts a text between quotation marks, character by character: a quotation mark, a
/// backslash and the control characters are escaped, every other character stands for itself.
pub proof fn law_quoting_escapes_each_character(front: Seq<char>, ch: char)
    ensures
        dnd::json_quoting(Seq::<char>::empty()) == seq!['"', '"'],
        dnd::json_quoting(front.push(ch)) == dnd::json_quoting(front).drop_last()
            + dnd::json_escape(ch) + seq!['"'],
        dnd::json_escape('"') == seq!['\\', '"'],
        dnd::json_escape('\\') == seq!['\\', '\\'],
        dnd::json_escape('\n') == seq!['\\', 'n'],
        dnd::json_escape('\r') == seq!['\\', 'r'],
        dnd::json_escape('\t') == seq!['\\', 't'],
        dnd::json_escape('\u{8}') == seq!['\\', 'b'],
        dnd::json_escape('\u{c}') == seq!['\\', 'f'],
        (ch as int) >= 32 && ch != '"' && ch != '\\' ==> dnd::json_escape(ch) == seq![ch],
        (ch as int) < 32 && ch != '\n' && ch != '\r' && ch != '\t' && ch != '\u{8}' && ch != '\u{c}'
            ==> dnd::json_escape(ch) == seq![
            '\\',
            'u',
            '0',
            '0',
            "0123456789abcdef"@[ch as int / 16],
            "0123456789abcdef"@[ch as int % 16],
        ],
{
    reveal_strlit("0123456789abcdef");
    let escape = |ch: char| dnd::json_escape(ch);
    let none = Seq::<char>::empty();
    assert(none.map_values(escape) =~= Seq::<Seq<char>>::empty());
    assert(none.map_values(escape).flatten() =~= Seq::<char>::empty());
    assert(dnd::json_quoting(none) =~= seq!['"', '"']);
    assert(front.push(ch).map_values(escape) =~= front.map_values(escape).push(dnd::json_escape(ch)));
    lemma_flatten_push(front.map_values(escape), dnd::json_escape(ch));
    assert(dnd::json_quoting(front).drop_last() =~= seq!['"'] + front.map_values(escape).flatten());
    assert(dnd::json_quoting(front.push(ch)) =~= dnd::json_quoting(front).drop_last()
        + dnd::json_escape(ch) + seq!['"']);
}

/// The operations on an input take exactly one locator, those on a chooser none: a selector or
/// an element's id that is not blank, or the active element.
pub proof fn law_uploads_name_one_input(params: BrowserFileUploadParams)
    ensures
        ({
            let by_selector = params.selector is Some && !text::is_blank_spec(params.selector->0@);
            let by_id = params.element_id is Some && !text::is_blank_spec(params.element_id->0@);
            let active = params.active_element;
            let one = (by_selector && !by_id && !active) || (!by_selector && by_id && !active) || (
            !by_selector && !by_id && active);
            let none = !by_selector && !by_id && !active;
            let direct = params.operation == BrowserFileUploadOperation::SetFiles
                || params.operation == BrowserFileUploadOperation::Clear;
            &&& direct ==> (files::locator_refusal(params) is None <==> one)
            &&& direct && !one ==> files::locator_refusal(params) == Some(
                UploadError::LocatorRequired,
            )
            &&& !direct ==> (files::locator_refusal(params) is None <==> none)
            &&& !direct && !none ==> files::locator_refusal(params) == Some(
                UploadError::LocatorForbidden,
            )
        }),
{
    if params.selector is Some {
        text::law_trimming_strips_white_space(params.selector->0@);
    }
    if params.element_id is Some {
        text::law_trimming_strips_white_space(params.element_id->0@);
    }
}

/// A file is taken whose path is not blank and has no NUL, and which is a regular file; what is
/// wrong with it is named with its place.
pub proof fn law_uploaded_files_are_regular(index: int, path: Seq<char>, check: PathCheck)
    ensures
        ({
            let refusal = files::file_refusal(index, path, check);
            let at = index as usize;
            let plain = !path.contains('\0');
            let named = plain && !text::is_blank_spec(path);
            &&& refusal is None <==> named && check is Regular
            &&& !plain ==> refusal == Some(UploadError::FileHasNul { index: at })
            &&& plain && !named ==> refusal == Some(UploadError::FileEmpty { index: at })
            &&& named && check is Unresolvable ==> refusal == Some(
                UploadError::FileUnresolvable { index: at },
            )
            &&& named && check is Unreadable ==> refusal == Some(
                UploadError::FileUnreadable { index: at },
            )
            &&& named && check is NotRegular ==> refusal == Some(
                UploadError::FileNotRegular { index: at },
            )
        }),
{
}

/// Between one and 256 files are uploaded at once, each of them regular; the first that is not
/// is named.
pub proof fn law_uploads_have_regular_files(listed: Seq<String>, checks: Seq<PathCheck>)
    ensures
        ({
            let refusal = files::files_refusal(listed, checks);
            let regular = forall|i: int|
                0 <= i < listed.len() ==> i < checks.len() && files::file_refusal(
                    i,
                    (#[trigger] listed[i])@,
                    checks[i],
                ) is None;
            &&& listed.len() == 0 ==> refusal == Some(UploadError::FilesRequired)
            &&& listed.len() > 256 ==> refusal == Some(
                UploadError::TooManyFiles { files: listed.len() as usize },
            )
            &&& 1 <= listed.len() <= 256 ==> (refusal is None <==> regular)
        }),
{
    let refusals = files::file_refusals(listed, checks);
    if checks::first_some(refusals) is None {
        checks::lemma_first_some_all(refusals);
        assert forall|i: int| 0 <= i < listed.len() implies i < checks.len()
            && files::file_refusal(i, (#[trigger] listed[i])@, checks[i]) is None by {
            assert(refusals[i] is None);
        }
    }
    if forall|i: int|
        0 <= i < listed.len() ==> i < checks.len() && files::file_refusal(
            i,
            (#[trigger] listed[i])@,
            checks[i],
        ) is None {
        assert forall|i: int| 0 <= i < refusals.len() implies (#[trigger] refusals[i]) is None by {
            assert(files::file_refusal(i, listed[i]@, checks[i]) is None);
        }
        checks::lemma_first_some_none(refusals);
    }
}

/// An upload is taken where its target is one, its selector and its element's id have no NUL,
/// the selector at most 4096 characters, its locators fit its operation, and it has files
/// exactly where the operation takes them. What is wrong first is named.
pub proof fn law_uploads_are_within_limits(
    params: BrowserFileUploadParams,
    target_id_ok: bool,
    checks: Seq<PathCheck>,
)
    ensures
        ({
            let refusal = files::upload_refusal(params, target_id_ok, checks);
            let targeted = params.cdp_target_id is None || target_id_ok;
            let plain = params.selector is None || !params.selector->0@.contains('\0');
            let short = params.selector is None || text::trim_spec(params.selector->0@).len()
                <= 4_096;
            let id_plain = params.element_id is None || !params.element_id->0@.contains('\0');
            let located = files::locator_refusal(params) is None;
            let takes = params.operation == BrowserFileUploadOperation::SetFiles || params.operation
                == BrowserFileUploadOperation::SetChooser;
            let shaped = targeted && plain && short && id_plain && located;
            &&& !targeted ==> refusal == Some(UploadError::TargetIdInvalid)
            &&& targeted && !plain ==> refusal == Some(
                UploadError::FieldHasNul { field: UploadField::Selector },
            )
            &&& targeted && plain && !short ==> refusal == Some(UploadError::SelectorTooLong)
            &&& targeted && plain && short && !id_plain ==> refusal == Some(
                UploadError::FieldHasNul { field: UploadField::ElementId },
            )
            &&& targeted && plain && short && id_plain && !located ==> refusal
                == files::locator_refusal(params)
            &&& shaped && takes ==> refusal == files::files_refusal(params.files@, checks)
            &&& shaped && !takes && params.files@.len() == 0 ==> refusal is None
            &&& shaped && !takes && params.files@.len() > 0 ==> refusal == Some(
                UploadError::FilesForbidden,
            )
        }),
{
}

/// Up to a hundred choosers are read at once and at least one, twenty where nothing was asked
/// for.
pub proof fn law_chooser_reads_are_bounded(limit: usize)
    ensures
        files::read_limit(None) == 20,
        1 <= limit <= 100 ==> files::read_limit(Some(limit)) == limit,
        limit == 0 ==> files::read_limit(Some(limit)) == 1,
        limit > 100 ==> files::read_limit(Some(limit)) == 100,
{
}

/// An upload that was taken keeps its operation, its locators without white space around them,
/// its place in the reading and its files under their canonical paths.
pub proof fn law_uploads_are_filled_in(
    upload: NormalizedBrowserFileUploadParams,
    params: BrowserFileUploadParams,
    checks: Seq<PathCheck>,
    at: int,
)
    requires
        files::fills_in_upload(upload, params, checks),
    ensures
        upload.operation == params.operation,
        upload.active_element == params.active_element,
        upload.since_seq == params.since_seq,
        params.selector is Some && !text::is_blank_spec(params.selector->0@) ==> upload.selector
            is Some && upload.selector->0@ == text::trim_spec(params.selector->0@),
        params.selector is None || text::is_blank_spec(params.selector->0@)
            ==> upload.selector is None,
        params.element_id is Some && !text::is_blank_spec(params.element_id->0@)
            ==> upload.element_id is Some && upload.element_id->0@ == text::trim_spec(
            params.element_id->0@,
        ),
        params.element_id is None || text::is_blank_spec(params.element_id->0@)
            ==> upload.element_id is None,
        params.operation != BrowserFileUploadOperation::SetFiles && params.operation
            != BrowserFileUploadOperation::SetChooser ==> upload.files@.len() == 0,
        params.operation == BrowserFileUploadOperation::SetFiles || params.operation
            == BrowserFileUploadOperation::SetChooser ==> upload.files@.len()
            == params.files@.len() && (0 <= at < upload.files@.len() ==> at < checks.len()
            && checks[at] is Regular && upload.files@[at]@ == checks[at]->Regular_0@),
{
    if params.selector is Some {
        text::law_trimming_strips_white_space(params.selector->0@);
    }
    if params.element_id is Some {
        text::law_trimming_strips_white_space(params.element_id->0@);
    }
    if params.operation.takes_files() && 0 <= at < upload.files@.len() {
        assert(files::is_canonical(upload.files@[at], checks[at]));
    }
}

/// What each operation does in the page, and which of them read the choosers back.
pub proof fn law_uploads_act_by_their_operation()
    ensures
        run::act_of(BrowserFileUploadOperation::SetFiles) == (UploadAction::SetInput {
            clear: false,
        }),
        run::act_of(BrowserFileUploadOperation::Clear) == (UploadAction::SetInput { clear: true }),
        run::act_of(BrowserFileUploadOperation::ArmChooser) == UploadAction::ArmChooser,
        run::act_of(BrowserFileUploadOperation::ReadChooser) == UploadAction::ReadChooser,
        run::act_of(BrowserFileUploadOperation::SetChooser) == UploadAction::AnswerChooser,
        run::act_of(BrowserFileUploadOperation::CancelChooser) == UploadAction::CancelChooser,
        run::reads_back(BrowserFileUploadOperation::SetChooser),
        run::reads_back(BrowserFileUploadOperation::CancelChooser),
        !run::reads_back(BrowserFileUploadOperation::SetFiles),
        !run::reads_back(BrowserFileUploadOperation::Clear),
        !run::reads_back(BrowserFileUploadOperation::ArmChooser),
        !run::reads_back(BrowserFileUploadOperation::ReadChooser),
{
}

/// Each operation and each mode of a drag has its own name and its own method.
pub proof fn law_browser_operations_are_named()
    ensures
        BrowserFileUploadOperation::SetFiles.name() == "set_files"@,
        BrowserFileUploadOperation::Clear.name() == "clear"@,
        BrowserFileUploadOperation::ArmChooser.name() == "arm_chooser"@,
        BrowserFileUploadOperation::ReadChooser.name() == "read_chooser"@,
        BrowserFileUploadOperation::SetChooser.name() == "set_chooser"@,
        BrowserFileUploadOperation::CancelChooser.name() == "cancel_chooser"@,
        BrowserDndMode::Mouse.method() == "raw_cdp.Input.dispatchMouseEvent.drag"@,
        BrowserDndMode::Html5.method() == "raw_cdp.Runtime.evaluate.DragEvent"@,
        BrowserDndMode::Html5Real.method() == "raw_cdp.Input.dispatchDragEvent"@,
        dnd::protocol_method_of(BrowserDndMode::Mouse)
            == "Input.dispatchMouseEvent(mouseMoved,mousePressed,dragMove,mouseReleased)"@,
        dnd::protocol_method_of(BrowserDndMode::Html5) == "dispatchEvent(DragEvent sequence)"@,
        dnd::protocol_method_of(BrowserDndMode::Html5Real)
            == "Input.dispatchDragEvent(dragEnter,dragOver,drop)"@,
{
}

} // verus!
