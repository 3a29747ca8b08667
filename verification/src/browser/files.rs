//! Handing files to the inputs and choosers of a page.
use crate::roots;
use crate::roots::lower_text;
use crate::text;
use crate::text::{contains_char, is_blank, starts_with, str_equal, trim};
use vstd::prelude::*;
use vstd::string::*;

verus! {

pub const DEFAULT_CHOOSER_READ_LIMIT: usize = 20;

pub const MAX_CHOOSER_READ_LIMIT: usize = 100;

pub const MAX_FILE_UPLOAD_PATHS: usize = 256;

pub const MAX_SELECTOR_CHARS: usize = 4096;

/// What is done with files.
#[derive(Clone, Copy, Debug, PartialEq, Eq, Structural)]
pub enum BrowserFileUploadOperation {
    /// Files are set on an input.
    SetFiles,
    /// The files of an input are cleared.
    Clear,
    /// The choosers of the page are caught from now on.
    ArmChooser,
    /// The choosers that were caught are read.
    ReadChooser,
    /// Files are set on the chooser that is open.
    SetChooser,
    /// The chooser that is open is dropped.
    CancelChooser,
}

impl BrowserFileUploadOperation {
    /// The name of the operation.
    pub open spec fn name(self) -> Seq<char> {
        match self {
            BrowserFileUploadOperation::SetFiles => "set_files"@,
            BrowserFileUploadOperation::Clear => "clear"@,
            BrowserFileUploadOperation::ArmChooser => "arm_chooser"@,
            BrowserFileUploadOperation::ReadChooser => "read_chooser"@,
            BrowserFileUploadOperation::SetChooser => "set_chooser"@,
            BrowserFileUploadOperation::CancelChooser => "cancel_chooser"@,
        }
    }

    /// Whether the operation works on an input of the page, not on a chooser.
    pub open spec fn direct(self) -> bool {
        self == BrowserFileUploadOperation::SetFiles || self == BrowserFileUploadOperation::Clear
    }

    /// Whether the operation hands files over.
    pub open spec fn takes_files(self) -> bool {
        self == BrowserFileUploadOperation::SetFiles || self
            == BrowserFileUploadOperation::SetChooser
    }
}

impl Default for BrowserFileUploadOperation {
    fn default() -> (operation: Self)
        ensures
            operation == BrowserFileUploadOperation::SetFiles,
    {
        BrowserFileUploadOperation::SetFiles
    }
}

/// The name of an operation.
pub fn browser_file_upload_operation_name(operation: BrowserFileUploadOperation) -> (name:
    &'static str)
    ensures
        name@ == operation.name(),
{
    match operation {
        BrowserFileUploadOperation::SetFiles => "set_files",
        BrowserFileUploadOperation::Clear => "clear",
        BrowserFileUploadOperation::ArmChooser => "arm_chooser",
        BrowserFileUploadOperation::ReadChooser => "read_chooser",
        BrowserFileUploadOperation::SetChooser => "set_chooser",
        BrowserFileUploadOperation::CancelChooser => "cancel_chooser",
    }
}

/// What is asked for.
#[derive(Debug)]
pub struct BrowserFileUploadParams {
    pub operation: BrowserFileUploadOperation,
    pub files: Vec<String>,
    pub selector: Option<String>,
    pub element_id: Option<String>,
    pub active_element: bool,
    pub cdp_target_id: Option<String>,
    pub window_hwnd: Option<i64>,
    pub since_seq: Option<u64>,
    pub limit: Option<usize>,
}

/// What is asked for, with everything filled in.
#[derive(Debug)]
pub struct NormalizedBrowserFileUploadParams {
    pub operation: BrowserFileUploadOperation,
    pub files: Vec<String>,
    pub selector: Option<String>,
    pub element_id: Option<String>,
    pub active_element: bool,
    pub since_seq: Option<u64>,
    pub limit: usize,
}

/// Which of the optional texts.
#[derive(Clone, Copy, Debug, PartialEq, Eq, Structural)]
pub enum UploadField {
    Selector,
    ElementId,
}

/// Why a request is refused.
#[derive(Clone, Copy, Debug, PartialEq, Eq, Structural)]
pub enum UploadError {
    TargetIdInvalid,
    FieldHasNul { field: UploadField },
    SelectorTooLong,
    /// The operation needs exactly one locator.
    LocatorRequired,
    /// The operation takes no locator.
    LocatorForbidden,
    FilesForbidden,
    FilesRequired,
    TooManyFiles { files: usize },
    FileHasNul { index: usize },
    FileEmpty { index: usize },
    FileUnresolvable { index: usize },
    FileUnreadable { index: usize },
    FileNotRegular { index: usize },
    /// The profile of the tab forbids debugging.
    TargetForbidsDebugging,
    EndpointUnreachable,
    SelectorUnmatched,
    MatchCountOverflow,
    ElementIdInvalid,
    ElementNotInPage,
    ElementWithoutTarget,
    ElementOfOtherTarget,
}

/// An optional text: blank counts as none.
pub open spec fn given_text(value: Option<Seq<char>>) -> Option<Seq<char>> {
    match value {
        Some(text) => if text::trim_spec(text).len() == 0 {
            None
        } else {
            Some(text::trim_spec(text))
        },
        None => None,
    }
}

/// Whether a text holds the character NUL.
pub open spec fn has_nul(text: Seq<char>) -> bool {
    text.contains('\0')
}

/// Why an optional text is refused, if it is.
pub open spec fn text_refusal(value: Option<Seq<char>>, field: UploadField) -> Option<UploadError> {
    match value {
        Some(text) => if has_nul(text) {
            Some(UploadError::FieldHasNul { field })
        } else {
            None
        },
        None => None,
    }
}

/// An optional text without the white space around it; blank counts as none.
pub fn normalize_optional_text(value: &Option<String>, field: UploadField) -> (normalized: Result<
    Option<String>,
    UploadError,
>)
    ensures
        match text_refusal(text::opt_text(*value), field) {
            Some(error) => normalized matches Err(given) && given == error,
            None => normalized matches Ok(text)
                && text::opt_text(text) == given_text(text::opt_text(*value)),
        },
{
    let text = match value {
        Some(text) => text,
        None => {
            return Ok(None);
        },
    };
    if contains_char(text.as_str(), '\0') {
        return Err(UploadError::FieldHasNul { field });
    }
    let trimmed = trim(text.as_str());
    if trimmed.unicode_len() == 0 {
        return Ok(None);
    }
    Ok(Some(trimmed.to_owned()))
}

/// What the file system says of a path.
#[derive(Debug)]
pub enum PathCheck {
    Unresolvable,
    Unreadable,
    NotRegular,
    /// A regular file, under its canonical path.
    Regular(String),
}

/// Why a file is refused, if it is.
pub open spec fn file_refusal(index: int, path: Seq<char>, check: PathCheck) -> Option<UploadError> {
    let at = index as usize;
    if has_nul(path) {
        Some(UploadError::FileHasNul { index: at })
    } else if text::is_blank_spec(path) {
        Some(UploadError::FileEmpty { index: at })
    } else {
        match check {
            PathCheck::Unresolvable => Some(UploadError::FileUnresolvable { index: at }),
            PathCheck::Unreadable => Some(UploadError::FileUnreadable { index: at }),
            PathCheck::NotRegular => Some(UploadError::FileNotRegular { index: at }),
            PathCheck::Regular(_) => None,
        }
    }
}

/// The path as the browser is told it.
pub fn path_to_chrome_string(path: &str) -> (text: String)
    ensures
        text@ == path@,
{
    path.to_owned()
}

/// Accepts a path that says something and leads to a regular file, and gives its
/// canonical form.
pub fn validate_upload_file(index: usize, path: &str, check: &PathCheck) -> (file: Result<
    String,
    UploadError,
>)
    ensures
        match file_refusal(index as int, path@, *check) {
            Some(error) => file matches Err(given) && given == error,
            None => file matches Ok(accepted) && check matches PathCheck::Regular(canonical)
                && accepted@ == canonical@,
        },
{
    if contains_char(path, '\0') {
        return Err(UploadError::FileHasNul { index });
    }
    if is_blank(path) {
        return Err(UploadError::FileEmpty { index });
    }
    match check {
        PathCheck::Unresolvable => Err(UploadError::FileUnresolvable { index }),
        PathCheck::Unreadable => Err(UploadError::FileUnreadable { index }),
        PathCheck::NotRegular => Err(UploadError::FileNotRegular { index }),
        PathCheck::Regular(canonical) => Ok(path_to_chrome_string(canonical.as_str())),
    }
}

/// What the file system says of the path at an index; nothing counts as a path
/// that leads nowhere.
pub open spec fn check_at(checks: Seq<PathCheck>, index: int) -> PathCheck {
    if index < checks.len() {
        checks[index]
    } else {
        PathCheck::Unresolvable
    }
}

/// The refusals of the files of a request.
pub open spec fn file_refusals(files: Seq<String>, checks: Seq<PathCheck>) -> Seq<
    Option<UploadError>,
> {
    Seq::new(files.len(), |i: int| file_refusal(i, files[i]@, check_at(checks, i)))
}

/// Why the files of a request are refused, if they are.
pub open spec fn files_refusal(files: Seq<String>, checks: Seq<PathCheck>) -> Option<UploadError> {
    if files.len() == 0 {
        Some(UploadError::FilesRequired)
    } else if files.len() > MAX_FILE_UPLOAD_PATHS {
        Some(UploadError::TooManyFiles { files: files.len() as usize })
    } else {
        crate::checks::first_some(file_refusals(files, checks))
    }
}

/// Whether a file is the canonical path that the file system gave.
pub open spec fn is_canonical(file: String, check: PathCheck) -> bool {
    match check {
        PathCheck::Regular(canonical) => file@ == canonical@,
        _ => false,
    }
}

/// Whether files are the canonical paths that the file system gave.
pub open spec fn are_canonical(files: Seq<String>, checks: Seq<PathCheck>) -> bool {
    files.len() <= checks.len() && forall|i: int|
        0 <= i < files.len() ==> is_canonical(#[trigger] files[i], checks[i])
}

/// Accepts the files of a request: one at least, not too many, each a regular
/// file.
pub fn validate_upload_files(files: &Vec<String>, checks: &Vec<PathCheck>) -> (accepted: Result<
    Vec<String>,
    UploadError,
>)
    ensures
        match files_refusal(files@, checks@) {
            Some(error) => accepted matches Err(given) && given == error,
            None => accepted matches Ok(paths) && paths@.len() == files@.len() && are_canonical(
                paths@,
                checks@,
            ),
        },
{
    if files.len() == 0 {
        return Err(UploadError::FilesRequired);
    }
    if files.len() > MAX_FILE_UPLOAD_PATHS {
        return Err(UploadError::TooManyFiles { files: files.len() });
    }
    let ghost refusals = file_refusals(files@, checks@);
    let missing = PathCheck::Unresolvable;
    let mut accepted: Vec<String> = Vec::new();
    let mut index: usize = 0;
    while index < files.len()
        invariant
            0 < files@.len() <= MAX_FILE_UPLOAD_PATHS,
            missing == PathCheck::Unresolvable,
            index <= files@.len(),
            index <= checks@.len(),
            accepted@.len() == index,
            refusals == file_refusals(files@, checks@),
            forall|i: int| 0 <= i < index ==> (#[trigger] refusals[i]) is None,
            are_canonical(accepted@, checks@),
        decreases files@.len() - index,
    {
        let check: &PathCheck = if index < checks.len() {
            &checks[index]
        } else {
            &missing
        };
        match validate_upload_file(index, files[index].as_str(), check) {
            Ok(path) => {
                assert(refusals[index as int] is None);
                assert(index < checks@.len() && is_canonical(path, checks@[index as int]));
                accepted.push(path);
            },
            Err(error) => {
                proof {
                    assert(refusals[index as int] == Some(error));
                    crate::checks::lemma_first_some_at(refusals, index as int);
                }
                return Err(error);
            },
        }
        index = index + 1;
    }
    proof {
        crate::checks::lemma_first_some_none(refusals);
    }
    Ok(accepted)
}

/// How many locators a request names.
pub open spec fn locator_count(params: BrowserFileUploadParams) -> int {
    (if given_text(text::opt_text(params.selector)) is Some {
        1int
    } else {
        0int
    }) + (if given_text(text::opt_text(params.element_id)) is Some {
        1int
    } else {
        0int
    }) + (if params.active_element {
        1int
    } else {
        0int
    })
}

/// Why the locators of a request are refused, if they are.
pub open spec fn locator_refusal(params: BrowserFileUploadParams) -> Option<UploadError> {
    if params.operation.direct() {
        if locator_count(params) != 1 {
            Some(UploadError::LocatorRequired)
        } else {
            None
        }
    } else if locator_count(params) != 0 {
        Some(UploadError::LocatorForbidden)
    } else {
        None
    }
}

/// Why a request is refused, if it is. `target_id_ok` says whether the target
/// that it names is well-formed.
pub open spec fn upload_refusal(
    params: BrowserFileUploadParams,
    target_id_ok: bool,
    checks: Seq<PathCheck>,
) -> Option<UploadError> {
    let selector = given_text(text::opt_text(params.selector));
    if params.cdp_target_id is Some && !target_id_ok {
        Some(UploadError::TargetIdInvalid)
    } else if text_refusal(text::opt_text(params.selector), UploadField::Selector) is Some {
        text_refusal(text::opt_text(params.selector), UploadField::Selector)
    } else if selector is Some && selector->Some_0.len() > MAX_SELECTOR_CHARS {
        Some(UploadError::SelectorTooLong)
    } else if text_refusal(text::opt_text(params.element_id), UploadField::ElementId) is Some {
        text_refusal(text::opt_text(params.element_id), UploadField::ElementId)
    } else if locator_refusal(params) is Some {
        locator_refusal(params)
    } else if params.operation.takes_files() {
        files_refusal(params.files@, checks)
    } else if params.files@.len() > 0 {
        Some(UploadError::FilesForbidden)
    } else {
        None
    }
}

/// How many choosers are read: at least one, and not too many.
pub open spec fn read_limit(limit: Option<usize>) -> usize {
    match limit {
        None => DEFAULT_CHOOSER_READ_LIMIT,
        Some(asked) => if asked < 1 {
            1
        } else if asked > MAX_CHOOSER_READ_LIMIT {
            MAX_CHOOSER_READ_LIMIT
        } else {
            asked
        },
    }
}

fn clamp_limit(limit: Option<usize>) -> (clamped: usize)
    ensures
        clamped == read_limit(limit),
{
    match limit {
        None => DEFAULT_CHOOSER_READ_LIMIT,
        Some(asked) => if asked < 1 {
            1
        } else if asked > MAX_CHOOSER_READ_LIMIT {
            MAX_CHOOSER_READ_LIMIT
        } else {
            asked
        },
    }
}

/// Whether a request is the one that was asked for, with everything filled in.
pub open spec fn fills_in_upload(
    upload: NormalizedBrowserFileUploadParams,
    params: BrowserFileUploadParams,
    checks: Seq<PathCheck>,
) -> bool {
    &&& upload.operation == params.operation
    &&& text::opt_text(upload.selector) == given_text(text::opt_text(params.selector))
    &&& text::opt_text(upload.element_id) == given_text(text::opt_text(params.element_id))
    &&& upload.active_element == params.active_element
    &&& upload.since_seq == params.since_seq
    &&& upload.limit == read_limit(params.limit)
    &&& if params.operation.takes_files() {
        upload.files@.len() == params.files@.len() && are_canonical(upload.files@, checks)
    } else {
        upload.files@.len() == 0
    }
}

/// Accepts a request that names what its operation needs and nothing else.
pub fn validate_browser_file_upload_params(
    params: &BrowserFileUploadParams,
    target_id_ok: bool,
    checks: &Vec<PathCheck>,
) -> (normalized: Result<NormalizedBrowserFileUploadParams, UploadError>)
    ensures
        match upload_refusal(*params, target_id_ok, checks@) {
            Some(error) => normalized matches Err(given) && given == error,
            None => normalized matches Ok(upload) && fills_in_upload(upload, *params, checks@),
        },
{
    if params.cdp_target_id.is_some() && !target_id_ok {
        return Err(UploadError::TargetIdInvalid);
    }
    let limit: usize = clamp_limit(params.limit);
    let selector = normalize_optional_text(&params.selector, UploadField::Selector)?;
    if let Some(text) = &selector {
        if text.as_str().unicode_len() > MAX_SELECTOR_CHARS {
            return Err(UploadError::SelectorTooLong);
        }
    }
    let element_id = normalize_optional_text(&params.element_id, UploadField::ElementId)?;
    let mut locators: u8 = 0;
    if selector.is_some() {
        locators = locators + 1;
    }
    if element_id.is_some() {
        locators = locators + 1;
    }
    if params.active_element {
        locators = locators + 1;
    }
    let direct: bool = match params.operation {
        BrowserFileUploadOperation::SetFiles => true,
        BrowserFileUploadOperation::Clear => true,
        _ => false,
    };
    if direct {
        if locators != 1 {
            return Err(UploadError::LocatorRequired);
        }
    } else if locators != 0 {
        return Err(UploadError::LocatorForbidden);
    }
    let takes_files: bool = match params.operation {
        BrowserFileUploadOperation::SetFiles => true,
        BrowserFileUploadOperation::SetChooser => true,
        _ => false,
    };
    let files: Vec<String> = if takes_files {
        validate_upload_files(&params.files, checks)?
    } else {
        if params.files.len() > 0 {
            return Err(UploadError::FilesForbidden);
        }
        Vec::new()
    };
    Ok(
        NormalizedBrowserFileUploadParams {
            operation: params.operation,
            files,
            selector,
            element_id,
            active_element: params.active_element,
            since_seq: params.since_seq,
            limit,
        },
    )
}

/// What the identifiers of tabs of the user's own profile begin with.
pub const CHROME_TAB_PREFIX: &'static str = "chrome-tab:";

/// Accepts a tab that may be debugged.
pub fn check_upload_target(cdp_target_id: &str, endpoint_reachable: bool) -> (checked: Result<
    (),
    UploadError,
>)
    ensures
        checked == (if text::has_prefix(cdp_target_id@, CHROME_TAB_PREFIX@) {
            Err::<(), UploadError>(UploadError::TargetForbidsDebugging)
        } else if !endpoint_reachable {
            Err(UploadError::EndpointUnreachable)
        } else {
            Ok(())
        }),
{
    if starts_with(cdp_target_id, CHROME_TAB_PREFIX) {
        return Err(UploadError::TargetForbidsDebugging);
    }
    if !endpoint_reachable {
        return Err(UploadError::EndpointUnreachable);
    }
    Ok(())
}

/// How an input is found.
#[derive(Clone, Copy, Debug, PartialEq, Eq, Structural)]
pub enum InputLocator {
    Selector,
    ElementId,
    ActiveElement,
}

impl InputLocator {
    /// The locator as answers tell it.
    pub fn as_str(self) -> (name: &'static str)
        ensures
            name@ == (match self {
                InputLocator::Selector => "selector"@,
                InputLocator::ElementId => "element_id"@,
                InputLocator::ActiveElement => "active_element"@,
            }),
    {
        match self {
            InputLocator::Selector => "selector",
            InputLocator::ElementId => "element_id",
            InputLocator::ActiveElement => "active_element",
        }
    }
}

/// How the input of a request is found.
pub fn input_locator(upload: &NormalizedBrowserFileUploadParams) -> (locator: Option<InputLocator>)
    ensures
        locator == (if upload.selector is Some {
            Some(InputLocator::Selector)
        } else if upload.element_id is Some {
            Some(InputLocator::ElementId)
        } else if upload.active_element {
            Some(InputLocator::ActiveElement)
        } else {
            None
        }),
{
    if upload.selector.is_some() {
        Some(InputLocator::Selector)
    } else if upload.element_id.is_some() {
        Some(InputLocator::ElementId)
    } else if upload.active_element {
        Some(InputLocator::ActiveElement)
    } else {
        None
    }
}

/// Takes the first of the elements that a selector matched.
pub fn located_input(backend_node_ids: &Vec<i64>, match_count: u64) -> (located: Result<
    (i64, u32),
    UploadError,
>)
    ensures
        located == (if backend_node_ids@.len() == 0 {
            Err(UploadError::SelectorUnmatched)
        } else if match_count > u32::MAX {
            Err(UploadError::MatchCountOverflow)
        } else {
            Ok((backend_node_ids@[0], match_count as u32))
        }),
{
    if backend_node_ids.len() == 0 {
        return Err(UploadError::SelectorUnmatched);
    }
    if match_count > u32::MAX as u64 {
        return Err(UploadError::MatchCountOverflow);
    }
    Ok((backend_node_ids[0], match_count as u32))
}

/// What an element identifier says: whether it can be read, and then the node
/// and the target that it names.
#[derive(Debug)]
pub struct ElementReading {
    pub readable: bool,
    pub backend_node_id: Option<i64>,
    pub target: Option<String>,
}

/// Takes the node of an element identifier of this target. The case of ASCII
/// letters does not tell targets apart.
pub fn element_input(reading: &ElementReading, cdp_target_id: &str) -> (node: Result<
    i64,
    UploadError,
>)
    ensures
        node == (if !reading.readable {
            Err(UploadError::ElementIdInvalid)
        } else if reading.backend_node_id is None {
            Err(UploadError::ElementNotInPage)
        } else if reading.target is None {
            Err(UploadError::ElementWithoutTarget)
        } else if roots::lowered(reading.target->Some_0@) != roots::lowered(cdp_target_id@) {
            Err(UploadError::ElementOfOtherTarget)
        } else {
            Ok(reading.backend_node_id->Some_0)
        }),
{
    if !reading.readable {
        return Err(UploadError::ElementIdInvalid);
    }
    let backend_node_id: i64 = match reading.backend_node_id {
        Some(backend_node_id) => backend_node_id,
        None => {
            return Err(UploadError::ElementNotInPage);
        },
    };
    match &reading.target {
        None => Err(UploadError::ElementWithoutTarget),
        Some(target) => if str_equal(
            lower_text(target.as_str()).as_str(),
            lower_text(cdp_target_id).as_str(),
        ) {
            Ok(backend_node_id)
        } else {
            Err(UploadError::ElementOfOtherTarget)
        },
    }
}

/// An accepted request hands over files exactly where its operation does, and
/// finds an input exactly where its operation needs one.
pub proof fn law_accepted_uploads_are_complete(
    params: BrowserFileUploadParams,
    upload: NormalizedBrowserFileUploadParams,
    target_id_ok: bool,
    checks: Seq<PathCheck>,
)
    requires
        upload_refusal(params, target_id_ok, checks) is None,
        fills_in_upload(upload, params, checks),
    ensures
        params.operation.takes_files() <==> upload.files@.len() > 0,
        upload.files@.len() <= MAX_FILE_UPLOAD_PATHS,
        params.operation.direct() <==> (upload.selector is Some || upload.element_id is Some
            || upload.active_element),
        !(upload.selector is Some && upload.element_id is Some),
        1 <= upload.limit <= MAX_CHOOSER_READ_LIMIT,
{
}

} // verus!
