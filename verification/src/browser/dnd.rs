//! Dragging one element of a page onto another.
use crate::digest::hex_digit;
use crate::json;
use crate::text;
use crate::text::{decimal, joined, starts_with, trim};
use vstd::prelude::*;
use vstd::string::*;

verus! {

pub const BROWSER_DRAG_TOOL: &'static str = "browser_drag";

pub const BROWSER_DROP_TOOL: &'static str = "browser_drop";

pub const DEFAULT_MOUSE_STEPS: u32 = 12;

pub const DEFAULT_MOUSE_DURATION_MS: u64 = 350;

pub const MAX_SELECTOR_CHARS: usize = 4096;

pub const MAX_DRAG_DATA_CHARS: usize = 16_384;

/// The milliseconds between two looks at the page.
pub const GEOMETRY_POLL_MS: u64 = 50;

/// How a drag is carried out.
#[derive(Clone, Copy, Debug, PartialEq, Eq, Structural)]
pub enum BrowserDndMode {
    /// Mouse events of the debugging protocol.
    Mouse,
    /// Events made in the page, which the page can tell from real ones.
    Html5,
    /// Drag events of the debugging protocol, which the page takes for real.
    Html5Real,
}

impl BrowserDndMode {
    /// The mode as callers write it.
    pub fn as_str(self) -> (name: &'static str)
        ensures
            name@ == (match self {
                BrowserDndMode::Mouse => "mouse"@,
                BrowserDndMode::Html5 => "html5"@,
                BrowserDndMode::Html5Real => "html5_real"@,
            }),
    {
        match self {
            BrowserDndMode::Mouse => "mouse",
            BrowserDndMode::Html5 => "html5",
            BrowserDndMode::Html5Real => "html5_real",
        }
    }

    /// The method that a drag is handed to.
    pub open spec fn method(self) -> Seq<char> {
        match self {
            BrowserDndMode::Mouse => "raw_cdp.Input.dispatchMouseEvent.drag"@,
            BrowserDndMode::Html5 => "raw_cdp.Runtime.evaluate.DragEvent"@,
            BrowserDndMode::Html5Real => "raw_cdp.Input.dispatchDragEvent"@,
        }
    }

    /// The method that a drag is handed to.
    pub fn delegated_method(self) -> (method: &'static str)
        ensures
            method@ == self.method(),
    {
        match self {
            BrowserDndMode::Mouse => "raw_cdp.Input.dispatchMouseEvent.drag",
            BrowserDndMode::Html5 => "raw_cdp.Runtime.evaluate.DragEvent",
            BrowserDndMode::Html5Real => "raw_cdp.Input.dispatchDragEvent",
        }
    }
}

/// What a drag is asked for.
#[derive(Debug)]
pub struct BrowserDndParams {
    pub source_selector: String,
    pub target_selector: String,
    pub mode: Option<BrowserDndMode>,
    pub steps: Option<u32>,
    pub duration_ms: Option<u64>,
    pub data_mime_type: Option<String>,
    pub data_text: Option<String>,
    pub cdp_target_id: Option<String>,
    pub window_hwnd: Option<i64>,
    pub wait_timeout_ms: Option<u64>,
    pub auto_wait: Option<bool>,
    pub auto_wait_timeout_ms: Option<u32>,
}

/// A drag with everything filled in.
#[derive(Debug)]
pub struct NormalizedBrowserDndParams {
    pub mode: BrowserDndMode,
    pub source_selector: String,
    pub target_selector: String,
    pub steps: u32,
    pub duration_ms: u64,
    pub data_mime_type: Option<String>,
    pub data_text: Option<String>,
    pub wait_timeout_ms: u64,
    pub auto_wait: bool,
    pub auto_wait_timeout_ms: u32,
}

/// Which of the two selectors.
#[derive(Clone, Copy, Debug, PartialEq, Eq, Structural)]
pub enum SelectorName {
    Source,
    Target,
}

/// Why a drag is refused.
#[derive(Clone, Copy, Debug, PartialEq, Eq, Structural)]
pub enum DndError {
    SelectorEmpty { name: SelectorName },
    SelectorTooLong { name: SelectorName },
    StepsOutOfRange { steps: u32 },
    DurationOutOfRange { duration_ms: u64 },
    WaitTimeoutOutOfRange { wait_timeout_ms: u64 },
    AutoWaitTimeoutOutOfRange { auto_wait_timeout_ms: u32 },
    MimeTypeTooLong,
    DataTextTooLong,
    TargetIsWindow,
    TargetNotSet,
    /// The profile of the tab forbids debugging.
    TargetForbidsDebugging,
    EndpointUnreachable,
    GeometryMalformed,
    NotActionable,
    SelectorNotQuotable,
}

/// Why a selector is refused, if it is.
pub open spec fn selector_refusal(name: SelectorName, value: Seq<char>) -> Option<DndError> {
    if text::trim_spec(value).len() == 0 {
        Some(DndError::SelectorEmpty { name })
    } else if text::trim_spec(value).len() > MAX_SELECTOR_CHARS {
        Some(DndError::SelectorTooLong { name })
    } else {
        None
    }
}

/// Accepts a selector that says something and is not too long, without the white
/// space around it.
pub fn validate_selector(name: SelectorName, value: &str) -> (selector: Result<String, DndError>)
    ensures
        match selector_refusal(name, value@) {
            Some(error) => selector matches Err(given) && given == error,
            None => selector matches Ok(accepted) && accepted@ == text::trim_spec(value@),
        },
{
    let trimmed = trim(value);
    let chars: usize = trimmed.unicode_len();
    if chars == 0 {
        return Err(DndError::SelectorEmpty { name });
    }
    if chars > MAX_SELECTOR_CHARS {
        return Err(DndError::SelectorTooLong { name });
    }
    Ok(trimmed.to_owned())
}

/// A value that was asked for, or the one that stands for it.
pub open spec fn asked_or<T>(asked: Option<T>, otherwise: T) -> T {
    match asked {
        Some(value) => value,
        None => otherwise,
    }
}

/// The type of the dragged data, where one is named.
pub open spec fn mime_type_of(params: BrowserDndParams) -> Option<Seq<char>> {
    match params.data_mime_type {
        Some(value) => if text::trim_spec(value@).len() == 0 {
            None
        } else {
            Some(text::trim_spec(value@))
        },
        None => None,
    }
}

/// Why a drag is refused, if it is.
pub open spec fn dnd_refusal(params: BrowserDndParams) -> Option<DndError> {
    let steps = asked_or(params.steps, DEFAULT_MOUSE_STEPS);
    let duration_ms = asked_or(params.duration_ms, DEFAULT_MOUSE_DURATION_MS);
    let wait_timeout_ms = asked_or(params.wait_timeout_ms, 5000);
    let auto_wait_timeout_ms = asked_or(params.auto_wait_timeout_ms, 2000);
    if selector_refusal(SelectorName::Source, params.source_selector@) is Some {
        selector_refusal(SelectorName::Source, params.source_selector@)
    } else if selector_refusal(SelectorName::Target, params.target_selector@) is Some {
        selector_refusal(SelectorName::Target, params.target_selector@)
    } else if !(1 <= steps <= 100) {
        Some(DndError::StepsOutOfRange { steps })
    } else if duration_ms > 10_000 {
        Some(DndError::DurationOutOfRange { duration_ms })
    } else if !(50 <= wait_timeout_ms <= 30_000) {
        Some(DndError::WaitTimeoutOutOfRange { wait_timeout_ms })
    } else if !(50 <= auto_wait_timeout_ms <= 30_000) {
        Some(DndError::AutoWaitTimeoutOutOfRange { auto_wait_timeout_ms })
    } else if mime_type_of(params) is Some && json::byte_len(mime_type_of(params)->Some_0) > 255 {
        Some(DndError::MimeTypeTooLong)
    } else if params.data_text is Some && params.data_text->Some_0@.len() > MAX_DRAG_DATA_CHARS {
        Some(DndError::DataTextTooLong)
    } else {
        None
    }
}

/// Whether a drag is the one that was asked for, with everything filled in.
pub open spec fn fills_in(
    dnd: NormalizedBrowserDndParams,
    params: BrowserDndParams,
    default_mode: BrowserDndMode,
) -> bool {
    &&& dnd.mode == asked_or(params.mode, default_mode)
    &&& dnd.source_selector@ == text::trim_spec(params.source_selector@)
    &&& dnd.target_selector@ == text::trim_spec(params.target_selector@)
    &&& dnd.steps == asked_or(params.steps, DEFAULT_MOUSE_STEPS)
    &&& dnd.duration_ms == asked_or(params.duration_ms, DEFAULT_MOUSE_DURATION_MS)
    &&& text::opt_text(dnd.data_mime_type) == mime_type_of(params)
    &&& text::opt_text(dnd.data_text) == text::opt_text(params.data_text)
    &&& dnd.wait_timeout_ms == asked_or(params.wait_timeout_ms, 5000)
    &&& dnd.auto_wait == asked_or(params.auto_wait, true)
    &&& dnd.auto_wait_timeout_ms == asked_or(params.auto_wait_timeout_ms, 2000)
}

/// Accepts a drag within its limits and fills in what was left open.
pub fn validate_browser_dnd_params(
    params: &BrowserDndParams,
    default_mode: BrowserDndMode,
) -> (normalized: Result<NormalizedBrowserDndParams, DndError>)
    ensures
        match dnd_refusal(*params) {
            Some(error) => normalized matches Err(given) && given == error,
            None => normalized matches Ok(dnd) && fills_in(dnd, *params, default_mode),
        },
{
    let source_selector = validate_selector(SelectorName::Source, params.source_selector.as_str())?;
    let target_selector = validate_selector(SelectorName::Target, params.target_selector.as_str())?;
    let mode = match params.mode {
        Some(mode) => mode,
        None => default_mode,
    };
    let steps: u32 = match params.steps {
        Some(steps) => steps,
        None => DEFAULT_MOUSE_STEPS,
    };
    if steps < 1 || steps > 100 {
        return Err(DndError::StepsOutOfRange { steps });
    }
    let duration_ms: u64 = match params.duration_ms {
        Some(duration_ms) => duration_ms,
        None => DEFAULT_MOUSE_DURATION_MS,
    };
    if duration_ms > 10_000 {
        return Err(DndError::DurationOutOfRange { duration_ms });
    }
    let wait_timeout_ms: u64 = match params.wait_timeout_ms {
        Some(wait_timeout_ms) => wait_timeout_ms,
        None => 5000,
    };
    if wait_timeout_ms < 50 || wait_timeout_ms > 30_000 {
        return Err(DndError::WaitTimeoutOutOfRange { wait_timeout_ms });
    }
    let auto_wait_timeout_ms: u32 = match params.auto_wait_timeout_ms {
        Some(auto_wait_timeout_ms) => auto_wait_timeout_ms,
        None => 2000,
    };
    if auto_wait_timeout_ms < 50 || auto_wait_timeout_ms > 30_000 {
        return Err(DndError::AutoWaitTimeoutOutOfRange { auto_wait_timeout_ms });
    }
    let data_mime_type: Option<String> = match &params.data_mime_type {
        Some(value) => {
            let trimmed = trim(value.as_str());
            if trimmed.unicode_len() == 0 {
                None
            } else {
                Some(trimmed.to_owned())
            }
        },
        None => None,
    };
    if let Some(mime_type) = &data_mime_type {
        if mime_type.as_str().as_bytes().len() > 255 {
            return Err(DndError::MimeTypeTooLong);
        }
    }
    if let Some(text) = &params.data_text {
        if text.as_str().unicode_len() > MAX_DRAG_DATA_CHARS {
            return Err(DndError::DataTextTooLong);
        }
    }
    Ok(
        NormalizedBrowserDndParams {
            mode,
            source_selector,
            target_selector,
            steps,
            duration_ms,
            data_mime_type,
            data_text: params.data_text.clone(),
            wait_timeout_ms,
            auto_wait: match params.auto_wait {
                Some(auto_wait) => auto_wait,
                None => true,
            },
            auto_wait_timeout_ms,
        },
    )
}

/// What a session points its actions at.
#[derive(Debug)]
pub enum SessionTarget {
    Unset,
    Window,
    Cdp { window_hwnd: i64, cdp_target_id: String },
}

/// What the identifiers of tabs of the user's own profile begin with.
pub const CHROME_TAB_PREFIX: &'static str = "chrome-tab:";

/// Accepts a tab that may be debugged.
pub fn resolve_browser_dnd_target(target: SessionTarget, endpoint_reachable: bool) -> (resolved:
    Result<(i64, String), DndError>)
    ensures
        match target {
            SessionTarget::Unset => resolved matches Err(error) && error == DndError::TargetNotSet,
            SessionTarget::Window => resolved matches Err(error) && error
                == DndError::TargetIsWindow,
            SessionTarget::Cdp { window_hwnd, cdp_target_id } => if text::has_prefix(
                cdp_target_id@,
                CHROME_TAB_PREFIX@,
            ) {
                resolved matches Err(error) && error == DndError::TargetForbidsDebugging
            } else if !endpoint_reachable {
                resolved matches Err(error) && error == DndError::EndpointUnreachable
            } else {
                resolved matches Ok(found) && found.0 == window_hwnd && found.1 == cdp_target_id
            },
        },
{
    match target {
        SessionTarget::Unset => Err(DndError::TargetNotSet),
        SessionTarget::Window => Err(DndError::TargetIsWindow),
        SessionTarget::Cdp { window_hwnd, cdp_target_id } => {
            if starts_with(cdp_target_id.as_str(), CHROME_TAB_PREFIX) {
                return Err(DndError::TargetForbidsDebugging);
            }
            if !endpoint_reachable {
                return Err(DndError::EndpointUnreachable);
            }
            Ok((window_hwnd, cdp_target_id))
        },
    }
}

/// The milliseconds for which the page is looked at again.
pub fn geometry_wait_budget_ms(dnd: &NormalizedBrowserDndParams) -> (budget: u64)
    ensures
        budget == (if dnd.auto_wait_timeout_ms as u64 <= dnd.wait_timeout_ms {
            dnd.auto_wait_timeout_ms as u64
        } else {
            dnd.wait_timeout_ms
        }),
{
    let auto_wait_ms: u64 = dnd.auto_wait_timeout_ms as u64;
    if auto_wait_ms <= dnd.wait_timeout_ms {
        auto_wait_ms
    } else {
        dnd.wait_timeout_ms
    }
}

/// What follows from a look at the page.
#[derive(Clone, Copy, Debug, PartialEq, Eq, Structural)]
pub enum GeometryVerdict {
    Ready,
    Refuse(DndError),
    /// The page is looked at again after a moment.
    Wait,
}

/// What follows from a look at the page: elements that are ready are used;
/// others are waited for as long as the budget lasts, but not where the
/// selector itself is wrong.
pub fn judge_geometry(
    dnd: &NormalizedBrowserDndParams,
    ready: bool,
    reason: &str,
    elapsed_ms: u64,
) -> (verdict: GeometryVerdict)
    ensures
        ({
            let budget = if dnd.auto_wait_timeout_ms as u64 <= dnd.wait_timeout_ms {
                dnd.auto_wait_timeout_ms as u64
            } else {
                dnd.wait_timeout_ms
            };
            verdict == (if ready {
                GeometryVerdict::Ready
            } else if text::has_prefix(reason@, "invalid_selector"@) || !dnd.auto_wait || elapsed_ms
                >= budget {
                GeometryVerdict::Refuse(DndError::NotActionable)
            } else {
                GeometryVerdict::Wait
            })
        }),
{
    if ready {
        return GeometryVerdict::Ready;
    }
    if starts_with(reason, "invalid_selector") || !dnd.auto_wait || elapsed_ms
        >= geometry_wait_budget_ms(dnd) {
        return GeometryVerdict::Refuse(DndError::NotActionable);
    }
    GeometryVerdict::Wait
}

/// Where an event comes from.
#[derive(Clone, Copy, Debug, PartialEq, Eq, Structural)]
pub enum DeliveryOrigin {
    CdpProtocol,
    DomDispatch,
}

/// What a drag tells of how it was delivered.
#[derive(Clone, Copy, Debug)]
pub struct DndProvenance {
    pub delivery_origin: DeliveryOrigin,
    /// Whether the page takes the events for real.
    pub trusted: bool,
    /// Whether the browser does what it does for a user.
    pub user_agent_input: bool,
    pub transport: &'static str,
    pub protocol_method: &'static str,
}

/// The method by which the events of a drag are delivered.
pub open spec fn protocol_method_of(mode: BrowserDndMode) -> Seq<char> {
    match mode {
        BrowserDndMode::Mouse => {
            "Input.dispatchMouseEvent(mouseMoved,mousePressed,dragMove,mouseReleased)"@
        },
        BrowserDndMode::Html5 => "dispatchEvent(DragEvent sequence)"@,
        BrowserDndMode::Html5Real => "Input.dispatchDragEvent(dragEnter,dragOver,drop)"@,
    }
}

/// What a drag tells of how it was delivered: only events made in the page can
/// be told from real ones.
pub fn dnd_provenance(mode: BrowserDndMode) -> (provenance: DndProvenance)
    ensures
        provenance.delivery_origin == (if mode == BrowserDndMode::Html5 {
            DeliveryOrigin::DomDispatch
        } else {
            DeliveryOrigin::CdpProtocol
        }),
        provenance.trusted == (mode != BrowserDndMode::Html5),
        provenance.user_agent_input == (mode != BrowserDndMode::Html5),
        provenance.transport@ == "raw_cdp"@,
        provenance.protocol_method@ == protocol_method_of(mode),
{
    match mode {
        BrowserDndMode::Mouse => DndProvenance {
            delivery_origin: DeliveryOrigin::CdpProtocol,
            trusted: true,
            user_agent_input: true,
            transport: "raw_cdp",
            protocol_method: "Input.dispatchMouseEvent(mouseMoved,mousePressed,dragMove,mouseReleased)",
        },
        BrowserDndMode::Html5 => DndProvenance {
            delivery_origin: DeliveryOrigin::DomDispatch,
            trusted: false,
            user_agent_input: false,
            transport: "raw_cdp",
            protocol_method: "dispatchEvent(DragEvent sequence)",
        },
        BrowserDndMode::Html5Real => DndProvenance {
            delivery_origin: DeliveryOrigin::CdpProtocol,
            trusted: true,
            user_agent_input: true,
            transport: "raw_cdp",
            protocol_method: "Input.dispatchDragEvent(dragEnter,dragOver,drop)",
        },
    }
}

/// The type of the dragged data, plain text where none is named.
pub open spec fn dragged_mime(dnd: NormalizedBrowserDndParams) -> Seq<char> {
    match dnd.data_mime_type {
        Some(mime) => mime@,
        None => "text/plain"@,
    }
}

/// The type of the dragged data.
pub fn drag_mime<'a>(dnd: &'a NormalizedBrowserDndParams) -> (mime: &'a str)
    ensures
        mime@ == dragged_mime(*dnd),
{
    match &dnd.data_mime_type {
        Some(mime) => mime.as_str(),
        None => "text/plain",
    }
}

/// The dragged data, the text of the source where none is given.
pub open spec fn dragged_data(dnd: NormalizedBrowserDndParams, source_text: Seq<char>) -> Seq<char> {
    match dnd.data_text {
        Some(data) => data@,
        None => source_text,
    }
}

/// The dragged data.
pub fn drag_data<'a>(dnd: &'a NormalizedBrowserDndParams, source_text: &'a str) -> (data: &'a str)
    ensures
        data@ == dragged_data(*dnd, source_text@),
{
    match &dnd.data_text {
        Some(data) => data.as_str(),
        None => source_text,
    }
}

/// A character inside a JSON string: quotes, backslashes and control characters are
/// escaped, everything else stands for itself.
pub open spec fn json_escape(ch: char) -> Seq<char> {
    if ch == '"' || ch == '\\' {
        seq!['\\', ch]
    } else if ch == '\u{8}' {
        seq!['\\', 'b']
    } else if ch == '\t' {
        seq!['\\', 't']
    } else if ch == '\n' {
        seq!['\\', 'n']
    } else if ch == '\u{c}' {
        seq!['\\', 'f']
    } else if ch == '\r' {
        seq!['\\', 'r']
    } else if (ch as int) < 32 {
        seq!['\\', 'u', '0', '0', hex_digit(ch as int / 16), hex_digit(ch as int % 16)]
    } else {
        seq![ch]
    }
}

/// A text as a JSON string: its characters, escaped, between quotes.
pub open spec fn json_quoting(text: Seq<char>) -> Seq<char> {
    seq!['"'] + text.map_values(|ch: char| json_escape(ch)).flatten() + seq!['"']
}

/// `serde_json::to_string` writes a string as a JSON string, and never fails on one:
/// it writes to a vector in memory.
#[verifier::external_body]
pub(crate) fn quote_json(text: &str) -> (quoted: Result<String, String>)
    ensures
        quoted is Ok,
        quoted matches Ok(written) ==> written@ == json_quoting(text@),
{
    serde_json::to_string(text).map_err(|error| error.to_string())
}

pub const GEOMETRY_SOURCES: &'static str = "(() => {\n          let sources, targets;\n          try {\n            sources = Array.from(document.querySelectorAll(";

pub const GEOMETRY_TARGETS: &'static str = "));\n            targets = Array.from(document.querySelectorAll(";

pub const GEOMETRY_REST: &'static str = "));\n          } catch (error) {\n            return {ok:false,reason:`invalid_selector:${String(error && error.message || error)}`,source_count:0,target_count:0,source_x:0,source_y:0,target_x:0,target_y:0,source_text:\"\"};\n          }\n          if (sources.length !== 1 || targets.length !== 1) {\n            return {ok:false,reason:\"strict_match_count\",source_count:sources.length,target_count:targets.length,source_x:0,source_y:0,target_x:0,target_y:0,source_text:\"\"};\n          }\n          const inspect = (element) => {\n            const rect = element.getBoundingClientRect();\n            const style = getComputedStyle(element);\n            const actionable = element.isConnected && rect.width > 0 && rect.height > 0 &&\n              style.display !== \"none\" && style.visibility !== \"hidden\" &&\n              style.pointerEvents !== \"none\" && !element.disabled;\n            return {actionable,x:rect.left + rect.width / 2,y:rect.top + rect.height / 2};\n          };\n          const sourceState = inspect(sources[0]);\n          const targetState = inspect(targets[0]);\n          return {\n            ok: sourceState.actionable && targetState.actionable,\n            reason: sourceState.actionable ? (targetState.actionable ? \"ready\" : \"target_not_actionable\") : \"source_not_actionable\",\n            source_count: sources.length,\n            target_count: targets.length,\n            source_x: sourceState.x,\n            source_y: sourceState.y,\n            target_x: targetState.x,\n            target_y: targetState.y,\n            source_text: String(sources[0].innerText || sources[0].textContent || \"\")\n          };\n        })()";

pub const DISPATCH_SOURCES: &'static str = "(() => {\n          const sources = Array.from(document.querySelectorAll(";

pub const DISPATCH_TARGETS: &'static str = "));\n          const targets = Array.from(document.querySelectorAll(";

pub const DISPATCH_DATA: &'static str = "));\n          if (sources.length !== 1 || targets.length !== 1) {\n            throw new Error(`drag target drift: source_count=${sources.length} target_count=${targets.length}`);\n          }\n          const source = sources[0];\n          const target = targets[0];\n          const transfer = new DataTransfer();\n          transfer.setData(";

pub const DISPATCH_COMMA: &'static str = ", ";

pub const DISPATCH_EVENTS: &'static str = ");\n          const plan = [\n            [source,\"dragstart\"], [target,\"dragenter\"], [target,\"dragover\"],\n            [target,\"drop\"], [source,\"dragend\"]\n          ];\n          const events = plan.map(([node,type]) => {\n            const event = new DragEvent(type, {bubbles:true,cancelable:true,dataTransfer:transfer});\n            const defaultAllowed = node.dispatchEvent(event);\n            return {type,default_allowed:defaultAllowed,default_prevented:event.defaultPrevented,is_trusted:event.isTrusted};\n          });\n          return {\n            target_id:";

pub const DISPATCH_MIME: &'static str = ",\n            events,\n            mime_type:";

pub const DISPATCH_LENGTH: &'static str = ",\n            data_length:";

pub const DISPATCH_REST: &'static str = ",\n            source_connected:source.isConnected,\n            target_connected:target.isConnected,\n            target_text:String(target.innerText || target.textContent || \"\"),\n            target_class:String(target.className || \"\")\n          };\n        })()";

/// The expression that looks for the two elements of a drag. Both selectors must
/// match exactly one element each.
pub open spec fn geometry_text(source: Seq<char>, target: Seq<char>) -> Seq<char> {
    GEOMETRY_SOURCES@ + source + GEOMETRY_TARGETS@ + target + GEOMETRY_REST@
}

/// The expression over selectors that are quoted already.
pub fn geometry_expression_of(source: &str, target: &str) -> (expression: String)
    ensures
        expression@ == geometry_text(source@, target@),
{
    let mut expression = joined(GEOMETRY_SOURCES, source);
    expression.append(GEOMETRY_TARGETS);
    expression.append(target);
    expression.append(GEOMETRY_REST);
    expression
}

/// The expression that looks for the two elements of a drag.
pub fn geometry_expression(dnd: &NormalizedBrowserDndParams) -> (expression: Result<
    String,
    DndError,
>)
    ensures
        expression matches Ok(text) && text@ == geometry_text(
            json_quoting(dnd.source_selector@),
            json_quoting(dnd.target_selector@),
        ),
{
    match (quote_json(dnd.source_selector.as_str()), quote_json(dnd.target_selector.as_str())) {
        (Ok(source), Ok(target)) => Ok(geometry_expression_of(source.as_str(), target.as_str())),
        _ => Err(DndError::SelectorNotQuotable),
    }
}

/// What an expression that makes the events of a drag is filled with, quoted
/// already.
#[derive(Debug)]
pub struct DispatchParts {
    pub source: String,
    pub target: String,
    pub mime: String,
    pub data: String,
    pub target_id: String,
    /// The bytes of the dragged data.
    pub data_length: u64,
}

/// The expression that makes the events of a drag in the page.
pub open spec fn dispatch_text(parts: DispatchParts) -> Seq<char> {
    DISPATCH_SOURCES@ + parts.source@ + DISPATCH_TARGETS@ + parts.target@ + DISPATCH_DATA@
        + parts.mime@ + DISPATCH_COMMA@ + parts.data@ + DISPATCH_EVENTS@ + parts.target_id@
        + DISPATCH_MIME@ + parts.mime@ + DISPATCH_LENGTH@ + text::decimal_text(
        parts.data_length as nat,
    ) + DISPATCH_REST@
}

/// The expression over parts that are quoted already.
pub fn dispatch_expression_of(parts: &DispatchParts) -> (expression: String)
    ensures
        expression@ == dispatch_text(*parts),
{
    let mut expression = joined(DISPATCH_SOURCES, parts.source.as_str());
    expression.append(DISPATCH_TARGETS);
    expression.append(parts.target.as_str());
    expression.append(DISPATCH_DATA);
    expression.append(parts.mime.as_str());
    expression.append(DISPATCH_COMMA);
    expression.append(parts.data.as_str());
    expression.append(DISPATCH_EVENTS);
    expression.append(parts.target_id.as_str());
    expression.append(DISPATCH_MIME);
    expression.append(parts.mime.as_str());
    expression.append(DISPATCH_LENGTH);
    expression.append(decimal(parts.data_length).as_str());
    expression.append(DISPATCH_REST);
    expression
}

/// Whether parts are the quotings of what a drag is filled with.
pub open spec fn quotes_drag(
    parts: DispatchParts,
    dnd: NormalizedBrowserDndParams,
    source_text: Seq<char>,
    cdp_target_id: Seq<char>,
) -> bool {
    &&& parts.source@ == json_quoting(dnd.source_selector@)
    &&& parts.target@ == json_quoting(dnd.target_selector@)
    &&& parts.mime@ == json_quoting(dragged_mime(dnd))
    &&& parts.data@ == json_quoting(dragged_data(dnd, source_text))
    &&& parts.target_id@ == json_quoting(cdp_target_id)
    &&& parts.data_length == json::byte_len(dragged_data(dnd, source_text)) as u64
}

/// Quotes what the events of a drag are filled with.
pub fn dispatch_parts(
    dnd: &NormalizedBrowserDndParams,
    source_text: &str,
    cdp_target_id: &str,
) -> (parts: Result<DispatchParts, DndError>)
    ensures
        parts matches Ok(quoted) && quotes_drag(quoted, *dnd, source_text@, cdp_target_id@),
{
    let text = drag_data(dnd, source_text);
    let source = match quote_json(dnd.source_selector.as_str()) {
        Ok(source) => source,
        Err(_) => {
            return Err(DndError::SelectorNotQuotable);
        },
    };
    let target = match quote_json(dnd.target_selector.as_str()) {
        Ok(target) => target,
        Err(_) => {
            return Err(DndError::SelectorNotQuotable);
        },
    };
    let mime = match quote_json(drag_mime(dnd)) {
        Ok(mime) => mime,
        Err(_) => {
            return Err(DndError::SelectorNotQuotable);
        },
    };
    let data = match quote_json(text) {
        Ok(data) => data,
        Err(_) => {
            return Err(DndError::SelectorNotQuotable);
        },
    };
    let target_id = match quote_json(cdp_target_id) {
        Ok(target_id) => target_id,
        Err(_) => {
            return Err(DndError::SelectorNotQuotable);
        },
    };
    let data_length: u64 = text.as_bytes().len() as u64;
    Ok(DispatchParts { source, target, mime, data, target_id, data_length })
}

/// A drag that is accepted is within its limits, whatever was left open.
pub proof fn law_accepted_drags_are_within_limits(
    params: BrowserDndParams,
    dnd: NormalizedBrowserDndParams,
    default_mode: BrowserDndMode,
)
    requires
        dnd_refusal(params) is None,
        fills_in(dnd, params, default_mode),
    ensures
        0 < dnd.source_selector@.len() <= MAX_SELECTOR_CHARS,
        0 < dnd.target_selector@.len() <= MAX_SELECTOR_CHARS,
        1 <= dnd.steps <= 100,
        dnd.duration_ms <= 10_000,
        50 <= dnd.wait_timeout_ms <= 30_000,
        50 <= dnd.auto_wait_timeout_ms <= 30_000,
        dnd.data_text matches Some(text) ==> text@.len() <= MAX_DRAG_DATA_CHARS,
{
}

} // verus!
