//! The codes by which the browser tools tell their failures.
use crate::browser::dnd::DndError;
use crate::browser::files::UploadError;
use vstd::prelude::*;
use vstd::string::*;

verus! {

/// The code of a drag that is refused.
pub open spec fn dnd_name(error: DndError) -> Seq<char> {
    match error {
        DndError::TargetIsWindow => "ACTION_TARGET_INVALID"@,
        DndError::NotActionable => "ACTION_TARGET_INVALID"@,
        DndError::TargetNotSet => "TARGET_NOT_SET"@,
        DndError::TargetForbidsDebugging => "A11Y_CDP_DEBUGGER_WARNING_UNSUPPRESSED"@,
        DndError::EndpointUnreachable => "A11Y_CDP_UNREACHABLE"@,
        DndError::GeometryMalformed => "ACTION_POSTCONDITION_FAILED"@,
        _ => "TOOL_PARAMS_INVALID"@,
    }
}

/// The code of a drag that is refused.
pub fn dnd_code(error: DndError) -> (code: &'static str)
    ensures
        code@ == dnd_name(error),
{
    match error {
        DndError::TargetIsWindow => "ACTION_TARGET_INVALID",
        DndError::NotActionable => "ACTION_TARGET_INVALID",
        DndError::TargetNotSet => "TARGET_NOT_SET",
        DndError::TargetForbidsDebugging => "A11Y_CDP_DEBUGGER_WARNING_UNSUPPRESSED",
        DndError::EndpointUnreachable => "A11Y_CDP_UNREACHABLE",
        DndError::GeometryMalformed => "ACTION_POSTCONDITION_FAILED",
        _ => "TOOL_PARAMS_INVALID",
    }
}

/// The code of an upload that is refused.
pub open spec fn upload_name(error: UploadError) -> Seq<char> {
    match error {
        UploadError::FileUnresolvable { .. } => "ACTION_TARGET_INVALID"@,
        UploadError::FileUnreadable { .. } => "ACTION_TARGET_INVALID"@,
        UploadError::FileNotRegular { .. } => "ACTION_TARGET_INVALID"@,
        UploadError::SelectorUnmatched => "ACTION_TARGET_INVALID"@,
        UploadError::ElementNotInPage => "ACTION_TARGET_INVALID"@,
        UploadError::ElementWithoutTarget => "ACTION_TARGET_INVALID"@,
        UploadError::ElementOfOtherTarget => "ACTION_TARGET_INVALID"@,
        UploadError::TargetForbidsDebugging => "A11Y_CDP_DEBUGGER_WARNING_UNSUPPRESSED"@,
        UploadError::EndpointUnreachable => "A11Y_CDP_UNREACHABLE"@,
        UploadError::MatchCountOverflow => "ACTION_POSTCONDITION_FAILED"@,
        _ => "TOOL_PARAMS_INVALID"@,
    }
}

/// The code of an upload that is refused.
pub fn upload_code(error: UploadError) -> (code: &'static str)
    ensures
        code@ == upload_name(error),
{
    match error {
        UploadError::FileUnresolvable { .. } => "ACTION_TARGET_INVALID",
        UploadError::FileUnreadable { .. } => "ACTION_TARGET_INVALID",
        UploadError::FileNotRegular { .. } => "ACTION_TARGET_INVALID",
        UploadError::SelectorUnmatched => "ACTION_TARGET_INVALID",
        UploadError::ElementNotInPage => "ACTION_TARGET_INVALID",
        UploadError::ElementWithoutTarget => "ACTION_TARGET_INVALID",
        UploadError::ElementOfOtherTarget => "ACTION_TARGET_INVALID",
        UploadError::TargetForbidsDebugging => "A11Y_CDP_DEBUGGER_WARNING_UNSUPPRESSED",
        UploadError::EndpointUnreachable => "A11Y_CDP_UNREACHABLE",
        UploadError::MatchCountOverflow => "ACTION_POSTCONDITION_FAILED",
        _ => "TOOL_PARAMS_INVALID",
    }
}

} // verus!
