//! The names under which errors of the browser tools are told.
use crate::browser::codes;
use crate::browser::dnd::DndError;
use crate::browser::files::UploadError;
use vstd::prelude::*;
use vstd::string::*;

verus! {

/// The code of a refused drag; where nothing else is said, its request is at fault.
pub proof fn law_dnd_names(error: DndError)
    ensures
        match error {
            DndError::TargetIsWindow => codes::dnd_name(error) == "ACTION_TARGET_INVALID"@,
            DndError::NotActionable => codes::dnd_name(error) == "ACTION_TARGET_INVALID"@,
            DndError::TargetNotSet => codes::dnd_name(error) == "TARGET_NOT_SET"@,
            DndError::TargetForbidsDebugging => codes::dnd_name(error)
                == "A11Y_CDP_DEBUGGER_WARNING_UNSUPPRESSED"@,
            DndError::EndpointUnreachable => codes::dnd_name(error) == "A11Y_CDP_UNREACHABLE"@,
            DndError::GeometryMalformed => codes::dnd_name(error) == "ACTION_POSTCONDITION_FAILED"@,
            _ => codes::dnd_name(error) == "TOOL_PARAMS_INVALID"@,
        },
{
}

/// The code of a refused upload; where nothing else is said, its request is at fault.
pub proof fn law_upload_names(error: UploadError)
    ensures
        match error {
            UploadError::FileUnresolvable { .. } => codes::upload_name(error)
                == "ACTION_TARGET_INVALID"@,
            UploadError::FileUnreadable { .. } => codes::upload_name(error)
                == "ACTION_TARGET_INVALID"@,
            UploadError::FileNotRegular { .. } => codes::upload_name(error)
                == "ACTION_TARGET_INVALID"@,
            UploadError::SelectorUnmatched => codes::upload_name(error) == "ACTION_TARGET_INVALID"@,
            UploadError::ElementNotInPage => codes::upload_name(error) == "ACTION_TARGET_INVALID"@,
            UploadError::ElementWithoutTarget => codes::upload_name(error)
                == "ACTION_TARGET_INVALID"@,
            UploadError::ElementOfOtherTarget => codes::upload_name(error)
                == "ACTION_TARGET_INVALID"@,
            UploadError::TargetForbidsDebugging => codes::upload_name(error)
                == "A11Y_CDP_DEBUGGER_WARNING_UNSUPPRESSED"@,
            UploadError::EndpointUnreachable => codes::upload_name(error)
                == "A11Y_CDP_UNREACHABLE"@,
            UploadError::MatchCountOverflow => codes::upload_name(error)
                == "ACTION_POSTCONDITION_FAILED"@,
            _ => codes::upload_name(error) == "TOOL_PARAMS_INVALID"@,
        },
{
}

} // verus!
