//! The order in which the browser tools act on a page. An operator can stop all
//! changes: whether they did is asked before a page is touched and again after.
use crate::browser::dnd::{BrowserDndMode, DndError, GeometryVerdict};
use crate::browser::files::BrowserFileUploadOperation;
use vstd::prelude::*;

verus! {

/// What an upload asks for next.
#[derive(Clone, Copy, Debug, PartialEq, Eq, Structural)]
pub enum UploadAction {
    /// Ask whether changes are stopped.
    CheckFence,
    /// Find the input and set its files, or none.
    SetInput { clear: bool },
    ArmChooser,
    AnswerChooser,
    CancelChooser,
    ReadChooser,
    /// Answer with what was read back.
    Answer,
    Fail(RunFailure),
}

/// Why a tool fails once its request was accepted.
#[derive(Clone, Copy, Debug, PartialEq, Eq, Structural)]
pub enum RunFailure {
    /// Changes are stopped.
    Fenced,
    /// The page did not do what it was asked for.
    PageFailed,
    /// The elements of a drag cannot be used.
    Drag(DndError),
}

/// Where an upload stands.
#[derive(Clone, Copy, Debug, PartialEq, Eq, Structural)]
pub enum UploadStage {
    FenceBefore,
    Act,
    ReadBack,
    FenceAfter,
    Over,
}

/// An upload that was accepted.
#[derive(Clone, Copy, Debug, PartialEq, Eq, Structural)]
pub struct UploadRun {
    pub operation: BrowserFileUploadOperation,
    pub stage: UploadStage,
}

/// How an upload acts on the page.
pub open spec fn act_of(operation: BrowserFileUploadOperation) -> UploadAction {
    match operation {
        BrowserFileUploadOperation::SetFiles => UploadAction::SetInput { clear: false },
        BrowserFileUploadOperation::Clear => UploadAction::SetInput { clear: true },
        BrowserFileUploadOperation::ArmChooser => UploadAction::ArmChooser,
        BrowserFileUploadOperation::ReadChooser => UploadAction::ReadChooser,
        BrowserFileUploadOperation::SetChooser => UploadAction::AnswerChooser,
        BrowserFileUploadOperation::CancelChooser => UploadAction::CancelChooser,
    }
}

/// Whether the chooser is read once an upload has acted on it.
pub open spec fn reads_back(operation: BrowserFileUploadOperation) -> bool {
    operation == BrowserFileUploadOperation::SetChooser || operation
        == BrowserFileUploadOperation::CancelChooser
}

impl UploadRun {
    /// Begins an upload. Only reading needs no leave.
    pub fn begin(operation: BrowserFileUploadOperation) -> (begun: (Self, UploadAction))
        ensures
            begun.0.operation == operation,
            (begun.0.stage, begun.1) == (if operation == BrowserFileUploadOperation::ReadChooser {
                (UploadStage::ReadBack, UploadAction::ReadChooser)
            } else {
                (UploadStage::FenceBefore, UploadAction::CheckFence)
            }),
    {
        match operation {
            BrowserFileUploadOperation::ReadChooser => (
                UploadRun { operation, stage: UploadStage::ReadBack },
                UploadAction::ReadChooser,
            ),
            _ => (
                UploadRun { operation, stage: UploadStage::FenceBefore },
                UploadAction::CheckFence,
            ),
        }
    }

    /// Goes on from whether changes are stopped.
    pub fn on_fence(&mut self, stopped: bool) -> (action: UploadAction)
        requires
            old(self).stage == UploadStage::FenceBefore || old(self).stage
                == UploadStage::FenceAfter,
        ensures
            final(self).operation == old(self).operation,
            (final(self).stage, action) == (if stopped {
                (UploadStage::Over, UploadAction::Fail(RunFailure::Fenced))
            } else if old(self).stage == UploadStage::FenceBefore {
                (UploadStage::Act, act_of(old(self).operation))
            } else {
                (UploadStage::Over, UploadAction::Answer)
            }),
    {
        if stopped {
            self.stage = UploadStage::Over;
            return UploadAction::Fail(RunFailure::Fenced);
        }
        match self.stage {
            UploadStage::FenceBefore => {
                self.stage = UploadStage::Act;
                match self.operation {
                    BrowserFileUploadOperation::SetFiles => UploadAction::SetInput { clear: false },
                    BrowserFileUploadOperation::Clear => UploadAction::SetInput { clear: true },
                    BrowserFileUploadOperation::ArmChooser => UploadAction::ArmChooser,
                    BrowserFileUploadOperation::ReadChooser => UploadAction::ReadChooser,
                    BrowserFileUploadOperation::SetChooser => UploadAction::AnswerChooser,
                    BrowserFileUploadOperation::CancelChooser => UploadAction::CancelChooser,
                }
            },
            _ => {
                self.stage = UploadStage::Over;
                UploadAction::Answer
            },
        }
    }

    /// Goes on from what the page did.
    pub fn on_acted(&mut self, done: bool) -> (action: UploadAction)
        requires
            old(self).stage == UploadStage::Act,
        ensures
            final(self).operation == old(self).operation,
            (final(self).stage, action) == (if !done {
                (UploadStage::Over, UploadAction::Fail(RunFailure::PageFailed))
            } else if reads_back(old(self).operation) {
                (UploadStage::ReadBack, UploadAction::ReadChooser)
            } else {
                (UploadStage::FenceAfter, UploadAction::CheckFence)
            }),
    {
        if !done {
            self.stage = UploadStage::Over;
            return UploadAction::Fail(RunFailure::PageFailed);
        }
        let reads: bool = match self.operation {
            BrowserFileUploadOperation::SetChooser => true,
            BrowserFileUploadOperation::CancelChooser => true,
            _ => false,
        };
        if reads {
            self.stage = UploadStage::ReadBack;
            UploadAction::ReadChooser
        } else {
            self.stage = UploadStage::FenceAfter;
            UploadAction::CheckFence
        }
    }

    /// Goes on from reading the chooser.
    pub fn on_read(&mut self, done: bool) -> (action: UploadAction)
        requires
            old(self).stage == UploadStage::ReadBack,
        ensures
            final(self).operation == old(self).operation,
            (final(self).stage, action) == (if !done {
                (UploadStage::Over, UploadAction::Fail(RunFailure::PageFailed))
            } else if old(self).operation == BrowserFileUploadOperation::ReadChooser {
                (UploadStage::Over, UploadAction::Answer)
            } else {
                (UploadStage::FenceAfter, UploadAction::CheckFence)
            }),
    {
        if !done {
            self.stage = UploadStage::Over;
            return UploadAction::Fail(RunFailure::PageFailed);
        }
        match self.operation {
            BrowserFileUploadOperation::ReadChooser => {
                self.stage = UploadStage::Over;
                UploadAction::Answer
            },
            _ => {
                self.stage = UploadStage::FenceAfter;
                UploadAction::CheckFence
            },
        }
    }
}

/// What a drag asks for next.
#[derive(Clone, Copy, Debug, PartialEq, Eq, Structural)]
pub enum DndAction {
    /// Look where the two elements are.
    ReadGeometry,
    /// Wait, and look again.
    WaitForGeometry,
    /// Ask whether changes are stopped.
    CheckFence,
    /// Carry the drag out.
    Dispatch(BrowserDndMode),
    /// Answer with what was read back.
    Answer,
    Fail(RunFailure),
}

/// Where a drag stands.
#[derive(Clone, Copy, Debug, PartialEq, Eq, Structural)]
pub enum DndStage {
    Geometry,
    FenceBefore,
    Dispatch,
    FenceAfter,
    Over,
}

/// A drag that was accepted.
#[derive(Clone, Copy, Debug, PartialEq, Eq, Structural)]
pub struct DndRun {
    pub mode: BrowserDndMode,
    pub stage: DndStage,
}

impl DndRun {
    /// Begins a drag with a look at the page.
    pub fn begin(mode: BrowserDndMode) -> (begun: (Self, DndAction))
        ensures
            begun == ((DndRun { mode, stage: DndStage::Geometry }), DndAction::ReadGeometry),
    {
        (DndRun { mode, stage: DndStage::Geometry }, DndAction::ReadGeometry)
    }

    /// Goes on from what the page said of the two elements.
    pub fn on_geometry(&mut self, verdict: GeometryVerdict) -> (action: DndAction)
        requires
            old(self).stage == DndStage::Geometry,
        ensures
            final(self).mode == old(self).mode,
            (final(self).stage, action) == (match verdict {
                GeometryVerdict::Ready => (DndStage::FenceBefore, DndAction::CheckFence),
                GeometryVerdict::Wait => (DndStage::Geometry, DndAction::WaitForGeometry),
                GeometryVerdict::Refuse(error) => (
                    DndStage::Over,
                    DndAction::Fail(RunFailure::Drag(error)),
                ),
            }),
    {
        match verdict {
            GeometryVerdict::Ready => {
                self.stage = DndStage::FenceBefore;
                DndAction::CheckFence
            },
            GeometryVerdict::Wait => DndAction::WaitForGeometry,
            GeometryVerdict::Refuse(error) => {
                self.stage = DndStage::Over;
                DndAction::Fail(RunFailure::Drag(error))
            },
        }
    }

    /// Goes on from whether changes are stopped.
    pub fn on_fence(&mut self, stopped: bool) -> (action: DndAction)
        requires
            old(self).stage == DndStage::FenceBefore || old(self).stage == DndStage::FenceAfter,
        ensures
            final(self).mode == old(self).mode,
            (final(self).stage, action) == (if stopped {
                (DndStage::Over, DndAction::Fail(RunFailure::Fenced))
            } else if old(self).stage == DndStage::FenceBefore {
                (DndStage::Dispatch, DndAction::Dispatch(old(self).mode))
            } else {
                (DndStage::Over, DndAction::Answer)
            }),
    {
        if stopped {
            self.stage = DndStage::Over;
            return DndAction::Fail(RunFailure::Fenced);
        }
        match self.stage {
            DndStage::FenceBefore => {
                self.stage = DndStage::Dispatch;
                DndAction::Dispatch(self.mode)
            },
            _ => {
                self.stage = DndStage::Over;
                DndAction::Answer
            },
        }
    }

    /// Goes on from what the page did.
    pub fn on_dispatched(&mut self, done: bool) -> (action: DndAction)
        requires
            old(self).stage == DndStage::Dispatch,
        ensures
            final(self).mode == old(self).mode,
            (final(self).stage, action) == (if done {
                (DndStage::FenceAfter, DndAction::CheckFence)
            } else {
                (DndStage::Over, DndAction::Fail(RunFailure::PageFailed))
            }),
    {
        if done {
            self.stage = DndStage::FenceAfter;
            DndAction::CheckFence
        } else {
            self.stage = DndStage::Over;
            DndAction::Fail(RunFailure::PageFailed)
        }
    }
}

} // verus!
