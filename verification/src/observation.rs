//! Stable, value-free facts that may leave the X authority after a dispatch.
use vstd::prelude::*;

use crate::authority_ids::{BufferHandle, FenceHandle, SurfaceId, TransactionId};
use crate::resource::XResourceId;

verus! {

/// The request stages whose names may cross the authority boundary.
#[derive(Clone, Copy, Debug, PartialEq, Eq, PartialOrd, Ord, Structural)]
pub enum X11ObservedRequestStage {
    GlxQueryServerString,
    GlxGetFbConfigs,
    GlxCreateContext,
    GlxCreateWindow,
    Dri3PixmapFromBuffers,
    PresentPixmap,
    KeyboardMapping,
    SelectionRequest,
    DisconnectCleanup,
    Other,
}

/// The evidence name recorded for each stage.
pub open spec fn stage_evidence_name(stage: X11ObservedRequestStage) -> Seq<char> {
    match stage {
        X11ObservedRequestStage::GlxQueryServerString => "GLX:QueryServerString"@,
        X11ObservedRequestStage::GlxGetFbConfigs => "GLX:GetFBConfigs"@,
        X11ObservedRequestStage::GlxCreateContext => "GLX:CreateContext"@,
        X11ObservedRequestStage::GlxCreateWindow => "GLX:CreateWindow"@,
        X11ObservedRequestStage::Dri3PixmapFromBuffers => "DRI3:PixmapFromBuffers"@,
        X11ObservedRequestStage::PresentPixmap => "PRESENT:Pixmap"@,
        X11ObservedRequestStage::KeyboardMapping => "GetKeyboardMapping"@,
        X11ObservedRequestStage::SelectionRequest => "RequestSelection"@,
        X11ObservedRequestStage::DisconnectCleanup => "DisconnectCleanup"@,
        X11ObservedRequestStage::Other => "Other"@,
    }
}

impl X11ObservedRequestStage {
    pub fn evidence_name(self) -> (name: &'static str)
        ensures
            name@ == stage_evidence_name(self),
    {
        match self {
            X11ObservedRequestStage::GlxQueryServerString => "GLX:QueryServerString",
            X11ObservedRequestStage::GlxGetFbConfigs => "GLX:GetFBConfigs",
            X11ObservedRequestStage::GlxCreateContext => "GLX:CreateContext",
            X11ObservedRequestStage::GlxCreateWindow => "GLX:CreateWindow",
            X11ObservedRequestStage::Dri3PixmapFromBuffers => "DRI3:PixmapFromBuffers",
            X11ObservedRequestStage::PresentPixmap => "PRESENT:Pixmap",
            X11ObservedRequestStage::KeyboardMapping => "GetKeyboardMapping",
            X11ObservedRequestStage::SelectionRequest => "RequestSelection",
            X11ObservedRequestStage::DisconnectCleanup => "DisconnectCleanup",
            X11ObservedRequestStage::Other => "Other",
        }
    }
}

#[derive(Clone, Copy, Debug, PartialEq, Eq, Structural)]
pub enum X11ObservedDispatchFailure {
    ParseRejected,
}

/// A DRI3 fence a client shared, as the renderer imports it.
#[derive(Clone, Copy, Debug, PartialEq, Eq, Structural)]
pub struct XAuthorityDri3FenceImport {
    pub fence: XResourceId,
    pub handle: FenceHandle,
    pub initially_triggered: bool,
}

/// A Present request handed to the renderer: the buffer to show on a
/// surface, where, and the fences that guard it.
#[derive(Clone, Copy, Debug, PartialEq, Eq, Structural)]
pub struct XAuthorityPresentSubmission {
    pub transaction: TransactionId,
    pub surface: SurfaceId,
    pub buffer: BufferHandle,
    pub x_offset: i16,
    pub y_offset: i16,
    pub acquire_fence: Option<FenceHandle>,
    pub idle_fence: Option<FenceHandle>,
}

} // verus!
