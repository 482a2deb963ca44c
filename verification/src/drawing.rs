//! The drawing updates a client commits to its surface: which window, which
//! buffer now holds its pixels, and what changed.
use vstd::prelude::*;

use crate::authority_ids::{NamespaceId, TransactionId};
use crate::geometry::Rect;
use crate::resource::XResourceId;

verus! {

#[derive(Clone, Copy, Debug, PartialEq, Eq, Structural)]
pub enum XDrawingUpdateKind {
    PresentPixmap,
    ShmPutImage,
    CoreDraw,
}

/// Where the renderer finds a surface's new pixels.
#[derive(Clone, Copy, Debug, PartialEq, Eq, Structural)]
pub enum BufferSource {
    /// A client pixmap, by its X id.
    XPixmap { pixmap: u32 },
    /// A buffer the authority filled in memory.
    CpuBuffer { handle: u64 },
    /// A DMA-BUF a client shared.
    DmaBuf { handle: u64 },
}

/// The part of a surface that changed: a union of rectangles.
#[derive(Clone, Debug, PartialEq, Eq)]
pub struct Region {
    pub rects: Vec<Rect>,
}

/// One committed change to a window's contents.
#[derive(Clone, Debug, PartialEq, Eq)]
pub struct XDrawingUpdate {
    pub transaction: TransactionId,
    pub requester_namespace: NamespaceId,
    pub target_window: XResourceId,
    pub kind: XDrawingUpdateKind,
    pub buffer: BufferSource,
    pub damage: Region,
    pub previous_committed_generation: u64,
    pub timeout_msec: u32,
}

/// Whether `update` carries the given fields.
pub open spec fn update_carries(
    update: XDrawingUpdate,
    transaction: TransactionId,
    requester_namespace: NamespaceId,
    target_window: XResourceId,
    kind: XDrawingUpdateKind,
    buffer: BufferSource,
    damage: Seq<Rect>,
    previous_committed_generation: u64,
    timeout_msec: u32,
) -> bool {
    &&& update.transaction == transaction
    &&& update.requester_namespace == requester_namespace
    &&& update.target_window == target_window
    &&& update.kind == kind
    &&& update.buffer == buffer
    &&& update.damage.rects@ == damage
    &&& update.previous_committed_generation == previous_committed_generation
    &&& update.timeout_msec == timeout_msec
}

impl XDrawingUpdate {
    /// A window presenting one of its client's pixmaps.
    pub fn present_pixmap(
        transaction: TransactionId,
        requester_namespace: NamespaceId,
        target_window: XResourceId,
        pixmap: u32,
        damage: Region,
        previous_committed_generation: u64,
        timeout_msec: u32,
    ) -> (update: Self)
        ensures
            update_carries(
                update,
                transaction,
                requester_namespace,
                target_window,
                XDrawingUpdateKind::PresentPixmap,
                BufferSource::XPixmap { pixmap },
                damage.rects@,
                previous_committed_generation,
                timeout_msec,
            ),
    {
        XDrawingUpdate {
            transaction,
            requester_namespace,
            target_window,
            kind: XDrawingUpdateKind::PresentPixmap,
            buffer: BufferSource::XPixmap { pixmap },
            damage,
            previous_committed_generation,
            timeout_msec,
        }
    }

    /// A window presenting a buffer the renderer already knows.
    pub fn present_buffer(
        transaction: TransactionId,
        requester_namespace: NamespaceId,
        target_window: XResourceId,
        buffer: BufferSource,
        damage: Region,
        previous_committed_generation: u64,
        timeout_msec: u32,
    ) -> (update: Self)
        ensures
            update_carries(
                update,
                transaction,
                requester_namespace,
                target_window,
                XDrawingUpdateKind::PresentPixmap,
                buffer,
                damage.rects@,
                previous_committed_generation,
                timeout_msec,
            ),
    {
        XDrawingUpdate {
            transaction,
            requester_namespace,
            target_window,
            kind: XDrawingUpdateKind::PresentPixmap,
            buffer,
            damage,
            previous_committed_generation,
            timeout_msec,
        }
    }

    /// A window whose pixels a MIT-SHM PutImage wrote into a CPU buffer.
    pub fn shm_put_image(
        transaction: TransactionId,
        requester_namespace: NamespaceId,
        target_window: XResourceId,
        handle: u64,
        damage: Region,
        previous_committed_generation: u64,
        timeout_msec: u32,
    ) -> (update: Self)
        ensures
            update_carries(
                update,
                transaction,
                requester_namespace,
                target_window,
                XDrawingUpdateKind::ShmPutImage,
                BufferSource::CpuBuffer { handle },
                damage.rects@,
                previous_committed_generation,
                timeout_msec,
            ),
    {
        XDrawingUpdate {
            transaction,
            requester_namespace,
            target_window,
            kind: XDrawingUpdateKind::ShmPutImage,
            buffer: BufferSource::CpuBuffer { handle },
            damage,
            previous_committed_generation,
            timeout_msec,
        }
    }

    /// A window whose pixels core drawing requests wrote into a CPU buffer.
    pub fn core_draw(
        transaction: TransactionId,
        requester_namespace: NamespaceId,
        target_window: XResourceId,
        handle: u64,
        damage: Region,
        previous_committed_generation: u64,
        timeout_msec: u32,
    ) -> (update: Self)
        ensures
            update_carries(
                update,
                transaction,
                requester_namespace,
                target_window,
                XDrawingUpdateKind::CoreDraw,
                BufferSource::CpuBuffer { handle },
                damage.rects@,
                previous_committed_generation,
                timeout_msec,
            ),
    {
        XDrawingUpdate {
            transaction,
            requester_namespace,
            target_window,
            kind: XDrawingUpdateKind::CoreDraw,
            buffer: BufferSource::CpuBuffer { handle },
            damage,
            previous_committed_generation,
            timeout_msec,
        }
    }
}

} // verus!
