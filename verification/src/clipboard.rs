//! Clipboard selection transfers: the requests a selection transfer answers,
//! and the notifications that end it.
use vstd::prelude::*;

use crate::authority_ids::NamespaceId;
use crate::client_output::XTimestamp;
use crate::property::XAtom;
use crate::resource::XResourceId;
use crate::setup::X_ATOM_NONE;

verus! {

/// The portal's identity for one clipboard transfer between namespaces.
#[derive(Clone, Copy, Debug, PartialEq, Eq, Hash, PartialOrd, Ord, Structural)]
pub struct PortalTransferId {
    pub raw: u64,
}

/// A ConvertSelection request as the clipboard path sees it.
#[derive(Clone, Debug, PartialEq, Eq)]
pub struct XSelectionRequest {
    pub requestor: XResourceId,
    pub selection: XAtom,
    pub target: XAtom,
    pub target_name: String,
    pub property: XAtom,
    pub time: XTimestamp,
}

/// A conversion the selection owner answers itself, in the requestor's own
/// namespace.
#[derive(Clone, Copy, Debug, PartialEq, Eq, Structural)]
pub struct ClipboardSelectionOwnerRequest {
    pub owner: XResourceId,
    pub requestor: XResourceId,
    pub selection: XAtom,
    pub target: XAtom,
    pub property: XAtom,
    pub time: XTimestamp,
}

/// The X11 side of a cross-namespace transfer, kept to proxy the source
/// owner's answer back.
#[derive(Clone, Copy, Debug, PartialEq, Eq, Structural)]
pub struct ClipboardSelectionProxy {
    pub transfer: PortalTransferId,
    pub namespace: NamespaceId,
    pub owner: XResourceId,
    pub requestor: XResourceId,
    pub selection: XAtom,
    pub target: XAtom,
    pub property: XAtom,
    pub time: XTimestamp,
}

/// The bytes a source owner produced for a transfer.
#[derive(Clone, Debug, PartialEq, Eq)]
pub struct ClipboardSourcePayload {
    pub transfer: PortalTransferId,
    pub bytes: Vec<u8>,
}

#[derive(Clone, Copy, Debug, PartialEq, Eq, Structural)]
pub enum ClipboardSelectionExecutionError {
    UnknownTransfer,
    Denied,
    Expired,
    Disconnected,
    ExecutorFailure,
    StaleOwnerGeneration,
    UnsupportedTarget,
    InvalidUtf8,
    MissingProperty,
    PayloadTooLarge,
    Property,
}

/// What the requestor is told when a transfer fails.
#[derive(Clone, Copy, Debug, PartialEq, Eq, Structural)]
pub struct ClipboardSelectionFailureRequest {
    pub transfer: PortalTransferId,
    pub requestor: XResourceId,
    pub selection: XAtom,
    pub target: XAtom,
    pub time: XTimestamp,
}

/// The SelectionNotify that ends a conversion.
#[derive(Clone, Copy, Debug, PartialEq, Eq, Structural)]
pub struct ClipboardSelectionNotify {
    pub time: XTimestamp,
    pub requestor: XResourceId,
    pub selection: XAtom,
    pub target: XAtom,
    pub property: XAtom,
}

/// A failed transfer and the notification that tells the requestor.
#[derive(Clone, Copy, Debug, PartialEq, Eq, Structural)]
pub struct ClipboardSelectionFailure {
    pub transfer: PortalTransferId,
    pub notify: ClipboardSelectionNotify,
}

impl ClipboardSelectionFailure {
    /// Whether the notification reports the failure the protocol's way: no
    /// property was stored.
    pub fn failed_normally(&self) -> (normal: bool)
        ensures
            normal == (self.notify.property == X_ATOM_NONE),
    {
        self.notify.property == X_ATOM_NONE
    }
}

/// The failure notification for a transfer: the conversion's requestor,
/// selection, target and time, with no property.
pub fn clipboard_selection_failure_notify(request: ClipboardSelectionFailureRequest) -> (failure:
    ClipboardSelectionFailure)
    ensures
        failure == (ClipboardSelectionFailure {
            transfer: request.transfer,
            notify: ClipboardSelectionNotify {
                time: request.time,
                requestor: request.requestor,
                selection: request.selection,
                target: request.target,
                property: X_ATOM_NONE,
            },
        }),
        failure.notify.property == X_ATOM_NONE,
{
    ClipboardSelectionFailure {
        transfer: request.transfer,
        notify: ClipboardSelectionNotify {
            time: request.time,
            requestor: request.requestor,
            selection: request.selection,
            target: request.target,
            property: X_ATOM_NONE,
        },
    }
}

/// The text stored on the requestor's window for a successful conversion.
#[derive(Clone, Debug, PartialEq, Eq)]
pub struct ClipboardTextProperty {
    pub requestor: XResourceId,
    pub property: XAtom,
    pub target: XAtom,
    pub bytes: Vec<u8>,
}

/// A successful transfer: the property to store and the notification that
/// points the requestor at it.
#[derive(Clone, Debug, PartialEq, Eq)]
pub struct ClipboardSelectionHandoff {
    pub transfer: PortalTransferId,
    pub property: ClipboardTextProperty,
    pub notify: ClipboardSelectionNotify,
}

impl ClipboardSelectionHandoff {
    /// Whether the notification names the property the text was stored in.
    pub fn succeeded_normally(&self) -> (normal: bool)
        ensures
            normal == (self.notify.property == self.property.property && self.notify.property
                != X_ATOM_NONE),
    {
        self.notify.property == self.property.property && self.notify.property != X_ATOM_NONE
    }
}

/// How executing a transfer ended.
#[derive(Clone, Debug, PartialEq, Eq)]
pub enum ClipboardSelectionExecutionOutcome {
    Handoff(ClipboardSelectionHandoff),
    Failed { error: ClipboardSelectionExecutionError, notify: ClipboardSelectionNotify },
}

#[derive(Clone, Copy, Debug, PartialEq, Eq, Structural)]
pub enum ClipboardSelectionHandoffError {
    NotHandoffCommand,
    TransferMismatch,
    MissingProperty,
    UnsupportedTarget,
    TextTooLarge { len: usize, max: usize },
}

} // verus!
