//! Protocol-neutral input and control facts exchanged with the Engine.
use vstd::prelude::*;

use crate::authority_ids::{PolicyPresentationState, SurfaceId, TransactionId};
use crate::frontend_types::XServerFrontendClientId;
use crate::geometry::Rect;
use crate::resource::XResourceId;

verus! {

#[derive(Clone, Copy, Debug, PartialEq, Eq, Structural)]
pub enum XPresentCompletionMode {
    Copy,
    Flip,
    Skip,
    SuboptimalCopy,
}

#[derive(Clone, Copy, Debug, PartialEq, Eq, Structural)]
pub struct XAuthorityKeyEvent {
    pub keycode: u8,
    pub pressed: bool,
    pub state: u16,
    pub modifiers_after: u8,
    pub time_msec: u32,
}

#[derive(Clone, Copy, Debug, PartialEq, Eq, Structural)]
pub enum XAuthorityPointerEventKind {
    Motion,
    Button { button: u8, pressed: bool },
    Axis {
        button: u8,
        pressed: bool,
        horizontal_position_v120: Option<i32>,
        vertical_position_v120: Option<i32>,
    },
}

#[derive(Clone, Copy, Debug, PartialEq, Eq, Structural)]
pub enum XAuthorityRouteLeaseUpdateKind {
    Confirmed,
    Rejected,
    Released,
}

#[derive(Clone, Copy, Debug, PartialEq, Eq, Structural)]
pub enum XAuthorityRoutedInputMode {
    Deliver,
    Repeat,
    StateOnly,
}

#[derive(Clone, Copy, Debug, PartialEq, Eq, Hash, PartialOrd, Ord, Structural)]
pub struct XAuthorityInputDeliveryId(pub u64);

impl XAuthorityInputDeliveryId {
    pub fn from_raw(raw: u64) -> (id: Self)
        ensures
            id.0 == raw,
    {
        XAuthorityInputDeliveryId(raw)
    }

    pub fn raw(self) -> (raw: u64)
        ensures
            raw == self.0,
    {
        self.0
    }
}

#[derive(Clone, Copy, Debug, PartialEq, Eq, Structural)]
pub enum XAuthorityInputDeliveryOutcome {
    Flushed,
    TargetGone,
    RouteRejected,
    WriteFailed,
}

#[derive(Clone, Copy, Debug, PartialEq, Eq, Structural)]
pub struct XAuthorityClientInputDelivery {
    pub client: XServerFrontendClientId,
    pub delivery: XAuthorityInputDeliveryId,
    pub outcome: XAuthorityInputDeliveryOutcome,
}

#[derive(Clone, Copy, Debug, PartialEq, Eq, Hash, PartialOrd, Ord, Structural)]
pub enum XAuthorityControlKind {
    AdmitSurface,
    ConfigureSurface,
    SetPresentationState,
    RestorePresentationState,
    FocusSurface,
    ClearFocus,
    CloseSurface,
    WithdrawSurface,
}

#[derive(Clone, Copy, Debug, PartialEq, Eq, Structural)]
pub enum XAuthorityControlOutcome {
    Delivered,
    ClientGone,
    UnknownSurface,
    InvalidSize,
    AuthorityRejected,
    UnsupportedProtocol,
}

/// Tracks the two independently ordered lifecycle phases of one X Present.
///
/// Copy normally idles its source before display completion; Flip normally
/// completes before its retained source becomes idle. The route remains live
/// until both phases have arrived, each accepted exactly once.
#[derive(Clone, Copy, Debug, PartialEq, Eq, Structural)]
pub struct XPresentFeedbackPhases {
    pub complete: bool,
    pub idle: bool,
}

/// The phases once display completion has been seen.
pub open spec fn phases_after_complete(phases: XPresentFeedbackPhases) -> XPresentFeedbackPhases {
    XPresentFeedbackPhases { complete: true, idle: phases.idle }
}

/// The phases once the source has been seen idle.
pub open spec fn phases_after_idle(phases: XPresentFeedbackPhases) -> XPresentFeedbackPhases {
    XPresentFeedbackPhases { complete: phases.complete, idle: true }
}

impl Default for XPresentFeedbackPhases {
    /// A route that has seen neither phase.
    fn default() -> (phases: Self)
        ensures
            !phases.complete,
            !phases.idle,
    {
        XPresentFeedbackPhases { complete: false, idle: false }
    }
}

/// The phases after observing `events` in order, each `true` for a display
/// completion and `false` for the source going idle.
pub open spec fn phases_after_events(phases: XPresentFeedbackPhases, events: Seq<bool>) -> XPresentFeedbackPhases
    decreases events.len(),
{
    if events.len() == 0 {
        phases
    } else if events.last() {
        phases_after_complete(phases_after_events(phases, events.drop_last()))
    } else {
        phases_after_idle(phases_after_events(phases, events.drop_last()))
    }
}

/// What observing `event` accepts in state `phases`: the phase it reports
/// the first time only.
pub open spec fn phase_accepted(phases: XPresentFeedbackPhases, event: bool) -> bool {
    if event {
        !phases.complete
    } else {
        !phases.idle
    }
}

proof fn lemma_phases_after_events(events: Seq<bool>)
    ensures
        phases_after_events(XPresentFeedbackPhases { complete: false, idle: false }, events).complete
            == events.contains(true),
        phases_after_events(XPresentFeedbackPhases { complete: false, idle: false }, events).idle
            == events.contains(false),
    decreases events.len(),
{
    if events.len() > 0 {
        let prefix = events.drop_last();
        lemma_phases_after_events(prefix);
        assert(events == prefix.push(events.last()));
        assert forall|b: bool| #[trigger] events.contains(b) == (prefix.contains(b) || events.last()
            == b) by {
            if events.contains(b) {
                let k = choose|k: int| 0 <= k < events.len() && events[k] == b;
                if k < prefix.len() {
                    assert(prefix[k] == b);
                }
            }
            if prefix.contains(b) {
                let k = choose|k: int| 0 <= k < prefix.len() && prefix[k] == b;
                assert(events[k] == b);
            }
            if events.last() == b {
                assert(events[events.len() - 1] == b);
            }
        }
    }
}

/// From a fresh route, each phase is accepted exactly the first time it is
/// observed, whatever the other phase does; the route is finished exactly
/// when both phases have been observed at least once, and stays finished.
pub proof fn law_present_phases_counted_once(events: Seq<bool>, i: int, j: int)
    requires
        0 <= i <= j <= events.len(),
    ensures
        ({
            let fresh = XPresentFeedbackPhases { complete: false, idle: false };
            &&& phases_after_events(fresh, events).spec_finished() == (events.contains(true)
                && events.contains(false))
            &&& i < events.len() ==> phase_accepted(
                phases_after_events(fresh, events.take(i)),
                events[i],
            ) == !events.take(i).contains(events[i])
            &&& phases_after_events(fresh, events.take(i)).spec_finished()
                ==> phases_after_events(fresh, events.take(j)).spec_finished()
        }),
{
    lemma_phases_after_events(events);
    lemma_phases_after_events(events.take(i));
    lemma_phases_after_events(events.take(j));
    assert forall|b: bool| events.take(i).contains(b) implies #[trigger] events.take(j).contains(b) by {
        let k = choose|k: int| 0 <= k < i && events.take(i)[k] == b;
        assert(events.take(j)[k] == b);
    }
}

/// A Present route is finished once both phases have arrived, in either
/// order, and not before: a fresh route that has seen one phase is live.
pub proof fn law_present_route_finishes_after_both_phases(phases: XPresentFeedbackPhases)
    ensures
        phases_after_idle(phases_after_complete(phases)).spec_finished(),
        phases_after_complete(phases_after_idle(phases)).spec_finished(),
        !phases.complete && !phases.idle ==> !phases_after_complete(phases).spec_finished()
            && !phases_after_idle(phases).spec_finished(),
        phases_after_complete(phases_after_complete(phases)) == phases_after_complete(phases),
        phases_after_idle(phases_after_idle(phases)) == phases_after_idle(phases),
{
}

impl XPresentFeedbackPhases {
    pub open spec fn spec_finished(self) -> bool {
        self.complete && self.idle
    }

    /// Accepts the completion phase the first time it arrives.
    pub fn observe_complete(&mut self) -> (accepted: bool)
        ensures
            accepted == !old(self).complete,
            *final(self) == phases_after_complete(*old(self)),
    {
        if self.complete {
            return false;
        }
        self.complete = true;
        true
    }

    /// Accepts the idle phase the first time it arrives.
    pub fn observe_idle(&mut self) -> (accepted: bool)
        ensures
            accepted == !old(self).idle,
            *final(self) == phases_after_idle(*old(self)),
    {
        if self.idle {
            return false;
        }
        self.idle = true;
        true
    }

    #[verifier::when_used_as_spec(spec_finished)]
    pub fn finished(self) -> (finished: bool)
        ensures
            finished == self.spec_finished(),
    {
        self.complete && self.idle
    }
}

#[derive(Clone, Copy, Debug, PartialEq, Eq, Structural)]
pub struct XAuthorityPointerEvent {
    pub kind: XAuthorityPointerEventKind,
    pub surface: SurfaceId,
    pub root_x: i16,
    pub root_y: i16,
    pub event_x: i16,
    pub event_y: i16,
    pub state: u16,
    pub time_msec: u32,
}

#[derive(Clone, Copy, Debug, PartialEq, Eq, Structural)]
pub enum XAuthorityInputEvent {
    Key(XAuthorityKeyEvent),
    Pointer(XAuthorityPointerEvent),
}

/// An Engine-selected input event addressed to one live X11 connection.
#[derive(Clone, Copy, Debug, PartialEq, Eq, Structural)]
pub struct XAuthorityClientInputEvent {
    pub client: XServerFrontendClientId,
    pub event: XAuthorityInputEvent,
    pub target_window: Option<XResourceId>,
    pub xi_event_type: Option<u16>,
    pub xi_event_window: Option<XResourceId>,
    pub xi_emulated_button_type: Option<u16>,
    pub xi_emulated_button_window: Option<XResourceId>,
    /// The XI2 pointer Enter/Leave events selected for this route.
    pub xi_pointer_crossing_mask: u16,
    pub delivery: Option<XAuthorityInputDeliveryId>,
}

/// What the Engine asks of one X11 surface.
#[derive(Clone, Copy, Debug, PartialEq, Eq, Structural)]
pub enum XAuthorityControlCommand {
    AdmitSurface { transaction: TransactionId, surface: SurfaceId, geometry: Rect },
    ConfigureSurface { transaction: TransactionId, surface: SurfaceId, geometry: Rect },
    SetPresentationState {
        transaction: TransactionId,
        surface: SurfaceId,
        state: PolicyPresentationState,
    },
    RestorePresentationState {
        transaction: TransactionId,
        surface: SurfaceId,
        state: PolicyPresentationState,
    },
    FocusSurface { transaction: TransactionId, surface: SurfaceId },
    ClearFocus { transaction: TransactionId, surface: SurfaceId },
    CloseSurface { transaction: TransactionId, surface: SurfaceId },
    WithdrawSurface { transaction: TransactionId, surface: SurfaceId },
}

/// The kind of a control command, without its data.
pub open spec fn control_kind(command: XAuthorityControlCommand) -> XAuthorityControlKind {
    match command {
        XAuthorityControlCommand::AdmitSurface { .. } => XAuthorityControlKind::AdmitSurface,
        XAuthorityControlCommand::ConfigureSurface { .. } => XAuthorityControlKind::ConfigureSurface,
        XAuthorityControlCommand::SetPresentationState { .. } =>
            XAuthorityControlKind::SetPresentationState,
        XAuthorityControlCommand::RestorePresentationState { .. } =>
            XAuthorityControlKind::RestorePresentationState,
        XAuthorityControlCommand::FocusSurface { .. } => XAuthorityControlKind::FocusSurface,
        XAuthorityControlCommand::ClearFocus { .. } => XAuthorityControlKind::ClearFocus,
        XAuthorityControlCommand::CloseSurface { .. } => XAuthorityControlKind::CloseSurface,
        XAuthorityControlCommand::WithdrawSurface { .. } => XAuthorityControlKind::WithdrawSurface,
    }
}

/// The transaction a control command belongs to.
pub open spec fn control_transaction(command: XAuthorityControlCommand) -> TransactionId {
    match command {
        XAuthorityControlCommand::AdmitSurface { transaction, .. } => transaction,
        XAuthorityControlCommand::ConfigureSurface { transaction, .. } => transaction,
        XAuthorityControlCommand::SetPresentationState { transaction, .. } => transaction,
        XAuthorityControlCommand::RestorePresentationState { transaction, .. } => transaction,
        XAuthorityControlCommand::FocusSurface { transaction, .. } => transaction,
        XAuthorityControlCommand::ClearFocus { transaction, .. } => transaction,
        XAuthorityControlCommand::CloseSurface { transaction, .. } => transaction,
        XAuthorityControlCommand::WithdrawSurface { transaction, .. } => transaction,
    }
}

/// The surface a control command is about.
pub open spec fn control_surface(command: XAuthorityControlCommand) -> SurfaceId {
    match command {
        XAuthorityControlCommand::AdmitSurface { surface, .. } => surface,
        XAuthorityControlCommand::ConfigureSurface { surface, .. } => surface,
        XAuthorityControlCommand::SetPresentationState { surface, .. } => surface,
        XAuthorityControlCommand::RestorePresentationState { surface, .. } => surface,
        XAuthorityControlCommand::FocusSurface { surface, .. } => surface,
        XAuthorityControlCommand::ClearFocus { surface, .. } => surface,
        XAuthorityControlCommand::CloseSurface { surface, .. } => surface,
        XAuthorityControlCommand::WithdrawSurface { surface, .. } => surface,
    }
}

impl XAuthorityControlCommand {
    pub fn kind(self) -> (kind: XAuthorityControlKind)
        ensures
            kind == control_kind(self),
    {
        match self {
            XAuthorityControlCommand::AdmitSurface { .. } => XAuthorityControlKind::AdmitSurface,
            XAuthorityControlCommand::ConfigureSurface { .. } =>
                XAuthorityControlKind::ConfigureSurface,
            XAuthorityControlCommand::SetPresentationState { .. } =>
                XAuthorityControlKind::SetPresentationState,
            XAuthorityControlCommand::RestorePresentationState { .. } =>
                XAuthorityControlKind::RestorePresentationState,
            XAuthorityControlCommand::FocusSurface { .. } => XAuthorityControlKind::FocusSurface,
            XAuthorityControlCommand::ClearFocus { .. } => XAuthorityControlKind::ClearFocus,
            XAuthorityControlCommand::CloseSurface { .. } => XAuthorityControlKind::CloseSurface,
            XAuthorityControlCommand::WithdrawSurface { .. } =>
                XAuthorityControlKind::WithdrawSurface,
        }
    }

    pub fn transaction(self) -> (transaction: TransactionId)
        ensures
            transaction == control_transaction(self),
    {
        match self {
            XAuthorityControlCommand::AdmitSurface { transaction, .. }
            | XAuthorityControlCommand::ConfigureSurface { transaction, .. }
            | XAuthorityControlCommand::SetPresentationState { transaction, .. }
            | XAuthorityControlCommand::RestorePresentationState { transaction, .. }
            | XAuthorityControlCommand::FocusSurface { transaction, .. }
            | XAuthorityControlCommand::ClearFocus { transaction, .. }
            | XAuthorityControlCommand::CloseSurface { transaction, .. }
            | XAuthorityControlCommand::WithdrawSurface { transaction, .. } => transaction,
        }
    }

    pub fn surface(self) -> (surface: SurfaceId)
        ensures
            surface == control_surface(self),
    {
        match self {
            XAuthorityControlCommand::AdmitSurface { surface, .. }
            | XAuthorityControlCommand::ConfigureSurface { surface, .. }
            | XAuthorityControlCommand::SetPresentationState { surface, .. }
            | XAuthorityControlCommand::RestorePresentationState { surface, .. }
            | XAuthorityControlCommand::FocusSurface { surface, .. }
            | XAuthorityControlCommand::ClearFocus { surface, .. }
            | XAuthorityControlCommand::CloseSurface { surface, .. }
            | XAuthorityControlCommand::WithdrawSurface { surface, .. } => surface,
        }
    }
}

#[derive(Clone, Copy, Debug, PartialEq, Eq, Structural)]
pub struct XAuthorityClientControlCommand {
    pub client: XServerFrontendClientId,
    pub command: XAuthorityControlCommand,
}

#[derive(Clone, Copy, Debug, PartialEq, Eq, Structural)]
pub struct XAuthorityControlAck {
    pub kind: XAuthorityControlKind,
    pub transaction: TransactionId,
    pub surface: SurfaceId,
    pub outcome: XAuthorityControlOutcome,
}

#[derive(Clone, Copy, Debug, PartialEq, Eq, Structural)]
pub struct XAuthorityClientControlAck {
    pub client: XServerFrontendClientId,
    pub acknowledgement: XAuthorityControlAck,
}

/// Why a message for a client could not be routed to it.
#[derive(Clone, Copy, Debug, PartialEq, Eq, Structural)]
pub enum XServerFrontendRouteError {
    UnknownClient { client: XServerFrontendClientId },
    UnknownSurface { surface: SurfaceId },
    ClientQueueFull { client: XServerFrontendClientId },
    DuplicatePresentation { transaction: TransactionId },
    ClientQueueDisconnected { client: XServerFrontendClientId },
    DuplicateClient { client: XServerFrontendClientId },
    RegistryPoisoned,
}

} // verus!
