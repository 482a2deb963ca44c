//! Dispatching decoded client requests against the authority's state:
//! fonts, cursors, pixmaps, colors, XFIXES regions, DRI3 and SYNC fences,
//! the keyboard and XKB maps, the RandR outputs and CRTCs of the output
//! layout, and the extension version queries. Each request either changes
//! the state and is answered with nothing, or is answered with a reply or an
//! X error.
use vstd::prelude::*;
use vstd::string::StringExecFns;

use crate::authority_ids::FenceHandle;
use crate::client_output::{
    raw_xid, raw_xid_of, runtime_error_code, wire_parse_error_code, x_error_from_runtime,
    x_error_from_wire_parse, XAuthorityRuntimeError, XClientError, XErrorCode, XWireParseError,
};
use crate::client_reply::{XClientOutput, XClientReply};
use crate::dispatch::{
    crtc_id, decimal, i16_or_max, is_output_mode, logical_pixels_to_millimeters, output_id,
    pixels_to_millimeters, push_decimal, randr_mode_id, randr_resources, randr_timestamp,
    topology_sizes_fit, true_color_pixel, true_color_pixel_from_rgb16, OutputTopologyEntry,
    OutputTopologySnapshot, XDispatchContext,
};
use crate::extensions::{extension_query, extension_query_result};
use crate::keyboard::{
    core_mapping_of, law_core_mapping_reads_the_xkb_keysyms, law_modifier_mapping_comes_from_the_map,
    modifier_bit, modifier_mapping, modifier_mapping_of,
};
use crate::geometry::{Rect, Size};
use crate::resource::{XResourceId, XResourceKind};
use crate::runtime::{
    access_outcome, drawable_access, fence_counter_after, fence_handle_for, filed, insert_outcome,
    slot_read, topology_view,
    XAuthorityRuntime, XAuthorityRuntimeView,
};

verus! {

/// The XFIXES `CreateRegion` minor opcode.
pub const X_XFIXES_CREATE_REGION_MINOR_OPCODE: u8 = 5;

/// The XFIXES `DestroyRegion` minor opcode.
pub const X_XFIXES_DESTROY_REGION_MINOR_OPCODE: u8 = 10;

/// The XFIXES `SetRegion` minor opcode.
pub const X_XFIXES_SET_REGION_MINOR_OPCODE: u8 = 11;

/// The SYNC `DestroyFence` minor opcode.
pub const X_SYNC_DESTROY_FENCE_MINOR_OPCODE: u8 = 17;

/// The DRI3 `Open` minor opcode.
pub const X_DRI3_OPEN_MINOR_OPCODE: u8 = 1;

/// The RandR `GetOutputInfo` minor opcode.
pub const X_RANDR_GET_OUTPUT_INFO_MINOR_OPCODE: u8 = 9;

/// The RandR `GetCrtcInfo` minor opcode.
pub const X_RANDR_GET_CRTC_INFO_MINOR_OPCODE: u8 = 20;

/// A decoded client request this dispatcher answers.
#[derive(Clone, Debug, PartialEq, Eq)]
pub enum XWireRequest {
    OpenFont { font: XResourceId },
    CloseFont { font: XResourceId },
    QueryFont { font: XResourceId },
    CreateCursor { cursor: XResourceId, source: XResourceId, mask: Option<XResourceId> },
    CreateGlyphCursor {
        cursor: XResourceId,
        source_font: XResourceId,
        mask_font: Option<XResourceId>,
    },
    FreeCursor { cursor: XResourceId },
    RecolorCursor { cursor: XResourceId },
    ListFonts { max_names: u16 },
    ListFontsWithInfo { max_names: u16 },
    CreatePixmap { pixmap: XResourceId, drawable: XResourceId, width: u16, height: u16 },
    XfixesCreateRegion { region: XResourceId, rectangles: Vec<Rect> },
    XfixesSetRegion { region: XResourceId, rectangles: Vec<Rect> },
    XfixesDestroyRegion { region: XResourceId },
    SyncInitialize,
    SyncDestroyFence { fence: XResourceId },
    ShmQueryVersion,
    Dri3QueryVersion,
    XfixesQueryVersion,
    GetKeyboardMapping { first_keycode: u8, count: u8 },
    GetModifierMapping,
    XkbGetMap { full: u16, partial: u16 },
    XkbUseExtension,
    XkbGetState,
    XkbSelectEvents,
    XkbPerClientFlags { change: u32, value: u32 },
    QueryExtension { name: Vec<u8> },
    ListExtensions,
    QueryBestSize { width: u16, height: u16 },
    BigRequestsEnable,
    XiGetExtensionVersion,
    XiGetClientPointer,
    GeQueryVersion,
    XiQueryVersion,
    QueryColors { pixels: Vec<u32> },
    AllocNamedColor { name: Vec<u8> },
    AllocColor { red: u16, green: u16, blue: u16 },
    PresentQueryVersion,
    RandrQueryVersion,
    GlxQueryVersion,
    GlxClientInfo,
    RandrGetOutputInfo { output: u32 },
    RandrGetCrtcInfo { crtc: u32 },
    FreePixmap { pixmap: XResourceId },
    Dri3Open { drawable: XResourceId, provider: u32 },
    Dri3FenceFromFd { drawable: XResourceId, fence: XResourceId },
    XiGetProperty,
}

/// What one dispatch hands back to the client.
#[derive(Clone, Debug, PartialEq, Eq)]
pub struct XDispatchResult {
    pub outputs: Vec<XClientOutput>,
}

/// The answer a request gets, as contracts speak of it.
pub enum XDispatchAnswer {
    /// No output: the request succeeded silently.
    Nothing,
    /// One reply or error.
    Output(XClientOutput),
    /// A font-name listing with these names.
    FontNames { with_info: bool, sequence: u16, names: Seq<Seq<char>> },
    /// The core keysym table, two keysyms per keycode.
    KeyboardMapping { sequence: u16, keysyms: Seq<u32> },
    /// The core modifier table, two keycodes per modifier.
    ModifierMapping { sequence: u16, keycodes: Seq<u8> },
    /// The XKB map: its keysym pairs and its modifier map.
    XkbMap { sequence: u16, present: u16, keysyms: Seq<[u32; 2]>, modifier_map: Seq<(u8, u8)> },
    /// A RandR output: its one CRTC and one mode, and its name.
    RandrOutputInfo {
        sequence: u16,
        timestamp: u32,
        crtc: u32,
        mm_width: u32,
        mm_height: u32,
        mode: u32,
        name: Seq<u8>,
    },
    /// A RandR CRTC: where it scans out, its mode and its one output.
    RandrCrtcInfo {
        sequence: u16,
        timestamp: u32,
        x: i16,
        y: i16,
        width: u16,
        height: u16,
        mode: u32,
        output: u32,
    },
}

/// Whether `outputs` is what `answer` describes.
pub open spec fn answer_matches(outputs: Seq<XClientOutput>, answer: XDispatchAnswer) -> bool {
    match answer {
        XDispatchAnswer::Nothing => outputs.len() == 0,
        XDispatchAnswer::Output(output) => outputs == seq![output],
        XDispatchAnswer::FontNames { with_info, sequence, names } => {
            &&& outputs.len() == 1
            &&& if with_info {
                outputs[0] matches XClientOutput::Reply(XClientReply::ListFontsWithInfo { sequence: s, names: n })
                    && s == sequence && n@.map_values(|name: String| name@) == names
            } else {
                outputs[0] matches XClientOutput::Reply(XClientReply::ListFonts { sequence: s, names: n })
                    && s == sequence && n@.map_values(|name: String| name@) == names
            }
        },
        XDispatchAnswer::KeyboardMapping { sequence, keysyms } => {
            &&& outputs.len() == 1
            &&& outputs[0] matches XClientOutput::Reply(
                XClientReply::GetKeyboardMapping { sequence: s, keysyms_per_keycode: per, keysyms: k },
            ) && s == sequence && per == 2 && k@ == keysyms
        },
        XDispatchAnswer::ModifierMapping { sequence, keycodes } => {
            &&& outputs.len() == 1
            &&& outputs[0] matches XClientOutput::Reply(
                XClientReply::GetModifierMapping { sequence: s, keycodes_per_modifier: per, keycodes: k },
            ) && s == sequence && per == 2 && k@ == keycodes
        },
        XDispatchAnswer::XkbMap { sequence, present, keysyms, modifier_map } => {
            &&& outputs.len() == 1
            &&& outputs[0] matches XClientOutput::Reply(
                XClientReply::XkbGetMap { sequence: s, present: p, keysyms: k, modifier_map: m },
            ) && s == sequence && p == present && k@ == keysyms && m@ == modifier_map
        },
        XDispatchAnswer::RandrOutputInfo { sequence, timestamp, crtc, mm_width, mm_height, mode, name } => {
            &&& outputs.len() == 1
            &&& outputs[0] matches XClientOutput::Reply(
                XClientReply::RandrGetOutputInfo {
                    sequence: s,
                    timestamp: t,
                    crtc: c,
                    mm_width: w,
                    mm_height: h,
                    crtcs: cs,
                    modes: ms,
                    name: n,
                },
            ) && s == sequence && t == timestamp && c == crtc && w == mm_width && h == mm_height
                && cs@ == seq![crtc] && ms@ == seq![mode] && n@ == name
        },
        XDispatchAnswer::RandrCrtcInfo { sequence, timestamp, x, y, width, height, mode, output } => {
            &&& outputs.len() == 1
            &&& outputs[0] matches XClientOutput::Reply(
                XClientReply::RandrGetCrtcInfo {
                    sequence: s,
                    timestamp: t,
                    x: cx,
                    y: cy,
                    width: w,
                    height: h,
                    mode: m,
                    outputs: o,
                },
            ) && s == sequence && t == timestamp && cx == x && cy == y && w == width && h == height
                && m == mode && o@ == seq![output]
        },
    }
}

/// Whether `i` is the first index of `ids` holding `id`.
pub open spec fn is_first_position(ids: Seq<u32>, id: u32, i: int) -> bool {
    &&& 0 <= i < ids.len()
    &&& ids[i] == id
    &&& forall|j: int| 0 <= j < i ==> ids[j] != id
}

/// The first index of `ids` holding `id`, if any does.
pub open spec fn first_position(ids: Seq<u32>, id: u32) -> Option<int> {
    if exists|i: int| is_first_position(ids, id, i) {
        Some(choose|i: int| is_first_position(ids, id, i))
    } else {
        None
    }
}

/// The RandR output ids of a layout's outputs, in its order.
pub open spec fn output_ids(outputs: Seq<OutputTopologyEntry>) -> Seq<u32> {
    outputs.map_values(|entry: OutputTopologyEntry| output_id(entry.output))
}

/// The RandR CRTC ids of a layout's outputs, in its order.
pub open spec fn crtc_ids(outputs: Seq<OutputTopologyEntry>) -> Seq<u32> {
    outputs.map_values(|entry: OutputTopologyEntry| crtc_id(entry.output))
}

/// The name RandR gives an output: `SOPHIA-` and its identity in decimal.
pub open spec fn output_name(output: u64) -> Seq<u8> {
    seq![83u8, 79, 80, 72, 73, 65, 45] + decimal(output as nat)
}

/// The mode of a layout entry.
pub open spec fn entry_mode(entry: OutputTopologyEntry) -> u32 {
    randr_mode_id(entry.logical.width, entry.logical.height, entry.refresh_millihz)
}

/// The `BadValue` error a request naming a `value` it may not name gets.
pub open spec fn bad_value(context: XDispatchContext, minor_code: u8, value: u32) -> XDispatchAnswer {
    XDispatchAnswer::Output(
        XClientOutput::Error(
            XClientError {
                code: XErrorCode::BadValue,
                sequence: context.sequence,
                resource_id: value,
                minor_code: minor_code as u16,
                major_code: context.major_opcode,
            },
        ),
    )
}

fn find_first(ids: &Vec<u32>, id: u32) -> (found: Option<usize>)
    ensures
        match found {
            Some(i) => first_position(ids@, id) == Some(i as int),
            None => first_position(ids@, id) is None,
        },
{
    let mut i: usize = 0;
    while i < ids.len()
        invariant
            i <= ids@.len(),
            forall|j: int| 0 <= j < i ==> ids@[j] != id,
        decreases ids@.len() - i,
    {
        if ids[i] == id {
            assert(is_first_position(ids@, id, i as int));
            assert forall|k: int| is_first_position(ids@, id, k) implies k == i as int by {
                if k > i as int {
                    assert(ids@[i as int] != id);
                }
            }
            return Some(i);
        }
        i = i + 1;
    }
    assert(!exists|k: int| is_first_position(ids@, id, k));
    None
}

/// The X error a refused request is answered with: the refusal's code,
/// naming `resource`, under the request's opcodes.
pub open spec fn refusal(
    context: XDispatchContext,
    minor_code: u16,
    error: XAuthorityRuntimeError,
    resource: XResourceId,
) -> XDispatchAnswer {
    XDispatchAnswer::Output(
        XClientOutput::Error(
            XClientError {
                code: runtime_error_code(error),
                sequence: context.sequence,
                resource_id: raw_xid(resource),
                minor_code,
                major_code: context.major_opcode,
            },
        ),
    )
}

/// `state` with a new resource of `kind` filed, where the table admits it.
pub open spec fn state_after_filing(
    state: XAuthorityRuntimeView,
    id: XResourceId,
    kind: XResourceKind,
    context: XDispatchContext,
) -> XAuthorityRuntimeView {
    if insert_outcome(id, context.namespace) is Ok {
        XAuthorityRuntimeView {
            resources: state.resources.insert(
                id,
                filed(id, kind, context.namespace, context.sequence as u64),
            ),
            ..state
        }
    } else {
        state
    }
}

/// `state` with the resource `id` of `kind` released, where the client may
/// use it.
pub open spec fn state_after_release(
    state: XAuthorityRuntimeView,
    id: XResourceId,
    kind: XResourceKind,
    context: XDispatchContext,
) -> XAuthorityRuntimeView {
    if access_outcome(state.resources, context.namespace, id, kind) is Ok {
        XAuthorityRuntimeView { resources: state.resources.remove(id), ..state }
    } else {
        state
    }
}

/// The answer to a request that succeeds silently or is refused with
/// `outcome`'s error, naming `resource`.
pub open spec fn silent_or_refused(
    context: XDispatchContext,
    minor_code: u16,
    outcome: Result<(), XAuthorityRuntimeError>,
    resource: XResourceId,
) -> XDispatchAnswer {
    match outcome {
        Ok(_) => XDispatchAnswer::Nothing,
        Err(error) => refusal(context, minor_code, error, resource),
    }
}

/// A cursor created after the resources it is drawn from were checked:
/// the first failing check, else the creation, decides.
pub open spec fn cursor_outcome(
    checks: Seq<(Result<(), XAuthorityRuntimeError>, XResourceId)>,
    state: XAuthorityRuntimeView,
    context: XDispatchContext,
    cursor: XResourceId,
    answer_resource_of_checks: bool,
) -> (XDispatchAnswer, XAuthorityRuntimeView)
    decreases checks.len(),
{
    if checks.len() == 0 {
        (
            silent_or_refused(context, 0, insert_outcome(cursor, context.namespace), cursor),
            state_after_filing(state, cursor, XResourceKind::Cursor, context),
        )
    } else if checks[0].0 is Err {
        (
            refusal(
                context,
                0,
                checks[0].0->Err_0,
                if answer_resource_of_checks {
                    checks[0].1
                } else {
                    cursor
                },
            ),
            state,
        )
    } else {
        cursor_outcome(checks.drop_first(), state, context, cursor, answer_resource_of_checks)
    }
}

/// The checks a cursor request makes before creating the cursor.
pub open spec fn cursor_checks(
    state: XAuthorityRuntimeView,
    context: XDispatchContext,
    first: XResourceId,
    second: Option<XResourceId>,
    glyph: bool,
) -> Seq<(Result<(), XAuthorityRuntimeError>, XResourceId)> {
    let check = |id: XResourceId|
        if glyph {
            access_outcome(state.resources, context.namespace, id, XResourceKind::Font)
        } else {
            drawable_access(state.resources, context.namespace, id)
        };
    match second {
        Some(s) => seq![(check(first), first), (check(s), s)],
        None => seq![(check(first), first)],
    }
}

/// What dispatching `request` answers, and the state it leaves.
pub open spec fn dispatch_outcome(
    context: XDispatchContext,
    request: XWireRequest,
    state: XAuthorityRuntimeView,
) -> (XDispatchAnswer, XAuthorityRuntimeView) {
    let ns = context.namespace;
    match request {
        XWireRequest::OpenFont { font } => (
            silent_or_refused(context, 0, insert_outcome(font, ns), font),
            state_after_filing(state, font, XResourceKind::Font, context),
        ),
        XWireRequest::CloseFont { font } => (
            silent_or_refused(
                context,
                0,
                access_outcome(state.resources, ns, font, XResourceKind::Font),
                font,
            ),
            state_after_release(state, font, XResourceKind::Font, context),
        ),
        XWireRequest::QueryFont { font } => (
            match access_outcome(state.resources, ns, font, XResourceKind::Font) {
                Ok(_) => XDispatchAnswer::Output(
                    XClientOutput::Reply(
                        XClientReply::QueryFont {
                            sequence: context.sequence,
                            font_ascent: 8,
                            font_descent: 2,
                        },
                    ),
                ),
                Err(error) => refusal(context, 0, error, font),
            },
            state,
        ),
        XWireRequest::CreateCursor { cursor, source, mask } => cursor_outcome(
            cursor_checks(state, context, source, mask, false),
            state,
            context,
            cursor,
            false,
        ),
        XWireRequest::CreateGlyphCursor { cursor, source_font, mask_font } => cursor_outcome(
            cursor_checks(state, context, source_font, mask_font, true),
            state,
            context,
            cursor,
            true,
        ),
        XWireRequest::FreeCursor { cursor } => (
            silent_or_refused(
                context,
                0,
                access_outcome(state.resources, ns, cursor, XResourceKind::Cursor),
                cursor,
            ),
            state_after_release(state, cursor, XResourceKind::Cursor, context),
        ),
        XWireRequest::RecolorCursor { cursor } => (
            silent_or_refused(
                context,
                0,
                access_outcome(state.resources, ns, cursor, XResourceKind::Cursor),
                cursor,
            ),
            state,
        ),
        XWireRequest::ListFonts { max_names } => (
            XDispatchAnswer::FontNames {
                with_info: false,
                sequence: context.sequence,
                names: if max_names == 0 {
                    Seq::empty()
                } else {
                    seq!["fixed"@]
                },
            },
            state,
        ),
        XWireRequest::ListFontsWithInfo { max_names } => (
            XDispatchAnswer::FontNames {
                with_info: true,
                sequence: context.sequence,
                names: if max_names == 0 {
                    Seq::empty()
                } else {
                    seq!["fixed"@]
                },
            },
            state,
        ),
        XWireRequest::CreatePixmap { pixmap, drawable, width, height } => {
            let size = Size { width: width as i32, height: height as i32 };
            match drawable_access(state.resources, ns, drawable) {
                Err(error) => (refusal(context, 0, error, drawable), state),
                Ok(_) => if width == 0 || height == 0 {
                    (refusal(context, 0, XAuthorityRuntimeError::InvalidResource, pixmap), state)
                } else {
                    match insert_outcome(pixmap, ns) {
                        Err(error) => (refusal(context, 0, error, pixmap), state),
                        Ok(_) => (
                            XDispatchAnswer::Nothing,
                            XAuthorityRuntimeView {
                                resources: state.resources.insert(
                                    pixmap,
                                    filed(pixmap, XResourceKind::Pixmap, ns, context.sequence as u64),
                                ),
                                pixmap_sizes: state.pixmap_sizes.insert(pixmap, size),
                                ..state
                            },
                        ),
                    }
                },
            }
        },
        XWireRequest::XfixesCreateRegion { region, rectangles } => (
            silent_or_refused(
                context,
                X_XFIXES_CREATE_REGION_MINOR_OPCODE as u16,
                insert_outcome(region, ns),
                region,
            ),
            if insert_outcome(region, ns) is Ok {
                XAuthorityRuntimeView {
                    resources: state.resources.insert(
                        region,
                        filed(region, XResourceKind::Region, ns, context.sequence as u64),
                    ),
                    xfixes_regions: state.xfixes_regions.insert(region, rectangles@),
                    ..state
                }
            } else {
                state
            },
        ),
        XWireRequest::XfixesSetRegion { region, rectangles } => (
            silent_or_refused(
                context,
                X_XFIXES_SET_REGION_MINOR_OPCODE as u16,
                access_outcome(state.resources, ns, region, XResourceKind::Region),
                region,
            ),
            if access_outcome(state.resources, ns, region, XResourceKind::Region) is Ok {
                XAuthorityRuntimeView {
                    xfixes_regions: state.xfixes_regions.insert(region, rectangles@),
                    ..state
                }
            } else {
                state
            },
        ),
        XWireRequest::XfixesDestroyRegion { region } => (
            silent_or_refused(
                context,
                X_XFIXES_DESTROY_REGION_MINOR_OPCODE as u16,
                access_outcome(state.resources, ns, region, XResourceKind::Region),
                region,
            ),
            if access_outcome(state.resources, ns, region, XResourceKind::Region) is Ok {
                XAuthorityRuntimeView {
                    resources: state.resources.remove(region),
                    xfixes_regions: state.xfixes_regions.remove(region),
                    ..state
                }
            } else {
                state
            },
        ),
        XWireRequest::SyncInitialize => (
            XDispatchAnswer::Output(
                XClientOutput::Reply(
                    XClientReply::SyncInitialize {
                        sequence: context.sequence,
                        major_version: 3,
                        minor_version: 1,
                    },
                ),
            ),
            state,
        ),
        XWireRequest::SyncDestroyFence { fence } => (
            match slot_read(state.resources, state.dri3_fences, ns, fence, XResourceKind::Fence) {
                Ok(_) => XDispatchAnswer::Nothing,
                Err(error) => refusal(context, X_SYNC_DESTROY_FENCE_MINOR_OPCODE as u16, error, fence),
            },
            if access_outcome(state.resources, ns, fence, XResourceKind::Fence) is Ok {
                XAuthorityRuntimeView {
                    resources: state.resources.remove(fence),
                    dri3_fences: state.dri3_fences.remove(fence),
                    ..state
                }
            } else {
                state
            },
        ),
        XWireRequest::ShmQueryVersion => (
            XDispatchAnswer::Output(
                XClientOutput::Reply(
                    XClientReply::ShmQueryVersion {
                        sequence: context.sequence,
                        major_version: 1,
                        minor_version: 2,
                        shared_pixmaps: false,
                        pixmap_format: 0,
                    },
                ),
            ),
            state,
        ),
        XWireRequest::Dri3QueryVersion => (
            XDispatchAnswer::Output(
                XClientOutput::Reply(
                    XClientReply::Dri3QueryVersion {
                        sequence: context.sequence,
                        major_version: 1,
                        minor_version: 2,
                    },
                ),
            ),
            state,
        ),
        XWireRequest::XfixesQueryVersion => (
            XDispatchAnswer::Output(
                XClientOutput::Reply(
                    XClientReply::XfixesQueryVersion {
                        sequence: context.sequence,
                        major_version: 6,
                        minor_version: 0,
                    },
                ),
            ),
            state,
        ),
        XWireRequest::GetKeyboardMapping { first_keycode, count } => (
            XDispatchAnswer::KeyboardMapping {
                sequence: context.sequence,
                keysyms: core_mapping_of(
                    state.keymap.keysyms,
                    state.keymap.min_keycode,
                    first_keycode,
                    count as int,
                ),
            },
            state,
        ),
        XWireRequest::GetModifierMapping => (
            XDispatchAnswer::ModifierMapping {
                sequence: context.sequence,
                keycodes: modifier_mapping_of(state.keymap.modifier_map),
            },
            state,
        ),
        XWireRequest::XkbGetMap { full, partial } => (
            XDispatchAnswer::XkbMap {
                sequence: context.sequence,
                present: (full | partial) & 0x43u16,
                keysyms: state.keymap.keysyms,
                modifier_map: state.keymap.modifier_map,
            },
            state,
        ),
        XWireRequest::XkbUseExtension => (
            XDispatchAnswer::Output(XClientOutput::Reply(XClientReply::XkbUseExtension { sequence: context.sequence, supported: true, server_major: 1, server_minor: 0 })),
            state,
        ),
        XWireRequest::XkbGetState => (
            XDispatchAnswer::Output(XClientOutput::Reply(XClientReply::XkbGetState { sequence: context.sequence, modifiers: 0 })),
            state,
        ),
        XWireRequest::XkbSelectEvents => (XDispatchAnswer::Nothing, state),
        XWireRequest::XkbPerClientFlags { change, value } => (
            XDispatchAnswer::Output(XClientOutput::Reply(XClientReply::XkbPerClientFlags { sequence: context.sequence, supported: change, value: value & change })),
            state,
        ),
        XWireRequest::QueryExtension { name } => (
            XDispatchAnswer::Output(XClientOutput::Reply(XClientReply::QueryExtension { sequence: context.sequence, present: extension_query(name@).present, major_opcode: extension_query(name@).major_opcode, first_event: extension_query(name@).first_event, first_error: extension_query(name@).first_error })),
            state,
        ),
        XWireRequest::ListExtensions => (
            XDispatchAnswer::Output(XClientOutput::Reply(XClientReply::ListExtensions { sequence: context.sequence })),
            state,
        ),
        XWireRequest::QueryBestSize { width, height } => (
            XDispatchAnswer::Output(XClientOutput::Reply(XClientReply::QueryBestSize { sequence: context.sequence, width, height })),
            state,
        ),
        XWireRequest::BigRequestsEnable => (
            XDispatchAnswer::Output(XClientOutput::Reply(XClientReply::BigRequestsEnable { sequence: context.sequence, maximum_request_length: 4096 })),
            state,
        ),
        XWireRequest::XiGetExtensionVersion => (
            XDispatchAnswer::Output(XClientOutput::Reply(XClientReply::XiGetExtensionVersion { sequence: context.sequence, server_major: 2, server_minor: 0 })),
            state,
        ),
        XWireRequest::XiGetClientPointer => (
            XDispatchAnswer::Output(XClientOutput::Reply(XClientReply::XiGetClientPointer { sequence: context.sequence, device_id: 2 })),
            state,
        ),
        XWireRequest::GeQueryVersion => (
            XDispatchAnswer::Output(XClientOutput::Reply(XClientReply::GeQueryVersion { sequence: context.sequence, major_version: 1, minor_version: 0 })),
            state,
        ),
        XWireRequest::XiQueryVersion => (
            XDispatchAnswer::Output(XClientOutput::Reply(XClientReply::XiQueryVersion { sequence: context.sequence, major_version: 2, minor_version: 0 })),
            state,
        ),
        XWireRequest::QueryColors { pixels } => (
            XDispatchAnswer::Output(XClientOutput::Reply(XClientReply::QueryColors { sequence: context.sequence, pixels })),
            state,
        ),
        XWireRequest::AllocNamedColor { name } => {
            let black = names_black(name@);
            let intensity: u16 = if black { 0 } else { 0xffff };
            (
                XDispatchAnswer::Output(XClientOutput::Reply(XClientReply::AllocNamedColor {
                    sequence: context.sequence,
                    pixel: if black { 0 } else { 1 },
                    red: intensity,
                    green: intensity,
                    blue: intensity,
                })),
                state,
            )
        },
        XWireRequest::AllocColor { red, green, blue } => (
            XDispatchAnswer::Output(XClientOutput::Reply(XClientReply::AllocColor {
                sequence: context.sequence,
                pixel: true_color_pixel(red, green, blue),
                red,
                green,
                blue,
            })),
            state,
        ),
        XWireRequest::PresentQueryVersion => (
            XDispatchAnswer::Output(XClientOutput::Reply(XClientReply::PresentQueryVersion { sequence: context.sequence, major_version: 1, minor_version: 2 })),
            state,
        ),
        XWireRequest::RandrQueryVersion => (
            XDispatchAnswer::Output(XClientOutput::Reply(XClientReply::RandrQueryVersion { sequence: context.sequence, major_version: 1, minor_version: 5 })),
            state,
        ),
        XWireRequest::GlxQueryVersion => (
            XDispatchAnswer::Output(XClientOutput::Reply(XClientReply::GlxQueryVersion { sequence: context.sequence, major_version: 1, minor_version: 4 })),
            state,
        ),
        XWireRequest::GlxClientInfo => (XDispatchAnswer::Nothing, state),
        XWireRequest::XiGetProperty => (
            XDispatchAnswer::Output(XClientOutput::Reply(XClientReply::XiGetProperty { sequence: context.sequence })),
            state,
        ),
        XWireRequest::Dri3FenceFromFd { drawable, fence } => match drawable_access(
            state.resources,
            ns,
            drawable,
        ) {
            Err(error) => (refusal(context, 0, error, drawable), state),
            Ok(_) => match insert_outcome(fence, ns) {
                Err(error) => (refusal(context, 0, error, fence), state),
                Ok(_) => {
                    let handle = fence_handle_for(state.next_fence_handle);
                    (
                        XDispatchAnswer::Nothing,
                        XAuthorityRuntimeView {
                            resources: state.resources.insert(
                                fence,
                                filed(fence, XResourceKind::Fence, ns, context.sequence as u64),
                            ),
                            dri3_fences: state.dri3_fences.insert(fence, FenceHandle { raw: handle }),
                            next_fence_handle: fence_counter_after(handle),
                            ..state
                        },
                    )
                },
            },
        },
        XWireRequest::Dri3Open { drawable, provider } => (
            if provider != 0 {
                bad_value(context, X_DRI3_OPEN_MINOR_OPCODE, provider)
            } else {
                match drawable_access(state.resources, ns, drawable) {
                    Err(error) => refusal(context, X_DRI3_OPEN_MINOR_OPCODE as u16, error, drawable),
                    Ok(_) => XDispatchAnswer::Output(
                        XClientOutput::Reply(XClientReply::Dri3Open { sequence: context.sequence }),
                    ),
                }
            },
            state,
        ),
        XWireRequest::FreePixmap { pixmap } => (
            silent_or_refused(
                context,
                0,
                access_outcome(state.resources, ns, pixmap, XResourceKind::Pixmap),
                pixmap,
            ),
            if access_outcome(state.resources, ns, pixmap, XResourceKind::Pixmap) is Ok {
                XAuthorityRuntimeView {
                    resources: state.resources.remove(pixmap),
                    pixmap_sizes: state.pixmap_sizes.remove(pixmap),
                    ..state
                }
            } else {
                state
            },
        ),
        XWireRequest::RandrGetOutputInfo { output } => (
            match first_position(output_ids(state.topology.outputs), output) {
                Some(i) => {
                    let entry = state.topology.outputs[i];
                    XDispatchAnswer::RandrOutputInfo {
                        sequence: context.sequence,
                        timestamp: randr_timestamp(state.topology.generation),
                        crtc: crtc_id(entry.output),
                        mm_width: pixels_to_millimeters(entry.logical.width),
                        mm_height: pixels_to_millimeters(entry.logical.height),
                        mode: entry_mode(entry),
                        name: output_name(entry.output),
                    }
                },
                None => bad_value(context, X_RANDR_GET_OUTPUT_INFO_MINOR_OPCODE, output),
            },
            state,
        ),
        XWireRequest::RandrGetCrtcInfo { crtc } => (
            match first_position(crtc_ids(state.topology.outputs), crtc) {
                Some(i) => {
                    let entry = state.topology.outputs[i];
                    XDispatchAnswer::RandrCrtcInfo {
                        sequence: context.sequence,
                        timestamp: randr_timestamp(state.topology.generation),
                        x: i16_or_max(entry.logical.x),
                        y: i16_or_max(entry.logical.y),
                        width: entry.logical.width as u16,
                        height: entry.logical.height as u16,
                        mode: entry_mode(entry),
                        output: output_id(entry.output),
                    }
                },
                None => bad_value(context, X_RANDR_GET_CRTC_INFO_MINOR_OPCODE, crtc),
            },
            state,
        ),
    }
}

/// A byte with ASCII upper case folded to lower case.
pub open spec fn ascii_lower(byte: u8) -> u8 {
    if 65 <= byte <= 90 {
        (byte + 32) as u8
    } else {
        byte
    }
}

/// Whether a color name is `black`, in any ASCII case.
pub open spec fn names_black(name: Seq<u8>) -> bool {
    &&& name.len() == 5
    &&& forall|i: int| 0 <= i < 5 ==> ascii_lower(#[trigger] name[i]) == seq![98u8, 108, 97, 99, 107][i]
}

fn is_black_name(name: &Vec<u8>) -> (black: bool)
    ensures
        black == names_black(name@),
{
    if name.len() != 5 {
        return false;
    }
    let expected: [u8; 5] = [98, 108, 97, 99, 107];
    let mut i: usize = 0;
    while i < 5
        invariant
            name@.len() == 5,
            i <= 5,
            expected@ == seq![98u8, 108, 97, 99, 107],
            forall|j: int| 0 <= j < i ==> ascii_lower(#[trigger] name@[j]) == seq![98u8, 108, 97, 99, 107][j],
        decreases 5 - i,
    {
        let byte = name[i];
        let lower: u8 = if 65 <= byte && byte <= 90 { byte + 32 } else { byte };
        if lower != expected[i] {
            return false;
        }
        i = i + 1;
    }
    true
}

fn refuse(context: &XDispatchContext, minor_code: u16, error: XAuthorityRuntimeError, resource: XResourceId) -> (output:
    XClientOutput)
    ensures
        XDispatchAnswer::Output(output) == refusal(*context, minor_code, error, resource),
{
    XClientOutput::Error(
        x_error_from_runtime(
            error,
            context.sequence,
            context.major_opcode,
            minor_code,
            raw_xid_of(resource),
        ),
    )
}

fn silent_or_refuse(
    context: &XDispatchContext,
    minor_code: u16,
    outcome: Result<(), XAuthorityRuntimeError>,
    resource: XResourceId,
) -> (outputs: Vec<XClientOutput>)
    ensures
        answer_matches(outputs@, silent_or_refused(*context, minor_code, outcome, resource)),
{
    match outcome {
        Ok(()) => Vec::new(),
        Err(error) => {
            let output = refuse(context, minor_code, error, resource);
            let outputs = vec![output];
            assert(outputs@ == seq![output]);
            outputs
        },
    }
}

fn one_output(output: XClientOutput) -> (outputs: Vec<XClientOutput>)
    ensures
        outputs@ == seq![output],
{
    let outputs = vec![output];
    assert(outputs@ == seq![output]);
    outputs
}

fn font_names(max_names: u16) -> (names: Vec<String>)
    ensures
        names@.map_values(|name: String| name@) == if max_names == 0 {
            Seq::<Seq<char>>::empty()
        } else {
            seq!["fixed"@]
        },
{
    let mut names: Vec<String> = Vec::new();
    if max_names != 0 {
        names.push(String::from_str("fixed"));
    }
    assert(names@.map_values(|name: String| name@) =~= if max_names == 0 {
        Seq::<Seq<char>>::empty()
    } else {
        seq!["fixed"@]
    });
    names
}

/// Checks then creates a cursor: the first failing check, else the
/// creation, decides the answer.
fn create_checked_cursor(
    context: &XDispatchContext,
    runtime: &mut XAuthorityRuntime,
    cursor: XResourceId,
    first: XResourceId,
    second: Option<XResourceId>,
    glyph: bool,
) -> (outputs: Vec<XClientOutput>)
    ensures
        ({
            let outcome = cursor_outcome(
                cursor_checks(old(runtime)@, *context, first, second, glyph),
                old(runtime)@,
                *context,
                cursor,
                glyph,
            );
            &&& answer_matches(outputs@, outcome.0)
            &&& final(runtime)@ == outcome.1
        }),
{
    let ghost state = runtime@;
    let ghost checks = cursor_checks(state, *context, first, second, glyph);
    proof {
        reveal_with_fuel(cursor_outcome, 3);
    }
    let first_check = if glyph {
        runtime.validate_font_access(context.namespace, first)
    } else {
        runtime.validate_drawable_access(context.namespace, first)
    };
    assert(first_check == checks[0].0);
    if let Err(error) = first_check {
        return one_output(refuse(context, 0, error, if glyph { first } else { cursor }));
    }
    if let Some(s) = second {
        let second_check = if glyph {
            runtime.validate_font_access(context.namespace, s)
        } else {
            runtime.validate_drawable_access(context.namespace, s)
        };
        assert(second_check == checks[1].0);
        assert(checks.drop_first()[0] == checks[1]);
        assert(checks.drop_first().drop_first().len() == 0);
        if let Err(error) = second_check {
            return one_output(refuse(context, 0, error, if glyph { s } else { cursor }));
        }
    } else {
        assert(checks.drop_first().len() == 0);
    }
    let created = runtime.create_cursor(context.namespace, cursor, context.sequence as u64);
    silent_or_refuse(context, 0, created, cursor)
}

fn bad_value_error(context: &XDispatchContext, minor_code: u8, value: u32) -> (outputs: Vec<
    XClientOutput,
>)
    ensures
        answer_matches(outputs@, bad_value(*context, minor_code, value)),
{
    one_output(
        XClientOutput::Error(
            XClientError {
                code: XErrorCode::BadValue,
                sequence: context.sequence,
                resource_id: value,
                minor_code: minor_code as u16,
                major_code: context.major_opcode,
            },
        ),
    )
}

/// Answers RandR `GetOutputInfo` from the output layout.
fn randr_output_info(context: &XDispatchContext, topology: &OutputTopologySnapshot, output: u32) -> (outputs:
    Vec<XClientOutput>)
    requires
        topology_sizes_fit(topology.outputs@),
    ensures
        ({
            let state_topology = topology_view(*topology);
            answer_matches(
                outputs@,
                match first_position(output_ids(state_topology.outputs), output) {
                    Some(i) => XDispatchAnswer::RandrOutputInfo {
                        sequence: context.sequence,
                        timestamp: randr_timestamp(state_topology.generation),
                        crtc: crtc_id(state_topology.outputs[i].output),
                        mm_width: pixels_to_millimeters(state_topology.outputs[i].logical.width),
                        mm_height: pixels_to_millimeters(state_topology.outputs[i].logical.height),
                        mode: entry_mode(state_topology.outputs[i]),
                        name: output_name(state_topology.outputs[i].output),
                    },
                    None => bad_value(*context, X_RANDR_GET_OUTPUT_INFO_MINOR_OPCODE, output),
                },
            )
        }),
{
    let resources = randr_resources(topology);
    assert(resources.outputs@ =~= output_ids(topology.outputs@));
    match find_first(&resources.outputs, output) {
        Some(i) => {
            let entry = topology.outputs[i];
            assert(is_output_mode(resources.modes@[i as int], topology.outputs@[i as int]));
            let mut name: Vec<u8> = vec![83, 79, 80, 72, 73, 65, 45];
            push_decimal(&mut name, entry.output);
            assert(name@ =~= output_name(entry.output));
            let crtc = resources.crtcs[i];
            let mut crtcs: Vec<u32> = Vec::new();
            crtcs.push(crtc);
            let mut modes: Vec<u32> = Vec::new();
            modes.push(resources.modes[i].id);
            one_output(
                XClientOutput::Reply(
                    XClientReply::RandrGetOutputInfo {
                        sequence: context.sequence,
                        timestamp: resources.timestamp,
                        crtc,
                        mm_width: logical_pixels_to_millimeters(entry.logical.width),
                        mm_height: logical_pixels_to_millimeters(entry.logical.height),
                        crtcs,
                        modes,
                        name,
                    },
                ),
            )
        },
        None => bad_value_error(context, X_RANDR_GET_OUTPUT_INFO_MINOR_OPCODE, output),
    }
}

/// Answers RandR `GetCrtcInfo` from the output layout.
fn randr_crtc_info(context: &XDispatchContext, topology: &OutputTopologySnapshot, crtc: u32) -> (outputs:
    Vec<XClientOutput>)
    requires
        topology_sizes_fit(topology.outputs@),
    ensures
        ({
            let state_topology = topology_view(*topology);
            answer_matches(
                outputs@,
                match first_position(crtc_ids(state_topology.outputs), crtc) {
                    Some(i) => XDispatchAnswer::RandrCrtcInfo {
                        sequence: context.sequence,
                        timestamp: randr_timestamp(state_topology.generation),
                        x: i16_or_max(state_topology.outputs[i].logical.x),
                        y: i16_or_max(state_topology.outputs[i].logical.y),
                        width: state_topology.outputs[i].logical.width as u16,
                        height: state_topology.outputs[i].logical.height as u16,
                        mode: entry_mode(state_topology.outputs[i]),
                        output: output_id(state_topology.outputs[i].output),
                    },
                    None => bad_value(*context, X_RANDR_GET_CRTC_INFO_MINOR_OPCODE, crtc),
                },
            )
        }),
{
    let resources = randr_resources(topology);
    assert(resources.crtcs@ =~= crtc_ids(topology.outputs@));
    match find_first(&resources.crtcs, crtc) {
        Some(i) => {
            let entry = topology.outputs[i];
            assert(is_output_mode(resources.modes@[i as int], topology.outputs@[i as int]));
            assert(0 <= entry.logical.width <= u16::MAX && 0 <= entry.logical.height <= u16::MAX) by {
                assert(entry == topology.outputs@[i as int]);
            }
            let x: i16 = if -32768 <= entry.logical.x && entry.logical.x <= 32767 {
                entry.logical.x as i16
            } else {
                i16::MAX
            };
            let y: i16 = if -32768 <= entry.logical.y && entry.logical.y <= 32767 {
                entry.logical.y as i16
            } else {
                i16::MAX
            };
            let mut outputs: Vec<u32> = Vec::new();
            outputs.push(resources.outputs[i]);
            one_output(
                XClientOutput::Reply(
                    XClientReply::RandrGetCrtcInfo {
                        sequence: context.sequence,
                        timestamp: resources.timestamp,
                        x,
                        y,
                        width: entry.logical.width as u16,
                        height: entry.logical.height as u16,
                        mode: resources.modes[i].id,
                        outputs,
                    },
                ),
            )
        },
        None => bad_value_error(context, X_RANDR_GET_CRTC_INFO_MINOR_OPCODE, crtc),
    }
}

/// Answers one decoded request against the runtime's resource state.
pub fn dispatch_x11_wire_request(
    context: XDispatchContext,
    request: XWireRequest,
    runtime: &mut XAuthorityRuntime,
) -> (result: XDispatchResult)
    requires
        topology_sizes_fit(old(runtime)@.topology.outputs),
    ensures
        answer_matches(result.outputs@, dispatch_outcome(context, request, old(runtime)@).0),
        final(runtime)@ == dispatch_outcome(context, request, old(runtime)@).1,
{
    let ns = context.namespace;
    let generation = context.sequence as u64;
    let outputs = match request {
        XWireRequest::OpenFont { font } => {
            let outcome = runtime.open_font(ns, font, generation);
            silent_or_refuse(&context, 0, outcome, font)
        },
        XWireRequest::CloseFont { font } => {
            let outcome = runtime.close_font(ns, font);
            silent_or_refuse(&context, 0, outcome, font)
        },
        XWireRequest::QueryFont { font } => match runtime.validate_font_access(ns, font) {
            Ok(()) => one_output(
                XClientOutput::Reply(
                    XClientReply::QueryFont {
                        sequence: context.sequence,
                        font_ascent: 8,
                        font_descent: 2,
                    },
                ),
            ),
            Err(error) => one_output(refuse(&context, 0, error, font)),
        },
        XWireRequest::CreateCursor { cursor, source, mask } => create_checked_cursor(
            &context,
            runtime,
            cursor,
            source,
            mask,
            false,
        ),
        XWireRequest::CreateGlyphCursor { cursor, source_font, mask_font } => create_checked_cursor(
            &context,
            runtime,
            cursor,
            source_font,
            mask_font,
            true,
        ),
        XWireRequest::FreeCursor { cursor } => {
            let outcome = runtime.free_cursor(ns, cursor);
            silent_or_refuse(&context, 0, outcome, cursor)
        },
        XWireRequest::RecolorCursor { cursor } => {
            let outcome = runtime.validate_cursor_access(ns, cursor);
            silent_or_refuse(&context, 0, outcome, cursor)
        },
        XWireRequest::ListFonts { max_names } => one_output(
            XClientOutput::Reply(
                XClientReply::ListFonts { sequence: context.sequence, names: font_names(max_names) },
            ),
        ),
        XWireRequest::ListFontsWithInfo { max_names } => one_output(
            XClientOutput::Reply(
                XClientReply::ListFontsWithInfo {
                    sequence: context.sequence,
                    names: font_names(max_names),
                },
            ),
        ),
        XWireRequest::CreatePixmap { pixmap, drawable, width, height } => {
            match runtime.validate_drawable_access(ns, drawable) {
                Err(error) => one_output(refuse(&context, 0, error, drawable)),
                Ok(()) => {
                    let size = Size { width: width as i32, height: height as i32 };
                    match runtime.create_pixmap(ns, pixmap, size, generation) {
                        Ok(()) => Vec::new(),
                        Err(error) => one_output(refuse(&context, 0, error, pixmap)),
                    }
                },
            }
        },
        XWireRequest::XfixesCreateRegion { region, rectangles } => {
            let outcome = runtime.create_xfixes_region(ns, region, rectangles, generation);
            silent_or_refuse(&context, X_XFIXES_CREATE_REGION_MINOR_OPCODE as u16, outcome, region)
        },
        XWireRequest::XfixesSetRegion { region, rectangles } => {
            let outcome = runtime.set_xfixes_region(ns, region, rectangles);
            silent_or_refuse(&context, X_XFIXES_SET_REGION_MINOR_OPCODE as u16, outcome, region)
        },
        XWireRequest::XfixesDestroyRegion { region } => {
            let outcome = runtime.destroy_xfixes_region(ns, region);
            silent_or_refuse(&context, X_XFIXES_DESTROY_REGION_MINOR_OPCODE as u16, outcome, region)
        },
        XWireRequest::SyncInitialize => one_output(
            XClientOutput::Reply(
                XClientReply::SyncInitialize {
                    sequence: context.sequence,
                    major_version: 3,
                    minor_version: 1,
                },
            ),
        ),
        XWireRequest::SyncDestroyFence { fence } => match runtime.destroy_dri3_fence(ns, fence) {
            Ok(_) => Vec::new(),
            Err(error) => one_output(
                refuse(&context, X_SYNC_DESTROY_FENCE_MINOR_OPCODE as u16, error, fence),
            ),
        },
        XWireRequest::ShmQueryVersion => one_output(
            XClientOutput::Reply(
                XClientReply::ShmQueryVersion {
                    sequence: context.sequence,
                    major_version: 1,
                    minor_version: 2,
                    shared_pixmaps: false,
                    pixmap_format: 0,
                },
            ),
        ),
        XWireRequest::Dri3QueryVersion => one_output(
            XClientOutput::Reply(
                XClientReply::Dri3QueryVersion {
                    sequence: context.sequence,
                    major_version: 1,
                    minor_version: 2,
                },
            ),
        ),
        XWireRequest::XfixesQueryVersion => one_output(
            XClientOutput::Reply(
                XClientReply::XfixesQueryVersion {
                    sequence: context.sequence,
                    major_version: 6,
                    minor_version: 0,
                },
            ),
        ),
        XWireRequest::GetKeyboardMapping { first_keycode, count } => one_output(
            XClientOutput::Reply(
                XClientReply::GetKeyboardMapping {
                    sequence: context.sequence,
                    keysyms_per_keycode: 2,
                    keysyms: runtime.xkb_keymap().core_mapping(first_keycode, count),
                },
            ),
        ),
        XWireRequest::GetModifierMapping => {
            let map = runtime.xkb_keymap().modifier_map();
            one_output(
                XClientOutput::Reply(
                    XClientReply::GetModifierMapping {
                        sequence: context.sequence,
                        keycodes_per_modifier: 2,
                        keycodes: modifier_mapping(&map),
                    },
                ),
            )
        },
        XWireRequest::XkbGetMap { full, partial } => one_output(
            XClientOutput::Reply(
                XClientReply::XkbGetMap {
                    sequence: context.sequence,
                    present: (full | partial) & 0x43u16,
                    keysyms: runtime.xkb_keymap().xkb_keysyms(),
                    modifier_map: runtime.xkb_keymap().modifier_map(),
                },
            ),
        ),
        XWireRequest::XkbUseExtension => one_output(XClientOutput::Reply(XClientReply::XkbUseExtension { sequence: context.sequence, supported: true, server_major: 1, server_minor: 0 })),
        XWireRequest::XkbGetState => one_output(XClientOutput::Reply(XClientReply::XkbGetState { sequence: context.sequence, modifiers: 0 })),
        XWireRequest::XkbSelectEvents => Vec::new(),
        XWireRequest::XkbPerClientFlags { change, value } => one_output(XClientOutput::Reply(XClientReply::XkbPerClientFlags { sequence: context.sequence, supported: change, value: value & change })),
        XWireRequest::QueryExtension { name } => {
            let extension = extension_query_result(name.as_slice());
            one_output(XClientOutput::Reply(XClientReply::QueryExtension { sequence: context.sequence, present: extension.present, major_opcode: extension.major_opcode, first_event: extension.first_event, first_error: extension.first_error }))
        },
        XWireRequest::ListExtensions => one_output(XClientOutput::Reply(XClientReply::ListExtensions { sequence: context.sequence })),
        XWireRequest::QueryBestSize { width, height } => one_output(XClientOutput::Reply(XClientReply::QueryBestSize { sequence: context.sequence, width, height })),
        XWireRequest::BigRequestsEnable => one_output(XClientOutput::Reply(XClientReply::BigRequestsEnable { sequence: context.sequence, maximum_request_length: 4096 })),
        XWireRequest::XiGetExtensionVersion => one_output(XClientOutput::Reply(XClientReply::XiGetExtensionVersion { sequence: context.sequence, server_major: 2, server_minor: 0 })),
        XWireRequest::XiGetClientPointer => one_output(XClientOutput::Reply(XClientReply::XiGetClientPointer { sequence: context.sequence, device_id: 2 })),
        XWireRequest::GeQueryVersion => one_output(XClientOutput::Reply(XClientReply::GeQueryVersion { sequence: context.sequence, major_version: 1, minor_version: 0 })),
        XWireRequest::XiQueryVersion => one_output(XClientOutput::Reply(XClientReply::XiQueryVersion { sequence: context.sequence, major_version: 2, minor_version: 0 })),
        XWireRequest::QueryColors { pixels } => one_output(XClientOutput::Reply(XClientReply::QueryColors { sequence: context.sequence, pixels })),
        XWireRequest::AllocNamedColor { name } => {
            let black = is_black_name(&name);
            let intensity: u16 = if black { 0 } else { 0xffff };
            one_output(XClientOutput::Reply(XClientReply::AllocNamedColor {
                sequence: context.sequence,
                pixel: if black { 0 } else { 1 },
                red: intensity,
                green: intensity,
                blue: intensity,
            }))
        },
        XWireRequest::AllocColor { red, green, blue } => {
            let pixel = true_color_pixel_from_rgb16(red, green, blue);
            one_output(XClientOutput::Reply(XClientReply::AllocColor { sequence: context.sequence, pixel, red, green, blue }))
        },
        XWireRequest::PresentQueryVersion => one_output(XClientOutput::Reply(XClientReply::PresentQueryVersion { sequence: context.sequence, major_version: 1, minor_version: 2 })),
        XWireRequest::RandrQueryVersion => one_output(XClientOutput::Reply(XClientReply::RandrQueryVersion { sequence: context.sequence, major_version: 1, minor_version: 5 })),
        XWireRequest::GlxQueryVersion => one_output(XClientOutput::Reply(XClientReply::GlxQueryVersion { sequence: context.sequence, major_version: 1, minor_version: 4 })),
        XWireRequest::GlxClientInfo => Vec::new(),
        XWireRequest::XiGetProperty => one_output(XClientOutput::Reply(XClientReply::XiGetProperty { sequence: context.sequence })),
        XWireRequest::Dri3FenceFromFd { drawable, fence } => match runtime.validate_drawable_access(
            ns,
            drawable,
        ) {
            Err(error) => one_output(refuse(&context, 0, error, drawable)),
            Ok(()) => match runtime.create_dri3_fence(ns, fence, generation) {
                Err(error) => one_output(refuse(&context, 0, error, fence)),
                Ok(_) => Vec::new(),
            },
        },
        XWireRequest::Dri3Open { drawable, provider } => {
            if provider != 0 {
                bad_value_error(&context, X_DRI3_OPEN_MINOR_OPCODE, provider)
            } else {
                match runtime.validate_drawable_access(ns, drawable) {
                    Err(error) => one_output(refuse(&context, X_DRI3_OPEN_MINOR_OPCODE as u16, error, drawable)),
                    Ok(()) => one_output(
                        XClientOutput::Reply(XClientReply::Dri3Open { sequence: context.sequence }),
                    ),
                }
            }
        },
        XWireRequest::FreePixmap { pixmap } => {
            let outcome = runtime.free_pixmap(ns, pixmap);
            silent_or_refuse(&context, 0, outcome, pixmap)
        },
        XWireRequest::RandrGetOutputInfo { output } => randr_output_info(&context, runtime.output_topology(), output),
        XWireRequest::RandrGetCrtcInfo { crtc } => randr_crtc_info(&context, runtime.output_topology(), crtc),
    };
    XDispatchResult { outputs }
}

proof fn lemma_cursor_refusal_keeps_state(
    checks: Seq<(Result<(), XAuthorityRuntimeError>, XResourceId)>,
    state: XAuthorityRuntimeView,
    context: XDispatchContext,
    cursor: XResourceId,
    glyph: bool,
)
    ensures
        !(cursor_outcome(checks, state, context, cursor, glyph).0 is Nothing) ==> cursor_outcome(
            checks,
            state,
            context,
            cursor,
            glyph,
        ).1 == state,
    decreases checks.len(),
{
    if checks.len() > 0 && checks[0].0 is Ok {
        lemma_cursor_refusal_keeps_state(checks.drop_first(), state, context, cursor, glyph);
    }
}

/// Every DRI3 fence resource has its renderer handle filed.
pub open spec fn fences_filed(state: XAuthorityRuntimeView) -> bool {
    forall|id: XResourceId|
        #[trigger] state.resources.contains_key(id) && state.resources[id].kind
            == XResourceKind::Fence ==> state.dri3_fences.contains_key(id)
}

proof fn lemma_cursor_keeps_fences_filed(
    checks: Seq<(Result<(), XAuthorityRuntimeError>, XResourceId)>,
    state: XAuthorityRuntimeView,
    context: XDispatchContext,
    cursor: XResourceId,
    glyph: bool,
)
    requires
        fences_filed(state),
    ensures
        fences_filed(cursor_outcome(checks, state, context, cursor, glyph).1),
    decreases checks.len(),
{
    if checks.len() > 0 && checks[0].0 is Ok {
        lemma_cursor_keeps_fences_filed(checks.drop_first(), state, context, cursor, glyph);
    }
}

/// Dispatching keeps every DRI3 fence resource's renderer handle filed.
pub proof fn law_dispatch_keeps_fences_filed(
    context: XDispatchContext,
    request: XWireRequest,
    state: XAuthorityRuntimeView,
)
    requires
        fences_filed(state),
    ensures
        fences_filed(dispatch_outcome(context, request, state).1),
{
    match request {
        XWireRequest::CreateCursor { cursor, source, mask } => {
            lemma_cursor_keeps_fences_filed(
                cursor_checks(state, context, source, mask, false),
                state,
                context,
                cursor,
                false,
            );
        },
        XWireRequest::CreateGlyphCursor { cursor, source_font, mask_font } => {
            lemma_cursor_keeps_fences_filed(
                cursor_checks(state, context, source_font, mask_font, true),
                state,
                context,
                cursor,
                true,
            );
        },
        _ => {},
    }
}

/// A request that is refused, or answered with a reply, leaves the
/// authority's state as it was: only a request answered with nothing
/// changes it. The state is one in which every DRI3 fence resource has its
/// renderer handle filed, as the runtime keeps it.
pub proof fn law_refused_request_changes_nothing(
    context: XDispatchContext,
    request: XWireRequest,
    state: XAuthorityRuntimeView,
)
    requires
        fences_filed(state),
    ensures
        !(dispatch_outcome(context, request, state).0 is Nothing) ==> dispatch_outcome(
            context,
            request,
            state,
        ).1 == state,
{
    match request {
        XWireRequest::CreateCursor { cursor, source, mask } => {
            lemma_cursor_refusal_keeps_state(
                cursor_checks(state, context, source, mask, false),
                state,
                context,
                cursor,
                false,
            );

        },
        XWireRequest::CreateGlyphCursor { cursor, source_font, mask_font } => {
            lemma_cursor_refusal_keeps_state(
                cursor_checks(state, context, source_font, mask_font, true),
                state,
                context,
                cursor,
                true,
            );
        },
        _ => {},
    }
}

/// Answers a request that could not be decoded with the X error its parse
/// failure maps to.
pub fn dispatch_x11_parse_error(context: XDispatchContext, minor_code: u16, error: XWireParseError) -> (result:
    XDispatchResult)
    ensures
        result.outputs@ == seq![
            XClientOutput::Error(
                XClientError {
                    code: wire_parse_error_code(error),
                    sequence: context.sequence,
                    resource_id: 0,
                    minor_code,
                    major_code: context.major_opcode,
                },
            ),
        ],
{
    let output = XClientOutput::Error(
        x_error_from_wire_parse(&error, context.sequence, context.major_opcode, minor_code),
    );
    XDispatchResult { outputs: one_output(output) }
}

/// The core keyboard replies and the XKB map reply describe one map: the
/// core keysym table is read from the keysym pairs the XKB reply carries,
/// keycode by keycode, and every keycode the core modifier table lists for
/// a modifier is one the XKB reply's modifier map assigns that modifier.
pub proof fn law_core_and_xkb_replies_share_the_map(
    context: XDispatchContext,
    state: XAuthorityRuntimeView,
    first_keycode: u8,
    count: u8,
    full: u16,
    partial: u16,
)
    ensures
        ({
            let core = dispatch_outcome(
                context,
                XWireRequest::GetKeyboardMapping { first_keycode, count },
                state,
            ).0;
            let modifiers = dispatch_outcome(context, XWireRequest::GetModifierMapping, state).0;
            let xkb = dispatch_outcome(context, XWireRequest::XkbGetMap { full, partial }, state).0;
            xkb matches XDispatchAnswer::XkbMap { keysyms, modifier_map, .. } && {
                &&& core == XDispatchAnswer::KeyboardMapping {
                    sequence: context.sequence,
                    keysyms: core_mapping_of(keysyms, state.keymap.min_keycode, first_keycode, count as int),
                }
                &&& modifiers == XDispatchAnswer::ModifierMapping {
                    sequence: context.sequence,
                    keycodes: modifier_mapping_of(modifier_map),
                }
                &&& forall|i: int|
                    0 <= i < count && state.keymap.min_keycode <= first_keycode + i
                        < state.keymap.min_keycode + keysyms.len() && first_keycode + i <= 255
                        ==> #[trigger] core_mapping_of(
                        keysyms,
                        state.keymap.min_keycode,
                        first_keycode,
                        count as int,
                    ).subrange(2 * i, 2 * i + 2) == keysyms[first_keycode + i - state.keymap.min_keycode]@
                &&& forall|i: int, j: int|
                    0 <= i < 8 && 0 <= j < 2 && #[trigger] modifier_mapping_of(modifier_map)[2 * i + j]
                        != 0 ==> modifier_map.contains(
                        (modifier_mapping_of(modifier_map)[2 * i + j], modifier_bit(i)),
                    )
            }
        }),
{
    let keysyms = state.keymap.keysyms;
    let modifier_map = state.keymap.modifier_map;
    assert forall|i: int|
        0 <= i < count && state.keymap.min_keycode <= first_keycode + i < state.keymap.min_keycode
            + keysyms.len() && first_keycode + i <= 255 implies #[trigger] core_mapping_of(
        keysyms,
        state.keymap.min_keycode,
        first_keycode,
        count as int,
    ).subrange(2 * i, 2 * i + 2) == keysyms[first_keycode + i - state.keymap.min_keycode]@ by {
        law_core_mapping_reads_the_xkb_keysyms(
            keysyms,
            state.keymap.min_keycode,
            first_keycode,
            count as int,
            i,
        );
    }
    assert forall|i: int, j: int|
        0 <= i < 8 && 0 <= j < 2 && #[trigger] modifier_mapping_of(modifier_map)[2 * i + j] != 0 implies modifier_map.contains(
        (modifier_mapping_of(modifier_map)[2 * i + j], modifier_bit(i)),
    ) by {
        law_modifier_mapping_comes_from_the_map(modifier_map, i, j);
    }
}

/// The position of an id that occurs once in `ids` is its first position.
proof fn lemma_distinct_first_position(ids: Seq<u32>, i: int)
    requires
        0 <= i < ids.len(),
        ids.no_duplicates(),
    ensures
        first_position(ids, ids[i]) == Some(i),
{
    assert(is_first_position(ids, ids[i], i));
    assert forall|k: int| is_first_position(ids, ids[i], k) implies k == i by {
        if k != i {
            assert(ids[k] != ids[i]);
        }
    }
}

/// RandR pairs every output of the layout with one CRTC: where the
/// layout's output ids are distinct and its CRTC ids are distinct, the
/// info of an output names that output's CRTC, and the info of that CRTC
/// names the output back.
pub proof fn law_output_and_crtc_name_each_other(
    context: XDispatchContext,
    state: XAuthorityRuntimeView,
    i: int,
)
    requires
        0 <= i < state.topology.outputs.len(),
        output_ids(state.topology.outputs).no_duplicates(),
        crtc_ids(state.topology.outputs).no_duplicates(),
    ensures
        ({
            let entry = state.topology.outputs[i];
            let output_info = dispatch_outcome(
                context,
                XWireRequest::RandrGetOutputInfo { output: output_id(entry.output) },
                state,
            ).0;
            let crtc_info = dispatch_outcome(
                context,
                XWireRequest::RandrGetCrtcInfo { crtc: crtc_id(entry.output) },
                state,
            ).0;
            &&& output_info matches XDispatchAnswer::RandrOutputInfo { crtc, .. } && crtc == crtc_id(
                entry.output,
            )
            &&& crtc_info matches XDispatchAnswer::RandrCrtcInfo { output, .. } && output == output_id(
                entry.output,
            )
        }),
{
    let outputs = state.topology.outputs;
    lemma_distinct_first_position(output_ids(outputs), i);
    lemma_distinct_first_position(crtc_ids(outputs), i);
}

} // verus!
