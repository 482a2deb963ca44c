//! RENDER pictures: the attributes a client sets on one, and its clip list.
use vstd::prelude::*;

use crate::geometry::Rect;
use crate::resource::XResourceId;

verus! {

/// The picture format a picture was created with, as the server's format
/// table resolved it: the format's id and the depth of the drawables it can
/// view.
#[derive(Clone, Copy, Debug, PartialEq, Eq, Structural)]
pub struct XRenderPictFormatKind {
    pub format_id: u32,
    pub depth: u8,
}

/// The attributes one CreatePicture or ChangePicture request sets.
#[derive(Clone, Copy, Debug, PartialEq, Eq, Structural)]
pub struct XRenderPictureValueSet {
    /// The value mask names an attribute the protocol does not define.
    pub invalid_mask: bool,
    /// The request sets an attribute the server declines (alpha maps,
    /// pixmap clip masks).
    pub refused_attribute: bool,
    pub repeat: Option<u32>,
    pub clip_x_origin: Option<i16>,
    pub clip_y_origin: Option<i16>,
    pub component_alpha: Option<u32>,
}

/// One RENDER picture: a format-aware view over a drawable, with its clip
/// list in destination coordinates as the client sent it.
#[derive(Clone, Debug, PartialEq, Eq)]
pub struct XRenderPictureRecord {
    pub drawable: XResourceId,
    pub drawable_is_window: bool,
    pub format: XRenderPictFormatKind,
    pub repeat: bool,
    pub clip_rects: Vec<Rect>,
    pub clip_x_origin: i16,
    pub clip_y_origin: i16,
    pub component_alpha: bool,
}

/// Why a RENDER picture request was refused.
#[derive(Clone, Copy, Debug, PartialEq, Eq, Structural)]
pub enum XRenderPictureError {
    /// The named drawable does not exist or belongs to another namespace.
    Drawable,
    /// The chosen picture id is already a live resource.
    IdInUse,
    /// The format id names no format this server offers.
    UnknownFormat,
    /// The format's depth is not the drawable's depth.
    DepthMismatch,
    /// A value outside what the protocol defines for its attribute.
    InvalidValue,
    /// An attribute this server declines by name.
    RefusedAttribute,
    /// The named picture does not exist or belongs to another namespace.
    UnknownPicture,
}

/// Whether `value` is one a boolean attribute may take: 0 or 1.
pub open spec fn is_flag_value(value: Option<u32>) -> bool {
    match value {
        Some(v) => v <= 1,
        None => true,
    }
}

/// `current` with `value` applied: 1 sets it, 0 clears it, none leaves it.
pub open spec fn applied_flag(current: bool, value: Option<u32>) -> bool {
    match value {
        Some(v) => v == 1,
        None => current,
    }
}

pub open spec fn applied_origin(current: i16, value: Option<i16>) -> i16 {
    match value {
        Some(v) => v,
        None => current,
    }
}

/// The error applying `values` ends with, if any: a bad mask, a declined
/// attribute, then a repeat or component-alpha value other than 0 or 1.
pub open spec fn picture_values_error(values: XRenderPictureValueSet) -> Option<XRenderPictureError> {
    if values.invalid_mask {
        Some(XRenderPictureError::InvalidValue)
    } else if values.refused_attribute {
        Some(XRenderPictureError::RefusedAttribute)
    } else if !is_flag_value(values.repeat) || !is_flag_value(values.component_alpha) {
        Some(XRenderPictureError::InvalidValue)
    } else {
        None
    }
}

/// `record` with the repeat flag and clip origin of `values` applied.
pub open spec fn with_repeat_and_origin(
    record: XRenderPictureRecord,
    values: XRenderPictureValueSet,
) -> XRenderPictureRecord {
    XRenderPictureRecord {
        drawable: record.drawable,
        drawable_is_window: record.drawable_is_window,
        format: record.format,
        repeat: applied_flag(record.repeat, values.repeat),
        clip_rects: record.clip_rects,
        clip_x_origin: applied_origin(record.clip_x_origin, values.clip_x_origin),
        clip_y_origin: applied_origin(record.clip_y_origin, values.clip_y_origin),
        component_alpha: record.component_alpha,
    }
}

/// `record` as applying `values` leaves it. Attributes are applied in
/// protocol order and a refusal stops there, so a bad component-alpha value
/// comes after the repeat flag and clip origin were set.
pub open spec fn picture_after_values(
    record: XRenderPictureRecord,
    values: XRenderPictureValueSet,
) -> XRenderPictureRecord {
    if values.invalid_mask || values.refused_attribute || !is_flag_value(values.repeat) {
        record
    } else {
        let partial = with_repeat_and_origin(record, values);
        if !is_flag_value(values.component_alpha) {
            partial
        } else {
            XRenderPictureRecord {
                component_alpha: applied_flag(record.component_alpha, values.component_alpha),
                ..partial
            }
        }
    }
}

fn flag_of(value: u32) -> (flag: Option<bool>)
    ensures
        flag == (if value <= 1 {
            Some(value == 1)
        } else {
            None
        }),
{
    if value == 0 {
        Some(false)
    } else if value == 1 {
        Some(true)
    } else {
        None
    }
}

/// Applies one request's attribute values to a picture.
pub fn render_apply_picture_values(
    record: &mut XRenderPictureRecord,
    values: &XRenderPictureValueSet,
) -> (result: Result<(), XRenderPictureError>)
    ensures
        *final(record) == picture_after_values(*old(record), *values),
        match result {
            Ok(()) => picture_values_error(*values) is None,
            Err(error) => picture_values_error(*values) == Some(error),
        },
{
    if values.invalid_mask {
        return Err(XRenderPictureError::InvalidValue);
    }
    if values.refused_attribute {
        return Err(XRenderPictureError::RefusedAttribute);
    }
    if let Some(repeat) = values.repeat {
        match flag_of(repeat) {
            Some(flag) => {
                record.repeat = flag;
            },
            None => return Err(XRenderPictureError::InvalidValue),
        }
    }
    if let Some(origin) = values.clip_x_origin {
        record.clip_x_origin = origin;
    }
    if let Some(origin) = values.clip_y_origin {
        record.clip_y_origin = origin;
    }
    if let Some(component_alpha) = values.component_alpha {
        match flag_of(component_alpha) {
            Some(flag) => {
                record.component_alpha = flag;
            },
            None => return Err(XRenderPictureError::InvalidValue),
        }
    }
    Ok(())
}

/// `a + b`, held to the range of an `i32`.
pub open spec fn saturating_i32(sum: int) -> i32 {
    if sum > i32::MAX {
        i32::MAX
    } else if sum < i32::MIN {
        i32::MIN
    } else {
        sum as i32
    }
}

/// `rect` moved by the picture's clip origin.
pub open spec fn translated_rect(rect: Rect, dx: i16, dy: i16) -> Rect {
    Rect {
        x: saturating_i32(rect.x + dx),
        y: saturating_i32(rect.y + dy),
        width: rect.width,
        height: rect.height,
    }
}

fn saturating_add_i32(a: i32, b: i16) -> (sum: i32)
    ensures
        sum == saturating_i32(a + b),
{
    let wide = a as i64 + b as i64;
    if wide > 0x7fff_ffff {
        i32::MAX
    } else if wide < -0x8000_0000 {
        i32::MIN
    } else {
        wide as i32
    }
}

/// The picture's clip list in destination coordinates; empty means the
/// picture is not clipped.
pub fn render_translated_clip(record: &XRenderPictureRecord) -> (clip: Vec<Rect>)
    ensures
        clip@.len() == record.clip_rects@.len(),
        forall|i: int|
            0 <= i < clip@.len() ==> #[trigger] clip@[i] == translated_rect(
                record.clip_rects@[i],
                record.clip_x_origin,
                record.clip_y_origin,
            ),
{
    let mut clip: Vec<Rect> = Vec::new();
    let mut i: usize = 0;
    while i < record.clip_rects.len()
        invariant
            i <= record.clip_rects@.len(),
            clip@.len() == i,
            forall|j: int|
                0 <= j < i ==> #[trigger] clip@[j] == translated_rect(
                    record.clip_rects@[j],
                    record.clip_x_origin,
                    record.clip_y_origin,
                ),
        decreases record.clip_rects@.len() - i,
    {
        let rect = record.clip_rects[i];
        clip.push(
            Rect {
                x: saturating_add_i32(rect.x, record.clip_x_origin),
                y: saturating_add_i32(rect.y, record.clip_y_origin),
                width: rect.width,
                height: rect.height,
            },
        );
        i = i + 1;
    }
    clip
}

} // verus!
