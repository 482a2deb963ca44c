//! A bounded, modern X11 subset: the resource and property state an X server
//! frontend owns for its clients, and the wire records it answers them with.
use vstd::prelude::*;

pub mod atom_names;
pub mod authority_ids;
pub mod client_output;
pub mod client_reply;
pub mod clipboard;
pub mod close_target;
pub mod dispatch;
pub mod drawing;
pub mod extensions;
pub mod frontend_types;
pub mod geometry;
pub mod glx;
pub mod keyboard;
pub mod metadata;
pub mod observation;
pub mod pointer;
pub mod property;
pub mod render_picture;
pub mod reply_bytes;
pub mod reply_records;
pub mod request_dispatch;
pub mod resource;
pub mod resource_slots;
pub mod routing_types;
pub mod runtime;
pub mod setup;
pub mod window_hints;
pub mod wire;

verus! {
}
