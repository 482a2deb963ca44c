//! Fixed facts of the connection setup the server answers every client with.
use vstd::prelude::*;

verus! {

/// The resource id of the one screen's root window.
pub const X_SETUP_DEFAULT_ROOT: u32 = 0x0000_0100;

/// The colormap installed on the root window.
pub const X_SETUP_DEFAULT_COLORMAP: u32 = 0x0000_0020;

/// The 24-bit TrueColor visual of the root window.
pub const X_SETUP_DEFAULT_VISUAL: u32 = 0x0000_0021;

/// The 32-bit TrueColor visual with an alpha channel.
pub const X_SETUP_ARGB_VISUAL: u32 = 0x0000_0022;

/// The atom that names nothing.
pub const X_ATOM_NONE: u32 = 0;

} // verus!
