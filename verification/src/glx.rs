//! The GLX framebuffer configurations the server offers, and the bounds that
//! go with them, kept in one place so that the catalog, a drawable's depth and
//! a pbuffer's limits cannot drift apart.
use vstd::prelude::*;

use crate::setup::{X_SETUP_ARGB_VISUAL, X_SETUP_DEFAULT_VISUAL};

verus! {

/// One framebuffer configuration, as a passive row.
#[derive(Clone, Copy, Debug, PartialEq, Eq, Structural)]
pub struct XGlxFbConfig {
    pub id: u32,
    pub visual: u32,
    /// Alpha bits: zero for the opaque visual, eight for ARGB.
    pub alpha: u32,
    /// Whether the configuration advertises sRGB framebuffer capability.
    pub srgb: u32,
}

impl XGlxFbConfig {
    /// The X depth a drawable of this configuration reports: a conversion of
    /// the row rather than a second table.
    pub fn depth(self) -> (depth: u8)
        requires
            24 + (self.alpha as u8) <= 255,
        ensures
            depth == 24 + (self.alpha as u8),
    {
        24 + #[verifier::truncate] (self.alpha as u8)
    }
}

/// The configurations offered, in reply order.
pub open spec fn glx_fb_configs() -> Seq<XGlxFbConfig> {
    seq![
        XGlxFbConfig { id: 1, visual: X_SETUP_DEFAULT_VISUAL, alpha: 0, srgb: 0 },
        XGlxFbConfig { id: 2, visual: X_SETUP_ARGB_VISUAL, alpha: 8, srgb: 0 },
        XGlxFbConfig { id: 3, visual: X_SETUP_ARGB_VISUAL, alpha: 8, srgb: 1 },
    ]
}

/// The configurations offered, in reply order.
pub fn x_glx_fb_configs() -> (configs: Vec<XGlxFbConfig>)
    ensures
        configs@ == glx_fb_configs(),
{
    let configs = vec![
        XGlxFbConfig { id: 1, visual: X_SETUP_DEFAULT_VISUAL, alpha: 0, srgb: 0 },
        XGlxFbConfig { id: 2, visual: X_SETUP_ARGB_VISUAL, alpha: 8, srgb: 0 },
        XGlxFbConfig { id: 3, visual: X_SETUP_ARGB_VISUAL, alpha: 8, srgb: 1 },
    ];
    assert(configs@ =~= glx_fb_configs());
    configs
}

/// The configuration a client named, if it is offered: the first row with
/// that id.
pub fn x_glx_fb_config(id: u32) -> (config: Option<XGlxFbConfig>)
    ensures
        match config {
            Some(c) => exists|i: int|
                0 <= i < glx_fb_configs().len() && glx_fb_configs()[i] == c && c.id == id && (
                forall|j: int| 0 <= j < i ==> glx_fb_configs()[j].id != id),
            None => forall|i: int| 0 <= i < glx_fb_configs().len() ==> glx_fb_configs()[i].id != id,
        },
{
    let configs = x_glx_fb_configs();
    let mut i: usize = 0;
    while i < configs.len()
        invariant
            configs@ == glx_fb_configs(),
            i <= configs@.len(),
            forall|j: int| 0 <= j < i ==> glx_fb_configs()[j].id != id,
        decreases configs@.len() - i,
    {
        if configs[i].id == id {
            return Some(configs[i]);
        }
        i = i + 1;
    }
    None
}

} // verus!
