use sophia_x_authority::close_target::{select_x_close_target, XCloseTargetDecision};
use sophia_x_authority::frontend_types::{
    authorization_data_eq, ClientAuthenticationMethod, XServerFrontendClientId,
    XServerFrontendSetupAuthorization,
};
use sophia_x_authority::glx::{x_glx_fb_config, XGlxFbConfig};
use sophia_x_authority::observation::X11ObservedRequestStage;
use sophia_x_authority::resource::XResourceId;
use sophia_x_authority::setup::{X_SETUP_ARGB_VISUAL, X_SETUP_DEFAULT_VISUAL};

fn w(raw: u64) -> XResourceId {
    XResourceId::new(raw, 1)
}

#[test]
fn close_goes_to_exact_window_that_takes_delete() {
    let decision = select_x_close_target(w(5), &[w(4)], &[(w(5), true), (w(4), true)]);
    assert_eq!(decision, XCloseTargetDecision { window: w(5), exact_advertises_delete: true, fallback_used: false, protocol_window_count: 2 });
}

#[test]
fn close_falls_back_to_nearest_ancestor() {
    let decision = select_x_close_target(w(5), &[w(4), w(3)], &[(w(3), true), (w(4), true), (w(5), false)]);
    assert_eq!(decision, XCloseTargetDecision { window: w(4), exact_advertises_delete: false, fallback_used: true, protocol_window_count: 2 });
}

#[test]
fn close_falls_back_to_the_only_delete_window() {
    let decision = select_x_close_target(w(5), &[w(1)], &[(w(9), true), (w(5), false)]);
    assert_eq!(decision, XCloseTargetDecision { window: w(9), exact_advertises_delete: false, fallback_used: true, protocol_window_count: 1 });
    let ambiguous = select_x_close_target(w(5), &[], &[(w(9), true), (w(8), true)]);
    assert_eq!(ambiguous, XCloseTargetDecision { window: w(5), exact_advertises_delete: false, fallback_used: false, protocol_window_count: 2 });
}

#[test]
fn setup_authorization() {
    let cookie = [7u8; 16];
    let auth = XServerFrontendSetupAuthorization::MitMagicCookie(cookie);
    assert!(auth.permits(b"MIT-MAGIC-COOKIE-1", &cookie));
    assert!(!auth.permits(b"MIT-MAGIC-COOKIE-1", &[7u8; 15]));
    assert!(!auth.permits(b"XDM-AUTHORIZATION-1", &cookie));
    let mut wrong = cookie;
    wrong[15] = 8;
    assert!(!auth.permits(b"MIT-MAGIC-COOKIE-1", &wrong));
    assert!(XServerFrontendSetupAuthorization::default().permits(b"", &[]));
    assert!(authorization_data_eq(b"abc", b"abc"));
    assert!(!authorization_data_eq(b"abc", b"abd"));
    assert!(!authorization_data_eq(b"abc", b"ab"));
    assert_eq!(XServerFrontendClientId::from_raw(12).raw(), 12);
}

#[test]
fn glx_configs() {
    assert_eq!(x_glx_fb_config(1), Some(XGlxFbConfig { id: 1, visual: X_SETUP_DEFAULT_VISUAL, alpha: 0, srgb: 0 }));
    let argb = x_glx_fb_config(3).unwrap();
    assert_eq!(argb, XGlxFbConfig { id: 3, visual: X_SETUP_ARGB_VISUAL, alpha: 8, srgb: 1 });
    assert_eq!(argb.depth(), 32);
    assert_eq!(x_glx_fb_config(1).unwrap().depth(), 24);
    assert_eq!(x_glx_fb_config(4), None);
}

#[test]
fn observed_stage_names() {
    assert_eq!(X11ObservedRequestStage::GlxGetFbConfigs.evidence_name(), "GLX:GetFBConfigs");
    assert_eq!(X11ObservedRequestStage::Dri3PixmapFromBuffers.evidence_name(), "DRI3:PixmapFromBuffers");
    assert_eq!(X11ObservedRequestStage::KeyboardMapping.evidence_name(), "GetKeyboardMapping");
    assert_eq!(X11ObservedRequestStage::Other.evidence_name(), "Other");
}

#[test]
fn authorization_scheme_names_its_authentication_method() {
    assert_eq!(
        XServerFrontendSetupAuthorization::UnauthenticatedLocal.authentication_method(),
        ClientAuthenticationMethod::TrustedLocal
    );
    assert_eq!(
        XServerFrontendSetupAuthorization::MitMagicCookie([7; 16]).authentication_method(),
        ClientAuthenticationMethod::MitMagicCookie1
    );
}
