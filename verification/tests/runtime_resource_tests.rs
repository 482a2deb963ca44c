use sophia_x_authority::authority_ids::{FenceHandle, NamespaceId};
use sophia_x_authority::client_output::XAuthorityRuntimeError;
use sophia_x_authority::geometry::{Rect, Size};
use sophia_x_authority::resource::{XAuthorityAccessError, XResourceId};
use sophia_x_authority::runtime::{XAuthorityRuntime, XColormapError};
use sophia_x_authority::keyboard::{XkbCompiledKey, XkbKeymapSnapshot, XkbRmlvoConfig, XKB_CORE_KEYCODE_COUNT};


fn test_keymap() -> XkbKeymapSnapshot {
    let keys: Vec<XkbCompiledKey> = (0..XKB_CORE_KEYCODE_COUNT)
        .map(|index| XkbCompiledKey {
            level0: vec![0x61 + index as u32],
            level1: vec![0x41 + index as u32],
            repeats: true,
        })
        .collect();
    XkbKeymapSnapshot::from_compiled_keys(&XkbRmlvoConfig::default(), &keys).unwrap()
}

fn fresh_runtime() -> XAuthorityRuntime {
    XAuthorityRuntime::with_keymap(test_keymap())
}

fn ns(raw: u64) -> NamespaceId {
    NamespaceId::new(raw)
}

#[test]
fn created_sync_counter_reads_back_and_changes_wrap() {
    let mut runtime = fresh_runtime();
    let counter = XResourceId::new(0x40_0001, 1);
    runtime.create_sync_counter(ns(2), counter, 1, 41).unwrap();
    assert_eq!(runtime.sync_counter(ns(2), counter), Ok(41));
    runtime.change_sync_counter(ns(2), counter, 1).unwrap();
    assert_eq!(runtime.sync_counter(ns(2), counter), Ok(42));
    runtime.set_sync_counter(ns(2), counter, i64::MAX).unwrap();
    runtime.change_sync_counter(ns(2), counter, 1).unwrap();
    assert_eq!(runtime.sync_counter(ns(2), counter), Ok(i64::MIN));
}

#[test]
fn sync_counter_refusals_and_destroy() {
    let mut runtime = fresh_runtime();
    let counter = XResourceId::new(0x40_0002, 1);
    assert_eq!(
        runtime.create_sync_counter(ns(0), counter, 1, 0),
        Err(XAuthorityRuntimeError::InvalidNamespace)
    );
    assert_eq!(
        runtime.create_sync_counter(ns(2), XResourceId::new(0, 1), 1, 0),
        Err(XAuthorityRuntimeError::InvalidResource)
    );
    runtime.create_sync_counter(ns(2), counter, 1, 5).unwrap();
    assert_eq!(
        runtime.set_sync_counter(ns(3), counter, 9),
        Err(XAuthorityRuntimeError::CrossNamespaceDenied)
    );
    assert_eq!(runtime.sync_counter(ns(2), counter), Ok(5));
    runtime.destroy_sync_counter(ns(2), counter).unwrap();
    assert_eq!(runtime.sync_counter(ns(2), counter), Err(XAuthorityRuntimeError::UnknownResource));
    assert_eq!(
        runtime.destroy_sync_counter(ns(2), counter),
        Err(XAuthorityRuntimeError::UnknownResource)
    );
}

#[test]
fn pixmap_size_and_drawable_access() {
    let mut runtime = fresh_runtime();
    let pixmap = XResourceId::new(0x20_0010, 1);
    assert_eq!(
        runtime.create_pixmap(ns(4), pixmap, Size { width: 0, height: 8 }, 1),
        Err(XAuthorityRuntimeError::InvalidResource)
    );
    runtime.create_pixmap(ns(4), pixmap, Size { width: 16, height: 8 }, 1).unwrap();
    assert_eq!(runtime.pixmap_size(ns(4), pixmap), Ok(Size { width: 16, height: 8 }));
    assert_eq!(runtime.validate_drawable_access(ns(4), pixmap), Ok(()));
    assert_eq!(
        runtime.validate_drawable_access(ns(5), pixmap),
        Err(XAuthorityRuntimeError::CrossNamespaceDenied)
    );
    assert_eq!(runtime.validate_drawable_access(ns(5), XResourceId::new(0x100, 1)), Ok(()));
    assert_eq!(runtime.validate_drawable_access(ns(0), XResourceId::new(0x100, 9)), Ok(()));
    assert_eq!(
        runtime.validate_drawable_access(ns(0), pixmap),
        Err(XAuthorityRuntimeError::InvalidNamespace)
    );
    let font = XResourceId::new(0x20_0011, 1);
    runtime.open_font(ns(4), font, 1).unwrap();
    assert_eq!(
        runtime.validate_drawable_access(ns(4), font),
        Err(XAuthorityRuntimeError::WrongResourceKind)
    );
    assert_eq!(
        runtime.validate_drawable_access(ns(4), XResourceId::new(0x20_0099, 1)),
        Err(XAuthorityRuntimeError::UnknownResource)
    );
}

#[test]
fn dri3_fences_get_climbing_nonzero_handles() {
    let mut runtime = fresh_runtime();
    let first = XResourceId::new(0x30_0001, 1);
    let second = XResourceId::new(0x30_0002, 1);
    assert_eq!(runtime.create_dri3_fence(ns(6), first, 1), Ok(FenceHandle::from_raw(1)));
    assert_eq!(runtime.create_dri3_fence(ns(6), second, 1), Ok(FenceHandle::from_raw(2)));
    assert_eq!(runtime.dri3_fence_handle(ns(6), second), Ok(FenceHandle::from_raw(2)));
    assert_eq!(runtime.validate_dri3_fence_access(ns(6), first), Ok(()));
    assert_eq!(runtime.destroy_dri3_fence(ns(6), first), Ok(FenceHandle::from_raw(1)));
    assert_eq!(
        runtime.dri3_fence_handle(ns(6), first),
        Err(XAuthorityRuntimeError::UnknownResource)
    );
    assert_eq!(
        runtime.create_dri3_fence(ns(0), first, 1),
        Err(XAuthorityRuntimeError::InvalidNamespace)
    );
    assert_eq!(runtime.create_dri3_fence(ns(6), first, 1), Ok(FenceHandle::from_raw(3)));
}

#[test]
fn xfixes_regions_fonts_and_cursors_follow_their_owner() {
    let mut runtime = fresh_runtime();
    let region = XResourceId::new(0x50_0001, 1);
    let rects = vec![Rect { x: 0, y: 0, width: 4, height: 4 }];
    runtime.create_xfixes_region(ns(7), region, rects.clone(), 1).unwrap();
    assert_eq!(runtime.validate_xfixes_region_access(ns(7), region), Ok(()));
    assert_eq!(
        runtime.set_xfixes_region(ns(8), region, Vec::new()),
        Err(XAuthorityRuntimeError::CrossNamespaceDenied)
    );
    runtime.set_xfixes_region(ns(7), region, Vec::new()).unwrap();
    runtime.destroy_xfixes_region(ns(7), region).unwrap();
    assert_eq!(
        runtime.validate_xfixes_region_access(ns(7), region),
        Err(XAuthorityRuntimeError::UnknownResource)
    );

    let font = XResourceId::new(0x50_0002, 1);
    let cursor = XResourceId::new(0x50_0003, 1);
    runtime.open_font(ns(7), font, 1).unwrap();
    runtime.create_cursor(ns(7), cursor, 1).unwrap();
    assert_eq!(runtime.validate_font_access(ns(7), font), Ok(()));
    assert_eq!(
        runtime.validate_font_access(ns(7), cursor),
        Err(XAuthorityRuntimeError::WrongResourceKind)
    );
    assert_eq!(runtime.validate_cursor_access(ns(7), cursor), Ok(()));
    runtime.close_font(ns(7), font).unwrap();
    runtime.free_cursor(ns(7), cursor).unwrap();
    assert_eq!(runtime.close_font(ns(7), font), Err(XAuthorityRuntimeError::UnknownResource));
    assert_eq!(runtime.free_cursor(ns(7), cursor), Err(XAuthorityRuntimeError::UnknownResource));
    assert_eq!(
        runtime.validate_pixmap_access(ns(7), font),
        Err(XAuthorityRuntimeError::UnknownResource)
    );
}

#[test]
fn fresh_runtime_starts_empty_with_fence_handle_one() {
    let mut runtime = fresh_runtime();
    let fence = XResourceId::new(0x60_0001, 1);
    assert_eq!(
        runtime.validate_dri3_fence_access(ns(1), fence),
        Err(XAuthorityRuntimeError::UnknownResource)
    );
    assert_eq!(runtime.create_dri3_fence(ns(1), fence, 1), Ok(FenceHandle::from_raw(1)));
}

#[test]
fn colormaps_read_back_their_visual_until_freed() {
    let mut runtime = fresh_runtime();
    let colormap = XResourceId::new(0x40_0010, 1);
    assert_eq!(runtime.create_colormap(ns(2), colormap, 0x99, 1), Err(XColormapError::UnknownVisual));
    assert_eq!(runtime.create_colormap(ns(2), colormap, 0x22, 1), Ok(()));
    assert_eq!(runtime.create_colormap(ns(2), colormap, 0x21, 2), Err(XColormapError::DuplicateId));
    assert_eq!(runtime.colormap_visual(ns(2), colormap), Ok(0x22));
    assert_eq!(
        runtime.colormap_visual(ns(3), colormap),
        Err(XColormapError::Access(XAuthorityAccessError::CrossNamespaceDenied))
    );
    assert_eq!(runtime.free_colormap(ns(2), colormap), Ok(()));
    assert_eq!(
        runtime.colormap_visual(ns(2), colormap),
        Err(XColormapError::Access(XAuthorityAccessError::UnknownResource))
    );
}

#[test]
fn default_colormap_is_shared_and_never_freed() {
    let mut runtime = fresh_runtime();
    let default_colormap = XResourceId::new(0x20, 1);
    assert_eq!(runtime.colormap_visual(ns(5), default_colormap), Ok(0x21));
    assert_eq!(runtime.free_colormap(ns(5), default_colormap), Ok(()));
    assert_eq!(runtime.colormap_visual(ns(6), default_colormap), Ok(0x21));
    assert_eq!(
        runtime.free_colormap(ns(0), default_colormap),
        Err(XColormapError::Access(XAuthorityAccessError::InvalidNamespace))
    );
}
