use sophia_x_authority::authority_ids::{NamespaceId, TransactionId};
use sophia_x_authority::drawing::{BufferSource, Region, XDrawingUpdate, XDrawingUpdateKind};
use sophia_x_authority::geometry::Rect;
use sophia_x_authority::resource::XResourceId;

fn damage() -> Region {
    Region { rects: vec![Rect { x: 1, y: 2, width: 3, height: 4 }] }
}

#[test]
fn drawing_update_builders_name_their_buffer() {
    let transaction = TransactionId::from_raw(11);
    let namespace = NamespaceId::new(2);
    let window = XResourceId::new(0x20_0001, 1);

    let update = XDrawingUpdate::present_pixmap(transaction, namespace, window, 0x20_0002, damage(), 5, 250);
    assert_eq!(update.kind, XDrawingUpdateKind::PresentPixmap);
    assert_eq!(update.buffer, BufferSource::XPixmap { pixmap: 0x20_0002 });
    assert_eq!(update.damage, damage());
    assert_eq!(update.previous_committed_generation, 5);
    assert_eq!(update.timeout_msec, 250);
    assert_eq!(update.target_window, window);
    assert_eq!(update.requester_namespace, namespace);
    assert_eq!(update.transaction, transaction);

    let update = XDrawingUpdate::present_buffer(
        transaction,
        namespace,
        window,
        BufferSource::DmaBuf { handle: 9 },
        damage(),
        6,
        100,
    );
    assert_eq!(update.kind, XDrawingUpdateKind::PresentPixmap);
    assert_eq!(update.buffer, BufferSource::DmaBuf { handle: 9 });

    let update = XDrawingUpdate::shm_put_image(transaction, namespace, window, 7, damage(), 1, 250);
    assert_eq!(update.kind, XDrawingUpdateKind::ShmPutImage);
    assert_eq!(update.buffer, BufferSource::CpuBuffer { handle: 7 });

    let update = XDrawingUpdate::core_draw(transaction, namespace, window, 8, damage(), 2, 250);
    assert_eq!(update.kind, XDrawingUpdateKind::CoreDraw);
    assert_eq!(update.buffer, BufferSource::CpuBuffer { handle: 8 });
}
