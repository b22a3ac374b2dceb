use sound_processor::configs::{GRAPH_HEIGHT, NUM_BANDS};
use sound_processor::layout::{bar_rect, bar_slot_width, label_origin, BarRect, LABEL_BASELINE_Y};

#[test]
fn each_band_gets_sixteen_pixels() {
    assert_eq!(bar_slot_width(), 16);
}

#[test]
fn bar_rectangles_rise_from_graph_bottom() {
    let w = bar_slot_width();
    assert_eq!(bar_rect(0, w, 56), BarRect { x: 0, y: 0, width: 14, height: 56 });
    assert_eq!(bar_rect(3, w, 20), BarRect { x: 48, y: 36, width: 14, height: 20 });
    assert_eq!(bar_rect(7, w, 0), BarRect { x: 112, y: 56, width: 14, height: 0 });
    for i in 0..NUM_BANDS - 1 {
        let a = bar_rect(i, w, 10);
        let b = bar_rect(i + 1, w, 30);
        assert!(a.x + (a.width as i32) < b.x);
        assert_eq!(a.y + a.height as i32, GRAPH_HEIGHT as i32);
    }
}

#[test]
fn labels_start_one_pixel_into_column() {
    let w = bar_slot_width();
    assert_eq!(label_origin(0, w), (1, LABEL_BASELINE_Y));
    assert_eq!(label_origin(5, w), (81, 63));
}
