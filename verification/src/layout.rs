use vstd::prelude::*;
use crate::configs::{GRAPH_HEIGHT, NUM_BANDS, SCREEN_WIDTH};

verus! {

/// Row of the screen the band labels stand on (the bottom row).
pub const LABEL_BASELINE_Y: i32 = 63;

/// A filled rectangle on the screen: top-left corner and size in pixels.
#[derive(Debug, Clone, Copy, PartialEq, Eq)]
pub struct BarRect {
    pub x: i32,
    pub y: i32,
    pub width: u32,
    pub height: u32,
}

/// The width of the screen column given to each band.
pub fn bar_slot_width() -> (width: usize)
    ensures
        width == SCREEN_WIDTH / NUM_BANDS,
        width == 16,
{
    SCREEN_WIDTH / NUM_BANDS
}

/// The rectangle of one band's bar.
pub open spec fn bar_rect_of(index: int, slot_width: int, bar_height: int) -> BarRect {
    BarRect {
        x: (index * slot_width) as i32,
        y: (GRAPH_HEIGHT - bar_height) as i32,
        width: (slot_width - 2) as u32,
        height: bar_height as u32,
    }
}

/// The bar of band `index`: it starts at the left edge of the band's
/// column, leaves two pixels of gap on the right, and rises `bar_height`
/// pixels from the bottom of the graph area.
pub fn bar_rect(index: usize, slot_width: usize, bar_height: i32) -> (rect: BarRect)
    requires
        index < NUM_BANDS,
        2 <= slot_width <= SCREEN_WIDTH / NUM_BANDS,
        0 <= bar_height <= GRAPH_HEIGHT,
    ensures
        rect == bar_rect_of(index as int, slot_width as int, bar_height as int),
        rect.x == index * slot_width,
        rect.y == GRAPH_HEIGHT - bar_height,
        rect.width == slot_width - 2,
        rect.height == bar_height,
{
    assert(index * slot_width <= 7 * 16) by (nonlinear_arith)
        requires
            index < 8,
            slot_width <= 16,
    ;
    let x = (index * slot_width) as i32;
    let y = GRAPH_HEIGHT as i32 - bar_height;
    BarRect { x, y, width: (slot_width - 2) as u32, height: bar_height as u32 }
}

/// Where the label of band `index` starts: one pixel into the band's
/// column, on the bottom row.
pub fn label_origin(index: usize, slot_width: usize) -> (origin: (i32, i32))
    requires
        index < NUM_BANDS,
        slot_width <= SCREEN_WIDTH / NUM_BANDS,
    ensures
        origin.0 == index * slot_width + 1,
        origin.1 == LABEL_BASELINE_Y,
{
    assert(index * slot_width <= 7 * 16) by (nonlinear_arith)
        requires
            index < 8,
            slot_width <= 16,
    ;
    ((index * slot_width + 1) as i32, LABEL_BASELINE_Y)
}

/// Every bar stands on the bottom of the graph area, stays inside the
/// screen, and ends before the bar of the next band begins.
pub proof fn lemma_bars_stay_apart(index: int, slot_width: int, height: int, next_height: int)
    requires
        0 <= index,
        index + 1 < NUM_BANDS,
        2 <= slot_width <= SCREEN_WIDTH / NUM_BANDS,
        0 <= height <= GRAPH_HEIGHT,
        0 <= next_height <= GRAPH_HEIGHT,
    ensures
        bar_rect_of(index, slot_width, height).y + bar_rect_of(index, slot_width, height).height
            == GRAPH_HEIGHT,
        bar_rect_of(index, slot_width, height).y >= 0,
        bar_rect_of(index, slot_width, height).x + bar_rect_of(index, slot_width, height).width
            < bar_rect_of(index + 1, slot_width, next_height).x,
        bar_rect_of(index + 1, slot_width, next_height).x + bar_rect_of(
            index + 1,
            slot_width,
            next_height,
        ).width <= SCREEN_WIDTH,
{
    assert(index * slot_width <= 6 * 16 && (index + 1) * slot_width == index * slot_width
        + slot_width && (index + 1) * slot_width + slot_width <= SCREEN_WIDTH) by (nonlinear_arith)
        requires
            0 <= index,
            index + 1 < 8,
            2 <= slot_width <= 16,
    ;
}

} // verus!
