use widget_cruncher::command::{WidgetId, WindowId};
use widget_cruncher::geom::{Point, Region};
use widget_cruncher::global::GlobalPassCtx;
use widget_cruncher::paint::PaintCtx;
use widget_cruncher::widget_state::WidgetState;
use widget_cruncher::z_order::{sort_z_ops, Transform, ZOrderPaintOp};

fn fresh_paint_ctx() -> PaintCtx {
    let global = GlobalPassCtx::new(WindowId(1), None, Point { x: 0, y: 0 }, None);
    PaintCtx::new(global, WidgetState::new(WidgetId(1)), Region::empty(), 0)
}

#[test]
fn z_ordered_ops_run_in_ascending_priority() {
    // Scheduled with priorities 5, 0, 3, the operations execute as 0, 3, 5.
    let mut ctx = fresh_paint_ctx();
    ctx.init();
    ctx.paint_with_z_index(5, 100);
    ctx.paint_with_z_index(0, 101);
    ctx.paint_with_z_index(3, 102);
    let sorted = sort_z_ops(ctx.into_z_ops());
    let priorities: Vec<u32> = sorted.iter().map(|op| op.z_index).collect();
    assert_eq!(priorities, vec![0, 3, 5]);
    let ops: Vec<u64> = sorted.iter().map(|op| op.op_id).collect();
    assert_eq!(ops, vec![101, 102, 100]);
}

#[test]
fn equal_priorities_keep_submission_order() {
    let mut ctx = fresh_paint_ctx();
    ctx.init();
    ctx.paint_with_z_index(2, 1);
    ctx.paint_with_z_index(1, 2);
    ctx.paint_with_z_index(2, 3);
    ctx.paint_with_z_index(1, 4);
    let sorted = sort_z_ops(ctx.into_z_ops());
    let ids: Vec<u64> = sorted.iter().map(|op| op.op_id).collect();
    assert_eq!(ids, vec![2, 4, 1, 3]);
}

#[test]
fn scheduled_ops_capture_the_current_transform() {
    let mut ctx = fresh_paint_ctx();
    ctx.init();
    ctx.save();
    ctx.transform(7, 9);
    ctx.paint_with_z_index(1, 42);
    assert!(ctx.restore());
    assert_eq!(ctx.current_transform(), Transform { dx: 0, dy: 0 });
    let ops = ctx.into_z_ops();
    assert_eq!(
        ops,
        vec![ZOrderPaintOp { z_index: 1, op_id: 42, transform: Transform { dx: 7, dy: 9 } }]
    );
}

#[test]
fn unbalanced_restore_is_skipped_and_reported() {
    let mut ctx = fresh_paint_ctx();
    ctx.init();
    assert!(!ctx.restore());
    assert_eq!(ctx.current_transform(), Transform { dx: 0, dy: 0 });
}

#[test]
fn nested_child_ctx_restores_region_and_depth_and_keeps_ops() {
    let mut ctx = fresh_paint_ctx();
    ctx.init();
    assert_eq!(ctx.depth(), 0);
    ctx.paint_with_z_index(9, 1);

    let sub = Region::single(widget_cruncher::geom::Rect { x0: 0, y0: 0, x1: 5, y1: 5 });
    ctx.with_child_ctx(sub);
    assert!(!ctx.is_init);
    ctx.init();
    assert_eq!(ctx.depth(), 1);
    assert_eq!(ctx.region().rects.len(), 1);
    ctx.paint_with_z_index(0, 2);
    ctx.end_child_ctx();

    assert!(ctx.is_init);
    assert_eq!(ctx.depth(), 0);
    assert_eq!(ctx.region().rects.len(), 0);
    // The sub-context's deferred operation bubbled up to this context.
    let ids: Vec<u64> = ctx.into_z_ops().iter().map(|op| op.op_id).collect();
    assert_eq!(ids, vec![1, 2]);
}
