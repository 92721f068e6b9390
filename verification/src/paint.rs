//! The context provided to paint methods of widgets.
//!
//! Besides the queries every context offers, the paint context models the
//! drawing surface's save/restore stack and current transform, tracks the
//! visible region and the depth in the tree, collects the deferred z-ordered
//! paint operations of the pass, and lets containers paint children within a
//! restricted visible region through nested sub-contexts.

use vstd::prelude::*;

use crate::command::{WidgetId, WindowId};
use crate::geom::{Point, Region, Size};
use crate::global::GlobalPassCtx;
use crate::widget_state::{is_disabled_spec, WidgetState};
use crate::z_order::{Transform, ZOrderPaintOp};

verus! {

/// The drawing surface's state as the paint pass sees it: the current
/// transform and the stack of saved transforms.
pub struct RenderState {
    /// The transform applied to everything drawn now.
    pub transform: Transform,
    /// Transforms saved and not yet restored, innermost last.
    pub saved: Vec<Transform>,
}

/// What a nested sub-context set aside of its parent, restored when the
/// sub-context ends.
pub struct PaintFrame {
    pub region: Region,
    pub depth: u32,
    pub was_init: bool,
}

/// The context passed to paint methods of widgets.
pub struct PaintCtx {
    pub global: GlobalPassCtx,
    pub widget_state: WidgetState,
    pub is_init: bool,
    /// The drawing surface's transform state.
    pub render: RenderState,
    /// Deferred z-ordered paint operations of the whole pass, in the order
    /// they were scheduled. Operations scheduled in a sub-context stay on
    /// this one list, which is how they bubble up to the root context.
    pub z_ops: Vec<ZOrderPaintOp>,
    /// The region that needs to be repainted.
    pub region: Region,
    /// The approximate depth in the tree: a child's depth exceeds its
    /// parent's.
    pub depth: u32,
    /// The suspended enclosing contexts, innermost last.
    pub frames: Vec<PaintFrame>,
}

impl PaintCtx {
    /// Builds an inactive paint context with a fresh surface state and no
    /// deferred operations.
    pub fn new(
        global: GlobalPassCtx,
        widget_state: WidgetState,
        region: Region,
        depth: u32,
    ) -> (ctx: PaintCtx)
        ensures
            ctx.global == global,
            ctx.widget_state == widget_state,
            !ctx.is_init,
            ctx.render.transform == (Transform { dx: 0, dy: 0 }),
            ctx.render.saved@.len() == 0,
            ctx.z_ops@.len() == 0,
            ctx.region == region,
            ctx.depth == depth,
            ctx.frames@.len() == 0,
    {
        PaintCtx {
            global,
            widget_state,
            is_init: false,
            render: RenderState { transform: Transform { dx: 0, dy: 0 }, saved: Vec::new() },
            z_ops: Vec::new(),
            region,
            depth,
            frames: Vec::new(),
        }
    }

    /// Activates the context. The driver calls this exactly once, before the
    /// widget sees the context.
    pub fn init(&mut self)
        requires
            !old(self).is_init,
        ensures
            *final(self) == (PaintCtx { is_init: true, ..*old(self) }),
    {
        self.is_init = true;
    }

    /// The id of the current widget.
    pub fn widget_id(&self) -> (id: WidgetId)
        requires
            self.is_init,
        ensures
            id == self.widget_state.id,
    {
        self.widget_state.id
    }

    /// The id of the current window.
    pub fn window_id(&self) -> (id: WindowId)
        requires
            self.is_init,
        ensures
            id == self.global.window_id,
    {
        self.global.window_id
    }

    /// Marks a child as visited without recursing into it.
    pub fn skip_child(&self, child: &mut WidgetState)
        requires
            self.is_init,
        ensures
            *final(child) == (WidgetState { was_visited: true, ..*old(child) }),
    {
        child.was_visited = true;
    }

    /// The widget's layout size.
    pub fn size(&self) -> (s: Size)
        requires
            self.is_init,
        ensures
            s == self.widget_state.size,
    {
        self.widget_state.size()
    }

    /// The widget's origin in window coordinates.
    pub fn window_origin(&self) -> (p: Point)
        requires
            self.is_init,
        ensures
            p == crate::contexts::window_origin_spec(self.widget_state),
    {
        Point {
            x: crate::geom::add_coord(
                self.widget_state.parent_window_origin.x,
                self.widget_state.origin.x,
            ),
            y: crate::geom::add_coord(
                self.widget_state.parent_window_origin.y,
                self.widget_state.origin.y,
            ),
        }
    }

    /// Converts a point from the widget's coordinate space to the window's.
    pub fn to_window(&self, widget_point: Point) -> (p: Point)
        requires
            self.is_init,
        ensures
            p == crate::contexts::to_window_spec(self.widget_state, widget_point),
    {
        let o = self.window_origin();
        Point {
            x: crate::geom::add_coord(o.x, widget_point.x),
            y: crate::geom::add_coord(o.y, widget_point.y),
        }
    }

    /// Converts a point from the widget's coordinate space to the screen's.
    pub fn to_screen(&self, widget_point: Point) -> (p: Point)
        requires
            self.is_init,
        ensures
            p == crate::contexts::to_screen_spec(
                self.widget_state,
                self.global.screen_origin,
                widget_point,
            ),
    {
        let w = self.to_window(widget_point);
        Point {
            x: crate::geom::add_coord(self.global.screen_origin.x, w.x),
            y: crate::geom::add_coord(self.global.screen_origin.y, w.y),
        }
    }

    /// The hot (hover) status of the widget.
    pub fn is_hot(&self) -> (r: bool)
        requires
            self.is_init,
        ensures
            r == self.widget_state.is_hot,
    {
        self.widget_state.is_hot
    }

    /// The active (pointer-capture) status of the widget.
    pub fn is_active(&self) -> (r: bool)
        requires
            self.is_init,
        ensures
            r == self.widget_state.is_active,
    {
        self.widget_state.is_active
    }

    /// Whether this very widget holds focus.
    pub fn is_focused(&self) -> (r: bool)
        requires
            self.is_init,
        ensures
            r == (self.global.focus_widget == Some(self.widget_state.id)),
    {
        match self.global.focus_widget {
            Some(f) => f.0 == self.widget_state.id.0,
            None => false,
        }
    }

    /// Whether this widget or a descendant holds focus.
    pub fn has_focus(&self) -> (r: bool)
        requires
            self.is_init,
        ensures
            r == self.widget_state.has_focus,
    {
        self.widget_state.has_focus
    }

    /// Whether this widget or an ancestor is disabled.
    pub fn is_disabled(&self) -> (r: bool)
        requires
            self.is_init,
        ensures
            r == is_disabled_spec(self.widget_state),
    {
        self.widget_state.is_disabled()
    }

    /// Whether the widget is stashed out of layout, paint and hit-testing.
    pub fn is_stashed(&self) -> (r: bool)
        requires
            self.is_init,
        ensures
            r == self.widget_state.is_stashed,
    {
        self.widget_state.is_stashed
    }

    /// The depth in the tree of the widget being painted. It may not be
    /// exact; it is only guaranteed that a child's depth exceeds its
    /// parent's.
    pub fn depth(&self) -> (d: u32)
        requires
            self.is_init,
        ensures
            d == self.depth,
    {
        self.depth
    }

    /// The region that needs to be repainted.
    pub fn region(&self) -> (r: &Region)
        requires
            self.is_init,
        ensures
            r == &self.region,
    {
        &self.region
    }

    /// The transform the surface applies to everything drawn now.
    pub fn current_transform(&self) -> (t: Transform)
        requires
            self.is_init,
        ensures
            t == self.render.transform,
    {
        self.render.transform
    }

    /// Shifts the surface transform by `(dx, dy)`, as a widget does before
    /// drawing its children.
    pub fn transform(&mut self, dx: i64, dy: i64)
        requires
            old(self).is_init,
        ensures
            *final(self) == (PaintCtx { render: final(self).render, ..*old(self) }),
            final(self).render.saved@ == old(self).render.saved@,
            final(self).render.transform == (Transform {
                dx: crate::geom::sat_add(old(self).render.transform.dx, dx),
                dy: crate::geom::sat_add(old(self).render.transform.dy, dy),
            }),
    {
        self.render.transform = Transform {
            dx: crate::geom::add_coord(self.render.transform.dx, dx),
            dy: crate::geom::add_coord(self.render.transform.dy, dy),
        };
    }

    /// Saves the surface state; a later [`PaintCtx::restore`] returns to it.
    /// A widget that transforms or clips should bracket the change with a
    /// save/restore pair so the change does not leak to other widgets.
    pub fn save(&mut self)
        requires
            old(self).is_init,
        ensures
            *final(self) == (PaintCtx { render: final(self).render, ..*old(self) }),
            final(self).render.transform == old(self).render.transform,
            final(self).render.saved@ == old(self).render.saved@.push(
                old(self).render.transform,
            ),
    {
        let t = self.render.transform;
        self.render.saved.push(t);
    }

    /// Restores the surface state saved last. An unbalanced restore is the
    /// recoverable failure of the drawing surface: it reports `false` and is
    /// otherwise skipped, and the pass continues.
    pub fn restore(&mut self) -> (ok: bool)
        requires
            old(self).is_init,
        ensures
            *final(self) == (PaintCtx { render: final(self).render, ..*old(self) }),
            ok == (old(self).render.saved@.len() > 0),
            !ok ==> final(self).render.transform == old(self).render.transform,
            !ok ==> final(self).render.saved@ == old(self).render.saved@,
            ok ==> final(self).render.transform == old(self).render.saved@.last(),
            ok ==> final(self).render.saved@ == old(self).render.saved@.drop_last(),
    {
        match self.render.saved.pop() {
            Some(t) => {
                self.render.transform = t;
                true
            },
            None => false,
        }
    }

    /// Begins a nested sub-context for painting children within the visible
    /// region `region`: one level deeper, not yet activated, with the
    /// enclosing region and depth set aside. [`PaintCtx::end_child_ctx`]
    /// returns to the enclosing context. Deferred operations scheduled in
    /// the sub-context accumulate on the shared list and so reach the root
    /// context of the pass.
    pub fn with_child_ctx(&mut self, region: Region)
        requires
            old(self).is_init,
            old(self).depth < u32::MAX,
        ensures
            *final(self) == (PaintCtx {
                region: final(self).region,
                depth: final(self).depth,
                is_init: false,
                frames: final(self).frames,
                ..*old(self)
            }),
            final(self).region == region,
            final(self).depth == old(self).depth + 1,
            final(self).frames@ == old(self).frames@.push(
                PaintFrame { region: old(self).region, depth: old(self).depth, was_init: true },
            ),
    {
        let d = self.depth;
        let mut r = region;
        core::mem::swap(&mut self.region, &mut r);
        self.frames.push(PaintFrame { region: r, depth: d, was_init: true });
        self.depth = d + 1;
        self.is_init = false;
    }

    /// Ends the innermost sub-context, restoring the enclosing region,
    /// depth and activation; the deferred operations scheduled inside
    /// remain accumulated.
    pub fn end_child_ctx(&mut self)
        requires
            old(self).frames@.len() > 0,
        ensures
            *final(self) == (PaintCtx {
                region: final(self).region,
                depth: final(self).depth,
                is_init: final(self).is_init,
                frames: final(self).frames,
                ..*old(self)
            }),
            final(self).region == old(self).frames@.last().region,
            final(self).depth == old(self).frames@.last().depth,
            final(self).is_init == old(self).frames@.last().was_init,
            final(self).frames@ == old(self).frames@.drop_last(),
    {
        match self.frames.pop() {
            Some(frame) => {
                self.region = frame.region;
                self.depth = frame.depth;
                self.is_init = frame.was_init;
            },
            None => {},
        }
    }

    /// Schedules `op_id` to run after the ordinary paint traversal, with
    /// priority `z_index` and the current transform captured; larger
    /// priorities run later, equal priorities in scheduling order.
    pub fn paint_with_z_index(&mut self, z_index: u32, op_id: u64)
        requires
            old(self).is_init,
        ensures
            *final(self) == (PaintCtx { z_ops: final(self).z_ops, ..*old(self) }),
            final(self).z_ops@ == old(self).z_ops@.push(
                ZOrderPaintOp { z_index, op_id, transform: old(self).render.transform },
            ),
    {
        let transform = self.render.transform;
        self.z_ops.push(ZOrderPaintOp { z_index, op_id, transform });
    }

    /// Hands the pass's deferred paint operations over, in scheduling
    /// order, consuming the context at the end of the pass. The driver
    /// sorts them with [`crate::z_order::sort_z_ops`] and runs each with
    /// its captured transform restored.
    pub fn into_z_ops(self) -> (ops: Vec<ZOrderPaintOp>)
        ensures
            ops@ == self.z_ops@,
    {
        self.z_ops
    }
}

} // verus!
