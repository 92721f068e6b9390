//! The capability-restricted context views passed into widget methods.
//!
//! Each view couples the shared pass state with the current widget's record
//! and exposes only the operations valid for its traversal kind. The tree
//! driver builds a view, activates it with `init`, invokes the widget's
//! method with it, and takes the parts back when the widget returns.
//!
//! The activation protocol — the driver activates a context exactly once
//! before any other operation runs — is part of every operation's contract:
//! `init` requires a context that is not yet active, every other operation
//! requires one that is. A driver or widget that breaks the protocol does
//! not verify.

use vstd::prelude::*;

use crate::command::{
    Action, Command, CommandPayload, ImeInvalidation, Notification, Target, TimerToken, WidgetId,
    WindowId, INVALIDATE_IME, NEW_WINDOW,
};
use crate::geom::{
    rect_contains_pt, rect_expand, rect_from_origin_size, rect_union, sat_add, Insets, Point,
    Rect, Size,
};
use crate::global::{global_wf, request_timer_post, GlobalPassCtx};
use crate::widget_state::{
    hot_spec, is_disabled_spec, layout_rect_spec, merge_child_post, merge_parent_post,
    paint_rect_spec, ws_eq, CursorChange, CursorIcon, FocusChange, WidgetState,
};

verus! {

/// The context for widget-mutation access outside any particular pass.
pub struct WidgetCtx {
    pub global: GlobalPassCtx,
    pub widget_state: WidgetState,
    pub is_init: bool,
}

/// The context provided to event handling methods of widgets.
pub struct EventCtx {
    pub global: GlobalPassCtx,
    pub widget_state: WidgetState,
    pub is_init: bool,
    /// Notifications submitted by this widget, drained by the driver and
    /// delivered to the ancestors.
    pub notifications: Vec<Notification>,
    /// The event was handled and stops propagating.
    pub is_handled: bool,
    /// This context belongs to the root widget of the pass.
    pub is_root: bool,
    /// A descendant asked to be panned into view; carries its layout
    /// rectangle.
    pub request_pan_to_child: Option<Rect>,
}

/// The context provided to lifecycle methods of widgets.
pub struct LifeCycleCtx {
    pub global: GlobalPassCtx,
    pub widget_state: WidgetState,
    pub is_init: bool,
}

/// The context provided to layout methods of widgets.
pub struct LayoutCtx {
    pub global: GlobalPassCtx,
    pub widget_state: WidgetState,
    pub is_init: bool,
    /// The pointer position for this pass, if known.
    pub mouse_pos: Option<Point>,
}

/// The widget's window origin: its own origin shifted by the parent's
/// window origin.
pub open spec fn window_origin_spec(w: WidgetState) -> Point {
    Point {
        x: sat_add(w.parent_window_origin.x, w.origin.x),
        y: sat_add(w.parent_window_origin.y, w.origin.y),
    }
}

/// `p`, given in the widget's coordinate space, in window coordinates.
pub open spec fn to_window_spec(w: WidgetState, p: Point) -> Point {
    Point {
        x: sat_add(window_origin_spec(w).x, p.x),
        y: sat_add(window_origin_spec(w).y, p.y),
    }
}

/// `p`, given in the widget's coordinate space, in screen coordinates;
/// `screen_origin` is where the platform put the window's content area.
pub open spec fn to_screen_spec(w: WidgetState, screen_origin: Point, p: Point) -> Point {
    Point {
        x: sat_add(screen_origin.x, to_window_spec(w, p).x),
        y: sat_add(screen_origin.y, to_window_spec(w, p).y),
    }
}

/// The widget's whole paint rectangle, in its own coordinate space.
pub open spec fn full_local_paint_rect(w: WidgetState) -> Rect {
    rect_expand(rect_from_origin_size(Point { x: 0, y: 0 }, w.size), w.paint_insets)
}

/// The record of widget `c` after being placed at `origin` with the pointer
/// at `mouse_pos`: the origin is set, the placement debt is cleared, and the
/// hot flag is recomputed against the new layout rectangle.
#[verifier::opaque]
pub open spec fn placed(c: WidgetState, origin: Point, mouse_pos: Option<Point>) -> WidgetState {
    let moved = WidgetState { origin, is_expecting_place_child_call: false, ..c };
    WidgetState { is_hot: hot_spec(moved, mouse_pos), ..moved }
}

/// The parent's record once the placed child's paint rectangle has joined
/// its accumulated paint rectangle, before any merge.
#[verifier::opaque]
pub open spec fn place_parent_pre(p: WidgetState, c: WidgetState) -> WidgetState {
    WidgetState { local_paint_rect: rect_union(p.local_paint_rect, paint_rect_spec(c)), ..p }
}

/// Everything placing a child changes, stated over the context before
/// (`p0`, child `c0`) and after (`p1`, child `c1`) the call: the child is
/// placed and its hot flag recomputed; the parent's accumulated paint
/// rectangle grows by the child's; and exactly when the hot flag changed,
/// the child's record is merged into the parent's.
pub open spec fn place_child_post(
    p0: LayoutCtx,
    c0: WidgetState,
    origin: Point,
    p1: LayoutCtx,
    c1: WidgetState,
) -> bool {
    let c = placed(c0, origin, p0.mouse_pos);
    let pw = place_parent_pre(p0.widget_state, c);
    &&& p1.global == p0.global
    &&& p1.is_init == p0.is_init
    &&& p1.mouse_pos == p0.mouse_pos
    &&& c1.is_hot == c.is_hot
    &&& (c.is_hot == c0.is_hot ==> ws_eq(c1, c) && ws_eq(p1.widget_state, pw))
    &&& (c.is_hot != c0.is_hot ==> merge_child_post(c, c1) && merge_parent_post(
        pw,
        c,
        p1.widget_state,
    ))
}

impl WidgetCtx {
    /// Builds an inactive context for one widget.
    pub fn new(global: GlobalPassCtx, widget_state: WidgetState) -> (ctx: WidgetCtx)
        ensures
            ctx.global == global,
            ctx.widget_state == widget_state,
            !ctx.is_init,
    {
        WidgetCtx { global, widget_state, is_init: false }
    }

    /// Activates the context. The driver calls this exactly once, before the
    /// widget sees the context.
    pub fn init(&mut self)
        requires
            !old(self).is_init,
        ensures
            *final(self) == (WidgetCtx { is_init: true, ..*old(self) }),
    {
        self.is_init = true;
    }

    /// The id of the current widget.
    pub fn widget_id(&self) -> (id: WidgetId)
        requires
            self.is_init,
        ensures
            id == self.widget_state.id,
    {
        self.widget_state.id
    }

    /// The id of the current window.
    pub fn window_id(&self) -> (id: WindowId)
        requires
            self.is_init,
        ensures
            id == self.global.window_id,
    {
        self.global.window_id
    }

    /// Marks a child as visited without recursing into it.
    pub fn skip_child(&self, child: &mut WidgetState)
        requires
            self.is_init,
        ensures
            *final(child) == (WidgetState { was_visited: true, ..*old(child) }),
    {
        child.was_visited = true;
    }

    /// The widget's layout size.
    pub fn size(&self) -> (s: Size)
        requires
            self.is_init,
        ensures
            s == self.widget_state.size,
    {
        self.widget_state.size()
    }

    /// The widget's origin in window coordinates.
    pub fn window_origin(&self) -> (p: Point)
        requires
            self.is_init,
        ensures
            p == window_origin_spec(self.widget_state),
    {
        Point {
            x: crate::geom::add_coord(self.widget_state.parent_window_origin.x, self.widget_state.origin.x),
            y: crate::geom::add_coord(self.widget_state.parent_window_origin.y, self.widget_state.origin.y),
        }
    }

    /// Converts a point from the widget's coordinate space to the window's.
    pub fn to_window(&self, widget_point: Point) -> (p: Point)
        requires
            self.is_init,
        ensures
            p == to_window_spec(self.widget_state, widget_point),
    {
        let o = self.window_origin();
        Point {
            x: crate::geom::add_coord(o.x, widget_point.x),
            y: crate::geom::add_coord(o.y, widget_point.y),
        }
    }

    /// Converts a point from the widget's coordinate space to the screen's.
    pub fn to_screen(&self, widget_point: Point) -> (p: Point)
        requires
            self.is_init,
        ensures
            p == to_screen_spec(self.widget_state, self.global.screen_origin, widget_point),
    {
        let w = self.to_window(widget_point);
        Point {
            x: crate::geom::add_coord(self.global.screen_origin.x, w.x),
            y: crate::geom::add_coord(self.global.screen_origin.y, w.y),
        }
    }

    /// The hot (hover) status of the widget.
    pub fn is_hot(&self) -> (r: bool)
        requires
            self.is_init,
        ensures
            r == self.widget_state.is_hot,
    {
        self.widget_state.is_hot
    }

    /// The active (pointer-capture) status of the widget.
    pub fn is_active(&self) -> (r: bool)
        requires
            self.is_init,
        ensures
            r == self.widget_state.is_active,
    {
        self.widget_state.is_active
    }

    /// Whether this very widget holds focus.
    pub fn is_focused(&self) -> (r: bool)
        requires
            self.is_init,
        ensures
            r == (self.global.focus_widget == Some(self.widget_state.id)),
    {
        match self.global.focus_widget {
            Some(f) => f.0 == self.widget_state.id.0,
            None => false,
        }
    }

    /// Whether this widget or a descendant holds focus.
    pub fn has_focus(&self) -> (r: bool)
        requires
            self.is_init,
        ensures
            r == self.widget_state.has_focus,
    {
        self.widget_state.has_focus
    }

    /// Whether this widget or an ancestor is disabled.
    pub fn is_disabled(&self) -> (r: bool)
        requires
            self.is_init,
        ensures
            r == is_disabled_spec(self.widget_state),
    {
        self.widget_state.is_disabled()
    }

    /// Whether the widget is stashed out of layout, paint and hit-testing.
    pub fn is_stashed(&self) -> (r: bool)
        requires
            self.is_init,
        ensures
            r == self.widget_state.is_stashed,
    {
        self.widget_state.is_stashed
    }

    /// Requests a repaint of the widget's whole paint rectangle.
    pub fn request_paint(&mut self)
        requires
            old(self).is_init,
        ensures
            *final(self) == (WidgetCtx { widget_state: final(self).widget_state, ..*old(self) }),
            final(self).widget_state == (WidgetState {
                invalid: final(self).widget_state.invalid,
                ..old(self).widget_state
            }),
            final(self).widget_state.invalid.rects@ =~= seq![
                full_local_paint_rect(old(self).widget_state),
            ],
    {
        let r = Rect::from_origin_size(Point { x: 0, y: 0 }, self.widget_state.size).expand(
            self.widget_state.paint_insets,
        );
        self.widget_state.invalid.set_rect(r);
    }

    /// Requests a repaint of `rect`, given relative to the layout rectangle;
    /// the rectangle joins the accumulated invalid region.
    pub fn request_paint_rect(&mut self, rect: Rect)
        requires
            old(self).is_init,
        ensures
            *final(self) == (WidgetCtx { widget_state: final(self).widget_state, ..*old(self) }),
            final(self).widget_state == (WidgetState {
                invalid: final(self).widget_state.invalid,
                ..old(self).widget_state
            }),
            final(self).widget_state.invalid.rects@ == old(
                self,
            ).widget_state.invalid.rects@.push(rect),
    {
        self.widget_state.invalid.add_rect(rect);
    }

    /// Requests a layout pass.
    pub fn request_layout(&mut self)
        requires
            old(self).is_init,
        ensures
            *final(self) == (WidgetCtx { widget_state: final(self).widget_state, ..*old(self) }),
            final(self).widget_state == (WidgetState {
                needs_layout: true,
                ..old(self).widget_state
            }),
    {
        self.widget_state.needs_layout = true;
    }

    /// Requests an animation frame.
    pub fn request_anim_frame(&mut self)
        requires
            old(self).is_init,
        ensures
            *final(self) == (WidgetCtx { widget_state: final(self).widget_state, ..*old(self) }),
            final(self).widget_state == (WidgetState {
                request_anim: true,
                ..old(self).widget_state
            }),
    {
        self.widget_state.request_anim = true;
    }

    /// Signals that the set of children changed; this also forces a
    /// focus-chain rebuild and a layout pass.
    pub fn children_changed(&mut self)
        requires
            old(self).is_init,
        ensures
            *final(self) == (WidgetCtx { widget_state: final(self).widget_state, ..*old(self) }),
            final(self).widget_state == (WidgetState {
                children_changed: true,
                update_focus_chain: true,
                needs_layout: true,
                ..old(self).widget_state
            }),
    {
        self.widget_state.children_changed = true;
        self.widget_state.update_focus_chain = true;
        self.widget_state.needs_layout = true;
    }

    /// Sets this widget's explicit disabled state, committed by the driver
    /// after the pass. The widget may still be disabled through an ancestor.
    pub fn set_disabled(&mut self, disabled: bool)
        requires
            old(self).is_init,
        ensures
            *final(self) == (WidgetCtx { widget_state: final(self).widget_state, ..*old(self) }),
            final(self).widget_state == (WidgetState {
                is_explicitly_disabled_new: disabled,
                ..old(self).widget_state
            }),
    {
        self.widget_state.is_explicitly_disabled_new = disabled;
    }

    /// Stashes or unstashes a child, which also signals that the children
    /// changed (and with it a focus-chain rebuild and a layout pass).
    pub fn set_stashed(&mut self, child: &mut WidgetState, stashed: bool)
        requires
            old(self).is_init,
        ensures
            *final(child) == (WidgetState { is_stashed: stashed, ..*old(child) }),
            *final(self) == (WidgetCtx { widget_state: final(self).widget_state, ..*old(self) }),
            final(self).widget_state == (WidgetState {
                children_changed: true,
                update_focus_chain: true,
                needs_layout: true,
                ..old(self).widget_state
            }),
    {
        child.is_stashed = stashed;
        self.children_changed();
    }

    /// Reports that this widget's text-input state is stale, by a command
    /// targeted at the window.
    pub fn invalidate_text_input(&mut self, event: ImeInvalidation)
        requires
            old(self).is_init,
        ensures
            *final(self) == (WidgetCtx { global: final(self).global, ..*old(self) }),
            final(self).global == (GlobalPassCtx {
                command_queue: final(self).global.command_queue,
                ..old(self).global
            }),
            final(self).global.command_queue@ == old(self).global.command_queue@.push(
                Command {
                    selector: INVALIDATE_IME,
                    payload: CommandPayload::ImeInvalidate {
                        widget: old(self).widget_state.id,
                        event,
                    },
                    target: Target::Window(old(self).global.window_id),
                },
            ),
    {
        let id = self.widget_state.id;
        let win = self.global.window_id;
        let cmd = Command::new(
            INVALIDATE_IME,
            CommandPayload::ImeInvalidate { widget: id, event },
            Target::Window(win),
        );
        self.global.submit_command(cmd);
    }

    /// Submits a command, run by the host after this pass. A command
    /// without an explicit target goes to the window containing the widget.
    pub fn submit_command(&mut self, cmd: Command)
        requires
            old(self).is_init,
        ensures
            *final(self) == (WidgetCtx { global: final(self).global, ..*old(self) }),
            final(self).global == (GlobalPassCtx {
                command_queue: final(self).global.command_queue,
                ..old(self).global
            }),
            final(self).global.command_queue@ == old(self).global.command_queue@.push(
                crate::command::command_default_to(
                    cmd,
                    Target::Window(old(self).global.window_id),
                ),
            ),
    {
        self.global.submit_command(cmd);
    }

    /// Submits an action, reported to the host together with this widget's
    /// id.
    pub fn submit_action(&mut self, action: Action)
        requires
            old(self).is_init,
        ensures
            *final(self) == (WidgetCtx { global: final(self).global, ..*old(self) }),
            final(self).global == (GlobalPassCtx {
                action_queue: final(self).global.action_queue,
                ..old(self).global
            }),
            final(self).global.action_queue@ == old(self).global.action_queue@.push(
                (action, old(self).widget_state.id, old(self).global.window_id),
            ),
    {
        let id = self.widget_state.id;
        self.global.submit_action(action, id);
    }

    /// Requests a timer event for this widget; the returned token is
    /// distinct from every token the pass has handed out.
    pub fn request_timer(&mut self, duration_ms: u64) -> (token: TimerToken)
        requires
            old(self).is_init,
            global_wf(old(self).global),
            old(self).global.mock_timer_queue matches Some(q) && {
                &&& q.current_time + duration_ms <= u64::MAX
                &&& q.next_token < u64::MAX
            },
        ensures
            *final(self) == (WidgetCtx { global: final(self).global, ..*old(self) }),
            global_wf(final(self).global),
            request_timer_post(
                old(self).global,
                old(self).widget_state.id,
                duration_ms,
                token,
                final(self).global,
            ),
    {
        let id = self.widget_state.id;
        self.global.request_timer(duration_ms, id)
    }
}

impl EventCtx {
    /// Builds an inactive event context for one widget.
    pub fn new(global: GlobalPassCtx, widget_state: WidgetState, is_root: bool) -> (ctx: EventCtx)
        ensures
            ctx.global == global,
            ctx.widget_state == widget_state,
            !ctx.is_init,
            ctx.notifications@.len() == 0,
            !ctx.is_handled,
            ctx.is_root == is_root,
            ctx.request_pan_to_child is None,
    {
        EventCtx {
            global,
            widget_state,
            is_init: false,
            notifications: Vec::new(),
            is_handled: false,
            is_root,
            request_pan_to_child: None,
        }
    }

    /// Activates the context. The driver calls this exactly once, before the
    /// widget sees the context.
    pub fn init(&mut self)
        requires
            !old(self).is_init,
        ensures
            *final(self) == (EventCtx { is_init: true, ..*old(self) }),
    {
        self.is_init = true;
    }

    /// The id of the current widget.
    pub fn widget_id(&self) -> (id: WidgetId)
        requires
            self.is_init,
        ensures
            id == self.widget_state.id,
    {
        self.widget_state.id
    }

    /// The id of the current window.
    pub fn window_id(&self) -> (id: WindowId)
        requires
            self.is_init,
        ensures
            id == self.global.window_id,
    {
        self.global.window_id
    }

    /// Marks a child as visited without recursing into it.
    pub fn skip_child(&self, child: &mut WidgetState)
        requires
            self.is_init,
        ensures
            *final(child) == (WidgetState { was_visited: true, ..*old(child) }),
    {
        child.was_visited = true;
    }

    /// The widget's layout size.
    pub fn size(&self) -> (s: Size)
        requires
            self.is_init,
        ensures
            s == self.widget_state.size,
    {
        self.widget_state.size()
    }

    /// The widget's origin in window coordinates.
    pub fn window_origin(&self) -> (p: Point)
        requires
            self.is_init,
        ensures
            p == window_origin_spec(self.widget_state),
    {
        Point {
            x: crate::geom::add_coord(self.widget_state.parent_window_origin.x, self.widget_state.origin.x),
            y: crate::geom::add_coord(self.widget_state.parent_window_origin.y, self.widget_state.origin.y),
        }
    }

    /// Converts a point from the widget's coordinate space to the window's.
    pub fn to_window(&self, widget_point: Point) -> (p: Point)
        requires
            self.is_init,
        ensures
            p == to_window_spec(self.widget_state, widget_point),
    {
        let o = self.window_origin();
        Point {
            x: crate::geom::add_coord(o.x, widget_point.x),
            y: crate::geom::add_coord(o.y, widget_point.y),
        }
    }

    /// Converts a point from the widget's coordinate space to the screen's.
    pub fn to_screen(&self, widget_point: Point) -> (p: Point)
        requires
            self.is_init,
        ensures
            p == to_screen_spec(self.widget_state, self.global.screen_origin, widget_point),
    {
        let w = self.to_window(widget_point);
        Point {
            x: crate::geom::add_coord(self.global.screen_origin.x, w.x),
            y: crate::geom::add_coord(self.global.screen_origin.y, w.y),
        }
    }

    /// The hot (hover) status of the widget.
    pub fn is_hot(&self) -> (r: bool)
        requires
            self.is_init,
        ensures
            r == self.widget_state.is_hot,
    {
        self.widget_state.is_hot
    }

    /// The active (pointer-capture) status of the widget.
    pub fn is_active(&self) -> (r: bool)
        requires
            self.is_init,
        ensures
            r == self.widget_state.is_active,
    {
        self.widget_state.is_active
    }

    /// Whether this very widget holds focus.
    pub fn is_focused(&self) -> (r: bool)
        requires
            self.is_init,
        ensures
            r == (self.global.focus_widget == Some(self.widget_state.id)),
    {
        match self.global.focus_widget {
            Some(f) => f.0 == self.widget_state.id.0,
            None => false,
        }
    }

    /// Whether this widget or a descendant holds focus.
    pub fn has_focus(&self) -> (r: bool)
        requires
            self.is_init,
        ensures
            r == self.widget_state.has_focus,
    {
        self.widget_state.has_focus
    }

    /// Whether this widget or an ancestor is disabled.
    pub fn is_disabled(&self) -> (r: bool)
        requires
            self.is_init,
        ensures
            r == is_disabled_spec(self.widget_state),
    {
        self.widget_state.is_disabled()
    }

    /// Whether the widget is stashed out of layout, paint and hit-testing.
    pub fn is_stashed(&self) -> (r: bool)
        requires
            self.is_init,
        ensures
            r == self.widget_state.is_stashed,
    {
        self.widget_state.is_stashed
    }

    /// Requests a repaint of the widget's whole paint rectangle.
    pub fn request_paint(&mut self)
        requires
            old(self).is_init,
        ensures
            *final(self) == (EventCtx { widget_state: final(self).widget_state, ..*old(self) }),
            final(self).widget_state == (WidgetState {
                invalid: final(self).widget_state.invalid,
                ..old(self).widget_state
            }),
            final(self).widget_state.invalid.rects@ =~= seq![
                full_local_paint_rect(old(self).widget_state),
            ],
    {
        let r = Rect::from_origin_size(Point { x: 0, y: 0 }, self.widget_state.size).expand(
            self.widget_state.paint_insets,
        );
        self.widget_state.invalid.set_rect(r);
    }

    /// Requests a repaint of `rect`, given relative to the layout rectangle;
    /// the rectangle joins the accumulated invalid region.
    pub fn request_paint_rect(&mut self, rect: Rect)
        requires
            old(self).is_init,
        ensures
            *final(self) == (EventCtx { widget_state: final(self).widget_state, ..*old(self) }),
            final(self).widget_state == (WidgetState {
                invalid: final(self).widget_state.invalid,
                ..old(self).widget_state
            }),
            final(self).widget_state.invalid.rects@ == old(
                self,
            ).widget_state.invalid.rects@.push(rect),
    {
        self.widget_state.invalid.add_rect(rect);
    }

    /// Requests a layout pass.
    pub fn request_layout(&mut self)
        requires
            old(self).is_init,
        ensures
            *final(self) == (EventCtx { widget_state: final(self).widget_state, ..*old(self) }),
            final(self).widget_state == (WidgetState {
                needs_layout: true,
                ..old(self).widget_state
            }),
    {
        self.widget_state.needs_layout = true;
    }

    /// Requests an animation frame.
    pub fn request_anim_frame(&mut self)
        requires
            old(self).is_init,
        ensures
            *final(self) == (EventCtx { widget_state: final(self).widget_state, ..*old(self) }),
            final(self).widget_state == (WidgetState {
                request_anim: true,
                ..old(self).widget_state
            }),
    {
        self.widget_state.request_anim = true;
    }

    /// Signals that the set of children changed; this also forces a
    /// focus-chain rebuild and a layout pass.
    pub fn children_changed(&mut self)
        requires
            old(self).is_init,
        ensures
            *final(self) == (EventCtx { widget_state: final(self).widget_state, ..*old(self) }),
            final(self).widget_state == (WidgetState {
                children_changed: true,
                update_focus_chain: true,
                needs_layout: true,
                ..old(self).widget_state
            }),
    {
        self.widget_state.children_changed = true;
        self.widget_state.update_focus_chain = true;
        self.widget_state.needs_layout = true;
    }

    /// Sets this widget's explicit disabled state, committed by the driver
    /// after the pass. The widget may still be disabled through an ancestor.
    pub fn set_disabled(&mut self, disabled: bool)
        requires
            old(self).is_init,
        ensures
            *final(self) == (EventCtx { widget_state: final(self).widget_state, ..*old(self) }),
            final(self).widget_state == (WidgetState {
                is_explicitly_disabled_new: disabled,
                ..old(self).widget_state
            }),
    {
        self.widget_state.is_explicitly_disabled_new = disabled;
    }

    /// Stashes or unstashes a child, which also signals that the children
    /// changed (and with it a focus-chain rebuild and a layout pass).
    pub fn set_stashed(&mut self, child: &mut WidgetState, stashed: bool)
        requires
            old(self).is_init,
        ensures
            *final(child) == (WidgetState { is_stashed: stashed, ..*old(child) }),
            *final(self) == (EventCtx { widget_state: final(self).widget_state, ..*old(self) }),
            final(self).widget_state == (WidgetState {
                children_changed: true,
                update_focus_chain: true,
                needs_layout: true,
                ..old(self).widget_state
            }),
    {
        child.is_stashed = stashed;
        self.children_changed();
    }

    /// Reports that this widget's text-input state is stale, by a command
    /// targeted at the window.
    pub fn invalidate_text_input(&mut self, event: ImeInvalidation)
        requires
            old(self).is_init,
        ensures
            *final(self) == (EventCtx { global: final(self).global, ..*old(self) }),
            final(self).global == (GlobalPassCtx {
                command_queue: final(self).global.command_queue,
                ..old(self).global
            }),
            final(self).global.command_queue@ == old(self).global.command_queue@.push(
                Command {
                    selector: INVALIDATE_IME,
                    payload: CommandPayload::ImeInvalidate {
                        widget: old(self).widget_state.id,
                        event,
                    },
                    target: Target::Window(old(self).global.window_id),
                },
            ),
    {
        let id = self.widget_state.id;
        let win = self.global.window_id;
        let cmd = Command::new(
            INVALIDATE_IME,
            CommandPayload::ImeInvalidate { widget: id, event },
            Target::Window(win),
        );
        self.global.submit_command(cmd);
    }

    /// Submits a command, run by the host after this pass. A command
    /// without an explicit target goes to the window containing the widget.
    pub fn submit_command(&mut self, cmd: Command)
        requires
            old(self).is_init,
        ensures
            *final(self) == (EventCtx { global: final(self).global, ..*old(self) }),
            final(self).global == (GlobalPassCtx {
                command_queue: final(self).global.command_queue,
                ..old(self).global
            }),
            final(self).global.command_queue@ == old(self).global.command_queue@.push(
                crate::command::command_default_to(
                    cmd,
                    Target::Window(old(self).global.window_id),
                ),
            ),
    {
        self.global.submit_command(cmd);
    }

    /// Submits an action, reported to the host together with this widget's
    /// id.
    pub fn submit_action(&mut self, action: Action)
        requires
            old(self).is_init,
        ensures
            *final(self) == (EventCtx { global: final(self).global, ..*old(self) }),
            final(self).global == (GlobalPassCtx {
                action_queue: final(self).global.action_queue,
                ..old(self).global
            }),
            final(self).global.action_queue@ == old(self).global.action_queue@.push(
                (action, old(self).widget_state.id, old(self).global.window_id),
            ),
    {
        let id = self.widget_state.id;
        self.global.submit_action(action, id);
    }

    /// Requests a timer event for this widget; the returned token is
    /// distinct from every token the pass has handed out.
    pub fn request_timer(&mut self, duration_ms: u64) -> (token: TimerToken)
        requires
            old(self).is_init,
            global_wf(old(self).global),
            old(self).global.mock_timer_queue matches Some(q) && {
                &&& q.current_time + duration_ms <= u64::MAX
                &&& q.next_token < u64::MAX
            },
        ensures
            *final(self) == (EventCtx { global: final(self).global, ..*old(self) }),
            global_wf(final(self).global),
            request_timer_post(
                old(self).global,
                old(self).widget_state.id,
                duration_ms,
                token,
                final(self).global,
            ),
    {
        let id = self.widget_state.id;
        self.global.request_timer(duration_ms, id)
    }
}

impl LifeCycleCtx {
    /// Builds an inactive lifecycle context for one widget.
    pub fn new(global: GlobalPassCtx, widget_state: WidgetState) -> (ctx: LifeCycleCtx)
        ensures
            ctx.global == global,
            ctx.widget_state == widget_state,
            !ctx.is_init,
    {
        LifeCycleCtx { global, widget_state, is_init: false }
    }

    /// Activates the context. The driver calls this exactly once, before the
    /// widget sees the context.
    pub fn init(&mut self)
        requires
            !old(self).is_init,
        ensures
            *final(self) == (LifeCycleCtx { is_init: true, ..*old(self) }),
    {
        self.is_init = true;
    }

    /// The id of the current widget.
    pub fn widget_id(&self) -> (id: WidgetId)
        requires
            self.is_init,
        ensures
            id == self.widget_state.id,
    {
        self.widget_state.id
    }

    /// The id of the current window.
    pub fn window_id(&self) -> (id: WindowId)
        requires
            self.is_init,
        ensures
            id == self.global.window_id,
    {
        self.global.window_id
    }

    /// Marks a child as visited without recursing into it.
    pub fn skip_child(&self, child: &mut WidgetState)
        requires
            self.is_init,
        ensures
            *final(child) == (WidgetState { was_visited: true, ..*old(child) }),
    {
        child.was_visited = true;
    }

    /// The widget's layout size.
    pub fn size(&self) -> (s: Size)
        requires
            self.is_init,
        ensures
            s == self.widget_state.size,
    {
        self.widget_state.size()
    }

    /// The widget's origin in window coordinates.
    pub fn window_origin(&self) -> (p: Point)
        requires
            self.is_init,
        ensures
            p == window_origin_spec(self.widget_state),
    {
        Point {
            x: crate::geom::add_coord(self.widget_state.parent_window_origin.x, self.widget_state.origin.x),
            y: crate::geom::add_coord(self.widget_state.parent_window_origin.y, self.widget_state.origin.y),
        }
    }

    /// Converts a point from the widget's coordinate space to the window's.
    pub fn to_window(&self, widget_point: Point) -> (p: Point)
        requires
            self.is_init,
        ensures
            p == to_window_spec(self.widget_state, widget_point),
    {
        let o = self.window_origin();
        Point {
            x: crate::geom::add_coord(o.x, widget_point.x),
            y: crate::geom::add_coord(o.y, widget_point.y),
        }
    }

    /// Converts a point from the widget's coordinate space to the screen's.
    pub fn to_screen(&self, widget_point: Point) -> (p: Point)
        requires
            self.is_init,
        ensures
            p == to_screen_spec(self.widget_state, self.global.screen_origin, widget_point),
    {
        let w = self.to_window(widget_point);
        Point {
            x: crate::geom::add_coord(self.global.screen_origin.x, w.x),
            y: crate::geom::add_coord(self.global.screen_origin.y, w.y),
        }
    }

    /// The hot (hover) status of the widget.
    pub fn is_hot(&self) -> (r: bool)
        requires
            self.is_init,
        ensures
            r == self.widget_state.is_hot,
    {
        self.widget_state.is_hot
    }

    /// The active (pointer-capture) status of the widget.
    pub fn is_active(&self) -> (r: bool)
        requires
            self.is_init,
        ensures
            r == self.widget_state.is_active,
    {
        self.widget_state.is_active
    }

    /// Whether this very widget holds focus.
    pub fn is_focused(&self) -> (r: bool)
        requires
            self.is_init,
        ensures
            r == (self.global.focus_widget == Some(self.widget_state.id)),
    {
        match self.global.focus_widget {
            Some(f) => f.0 == self.widget_state.id.0,
            None => false,
        }
    }

    /// Whether this widget or a descendant holds focus.
    pub fn has_focus(&self) -> (r: bool)
        requires
            self.is_init,
        ensures
            r == self.widget_state.has_focus,
    {
        self.widget_state.has_focus
    }

    /// Whether this widget or an ancestor is disabled.
    pub fn is_disabled(&self) -> (r: bool)
        requires
            self.is_init,
        ensures
            r == is_disabled_spec(self.widget_state),
    {
        self.widget_state.is_disabled()
    }

    /// Whether the widget is stashed out of layout, paint and hit-testing.
    pub fn is_stashed(&self) -> (r: bool)
        requires
            self.is_init,
        ensures
            r == self.widget_state.is_stashed,
    {
        self.widget_state.is_stashed
    }

    /// Requests a repaint of the widget's whole paint rectangle.
    pub fn request_paint(&mut self)
        requires
            old(self).is_init,
        ensures
            *final(self) == (LifeCycleCtx { widget_state: final(self).widget_state, ..*old(self) }),
            final(self).widget_state == (WidgetState {
                invalid: final(self).widget_state.invalid,
                ..old(self).widget_state
            }),
            final(self).widget_state.invalid.rects@ =~= seq![
                full_local_paint_rect(old(self).widget_state),
            ],
    {
        let r = Rect::from_origin_size(Point { x: 0, y: 0 }, self.widget_state.size).expand(
            self.widget_state.paint_insets,
        );
        self.widget_state.invalid.set_rect(r);
    }

    /// Requests a repaint of `rect`, given relative to the layout rectangle;
    /// the rectangle joins the accumulated invalid region.
    pub fn request_paint_rect(&mut self, rect: Rect)
        requires
            old(self).is_init,
        ensures
            *final(self) == (LifeCycleCtx { widget_state: final(self).widget_state, ..*old(self) }),
            final(self).widget_state == (WidgetState {
                invalid: final(self).widget_state.invalid,
                ..old(self).widget_state
            }),
            final(self).widget_state.invalid.rects@ == old(
                self,
            ).widget_state.invalid.rects@.push(rect),
    {
        self.widget_state.invalid.add_rect(rect);
    }

    /// Requests a layout pass.
    pub fn request_layout(&mut self)
        requires
            old(self).is_init,
        ensures
            *final(self) == (LifeCycleCtx { widget_state: final(self).widget_state, ..*old(self) }),
            final(self).widget_state == (WidgetState {
                needs_layout: true,
                ..old(self).widget_state
            }),
    {
        self.widget_state.needs_layout = true;
    }

    /// Requests an animation frame.
    pub fn request_anim_frame(&mut self)
        requires
            old(self).is_init,
        ensures
            *final(self) == (LifeCycleCtx { widget_state: final(self).widget_state, ..*old(self) }),
            final(self).widget_state == (WidgetState {
                request_anim: true,
                ..old(self).widget_state
            }),
    {
        self.widget_state.request_anim = true;
    }

    /// Signals that the set of children changed; this also forces a
    /// focus-chain rebuild and a layout pass.
    pub fn children_changed(&mut self)
        requires
            old(self).is_init,
        ensures
            *final(self) == (LifeCycleCtx { widget_state: final(self).widget_state, ..*old(self) }),
            final(self).widget_state == (WidgetState {
                children_changed: true,
                update_focus_chain: true,
                needs_layout: true,
                ..old(self).widget_state
            }),
    {
        self.widget_state.children_changed = true;
        self.widget_state.update_focus_chain = true;
        self.widget_state.needs_layout = true;
    }

    /// Sets this widget's explicit disabled state, committed by the driver
    /// after the pass. The widget may still be disabled through an ancestor.
    pub fn set_disabled(&mut self, disabled: bool)
        requires
            old(self).is_init,
        ensures
            *final(self) == (LifeCycleCtx { widget_state: final(self).widget_state, ..*old(self) }),
            final(self).widget_state == (WidgetState {
                is_explicitly_disabled_new: disabled,
                ..old(self).widget_state
            }),
    {
        self.widget_state.is_explicitly_disabled_new = disabled;
    }

    /// Stashes or unstashes a child, which also signals that the children
    /// changed (and with it a focus-chain rebuild and a layout pass).
    pub fn set_stashed(&mut self, child: &mut WidgetState, stashed: bool)
        requires
            old(self).is_init,
        ensures
            *final(child) == (WidgetState { is_stashed: stashed, ..*old(child) }),
            *final(self) == (LifeCycleCtx { widget_state: final(self).widget_state, ..*old(self) }),
            final(self).widget_state == (WidgetState {
                children_changed: true,
                update_focus_chain: true,
                needs_layout: true,
                ..old(self).widget_state
            }),
    {
        child.is_stashed = stashed;
        self.children_changed();
    }

    /// Reports that this widget's text-input state is stale, by a command
    /// targeted at the window.
    pub fn invalidate_text_input(&mut self, event: ImeInvalidation)
        requires
            old(self).is_init,
        ensures
            *final(self) == (LifeCycleCtx { global: final(self).global, ..*old(self) }),
            final(self).global == (GlobalPassCtx {
                command_queue: final(self).global.command_queue,
                ..old(self).global
            }),
            final(self).global.command_queue@ == old(self).global.command_queue@.push(
                Command {
                    selector: INVALIDATE_IME,
                    payload: CommandPayload::ImeInvalidate {
                        widget: old(self).widget_state.id,
                        event,
                    },
                    target: Target::Window(old(self).global.window_id),
                },
            ),
    {
        let id = self.widget_state.id;
        let win = self.global.window_id;
        let cmd = Command::new(
            INVALIDATE_IME,
            CommandPayload::ImeInvalidate { widget: id, event },
            Target::Window(win),
        );
        self.global.submit_command(cmd);
    }

    /// Submits a command, run by the host after this pass. A command
    /// without an explicit target goes to the window containing the widget.
    pub fn submit_command(&mut self, cmd: Command)
        requires
            old(self).is_init,
        ensures
            *final(self) == (LifeCycleCtx { global: final(self).global, ..*old(self) }),
            final(self).global == (GlobalPassCtx {
                command_queue: final(self).global.command_queue,
                ..old(self).global
            }),
            final(self).global.command_queue@ == old(self).global.command_queue@.push(
                crate::command::command_default_to(
                    cmd,
                    Target::Window(old(self).global.window_id),
                ),
            ),
    {
        self.global.submit_command(cmd);
    }

    /// Submits an action, reported to the host together with this widget's
    /// id.
    pub fn submit_action(&mut self, action: Action)
        requires
            old(self).is_init,
        ensures
            *final(self) == (LifeCycleCtx { global: final(self).global, ..*old(self) }),
            final(self).global == (GlobalPassCtx {
                action_queue: final(self).global.action_queue,
                ..old(self).global
            }),
            final(self).global.action_queue@ == old(self).global.action_queue@.push(
                (action, old(self).widget_state.id, old(self).global.window_id),
            ),
    {
        let id = self.widget_state.id;
        self.global.submit_action(action, id);
    }

    /// Requests a timer event for this widget; the returned token is
    /// distinct from every token the pass has handed out.
    pub fn request_timer(&mut self, duration_ms: u64) -> (token: TimerToken)
        requires
            old(self).is_init,
            global_wf(old(self).global),
            old(self).global.mock_timer_queue matches Some(q) && {
                &&& q.current_time + duration_ms <= u64::MAX
                &&& q.next_token < u64::MAX
            },
        ensures
            *final(self) == (LifeCycleCtx { global: final(self).global, ..*old(self) }),
            global_wf(final(self).global),
            request_timer_post(
                old(self).global,
                old(self).widget_state.id,
                duration_ms,
                token,
                final(self).global,
            ),
    {
        let id = self.widget_state.id;
        self.global.request_timer(duration_ms, id)
    }
}

impl LayoutCtx {
    /// Builds an inactive layout context for one widget; `mouse_pos` is the
    /// pointer position snapshot for this pass, if one is known.
    pub fn new(global: GlobalPassCtx, widget_state: WidgetState, mouse_pos: Option<Point>) -> (ctx:
        LayoutCtx)
        ensures
            ctx.global == global,
            ctx.widget_state == widget_state,
            !ctx.is_init,
            ctx.mouse_pos == mouse_pos,
    {
        LayoutCtx { global, widget_state, is_init: false, mouse_pos }
    }

    /// Activates the context. The driver calls this exactly once, before the
    /// widget sees the context.
    pub fn init(&mut self)
        requires
            !old(self).is_init,
        ensures
            *final(self) == (LayoutCtx { is_init: true, ..*old(self) }),
    {
        self.is_init = true;
    }

    /// The id of the current widget.
    pub fn widget_id(&self) -> (id: WidgetId)
        requires
            self.is_init,
        ensures
            id == self.widget_state.id,
    {
        self.widget_state.id
    }

    /// The id of the current window.
    pub fn window_id(&self) -> (id: WindowId)
        requires
            self.is_init,
        ensures
            id == self.global.window_id,
    {
        self.global.window_id
    }

    /// Marks a child as visited without recursing into it.
    pub fn skip_child(&self, child: &mut WidgetState)
        requires
            self.is_init,
        ensures
            *final(child) == (WidgetState { was_visited: true, ..*old(child) }),
    {
        child.was_visited = true;
    }

    /// without an explicit target goes to the window containing the widget.
    pub fn submit_command(&mut self, cmd: Command)
        requires
            old(self).is_init,
        ensures
            *final(self) == (LayoutCtx { global: final(self).global, ..*old(self) }),
            final(self).global == (GlobalPassCtx {
                command_queue: final(self).global.command_queue,
                ..old(self).global
            }),
            final(self).global.command_queue@ == old(self).global.command_queue@.push(
                crate::command::command_default_to(
                    cmd,
                    Target::Window(old(self).global.window_id),
                ),
            ),
    {
        self.global.submit_command(cmd);
    }

    /// id.
    pub fn submit_action(&mut self, action: Action)
        requires
            old(self).is_init,
        ensures
            *final(self) == (LayoutCtx { global: final(self).global, ..*old(self) }),
            final(self).global == (GlobalPassCtx {
                action_queue: final(self).global.action_queue,
                ..old(self).global
            }),
            final(self).global.action_queue@ == old(self).global.action_queue@.push(
                (action, old(self).widget_state.id, old(self).global.window_id),
            ),
    {
        let id = self.widget_state.id;
        self.global.submit_action(action, id);
    }

    /// distinct from every token the pass has handed out.
    pub fn request_timer(&mut self, duration_ms: u64) -> (token: TimerToken)
        requires
            old(self).is_init,
            global_wf(old(self).global),
            old(self).global.mock_timer_queue matches Some(q) && {
                &&& q.current_time + duration_ms <= u64::MAX
                &&& q.next_token < u64::MAX
            },
        ensures
            *final(self) == (LayoutCtx { global: final(self).global, ..*old(self) }),
            global_wf(final(self).global),
            request_timer_post(
                old(self).global,
                old(self).widget_state.id,
                duration_ms,
                token,
                final(self).global,
            ),
    {
        let id = self.widget_state.id;
        self.global.request_timer(duration_ms, id)
    }
}


impl EventCtx {
    /// Asks for this cursor while the widget is hot or active, unless a
    /// descendant also sets one.
    pub fn set_cursor(&mut self, cursor: CursorIcon)
        requires
            old(self).is_init,
        ensures
            *final(self) == (EventCtx { widget_state: final(self).widget_state, ..*old(self) }),
            final(self).widget_state == (WidgetState {
                cursor_change: CursorChange::Chosen(cursor),
                ..old(self).widget_state
            }),
    {
        self.widget_state.cursor_change = CursorChange::Chosen(cursor);
    }

    /// Asks for this cursor while the widget is hot or active, overriding
    /// the preference of any descendant.
    pub fn override_cursor(&mut self, cursor: CursorIcon)
        requires
            old(self).is_init,
        ensures
            *final(self) == (EventCtx { widget_state: final(self).widget_state, ..*old(self) }),
            final(self).widget_state == (WidgetState {
                cursor_change: CursorChange::Override(cursor),
                ..old(self).widget_state
            }),
    {
        self.widget_state.cursor_change = CursorChange::Override(cursor);
    }

    /// Withdraws any cursor preference of this widget.
    pub fn clear_cursor(&mut self)
        requires
            old(self).is_init,
        ensures
            *final(self) == (EventCtx { widget_state: final(self).widget_state, ..*old(self) }),
            final(self).widget_state == (WidgetState {
                cursor_change: CursorChange::Default,
                ..old(self).widget_state
            }),
    {
        self.widget_state.cursor_change = CursorChange::Default;
    }

    /// Submits a notification from this widget to its ancestors; the
    /// command's target, if any, is discarded.
    pub fn submit_notification(&mut self, note: Command)
        requires
            old(self).is_init,
        ensures
            *final(self) == (EventCtx { notifications: final(self).notifications, ..*old(self) }),
            final(self).notifications@ == old(self).notifications@.push(
                Notification {
                    selector: note.selector,
                    payload: note.payload,
                    source: old(self).widget_state.id,
                },
            ),
    {
        let id = self.widget_state.id;
        let n = note.into_notification(id);
        self.notifications.push(n);
    }

    /// Asks the host to open a new window, by a command addressed to the
    /// application; `desc` designates the window description to use.
    pub fn new_window(&mut self, desc: u64)
        requires
            old(self).is_init,
        ensures
            *final(self) == (EventCtx { global: final(self).global, ..*old(self) }),
            final(self).global == (GlobalPassCtx {
                command_queue: final(self).global.command_queue,
                ..old(self).global
            }),
            final(self).global.command_queue@ == old(self).global.command_queue@.push(
                Command {
                    selector: NEW_WINDOW,
                    payload: CommandPayload::NewWindowDesc(desc),
                    target: Target::Global,
                },
            ),
    {
        let cmd = Command::new(NEW_WINDOW, CommandPayload::NewWindowDesc(desc), Target::Global);
        self.global.submit_command(cmd);
    }

    /// Asks the ancestors to pan this widget into view, recording its
    /// layout rectangle.
    pub fn request_pan_to_this(&mut self)
        requires
            old(self).is_init,
        ensures
            *final(self) == (EventCtx {
                request_pan_to_child: Some(layout_rect_spec(old(self).widget_state)),
                ..*old(self)
            }),
    {
        let r = self.widget_state.layout_rect();
        self.request_pan_to_child = Some(r);
    }

    /// Sets or clears the active (pointer-capture) state of the widget.
    pub fn set_active(&mut self, active: bool)
        requires
            old(self).is_init,
        ensures
            *final(self) == (EventCtx { widget_state: final(self).widget_state, ..*old(self) }),
            final(self).widget_state == (WidgetState {
                is_active: active,
                ..old(self).widget_state
            }),
    {
        self.widget_state.is_active = active;
    }

    /// Marks the event as handled, which stops its propagation to other
    /// widgets.
    pub fn set_handled(&mut self)
        requires
            old(self).is_init,
        ensures
            *final(self) == (EventCtx { is_handled: true, ..*old(self) }),
    {
        self.is_handled = true;
    }

    /// Whether some widget has already handled the event.
    pub fn is_handled(&self) -> (r: bool)
        requires
            self.is_init,
        ensures
            r == self.is_handled,
    {
        self.is_handled
    }

    /// Records an intent to focus this widget. Among the intents of one
    /// pass, the one recorded by the widget visited last wins.
    pub fn request_focus(&mut self)
        requires
            old(self).is_init,
        ensures
            *final(self) == (EventCtx { widget_state: final(self).widget_state, ..*old(self) }),
            final(self).widget_state == (WidgetState {
                request_focus: Some(FocusChange::Focus(old(self).widget_state.id)),
                ..old(self).widget_state
            }),
    {
        let id = self.widget_state.id;
        self.widget_state.request_focus = Some(FocusChange::Focus(id));
    }

    /// Records an intent to focus the widget with id `target`.
    pub fn set_focus(&mut self, target: WidgetId)
        requires
            old(self).is_init,
        ensures
            *final(self) == (EventCtx { widget_state: final(self).widget_state, ..*old(self) }),
            final(self).widget_state == (WidgetState {
                request_focus: Some(FocusChange::Focus(target)),
                ..old(self).widget_state
            }),
    {
        self.widget_state.request_focus = Some(FocusChange::Focus(target));
    }

    /// Records an intent to move focus to the next widget in the focus
    /// chain. Meaningful only for a widget with focus in its subtree; for
    /// any other widget the call has no effect.
    pub fn focus_next(&mut self)
        requires
            old(self).is_init,
        ensures
            *final(self) == (EventCtx { widget_state: final(self).widget_state, ..*old(self) }),
            final(self).widget_state == (WidgetState {
                request_focus: if old(self).widget_state.has_focus {
                    Some(FocusChange::Next)
                } else {
                    old(self).widget_state.request_focus
                },
                ..old(self).widget_state
            }),
    {
        self.widget_state.request_focus = if self.widget_state.has_focus {
            Some(FocusChange::Next)
        } else {
            self.widget_state.request_focus
        };
    }

    /// Records an intent to move focus to the previous widget in the focus
    /// chain. Meaningful only for a widget with focus in its subtree; for
    /// any other widget the call has no effect.
    pub fn focus_prev(&mut self)
        requires
            old(self).is_init,
        ensures
            *final(self) == (EventCtx { widget_state: final(self).widget_state, ..*old(self) }),
            final(self).widget_state == (WidgetState {
                request_focus: if old(self).widget_state.has_focus {
                    Some(FocusChange::Previous)
                } else {
                    old(self).widget_state.request_focus
                },
                ..old(self).widget_state
            }),
    {
        self.widget_state.request_focus = if self.widget_state.has_focus {
            Some(FocusChange::Previous)
        } else {
            self.widget_state.request_focus
        };
    }

    /// Records an intent to give focus up. Meaningful only for a widget
    /// with focus in its subtree; for any other widget the call has no
    /// effect.
    pub fn resign_focus(&mut self)
        requires
            old(self).is_init,
        ensures
            *final(self) == (EventCtx { widget_state: final(self).widget_state, ..*old(self) }),
            final(self).widget_state == (WidgetState {
                request_focus: if old(self).widget_state.has_focus {
                    Some(FocusChange::Resign)
                } else {
                    old(self).widget_state.request_focus
                },
                ..old(self).widget_state
            }),
    {
        self.widget_state.request_focus = if self.widget_state.has_focus {
            Some(FocusChange::Resign)
        } else {
            self.widget_state.request_focus
        };
    }
}

impl LifeCycleCtx {
    /// Registers `child_id` as a child of this widget.
    pub fn register_child(&mut self, child_id: WidgetId)
        requires
            old(self).is_init,
        ensures
            *final(self) == (LifeCycleCtx { widget_state: final(self).widget_state, ..*old(self) }),
            final(self).widget_state == (WidgetState {
                children: final(self).widget_state.children,
                ..old(self).widget_state
            }),
            final(self).widget_state.children@ == old(self).widget_state.children@.push(child_id),
    {
        self.widget_state.children.push(child_id);
    }

    /// Registers this widget as eligible for automatic focus, adding it to
    /// its focus-chain contribution.
    pub fn register_for_focus(&mut self)
        requires
            old(self).is_init,
        ensures
            *final(self) == (LifeCycleCtx { widget_state: final(self).widget_state, ..*old(self) }),
            final(self).widget_state == (WidgetState {
                focus_chain: final(self).widget_state.focus_chain,
                ..old(self).widget_state
            }),
            final(self).widget_state.focus_chain@ == old(self).widget_state.focus_chain@.push(
                old(self).widget_state.id,
            ),
    {
        let id = self.widget_state.id;
        self.widget_state.focus_chain.push(id);
    }

    /// Registers this widget as accepting text input; the registration is
    /// merged up and handed to the host after the pass.
    pub fn register_text_input(&mut self)
        requires
            old(self).is_init,
        ensures
            *final(self) == (LifeCycleCtx { widget_state: final(self).widget_state, ..*old(self) }),
            final(self).widget_state == (WidgetState {
                text_registrations: final(self).widget_state.text_registrations,
                ..old(self).widget_state
            }),
            final(self).widget_state.text_registrations@ == old(
                self,
            ).widget_state.text_registrations@.push(old(self).widget_state.id),
    {
        let id = self.widget_state.id;
        self.widget_state.text_registrations.push(id);
    }

    /// Marks this widget as a portal: a scroll or virtualization boundary.
    pub fn register_as_portal(&mut self)
        requires
            old(self).is_init,
        ensures
            *final(self) == (LifeCycleCtx { widget_state: final(self).widget_state, ..*old(self) }),
            final(self).widget_state == (WidgetState {
                is_portal: true,
                ..old(self).widget_state
            }),
    {
        self.widget_state.is_portal = true;
    }
}

impl LayoutCtx {
    /// Sets explicit paint insets for this widget; negative sides are
    /// clamped to zero, so the paint rectangle keeps containing the layout
    /// rectangle.
    pub fn set_paint_insets(&mut self, insets: Insets)
        requires
            old(self).is_init,
        ensures
            *final(self) == (LayoutCtx { widget_state: final(self).widget_state, ..*old(self) }),
            final(self).widget_state == (WidgetState {
                paint_insets: crate::geom::insets_clamp_nonneg(insets),
                ..old(self).widget_state
            }),
    {
        self.widget_state.paint_insets = insets.nonnegative();
    }

    /// Sets the distance from the bottom of the widget to its text
    /// baseline.
    pub fn set_baseline_offset(&mut self, baseline: i64)
        requires
            old(self).is_init,
        ensures
            *final(self) == (LayoutCtx { widget_state: final(self).widget_state, ..*old(self) }),
            final(self).widget_state == (WidgetState {
                baseline_offset: baseline,
                ..old(self).widget_state
            }),
    {
        self.widget_state.baseline_offset = baseline;
    }

    /// Places a child at `origin` in this widget's coordinate space.
    ///
    /// The child's paint rectangle joins this widget's accumulated paint
    /// rectangle, and the child's hot flag is recomputed against its new
    /// layout rectangle: the child ends hot exactly when the pointer
    /// position is known and lies within that rectangle. If the flag
    /// changed, the child's record is merged into this widget's, so the
    /// change reaches the parent before the call returns.
    #[verifier::rlimit(100)]
    #[verifier::spinoff_prover]
    pub fn place_child(&mut self, child: &mut WidgetState, origin: Point)
        requires
            old(self).is_init,
        ensures
            place_child_post(*old(self), *old(child), origin, *final(self), *final(child)),
    {
        let ghost c = placed(*old(child), origin, self.mouse_pos);
        let ghost p = place_parent_pre(self.widget_state, c);
        child.origin = origin;
        child.is_expecting_place_child_call = false;
        let child_paint = child.paint_rect();
        self.widget_state.local_paint_rect = self.widget_state.local_paint_rect.union(
            &child_paint,
        );
        let changed = child.update_hot_state(self.mouse_pos);
        proof {
            assert(*child == c) by {
                reveal(placed);
            }
            assert(self.widget_state == p) by {
                reveal(place_parent_pre);
            }
        }
        if changed {
            self.widget_state.merge_up(child);
        }
    }
}


/// Law: placing a child under a fixed pointer position leaves the child hot
/// exactly when the pointer lies within the child's post-placement layout
/// rectangle; and whenever that flag changed, the parent's record has
/// absorbed the child's by the time the placement returns.
pub proof fn lemma_place_child_hot(
    p0: LayoutCtx,
    c0: WidgetState,
    origin: Point,
    p1: LayoutCtx,
    c1: WidgetState,
)
    requires
        place_child_post(p0, c0, origin, p1, c1),
    ensures
        c1.is_hot == (p0.mouse_pos matches Some(pt) && rect_contains_pt(
            rect_from_origin_size(origin, c0.size),
            pt,
        )),
        c1.is_hot != c0.is_hot ==> merge_parent_post(
            place_parent_pre(p0.widget_state, placed(c0, origin, p0.mouse_pos)),
            placed(c0, origin, p0.mouse_pos),
            p1.widget_state,
        ),
{
    reveal(placed);
}

} // verus!
