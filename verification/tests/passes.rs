use widget_cruncher::command::{
    Action, Command, CommandPayload, ImeInvalidation, Target, WidgetId, WindowId, INVALIDATE_IME,
    NEW_WINDOW,
};
use widget_cruncher::contexts::{EventCtx, LayoutCtx, LifeCycleCtx, WidgetCtx};
use widget_cruncher::geom::{Insets, Point, Rect, Region, Size};
use widget_cruncher::global::GlobalPassCtx;
use widget_cruncher::widget_state::{CursorChange, CursorIcon, FocusChange, WidgetState};

fn fresh_global() -> GlobalPassCtx {
    GlobalPassCtx::new(WindowId(1), None, Point { x: 100, y: 200 }, None)
}

fn sized(id: u64, w: i64, h: i64) -> WidgetState {
    let mut ws = WidgetState::new(WidgetId(id));
    ws.size = Size { width: w, height: h };
    ws
}

#[test]
fn place_child_hot_follows_pointer() {
    // The pointer sits at (15, 15). A 10x10 child placed at (10, 10) covers
    // it; moved to (100, 100) it does not.
    let parent = sized(1, 200, 200);
    let mut ctx = LayoutCtx::new(fresh_global(), parent, Some(Point { x: 15, y: 15 }));
    ctx.init();

    let mut child = sized(2, 10, 10);
    assert!(child.is_expecting_place_child_call);

    ctx.place_child(&mut child, Point { x: 10, y: 10 });
    assert!(child.is_hot);
    assert!(!child.is_expecting_place_child_call);
    assert_eq!(child.origin, Point { x: 10, y: 10 });

    ctx.place_child(&mut child, Point { x: 100, y: 100 });
    assert!(!child.is_hot);
}

#[test]
fn place_child_merges_hot_change_into_parent() {
    // The child becomes hot through placement; its pending dirtiness and
    // focus intent reach the parent's record in the same call.
    let parent = sized(1, 200, 200);
    let mut ctx = LayoutCtx::new(fresh_global(), parent, Some(Point { x: 15, y: 15 }));
    ctx.init();

    let mut child = sized(2, 10, 10);
    child.needs_layout = true;
    child.request_anim = true;
    child.request_focus = Some(FocusChange::Next);

    ctx.place_child(&mut child, Point { x: 10, y: 10 });
    assert!(child.is_hot);
    assert!(ctx.widget_state.needs_layout);
    assert!(ctx.widget_state.request_anim);
    assert_eq!(ctx.widget_state.request_focus, Some(FocusChange::Next));
    assert_eq!(child.request_focus, None);
}

#[test]
fn place_child_without_pointer_leaves_nothing_hot() {
    let parent = sized(1, 200, 200);
    let mut ctx = LayoutCtx::new(fresh_global(), parent, None);
    ctx.init();
    let mut child = sized(2, 10, 10);
    ctx.place_child(&mut child, Point { x: 0, y: 0 });
    assert!(!child.is_hot);
}

#[test]
fn place_child_grows_parent_paint_rect() {
    let parent = sized(1, 50, 50);
    let mut ctx = LayoutCtx::new(fresh_global(), parent, None);
    ctx.init();
    let mut child = sized(2, 10, 10);
    ctx.place_child(&mut child, Point { x: 40, y: 40 });
    assert_eq!(
        ctx.widget_state.local_paint_rect,
        Rect { x0: 0, y0: 0, x1: 50, y1: 50 }
    );
}

#[test]
fn effective_disabled_follows_explicit_and_ancestors() {
    // A three-widget chain: the root explicitly disabled, the middle not,
    // the leaf not. With the inherited field kept consistent, the middle
    // and the leaf are effectively disabled through the root alone.
    let mut root = sized(1, 10, 10);
    root.is_explicitly_disabled = true;
    let mut middle = sized(2, 10, 10);
    middle.ancestor_disabled = root.is_disabled();
    let mut leaf = sized(3, 10, 10);
    leaf.ancestor_disabled = middle.is_disabled();

    assert!(root.is_disabled());
    assert!(middle.is_disabled());
    assert!(leaf.is_disabled());

    // With no explicit disable anywhere, nothing is disabled.
    let root2 = sized(4, 10, 10);
    let mut middle2 = sized(5, 10, 10);
    middle2.ancestor_disabled = root2.is_disabled();
    assert!(!root2.is_disabled());
    assert!(!middle2.is_disabled());

    // An explicitly disabled leaf is disabled even under enabled ancestors.
    let mut leaf2 = sized(6, 10, 10);
    leaf2.ancestor_disabled = middle2.is_disabled();
    leaf2.is_explicitly_disabled = true;
    assert!(leaf2.is_disabled());
}

#[test]
fn focus_intent_of_widget_visited_last_wins() {
    // Widgets A then B both ask for focus in the same pass; after the
    // parent has absorbed both records in visit order, B's intent stands.
    let global = fresh_global();

    let a = sized(10, 10, 10);
    let mut ctx_a = EventCtx::new(global, a, false);
    ctx_a.init();
    ctx_a.request_focus();
    let global = ctx_a.global;
    let mut a = ctx_a.widget_state;

    let b = sized(11, 10, 10);
    let mut ctx_b = EventCtx::new(global, b, false);
    ctx_b.init();
    ctx_b.request_focus();
    let mut b = ctx_b.widget_state;

    let mut parent = sized(1, 100, 100);
    parent.merge_up(&mut a);
    parent.merge_up(&mut b);
    assert_eq!(parent.request_focus, Some(FocusChange::Focus(WidgetId(11))));
}

#[test]
fn focus_change_needs_focus_in_subtree() {
    let mut ctx = EventCtx::new(fresh_global(), sized(1, 10, 10), false);
    ctx.init();
    ctx.focus_next();
    assert_eq!(ctx.widget_state.request_focus, None);

    ctx.widget_state.has_focus = true;
    ctx.focus_next();
    assert_eq!(ctx.widget_state.request_focus, Some(FocusChange::Next));
    ctx.focus_prev();
    assert_eq!(ctx.widget_state.request_focus, Some(FocusChange::Previous));
    ctx.resign_focus();
    assert_eq!(ctx.widget_state.request_focus, Some(FocusChange::Resign));
}

#[test]
fn request_paint_rect_joins_invalid_region() {
    // The widget's layout rectangle is tiny; the requested sub-rectangle
    // still lands in the accumulated invalid region unchanged.
    let mut ctx = WidgetCtx::new(fresh_global(), sized(1, 2, 2));
    ctx.init();
    let wanted = Rect { x0: 10, y0: 10, x1: 20, y1: 20 };
    ctx.request_paint_rect(wanted);
    assert!(ctx.widget_state.invalid.covers(&wanted));
    assert_eq!(ctx.widget_state.invalid.rects, vec![wanted]);
}

#[test]
fn request_paint_covers_whole_paint_rect() {
    let mut ws = sized(1, 30, 20);
    ws.paint_insets = Insets { x0: 5, y0: 5, x1: 5, y1: 5 };
    let mut ctx = WidgetCtx::new(fresh_global(), ws);
    ctx.init();
    ctx.request_paint();
    assert_eq!(
        ctx.widget_state.invalid.rects,
        vec![Rect { x0: -5, y0: -5, x1: 35, y1: 25 }]
    );
}

#[test]
fn set_stashed_signals_children_changed_and_layout() {
    let mut ctx = LifeCycleCtx::new(fresh_global(), sized(1, 100, 100));
    ctx.init();
    let mut child = sized(2, 10, 10);
    ctx.set_stashed(&mut child, true);
    assert!(child.is_stashed);
    assert!(ctx.widget_state.children_changed);
    assert!(ctx.widget_state.needs_layout);
    assert!(ctx.widget_state.update_focus_chain);
    ctx.set_stashed(&mut child, false);
    assert!(!child.is_stashed);
}

#[test]
fn commands_default_to_the_window_and_keep_order() {
    let mut ctx = EventCtx::new(fresh_global(), sized(1, 10, 10), true);
    ctx.init();
    ctx.submit_command(Command::new(40, CommandPayload::Value(4), Target::Auto));
    ctx.submit_command(Command::new(41, CommandPayload::Empty, Target::Widget(WidgetId(9))));
    ctx.submit_action(Action(77));
    let q = &ctx.global.command_queue;
    assert_eq!(q.len(), 2);
    assert_eq!(q[0].selector, 40);
    assert_eq!(q[0].target, Target::Window(WindowId(1)));
    assert_eq!(q[1].target, Target::Widget(WidgetId(9)));
    assert_eq!(
        ctx.global.action_queue,
        vec![(Action(77), WidgetId(1), WindowId(1))]
    );
}

#[test]
fn notifications_carry_the_source_widget() {
    let mut ctx = EventCtx::new(fresh_global(), sized(5, 10, 10), false);
    ctx.init();
    ctx.submit_notification(Command::new(50, CommandPayload::Value(8), Target::Global));
    assert_eq!(ctx.notifications.len(), 1);
    assert_eq!(ctx.notifications[0].selector, 50);
    assert_eq!(ctx.notifications[0].payload, CommandPayload::Value(8));
    assert_eq!(ctx.notifications[0].source, WidgetId(5));
}

#[test]
fn new_window_and_ime_invalidation_build_their_commands() {
    let mut ctx = EventCtx::new(fresh_global(), sized(5, 10, 10), false);
    ctx.init();
    ctx.new_window(3);
    ctx.invalidate_text_input(ImeInvalidation::SelectionChanged);
    let q = &ctx.global.command_queue;
    assert_eq!(q[0].selector, NEW_WINDOW);
    assert_eq!(q[0].payload, CommandPayload::NewWindowDesc(3));
    assert_eq!(q[0].target, Target::Global);
    assert_eq!(q[1].selector, INVALIDATE_IME);
    assert_eq!(
        q[1].payload,
        CommandPayload::ImeInvalidate {
            widget: WidgetId(5),
            event: ImeInvalidation::SelectionChanged
        }
    );
    assert_eq!(q[1].target, Target::Window(WindowId(1)));
}

#[test]
fn coordinate_conversions_add_origins() {
    let mut ws = sized(1, 10, 10);
    ws.origin = Point { x: 3, y: 4 };
    ws.parent_window_origin = Point { x: 30, y: 40 };
    let mut ctx = WidgetCtx::new(fresh_global(), ws);
    ctx.init();
    assert_eq!(ctx.window_origin(), Point { x: 33, y: 44 });
    assert_eq!(ctx.to_window(Point { x: 1, y: 2 }), Point { x: 34, y: 46 });
    // The pass state reports the window content area at (100, 200).
    assert_eq!(ctx.to_screen(Point { x: 1, y: 2 }), Point { x: 134, y: 246 });
}

#[test]
fn cursor_preferences_and_other_record_flags() {
    let mut ctx = EventCtx::new(fresh_global(), sized(1, 10, 10), false);
    ctx.init();
    ctx.set_cursor(CursorIcon::IBeam);
    assert_eq!(ctx.widget_state.cursor_change, CursorChange::Chosen(CursorIcon::IBeam));
    ctx.override_cursor(CursorIcon::NotAllowed);
    assert_eq!(
        ctx.widget_state.cursor_change,
        CursorChange::Override(CursorIcon::NotAllowed)
    );
    ctx.clear_cursor();
    assert_eq!(ctx.widget_state.cursor_change, CursorChange::Default);

    ctx.set_active(true);
    assert!(ctx.widget_state.is_active);
    ctx.set_handled();
    assert!(ctx.is_handled());
    ctx.request_pan_to_this();
    assert_eq!(ctx.request_pan_to_child, Some(Rect { x0: 0, y0: 0, x1: 10, y1: 10 }));
    assert!(!ctx.widget_state.request_anim);
    ctx.request_anim_frame();
    assert!(ctx.widget_state.request_anim);
    ctx.set_disabled(true);
    assert!(ctx.widget_state.is_explicitly_disabled_new);
    assert!(!ctx.widget_state.is_explicitly_disabled);
}

#[test]
fn lifecycle_registrations_reach_the_record() {
    let mut ctx = LifeCycleCtx::new(fresh_global(), sized(9, 10, 10), );
    ctx.init();
    ctx.register_child(WidgetId(21));
    ctx.register_child(WidgetId(22));
    assert_eq!(ctx.widget_state.children, vec![WidgetId(21), WidgetId(22)]);
    ctx.register_for_focus();
    assert_eq!(ctx.widget_state.focus_chain, vec![WidgetId(9)]);
    ctx.register_text_input();
    assert_eq!(ctx.widget_state.text_registrations, vec![WidgetId(9)]);
    assert!(!ctx.widget_state.is_portal);
    ctx.register_as_portal();
    assert!(ctx.widget_state.is_portal);
}

#[test]
fn merge_up_translates_the_child_invalid_region() {
    let mut parent = sized(1, 100, 100);
    let mut child = sized(2, 10, 10);
    child.origin = Point { x: 30, y: 40 };
    child.invalid = Region::single(Rect { x0: 1, y0: 1, x1: 2, y1: 2 });
    parent.merge_up(&mut child);
    assert_eq!(parent.invalid.rects, vec![Rect { x0: 31, y0: 41, x1: 32, y1: 42 }]);
    assert!(child.invalid.rects.is_empty());
}

#[test]
fn set_paint_insets_clamps_negative_sides() {
    let mut ctx = LayoutCtx::new(fresh_global(), sized(1, 10, 10), None);
    ctx.init();
    ctx.set_paint_insets(Insets { x0: -3, y0: 2, x1: 4, y1: -1 });
    assert_eq!(ctx.widget_state.paint_insets, Insets { x0: 0, y0: 2, x1: 4, y1: 0 });
    ctx.set_baseline_offset(6);
    assert_eq!(ctx.widget_state.baseline_offset, 6);
    assert_eq!(
        ctx.widget_state.paint_rect(),
        Rect { x0: 0, y0: -2, x1: 14, y1: 10 }
    );
}

#[test]
fn init_activates_a_context_once() {
    let mut ctx = EventCtx::new(fresh_global(), sized(1, 10, 10), false);
    assert!(!ctx.is_init);
    ctx.init();
    assert!(ctx.is_init);
    assert!(!ctx.is_handled());

    let mut ws = sized(2, 10, 10);
    ctx.skip_child(&mut ws);
    assert!(ws.was_visited);
    assert_eq!(ctx.widget_id(), WidgetId(1));
    assert_eq!(ctx.window_id(), WindowId(1));
}

#[test]
fn focus_queries_read_the_pass_state() {
    let global = GlobalPassCtx::new(WindowId(1), Some(WidgetId(4)), Point { x: 0, y: 0 }, None);
    let mut ws = sized(4, 10, 10);
    ws.has_focus = true;
    let mut ctx = EventCtx::new(global, ws, false);
    ctx.init();
    assert!(ctx.is_focused());
    assert!(ctx.has_focus());
    assert!(!ctx.is_hot());
    assert!(!ctx.is_active());
    assert!(!ctx.is_disabled());
    assert!(!ctx.is_stashed());
    assert_eq!(ctx.size(), Size { width: 10, height: 10 });
}
