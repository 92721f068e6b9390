use widget_cruncher::command::{TimerToken, WidgetId, WindowId};
use widget_cruncher::contexts::{EventCtx, LifeCycleCtx};
use widget_cruncher::geom::Point;
use widget_cruncher::global::GlobalPassCtx;
use widget_cruncher::mock_timer::MockTimerQueue;

fn fresh_global() -> GlobalPassCtx {
    GlobalPassCtx::new(
        WindowId(1),
        None,
        Point { x: 0, y: 0 },
        Some(MockTimerQueue::new()),
    )
}

#[test]
fn basic_timer() {
    let mut timer_handled = false;
    let widget = widget_cruncher::widget_state::WidgetState::new(WidgetId(7));

    // Lifecycle pass: on being added, the widget requests a three-second
    // timer and keeps the token.
    let mut ctx = LifeCycleCtx::new(fresh_global(), widget);
    ctx.init();
    let token = ctx.request_timer(3_000);
    let mut global = ctx.global;
    let widget = ctx.widget_state;

    assert_eq!(timer_handled, false);

    // The harness moves the virtual clock forward by one second: nothing is
    // due yet, so no timer event is delivered.
    let fired = global.mock_timer_queue.as_mut().unwrap().advance(1_000);
    for t in &fired {
        if let Some(id) = global.widget_for_token(*t) {
            assert_eq!(id, WidgetId(7));
            let mut ev = EventCtx::new(global, widget.clone(), true);
            ev.init();
            if *t == token {
                timer_handled = true;
            }
            global = ev.global;
        }
    }
    assert_eq!(timer_handled, false);

    // Two more seconds reach the deadline: the timer fires once, carrying
    // the original token, and the widget handles it.
    let fired = global.mock_timer_queue.as_mut().unwrap().advance(2_000);
    for t in &fired {
        if let Some(id) = global.widget_for_token(*t) {
            assert_eq!(id, WidgetId(7));
            let mut ev = EventCtx::new(global, widget.clone(), true);
            ev.init();
            if *t == token {
                timer_handled = true;
            }
            global = ev.global;
        }
    }
    assert_eq!(timer_handled, true);
}

#[test]
fn mock_timer_fires_exactly_once_at_cumulative_deadline() {
    let mut q = MockTimerQueue::new();
    let token = q.add_timer(3_000);
    let fired = q.advance(1_000);
    assert!(fired.is_empty());
    let fired = q.advance(2_000);
    assert_eq!(fired, vec![token]);
    let fired = q.advance(10_000);
    assert!(fired.is_empty());
}

#[test]
fn timer_tokens_are_pairwise_distinct() {
    let mut global = fresh_global();
    let t1 = global.request_timer(1_000, WidgetId(1));
    let t2 = global.request_timer(1_000, WidgetId(2));
    let t3 = global.request_timer(500, WidgetId(1));
    assert_ne!(t1, t2);
    assert_ne!(t1, t3);
    assert_ne!(t2, t3);
}

#[test]
fn unknown_timer_token_is_reported_to_no_widget() {
    let mut global = fresh_global();
    let t1 = global.request_timer(1_000, WidgetId(1));
    assert_eq!(global.widget_for_token(t1), Some(WidgetId(1)));
    assert_eq!(global.widget_for_token(TimerToken(999)), None);
}
