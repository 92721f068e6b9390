//! The shared pass state: one instance per tree traversal.
//!
//! It owns the traversal-global resources — the outbound command and action
//! queues, the live-timer table, the optional deterministic timer source and
//! the window identity — and provides the only legal way to submit commands
//! and actions and to request timers.

use vstd::prelude::*;

use std::collections::HashMap;

use crate::command::{Action, Command, Target, TimerToken, WidgetId, WindowId};
use crate::geom::Point;
use crate::mock_timer::{mock_add_post, mock_wf, MockTimerQueue};

verus! {

broadcast use vstd::std_specs::hash::group_hash_axioms;

/// State shared between the contexts of every widget visited in one pass.
/// It lives for the duration of the pass; the host run loop drains the
/// queues after the pass completes.
pub struct GlobalPassCtx {
    /// Commands submitted this pass, in submission order.
    pub command_queue: Vec<Command>,
    /// Actions submitted this pass, each with the widget that raised it and
    /// the window, in submission order.
    pub action_queue: Vec<(Action, WidgetId, WindowId)>,
    /// Which widget requested each live timer, keyed by token. Insert-only
    /// during a pass.
    pub timers: HashMap<u64, WidgetId>,
    /// The deterministic timer source, installed for testing in place of
    /// the platform timer.
    pub mock_timer_queue: Option<MockTimerQueue>,
    /// The window this pass runs in.
    pub window_id: WindowId,
    /// The widget holding focus, read-only during the pass.
    pub focus_widget: Option<WidgetId>,
    /// Origin of the window's content area on the screen, as reported by
    /// the platform shell when the pass began.
    pub screen_origin: Point,
}

/// Every key of the timer table was issued by the deterministic source, so
/// it is below the source's next token.
pub open spec fn global_wf(g: GlobalPassCtx) -> bool {
    g.mock_timer_queue matches Some(q) ==> {
        &&& mock_wf(q)
        &&& forall|k: u64| g.timers@.dom().contains(k) ==> k < q.next_token
    }
}

/// What requesting a timer for `widget` leaves behind: a token never handed
/// out before, now recorded against `widget`; everything else stands.
pub open spec fn request_timer_post(
    g0: GlobalPassCtx,
    widget: WidgetId,
    duration_ms: u64,
    token: TimerToken,
    g1: GlobalPassCtx,
) -> bool {
    &&& !g0.timers@.contains_key(token.0)
    &&& g1.timers@ == g0.timers@.insert(token.0, widget)
    &&& g1.command_queue@ == g0.command_queue@
    &&& g1.action_queue@ == g0.action_queue@
    &&& g1.window_id == g0.window_id
    &&& g1.focus_widget == g0.focus_widget
    &&& g1.screen_origin == g0.screen_origin
    &&& g0.mock_timer_queue matches Some(q0) && g1.mock_timer_queue matches Some(q1)
        && mock_add_post(q0, duration_ms, token, q1)
}

impl GlobalPassCtx {
    /// A fresh pass state with empty queues and no live timers.
    pub fn new(
        window_id: WindowId,
        focus_widget: Option<WidgetId>,
        screen_origin: Point,
        mock_timer_queue: Option<MockTimerQueue>,
    ) -> (g: GlobalPassCtx)
        requires
            mock_timer_queue matches Some(q) ==> mock_wf(q),
        ensures
            g.command_queue@.len() == 0,
            g.action_queue@.len() == 0,
            g.timers@ == Map::<u64, WidgetId>::empty(),
            g.mock_timer_queue == mock_timer_queue,
            g.window_id == window_id,
            g.focus_widget == focus_widget,
            g.screen_origin == screen_origin,
            global_wf(g),
    {
        let g = GlobalPassCtx {
            command_queue: Vec::new(),
            action_queue: Vec::new(),
            timers: HashMap::new(),
            mock_timer_queue,
            window_id,
            focus_widget,
            screen_origin,
        };
        proof {
            assert(g.timers@ =~= Map::<u64, WidgetId>::empty());
        }
        g
    }

    /// Appends `command` to the command queue; a command without an explicit
    /// target is delivered to this window. The host drains the queue in
    /// submission order after the pass.
    pub fn submit_command(&mut self, command: Command)
        ensures
            *final(self) == (GlobalPassCtx {
                command_queue: final(self).command_queue,
                ..*old(self)
            }),
            final(self).command_queue@ == old(self).command_queue@.push(
                crate::command::command_default_to(command, Target::Window(old(self).window_id)),
            ),
    {
        let w = self.window_id;
        let defaulted = command.default_to(Target::Window(w));
        self.command_queue.push(defaulted);
    }

    /// Appends `(action, widget_id, window_id)` to the action queue,
    /// preserving submission order.
    pub fn submit_action(&mut self, action: Action, widget_id: WidgetId)
        ensures
            *final(self) == (GlobalPassCtx {
                action_queue: final(self).action_queue,
                ..*old(self)
            }),
            final(self).action_queue@ == old(self).action_queue@.push(
                (action, widget_id, old(self).window_id),
            ),
    {
        let w = self.window_id;
        self.action_queue.push((action, widget_id, w));
    }

    /// Requests a timer from the deterministic timer source and records the
    /// returned token against `widget_id` before returning it. The token is
    /// distinct from every token this pass state has handed out.
    ///
    /// Without a deterministic source the platform schedules the timer: the
    /// driver obtains the token from the shell and records it through
    /// [`GlobalPassCtx::record_timer`] instead.
    pub fn request_timer(&mut self, duration_ms: u64, widget_id: WidgetId) -> (token: TimerToken)
        requires
            global_wf(*old(self)),
            old(self).mock_timer_queue matches Some(q) && {
                &&& q.current_time + duration_ms <= u64::MAX
                &&& q.next_token < u64::MAX
            },
        ensures
            global_wf(*final(self)),
            request_timer_post(*old(self), widget_id, duration_ms, token, *final(self)),
    {
        let token = match &mut self.mock_timer_queue {
            Some(q) => q.add_timer(duration_ms),
            None => TimerToken(0),
        };
        self.timers.insert(token.0, widget_id);
        token
    }

    /// Records a platform-issued timer token against `widget_id`. The
    /// driver must hand in each token at most once; with a deterministic
    /// timer source installed, tokens come from
    /// [`GlobalPassCtx::request_timer`] instead.
    pub fn record_timer(&mut self, token: TimerToken, widget_id: WidgetId)
        requires
            global_wf(*old(self)),
            old(self).mock_timer_queue is None,
            !old(self).timers@.contains_key(token.0),
        ensures
            global_wf(*final(self)),
            *final(self) == (GlobalPassCtx { timers: final(self).timers, ..*old(self) }),
            final(self).timers@ == old(self).timers@.insert(token.0, widget_id),
    {
        self.timers.insert(token.0, widget_id);
    }

    /// The widget that requested the timer with this token, or `None` for a
    /// token this pass state never handed out: firing such a token is not
    /// reported to any widget.
    pub fn widget_for_token(&self, token: TimerToken) -> (r: Option<WidgetId>)
        ensures
            r == (if self.timers@.contains_key(token.0) {
                Some(self.timers@[token.0])
            } else {
                None::<WidgetId>
            }),
    {
        match self.timers.get(&token.0) {
            Some(w) => Some(*w),
            None => None,
        }
    }
}

/// Law: two timer requests on the same pass state, one after the other,
/// hand out distinct tokens; with each request recorded before the next,
/// every token issued within one pass is distinct from every other.
pub proof fn lemma_timer_tokens_distinct(
    g0: GlobalPassCtx,
    w1: WidgetId,
    d1: u64,
    t1: TimerToken,
    g1: GlobalPassCtx,
    w2: WidgetId,
    d2: u64,
    t2: TimerToken,
    g2: GlobalPassCtx,
)
    requires
        request_timer_post(g0, w1, d1, t1, g1),
        request_timer_post(g1, w2, d2, t2, g2),
    ensures
        t1 != t2,
{
    assert(g1.timers@.contains_key(t1.0));
    assert(!g1.timers@.contains_key(t2.0));
}

} // verus!
