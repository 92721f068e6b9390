//! The per-widget mutable record and the merge-up rule.
//!
//! One record exists per widget, owned by the tree driver's wrapper around
//! the widget, and is mutated only while a context referencing it is active.
//! After a parent acts on a child, [`WidgetState::merge_up`] folds the
//! child's accumulated changes into the parent's record, so dirtiness and
//! interaction state propagate toward the root without every ancestor
//! re-querying every descendant.

use vstd::prelude::*;

use crate::command::WidgetId;
use crate::geom::{
    insets_nonneg, rect_contains_pt, rect_contains_rect, rect_expand,
    rect_from_origin_size, rect_translate, Insets, Point, Rect, Region, Size,
};

verus! {

/// The cursor icons a widget can ask for.
#[derive(Clone, Copy, PartialEq, Eq, Structural, Debug)]
pub enum CursorIcon {
    Arrow,
    IBeam,
    Crosshair,
    OpenHand,
    NotAllowed,
    ResizeLeftRight,
    ResizeUpDown,
}

/// A widget's pending cursor preference.
#[derive(Clone, Copy, PartialEq, Eq, Structural, Debug)]
pub enum CursorChange {
    /// No preference; the platform default applies.
    Default,
    /// Use this cursor, unless a descendant also sets one.
    Chosen(CursorIcon),
    /// Use this cursor even if a descendant sets one.
    Override(CursorIcon),
}

/// A focus-change intent recorded during a pass and resolved by the driver
/// after the pass.
#[derive(Clone, Copy, PartialEq, Eq, Structural, Debug)]
pub enum FocusChange {
    /// Move focus to this widget.
    Focus(WidgetId),
    /// Move focus to the next widget in the focus chain.
    Next,
    /// Move focus to the previous widget in the focus chain.
    Previous,
    /// Give focus up.
    Resign,
}

/// All transient and persistent state one widget accumulates during and
/// between passes.
#[derive(Clone, Debug)]
pub struct WidgetState {
    /// Stable, globally unique identity.
    pub id: WidgetId,
    /// Top-left corner, relative to the parent.
    pub origin: Point,
    /// Origin of the parent in window coordinates.
    pub parent_window_origin: Point,
    /// Extent determined on the previous layout pass.
    pub size: Size,
    /// How far painting may extend past the layout box, never negative.
    pub paint_insets: Insets,
    /// Distance from the bottom of the layout box to the text baseline.
    pub baseline_offset: i64,
    /// Pointer currently within the layout rectangle.
    pub is_hot: bool,
    /// Holds implicit pointer capture.
    pub is_active: bool,
    /// Explicit disabled state, as last committed by the driver.
    pub is_explicitly_disabled: bool,
    /// Explicit disabled state as requested this pass, not yet committed.
    pub is_explicitly_disabled_new: bool,
    /// Some ancestor is effectively disabled.
    pub ancestor_disabled: bool,
    /// Present in the tree but excluded from layout, paint and hit-testing.
    pub is_stashed: bool,
    /// Acts as a scroll or virtualization boundary.
    pub is_portal: bool,
    /// The parent has not yet placed this widget in the current layout pass.
    pub is_expecting_place_child_call: bool,
    /// Marked as visited in the current pass without being recursed into.
    pub was_visited: bool,
    /// Accumulated invalid paint region, in local coordinates.
    pub invalid: Region,
    /// A layout pass is needed.
    pub needs_layout: bool,
    /// The set of children changed this pass.
    pub children_changed: bool,
    /// The focus chain must be rebuilt.
    pub update_focus_chain: bool,
    /// An animation frame is requested.
    pub request_anim: bool,
    /// This widget or a descendant holds focus.
    pub has_focus: bool,
    /// Pending focus-change intent, at most one per widget per pass.
    pub request_focus: Option<FocusChange>,
    /// This widget's contribution to the focus chain.
    pub focus_chain: Vec<WidgetId>,
    /// Ids of the registered children.
    pub children: Vec<WidgetId>,
    /// Widgets that registered a text-input region, to be handed to the host.
    pub text_registrations: Vec<WidgetId>,
    /// Pending cursor preference.
    pub cursor_change: CursorChange,
    /// Union of this widget's and its placed children's paint rectangles.
    pub local_paint_rect: Rect,
}

/// The layout rectangle: the widget's box in its parent's coordinates.
pub open spec fn layout_rect_spec(w: WidgetState) -> Rect {
    rect_from_origin_size(w.origin, w.size)
}

/// The paint rectangle: the layout rectangle grown by the paint insets.
pub open spec fn paint_rect_spec(w: WidgetState) -> Rect {
    rect_expand(layout_rect_spec(w), w.paint_insets)
}

/// Effectively disabled: explicitly disabled or below a disabled ancestor.
pub open spec fn is_disabled_spec(w: WidgetState) -> bool {
    w.is_explicitly_disabled || w.ancestor_disabled
}

/// Hot iff the pointer position is known and lies within the layout
/// rectangle. Occlusion and stacking order are deliberately ignored: a
/// widget behind another can be hot.
pub open spec fn hot_spec(w: WidgetState, mouse_pos: Option<Point>) -> bool {
    mouse_pos matches Some(p) && rect_contains_pt(layout_rect_spec(w), p)
}

/// Well-formedness: sizes and paint insets are never negative, so the paint
/// rectangle always contains the layout rectangle.
pub open spec fn ws_wf(w: WidgetState) -> bool {
    &&& w.size.width >= 0
    &&& w.size.height >= 0
    &&& insets_nonneg(w.paint_insets)
}

/// Every rectangle of `s`, shifted by `d`.
pub open spec fn translate_all(s: Seq<Rect>, d: Point) -> Seq<Rect> {
    s.map_values(|r: Rect| rect_translate(r, d))
}

/// Builds the list of every rectangle of `rects` shifted by `d`.
pub fn translate_rects(rects: &Vec<Rect>, d: Point) -> (moved: Vec<Rect>)
    ensures
        moved@ == translate_all(rects@, d),
{
    let mut moved: Vec<Rect> = Vec::new();
    let n = rects.len();
    let mut i: usize = 0;
    while i < n
        invariant
            n == rects@.len(),
            0 <= i <= n,
            moved@ == translate_all(rects@.take(i as int), d),
        decreases n - i,
    {
        moved.push(rects[i].translate(d));
        proof {
            assert(moved@ =~= translate_all(rects@.take(i + 1 as int), d));
        }
        i = i + 1;
    }
    proof {
        assert(rects@.take(n as int) =~= rects@);
    }
    moved
}

/// The fields of the record that merging a child leaves untouched on the
/// parent.
pub open spec fn merge_untouched(a: WidgetState, b: WidgetState) -> bool {
    &&& b.id == a.id
    &&& b.origin == a.origin
    &&& b.parent_window_origin == a.parent_window_origin
    &&& b.size == a.size
    &&& b.paint_insets == a.paint_insets
    &&& b.baseline_offset == a.baseline_offset
    &&& b.is_hot == a.is_hot
    &&& b.is_active == a.is_active
    &&& b.is_explicitly_disabled == a.is_explicitly_disabled
    &&& b.is_explicitly_disabled_new == a.is_explicitly_disabled_new
    &&& b.ancestor_disabled == a.ancestor_disabled
    &&& b.is_stashed == a.is_stashed
    &&& b.is_portal == a.is_portal
    &&& b.is_expecting_place_child_call == a.is_expecting_place_child_call
    &&& b.was_visited == a.was_visited
    &&& b.focus_chain@ == a.focus_chain@
    &&& b.children@ == a.children@
    &&& b.cursor_change == a.cursor_change
    &&& b.local_paint_rect == a.local_paint_rect
}

/// Field-for-field equality of two records, with lists compared by their
/// contents.
pub open spec fn ws_eq(a: WidgetState, b: WidgetState) -> bool {
    &&& merge_untouched(a, b)
    &&& b.needs_layout == a.needs_layout
    &&& b.children_changed == a.children_changed
    &&& b.update_focus_chain == a.update_focus_chain
    &&& b.request_anim == a.request_anim
    &&& b.has_focus == a.has_focus
    &&& b.request_focus == a.request_focus
    &&& b.invalid.rects@ == a.invalid.rects@
    &&& b.text_registrations@ == a.text_registrations@
}

/// What merging child `c` into parent `p` leaves in the parent `r`:
/// dirtiness flags are or-ed in, the child's invalid region arrives
/// translated into the parent's coordinates, a focus intent of the child
/// overrides the parent's (so the intent of the widget visited last wins),
/// and text-input registrations are appended.
pub open spec fn merge_parent_post(p: WidgetState, c: WidgetState, r: WidgetState) -> bool {
    &&& merge_untouched(p, r)
    &&& r.needs_layout == (p.needs_layout || c.needs_layout)
    &&& r.children_changed == (p.children_changed || c.children_changed)
    &&& r.update_focus_chain == (p.update_focus_chain || c.update_focus_chain)
    &&& r.request_anim == (p.request_anim || c.request_anim)
    &&& r.has_focus == (p.has_focus || c.has_focus)
    &&& r.request_focus == (if c.request_focus is Some {
        c.request_focus
    } else {
        p.request_focus
    })
    &&& r.invalid.rects@ == p.invalid.rects@ + translate_all(c.invalid.rects@, c.origin)
    &&& r.text_registrations@ == p.text_registrations@ + c.text_registrations@
}

/// What merging leaves in the child `r`: the moved state (invalid region,
/// focus intent, text registrations) is drained, everything else is kept.
pub open spec fn merge_child_post(c: WidgetState, r: WidgetState) -> bool {
    &&& merge_untouched(c, r)
    &&& r.needs_layout == c.needs_layout
    &&& r.children_changed == c.children_changed
    &&& r.update_focus_chain == c.update_focus_chain
    &&& r.request_anim == c.request_anim
    &&& r.has_focus == c.has_focus
    &&& r.invalid.rects@.len() == 0
    &&& r.request_focus is None
    &&& r.text_registrations@.len() == 0
}

impl WidgetState {
    /// A fresh record for widget `id`: zero geometry, no flags set, and
    /// awaiting its first placement by the parent.
    pub fn new(id: WidgetId) -> (w: WidgetState)
        ensures
            w.id == id,
            w.origin == (Point { x: 0, y: 0 }),
            w.parent_window_origin == (Point { x: 0, y: 0 }),
            w.size == (Size { width: 0, height: 0 }),
            w.paint_insets == (Insets { x0: 0, y0: 0, x1: 0, y1: 0 }),
            w.baseline_offset == 0,
            !w.is_hot,
            !w.is_active,
            !w.is_explicitly_disabled,
            !w.is_explicitly_disabled_new,
            !w.ancestor_disabled,
            !w.is_stashed,
            !w.is_portal,
            w.is_expecting_place_child_call,
            !w.was_visited,
            w.invalid.rects@.len() == 0,
            !w.needs_layout,
            !w.children_changed,
            !w.update_focus_chain,
            !w.request_anim,
            !w.has_focus,
            w.request_focus is None,
            w.focus_chain@.len() == 0,
            w.children@.len() == 0,
            w.text_registrations@.len() == 0,
            w.cursor_change == CursorChange::Default,
            w.local_paint_rect == (Rect { x0: 0, y0: 0, x1: 0, y1: 0 }),
            ws_wf(w),
    {
        WidgetState {
            id,
            origin: Point { x: 0, y: 0 },
            parent_window_origin: Point { x: 0, y: 0 },
            size: Size { width: 0, height: 0 },
            paint_insets: Insets { x0: 0, y0: 0, x1: 0, y1: 0 },
            baseline_offset: 0,
            is_hot: false,
            is_active: false,
            is_explicitly_disabled: false,
            is_explicitly_disabled_new: false,
            ancestor_disabled: false,
            is_stashed: false,
            is_portal: false,
            is_expecting_place_child_call: true,
            was_visited: false,
            invalid: Region::empty(),
            needs_layout: false,
            children_changed: false,
            update_focus_chain: false,
            request_anim: false,
            has_focus: false,
            request_focus: None,
            focus_chain: Vec::new(),
            children: Vec::new(),
            text_registrations: Vec::new(),
            cursor_change: CursorChange::Default,
            local_paint_rect: Rect { x0: 0, y0: 0, x1: 0, y1: 0 },
        }
    }

    /// The widget's box in its parent's coordinates.
    pub fn layout_rect(&self) -> (r: Rect)
        ensures
            r == layout_rect_spec(*self),
    {
        Rect::from_origin_size(self.origin, self.size)
    }

    /// The layout rectangle grown by the paint insets; everything the widget
    /// may draw lies within it.
    pub fn paint_rect(&self) -> (r: Rect)
        ensures
            r == paint_rect_spec(*self),
    {
        self.layout_rect().expand(self.paint_insets)
    }

    /// The widget's extent.
    pub fn size(&self) -> (s: Size)
        ensures
            s == self.size,
    {
        self.size
    }

    /// Effectively disabled: explicitly disabled, or below a disabled
    /// ancestor.
    pub fn is_disabled(&self) -> (r: bool)
        ensures
            r == is_disabled_spec(*self),
    {
        self.is_explicitly_disabled || self.ancestor_disabled
    }

    /// Recomputes the hot flag from the layout rectangle and the pointer
    /// position, and reports whether it changed. With no known pointer
    /// position the widget is not hot.
    #[verifier::rlimit(50)]
    pub fn update_hot_state(&mut self, mouse_pos: Option<Point>) -> (changed: bool)
        ensures
            *final(self) == (WidgetState { is_hot: hot_spec(*old(self), mouse_pos), ..*old(self) }),
            changed == (old(self).is_hot != final(self).is_hot),
    {
        let had_hot = self.is_hot;
        self.is_hot = match mouse_pos {
            Some(p) => self.layout_rect().contains_pt(p),
            None => false,
        };
        had_hot != self.is_hot
    }

    /// Folds the child's accumulated changes into this (parent) record:
    /// dirtiness flags are or-ed in, the child's invalid region is moved
    /// over translated by the child's origin, a focus intent of the child
    /// replaces the parent's, and text-input registrations move up.
    #[verifier::rlimit(100)]
    #[verifier::spinoff_prover]
    pub fn merge_up(&mut self, child: &mut WidgetState)
        ensures
            merge_parent_post(*old(self), *old(child), *final(self)),
            merge_child_post(*old(child), *final(child)),
    {
        self.needs_layout = self.needs_layout || child.needs_layout;
        self.children_changed = self.children_changed || child.children_changed;
        self.update_focus_chain = self.update_focus_chain || child.update_focus_chain;
        self.request_anim = self.request_anim || child.request_anim;
        self.has_focus = self.has_focus || child.has_focus;
        let cf: Option<FocusChange> = child.request_focus;
        child.request_focus = None;
        self.request_focus = if cf.is_some() { cf } else { self.request_focus };

        let mut moved = translate_rects(&child.invalid.rects, child.origin);
        self.invalid.rects.append(&mut moved);
        child.invalid.clear();

        self.text_registrations.append(&mut child.text_registrations);
    }
}

/// A root-to-widget path whose inherited-disabled fields are consistent: the
/// root inherits nothing, and each widget inherits its parent's effective
/// state.
pub open spec fn disabled_path_wf(path: Seq<WidgetState>) -> bool {
    &&& path.len() > 0 ==> !path[0].ancestor_disabled
    &&& forall|i: int|
        1 <= i < path.len() ==> #[trigger] path[i].ancestor_disabled == is_disabled_spec(
            path[i - 1],
        )
}

/// Law: along a consistent root-to-widget path, a widget is effectively
/// disabled iff it or one of its ancestors is explicitly disabled.
pub proof fn lemma_effective_disabled(path: Seq<WidgetState>, i: int)
    requires
        disabled_path_wf(path),
        0 <= i < path.len(),
    ensures
        is_disabled_spec(path[i]) <==> exists|j: int|
            0 <= j <= i && #[trigger] path[j].is_explicitly_disabled,
    decreases i,
{
    if i == 0 {
        if path[0].is_explicitly_disabled {
            assert(0 <= 0 <= i && path[0].is_explicitly_disabled);
        }
    } else {
        lemma_effective_disabled(path, i - 1);
        if is_disabled_spec(path[i]) {
            if path[i].is_explicitly_disabled {
                assert(0 <= i <= i && path[i].is_explicitly_disabled);
            } else {
                let j = choose|j: int| 0 <= j <= i - 1 && #[trigger] path[j].is_explicitly_disabled;
                assert(0 <= j <= i && path[j].is_explicitly_disabled);
            }
        }
        if exists|j: int| 0 <= j <= i && #[trigger] path[j].is_explicitly_disabled {
            let j = choose|j: int| 0 <= j <= i && #[trigger] path[j].is_explicitly_disabled;
            if j < i {
                assert(0 <= j <= i - 1 && path[j].is_explicitly_disabled);
            }
        }
    }
}

/// Law: when a parent absorbs the records of two children in visit order
/// (first `a`, then `b`), the focus intent that survives on the parent is
/// the intent of the child visited last, if it recorded one.
pub proof fn lemma_focus_last_write_wins(
    p0: WidgetState,
    a: WidgetState,
    b: WidgetState,
    p1: WidgetState,
    p2: WidgetState,
)
    requires
        merge_parent_post(p0, a, p1),
        merge_parent_post(p1, b, p2),
    ensures
        b.request_focus is Some ==> p2.request_focus == b.request_focus,
        b.request_focus is None && a.request_focus is Some ==> p2.request_focus
            == a.request_focus,
        b.request_focus is None && a.request_focus is None ==> p2.request_focus
            == p0.request_focus,
{
}

/// Law: the paint rectangle always contains the layout rectangle.
pub proof fn lemma_paint_rect_contains_layout_rect(w: WidgetState)
    requires
        ws_wf(w),
    ensures
        rect_contains_rect(paint_rect_spec(w), layout_rect_spec(w)),
{
    crate::geom::lemma_expand_contains(layout_rect_spec(w), w.paint_insets);
}

} // verus!
