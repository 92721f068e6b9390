//! Pass and context dispatch for a retained-mode widget tree.
//!
//! For every kind of tree traversal (event delivery, lifecycle notification,
//! layout, paint) this crate builds a capability-restricted mutable context,
//! threads it through the widget hierarchy, and folds per-widget state changes
//! back up into each widget's parent. The tree driver that owns the recursion,
//! the widgets' own behaviour, the rendering backend and the platform shell
//! are collaborators outside this crate; they exchange plain values with it.

pub mod command;
pub mod contexts;
pub mod geom;
pub mod global;
pub mod mock_timer;
pub mod paint;
pub mod widget_state;
pub mod z_order;
