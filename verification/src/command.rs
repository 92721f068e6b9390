//! Identifiers, commands, actions and notifications that a pass emits.
//!
//! Commands and actions are queued on the shared pass state and drained by
//! the host run loop after the pass; notifications travel up the tree during
//! event delivery.

use vstd::prelude::*;

verus! {

/// A globally unique, stable widget identity.
#[derive(Clone, Copy, PartialEq, Eq, Structural, Debug, Hash)]
pub struct WidgetId(pub u64);

/// The identity of a window.
#[derive(Clone, Copy, PartialEq, Eq, Structural, Debug, Hash)]
pub struct WindowId(pub u64);

/// The token handed back for a timer request; a later timer event carries it.
#[derive(Clone, Copy, PartialEq, Eq, Structural, Debug, Hash)]
pub struct TimerToken(pub u64);

/// Where a command is to be delivered.
#[derive(Clone, Copy, PartialEq, Eq, Structural, Debug)]
pub enum Target {
    /// No explicit target; defaults to the window the submitting widget is in.
    Auto,
    /// The application as a whole.
    Global,
    /// One window.
    Window(WindowId),
    /// One widget.
    Widget(WidgetId),
}

/// A change of the platform text-input state that a widget reports.
#[derive(Clone, Copy, PartialEq, Eq, Structural, Debug)]
pub enum ImeInvalidation {
    SelectionChanged,
    LayoutChanged,
    Reset,
}

/// The data a command carries.
#[derive(Clone, Copy, PartialEq, Eq, Structural, Debug)]
pub enum CommandPayload {
    /// No data.
    Empty,
    /// An application-defined value.
    Value(u64),
    /// Which widget's text-input state is stale, and how.
    ImeInvalidate { widget: WidgetId, event: ImeInvalidation },
    /// A handle to the description of a window to open.
    NewWindowDesc(u64),
}

/// Selector of the command that asks the host to open a new window.
pub const NEW_WINDOW: u32 = 1;

/// Selector of the command that tells the host a widget's text-input state
/// is stale.
pub const INVALIDATE_IME: u32 = 2;

/// An instruction submitted during a pass and run by the host afterwards.
#[derive(Clone, Copy, PartialEq, Eq, Structural, Debug)]
pub struct Command {
    pub selector: u32,
    pub payload: CommandPayload,
    pub target: Target,
}

/// A message a widget sends to its ancestors during event delivery.
#[derive(Clone, Copy, PartialEq, Eq, Structural, Debug)]
pub struct Notification {
    pub selector: u32,
    pub payload: CommandPayload,
    pub source: WidgetId,
}

/// An application-defined action, reported together with the widget that
/// raised it.
#[derive(Clone, Copy, PartialEq, Eq, Structural, Debug)]
pub struct Action(pub u64);

/// `c` with an `Auto` target replaced by `t`.
pub open spec fn command_default_to(c: Command, t: Target) -> Command {
    if c.target is Auto {
        Command { target: t, ..c }
    } else {
        c
    }
}

impl Command {
    /// Builds a command.
    pub fn new(selector: u32, payload: CommandPayload, target: Target) -> (c: Command)
        ensures
            c == (Command { selector, payload, target }),
    {
        Command { selector, payload, target }
    }

    /// Replaces an `Auto` target by `t`; any explicit target is kept.
    pub fn default_to(self, t: Target) -> (c: Command)
        ensures
            c == command_default_to(self, t),
    {
        match self.target {
            Target::Auto => Command { target: t, ..self },
            _ => self,
        }
    }

    /// Turns the command into a notification from `source`; the command's
    /// target is discarded.
    pub fn into_notification(self, source: WidgetId) -> (n: Notification)
        ensures
            n == (Notification { selector: self.selector, payload: self.payload, source }),
    {
        Notification { selector: self.selector, payload: self.payload, source }
    }
}

} // verus!
