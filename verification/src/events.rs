//! Window-system notifications, as a tagged variant consumed exactly once
//! by the window procedure, and the handled/passthrough marker the
//! procedure answers with.

use vstd::prelude::*;
use crate::geometry::Region;

verus! {

/// One notification from the platform event queue.
#[derive(Clone, Copy, PartialEq, Eq, Structural, Debug)]
pub enum WindowEvent {
    /// The window is being destroyed.
    Destroy,
    /// The client area was resized to `width` by `height`.
    Size { width: usize, height: usize },
    /// The user asked to close the window.
    Close,
    /// The application was activated or deactivated (informational).
    ActivateApp,
    /// Part of the window must be redrawn.
    Paint { region: Region },
    /// Any other notification, delegated to default platform handling.
    Other { raw: u32 },
}

/// Whether the window procedure consumed a notification or handed it back
/// for default platform handling.
#[derive(Clone, Copy, PartialEq, Eq, Structural, Debug)]
pub enum EventOutcome {
    Handled,
    Passthrough,
}

/// The outcome the window procedure owes for each notification kind:
/// everything is handled except `Other`, which passes through.
pub open spec fn outcome_of(event: WindowEvent) -> EventOutcome {
    match event {
        WindowEvent::Other { .. } => EventOutcome::Passthrough,
        _ => EventOutcome::Handled,
    }
}

} // verus!
