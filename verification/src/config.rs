//! The widget's screen placement and the command the daemon was asked to
//! perform.

use vstd::prelude::*;

use crate::urgency::Urgency;

verus! {

/// Which screen edge the widget is anchored to.
#[derive(Clone, Copy, Debug, PartialEq, Eq, Structural)]
pub enum OsdPosition {
    /// The top edge, the default.
    Top,
    /// The left edge.
    Left,
    /// The right edge.
    Right,
    /// The bottom edge.
    Bottom,
}

/// Merge step for optional settings: the right-hand value wins whenever it
/// is set, and fills the left-hand side whenever that is empty.
pub fn swap_option<T>(left: &mut Option<T>, right: &mut Option<T>)
    ensures
        (*old(left) is None || *old(right) is Some) ==> (*final(left) == *old(right)
            && *final(right) == *old(left)),
        !(*old(left) is None || *old(right) is Some) ==> (*final(left) == *old(left)
            && *final(right) == *old(right)),
{
    if left.is_none() || right.is_some() {
        core::mem::swap(left, right);
    }
}

/// What the daemon was asked to do.
#[derive(Clone, Debug, PartialEq)]
pub enum OsdType {
    /// Run as the background daemon.
    Daemon,
    /// Close the widget currently shown.
    Close,
    /// Write the stock configuration out.
    Init,
    /// Show a notification.
    Notification {
        /// Title to show.
        title: String,
        /// Image for the notification: a path or a single character.
        image: Option<String>,
        /// Urgency of the notification.
        urgency: Option<Urgency>,
        /// Description to show.
        description: Option<String>,
    },
    /// Show a slider.
    Slider {
        /// Slider value, from 0 to 100.
        value: i32,
        /// Image for the slider: a path or a single character.
        image: Option<String>,
        /// Urgency of the slider.
        urgency: Option<Urgency>,
    },
}

} // verus!
