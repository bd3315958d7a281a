//! The widget that explains the dashboard.

use vstd::prelude::*;

verus! {

/// The title of the widget.
pub const DEFAULT_TITLE: &'static str = "About this";

/// The widget that explains the dashboard. It subscribes to nothing.
#[derive(Debug)]
pub struct About;

impl Default for About {
    fn default() -> (about: Self) {
        About
    }
}

impl About {
    /// The title of the widget's window.
    pub fn title(&self) -> (title: String)
        ensures
            title@ == DEFAULT_TITLE@,
    {
        DEFAULT_TITLE.to_owned()
    }
}

} // verus!
