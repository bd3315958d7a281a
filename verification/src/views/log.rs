//! The widget that lists the events of a subscription, oldest first.

use crate::controller::ControllerView;
use crate::controller::SubscriptionController;
use crate::endpoint::url_address;
use crate::text::same_text;
use url::Url;
use vstd::prelude::*;

verus! {

/// The title of the widget.
pub const DEFAULT_TITLE: &'static str = "📃 Scrolling List";

/// The state that a row shows as healthy.
pub open spec fn healthy_state() -> Seq<char> {
    "ok"@
}

/// Whether a row with the state `state` is shown as healthy: every other
/// state is highlighted.
pub fn state_is_ok(state: &str) -> (healthy: bool)
    ensures
        healthy == (state@ == healthy_state()),
{
    same_text(state, "ok")
}

/// The widget that lists the events of a subscription.
pub struct Log<L> {
    /// The subscription of the widget.
    pub controller: SubscriptionController<L>,
}

impl<L> Log<L> {
    /// A widget at the base address `base` that subscribes to nothing yet.
    pub fn new(base: Url) -> (log: Self)
        ensures
            log.controller@ == ControllerView::<L>::fresh(url_address(base)),
    {
        Log { controller: SubscriptionController::new(base) }
    }

    /// The title of the widget's window.
    pub fn title(&self) -> (title: String)
        ensures
            title@ == DEFAULT_TITLE@,
    {
        DEFAULT_TITLE.to_owned()
    }
}

} // verus!
