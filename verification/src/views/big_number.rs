//! The widget that shows the metric of the newest event as one big number.

use crate::controller::ControllerView;
use crate::controller::SubscriptionController;
use crate::endpoint::url_address;
use crate::event::Event;
use crate::json::JsonNumber;
use crate::views::log::healthy_state;
use crate::views::log::state_is_ok;
use url::Url;
use vstd::prelude::*;

verus! {

/// The title of the widget.
pub const DEFAULT_TITLE: &'static str = "🔢 Big Number";

/// The metric of the newest of `events`, if there is an event and it has one.
pub open spec fn newest_metric(events: Seq<Event>) -> Option<JsonNumber> {
    if events.len() > 0 {
        events.last().metric
    } else {
        None
    }
}

/// Whether the newest of `events` is in the healthy state, if there is an
/// event and it has a state.
pub open spec fn newest_state_ok(events: Seq<Event>) -> Option<bool> {
    if events.len() > 0 {
        match events.last().state {
            Some(state) => Some(state@ == healthy_state()),
            None => None,
        }
    } else {
        None
    }
}

/// The widget that shows the metric of the newest event.
pub struct BigNumber<L> {
    /// The subscription of the widget.
    pub controller: SubscriptionController<L>,
    /// The heading that the operator gave the number.
    pub heading: String,
}

impl<L> BigNumber<L> {
    /// A widget at the base address `base` that subscribes to nothing yet,
    /// without a heading.
    pub fn new(base: Url) -> (big_number: Self)
        ensures
            big_number.controller@ == ControllerView::<L>::fresh(url_address(base)),
            big_number.heading@ == Seq::<char>::empty(),
    {
        BigNumber { controller: SubscriptionController::new(base), heading: String::new() }
    }

    /// The title of the widget's window.
    pub fn title(&self) -> (title: String)
        ensures
            title@ == DEFAULT_TITLE@,
    {
        DEFAULT_TITLE.to_owned()
    }

    /// The number to show: the metric of the newest event of the live
    /// subscription, or `None` where no event has arrived or the newest one
    /// has no metric.
    pub fn current_metric(&self) -> (metric: Option<JsonNumber>)
        ensures
            metric == newest_metric(self.controller@.events),
    {
        match self.controller.latest() {
            Some(event) => event.metric,
            None => None,
        }
    }

    /// Whether the newest event of the live subscription is in the healthy
    /// state, or `None` where no event has arrived or the newest one has no
    /// state.
    pub fn current_state_ok(&self) -> (healthy: Option<bool>)
        ensures
            healthy == newest_state_ok(self.controller@.events),
    {
        match self.controller.latest() {
            Some(event) => match &event.state {
                Some(state) => Some(state_is_ok(state.as_str())),
                None => None,
            },
            None => None,
        }
    }
}

} // verus!
