//! The widget that plots the metrics of a subscription over time, one line
//! for each service.

use crate::controller::ControllerView;
use crate::controller::SubscriptionController;
use crate::endpoint::url_address;
use crate::event::Event;
use crate::json::JsonNumber;
use crate::text::same_text;
use url::Url;
use vstd::prelude::*;

verus! {

/// The title of the widget.
pub const DEFAULT_TITLE: &'static str = "📈 Flot Graph";

/// The nanoseconds in a millisecond.
pub const NANOS_PER_MILLI: i128 = 1_000_000;

/// `nanos` in whole milliseconds, rounded towards zero.
pub open spec fn whole_millis(nanos: int) -> int {
    if nanos >= 0 {
        nanos / 1_000_000
    } else {
        -((-nanos) / 1_000_000)
    }
}

/// `nanos` in whole milliseconds, rounded towards zero.
pub fn millis_of_nanos(nanos: i128) -> (millis: i128)
    ensures
        millis == whole_millis(nanos as int),
{
    if nanos >= 0 {
        nanos / NANOS_PER_MILLI
    } else {
        // The magnitude of the least `i128` is no `i128`: divide one less
        // and make up for it.
        let below: i128 = -(nanos + 1);
        let quotient: i128 = below / NANOS_PER_MILLI;
        let remainder: i128 = below % NANOS_PER_MILLI;
        assert(below == quotient * 1_000_000 + remainder) by (nonlinear_arith)
            requires
                below >= 0,
                quotient == below / 1_000_000,
                remainder == below % 1_000_000,
        ;
        if remainder == NANOS_PER_MILLI - 1 {
            assert((-(nanos as int)) / 1_000_000 == quotient + 1) by (nonlinear_arith)
                requires
                    -(nanos as int) == quotient * 1_000_000 + 1_000_000,
            ;
            -quotient - 1
        } else {
            assert((-(nanos as int)) / 1_000_000 == quotient) by (nonlinear_arith)
                requires
                    -(nanos as int) == quotient * 1_000_000 + (remainder + 1),
                    0 <= remainder + 1 < 1_000_000,
            ;
            -quotient
        }
    }
}

/// One point of a line: a metric at an instant.
#[derive(Clone, Copy, Debug, PartialEq, Eq)]
pub struct PlotPoint {
    /// The instant, in milliseconds since the Unix epoch.
    pub millis: i128,
    /// The metric.
    pub metric: JsonNumber,
}

/// The line of one service: its points in the order of arrival.
#[derive(Debug, PartialEq, Eq)]
pub struct PlotLine {
    /// The service.
    pub service: String,
    /// The points of the service, oldest first.
    pub points: Vec<PlotPoint>,
}

/// Whether an event gives a point: it has a service, a metric and a time.
pub open spec fn is_plotted(event: Event) -> bool {
    event.service is Some && event.metric is Some && event.time is Some
}

/// The point that an event gives, if it gives one.
pub open spec fn point_of(event: Event) -> PlotPoint {
    PlotPoint {
        millis: whole_millis(event.time.unwrap().unix_nanos as int) as i128,
        metric: event.metric.unwrap(),
    }
}

/// Whether an event gives a point of the line of `service`.
pub open spec fn is_plotted_for(event: Event, service: Seq<char>) -> bool {
    is_plotted(event) && event.service.unwrap()@ == service
}

/// The services that have a line, in the order in which each first gives a
/// point.
pub open spec fn plotted_services(events: Seq<Event>) -> Seq<Seq<char>>
    decreases events.len(),
{
    if events.len() == 0 {
        Seq::empty()
    } else {
        let before = plotted_services(events.drop_last());
        if is_plotted(events.last()) && !before.contains(events.last().service.unwrap()@) {
            before.push(events.last().service.unwrap()@)
        } else {
            before
        }
    }
}

/// The points of the line of `service`, in the order of the events.
pub open spec fn line_points(events: Seq<Event>, service: Seq<char>) -> Seq<PlotPoint>
    decreases events.len(),
{
    if events.len() == 0 {
        Seq::empty()
    } else if is_plotted_for(events.last(), service) {
        line_points(events.drop_last(), service).push(point_of(events.last()))
    } else {
        line_points(events.drop_last(), service)
    }
}

/// Whether `lines` are the lines that `events` give: one for each service
/// that gives a point, in the order in which the services first do, each
/// with the points of its service in the order of the events.
pub open spec fn lines_of(events: Seq<Event>, lines: Seq<PlotLine>) -> bool {
    &&& lines.len() == plotted_services(events).len()
    &&& forall|i: int|
        0 <= i < lines.len() ==> {
            &&& (#[trigger] lines[i]).service@ == plotted_services(events)[i]
            &&& lines[i].points@ == line_points(events, plotted_services(events)[i])
        }
}

/// A service that has no line yet has given no point, one that has a line
/// has given one, and no service has two lines.
pub proof fn lemma_lines_are_of_the_plotted(events: Seq<Event>, service: Seq<char>)
    ensures
        plotted_services(events).contains(service) <==> line_points(events, service).len() > 0,
        plotted_services(events).no_duplicates(),
    decreases events.len(),
{
    if events.len() > 0 {
        let before = plotted_services(events.drop_last());
        lemma_lines_are_of_the_plotted(events.drop_last(), service);
        if is_plotted(events.last()) {
            let newest = events.last().service.unwrap()@;
            lemma_lines_are_of_the_plotted(events.drop_last(), newest);
            if !before.contains(newest) {
                let after = before.push(newest);
                assert(after[after.len() - 1] == newest);
                assert forall|i: int, j: int|
                    0 <= i < after.len() && 0 <= j < after.len() && i != j implies after[i]
                    != after[j] by {
                    if i < before.len() && j < before.len() {
                    } else if i < before.len() {
                        assert(before.contains(before[i]));
                    } else {
                        assert(before.contains(before[j]));
                    }
                }
                if after.contains(service) && service != newest {
                    let k = choose|k: int| 0 <= k < after.len() && after[k] == service;
                    assert(before[k] == service);
                }
                if before.contains(service) {
                    let k = choose|k: int| 0 <= k < before.len() && before[k] == service;
                    assert(after[k] == service);
                }
            }
        }
    }
}

/// The position of the line of `service` among `lines`, if it has one.
fn find_line(lines: &Vec<PlotLine>, service: &str) -> (position: Option<usize>)
    ensures
        match position {
            Some(found) => found < lines@.len() && lines@[found as int].service@ == service@,
            None => forall|i: int| 0 <= i < lines@.len() ==> lines@[i].service@ != service@,
        },
{
    let mut position: usize = 0;
    while position < lines.len()
        invariant
            position <= lines@.len(),
            forall|i: int| 0 <= i < position ==> lines@[i].service@ != service@,
        decreases lines@.len() - position,
    {
        if same_text(lines[position].service.as_str(), service) {
            return Some(position);
        }
        position = position + 1;
    }
    None
}

/// The lines that `events` give: one for each service with an event that has
/// a service, a metric and a time, in the order in which the services first
/// have one, each with its points in the order of the events.
pub fn plot_lines(events: &Vec<Event>) -> (lines: Vec<PlotLine>)
    ensures
        lines_of(events@, lines@),
{
    let mut lines: Vec<PlotLine> = Vec::new();
    let mut read: usize = 0;
    while read < events.len()
        invariant
            read <= events@.len(),
            lines_of(events@.subrange(0, read as int), lines@),
        decreases events@.len() - read,
    {
        let event = &events[read];
        let ghost before = events@.subrange(0, read as int);
        let ghost after = events@.subrange(0, read + 1);
        let ghost lines_before = lines@;
        proof {
            assert(after.drop_last() =~= before);
            assert(after.last() == events@[read as int]);
        }
        match (&event.service, event.metric, event.time) {
            (Some(service), Some(metric), Some(time)) => {
                let point = PlotPoint { millis: millis_of_nanos(time.unix_nanos), metric };
                assert(point == point_of(*event));
                let found = find_line(&lines, service.as_str());
                proof {
                    lemma_lines_are_of_the_plotted(before, service@);
                    if plotted_services(before).contains(service@) {
                        let k = choose|k: int|
                            0 <= k < plotted_services(before).len() && plotted_services(before)[k]
                                == service@;
                        assert(lines_before[k].service@ == service@);
                    }
                }
                match found {
                    Some(position) => {
                        proof {
                            assert(plotted_services(before)[position as int] == service@);
                            assert(plotted_services(before).contains(service@));
                        }
                        let mut line = lines.remove(position);
                        line.points.push(point);
                        lines.insert(position, line);
                        proof {
                            assert(plotted_services(after) == plotted_services(before));
                            assert forall|i: int| 0 <= i < lines@.len() implies {
                                &&& (#[trigger] lines@[i]).service@ == plotted_services(after)[i]
                                &&& lines@[i].points@ == line_points(
                                    after,
                                    plotted_services(after)[i],
                                )
                            } by {
                                if i != position {
                                    assert(lines@[i] == lines_before[i]);
                                    assert(lines_before[i].service@ != service@) by {
                                        lemma_lines_are_of_the_plotted(before, service@);
                                    }
                                }
                            }
                        }
                    },
                    None => {
                        let mut points: Vec<PlotPoint> = Vec::new();
                        points.push(point);
                        lines.push(PlotLine { service: service.clone(), points });
                        proof {
                            assert(!plotted_services(before).contains(service@));
                            assert(plotted_services(after) == plotted_services(before).push(
                                service@,
                            ));
                            assert(line_points(before, service@).len() == 0);
                            assert(line_points(after, service@) =~= seq![point]);
                            assert forall|i: int| 0 <= i < lines@.len() implies {
                                &&& (#[trigger] lines@[i]).service@ == plotted_services(after)[i]
                                &&& lines@[i].points@ == line_points(
                                    after,
                                    plotted_services(after)[i],
                                )
                            } by {
                                if i < lines_before.len() {
                                    assert(lines@[i] == lines_before[i]);
                                    assert(plotted_services(before).contains(
                                        plotted_services(before)[i],
                                    ));
                                } else {
                                    assert(lines@[i].points@ =~= seq![point]);
                                }
                            }
                        }
                    },
                }
            },
            _ => {
                proof {
                    assert(!is_plotted(*event));
                    assert(plotted_services(after) == plotted_services(before));
                }
            },
        }
        read = read + 1;
    }
    proof {
        assert(events@.subrange(0, read as int) =~= events@);
    }
    lines
}

/// The widget that plots the metrics of a subscription.
pub struct Flot<L> {
    /// The subscription of the widget.
    pub controller: SubscriptionController<L>,
}

impl<L> Flot<L> {
    /// A widget at the base address `base` that subscribes to nothing yet.
    pub fn new(base: Url) -> (flot: Self)
        ensures
            flot.controller@ == ControllerView::<L>::fresh(url_address(base)),
    {
        Flot { controller: SubscriptionController::new(base) }
    }

    /// The title of the widget's window.
    pub fn title(&self) -> (title: String)
        ensures
            title@ == DEFAULT_TITLE@,
    {
        DEFAULT_TITLE.to_owned()
    }

    /// The lines to plot: those that the events of the live subscription
    /// give.
    pub fn lines(&self) -> (lines: Vec<PlotLine>)
        ensures
            lines_of(self.controller@.events, lines@),
    {
        plot_lines(self.controller.snapshot())
    }
}

} // verus!
