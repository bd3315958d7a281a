use riemann_egui_dash::event::Message;
use riemann_egui_dash::json::JsonNumber;
use riemann_egui_dash::views::about::About;
use riemann_egui_dash::views::big_number::BigNumber;
use riemann_egui_dash::event::{decode, Event};
use riemann_egui_dash::views::flot::{millis_of_nanos, plot_lines, Flot, PlotLine, PlotPoint};
use riemann_egui_dash::views::log::{state_is_ok, Log};
use url::Url;

fn base() -> Url {
    Url::parse("ws://h:1/").unwrap()
}

fn number(value: u64) -> JsonNumber {
    JsonNumber {
        unsigned: Some(value),
        signed: Some(value as i64),
        double_bits: Some((value as f64).to_bits()),
    }
}

#[test]
fn each_widget_has_its_title() {
    assert_eq!(About::default().title(), "About this");
    assert_eq!(riemann_egui_dash::views::about::DEFAULT_TITLE, "About this");
    assert_eq!(Log::<()>::new(base()).title(), "📃 Scrolling List");
    assert_eq!(Flot::<()>::new(base()).title(), "📈 Flot Graph");
    assert_eq!(BigNumber::<()>::new(base()).title(), "🔢 Big Number");
    assert_eq!(BigNumber::<()>::new(base()).heading, "");
}

#[test]
fn a_new_widget_subscribes_to_nothing() {
    let log: Log<()> = Log::new(base());
    assert!(!log.controller.is_connected());
    assert_eq!(log.controller.query(), "");
    assert_eq!(log.controller.capacity(), 1000);
    assert!(Flot::<()>::new(base()).lines().is_empty());
    assert_eq!(BigNumber::<()>::new(base()).current_metric(), None);
    assert_eq!(BigNumber::<()>::new(base()).current_state_ok(), None);
}

#[test]
fn only_ok_is_healthy() {
    assert!(state_is_ok("ok"));
    assert!(!state_is_ok("OK"));
    assert!(!state_is_ok("critical"));
    assert!(!state_is_ok(""));
    assert!(!state_is_ok("ok "));
}

#[test]
fn the_big_number_is_the_metric_of_the_newest_event() {
    let mut widget: BigNumber<()> = BigNumber::new(base());
    let endpoint = widget.controller.request_connection(false).unwrap();
    widget.controller.adopt(endpoint.clone(), ());
    widget.controller.tick(vec![
        Message::Text("{\"metric\":3,\"state\":\"ok\"}".to_string()),
        Message::Text("{\"metric\":4,\"state\":\"critical\"}".to_string()),
    ]);
    assert_eq!(widget.current_metric(), Some(number(4)));
    assert_eq!(widget.current_state_ok(), Some(false));
    widget.controller.tick(vec![Message::Text("{\"state\":\"ok\"}".to_string())]);
    assert_eq!(widget.current_metric(), None);
    assert_eq!(widget.current_state_ok(), Some(true));
    widget.controller.tick(vec![Message::Text("{\"metric\":5}".to_string())]);
    assert_eq!(widget.current_metric(), Some(number(5)));
    assert_eq!(widget.current_state_ok(), None);
    widget.controller.adopt(endpoint, ());
    assert_eq!(widget.current_metric(), None);
}

#[test]
fn nanoseconds_become_whole_milliseconds_towards_zero() {
    assert_eq!(millis_of_nanos(0), 0);
    assert_eq!(millis_of_nanos(999_999), 0);
    assert_eq!(millis_of_nanos(1_000_000), 1);
    assert_eq!(millis_of_nanos(1_654_086_645_500_000_000), 1_654_086_645_500);
    assert_eq!(millis_of_nanos(-1), 0);
    assert_eq!(millis_of_nanos(-999_999), 0);
    assert_eq!(millis_of_nanos(-1_000_000), -1);
    assert_eq!(millis_of_nanos(-1_000_001), -1);
    assert_eq!(millis_of_nanos(-2_500_000), -2);
    assert_eq!(millis_of_nanos(i128::MAX), i128::MAX / 1_000_000);
    assert_eq!(millis_of_nanos(i128::MIN), i128::MIN / 1_000_000);
    assert_eq!(millis_of_nanos(i128::MIN + 1), (i128::MIN + 1) / 1_000_000);
}

fn point(millis: i128, metric: u64) -> PlotPoint {
    PlotPoint { millis, metric: number(metric) }
}

#[test]
fn events_with_service_metric_and_time_are_plotted() {
    let mut widget: Flot<()> = Flot::new(base());
    let endpoint = widget.controller.request_connection(false).unwrap();
    widget.controller.adopt(endpoint, ());
    widget.controller.tick(vec![
        Message::Text(
            "{\"service\":\"cpu\",\"metric\":1,\"time\":\"1970-01-01T00:00:01.5Z\"}".to_string(),
        ),
        Message::Text("{\"service\":\"cpu\",\"metric\":2}".to_string()),
        Message::Text("{\"metric\":3,\"time\":\"1970-01-01T00:00:02Z\"}".to_string()),
        Message::Text("{\"service\":\"net\",\"time\":\"1970-01-01T00:00:02Z\"}".to_string()),
        Message::Text(
            "{\"service\":\"disk\",\"metric\":4,\"time\":\"1969-12-31T23:59:59.9995Z\"}"
                .to_string(),
        ),
        Message::Text(
            "{\"service\":\"cpu\",\"metric\":5,\"time\":\"1970-01-01T01:00:03+01:00\"}".to_string(),
        ),
        Message::Text(
            "{\"service\":\"disk\",\"metric\":6,\"time\":\"1970-01-01T00:00:04Z\"}".to_string(),
        ),
    ]);
    assert_eq!(
        widget.lines(),
        vec![
            PlotLine { service: "cpu".to_string(), points: vec![point(1500, 1), point(3000, 5)] },
            PlotLine { service: "disk".to_string(), points: vec![point(0, 4), point(4000, 6)] },
        ]
    );
}

#[test]
fn lines_come_in_the_order_in_which_their_services_first_give_a_point() {
    let events: Vec<Event> = [
        "{\"service\":\"z\",\"metric\":1,\"time\":\"1970-01-01T00:00:01Z\"}",
        "{\"service\":\"a\",\"metric\":2,\"time\":\"1970-01-01T00:00:02Z\"}",
        "{\"service\":\"z\",\"metric\":3,\"time\":\"1970-01-01T00:00:03Z\"}",
        "{\"service\":\"\",\"metric\":4,\"time\":\"1970-01-01T00:00:04Z\"}",
    ]
    .iter()
    .map(|raw| decode(raw).unwrap())
    .collect();
    assert_eq!(
        plot_lines(&events),
        vec![
            PlotLine { service: "z".to_string(), points: vec![point(1000, 1), point(3000, 3)] },
            PlotLine { service: "a".to_string(), points: vec![point(2000, 2)] },
            PlotLine { service: String::new(), points: vec![point(4000, 4)] },
        ]
    );
    assert!(plot_lines(&vec![]).is_empty());
}
