use riemann_egui_dash::event::{
    decode, decode_document, decode_message, event_from_record, field_index_of, DecodeError,
    Event, Message, Timestamp,
};
use riemann_egui_dash::json::{Json, JsonNumber};

fn text(value: &str) -> Json {
    Json::Text(value.to_string())
}

fn member(name: &str, value: Json) -> (String, Json) {
    (name.to_string(), value)
}

fn empty_event() -> Event {
    Event {
        time: None,
        state: None,
        service: None,
        host: None,
        description: None,
        tags: vec![],
        ttl: None,
        time_micros: None,
        metric: None,
        attributes: vec![],
    }
}

#[test]
fn a_full_record_decodes() {
    let raw = "{\"host\":\"web1\",\"service\":\"disk /\",\"state\":\"ok\",\
               \"description\":\"all good\",\"metric\":0.25,\"ttl\":60,\
               \"tags\":[\"product\",\"eu\"],\"time\":\"2022-06-01T12:30:45.5Z\",\
               \"time_micros\":1654086645500000}";
    let event = decode(raw).unwrap();
    assert_eq!(event.host.as_deref(), Some("web1"));
    assert_eq!(event.service.as_deref(), Some("disk /"));
    assert_eq!(event.state.as_deref(), Some("ok"));
    assert_eq!(event.description.as_deref(), Some("all good"));
    assert_eq!(event.tags, vec!["product".to_string(), "eu".to_string()]);
    assert_eq!(
        event.metric,
        Some(JsonNumber { unsigned: None, signed: None, double_bits: Some(0.25f64.to_bits()) })
    );
    assert_eq!(
        event.ttl,
        Some(JsonNumber {
            unsigned: Some(60),
            signed: Some(60),
            double_bits: Some(60.0f64.to_bits())
        })
    );
    assert_eq!(
        event.time,
        Some(Timestamp { unix_nanos: 1_654_086_645_500_000_000, offset_seconds: 0 })
    );
    assert_eq!(event.time_micros, Some(1_654_086_645_500_000));
    assert!(event.attributes.is_empty());
}

#[test]
fn null_tags_are_no_tags() {
    let event = decode("{\"host\":\"h\",\"tags\":null}").unwrap();
    assert!(event.tags.is_empty());
    assert_eq!(event.host.as_deref(), Some("h"));
}

#[test]
fn missing_tags_are_no_tags() {
    let event = decode("{\"host\":\"h\"}").unwrap();
    assert!(event.tags.is_empty());
}

#[test]
fn tags_of_another_shape_are_no_tags() {
    assert!(decode("{\"tags\":5}").unwrap().tags.is_empty());
    assert!(decode("{\"tags\":\"one\"}").unwrap().tags.is_empty());
    assert!(decode("{\"tags\":[\"a\",1]}").unwrap().tags.is_empty());
    assert!(decode("{\"tags\":{\"a\":1}}").unwrap().tags.is_empty());
    assert!(decode("{\"tags\":[]}").unwrap().tags.is_empty());
}

#[test]
fn an_empty_record_is_an_empty_event() {
    assert_eq!(decode("{}"), Ok(empty_event()));
}

#[test]
fn null_fields_are_empty() {
    let raw = "{\"time\":null,\"state\":null,\"service\":null,\"host\":null,\
               \"description\":null,\"tags\":null,\"ttl\":null,\"time_micros\":null,\
               \"metric\":null}";
    assert_eq!(decode(raw), Ok(empty_event()));
}

#[test]
fn unknown_members_become_attributes() {
    let event = decode("{\"zone\":\"eu\",\"host\":\"h\",\"custom\":{\"a\":[1,null]},\"n\":null}")
        .unwrap();
    assert_eq!(event.host.as_deref(), Some("h"));
    assert_eq!(
        event.attributes,
        vec![
            member(
                "custom",
                Json::Object(vec![member(
                    "a",
                    Json::Array(vec![
                        Json::Number(JsonNumber {
                            unsigned: Some(1),
                            signed: Some(1),
                            double_bits: Some(1.0f64.to_bits())
                        }),
                        Json::Null
                    ])
                )])
            ),
            member("n", Json::Null),
            member("zone", text("eu")),
        ]
    );
}

#[test]
fn text_that_is_not_json_fails_with_the_text() {
    assert_eq!(decode("not json at all"), Err(DecodeError::Malformed("not json at all".to_string())));
    assert_eq!(decode(""), Err(DecodeError::Malformed(String::new())));
    assert_eq!(decode("{\"host\":"), Err(DecodeError::Malformed("{\"host\":".to_string())));
}

#[test]
fn json_that_is_no_record_fails_with_the_text() {
    for raw in ["[1,2]", "5", "\"text\"", "null", "true"] {
        assert_eq!(decode(raw), Err(DecodeError::Malformed(raw.to_string())));
    }
}

#[test]
fn a_member_that_does_not_fit_its_field_fails_with_the_text() {
    for raw in [
        "{\"state\":5}",
        "{\"host\":[\"h\"]}",
        "{\"service\":true}",
        "{\"description\":{}}",
        "{\"metric\":\"high\"}",
        "{\"ttl\":false}",
        "{\"time_micros\":1.5}",
        "{\"time_micros\":\"1\"}",
        "{\"time_micros\":18446744073709551615}",
        "{\"time\":\"yesterday\"}",
        "{\"time\":1654086645}",
    ] {
        assert_eq!(decode(raw), Err(DecodeError::Malformed(raw.to_string())), "{}", raw);
    }
}

#[test]
fn numbers_keep_their_reading() {
    let event = decode("{\"metric\":-3,\"ttl\":18446744073709551615,\"time_micros\":-7}").unwrap();
    assert_eq!(
        event.metric,
        Some(JsonNumber {
            unsigned: None,
            signed: Some(-3),
            double_bits: Some((-3.0f64).to_bits())
        })
    );
    assert_eq!(
        event.ttl,
        Some(JsonNumber {
            unsigned: Some(u64::MAX),
            signed: None,
            double_bits: Some((u64::MAX as f64).to_bits())
        })
    );
    assert_eq!(event.time_micros, Some(-7));
}

#[test]
fn time_keeps_its_offset() {
    let event = decode("{\"time\":\"2022-06-01T14:30:45+02:00\"}").unwrap();
    assert_eq!(
        event.time,
        Some(Timestamp { unix_nanos: 1_654_086_645_000_000_000, offset_seconds: 7200 })
    );
}

#[test]
fn only_a_text_payload_holds_an_event() {
    assert_eq!(decode_message(Message::Binary(vec![1, 2, 3])), Err(DecodeError::NotText));
    assert_eq!(decode_message(Message::Ping(vec![])), Err(DecodeError::NotText));
    assert_eq!(decode_message(Message::Pong(vec![])), Err(DecodeError::NotText));
    assert_eq!(decode_message(Message::Unknown("{}".to_string())), Err(DecodeError::NotText));
    assert_eq!(decode_message(Message::Text("{}".to_string())), Ok(empty_event()));
    assert_eq!(
        decode_message(Message::Text("oops".to_string())),
        Err(DecodeError::Malformed("oops".to_string()))
    );
}

#[test]
fn a_document_is_decoded_as_given() {
    let document = Json::Object(vec![
        member("state", text("critical")),
        member("rack", text("r7")),
        member("tags", Json::Array(vec![text("a"), text("b")])),
    ]);
    let event = decode_document("ignored", Some(document)).unwrap();
    assert_eq!(event.state.as_deref(), Some("critical"));
    assert_eq!(event.tags, vec!["a".to_string(), "b".to_string()]);
    assert_eq!(event.attributes, vec![member("rack", text("r7"))]);
    assert_eq!(
        decode_document("the text", None),
        Err(DecodeError::Malformed("the text".to_string()))
    );
    assert_eq!(
        decode_document("the text", Some(Json::Array(vec![]))),
        Err(DecodeError::Malformed("the text".to_string()))
    );
}

#[test]
fn the_last_member_of_a_name_fills_the_field() {
    let event = event_from_record(vec![
        member("host", text("first")),
        member("x", Json::Bool(true)),
        member("host", text("second")),
        member("x", Json::Bool(false)),
    ])
    .unwrap();
    assert_eq!(event.host.as_deref(), Some("second"));
    assert_eq!(
        event.attributes,
        vec![member("x", Json::Bool(true)), member("x", Json::Bool(false))]
    );
}

#[test]
fn a_record_with_a_misfit_gives_no_event() {
    assert_eq!(event_from_record(vec![member("state", Json::Bool(true))]), None);
    assert_eq!(
        event_from_record(vec![member("state", Json::Bool(true)), member("state", Json::Null)]),
        Some(empty_event())
    );
}

#[test]
fn each_field_has_its_name() {
    let names = [
        "time",
        "state",
        "service",
        "host",
        "description",
        "tags",
        "ttl",
        "time_micros",
        "metric",
    ];
    for (index, name) in names.iter().enumerate() {
        assert_eq!(field_index_of(name), Some(index));
    }
    assert_eq!(field_index_of("Time"), None);
    assert_eq!(field_index_of(""), None);
    assert_eq!(field_index_of("attributes"), None);
}

#[test]
fn attributes_are_found_by_name() {
    let event = decode("{\"zone\":\"eu\",\"host\":\"h\",\"rack\":7}").unwrap();
    assert_eq!(event.attribute("zone"), Some(&text("eu")));
    assert_eq!(
        event.attribute("rack"),
        Some(&Json::Number(JsonNumber {
            unsigned: Some(7),
            signed: Some(7),
            double_bits: Some(7.0f64.to_bits())
        }))
    );
    assert_eq!(event.attribute("host"), None);
    assert_eq!(event.attribute("Zone"), None);
    assert_eq!(event.attribute(""), None);
}

#[test]
fn the_last_attribute_of_a_name_counts() {
    let mut event = empty_event();
    event.attributes = vec![
        member("x", Json::Bool(true)),
        member("y", Json::Null),
        member("x", Json::Bool(false)),
    ];
    assert_eq!(event.attribute("x"), Some(&Json::Bool(false)));
    assert_eq!(event.attribute("y"), Some(&Json::Null));
    assert_eq!(event.attribute("z"), None);
}
