//! Events, and how an inbound message is decoded into one.

use crate::json::parse_json;
use crate::json::parsed_json;
use crate::json::Json;
use crate::json::JsonNumber;
use crate::sequence::reversed;
use crate::text::same_text;
use vstd::prelude::*;

verus! {

/// An instant with the offset from UTC it was written with.
#[derive(Clone, Copy, Debug, PartialEq, Eq)]
pub struct Timestamp {
    /// Nanoseconds since the Unix epoch.
    pub unix_nanos: i128,
    /// The offset from UTC, in seconds.
    pub offset_seconds: i32,
}

/// One observation received from the stream. Every field may be missing.
#[derive(Debug, PartialEq, Eq)]
pub struct Event {
    /// When the event happened.
    pub time: Option<Timestamp>,
    /// The state of the service, such as `ok` or `critical`.
    pub state: Option<String>,
    /// The service that the event is about.
    pub service: Option<String>,
    /// The host that the event is about.
    pub host: Option<String>,
    /// What happened, in words.
    pub description: Option<String>,
    /// The tags, in the order of the record. None where the record has none.
    pub tags: Vec<String>,
    /// For how many seconds the event is valid.
    pub ttl: Option<JsonNumber>,
    /// When the event happened, in microseconds since the Unix epoch.
    pub time_micros: Option<i64>,
    /// The measurement.
    pub metric: Option<JsonNumber>,
    /// The members of the record that are none of the fields above, in the
    /// order of the record.
    pub attributes: Vec<(String, Json)>,
}

/// The number of members of a record that are fields of an event.
pub const FIELDS: usize = 9;

/// The field `time`: when the event happened, as an ISO 8601 text.
pub const TIME: usize = 0;

/// The field `state`: a text such as `ok` or `critical`.
pub const STATE: usize = 1;

/// The field `service`: a text.
pub const SERVICE: usize = 2;

/// The field `host`: a text.
pub const HOST: usize = 3;

/// The field `description`: a text.
pub const DESCRIPTION: usize = 4;

/// The field `tags`: an array of texts.
pub const TAGS: usize = 5;

/// The field `ttl`: for how many seconds the event is valid, a number.
pub const TTL: usize = 6;

/// The field `time_micros`: when the event happened, in microseconds since
/// the Unix epoch, an integer.
pub const TIME_MICROS: usize = 7;

/// The field `metric`: a number.
pub const METRIC: usize = 8;

/// The field that a member named `name` fills, if it fills one.
pub open spec fn field_index(name: Seq<char>) -> Option<usize> {
    if name == "time"@ {
        Some(TIME)
    } else if name == "state"@ {
        Some(STATE)
    } else if name == "service"@ {
        Some(SERVICE)
    } else if name == "host"@ {
        Some(HOST)
    } else if name == "description"@ {
        Some(DESCRIPTION)
    } else if name == "tags"@ {
        Some(TAGS)
    } else if name == "ttl"@ {
        Some(TTL)
    } else if name == "time_micros"@ {
        Some(TIME_MICROS)
    } else if name == "metric"@ {
        Some(METRIC)
    } else {
        None
    }
}

/// The value that a record gives the field `field`: that of its last member
/// that fills the field, or `None` if no member does.
pub open spec fn field_value(members: Seq<(String, Json)>, field: usize) -> Option<Json>
    decreases members.len(),
{
    if members.len() == 0 {
        None
    } else if field_index(members.last().0@) == Some(field) {
        Some(members.last().1)
    } else {
        field_value(members.drop_last(), field)
    }
}

/// The members of a record that fill no field, in their order.
pub open spec fn extra_members(members: Seq<(String, Json)>) -> Seq<(String, Json)>
    decreases members.len(),
{
    if members.len() == 0 {
        members
    } else if field_index(members.last().0@) is None {
        extra_members(members.drop_last()).push(members.last())
    } else {
        extra_members(members.drop_last())
    }
}

/// The field that a member named `name` fills, if it fills one.
pub fn field_index_of(name: &str) -> (field: Option<usize>)
    ensures
        field == field_index(name@),
        field matches Some(index) ==> index < FIELDS,
{
    if same_text(name, "time") {
        Some(TIME)
    } else if same_text(name, "state") {
        Some(STATE)
    } else if same_text(name, "service") {
        Some(SERVICE)
    } else if same_text(name, "host") {
        Some(HOST)
    } else if same_text(name, "description") {
        Some(DESCRIPTION)
    } else if same_text(name, "tags") {
        Some(TAGS)
    } else if same_text(name, "ttl") {
        Some(TTL)
    } else if same_text(name, "time_micros") {
        Some(TIME_MICROS)
    } else if same_text(name, "metric") {
        Some(METRIC)
    } else {
        None
    }
}

/// The value that `members` give the name `name`: that of the last member
/// of that name, or `None` if there is none.
pub open spec fn member_value(members: Seq<(String, Json)>, name: Seq<char>) -> Option<Json>
    decreases members.len(),
{
    if members.len() == 0 {
        None
    } else if members.last().0@ == name {
        Some(members.last().1)
    } else {
        member_value(members.drop_last(), name)
    }
}

impl Event {
    /// The attribute named `name`, if the event has one. Of several
    /// attributes of one name the last counts, as in a mapping that was
    /// filled in their order.
    pub fn attribute(&self, name: &str) -> (value: Option<&Json>)
        ensures
            match value {
                Some(found) => member_value(self.attributes@, name@) == Some(*found),
                None => member_value(self.attributes@, name@) is None,
            },
    {
        let mut left = self.attributes.len();
        assert(self.attributes@.subrange(0, left as int) =~= self.attributes@);
        while left > 0
            invariant
                left <= self.attributes@.len(),
                member_value(self.attributes@, name@) == member_value(
                    self.attributes@.subrange(0, left as int),
                    name@,
                ),
            decreases left,
        {
            let ghost upto = self.attributes@.subrange(0, left as int);
            assert(upto.last() == self.attributes@[left - 1]);
            assert(upto.drop_last() =~= self.attributes@.subrange(0, left - 1));
            left = left - 1;
            if same_text(self.attributes[left].0.as_str(), name) {
                return Some(&self.attributes[left].1);
            }
        }
        None
    }
}

/// Sorts the members of a record into the values of the fields, by field, and
/// the members that fill none.
fn split_members(members: Vec<(String, Json)>) -> (parts: (Vec<Option<Json>>, Vec<(String, Json)>))
    ensures
        parts.0@.len() == FIELDS,
        forall|field: usize|
            field < FIELDS ==> parts.0@[field as int] == field_value(members@, field),
        parts.1@ == extra_members(members@),
{
    let ghost record = members@;
    let mut pending = reversed(members);
    let mut values: Vec<Option<Json>> = Vec::new();
    while values.len() < FIELDS
        invariant
            values@.len() <= FIELDS,
            forall|field: int| 0 <= field < values@.len() ==> values@[field] is None,
        decreases FIELDS - values@.len(),
    {
        values.push(None);
    }
    let mut extras: Vec<(String, Json)> = Vec::new();
    let ghost mut read: int = 0;
    while pending.len() > 0
        invariant
            0 <= read <= record.len(),
            pending@ == record.reverse().subrange(0, record.len() - read),
            values@.len() == FIELDS,
            forall|field: usize|
                field < FIELDS ==> values@[field as int] == field_value(
                    record.subrange(0, read),
                    field,
                ),
            extras@ == extra_members(record.subrange(0, read)),
        decreases pending@.len(),
    {
        let member = pending.pop().unwrap();
        proof {
            assert(member == record[read]);
            assert(record.subrange(0, read + 1).drop_last() =~= record.subrange(0, read));
            assert(record.subrange(0, read + 1).last() == record[read]);
            assert(pending@ =~= record.reverse().subrange(0, record.len() - (read + 1)));
        }
        let (name, value) = member;
        match field_index_of(name.as_str()) {
            Some(field) => {
                values.set(field, Some(value));
            },
            None => {
                extras.push((name, value));
            },
        }
        proof {
            read = read + 1;
        }
    }
    proof {
        assert(record.subrange(0, read) =~= record);
    }
    (values, extras)
}

/// A member that is missing or `null` leaves its field empty.
pub open spec fn is_absent(value: Option<Json>) -> bool {
    value is None || value == Some(Json::Null)
}

/// The view of a text that may be missing.
pub open spec fn text_view(text: Option<String>) -> Option<Seq<char>> {
    match text {
        Some(text) => Some(text@),
        None => None,
    }
}

/// The views of a sequence of texts.
pub open spec fn texts_view(texts: Seq<String>) -> Seq<Seq<char>> {
    Seq::new(texts.len(), |i: int| texts[i]@)
}

/// Whether `value` can fill a text field: it is absent or a text.
pub open spec fn text_fits(value: Option<Json>) -> bool {
    is_absent(value) || value matches Some(Json::Text(_))
}

/// The text that `value` gives a text field.
pub open spec fn text_value(value: Option<Json>) -> Option<Seq<char>> {
    match value {
        Some(Json::Text(text)) => Some(text@),
        _ => None,
    }
}

/// Whether `value` can fill a numeric field: it is absent or a number.
pub open spec fn number_fits(value: Option<Json>) -> bool {
    is_absent(value) || value matches Some(Json::Number(_))
}

/// The number that `value` gives a numeric field.
pub open spec fn number_value(value: Option<Json>) -> Option<JsonNumber> {
    match value {
        Some(Json::Number(number)) => Some(number),
        _ => None,
    }
}

/// Whether `value` can fill an integer field: it is absent or an integer
/// that fits in 64 bits with a sign.
pub open spec fn integer_fits(value: Option<Json>) -> bool {
    is_absent(value) || (value matches Some(Json::Number(number)) && number.signed is Some)
}

/// The integer that `value` gives an integer field.
pub open spec fn integer_value(value: Option<Json>) -> Option<i64> {
    match value {
        Some(Json::Number(number)) => number.signed,
        _ => None,
    }
}

/// The instant that `OffsetDateTime::parse` reads from `text` in the format
/// ISO 8601, or `None` where it fails.
pub uninterp spec fn iso8601_timestamp(text: Seq<char>) -> Option<Timestamp>;

/// Whether `value` can fill the time field: it is absent or a text that is
/// an ISO 8601 date and time with an offset.
pub open spec fn time_fits(value: Option<Json>) -> bool {
    is_absent(value) || (value matches Some(Json::Text(text)) && iso8601_timestamp(text@) is Some)
}

/// The instant that `value` gives the time field.
pub open spec fn time_value(value: Option<Json>) -> Option<Timestamp> {
    match value {
        Some(Json::Text(text)) => iso8601_timestamp(text@),
        _ => None,
    }
}

/// Whether a document is a text.
pub open spec fn is_text(document: Json) -> bool {
    document is Text
}

/// The characters of a document that is a text.
pub open spec fn text_of(document: Json) -> Seq<char> {
    match document {
        Json::Text(text) => text@,
        _ => Seq::empty(),
    }
}

/// Whether every document of `items` is a text.
pub open spec fn all_texts(items: Seq<Json>) -> bool {
    forall|i: int| 0 <= i < items.len() ==> is_text(#[trigger] items[i])
}

/// The tags that `value` gives: its items where it is an array of texts, and
/// none for anything else, be it missing, `null` or of another shape.
pub open spec fn tag_texts(value: Option<Json>) -> Seq<Seq<char>> {
    match value {
        Some(Json::Array(items)) => if all_texts(items@) {
            Seq::new(items@.len(), |i: int| text_of(items@[i]))
        } else {
            Seq::empty()
        },
        _ => Seq::empty(),
    }
}

/// Whether the members of a record can fill the fields of an event: each
/// field gets a value that fits it. The tags fit whatever they are.
pub open spec fn record_fits(members: Seq<(String, Json)>) -> bool {
    &&& time_fits(field_value(members, TIME))
    &&& text_fits(field_value(members, STATE))
    &&& text_fits(field_value(members, SERVICE))
    &&& text_fits(field_value(members, HOST))
    &&& text_fits(field_value(members, DESCRIPTION))
    &&& number_fits(field_value(members, TTL))
    &&& integer_fits(field_value(members, TIME_MICROS))
    &&& number_fits(field_value(members, METRIC))
}

/// Whether `event` is the event that the members of a record describe.
pub open spec fn event_holds(members: Seq<(String, Json)>, event: Event) -> bool {
    &&& event.time == time_value(field_value(members, TIME))
    &&& text_view(event.state) == text_value(field_value(members, STATE))
    &&& text_view(event.service) == text_value(field_value(members, SERVICE))
    &&& text_view(event.host) == text_value(field_value(members, HOST))
    &&& text_view(event.description) == text_value(field_value(members, DESCRIPTION))
    &&& texts_view(event.tags@) == tag_texts(field_value(members, TAGS))
    &&& event.ttl == number_value(field_value(members, TTL))
    &&& event.time_micros == integer_value(field_value(members, TIME_MICROS))
    &&& event.metric == number_value(field_value(members, METRIC))
    &&& event.attributes@ == extra_members(members)
}

/// `OffsetDateTime::parse` with the format `Iso8601`: the instant that the
/// text denotes, as nanoseconds since the Unix epoch and the offset from UTC
/// in seconds, or `None` where the text is not in the format.
#[verifier::external_body]
fn parse_iso8601(text: &str) -> (instant: Option<Timestamp>)
    ensures
        instant == iso8601_timestamp(text@),
{
    match time::OffsetDateTime::parse(text, &time::format_description::well_known::Iso8601::DEFAULT)
    {
        Ok(moment) => Some(
            Timestamp {
                unix_nanos: moment.unix_timestamp_nanos(),
                offset_seconds: moment.offset().whole_seconds(),
            },
        ),
        Err(_) => None,
    }
}

/// Reads a text field. The outer `None` says that the value does not fit.
fn read_text(value: Option<Json>) -> (text: Option<Option<String>>)
    ensures
        text is Some <==> text_fits(value),
        text matches Some(read) ==> text_view(read) == text_value(value),
{
    match value {
        None => Some(None),
        Some(Json::Null) => Some(None),
        Some(Json::Text(text)) => Some(Some(text)),
        Some(_) => None,
    }
}

/// Reads a numeric field. The outer `None` says that the value does not fit.
fn read_number(value: Option<Json>) -> (number: Option<Option<JsonNumber>>)
    ensures
        number is Some <==> number_fits(value),
        number matches Some(read) ==> read == number_value(value),
{
    match value {
        None => Some(None),
        Some(Json::Null) => Some(None),
        Some(Json::Number(number)) => Some(Some(number)),
        Some(_) => None,
    }
}

/// Reads an integer field. The outer `None` says that the value does not fit.
fn read_integer(value: Option<Json>) -> (integer: Option<Option<i64>>)
    ensures
        integer is Some <==> integer_fits(value),
        integer matches Some(read) ==> read == integer_value(value),
{
    match value {
        None => Some(None),
        Some(Json::Null) => Some(None),
        Some(Json::Number(number)) => match number.signed {
            Some(integer) => Some(Some(integer)),
            None => None,
        },
        Some(_) => None,
    }
}

/// Reads the time field. The outer `None` says that the value does not fit.
fn read_time(value: Option<Json>) -> (time: Option<Option<Timestamp>>)
    ensures
        time is Some <==> time_fits(value),
        time matches Some(read) ==> read == time_value(value),
{
    match value {
        None => Some(None),
        Some(Json::Null) => Some(None),
        Some(Json::Text(text)) => match parse_iso8601(text.as_str()) {
            Some(instant) => Some(Some(instant)),
            None => None,
        },
        Some(_) => None,
    }
}

/// Reads the tags. Every value fits.
fn read_tags(value: Option<Json>) -> (tags: Vec<String>)
    ensures
        texts_view(tags@) == tag_texts(value),
{
    match value {
        Some(Json::Array(items)) => {
            let ghost array = items@;
            let mut pending = reversed(items);
            let mut tags: Vec<String> = Vec::new();
            let mut texts_only = true;
            let ghost mut read: int = 0;
            while pending.len() > 0
                invariant
                    0 <= read <= array.len(),
                    pending@ == array.reverse().subrange(0, array.len() - read),
                    texts_only <==> all_texts(array.subrange(0, read)),
                    texts_only ==> tags@.len() == read,
                    texts_only ==> forall|i: int|
                        0 <= i < read ==> (#[trigger] tags@[i])@ == text_of(array[i]),
                decreases pending@.len(),
            {
                let item = pending.pop().unwrap();
                proof {
                    assert(item == array[read]);
                    assert(pending@ =~= array.reverse().subrange(0, array.len() - (read + 1)));
                    assert(array.subrange(0, read + 1)[read] == array[read]);
                    assert(forall|i: int|
                        0 <= i < read ==> array.subrange(0, read)[i] == array.subrange(
                            0,
                            read + 1,
                        )[i]);
                }
                match item {
                    Json::Text(tag) => {
                        if texts_only {
                            tags.push(tag);
                        }
                    },
                    _ => {
                        texts_only = false;
                    },
                }
                proof {
                    read = read + 1;
                }
            }
            proof {
                assert(array.subrange(0, read) =~= array);
            }
            if texts_only {
                assert(texts_view(tags@) =~= tag_texts(value));
                tags
            } else {
                let none: Vec<String> = Vec::new();
                assert(texts_view(none@) =~= tag_texts(value));
                none
            }
        },
        _ => {
            let none: Vec<String> = Vec::new();
            assert(texts_view(none@) =~= tag_texts(value));
            none
        },
    }
}

/// The event that the members of a record describe, or `None` where some
/// member does not fit its field.
pub fn event_from_record(members: Vec<(String, Json)>) -> (event: Option<Event>)
    ensures
        match event {
            Some(read) => record_fits(members@) && event_holds(members@, read),
            None => !record_fits(members@),
        },
{
    let (values, attributes) = split_members(members);
    let mut values = values;
    let metric = read_number(values.pop().unwrap());
    let time_micros = read_integer(values.pop().unwrap());
    let ttl = read_number(values.pop().unwrap());
    let tags = read_tags(values.pop().unwrap());
    let description = read_text(values.pop().unwrap());
    let host = read_text(values.pop().unwrap());
    let service = read_text(values.pop().unwrap());
    let state = read_text(values.pop().unwrap());
    let time = read_time(values.pop().unwrap());
    match (time, state, service, host, description, ttl, time_micros, metric) {
        (
            Some(time),
            Some(state),
            Some(service),
            Some(host),
            Some(description),
            Some(ttl),
            Some(time_micros),
            Some(metric),
        ) => Some(
            Event {
                time,
                state,
                service,
                host,
                description,
                tags,
                ttl,
                time_micros,
                metric,
                attributes,
            },
        ),
        _ => None,
    }
}

/// A payload received over the connection.
#[derive(Debug, PartialEq, Eq)]
pub enum Message {
    Text(String),
    Binary(Vec<u8>),
    Ping(Vec<u8>),
    Pong(Vec<u8>),
    /// A frame of a kind the transport does not know.
    Unknown(String),
}

/// Why a message gave no event.
#[derive(Debug, PartialEq, Eq)]
pub enum DecodeError {
    /// The text is not the record of an event: it is not JSON, not an
    /// object, or a member does not fit its field. Holds the text.
    Malformed(String),
    /// The payload is not a text.
    NotText,
}

/// Whether `outcome` is what decoding the text `raw` gives, where `document`
/// is what the text holds as JSON: the event that the record describes, or
/// the failure that holds the text.
pub open spec fn decoding(raw: Seq<char>, document: Option<Json>, outcome: Result<
    Event,
    DecodeError,
>) -> bool {
    match outcome {
        Ok(event) => {
            &&& document matches Some(Json::Object(members))
            &&& record_fits(members@)
            &&& event_holds(members@, event)
        },
        Err(DecodeError::Malformed(text)) => {
            &&& text@ == raw
            &&& !(document matches Some(Json::Object(members)) && record_fits(members@))
        },
        Err(DecodeError::NotText) => false,
    }
}

/// Decodes a text, given the JSON document that it holds or `None` where it
/// holds none. The document must be a record whose members fit the fields of
/// an event; a missing or `null` member leaves its field empty, and members
/// that fill no field become the attributes. Anything else fails with the
/// text.
pub fn decode_document(raw: &str, document: Option<Json>) -> (outcome: Result<Event, DecodeError>)
    ensures
        decoding(raw@, document, outcome),
{
    match document {
        Some(Json::Object(members)) => match event_from_record(members) {
            Some(event) => Ok(event),
            None => Err(DecodeError::Malformed(raw.to_owned())),
        },
        _ => Err(DecodeError::Malformed(raw.to_owned())),
    }
}

/// Decodes the text of a message into an event.
pub fn decode(raw: &str) -> (outcome: Result<Event, DecodeError>)
    ensures
        decoding(raw@, parsed_json(raw@), outcome),
{
    decode_document(raw, parse_json(raw))
}

/// Whether `outcome` is what decoding `message` gives: what decoding its
/// text gives, and `NotText` for every other payload.
pub open spec fn decoding_message(message: Message, outcome: Result<Event, DecodeError>) -> bool {
    match message {
        Message::Text(raw) => decoding(raw@, parsed_json(raw@), outcome),
        _ => outcome == Err::<Event, DecodeError>(DecodeError::NotText),
    }
}

/// Decodes a message into an event. Only a text can hold one.
pub fn decode_message(message: Message) -> (outcome: Result<Event, DecodeError>)
    ensures
        decoding_message(message, outcome),
{
    match message {
        Message::Text(raw) => decode(raw.as_str()),
        _ => Err(DecodeError::NotText),
    }
}

/// A record none of whose members fills a field decodes, whatever else it
/// holds: no field is required. The event is empty but for the attributes,
/// which are the members.
pub proof fn lemma_no_field_is_required(members: Seq<(String, Json)>)
    requires
        forall|i: int| 0 <= i < members.len() ==> field_index(#[trigger] members[i].0@) is None,
    ensures
        record_fits(members),
        forall|field: usize| field_value(members, field) is None,
        extra_members(members) == members,
    decreases members.len(),
{
    if members.len() > 0 {
        lemma_no_field_is_required(members.drop_last());
        assert(extra_members(members) =~= members);
        assert(field_index(members[members.len() - 1].0@) is None);
        assert forall|field: usize| field_value(members, field) is None by {
            assert(field_value(members.drop_last(), field) is None);
        }
    }
}

/// A field whose member is `null` is as empty as one whose member is
/// missing, and `null` tags are no tags.
pub proof fn lemma_null_is_absent()
    ensures
        time_fits(Some(Json::Null)) && time_value(Some(Json::Null)) is None,
        text_fits(Some(Json::Null)) && text_value(Some(Json::Null)) is None,
        number_fits(Some(Json::Null)) && number_value(Some(Json::Null)) is None,
        integer_fits(Some(Json::Null)) && integer_value(Some(Json::Null)) is None,
        tag_texts(Some(Json::Null)) == Seq::<Seq<char>>::empty(),
        tag_texts(None) == Seq::<Seq<char>>::empty(),
{
}

/// No attribute of a decoded event has the name of a field, and every
/// attribute is a member of the record.
pub proof fn lemma_attributes_fill_no_field(members: Seq<(String, Json)>, i: int)
    requires
        0 <= i < extra_members(members).len(),
    ensures
        field_index(extra_members(members)[i].0@) is None,
        members.contains(extra_members(members)[i]),
    decreases members.len(),
{
    if members.len() > 0 {
        let rest = extra_members(members.drop_last());
        if i < rest.len() {
            lemma_attributes_fill_no_field(members.drop_last(), i);
            let j = choose|j: int|
                0 <= j < members.drop_last().len() && members.drop_last()[j] == rest[i];
            assert(members[j] == rest[i]);
        } else {
            assert(extra_members(members)[i] == members.last());
            assert(members[members.len() - 1] == members.last());
        }
    }
}

/// The names of the fields differ from one another: each field is filled by
/// the members of its own name and by no others.
pub proof fn lemma_each_field_has_its_name()
    ensures
        field_index("time"@) == Some(TIME),
        field_index("state"@) == Some(STATE),
        field_index("service"@) == Some(SERVICE),
        field_index("host"@) == Some(HOST),
        field_index("description"@) == Some(DESCRIPTION),
        field_index("tags"@) == Some(TAGS),
        field_index("ttl"@) == Some(TTL),
        field_index("time_micros"@) == Some(TIME_MICROS),
        field_index("metric"@) == Some(METRIC),
{
    reveal_strlit("time");
    reveal_strlit("state");
    reveal_strlit("service");
    reveal_strlit("host");
    reveal_strlit("description");
    reveal_strlit("tags");
    reveal_strlit("ttl");
    reveal_strlit("time_micros");
    reveal_strlit("metric");
    assert("time"@.len() == 4 && "time"@[1] == 'i');
    assert("state"@.len() == 5 && "state"@[1] == 't');
    assert("service"@.len() == 7);
    assert("host"@.len() == 4 && "host"@[1] == 'o');
    assert("description"@.len() == 11 && "description"@[0] == 'd');
    assert("tags"@.len() == 4 && "tags"@[1] == 'a');
    assert("ttl"@.len() == 3);
    assert("time_micros"@.len() == 11 && "time_micros"@[0] == 't');
    assert("metric"@.len() == 6);
}

} // verus!
