use snowplow_tracker::delivery::{Delivery, Pending, Transport};
use snowplow_tracker::emitter::Emitter;
use snowplow_tracker::envelope::{Envelope, PayloadWrapper};
use snowplow_tracker::event::{EventType, Platform, SnowplowEvent};
use snowplow_tracker::json::{JsonString, ToJson};
use snowplow_tracker::payload::JsonPayload;
use snowplow_tracker::schema::{HasSchema, Schema, SchemaVersion};

fn run(events: &[Transport]) -> Delivery {
    let mut state = Delivery::start();
    for event in events {
        state = state.on(*event);
    }
    state
}

#[test]
fn schema_renders_to_its_uri() {
    let s = Schema::new("org.schema", "WebPage", SchemaVersion::new(1, 0, 0));
    assert_eq!(s.uri(), "iglu:org.schema/WebPage/jsonschema/1-0-0");
    let t = Schema::new("com.acme", "click", SchemaVersion::new(12, 340, 5678));
    assert_eq!(t.uri(), "iglu:com.acme/click/jsonschema/12-340-5678");
    let big = Schema::new("v", "n", SchemaVersion::new(u64::MAX, 0, 10));
    assert_eq!(big.uri(), "iglu:v/n/jsonschema/18446744073709551615-0-10");
}

#[test]
fn schema_takes_vendor_and_name_as_given() {
    let s = Schema::new("", "a b/\"c\"", SchemaVersion::new(0, 0, 0));
    assert_eq!(s.vendor(), "");
    assert_eq!(s.name(), "a b/\"c\"");
    assert_eq!(s.version(), SchemaVersion::new(0, 0, 0));
    assert_eq!(s.uri(), "iglu:/a b/\"c\"/jsonschema/0-0-0");
    let e = Envelope::wrap(JsonPayload::new(s, "null".to_owned()));
    assert_eq!(
        e.to_json(),
        "{\"schema\":\"iglu:/a b/\\\"c\\\"/jsonschema/0-0-0\",\"data\":null}"
    );
}

#[test]
fn snowplow_schema_has_the_platform_vendor() {
    let s = Schema::new_snowplow("payload_data", SchemaVersion::new(1, 0, 4));
    assert_eq!(s.vendor(), "com.snowplowanalytics.snowplow");
    assert_eq!(s.name(), "payload_data");
    assert_eq!(
        s.uri(),
        "iglu:com.snowplowanalytics.snowplow/payload_data/jsonschema/1-0-4"
    );
}

#[test]
fn schemas_are_the_same_only_if_every_part_agrees() {
    let base = Schema::new("v", "n", SchemaVersion::new(1, 2, 3));
    assert!(base.same_as(&Schema::new("v", "n", SchemaVersion::new(1, 2, 3))));
    assert!(!base.same_as(&Schema::new("w", "n", SchemaVersion::new(1, 2, 3))));
    assert!(!base.same_as(&Schema::new("v", "m", SchemaVersion::new(1, 2, 3))));
    assert!(!base.same_as(&Schema::new("v", "n", SchemaVersion::new(2, 2, 3))));
    assert!(!base.same_as(&Schema::new("v", "n", SchemaVersion::new(1, 3, 3))));
    assert!(!base.same_as(&Schema::new("v", "n", SchemaVersion::new(1, 2, 4))));
    assert!(!base.same_as(&Schema::new("v", "n", SchemaVersion::new(1, 3, 2))));
    assert!(base == Schema::new("v", "n", SchemaVersion::new(1, 2, 3)));
    assert!(base != Schema::new("v", "n", SchemaVersion::new(1, 2, 30)));
    assert!(base != Schema::new("vn", "", SchemaVersion::new(1, 2, 3)));
}

#[test]
fn payload_reports_the_schema_it_was_given() {
    let p = JsonPayload::new(
        Schema::new("v", "n", SchemaVersion::new(1, 2, 3)),
        "{}".to_owned(),
    );
    assert!(p
        .schema()
        .same_as(&Schema::new("v", "n", SchemaVersion::new(1, 2, 3))));
    assert_eq!(p.to_json(), "{}");
    let w = PayloadWrapper::new(p);
    assert_eq!(
        w.to_json(),
        "{\"schema\":\"iglu:com.snowplowanalytics.snowplow/unstruct_event/jsonschema/1-0-0\",\"data\":{\"schema\":\"iglu:v/n/jsonschema/1-2-3\",\"data\":{}}}"
    );
}

#[test]
fn wrap_is_a_snapshot_of_the_identity() {
    let p = JsonPayload::new(
        Schema::new("v", "n", SchemaVersion::new(1, 0, 0)),
        "1".to_owned(),
    );
    let e = Envelope::wrap(p);
    assert_eq!(e.schema_uri(), "iglu:v/n/jsonschema/1-0-0");
    assert_eq!(e.data().text, "1");
    assert_eq!(
        e.to_json(),
        "{\"schema\":\"iglu:v/n/jsonschema/1-0-0\",\"data\":1}"
    );
    let mut back = e.into_data();
    back.schema = Schema::new("other", "thing", SchemaVersion::new(9, 9, 9));
    assert_eq!(
        Envelope::wrap(back).schema_uri(),
        "iglu:other/thing/jsonschema/9-9-9"
    );
}

#[test]
fn requests_are_json_posts_of_the_batch() {
    let event = |text: &str| SnowplowEvent {
        event_type: EventType::StructuredEvent,
        payload: JsonString(PayloadWrapper::new(JsonPayload::new(
            Schema::new("v", "n", SchemaVersion::new(1, 0, 0)),
            text.to_owned(),
        ))),
        platform: Platform::ServerSideApp,
        app_id: "app",
        tracker_id: "rust",
        namespace: "ns",
        event_id: None,
        created_timestamp: 1,
        sent_timestamp: 2,
    };
    let emitter = Emitter::new(
        url::Url::parse("http://localhost/").unwrap(),
        reqwest::Client::new(),
    );
    let one = emitter.event_request(event("7"));
    let batch = emitter.events_request(vec![event("7")]);
    assert_eq!(one.content_type, "application/json");
    assert_eq!(batch.content_type, "application/json");
    assert_eq!(one.body, batch.body);
    assert_eq!(
        one.body,
        "{\"schema\":\"iglu:com.snowplowanalytics.snowplow/payload_data/jsonschema/1-0-4\",\"data\":[{\"e\":\"se\",\"ue_pr\":\"{\\\"schema\\\":\\\"iglu:com.snowplowanalytics.snowplow/unstruct_event/jsonschema/1-0-0\\\",\\\"data\\\":{\\\"schema\\\":\\\"iglu:v/n/jsonschema/1-0-0\\\",\\\"data\\\":7}}\",\"p\":\"srv\",\"aid\":\"app\",\"tv\":\"rust\",\"tna\":\"ns\",\"dtm\":\"1\",\"stm\":\"2\"}]}"
    );
    let parsed: serde_json::Value = serde_json::from_str(&one.body).unwrap();
    assert_eq!(parsed["data"][0]["stm"], "2");
    let inner: serde_json::Value =
        serde_json::from_str(parsed["data"][0]["ue_pr"].as_str().unwrap()).unwrap();
    assert_eq!(inner["data"]["data"], 7);
}

#[test]
fn delivery_succeeds_when_the_body_ends() {
    assert_eq!(Delivery::start(), Delivery::Sending);
    assert_eq!(Delivery::start().pending(), Pending::Response);
    assert_eq!(run(&[Transport::Responded]), Delivery::Draining);
    assert_eq!(run(&[Transport::Responded]).pending(), Pending::Body);
    assert_eq!(
        run(&[Transport::Responded, Transport::Ended]),
        Delivery::Delivered
    );
    assert_eq!(
        run(&[
            Transport::Responded,
            Transport::Chunk,
            Transport::Chunk,
            Transport::Ended
        ]),
        Delivery::Delivered
    );
    assert_eq!(Delivery::Delivered.pending(), Pending::Report(true));
}

#[test]
fn delivery_fails_when_the_transport_fails() {
    assert_eq!(run(&[Transport::Failed]), Delivery::Failed);
    assert_eq!(
        run(&[Transport::Failed, Transport::Responded, Transport::Ended]),
        Delivery::Failed
    );
    assert_eq!(
        run(&[Transport::Responded, Transport::Chunk, Transport::Failed]),
        Delivery::Failed
    );
    assert_eq!(
        run(&[
            Transport::Responded,
            Transport::Failed,
            Transport::Ended
        ]),
        Delivery::Failed
    );
    assert_eq!(Delivery::Failed.pending(), Pending::Report(false));
}

#[test]
fn delivery_that_is_over_stays_as_it_is() {
    for event in [
        Transport::Responded,
        Transport::Chunk,
        Transport::Ended,
        Transport::Failed,
    ] {
        assert_eq!(Delivery::Delivered.on(event), Delivery::Delivered);
        assert_eq!(Delivery::Failed.on(event), Delivery::Failed);
    }
    assert_eq!(Delivery::Sending.on(Transport::Chunk), Delivery::Sending);
    assert_eq!(Delivery::Sending.on(Transport::Ended), Delivery::Sending);
    assert_eq!(
        Delivery::Draining.on(Transport::Responded),
        Delivery::Draining
    );
}

#[test]
fn emitter_keeps_what_it_was_made_with() {
    let url = url::Url::parse("http://localhost:9090/collector").unwrap();
    let emitter = Emitter::new(url.clone(), reqwest::Client::new());
    assert_eq!(emitter.collector_url(), &url);
    assert_eq!(
        emitter.collector_url().as_str(),
        "http://localhost:9090/collector"
    );
    let _client: &reqwest::Client = emitter.client();
    let none: Vec<SnowplowEvent<'static, JsonPayload>> = Vec::new();
    let request = emitter.events_request(none);
    assert_eq!(request.content_type, "application/json");
    assert_eq!(
        request.body,
        "{\"schema\":\"iglu:com.snowplowanalytics.snowplow/payload_data/jsonschema/1-0-4\",\"data\":[]}"
    );
}

#[test]
fn emitter_sends_a_single_event_as_a_batch_of_one() {
    let emitter = Emitter::new(
        url::Url::parse("https://collector.example/").unwrap(),
        reqwest::Client::new(),
    );
    let event = |at: u64| SnowplowEvent {
        event_type: EventType::PageView,
        payload: JsonString(PayloadWrapper::new(JsonPayload::new(
            Schema::new("v", "n", SchemaVersion::new(1, 0, 0)),
            "{}".to_owned(),
        ))),
        platform: Platform::Web,
        app_id: "a",
        tracker_id: "t",
        namespace: "n",
        event_id: Some(1),
        created_timestamp: at,
        sent_timestamp: at,
    };
    let one = emitter.event_request(event(5));
    let batch = emitter.events_request(vec![event(5)]);
    assert_eq!(one.content_type, batch.content_type);
    assert_eq!(one.body, batch.body);
    assert_ne!(one.body, emitter.events_request(vec![event(6)]).body);
    assert_ne!(
        one.body,
        emitter.events_request(vec![event(5), event(5)]).body
    );
}
