//! The batch of events as one envelope, the request that carries it, and
//! the emitter that holds where and how it is sent.

use crate::envelope::{envelope_json, Envelope};
use crate::event::SnowplowEvent;
use crate::json::{array_json, element_texts, quoted, ToJson};
use crate::schema::{snowplow_id, HasSchema, Schema, SchemaId, SchemaVersion};
use vstd::prelude::*;

verus! {

/// `url::Url`, a parsed URL. Nothing is said of what it holds: the library
/// only keeps it and hands it on.
#[verifier::external_type_specification]
#[verifier::external_body]
pub struct ExUrl(url::Url);

/// `reqwest::Client`, a handle to an HTTP client. Nothing is said of what it
/// holds: the library only keeps it and hands it on.
#[verifier::external_type_specification]
#[verifier::external_body]
pub struct ExClient(reqwest::Client);

/// What is sent to the collector: the events of one batch, in order, inside
/// the envelope of batches.
pub type EventContainer<'a, P> = Envelope<Vec<SnowplowEvent<'a, P>>>;

/// The identity of the envelope of batches. It is the same for every batch.
pub open spec fn batch_id() -> SchemaId {
    snowplow_id("payload_data"@, 1, 0, 4)
}

/// The URI of the envelope of batches.
pub open spec fn batch_uri() -> Seq<char> {
    "iglu:com.snowplowanalytics.snowplow/payload_data/jsonschema/1-0-4"@
}

/// The body that is sent for the given events: the envelope of batches
/// around the array of their records, in the order given.
pub open spec fn batch_wire<'a, P: HasSchema + ToJson>(
    events: Seq<SnowplowEvent<'a, P>>,
) -> Seq<char> {
    envelope_json(batch_uri(), array_json(element_texts(events)))
}

/// The identity of the envelope of batches renders to the one fixed URI.
pub proof fn batch_id_renders_to_batch_uri()
    ensures
        batch_id().uri() == batch_uri(),
{
    reveal_strlit("iglu:com.snowplowanalytics.snowplow/payload_data/jsonschema/1-0-4");
    reveal_strlit("iglu:");
    reveal_strlit("com.snowplowanalytics.snowplow");
    reveal_strlit("/");
    reveal_strlit("payload_data");
    reveal_strlit("/jsonschema/");
    reveal_strlit("-");
    assert(batch_id().uri() =~= batch_uri());
}

impl<'a, P: HasSchema> HasSchema for Vec<SnowplowEvent<'a, P>> {
    open spec fn schema_id(&self) -> SchemaId {
        batch_id()
    }

    fn schema(&self) -> (s: Schema) {
        Schema::new_snowplow("payload_data", SchemaVersion::new(1, 0, 4))
    }
}

impl<'a, P: HasSchema> EventContainer<'a, P> {
    /// Puts the given events, in the order given, into the envelope of
    /// batches. No events at all make a batch too.
    pub fn new(events: Vec<SnowplowEvent<'a, P>>) -> (c: EventContainer<'a, P>)
        ensures
            c.payload() == events,
            c.uri() == batch_uri(),
    {
        proof {
            batch_id_renders_to_batch_uri();
        }
        Envelope::wrap(events)
    }
}

/// The body of the one request that carries the given events.
pub fn batch_body<'a, P: HasSchema + ToJson>(events: Vec<SnowplowEvent<'a, P>>) -> (body: String)
    ensures
        body@ == batch_wire(events@),
{
    let container = EventContainer::new(events);
    container.to_json()
}

/// The body of the one request that carries a single event: that of the
/// batch which holds this event and no other.
pub fn single_body<'a, P: HasSchema + ToJson>(event: SnowplowEvent<'a, P>) -> (body: String)
    ensures
        body@ == batch_wire(seq![event]),
{
    let mut events: Vec<SnowplowEvent<'a, P>> = Vec::new();
    events.push(event);
    assert(events@ =~= seq![event]);
    batch_body(events)
}

/// What is handed to the transport for one delivery: a POST to the
/// collector with this content type and this body.
pub struct Request {
    pub content_type: &'static str,
    pub body: String,
}

/// Where events are sent and what sends them: the collector's URL and an
/// HTTP client. Neither changes once the emitter is made, and making an
/// emitter connects to nothing.
pub struct Emitter {
    collector_url: url::Url,
    client: reqwest::Client,
}

impl Emitter {
    /// The URL that the emitter was made with.
    pub closed spec fn url(&self) -> url::Url {
        self.collector_url
    }

    /// The client that the emitter was made with.
    pub closed spec fn handle(&self) -> reqwest::Client {
        self.client
    }

    /// An emitter that sends to the given URL with the given client.
    pub fn new(collector_url: url::Url, client: reqwest::Client) -> (e: Emitter)
        ensures
            e.url() == collector_url,
            e.handle() == client,
    {
        Emitter { collector_url, client }
    }

    /// The collector's URL.
    pub fn collector_url(&self) -> (r: &url::Url)
        ensures
            *r == self.url(),
    {
        &self.collector_url
    }

    /// The HTTP client.
    pub fn client(&self) -> (r: &reqwest::Client)
        ensures
            *r == self.handle(),
    {
        &self.client
    }

    /// The one request that this emitter makes for the given events, in
    /// the order given.
    pub fn events_request<'a, P: HasSchema + ToJson>(
        &self,
        events: Vec<SnowplowEvent<'a, P>>,
    ) -> (r: Request)
        ensures
            r.content_type@ == "application/json"@,
            r.body@ == batch_wire(events@),
    {
        Request { content_type: "application/json", body: batch_body(events) }
    }

    /// The one request that this emitter makes for a single event: that of
    /// the batch which holds this event and no other.
    pub fn event_request<'a, P: HasSchema + ToJson>(
        &self,
        event: SnowplowEvent<'a, P>,
    ) -> (r: Request)
        ensures
            r.content_type@ == "application/json"@,
            r.body@ == batch_wire(seq![event]),
    {
        Request { content_type: "application/json", body: single_body(event) }
    }
}

/// Every batch carries the one fixed URI, whatever its events hold, and
/// is sent as the envelope with that URI around the array of its events'
/// records, in their order.
pub proof fn batch_uri_is_fixed<'a, P: HasSchema + ToJson>(c: EventContainer<'a, P>)
    ensures
        c.uri() == batch_uri(),
        c.json() == batch_wire(c.payload()@),
{
    batch_id_renders_to_batch_uri();
}

/// A batch of no events is sent with an empty array as its `data`.
pub proof fn empty_batch_has_empty_array<'a, P: HasSchema + ToJson>(
    events: Seq<SnowplowEvent<'a, P>>,
)
    requires
        events.len() == 0,
    ensures
        batch_wire(events) == "{\"schema\":"@ + quoted(batch_uri()) + ",\"data\":"@
            + "[]"@ + "}"@,
{
    reveal_strlit("[]");
    reveal_strlit("[");
    reveal_strlit("]");
    assert(array_json(element_texts(events)) =~= "[]"@);
}

} // verus!
