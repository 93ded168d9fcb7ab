//! The envelope that pairs a payload with the URI of its schema.

use crate::json::{quote, quoted, ToJson};
use crate::schema::{snowplow_id, HasSchema, Schema, SchemaId, SchemaVersion};
use vstd::prelude::*;
use vstd::string::*;

verus! {

/// A payload together with the canonical URI of its schema. The URI is
/// taken once, when the payload is wrapped; an envelope does not change
/// afterwards.
pub struct Envelope<T: HasSchema> {
    schema: String,
    data: T,
}

/// A self-describing payload: an envelope inside the envelope of
/// self-describing events.
pub type PayloadWrapper<T> = Envelope<Envelope<T>>;

/// The JSON object with the key `schema` first and the key `data` second.
pub open spec fn envelope_json(schema: Seq<char>, data: Seq<char>) -> Seq<char> {
    "{\"schema\":"@ + quoted(schema) + ",\"data\":"@ + data + "}"@
}

/// The identity of the envelope of self-describing events.
pub open spec fn unstruct_event_id() -> SchemaId {
    snowplow_id("unstruct_event"@, 1, 0, 0)
}

/// The URI of the envelope of self-describing events.
pub open spec fn unstruct_event_uri() -> Seq<char> {
    "iglu:com.snowplowanalytics.snowplow/unstruct_event/jsonschema/1-0-0"@
}

/// The identity of the envelope of self-describing events renders to the
/// one fixed URI.
pub proof fn unstruct_event_id_renders_to_its_uri()
    ensures
        unstruct_event_id().uri() == unstruct_event_uri(),
{
    reveal_strlit("iglu:com.snowplowanalytics.snowplow/unstruct_event/jsonschema/1-0-0");
    reveal_strlit("iglu:");
    reveal_strlit("com.snowplowanalytics.snowplow");
    reveal_strlit("/");
    reveal_strlit("unstruct_event");
    reveal_strlit("/jsonschema/");
    reveal_strlit("-");
    assert(unstruct_event_id().uri() =~= unstruct_event_uri());
}

impl<T: HasSchema> Envelope<T> {
    /// The URI that an envelope keeps is that of the identity which its
    /// payload reports.
    #[verifier::type_invariant]
    spec fn keeps_uri_of_payload(self) -> bool {
        self.schema@ == self.data.schema_id().uri()
    }

    /// The payload that the envelope holds.
    pub closed spec fn payload(&self) -> T {
        self.data
    }

    /// The URI that the envelope carries: the canonical URI of the identity
    /// that its payload reports.
    pub open spec fn uri(&self) -> Seq<char> {
        self.payload().schema_id().uri()
    }

    /// Wraps `payload`: asks it once for its identity and keeps the URI
    /// beside it.
    pub fn wrap(payload: T) -> (e: Envelope<T>)
        ensures
            e.payload() == payload,
    {
        let schema = payload.schema().uri();
        Envelope { schema, data: payload }
    }

    /// The URI that the envelope carries.
    pub fn schema_uri(&self) -> (r: &str)
        ensures
            r@ == self.uri(),
    {
        proof {
            use_type_invariant(self);
        }
        self.schema.as_str()
    }

    /// The payload that the envelope holds.
    pub fn data(&self) -> (r: &T)
        ensures
            *r == self.payload(),
    {
        &self.data
    }

    /// Gives up the envelope for the payload that it holds.
    pub fn into_data(self) -> (r: T)
        ensures
            r == self.payload(),
    {
        self.data
    }
}

impl<T: HasSchema> HasSchema for Envelope<T> {
    open spec fn schema_id(&self) -> SchemaId {
        unstruct_event_id()
    }

    fn schema(&self) -> (s: Schema) {
        Schema::new_snowplow("unstruct_event", SchemaVersion::new(1, 0, 0))
    }
}

impl<T: HasSchema + ToJson> ToJson for Envelope<T> {
    /// An envelope is sent as an object whose first key is `schema`, with
    /// the URI of the identity that the payload reports, and whose second
    /// key is `data`, with the payload's own text.
    open spec fn json(&self) -> Seq<char> {
        envelope_json(self.uri(), self.payload().json())
    }

    fn to_json(&self) -> (r: String) {
        proof {
            use_type_invariant(self);
        }
        let mut out = String::from_str("{\"schema\":");
        let schema = quote(self.schema.as_str());
        out.append(schema.as_str());
        out.append(",\"data\":");
        let data = self.data.to_json();
        out.append(data.as_str());
        out.append("}");
        out
    }
}

impl<T: HasSchema> PayloadWrapper<T> {
    /// Wraps `payload` twice: in its own envelope, and that in the envelope
    /// of self-describing events.
    pub fn new(payload: T) -> (w: PayloadWrapper<T>)
        ensures
            w.payload().payload() == payload,
    {
        Envelope::wrap(Envelope::wrap(payload))
    }
}

/// A wrapped payload is sent as an object whose first key is `schema`, with
/// the URI of the identity that the payload reports, and whose second key is
/// `data`, with the payload's own text.
pub proof fn wrap_puts_schema_first<T: HasSchema + ToJson>(e: Envelope<T>)
    ensures
        e.json() == "{\"schema\":"@ + quoted(e.payload().schema_id().uri()) + ",\"data\":"@
            + e.payload().json() + "}"@,
        "{\"schema\":"@.is_prefix_of(e.json()),
{
}

/// A self-describing payload is sent nested, not flattened: the outer
/// object carries the identity of self-describing events, and its `data` is
/// the whole inner object, which carries the payload's identity and text.
pub proof fn self_describing_is_nested<T: HasSchema + ToJson>(w: PayloadWrapper<T>)
    ensures
        w.uri() == unstruct_event_uri(),
        w.json() == envelope_json(
            unstruct_event_uri(),
            envelope_json(w.payload().payload().schema_id().uri(), w.payload().payload().json()),
        ),
{
    unstruct_event_id_renders_to_its_uri();
}

} // verus!
