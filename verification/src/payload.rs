//! A payload that is given as data: the identity of its schema and its
//! JSON text.

use crate::json::{object, object_json, Member, ToJson};
use crate::schema::{HasSchema, Schema, SchemaId};
use vstd::prelude::*;

verus! {

/// A payload whose JSON text is already at hand, with the identity of the
/// schema that describes it. The text is sent as it is.
pub struct JsonPayload {
    pub schema: Schema,
    pub text: String,
}

impl JsonPayload {
    /// The payload with the given identity and JSON text.
    pub fn new(schema: Schema, text: String) -> (p: JsonPayload)
        ensures
            p.schema == schema,
            p.text == text,
    {
        JsonPayload { schema, text }
    }

    /// The payload with the given identity whose text is the JSON object
    /// with the given members, in the order given.
    pub fn from_members(schema: Schema, members: &Vec<Member>) -> (p: JsonPayload)
        ensures
            p.schema == schema,
            p.text@ == object_json(members@),
    {
        JsonPayload { schema, text: object(members) }
    }
}

impl HasSchema for JsonPayload {
    open spec fn schema_id(&self) -> SchemaId {
        self.schema@
    }

    fn schema(&self) -> (s: Schema) {
        Schema::new(self.schema.vendor(), self.schema.name(), self.schema.version())
    }
}

impl ToJson for JsonPayload {
    open spec fn json(&self) -> Seq<char> {
        self.text@
    }

    fn to_json(&self) -> (r: String) {
        self.text.clone()
    }
}

} // verus!
