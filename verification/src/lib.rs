//! Schema-tagged envelopes for telemetry events and the wire body of a batch.

pub mod delivery;
pub mod emitter;
pub mod envelope;
pub mod event;
pub mod json;
pub mod payload;
pub mod schema;
pub mod text;
