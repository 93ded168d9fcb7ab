//! The event record as it goes over the wire.

use crate::envelope::PayloadWrapper;
use crate::json::{quote, quoted, JsonString, ToJson};
use crate::schema::HasSchema;
use crate::text::{decimal, decimal_text, uuid, uuid_text};
use vstd::prelude::*;
use vstd::string::*;

verus! {

/// The kind of an event.
#[derive(Clone, Copy, Debug, PartialEq, Eq, Structural)]
pub enum EventType {
    PageView,
    PagePing,
    StructuredEvent,
    SelfDescribingEvent,
    Transaction,
    TransactionItem,
}

impl EventType {
    /// The code that stands for the kind on the wire.
    pub open spec fn code_text(self) -> Seq<char> {
        match self {
            EventType::PageView => "pv"@,
            EventType::PagePing => "pp"@,
            EventType::StructuredEvent => "se"@,
            EventType::SelfDescribingEvent => "ue"@,
            EventType::Transaction => "tr"@,
            EventType::TransactionItem => "ti"@,
        }
    }

    /// The code that stands for the kind on the wire.
    pub fn code(self) -> (r: &'static str)
        ensures
            r@ == self.code_text(),
    {
        match self {
            EventType::PageView => "pv",
            EventType::PagePing => "pp",
            EventType::StructuredEvent => "se",
            EventType::SelfDescribingEvent => "ue",
            EventType::Transaction => "tr",
            EventType::TransactionItem => "ti",
        }
    }
}

/// The kind of device or program that an event comes from.
#[derive(Clone, Copy, Debug, PartialEq, Eq, Structural)]
pub enum Platform {
    Web,
    Mobile,
    Desktop,
    ServerSideApp,
    General,
    ConnectedTV,
    GameConsole,
    InternetOfThings,
}

impl Platform {
    /// The code that stands for the platform on the wire.
    pub open spec fn code_text(self) -> Seq<char> {
        match self {
            Platform::Web => "web"@,
            Platform::Mobile => "mob"@,
            Platform::Desktop => "pc"@,
            Platform::ServerSideApp => "srv"@,
            Platform::General => "app"@,
            Platform::ConnectedTV => "tv"@,
            Platform::GameConsole => "cnsl"@,
            Platform::InternetOfThings => "iot"@,
        }
    }

    /// The code that stands for the platform on the wire.
    pub fn code(self) -> (r: &'static str)
        ensures
            r@ == self.code_text(),
    {
        match self {
            Platform::Web => "web",
            Platform::Mobile => "mob",
            Platform::Desktop => "pc",
            Platform::ServerSideApp => "srv",
            Platform::General => "app",
            Platform::ConnectedTV => "tv",
            Platform::GameConsole => "cnsl",
            Platform::InternetOfThings => "iot",
        }
    }
}

/// One fully formed event, ready to be sent. Timestamps are milliseconds
/// since the epoch; the identifier is the 128-bit value of a UUID.
pub struct SnowplowEvent<'a, P: HasSchema> {
    pub event_type: EventType,
    pub payload: JsonString<PayloadWrapper<P>>,
    pub platform: Platform,
    pub app_id: &'a str,
    pub tracker_id: &'a str,
    pub namespace: &'a str,
    pub event_id: Option<u128>,
    pub created_timestamp: u64,
    pub sent_timestamp: u64,
}

/// The part of a record up to and including its namespace.
pub open spec fn record_head(
    event_type: EventType,
    payload: Seq<char>,
    platform: Platform,
    app_id: Seq<char>,
    tracker_id: Seq<char>,
    namespace: Seq<char>,
) -> Seq<char> {
    "{\"e\":"@ + quoted(event_type.code_text()) + ",\"ue_pr\":"@ + payload + ",\"p\":"@ + quoted(
        platform.code_text(),
    ) + ",\"aid\":"@ + quoted(app_id) + ",\"tv\":"@ + quoted(tracker_id) + ",\"tna\":"@ + quoted(
        namespace,
    )
}

/// The key `eid` with the identifier in its hyphenated form; nothing at all
/// where the record has no identifier.
pub open spec fn record_id(event_id: Option<u128>) -> Seq<char> {
    match event_id {
        Some(id) => ",\"eid\":"@ + quoted(uuid_text(id as nat)),
        None => Seq::empty(),
    }
}

/// The two timestamps, each as a string of decimal digits, and the end of
/// the record.
pub open spec fn record_tail(created: u64, sent: u64) -> Seq<char> {
    ",\"dtm\":"@ + quoted(decimal_text(created as nat)) + ",\"stm\":"@ + quoted(
        decimal_text(sent as nat),
    ) + "}"@
}

impl<'a, P: HasSchema + ToJson> ToJson for SnowplowEvent<'a, P> {
    /// The record as a JSON object with the keys `e`, `ue_pr`, `p`, `aid`,
    /// `tv`, `tna`, `eid` (where there is an identifier), `dtm` and `stm`,
    /// in this order.
    open spec fn json(&self) -> Seq<char> {
        record_head(
            self.event_type,
            self.payload.json(),
            self.platform,
            self.app_id@,
            self.tracker_id@,
            self.namespace@,
        ) + record_id(self.event_id) + record_tail(self.created_timestamp, self.sent_timestamp)
    }

    fn to_json(&self) -> (r: String) {
        let mut out = String::from_str("{\"e\":");
        let mut part = quote(self.event_type.code());
        out.append(part.as_str());
        out.append(",\"ue_pr\":");
        part = self.payload.to_json();
        out.append(part.as_str());
        out.append(",\"p\":");
        part = quote(self.platform.code());
        out.append(part.as_str());
        out.append(",\"aid\":");
        part = quote(self.app_id);
        out.append(part.as_str());
        out.append(",\"tv\":");
        part = quote(self.tracker_id);
        out.append(part.as_str());
        out.append(",\"tna\":");
        part = quote(self.namespace);
        out.append(part.as_str());
        if let Some(id) = self.event_id {
            let mut key = String::from_str(",\"eid\":");
            let text = uuid(id);
            part = quote(text.as_str());
            key.append(part.as_str());
            out.append(key.as_str());
        }
        assert(out@ =~= record_head(
            self.event_type,
            self.payload.json(),
            self.platform,
            self.app_id@,
            self.tracker_id@,
            self.namespace@,
        ) + record_id(self.event_id));
        let mut tail = String::from_str(",\"dtm\":");
        let created = decimal(self.created_timestamp);
        part = quote(created.as_str());
        tail.append(part.as_str());
        tail.append(",\"stm\":");
        let sent = decimal(self.sent_timestamp);
        part = quote(sent.as_str());
        tail.append(part.as_str());
        tail.append("}");
        out.append(tail.as_str());
        out
    }
}

} // verus!
