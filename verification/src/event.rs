//! Events, as callers build them and as the service takes them.

use crate::dict::Dict;
use crate::error::ClientError;
use vstd::prelude::*;
use vstd::string::*;

verus! {

/// Something that happened to a user, with the properties that describe it.
#[derive(Debug)]
pub struct Event {
    pub event: String,
    pub distinct_id: String,
    pub properties: Dict<serde_json::Value>,
}

/// An `Event` as plain data.
pub struct EventView {
    pub event: Seq<char>,
    pub distinct_id: Seq<char>,
    pub properties: Map<Seq<char>, serde_json::Value>,
}

impl View for Event {
    type V = EventView;

    open spec fn view(&self) -> EventView {
        EventView {
            event: self.event@,
            distinct_id: self.distinct_id@,
            properties: self.properties@,
        }
    }
}

impl EventView {
    /// The event named `event` of the user `distinct_id`, without properties.
    pub open spec fn named(event: Seq<char>, distinct_id: Seq<char>) -> EventView {
        EventView { event, distinct_id, properties: Map::empty() }
    }

    /// The event with the property `key` set to `value`.
    pub open spec fn with_prop(self, key: Seq<char>, value: serde_json::Value) -> EventView {
        EventView { properties: self.properties.insert(key, value), ..self }
    }
}

impl Event {
    /// The event named `event` of the user `distinct_id`, without properties.
    pub fn new(event: &str, distinct_id: &str) -> (made: Event)
        ensures
            made@ == EventView::named(event@, distinct_id@),
    {
        Event {
            event: event.to_owned(),
            distinct_id: distinct_id.to_owned(),
            properties: Dict::new(),
        }
    }

    /// Sets the property `key` to the JSON value that `serde_json::to_value`
    /// made of it. Where that call failed, the event stays as it is and its
    /// error comes back as a serialization error.
    pub fn insert_prop(
        &mut self,
        key: &str,
        prop: Result<serde_json::Value, serde_json::Error>,
    ) -> (done: Result<(), ClientError>)
        ensures
            match prop {
                Ok(value) => done is Ok && final(self)@ == old(self)@.with_prop(key@, value),
                Err(error) => {
                    &&& final(self)@ == old(self)@
                    &&& done matches Err(ClientError::Serialization(message))
                    &&& to_string_from_display_ensures::<serde_json::Error>(&error, message)
                },
            },
    {
        match prop {
            Ok(value) => {
                self.properties.insert(key.to_owned(), value);
                Ok(())
            },
            Err(error) => Err(ClientError::serialization(&error)),
        }
    }
}

/// An event together with the key of the project that it is sent to.
#[derive(Debug)]
pub struct InnerEvent {
    pub api_key: String,
    pub event: String,
    pub distinct_id: String,
    pub properties: Dict<serde_json::Value>,
}

/// An `InnerEvent` as plain data.
pub struct InnerEventView {
    pub api_key: Seq<char>,
    pub event: Seq<char>,
    pub distinct_id: Seq<char>,
    pub properties: Map<Seq<char>, serde_json::Value>,
}

impl View for InnerEvent {
    type V = InnerEventView;

    open spec fn view(&self) -> InnerEventView {
        InnerEventView {
            api_key: self.api_key@,
            event: self.event@,
            distinct_id: self.distinct_id@,
            properties: self.properties@,
        }
    }
}

impl InnerEventView {
    /// `event` as it is sent under the key `api_key`.
    pub open spec fn keyed(event: EventView, api_key: Seq<char>) -> InnerEventView {
        InnerEventView {
            api_key,
            event: event.event,
            distinct_id: event.distinct_id,
            properties: event.properties,
        }
    }
}

impl InnerEvent {
    /// `event` as it is sent under the key `api_key`.
    pub fn new(event: Event, api_key: String) -> (made: InnerEvent)
        ensures
            made@ == InnerEventView::keyed(event@, api_key@),
    {
        InnerEvent {
            api_key,
            event: event.event,
            distinct_id: event.distinct_id,
            properties: event.properties,
        }
    }
}

} // verus!
