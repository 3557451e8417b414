//! Feature-flag queries, and what the decide endpoint takes and answers.

use crate::dict::Dict;
use crate::error::ClientError;
use vstd::prelude::*;
use vstd::string::*;

verus! {

/// A query for one feature flag on behalf of one user.
#[derive(Debug)]
pub struct FeatureFlagPayload {
    pub key: String,
    pub distinct_id: String,
    pub properties: Dict<serde_json::Value>,
    pub groups: Dict<String>,
}

/// A `FeatureFlagPayload` as plain data.
pub struct FeatureFlagPayloadView {
    pub key: Seq<char>,
    pub distinct_id: Seq<char>,
    pub properties: Map<Seq<char>, serde_json::Value>,
    pub groups: Map<Seq<char>, Seq<char>>,
}

impl View for FeatureFlagPayload {
    type V = FeatureFlagPayloadView;

    open spec fn view(&self) -> FeatureFlagPayloadView {
        FeatureFlagPayloadView {
            key: self.key@,
            distinct_id: self.distinct_id@,
            properties: self.properties@,
            groups: self.groups@.map_values(|group: String| group@),
        }
    }
}

impl FeatureFlagPayloadView {
    /// The query for the flag `key` on behalf of the user `distinct_id`, without
    /// properties or groups.
    pub open spec fn plain(key: Seq<char>, distinct_id: Seq<char>) -> FeatureFlagPayloadView {
        FeatureFlagPayloadView {
            key,
            distinct_id,
            properties: Map::empty(),
            groups: Map::empty(),
        }
    }

    /// The query with the property `key` set to `value`.
    pub open spec fn with_prop(self, key: Seq<char>, value: serde_json::Value) -> FeatureFlagPayloadView {
        FeatureFlagPayloadView { properties: self.properties.insert(key, value), ..self }
    }

    /// True when the query names a flag and a user: only such a query is sent.
    pub open spec fn is_valid(self) -> bool {
        self.key.len() > 0 && self.distinct_id.len() > 0
    }
}

impl FeatureFlagPayload {
    /// The query for the flag `key` on behalf of the user `distinct_id`, without
    /// properties or groups.
    pub fn new(key: &str, distinct_id: &str) -> (made: FeatureFlagPayload)
        ensures
            made@ == FeatureFlagPayloadView::plain(key@, distinct_id@),
    {
        let made = FeatureFlagPayload {
            key: key.to_owned(),
            distinct_id: distinct_id.to_owned(),
            properties: Dict::new(),
            groups: Dict::new(),
        };
        assert(made@.groups =~= Map::empty());
        made
    }

    /// Sets the property `key` to the JSON value that `serde_json::to_value`
    /// made of it. Where that call failed, the query stays as it is and its
    /// error comes back as a serialization error.
    pub fn insert_prop(
        &mut self,
        key: &str,
        prop: Result<serde_json::Value, serde_json::Error>,
    ) -> (done: Result<(), ClientError>)
        ensures
            match prop {
                Ok(value) => done is Ok && final(self)@ == old(self)@.with_prop(key@, value),
                Err(error) => {
                    &&& final(self)@ == old(self)@
                    &&& done matches Err(ClientError::Serialization(message))
                    &&& to_string_from_display_ensures::<serde_json::Error>(&error, message)
                },
            },
    {
        match prop {
            Ok(value) => {
                self.properties.insert(key.to_owned(), value);
                Ok(())
            },
            Err(error) => Err(ClientError::serialization(&error)),
        }
    }
}

/// What is sent to the decide endpoint: the project's key and the user.
#[derive(Debug)]
pub struct DecideRequestData {
    pub api_key: String,
    pub distinct_id: String,
}

/// A `DecideRequestData` as plain data.
pub struct DecideRequestDataView {
    pub api_key: Seq<char>,
    pub distinct_id: Seq<char>,
}

impl View for DecideRequestData {
    type V = DecideRequestDataView;

    open spec fn view(&self) -> DecideRequestDataView {
        DecideRequestDataView { api_key: self.api_key@, distinct_id: self.distinct_id@ }
    }
}

/// What the decide endpoint answers: for each flag whether it is on, and the
/// payloads that come with flags.
#[derive(Debug)]
pub struct DecideResponse {
    pub feature_flags: Dict<bool>,
    pub feature_flag_payloads: Dict<String>,
}

/// A `DecideResponse` as plain data.
pub struct DecideResponseView {
    pub feature_flags: Map<Seq<char>, bool>,
    pub feature_flag_payloads: Map<Seq<char>, Seq<char>>,
}

impl View for DecideResponse {
    type V = DecideResponseView;

    open spec fn view(&self) -> DecideResponseView {
        DecideResponseView {
            feature_flags: self.feature_flags@,
            feature_flag_payloads: self.feature_flag_payloads@.map_values(|payload: String| payload@),
        }
    }
}

} // verus!
