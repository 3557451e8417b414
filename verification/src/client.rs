//! The client: its options, the requests it builds, and the evaluation of a
//! feature flag step by step.

use crate::error::ClientError;
use crate::error::ClientErrorView;
use crate::event::Event;
use crate::event::EventView;
use crate::event::InnerEvent;
use crate::event::InnerEventView;
use crate::feature_flag::DecideRequestData;
use crate::feature_flag::DecideRequestDataView;
use crate::feature_flag::DecideResponse;
use crate::feature_flag::DecideResponseView;
use crate::feature_flag::FeatureFlagPayload;
use crate::feature_flag::FeatureFlagPayloadView;
use crate::json::bool_to_value;
use crate::json::json_bool;
use crate::json::json_string;
use crate::json::string_to_value;
use crate::request::Body;
use crate::request::BodyView;
use crate::request::Request;
use crate::request::RequestView;
use vstd::prelude::*;
use vstd::string::*;

verus! {

/// Where events go unless the options say otherwise.
pub const API_ENDPOINT: &'static str = "https://us.i.posthog.com/";

/// How many seconds a request may take unless the options say otherwise.
pub const REQUEST_TIMEOUT_SECONDS: u64 = 30;

/// What a client is set up with.
#[derive(Debug)]
pub struct ClientOptions {
    pub api_endpoint: String,
    pub api_key: String,
    pub request_timeout_seconds: u64,
}

/// `ClientOptions` as plain data.
pub struct ClientOptionsView {
    pub api_endpoint: Seq<char>,
    pub api_key: Seq<char>,
    pub request_timeout_seconds: u64,
}

impl View for ClientOptions {
    type V = ClientOptionsView;

    open spec fn view(&self) -> ClientOptionsView {
        ClientOptionsView {
            api_endpoint: self.api_endpoint@,
            api_key: self.api_key@,
            request_timeout_seconds: self.request_timeout_seconds,
        }
    }
}

impl ClientOptions {
    /// The options for the project with the key `api_key`, at the usual
    /// endpoint and with the usual timeout.
    pub fn new(api_key: &str) -> (made: ClientOptions)
        ensures
            made@ == (ClientOptionsView {
                api_endpoint: API_ENDPOINT@,
                api_key: api_key@,
                request_timeout_seconds: REQUEST_TIMEOUT_SECONDS,
            }),
    {
        ClientOptions {
            api_endpoint: API_ENDPOINT.to_owned(),
            api_key: api_key.to_owned(),
            request_timeout_seconds: REQUEST_TIMEOUT_SECONDS,
        }
    }
}

/// A client of the service. It sends nothing itself: it builds requests for
/// its caller to send.
#[derive(Debug)]
pub struct Client {
    options: ClientOptions,
}

impl View for Client {
    type V = ClientOptionsView;

    closed spec fn view(&self) -> ClientOptionsView {
        self.options@
    }
}

/// A client with the options `options`.
pub fn client(options: ClientOptions) -> (made: Client)
    ensures
        made@ == options@,
{
    Client { options }
}

impl ClientOptionsView {
    /// The request that sends `event`.
    pub open spec fn capture(self, event: EventView) -> RequestView {
        RequestView::json(
            self.api_endpoint,
            BodyView::Event(InnerEventView::keyed(event, self.api_key)),
        )
    }

    /// The request that sends `events`, in their order.
    pub open spec fn capture_batch(self, events: Seq<EventView>) -> RequestView {
        RequestView::json(
            self.api_endpoint,
            BodyView::Batch(
                events.map_values(|event: EventView| InnerEventView::keyed(event, self.api_key)),
            ),
        )
    }

    /// The request that puts `question` to the decide endpoint.
    pub open spec fn make_decide_request(self, question: DecideRequestDataView) -> RequestView {
        RequestView::json(self.api_endpoint + "decide/?v=3"@, BodyView::Decide(question))
    }

    /// The first step for the query `config`: a query that names no flag or
    /// no user is turned down, any other is put to the decide endpoint.
    pub open spec fn is_feature_enabled(self, config: FeatureFlagPayloadView) -> FlagStepView {
        if config.is_valid() {
            FlagStepView::Ask(
                self.make_decide_request(
                    DecideRequestDataView {
                        api_key: self.api_key,
                        distinct_id: config.distinct_id,
                    },
                ),
                config,
            )
        } else {
            FlagStepView::Done(Err(ClientErrorView::Connection("Invalid feature flag payload"@)))
        }
    }

    /// The step after the decide endpoint was asked about `config` and
    /// `response` came of it. A flag that the response knows is reported
    /// with the event `flag_called`; one that it does not know is an error;
    /// and so is a request that failed, with the text of its error as the
    /// message.
    pub open spec fn flag_decided(
        self,
        config: FeatureFlagPayloadView,
        response: Result<DecideResponseView, ClientErrorView>,
    ) -> FlagStepView {
        match response {
            Ok(decided) => {
                if decided.feature_flags.contains_key(config.key) {
                    let active = decided.feature_flags[config.key];
                    FlagStepView::Report(self.capture(flag_called(config, active)), active)
                } else {
                    FlagStepView::Done(Err(ClientErrorView::Connection("Feature flag not found"@)))
                }
            },
            Err(error) => FlagStepView::Done(Err(ClientErrorView::Serialization(error.text()))),
        }
    }
}

impl ClientOptionsView {
    /// What the evaluation of `config` ends with when the decide endpoint,
    /// where it is asked, answers `response`.
    pub open spec fn evaluation(
        self,
        config: FeatureFlagPayloadView,
        response: Result<DecideResponseView, ClientErrorView>,
    ) -> Result<bool, ClientErrorView> {
        if !config.is_valid() {
            Err(ClientErrorView::Connection("Invalid feature flag payload"@))
        } else {
            match response {
                Ok(decided) => {
                    if decided.feature_flags.contains_key(config.key) {
                        Ok(decided.feature_flags[config.key])
                    } else {
                        Err(ClientErrorView::Connection("Feature flag not found"@))
                    }
                },
                Err(error) => Err(ClientErrorView::Serialization(error.text())),
            }
        }
    }
}

/// The steps of an evaluation, taken one after the other, end with
/// `evaluation`. The first step is over at once exactly for a query that is
/// not valid; otherwise it asks, and hands the query on unchanged. The step
/// after the answer never asks again: it is over with an error, or it reports
/// the flag's value, which `Client::flag_reported` then gives as the result.
pub proof fn lemma_steps_end_with_evaluation(
    client: ClientOptionsView,
    config: FeatureFlagPayloadView,
    response: Result<DecideResponseView, ClientErrorView>,
)
    ensures
        match client.is_feature_enabled(config) {
            FlagStepView::Done(result) => !config.is_valid() && result == client.evaluation(
                config,
                response,
            ),
            FlagStepView::Ask(_, asked) => {
                &&& config.is_valid()
                &&& asked == config
                &&& match client.flag_decided(asked, response) {
                    FlagStepView::Done(result) => result is Err && result == client.evaluation(
                        config,
                        response,
                    ),
                    FlagStepView::Report(_, active) => client.evaluation(config, response) == Ok::<
                        bool,
                        ClientErrorView,
                    >(active),
                    FlagStepView::Ask(_, _) => false,
                }
            },
            FlagStepView::Report(_, _) => false,
        },
{
}

/// The event that records that the flag of `config` was evaluated for its
/// user and found to be `active`.
pub open spec fn flag_called(config: FeatureFlagPayloadView, active: bool) -> EventView {
    EventView::named("$feature_flag_called"@, config.distinct_id).with_prop(
        "$feature_flag"@,
        json_string(config.key),
    ).with_prop("$feature_flag_response"@, json_bool(active))
}

/// One step in the evaluation of a feature flag.
#[derive(Debug)]
pub enum FlagStep {
    /// Send the request to the decide endpoint and hand the query and what
    /// comes of the request to `Client::flag_decided`.
    Ask(Request, FeatureFlagPayload),
    /// The flag has this value. Send the request, which records the
    /// evaluation, and hand what comes of it to `Client::flag_reported`.
    Report(Request, bool),
    /// The evaluation is over, with this result.
    Done(Result<bool, ClientError>),
}

/// A `FlagStep` as plain data.
pub enum FlagStepView {
    Ask(RequestView, FeatureFlagPayloadView),
    Report(RequestView, bool),
    Done(Result<bool, ClientErrorView>),
}

impl View for FlagStep {
    type V = FlagStepView;

    open spec fn view(&self) -> FlagStepView {
        match self {
            FlagStep::Ask(request, config) => FlagStepView::Ask(request@, config@),
            FlagStep::Report(request, active) => FlagStepView::Report(request@, *active),
            FlagStep::Done(Ok(active)) => FlagStepView::Done(Ok(*active)),
            FlagStep::Done(Err(error)) => FlagStepView::Done(Err(error@)),
        }
    }
}

/// What came of a request to the decide endpoint, as plain data.
pub open spec fn decided_view(response: Result<DecideResponse, ClientError>) -> Result<
    DecideResponseView,
    ClientErrorView,
> {
    match response {
        Ok(decided) => Ok(decided@),
        Err(error) => Err(error@),
    }
}

impl Client {
    /// The options that the client was made with.
    pub fn options(&self) -> (options: &ClientOptions)
        ensures
            options@ == self@,
    {
        &self.options
    }

    /// The request that sends `event` under the client's key.
    pub fn capture(&self, event: Event) -> (request: Request)
        ensures
            request@ == self@.capture(event@),
    {
        let inner = InnerEvent::new(event, self.options.api_key.clone());
        Request::json(self.options.api_endpoint.clone(), Body::Event(inner))
    }

    /// The request that sends `events` under the client's key, in their order.
    pub fn capture_batch(&self, events: Vec<Event>) -> (request: Request)
        ensures
            request@ == self@.capture_batch(events@.map_values(|event: Event| event@)),
    {
        let ghost given = events@;
        let mut inner: Vec<InnerEvent> = Vec::new();
        for event in it: events.into_iter()
            invariant
                it.seq() == given,
                inner@.len() == it.index(),
                forall|i: int|
                    0 <= i < inner@.len() ==> (#[trigger] inner@[i])@ == InnerEventView::keyed(
                        given[i]@,
                        self@.api_key,
                    ),
        {
            inner.push(InnerEvent::new(event, self.options.api_key.clone()));
        }
        let request = Request::json(self.options.api_endpoint.clone(), Body::Batch(inner));
        assert(inner@.map_values(|event: InnerEvent| event@) =~= given.map_values(
            |event: Event| event@,
        ).map_values(|event: EventView| InnerEventView::keyed(event, self@.api_key)));
        request
    }

    /// The request that puts `question` to the decide endpoint.
    pub fn make_decide_request(&self, question: DecideRequestData) -> (request: Request)
        ensures
            request@ == self@.make_decide_request(question@),
    {
        let url = self.options.api_endpoint.clone().concat("decide/?v=3");
        Request::json(url, Body::Decide(question))
    }

    /// Starts the evaluation of the flag that `config` names. A query that
    /// names no flag or no user is turned down at once; for any other the
    /// step is to ask the decide endpoint about the user.
    pub fn is_feature_enabled(&self, config: FeatureFlagPayload) -> (step: FlagStep)
        ensures
            step@ == self@.is_feature_enabled(config@),
    {
        if config.key.as_str().is_empty() || config.distinct_id.as_str().is_empty() {
            return FlagStep::Done(
                Err(ClientError::Connection("Invalid feature flag payload".to_owned())),
            );
        }
        let question = DecideRequestData {
            api_key: self.options.api_key.clone(),
            distinct_id: config.distinct_id.clone(),
        };
        FlagStep::Ask(self.make_decide_request(question), config)
    }

    /// Goes on with the evaluation once the decide endpoint was asked and
    /// `response` came of it. Where the response knows the flag, the step is
    /// to report the evaluation; where it does not, or where the request
    /// failed, the evaluation is over with an error.
    pub fn flag_decided(
        &self,
        config: FeatureFlagPayload,
        response: Result<DecideResponse, ClientError>,
    ) -> (step: FlagStep)
        ensures
            step@ == self@.flag_decided(config@, decided_view(response)),
    {
        match response {
            Ok(decided) => match decided.feature_flags.get(config.key.as_str()) {
                Some(found) => {
                    let active = *found;
                    let mut event = Event::new("$feature_flag_called", config.distinct_id.as_str());
                    let _ = event.insert_prop("$feature_flag", string_to_value(config.key));
                    let _ = event.insert_prop("$feature_flag_response", bool_to_value(active));
                    FlagStep::Report(self.capture(event), active)
                },
                None => FlagStep::Done(
                    Err(ClientError::Connection("Feature flag not found".to_owned())),
                ),
            },
            Err(error) => FlagStep::Done(Err(ClientError::Serialization(error.to_string()))),
        }
    }

    /// Ends the evaluation once the report was sent and `sent` came of it:
    /// the flag's value is the answer, whether or not the report arrived.
    pub fn flag_reported(active: bool, sent: Result<(), ClientError>) -> (step: FlagStep)
        ensures
            step@ == FlagStepView::Done(Ok(active)),
    {
        FlagStep::Done(Ok(active))
    }
}

} // verus!
