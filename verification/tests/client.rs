use posthog_rs::client;
use posthog_rs::Body;
use posthog_rs::Client;
use posthog_rs::ClientError;
use posthog_rs::ClientOptions;
use posthog_rs::DecideRequestData;
use posthog_rs::DecideResponse;
use posthog_rs::Dict;
use posthog_rs::Event;
use posthog_rs::FeatureFlagPayload;
use posthog_rs::FlagStep;
use posthog_rs::Request;
use posthog_rs::API_ENDPOINT;
use serde_json::Value;

fn local_client() -> Client {
    client(ClientOptions {
        api_endpoint: "http://localhost:8000/".to_string(),
        api_key: "project-key".to_string(),
        request_timeout_seconds: 5,
    })
}

fn response_with(flags: &[(&str, bool)]) -> DecideResponse {
    let mut feature_flags = Dict::new();
    for (name, active) in flags {
        feature_flags.insert(name.to_string(), *active);
    }
    DecideResponse { feature_flags, feature_flag_payloads: Dict::new() }
}

fn reported(step: FlagStep) -> (Request, bool) {
    match step {
        FlagStep::Report(request, active) => (request, active),
        other => panic!("expected a report, got {:?}", other),
    }
}

fn done(step: FlagStep) -> Result<bool, ClientError> {
    match step {
        FlagStep::Done(result) => result,
        other => panic!("expected the end, got {:?}", other),
    }
}

#[test]
fn options_for_a_key_use_the_usual_endpoint() {
    let options = ClientOptions::new("project-key");
    assert_eq!(options.api_key, "project-key");
    assert_eq!(options.api_endpoint, "https://us.i.posthog.com/");
    assert_eq!(options.api_endpoint, API_ENDPOINT);
    assert_eq!(options.request_timeout_seconds, 30);
}

#[test]
fn client_keeps_its_options() {
    let made = local_client();
    assert_eq!(made.options().api_endpoint, "http://localhost:8000/");
    assert_eq!(made.options().api_key, "project-key");
    assert_eq!(made.options().request_timeout_seconds, 5);
}

#[test]
fn capture_builds_a_json_post_to_the_endpoint() {
    let mut event = Event::new("signup", "user-1");
    event.insert_prop("plan", serde_json::to_value("free")).unwrap();
    let request = local_client().capture(event);
    assert_eq!(request.url, "http://localhost:8000/");
    assert_eq!(request.content_type, "application/json");
    match request.body {
        Body::Event(inner) => {
            assert_eq!(inner.api_key, "project-key");
            assert_eq!(inner.event, "signup");
            assert_eq!(inner.distinct_id, "user-1");
            assert_eq!(inner.properties.get("plan"), Some(&Value::String("free".to_string())));
            assert_eq!(inner.properties.entries().len(), 1);
        }
        other => panic!("expected one event, got {:?}", other),
    }
}

#[test]
fn capture_batch_keeps_every_event_in_order() {
    let events = vec![
        Event::new("first", "user-1"),
        Event::new("second", "user-2"),
        Event::new("third", "user-1"),
    ];
    let request = local_client().capture_batch(events);
    assert_eq!(request.url, "http://localhost:8000/");
    assert_eq!(request.content_type, "application/json");
    match request.body {
        Body::Batch(inner) => {
            assert_eq!(inner.len(), 3);
            assert_eq!(inner[0].event, "first");
            assert_eq!(inner[1].event, "second");
            assert_eq!(inner[2].event, "third");
            assert_eq!(inner[0].distinct_id, "user-1");
            assert_eq!(inner[1].distinct_id, "user-2");
            assert_eq!(inner[2].distinct_id, "user-1");
            for event in &inner {
                assert_eq!(event.api_key, "project-key");
            }
        }
        other => panic!("expected a batch, got {:?}", other),
    }
}

#[test]
fn capture_batch_of_nothing_is_an_empty_batch() {
    let request = local_client().capture_batch(Vec::new());
    match request.body {
        Body::Batch(inner) => assert!(inner.is_empty()),
        other => panic!("expected a batch, got {:?}", other),
    }
}

#[test]
fn decide_request_goes_to_the_decide_endpoint() {
    let question = DecideRequestData {
        api_key: "some-key".to_string(),
        distinct_id: "user-1".to_string(),
    };
    let request = local_client().make_decide_request(question);
    assert_eq!(request.url, "http://localhost:8000/decide/?v=3");
    assert_eq!(request.content_type, "application/json");
    match request.body {
        Body::Decide(question) => {
            assert_eq!(question.api_key, "some-key");
            assert_eq!(question.distinct_id, "user-1");
        }
        other => panic!("expected a question, got {:?}", other),
    }
}

#[test]
fn decide_request_at_the_usual_endpoint() {
    let made = client(ClientOptions::new("project-key"));
    let question = DecideRequestData {
        api_key: "project-key".to_string(),
        distinct_id: "user-1".to_string(),
    };
    assert_eq!(made.make_decide_request(question).url, "https://us.i.posthog.com/decide/?v=3");
}

#[test]
fn flag_query_without_a_flag_is_turned_down() {
    let step = local_client().is_feature_enabled(FeatureFlagPayload::new("", "user-1"));
    assert_eq!(
        done(step),
        Err(ClientError::Connection("Invalid feature flag payload".to_string()))
    );
}

#[test]
fn flag_query_without_a_user_is_turned_down() {
    let step = local_client().is_feature_enabled(FeatureFlagPayload::new("beta", ""));
    assert_eq!(
        done(step),
        Err(ClientError::Connection("Invalid feature flag payload".to_string()))
    );
}

#[test]
fn flag_query_asks_the_decide_endpoint_about_the_user() {
    let step = local_client().is_feature_enabled(FeatureFlagPayload::new("beta", "user-1"));
    match step {
        FlagStep::Ask(request, config) => {
            assert_eq!(config.key, "beta");
            assert_eq!(config.distinct_id, "user-1");
            assert_eq!(request.url, "http://localhost:8000/decide/?v=3");
            assert_eq!(request.content_type, "application/json");
            match request.body {
                Body::Decide(question) => {
                    assert_eq!(question.api_key, "project-key");
                    assert_eq!(question.distinct_id, "user-1");
                }
                other => panic!("expected a question, got {:?}", other),
            }
        }
        other => panic!("expected a question to ask, got {:?}", other),
    }
}

#[test]
fn known_flag_is_reported_with_its_value() {
    let config = FeatureFlagPayload::new("beta", "user-1");
    let response = response_with(&[("alpha", false), ("beta", true)]);
    let (request, active) = reported(local_client().flag_decided(config, Ok(response)));
    assert!(active);
    assert_eq!(request.url, "http://localhost:8000/");
    assert_eq!(request.content_type, "application/json");
    match request.body {
        Body::Event(inner) => {
            assert_eq!(inner.api_key, "project-key");
            assert_eq!(inner.event, "$feature_flag_called");
            assert_eq!(inner.distinct_id, "user-1");
            assert_eq!(
                inner.properties.get("$feature_flag"),
                Some(&Value::String("beta".to_string()))
            );
            assert_eq!(inner.properties.get("$feature_flag_response"), Some(&Value::Bool(true)));
            assert_eq!(inner.properties.entries().len(), 2);
        }
        other => panic!("expected one event, got {:?}", other),
    }
}

#[test]
fn flag_that_is_off_is_reported_as_off() {
    let config = FeatureFlagPayload::new("alpha", "user-1");
    let response = response_with(&[("alpha", false), ("beta", true)]);
    let (request, active) = reported(local_client().flag_decided(config, Ok(response)));
    assert!(!active);
    match request.body {
        Body::Event(inner) => {
            assert_eq!(
                inner.properties.get("$feature_flag"),
                Some(&Value::String("alpha".to_string()))
            );
            assert_eq!(inner.properties.get("$feature_flag_response"), Some(&Value::Bool(false)));
        }
        other => panic!("expected one event, got {:?}", other),
    }
}

#[test]
fn unknown_flag_is_an_error() {
    let config = FeatureFlagPayload::new("gamma", "user-1");
    let response = response_with(&[("alpha", false), ("beta", true)]);
    assert_eq!(
        done(local_client().flag_decided(config, Ok(response))),
        Err(ClientError::Connection("Feature flag not found".to_string()))
    );
}

#[test]
fn flag_in_an_empty_response_is_an_error() {
    let config = FeatureFlagPayload::new("beta", "user-1");
    assert_eq!(
        done(local_client().flag_decided(config, Ok(response_with(&[])))),
        Err(ClientError::Connection("Feature flag not found".to_string()))
    );
}

#[test]
fn failed_decide_request_is_a_serialization_error_with_its_text() {
    let config = FeatureFlagPayload::new("beta", "user-1");
    let failure = ClientError::Connection("connection refused".to_string());
    assert_eq!(
        done(local_client().flag_decided(config, Err(failure))),
        Err(ClientError::Serialization("Connection Error: connection refused".to_string()))
    );
    let config = FeatureFlagPayload::new("beta", "user-1");
    let failure = ClientError::Serialization("missing field".to_string());
    assert_eq!(
        done(local_client().flag_decided(config, Err(failure))),
        Err(ClientError::Serialization("Serialization Error: missing field".to_string()))
    );
}

#[test]
fn answer_is_the_flag_whether_or_not_the_report_arrived() {
    assert_eq!(done(Client::flag_reported(true, Ok(()))), Ok(true));
    assert_eq!(done(Client::flag_reported(false, Ok(()))), Ok(false));
    let failure = ClientError::Connection("connection refused".to_string());
    assert_eq!(done(Client::flag_reported(true, Err(failure))), Ok(true));
    let failure = ClientError::Serialization("key must be a string".to_string());
    assert_eq!(done(Client::flag_reported(false, Err(failure))), Ok(false));
}

fn evaluate(
    config: FeatureFlagPayload,
    response: Result<DecideResponse, ClientError>,
) -> (Result<bool, ClientError>, usize) {
    let made = local_client();
    let mut response = Some(response);
    let mut requests = 0;
    let mut step = made.is_feature_enabled(config);
    loop {
        step = match step {
            FlagStep::Ask(_, config) => {
                requests += 1;
                made.flag_decided(config, response.take().expect("asked once"))
            }
            FlagStep::Report(_, active) => {
                requests += 1;
                Client::flag_reported(active, Err(ClientError::Connection("lost".to_string())))
            }
            FlagStep::Done(result) => return (result, requests),
        };
    }
}

#[test]
fn evaluation_of_an_invalid_query_sends_nothing() {
    let (result, requests) =
        evaluate(FeatureFlagPayload::new("", "user-1"), Ok(response_with(&[("", true)])));
    assert_eq!(result, Err(ClientError::Connection("Invalid feature flag payload".to_string())));
    assert_eq!(requests, 0);
}

#[test]
fn evaluation_of_a_known_flag_sends_two_requests() {
    let (result, requests) =
        evaluate(FeatureFlagPayload::new("beta", "user-1"), Ok(response_with(&[("beta", true)])));
    assert_eq!(result, Ok(true));
    assert_eq!(requests, 2);
    let (result, requests) =
        evaluate(FeatureFlagPayload::new("beta", "user-1"), Ok(response_with(&[("beta", false)])));
    assert_eq!(result, Ok(false));
    assert_eq!(requests, 2);
}

#[test]
fn evaluation_of_an_unknown_flag_sends_one_request() {
    let (result, requests) =
        evaluate(FeatureFlagPayload::new("beta", "user-1"), Ok(response_with(&[("alpha", true)])));
    assert_eq!(result, Err(ClientError::Connection("Feature flag not found".to_string())));
    assert_eq!(requests, 1);
}

#[test]
fn evaluation_after_a_failed_request_sends_one_request() {
    let failure = ClientError::Connection("connection refused".to_string());
    let (result, requests) = evaluate(FeatureFlagPayload::new("beta", "user-1"), Err(failure));
    assert_eq!(
        result,
        Err(ClientError::Serialization("Connection Error: connection refused".to_string()))
    );
    assert_eq!(requests, 1);
}
