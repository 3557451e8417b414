//! A client library for an analytics ingestion service, without the I/O.
//!
//! The library models events and feature-flag queries, builds the requests
//! that carry them, and decides what follows from each response. Sending the
//! requests is left to the caller.

pub mod client;
pub mod dict;
pub mod error;
pub mod event;
pub mod feature_flag;
pub mod json;
pub mod request;

pub use client::client;
pub use client::Client;
pub use client::ClientOptions;
pub use client::FlagStep;
pub use client::API_ENDPOINT;
pub use dict::Dict;
pub use error::ClientError;
pub use event::Event;
pub use event::InnerEvent;
pub use feature_flag::DecideRequestData;
pub use feature_flag::DecideResponse;
pub use feature_flag::FeatureFlagPayload;
pub use request::Body;
pub use request::Request;
