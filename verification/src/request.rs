//! The requests that the client asks its caller to send.

use crate::event::InnerEvent;
use crate::event::InnerEventView;
use crate::feature_flag::DecideRequestData;
use crate::feature_flag::DecideRequestDataView;
use vstd::prelude::*;

verus! {

/// What a request carries. It goes out as JSON.
#[derive(Debug)]
pub enum Body {
    /// One event.
    Event(InnerEvent),
    /// Some events, in the order in which they were given.
    Batch(Vec<InnerEvent>),
    /// A question to the decide endpoint.
    Decide(DecideRequestData),
}

/// A `Body` as plain data.
pub enum BodyView {
    Event(InnerEventView),
    Batch(Seq<InnerEventView>),
    Decide(DecideRequestDataView),
}

impl View for Body {
    type V = BodyView;

    open spec fn view(&self) -> BodyView {
        match self {
            Body::Event(event) => BodyView::Event(event@),
            Body::Batch(events) => BodyView::Batch(events@.map_values(|event: InnerEvent| event@)),
            Body::Decide(question) => BodyView::Decide(question@),
        }
    }
}

/// A POST request: where it goes, what its `Content-Type` header says, and
/// what it carries.
#[derive(Debug)]
pub struct Request {
    pub url: String,
    pub content_type: String,
    pub body: Body,
}

/// A `Request` as plain data.
pub struct RequestView {
    pub url: Seq<char>,
    pub content_type: Seq<char>,
    pub body: BodyView,
}

impl View for Request {
    type V = RequestView;

    open spec fn view(&self) -> RequestView {
        RequestView { url: self.url@, content_type: self.content_type@, body: self.body@ }
    }
}

impl RequestView {
    /// The request that carries `body` to `url` as JSON.
    pub open spec fn json(url: Seq<char>, body: BodyView) -> RequestView {
        RequestView { url, content_type: "application/json"@, body }
    }
}

impl Request {
    /// The request that carries `body` to `url` as JSON.
    pub fn json(url: String, body: Body) -> (made: Request)
        ensures
            made@ == RequestView::json(url@, body@),
    {
        Request { url, content_type: "application/json".to_owned(), body }
    }
}

} // verus!
