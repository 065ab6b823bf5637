//! What a request type hands to the transport: a method, a URL and a JSON
//! body. Sending it is the caller's business.

use crate::json::{json_of, Json, Members};
use vstd::prelude::*;

verus! {

/// The HTTP method of a request.
#[derive(Debug, Clone, Copy, PartialEq, Eq, Structural)]
pub enum Method {
    Post,
}

/// A request that is ready to be sent. The body travels as JSON, so the
/// transport sends it with the content type `application/json`.
#[derive(Debug)]
pub struct Request {
    pub method: Method,
    pub url: String,
    pub body: serde_json::Value,
}

/// A type of request that knows its endpoint and its JSON body.
pub trait IntoRequest: Sized {
    /// The URL of the endpoint.
    spec fn endpoint() -> Seq<char>;

    /// The members of the JSON body.
    spec fn body(&self) -> Members;

    /// The POST to the endpoint with this request as its JSON body.
    fn into_request(self) -> (request: Request)
        ensures
            request.method == Method::Post,
            request.url@ == Self::endpoint(),
            json_of(request.body) == Json::Object(self.body()),
    ;
}

} // verus!
