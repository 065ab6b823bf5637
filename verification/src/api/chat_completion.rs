//! Chat completion. The request and the response carry no fields yet: each
//! is encoded as the empty JSON object and decoded from any JSON object.

use crate::error::CodecError;
use crate::json::{
    as_members, json_document, json_of, new_members, object_value, read_document, Json, Members,
};
use crate::request::{IntoRequest, Method, Request};
use vstd::prelude::*;

verus! {

/// Whether a JSON value describes a type without fields: any object does,
/// whatever its members, and nothing else.
pub open spec fn decode_fieldless(json: Json) -> Result<(), CodecError> {
    match json {
        Json::Object(_) => Ok(()),
        _ => Err(CodecError::NotAnObject),
    }
}

/// Whether the bytes of a JSON document describe a type without fields.
pub open spec fn parse_fieldless(bytes: Seq<u8>) -> Result<(), CodecError> {
    match json_document(bytes) {
        Some(json) => decode_fieldless(json),
        None => Err(CodecError::Syntax),
    }
}

/// A chat completion request.
#[derive(Debug)]
pub struct ChatcompletionRequest {}

/// The response to a chat completion request.
#[derive(Debug)]
pub struct ChatCompletionResponse {}

impl Clone for ChatcompletionRequest {
    fn clone(&self) -> (copy: ChatcompletionRequest)
        ensures
            copy == *self,
    {
        ChatcompletionRequest {  }
    }
}

impl Clone for ChatCompletionResponse {
    fn clone(&self) -> (copy: ChatCompletionResponse)
        ensures
            copy == *self,
    {
        ChatCompletionResponse {  }
    }
}

impl ChatcompletionRequest {
    /// Encodes the request as the empty JSON object.
    pub fn to_value(&self) -> (value: serde_json::Value)
        ensures
            json_of(value) == Json::Object(Members::empty()),
    {
        object_value(new_members())
    }

    /// Decodes a request from a JSON object.
    pub fn from_value(value: &serde_json::Value) -> (decoded: Result<
        ChatcompletionRequest,
        CodecError,
    >)
        ensures
            match decoded {
                Ok(_) => decode_fieldless(json_of(*value)) == Ok::<(), CodecError>(()),
                Err(e) => decode_fieldless(json_of(*value)) == Err::<(), CodecError>(e),
            },
    {
        match as_members(value) {
            Some(_) => Ok(ChatcompletionRequest {  }),
            None => Err(CodecError::NotAnObject),
        }
    }
}

impl IntoRequest for ChatcompletionRequest {
    open spec fn endpoint() -> Seq<char> {
        "https://api.openai.com/v1/chat/completions"@
    }

    open spec fn body(&self) -> Members {
        Members::empty()
    }

    /// The POST to the chat completion endpoint with the empty object as its
    /// JSON body.
    fn into_request(self) -> (request: Request) {
        let body = self.to_value();
        Request {
            method: Method::Post,
            url: "https://api.openai.com/v1/chat/completions".to_owned(),
            body,
        }
    }
}

impl ChatCompletionResponse {
    /// Encodes the response as the empty JSON object.
    pub fn to_value(&self) -> (value: serde_json::Value)
        ensures
            json_of(value) == Json::Object(Members::empty()),
    {
        object_value(new_members())
    }

    /// Decodes a response from a JSON object.
    pub fn from_value(value: &serde_json::Value) -> (decoded: Result<
        ChatCompletionResponse,
        CodecError,
    >)
        ensures
            match decoded {
                Ok(_) => decode_fieldless(json_of(*value)) == Ok::<(), CodecError>(()),
                Err(e) => decode_fieldless(json_of(*value)) == Err::<(), CodecError>(e),
            },
    {
        match as_members(value) {
            Some(_) => Ok(ChatCompletionResponse {  }),
            None => Err(CodecError::NotAnObject),
        }
    }

    /// Decodes a response from the bytes of a JSON document.
    pub fn parse(bytes: &[u8]) -> (parsed: Result<ChatCompletionResponse, CodecError>)
        ensures
            match parsed {
                Ok(_) => parse_fieldless(bytes@) == Ok::<(), CodecError>(()),
                Err(e) => parse_fieldless(bytes@) == Err::<(), CodecError>(e),
            },
    {
        match read_document(bytes) {
            Ok(value) => ChatCompletionResponse::from_value(&value),
            Err(_) => Err(CodecError::Syntax),
        }
    }
}

} // verus!
