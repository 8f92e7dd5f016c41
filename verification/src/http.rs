//! HTTP requests and responses as they travel on the bus, the response
//! builder, and the matching of a request against a method and a path
//! pattern.

use vstd::prelude::*;
use vstd::utf8::encode_utf8;
use crate::json::{encode_object, json_object_text, members_model, JsonScalarModel, LYServerJsonScalar};
use crate::string_map::{put, LYServerStringMap, Pairs};
use crate::text::{decimal, decimal_text};

verus! {

/// An incoming request.
#[derive(Debug, PartialEq, Eq)]
pub struct LYServerHTTPRequest {
    pub method: String,
    pub uri: String,
    pub params: LYServerStringMap,
    pub version: String,
    pub headers: LYServerStringMap,
    pub body: Option<Vec<u8>>,
}

/// The mathematical value of a request.
pub struct RequestModel {
    pub method: Seq<char>,
    pub uri: Seq<char>,
    pub params: Pairs,
    pub version: Seq<char>,
    pub headers: Pairs,
    pub body: Option<Seq<u8>>,
}

impl View for LYServerHTTPRequest {
    type V = RequestModel;

    open spec fn view(&self) -> RequestModel {
        RequestModel {
            method: self.method@,
            uri: self.uri@,
            params: self.params@,
            version: self.version@,
            headers: self.headers@,
            body: match self.body {
                Some(b) => Some(b@),
                None => None,
            },
        }
    }
}

impl Clone for LYServerHTTPRequest {
    fn clone(&self) -> (r: Self)
        ensures
            r@ == self@,
    {
        LYServerHTTPRequest {
            method: self.method.clone(),
            uri: self.uri.clone(),
            params: self.params.clone(),
            version: self.version.clone(),
            headers: self.headers.clone(),
            body: match &self.body {
                Some(b) => Some(b.clone()),
                None => None,
            },
        }
    }
}

/// Makes `bytes::Bytes`, a shareable buffer of bytes, known as a type. What
/// it holds is spoken of through `bytes_content`.
#[verifier::external_type_specification]
#[verifier::external_body]
pub struct ExBytes(bytes::Bytes);

/// The bytes that a `bytes::Bytes` holds, in order.
pub uninterp spec fn bytes_content(held: bytes::Bytes) -> Seq<u8>;

/// Calls `Bytes::from` on a vector. The buffer takes the vector's storage
/// over and holds what the vector held.
#[verifier::external_body]
pub(crate) fn bytes_from_vec(bytes: Vec<u8>) -> (r: bytes::Bytes)
    ensures
        bytes_content(r) == bytes@,
{
    bytes::Bytes::from(bytes)
}

/// A response, with the request that it answers.
#[derive(Debug, PartialEq, Eq)]
pub struct LYServerHTTPResponse {
    pub request: LYServerHTTPRequest,
    pub status_code: u16,
    pub headers: LYServerStringMap,
    pub body: Vec<u8>,
}

/// The mathematical value of a response.
pub struct ResponseModel {
    pub request: RequestModel,
    pub status_code: u16,
    pub headers: Pairs,
    pub body: Seq<u8>,
}

impl View for LYServerHTTPResponse {
    type V = ResponseModel;

    open spec fn view(&self) -> ResponseModel {
        ResponseModel {
            request: self.request@,
            status_code: self.status_code,
            headers: self.headers@,
            body: self.body@,
        }
    }
}

impl Clone for LYServerHTTPResponse {
    fn clone(&self) -> (r: Self)
        ensures
            r@ == self@,
    {
        LYServerHTTPResponse {
            request: self.request.clone(),
            status_code: self.status_code,
            headers: self.headers.clone(),
            body: self.body.clone(),
        }
    }
}

impl ResponseModel {
    /// The response that a builder starts from: status 200, no header, no
    /// body.
    pub open spec fn fresh(request: RequestModel) -> ResponseModel {
        ResponseModel { request, status_code: 200, headers: Pairs::empty(), body: Seq::empty() }
    }

    /// The response with another status code.
    pub open spec fn with_status(self, code: u16) -> ResponseModel {
        ResponseModel { status_code: code, ..self }
    }

    /// The response with a header set.
    pub open spec fn with_header(self, key: Seq<char>, value: Seq<char>) -> ResponseModel {
        ResponseModel { headers: put(self.headers, key, value), ..self }
    }

    /// The response with another body.
    pub open spec fn with_body(self, body: Seq<u8>) -> ResponseModel {
        ResponseModel { body, ..self }
    }

    /// The response after a JSON body was asked for: with a text, the text is
    /// the body and the content type says so; without one, the status is 500
    /// and the body says what failed.
    pub open spec fn with_json(self, encoded: Option<Seq<char>>) -> ResponseModel {
        match encoded {
            Some(text) => self.with_body(encode_utf8(text)).with_header(
                "content-type"@,
                "application/json"@,
            ),
            None => self.with_status(500).with_body(encode_utf8("Failed to serialize JSON"@)),
        }
    }

    /// The response that reports an error: the given status code, and as
    /// body the JSON object that `error_members` describes.
    pub open spec fn error(request: RequestModel, status_code: u16, error: Seq<char>) -> ResponseModel {
        ResponseModel::fresh(request).with_status(status_code).with_json(
            Some(json_object_text(error_members(status_code, error))),
        )
    }

    /// The finished response: the content length is the number of bytes of
    /// the body, in decimal.
    pub open spec fn finished(self) -> ResponseModel {
        self.with_header("content-length"@, decimal(self.body.len()))
    }
}

/// The text of a JSON encoding that came back, if one did.
pub open spec fn encoded_text(encoded: Result<String, serde_json::Error>) -> Option<Seq<char>> {
    match encoded {
        Ok(text) => Some(text@),
        Err(_) => None,
    }
}

/// Builds a response step by step.
pub struct LYServerHTTPResponseBuilder {
    response: LYServerHTTPResponse,
}

impl View for LYServerHTTPResponseBuilder {
    type V = ResponseModel;

    closed spec fn view(&self) -> ResponseModel {
        self.response@
    }
}

impl LYServerHTTPResponseBuilder {
    /// A builder for a response to the request: status 200, no header, no
    /// body.
    pub fn new(request: LYServerHTTPRequest) -> (r: Self)
        ensures
            r@ == ResponseModel::fresh(request@),
    {
        LYServerHTTPResponseBuilder {
            response: LYServerHTTPResponse {
                request,
                status_code: 200,
                headers: LYServerStringMap::new(),
                body: Vec::new(),
            },
        }
    }

    /// Sets the status code.
    pub fn status_code(self, code: u16) -> (r: Self)
        ensures
            r@ == self@.with_status(code),
    {
        let mut response = self.response;
        response.status_code = code;
        LYServerHTTPResponseBuilder { response }
    }

    /// Sets a header; a header of that name is replaced.
    pub fn header(self, key: String, value: String) -> (r: Self)
        ensures
            r@ == self@.with_header(key@, value@),
    {
        let mut response = self.response;
        response.headers.insert(key, value);
        LYServerHTTPResponseBuilder { response }
    }

    /// Sets the body.
    pub fn body(self, body: Vec<u8>) -> (r: Self)
        ensures
            r@ == self@.with_body(body@),
    {
        let mut response = self.response;
        response.body = body;
        LYServerHTTPResponseBuilder { response }
    }

    /// Sets a JSON body from the outcome of an encoding. A text becomes the
    /// body, with the content type `application/json`; a failure turns the
    /// response into a 500 that says so.
    pub fn json(self, encoded: Result<String, serde_json::Error>) -> (r: Self)
        ensures
            r@ == self@.with_json(encoded_text(encoded)),
    {
        let mut response = self.response;
        match encoded {
            Ok(text) => {
                response.body = text.as_str().as_bytes_vec();
                response.headers.insert("content-type".to_owned(), "application/json".to_owned());
            },
            Err(_) => {
                response.status_code = 500;
                response.body = "Failed to serialize JSON".as_bytes_vec();
            },
        }
        LYServerHTTPResponseBuilder { response }
    }

    /// Finishes the response: sets the content length to the length of the
    /// body.
    pub fn build(self) -> (r: LYServerHTTPResponse)
        ensures
            r@ == self@.finished(),
    {
        let mut response = self.response;
        let length: usize = response.body.len();
        response.headers.insert("content-length".to_owned(), decimal_text(length as u64));
        response
    }
}

/// The members of the JSON object that reports an error: `ok` is false,
/// `error` is the message and `code` is the status code.
pub open spec fn error_members(status_code: u16, error: Seq<char>) -> Seq<
    (Seq<char>, JsonScalarModel),
> {
    seq![
        ("ok"@, JsonScalarModel::Bool(false)),
        ("error"@, JsonScalarModel::Text(error)),
        ("code"@, JsonScalarModel::Unsigned(status_code as u64)),
    ]
}

impl LYServerHTTPRequest {
    /// A request without path parameters.
    pub fn new(
        method: String,
        uri: String,
        version: String,
        headers: LYServerStringMap,
        body: Option<Vec<u8>>,
    ) -> (r: Self)
        ensures
            r@ == (RequestModel {
                method: method@,
                uri: uri@,
                params: Pairs::empty(),
                version: version@,
                headers: headers@,
                body: match body {
                    Some(b) => Some(b@),
                    None => None,
                },
            }),
    {
        LYServerHTTPRequest {
            method,
            uri,
            params: LYServerStringMap::new(),
            version,
            headers,
            body,
        }
    }

    /// A builder for a response to this request.
    pub fn build_response(&self) -> (r: LYServerHTTPResponseBuilder)
        ensures
            r@ == ResponseModel::fresh(self@),
    {
        LYServerHTTPResponseBuilder::new(self.clone())
    }

    /// A builder for an error response: the status code is the given one,
    /// the body is the JSON object that `error_members` describes, and the
    /// content type is JSON.
    pub fn build_error_response(&self, status_code: u16, error: &str) -> (r:
        LYServerHTTPResponseBuilder)
        ensures
            r@ == ResponseModel::error(self@, status_code, error@),
            r@.status_code == status_code,
    {
        let mut members: Vec<(String, LYServerJsonScalar)> = Vec::new();
        members.push(("ok".to_owned(), LYServerJsonScalar::Bool(false)));
        members.push(("error".to_owned(), LYServerJsonScalar::Text(error.to_owned())));
        members.push(("code".to_owned(), LYServerJsonScalar::Unsigned(status_code as u64)));
        assert(members_model(members@) =~= error_members(status_code, error@));
        let encoded = encode_object(&members);
        LYServerHTTPResponseBuilder::new(self.clone()).status_code(status_code).json(encoded)
    }

    /// The response that says that nothing was found: status 404, with the
    /// JSON object that reports the error as body.
    pub fn not_found_response(&self) -> (r: LYServerHTTPResponse)
        ensures
            r@ == ResponseModel::error(self@, 404, "Page or resource not found"@).finished(),
            r@.status_code == 404,
    {
        self.build_error_response(404, "Page or resource not found").build()
    }

    /// A copy of the body as a shareable buffer, if the request has a body.
    pub fn body(&self) -> (r: Option<bytes::Bytes>)
        ensures
            match r {
                Some(held) => self@.body == Some(bytes_content(held)),
                None => self@.body.is_none(),
            },
    {
        match &self.body {
            Some(b) => Some(bytes_from_vec(b.clone())),
            None => None,
        }
    }
}

} // verus!
