//! The one call that an exchange makes: a POST to a fixed endpoint.

use vstd::prelude::*;
use vstd::string::*;
use crate::request::{build_request, request_for, ChatRequest, ChatRequestView};

verus! {

/// The method of the one call.
pub const METHOD: &'static str = "POST";

/// Where every request is posted.
pub const ENDPOINT: &'static str = "https://api.openai.com/v1/chat/completions";

/// The environment variable that holds the credential.
pub const CREDENTIAL_VARIABLE: &'static str = "OPENAI_API_KEY";

/// The name of the header that tells the type of the body.
pub const CONTENT_TYPE: &'static str = "Content-Type";

/// The type of the body.
pub const JSON_CONTENT: &'static str = "application/json";

/// The name of the header that carries the credential.
pub const AUTHORIZATION: &'static str = "Authorization";

/// What stands before the credential in its header.
pub const BEARER: &'static str = "Bearer ";

/// A header line: a name and a value.
#[derive(Clone, Debug, PartialEq, Eq)]
pub struct Header {
    pub name: String,
    pub value: String,
}

impl View for Header {
    type V = (Seq<char>, Seq<char>);

    open spec fn view(&self) -> (Seq<char>, Seq<char>) {
        (self.name@, self.value@)
    }
}

/// The views of a run of headers, in order.
pub open spec fn header_views(headers: Seq<Header>) -> Seq<(Seq<char>, Seq<char>)> {
    headers.map_values(|h: Header| h@)
}

/// What a [`PostRequest`] is in contracts.
pub struct PostRequestView {
    pub method: Seq<char>,
    pub url: Seq<char>,
    pub headers: Seq<(Seq<char>, Seq<char>)>,
    pub payload: ChatRequestView,
}

/// A call that is ready to be made: the method, the address, the headers in
/// order, and the request whose JSON text is the body.
#[derive(Clone, Debug, PartialEq, Eq)]
pub struct PostRequest {
    pub method: String,
    pub url: String,
    pub headers: Vec<Header>,
    pub payload: ChatRequest,
}

impl View for PostRequest {
    type V = PostRequestView;

    open spec fn view(&self) -> PostRequestView {
        PostRequestView {
            method: self.method@,
            url: self.url@,
            headers: header_views(self.headers@),
            payload: self.payload@,
        }
    }
}

/// The value of the authorization header for a credential.
pub open spec fn bearer(credential: Seq<char>) -> Seq<char> {
    BEARER@ + credential
}

/// The POST for a prompt under a credential: to the fixed endpoint, with the
/// content type first and the authorization second, carrying the prompt's
/// request.
pub open spec fn post_for(credential: Seq<char>, prompt: Seq<char>) -> PostRequestView {
    PostRequestView {
        method: METHOD@,
        url: ENDPOINT@,
        headers: seq![(CONTENT_TYPE@, JSON_CONTENT@), (AUTHORIZATION@, bearer(credential))],
        payload: request_for(prompt),
    }
}

/// The value of the authorization header: the scheme, a space, the credential.
pub fn authorization_value(credential: &str) -> (value: String)
    ensures
        value@ == bearer(credential@),
{
    let mut value = String::from_str(BEARER);
    value.append(credential);
    value
}

/// Makes the POST for `prompt` under `credential`.
pub fn prepare(credential: &str, prompt: &str) -> (post: PostRequest)
    ensures
        post@ == post_for(credential@, prompt@),
{
    let mut headers: Vec<Header> = Vec::new();
    headers.push(Header { name: String::from_str(CONTENT_TYPE), value: String::from_str(JSON_CONTENT) });
    headers.push(Header { name: String::from_str(AUTHORIZATION), value: authorization_value(credential) });
    assert(header_views(headers@) =~= post_for(credential@, prompt@).headers);
    PostRequest {
        method: String::from_str(METHOD),
        url: String::from_str(ENDPOINT),
        headers,
        payload: build_request(prompt),
    }
}

} // verus!
